//! The character: its state machine, and the sprite that shows it.

use vstd::prelude::*;
use vstd::string::StringExecFns;
use crate::engine::{Bounds, DrawCommand, ImageElement, Point, Rect};
use crate::game::red_hat_boy_states::{
    Dead, Falling, FallingEndState, Idle, Jumping, JumpingEndState, RedHatBoyContext,
    RedHatBoyState, Running, Sliding, SlidingEndState, FALLING_FRAMES, FALLING_FRAME_NAME, FLOOR,
    IDLE_FRAMES, IDLE_FRAME_NAME, JUMPING_FRAMES, JUMPING_FRAME_NAME, JUMP_SPEED, PLAYER_HEIGHT,
    RUNNING_FRAMES, RUNNING_FRAME_NAME, RUNNING_SPEED, SLIDING_FRAMES, SLIDING_FRAME_NAME,
    STARTING_POINT, TERMINAL_VELOCITY,
};
use crate::game::{Cell, Sheet, HEIGHT, WIDTH_OFFSET, X_OFFSET, Y_OFFSET};

verus! {

/// What can happen to the character.
#[derive(Clone, Copy, Debug, PartialEq, Eq, Structural)]
pub enum Event {
    Run,
    Slide,
    Update,
    Jump,
    KnockOut,
    /// The character comes down on a surface whose top is at the given `y`.
    Land(i16),
}

/// The name of a state.
#[derive(Clone, Copy, Debug, PartialEq, Eq, Structural)]
pub enum StateTag {
    Idle,
    Running,
    Sliding,
    Jumping,
    Falling,
    Dead,
}

impl StateTag {
    /// The label under which the state's sprites are filed. Falling and
    /// Dead share theirs.
    pub open spec fn label(self) -> Seq<char> {
        match self {
            StateTag::Idle => IDLE_FRAME_NAME@,
            StateTag::Running => RUNNING_FRAME_NAME@,
            StateTag::Sliding => SLIDING_FRAME_NAME@,
            StateTag::Jumping => JUMPING_FRAME_NAME@,
            StateTag::Falling => FALLING_FRAME_NAME@,
            StateTag::Dead => FALLING_FRAME_NAME@,
        }
    }

    /// The frame at which the state's animation starts over or ends.
    pub open spec fn frames(self) -> u8 {
        match self {
            StateTag::Idle => IDLE_FRAMES,
            StateTag::Running => RUNNING_FRAMES,
            StateTag::Sliding => SLIDING_FRAMES,
            StateTag::Jumping => JUMPING_FRAMES,
            StateTag::Falling => FALLING_FRAMES,
            StateTag::Dead => FALLING_FRAMES,
        }
    }
}

/// The character as a plain value: the state it is in, and its context.
pub struct CharacterState {
    pub tag: StateTag,
    pub context: RedHatBoyContext,
}

impl CharacterState {
    /// The character as it is spawned.
    pub open spec fn spawn() -> CharacterState {
        CharacterState { tag: StateTag::Idle, context: RedHatBoyContext::spawn() }
    }

    /// What holds of a character however it got where it is, as long as it
    /// landed on nothing below the playfield: the frame is one of the
    /// state's animation, the vertical velocity lies between the jump speed
    /// and the terminal velocity, the character is on the floor or above it,
    /// and it walks only where it is not idle, falling or dead.
    pub open spec fn wf(self) -> bool {
        &&& self.context.frame <= self.tag.frames()
        &&& JUMP_SPEED <= self.context.velocity.y <= TERMINAL_VELOCITY
        &&& self.context.position.y <= FLOOR
        &&& self.context.position.x == STARTING_POINT
        &&& match self.tag {
            StateTag::Idle => self.context.velocity.x == 0,
            StateTag::Running => self.context.velocity.x == RUNNING_SPEED,
            StateTag::Sliding => self.context.velocity.x == RUNNING_SPEED,
            StateTag::Jumping => self.context.velocity.x == RUNNING_SPEED,
            StateTag::Falling => self.context.velocity.x == 0,
            StateTag::Dead => self.context.velocity.x == 0,
        }
    }

    /// The transition table's domain: whether the state reacts to `event`.
    /// Every other event leaves the character as it is.
    pub open spec fn listens(self, event: Event) -> bool {
        match self.tag {
            StateTag::Idle => event is Run || event is Update,
            StateTag::Running => !(event is Run),
            StateTag::Sliding => event is Update || event is KnockOut || event is Land,
            StateTag::Jumping => event is Update || event is KnockOut || event is Land,
            StateTag::Falling => event is Update,
            StateTag::Dead => false,
        }
    }

    /// Whether every sum that the reaction to `event` forms stays inside the
    /// coordinate space.
    pub open spec fn accepts(self, event: Event) -> bool {
        self.listens(event) ==> match event {
            Event::Run => self.context.velocity.x + RUNNING_SPEED <= i16::MAX,
            Event::Update => self.context.can_update(),
            Event::Land(position) => position - PLAYER_HEIGHT >= i16::MIN,
            _ => true,
        }
    }

    /// The transition table.
    pub open spec fn transition(self, event: Event) -> CharacterState {
        let context = self.context;
        match (self.tag, event) {
            (StateTag::Idle, Event::Run) => CharacterState {
                tag: StateTag::Running,
                context: context.reset_frame().run_right(),
            },
            (StateTag::Idle, Event::Update) => CharacterState {
                tag: StateTag::Idle,
                context: context.update(IDLE_FRAMES),
            },
            (StateTag::Running, Event::Slide) => CharacterState {
                tag: StateTag::Sliding,
                context: context.reset_frame(),
            },
            (StateTag::Running, Event::Update) => CharacterState {
                tag: StateTag::Running,
                context: context.update(RUNNING_FRAMES),
            },
            (StateTag::Running, Event::Jump) => CharacterState {
                tag: StateTag::Jumping,
                context: context.set_vertical_velocity(JUMP_SPEED).reset_frame(),
            },
            (StateTag::Running, Event::KnockOut) => CharacterState {
                tag: StateTag::Falling,
                context: context.knocked_out(),
            },
            (StateTag::Running, Event::Land(position)) => CharacterState {
                tag: StateTag::Running,
                context: context.set_on(position),
            },
            (StateTag::Sliding, Event::Update) => {
                let updated = context.update(SLIDING_FRAMES);
                if updated.frame >= SLIDING_FRAMES {
                    CharacterState { tag: StateTag::Running, context: updated.reset_frame() }
                } else {
                    CharacterState { tag: StateTag::Sliding, context: updated }
                }
            },
            (StateTag::Sliding, Event::KnockOut) => CharacterState {
                tag: StateTag::Falling,
                context: context.knocked_out(),
            },
            (StateTag::Sliding, Event::Land(position)) => CharacterState {
                tag: StateTag::Sliding,
                context: context.set_on(position),
            },
            (StateTag::Jumping, Event::Update) => {
                let updated = context.update(JUMPING_FRAMES);
                if updated.position.y >= FLOOR {
                    CharacterState {
                        tag: StateTag::Running,
                        context: updated.set_on(HEIGHT).reset_frame(),
                    }
                } else {
                    CharacterState { tag: StateTag::Jumping, context: updated }
                }
            },
            (StateTag::Jumping, Event::KnockOut) => CharacterState {
                tag: StateTag::Falling,
                context: context.knocked_out(),
            },
            (StateTag::Jumping, Event::Land(position)) => CharacterState {
                tag: StateTag::Running,
                context: context.set_on(position).reset_frame(),
            },
            (StateTag::Falling, Event::Update) => {
                let updated = context.update(FALLING_FRAMES);
                if updated.frame >= FALLING_FRAMES {
                    CharacterState { tag: StateTag::Dead, context: updated }
                } else {
                    CharacterState { tag: StateTag::Falling, context: updated }
                }
            },
            _ => self,
        }
    }

    /// The character after `count` ticks.
    pub open spec fn ticked(self, count: nat) -> CharacterState
        decreases count,
    {
        if count == 0 {
            self
        } else {
            self.transition(Event::Update).ticked((count - 1) as nat)
        }
    }

    /// The character after a run of events, the first of them first.
    pub open spec fn run(self, events: Seq<Event>) -> CharacterState
        decreases events.len(),
    {
        if events.len() == 0 {
            self
        } else {
            self.transition(events[0]).run(events.skip(1))
        }
    }
}

/// An event that the state does not listen to changes nothing.
pub proof fn lemma_unlisted_event_changes_nothing(state: CharacterState, event: Event)
    requires
        !state.listens(event),
    ensures
        state.transition(event) == state,
{
}

/// Death is final: whatever happens to a dead character, it stays as it is.
pub proof fn lemma_dead_stays_dead(state: CharacterState, events: Seq<Event>)
    requires
        state.tag is Dead,
    ensures
        state.run(events) == state,
    decreases events.len(),
{
    if events.len() > 0 {
        lemma_dead_stays_dead(state, events.skip(1));
    }
}

/// A knock-out fells every character that is on its way, and a character
/// that has been felled is dead `FALLING_FRAMES` ticks later, and not
/// before.
pub proof fn lemma_knock_out_ends_in_death(state: CharacterState, ticks: nat)
    requires
        state.tag is Running || state.tag is Sliding || state.tag is Jumping,
        ticks <= FALLING_FRAMES,
    ensures
        state.transition(Event::KnockOut).tag is Falling,
        state.transition(Event::KnockOut).context.frame == 0,
        ticks < FALLING_FRAMES ==> state.transition(Event::KnockOut).ticked(ticks).tag is Falling,
        ticks == FALLING_FRAMES ==> state.transition(Event::KnockOut).ticked(ticks).tag is Dead,
{
    lemma_fall_runs_through_its_frames(state.transition(Event::KnockOut), ticks);
}

/// A falling character is dead when its fall has run through its frames,
/// and falls until then.
pub proof fn lemma_fall_runs_through_its_frames(state: CharacterState, ticks: nat)
    requires
        state.tag is Falling,
        state.context.frame + ticks <= FALLING_FRAMES,
    ensures
        state.context.frame + ticks < FALLING_FRAMES ==> state.ticked(ticks).tag is Falling
            && state.ticked(ticks).context.frame == state.context.frame + ticks,
        ticks > 0 && state.context.frame + ticks == FALLING_FRAMES ==> state.ticked(ticks).tag
            is Dead,
    decreases ticks,
{
    if ticks > 0 {
        let next = state.transition(Event::Update);
        if state.context.frame + 1 < FALLING_FRAMES {
            lemma_fall_runs_through_its_frames(next, (ticks - 1) as nat);
        } else {
            assert(next.tag is Dead);
            assert(next.ticked(0) == next);
        }
    }
}

/// A character is well formed when it is spawned, and stays so whatever
/// happens to it, as long as it lands on nothing below the playfield.
pub proof fn lemma_character_stays_well_formed(state: CharacterState, event: Event)
    requires
        state.wf(),
        state.accepts(event),
        event matches Event::Land(position) ==> position <= HEIGHT,
    ensures
        CharacterState::spawn().wf(),
        state.transition(event).wf(),
{
}

/// A well-formed character takes every event but a landing or a tick too
/// far up for the coordinate space.
pub proof fn lemma_well_formed_character_accepts(state: CharacterState, event: Event)
    requires
        state.wf(),
    ensures
        event is Run || event is Slide || event is Jump || event is KnockOut ==> state.accepts(
            event,
        ),
        state.context.position.y >= i16::MIN - JUMP_SPEED ==> state.accepts(Event::Update),
{
}

/// After a tick a character is on the floor or above it, whichever state
/// it is in: one that is alive because the tick has put it there, one that
/// is dead because it was there. Nor does the tick take its fall past the
/// terminal velocity.
pub proof fn lemma_tick_keeps_character_above_floor(state: CharacterState)
    requires
        state.accepts(Event::Update),
    ensures
        !(state.tag is Dead) || state.context.position.y <= FLOOR ==> state.transition(
            Event::Update,
        ).context.position.y <= FLOOR,
        state.context.velocity.y <= TERMINAL_VELOCITY ==> state.transition(
            Event::Update,
        ).context.velocity.y <= TERMINAL_VELOCITY,
{
}

/// The character in one of its six states.
#[derive(Clone, Copy)]
pub enum RedHatBoyStateMachine {
    Idle(RedHatBoyState<Idle>),
    Running(RedHatBoyState<Running>),
    Sliding(RedHatBoyState<Sliding>),
    Jumping(RedHatBoyState<Jumping>),
    Falling(RedHatBoyState<Falling>),
    Dead(RedHatBoyState<Dead>),
}

impl View for RedHatBoyStateMachine {
    type V = CharacterState;

    open spec fn view(&self) -> CharacterState {
        match self {
            RedHatBoyStateMachine::Idle(state) => CharacterState {
                tag: StateTag::Idle,
                context: state@,
            },
            RedHatBoyStateMachine::Running(state) => CharacterState {
                tag: StateTag::Running,
                context: state@,
            },
            RedHatBoyStateMachine::Sliding(state) => CharacterState {
                tag: StateTag::Sliding,
                context: state@,
            },
            RedHatBoyStateMachine::Jumping(state) => CharacterState {
                tag: StateTag::Jumping,
                context: state@,
            },
            RedHatBoyStateMachine::Falling(state) => CharacterState {
                tag: StateTag::Falling,
                context: state@,
            },
            RedHatBoyStateMachine::Dead(state) => CharacterState {
                tag: StateTag::Dead,
                context: state@,
            },
        }
    }
}

impl RedHatBoyStateMachine {
    /// Moves the character on by one event.
    ///
    /// An event that the state does not listen to leaves the machine as it
    /// is, equal in every field.
    pub fn transition(self, event: Event) -> (r: Self)
        requires
            self@.accepts(event),
        ensures
            r@ == self@.transition(event),
            !self@.listens(event) ==> r == self,
            event is Update && self@.context.position.y <= FLOOR ==> r@.context.position.y
                <= FLOOR,
            event is Update && self@.context.velocity.y <= TERMINAL_VELOCITY
                ==> r@.context.velocity.y <= TERMINAL_VELOCITY,
    {
        match (self, event) {
            (RedHatBoyStateMachine::Idle(state), Event::Run) => RedHatBoyStateMachine::from(
                state.run(),
            ),
            (RedHatBoyStateMachine::Idle(state), Event::Update) => RedHatBoyStateMachine::from(
                state.update(),
            ),
            (RedHatBoyStateMachine::Running(state), Event::Slide) => RedHatBoyStateMachine::from(
                state.slide(),
            ),
            (RedHatBoyStateMachine::Running(state), Event::Update) => RedHatBoyStateMachine::from(
                state.update(),
            ),
            (RedHatBoyStateMachine::Running(state), Event::Jump) => RedHatBoyStateMachine::from(
                state.jump(),
            ),
            (RedHatBoyStateMachine::Running(state), Event::KnockOut) => RedHatBoyStateMachine::from(
                state.knock_out(),
            ),
            (RedHatBoyStateMachine::Running(state), Event::Land(position)) => {
                RedHatBoyStateMachine::from(state.land_on(position))
            },
            (RedHatBoyStateMachine::Sliding(state), Event::Update) => RedHatBoyStateMachine::from(
                state.update(),
            ),
            (RedHatBoyStateMachine::Sliding(state), Event::KnockOut) => RedHatBoyStateMachine::from(
                state.knock_out(),
            ),
            (RedHatBoyStateMachine::Sliding(state), Event::Land(position)) => {
                RedHatBoyStateMachine::from(state.land_on(position))
            },
            (RedHatBoyStateMachine::Jumping(state), Event::Update) => RedHatBoyStateMachine::from(
                state.update(),
            ),
            (RedHatBoyStateMachine::Jumping(state), Event::KnockOut) => RedHatBoyStateMachine::from(
                state.knock_out(),
            ),
            (RedHatBoyStateMachine::Jumping(state), Event::Land(position)) => {
                RedHatBoyStateMachine::from(state.land_on(position))
            },
            (RedHatBoyStateMachine::Falling(state), Event::Update) => RedHatBoyStateMachine::from(
                state.update(),
            ),
            _ => self,
        }
    }

    /// Whether every sum that the reaction to `event` forms stays inside
    /// the coordinate space.
    pub fn accepts(&self, event: Event) -> (r: bool)
        ensures
            r == self@.accepts(event),
    {
        let context = self.context();
        match event {
            Event::Run => match self {
                RedHatBoyStateMachine::Idle(_) => context.velocity.x <= i16::MAX - RUNNING_SPEED,
                _ => true,
            },
            Event::Update => match self {
                RedHatBoyStateMachine::Dead(_) => true,
                _ => context.can_update(),
            },
            Event::Land(position) => match self {
                RedHatBoyStateMachine::Running(_) => position >= i16::MIN + PLAYER_HEIGHT,
                RedHatBoyStateMachine::Sliding(_) => position >= i16::MIN + PLAYER_HEIGHT,
                RedHatBoyStateMachine::Jumping(_) => position >= i16::MIN + PLAYER_HEIGHT,
                _ => true,
            },
            _ => true,
        }
    }

    pub fn frame_name(&self) -> (r: &str)
        ensures
            r@ == self@.tag.label(),
    {
        match self {
            RedHatBoyStateMachine::Idle(state) => state.frame_name(),
            RedHatBoyStateMachine::Running(state) => state.frame_name(),
            RedHatBoyStateMachine::Sliding(state) => state.frame_name(),
            RedHatBoyStateMachine::Jumping(state) => state.frame_name(),
            RedHatBoyStateMachine::Falling(state) => state.frame_name(),
            RedHatBoyStateMachine::Dead(state) => state.frame_name(),
        }
    }

    pub fn context(&self) -> (r: &RedHatBoyContext)
        ensures
            *r == self@.context,
    {
        match self {
            RedHatBoyStateMachine::Idle(state) => state.context(),
            RedHatBoyStateMachine::Running(state) => state.context(),
            RedHatBoyStateMachine::Sliding(state) => state.context(),
            RedHatBoyStateMachine::Jumping(state) => state.context(),
            RedHatBoyStateMachine::Falling(state) => state.context(),
            RedHatBoyStateMachine::Dead(state) => state.context(),
        }
    }

    pub fn is_dead(&self) -> (r: bool)
        ensures
            r == (self@.tag is Dead),
    {
        matches!(self, RedHatBoyStateMachine::Dead(_))
    }

    /// The name of the state that the character is in.
    pub fn tag(&self) -> (r: StateTag)
        ensures
            r == self@.tag,
    {
        match self {
            RedHatBoyStateMachine::Idle(_) => StateTag::Idle,
            RedHatBoyStateMachine::Running(_) => StateTag::Running,
            RedHatBoyStateMachine::Sliding(_) => StateTag::Sliding,
            RedHatBoyStateMachine::Jumping(_) => StateTag::Jumping,
            RedHatBoyStateMachine::Falling(_) => StateTag::Falling,
            RedHatBoyStateMachine::Dead(_) => StateTag::Dead,
        }
    }
}

impl From<RedHatBoyState<Idle>> for RedHatBoyStateMachine {
    fn from(state: RedHatBoyState<Idle>) -> (r: Self) {
        RedHatBoyStateMachine::Idle(state)
    }
}

impl vstd::std_specs::convert::FromSpecImpl<RedHatBoyState<Idle>> for RedHatBoyStateMachine {
    open spec fn obeys_from_spec() -> bool {
        true
    }

    open spec fn from_spec(state: RedHatBoyState<Idle>) -> Self {
        RedHatBoyStateMachine::Idle(state)
    }
}

impl From<RedHatBoyState<Running>> for RedHatBoyStateMachine {
    fn from(state: RedHatBoyState<Running>) -> (r: Self) {
        RedHatBoyStateMachine::Running(state)
    }
}

impl vstd::std_specs::convert::FromSpecImpl<RedHatBoyState<Running>> for RedHatBoyStateMachine {
    open spec fn obeys_from_spec() -> bool {
        true
    }

    open spec fn from_spec(state: RedHatBoyState<Running>) -> Self {
        RedHatBoyStateMachine::Running(state)
    }
}

impl From<RedHatBoyState<Sliding>> for RedHatBoyStateMachine {
    fn from(state: RedHatBoyState<Sliding>) -> (r: Self) {
        RedHatBoyStateMachine::Sliding(state)
    }
}

impl vstd::std_specs::convert::FromSpecImpl<RedHatBoyState<Sliding>> for RedHatBoyStateMachine {
    open spec fn obeys_from_spec() -> bool {
        true
    }

    open spec fn from_spec(state: RedHatBoyState<Sliding>) -> Self {
        RedHatBoyStateMachine::Sliding(state)
    }
}

impl From<RedHatBoyState<Jumping>> for RedHatBoyStateMachine {
    fn from(state: RedHatBoyState<Jumping>) -> (r: Self) {
        RedHatBoyStateMachine::Jumping(state)
    }
}

impl vstd::std_specs::convert::FromSpecImpl<RedHatBoyState<Jumping>> for RedHatBoyStateMachine {
    open spec fn obeys_from_spec() -> bool {
        true
    }

    open spec fn from_spec(state: RedHatBoyState<Jumping>) -> Self {
        RedHatBoyStateMachine::Jumping(state)
    }
}

impl From<RedHatBoyState<Falling>> for RedHatBoyStateMachine {
    fn from(state: RedHatBoyState<Falling>) -> (r: Self) {
        RedHatBoyStateMachine::Falling(state)
    }
}

impl vstd::std_specs::convert::FromSpecImpl<RedHatBoyState<Falling>> for RedHatBoyStateMachine {
    open spec fn obeys_from_spec() -> bool {
        true
    }

    open spec fn from_spec(state: RedHatBoyState<Falling>) -> Self {
        RedHatBoyStateMachine::Falling(state)
    }
}

impl From<RedHatBoyState<Dead>> for RedHatBoyStateMachine {
    fn from(state: RedHatBoyState<Dead>) -> (r: Self) {
        RedHatBoyStateMachine::Dead(state)
    }
}

impl vstd::std_specs::convert::FromSpecImpl<RedHatBoyState<Dead>> for RedHatBoyStateMachine {
    open spec fn obeys_from_spec() -> bool {
        true
    }

    open spec fn from_spec(state: RedHatBoyState<Dead>) -> Self {
        RedHatBoyStateMachine::Dead(state)
    }
}

impl From<SlidingEndState> for RedHatBoyStateMachine {
    fn from(end_state: SlidingEndState) -> (r: Self) {
        match end_state {
            SlidingEndState::Complete(running_state) => RedHatBoyStateMachine::Running(
                running_state,
            ),
            SlidingEndState::Sliding(sliding_state) => RedHatBoyStateMachine::Sliding(
                sliding_state,
            ),
        }
    }
}

impl vstd::std_specs::convert::FromSpecImpl<SlidingEndState> for RedHatBoyStateMachine {
    open spec fn obeys_from_spec() -> bool {
        true
    }

    open spec fn from_spec(end_state: SlidingEndState) -> Self {
        match end_state {
            SlidingEndState::Complete(running_state) => RedHatBoyStateMachine::Running(
                running_state,
            ),
            SlidingEndState::Sliding(sliding_state) => RedHatBoyStateMachine::Sliding(
                sliding_state,
            ),
        }
    }
}

impl From<JumpingEndState> for RedHatBoyStateMachine {
    fn from(end_state: JumpingEndState) -> (r: Self) {
        match end_state {
            JumpingEndState::Landing(running_state) => RedHatBoyStateMachine::Running(
                running_state,
            ),
            JumpingEndState::Jumping(jumping_state) => RedHatBoyStateMachine::Jumping(
                jumping_state,
            ),
        }
    }
}

impl vstd::std_specs::convert::FromSpecImpl<JumpingEndState> for RedHatBoyStateMachine {
    open spec fn obeys_from_spec() -> bool {
        true
    }

    open spec fn from_spec(end_state: JumpingEndState) -> Self {
        match end_state {
            JumpingEndState::Landing(running_state) => RedHatBoyStateMachine::Running(
                running_state,
            ),
            JumpingEndState::Jumping(jumping_state) => RedHatBoyStateMachine::Jumping(
                jumping_state,
            ),
        }
    }
}

impl From<FallingEndState> for RedHatBoyStateMachine {
    fn from(end_state: FallingEndState) -> (r: Self) {
        match end_state {
            FallingEndState::Complete(dead_state) => RedHatBoyStateMachine::Dead(dead_state),
            FallingEndState::Falling(falling_state) => RedHatBoyStateMachine::Falling(
                falling_state,
            ),
        }
    }
}

impl vstd::std_specs::convert::FromSpecImpl<FallingEndState> for RedHatBoyStateMachine {
    open spec fn obeys_from_spec() -> bool {
        true
    }

    open spec fn from_spec(end_state: FallingEndState) -> Self {
        match end_state {
            FallingEndState::Complete(dead_state) => RedHatBoyStateMachine::Dead(dead_state),
            FallingEndState::Falling(falling_state) => RedHatBoyStateMachine::Falling(
                falling_state,
            ),
        }
    }
}

/// The character `'0'`..`'9'` for the digit `d`.
pub open spec fn digit(d: int) -> char {
    (48 + d) as char
}

/// A natural number in decimal, without leading zeros.
pub open spec fn decimal(n: nat) -> Seq<char>
    decreases n,
{
    if n < 10 {
        seq![digit(n as int)]
    } else {
        decimal(n / 10).push(digit((n % 10) as int))
    }
}

/// The name under which a sprite sheet files the sprite of a state at a
/// frame: the state's label, then the sprite's number in brackets. A sprite
/// stays for three frames, and the numbers start at one.
pub open spec fn sprite_name(label: Seq<char>, frame: u8) -> Seq<char> {
    label + " ("@ + decimal((frame / 3 + 1) as nat) + ").png"@
}

fn digit_str(d: u8) -> (r: &'static str)
    requires
        d < 10,
    ensures
        r@ == seq![digit(d as int)],
{
    proof {
        reveal_strlit("0");
        reveal_strlit("1");
        reveal_strlit("2");
        reveal_strlit("3");
        reveal_strlit("4");
        reveal_strlit("5");
        reveal_strlit("6");
        reveal_strlit("7");
        reveal_strlit("8");
        reveal_strlit("9");
    }
    let r = match d {
        0 => "0",
        1 => "1",
        2 => "2",
        3 => "3",
        4 => "4",
        5 => "5",
        6 => "6",
        7 => "7",
        8 => "8",
        _ => "9",
    };
    assert(r@ =~= seq![digit(d as int)]);
    r
}

fn append_decimal(text: &mut String, n: u8)
    ensures
        final(text)@ == old(text)@ + decimal(n as nat),
{
    proof {
        reveal_with_fuel(decimal, 3);
    }
    if n >= 100 {
        text.append(digit_str(n / 100));
    }
    if n >= 10 {
        text.append(digit_str((n / 10) % 10));
    }
    text.append(digit_str(n % 10));
    assert(text@ =~= old(text)@ + decimal(n as nat));
}

/// The character as a plain value: its state, the catalog of its sprites
/// and the picture they are cut from.
pub struct RedHatBoyView {
    pub state: CharacterState,
    pub frames: Map<Seq<char>, Cell>,
    pub image: ImageElement,
}

impl RedHatBoyView {
    /// The character after `event`; its sprites stay as they are.
    pub open spec fn after(self, event: Event) -> RedHatBoyView {
        RedHatBoyView { state: self.state.transition(event), frames: self.frames, image: self.image }
    }

    /// The character after it has met an obstacle: moved on by the event
    /// that the meeting gave rise to, if there is one.
    pub open spec fn after_contact(self, contact: Option<Event>) -> RedHatBoyView {
        match contact {
            Some(event) => self.after(event),
            None => self,
        }
    }

    /// Whether the character can meet an obstacle with that outcome: its
    /// bounding box is known, and it accepts the event.
    pub open spec fn can_meet(self, contact: Option<Event>) -> bool {
        &&& self.current_sprite() is Some
        &&& contact matches Some(event) ==> self.state.accepts(event)
    }

    /// The name of the sprite that shows the character now.
    pub open spec fn frame_name(self) -> Seq<char> {
        sprite_name(self.state.tag.label(), self.state.context.frame)
    }

    /// The cell of the sprite that shows the character now, if the catalog
    /// holds it.
    pub open spec fn current_sprite(self) -> Option<Cell> {
        if self.frames.contains_key(self.frame_name()) {
            Some(self.frames[self.frame_name()])
        } else {
            None
        }
    }

    /// Where the current sprite goes on the playfield: the character's
    /// position, moved by the offset of the sprite within its untrimmed
    /// frame, and as large as the sprite.
    pub open spec fn destination_bounds(self) -> Bounds
        recommends
            self.current_sprite() is Some,
    {
        let sprite = self.current_sprite().unwrap();
        let left = self.state.context.position.x + sprite.sprite_source_size.x;
        let top = self.state.context.position.y + sprite.sprite_source_size.y;
        Bounds { left, top, right: left + sprite.frame.w, bottom: top + sprite.frame.h }
    }

    /// The box that collisions are decided by: where the sprite goes, cut
    /// down at the left, the right and the top, where the sprite is empty.
    pub open spec fn bounding_bounds(self) -> Bounds
        recommends
            self.current_sprite() is Some,
    {
        let destination = self.destination_bounds();
        let left = destination.left + X_OFFSET;
        let top = destination.top + Y_OFFSET;
        Bounds {
            left,
            top,
            right: left + (destination.right - destination.left - WIDTH_OFFSET),
            bottom: top + (destination.bottom - destination.top - Y_OFFSET),
        }
    }

    /// Whether the place of the current sprite can be held by a `Rect`.
    pub open spec fn destination_fits(self) -> bool
        recommends
            self.current_sprite() is Some,
    {
        let sprite = self.current_sprite().unwrap();
        let destination = self.destination_bounds();
        &&& destination.left <= i16::MAX
        &&& destination.top <= i16::MAX
        &&& sprite.frame.w <= i16::MAX
        &&& sprite.frame.h <= i16::MAX
    }

    /// Whether the current sprite can be drawn: the catalog holds it, and
    /// its place on the sheet and on the playfield can be held by `Rect`s.
    pub open spec fn can_draw(self) -> bool {
        &&& self.current_sprite() is Some
        &&& self.destination_fits()
        &&& self.current_sprite().unwrap().frame.x <= i16::MAX
        &&& self.current_sprite().unwrap().frame.y <= i16::MAX
    }

    /// The instruction that puts the current sprite on the canvas.
    pub open spec fn draw_command(self) -> DrawCommand
        recommends
            self.can_draw(),
    {
        let sprite = self.current_sprite().unwrap();
        DrawCommand::Image {
            element: self.image,
            frame: Rect {
                position: Point { x: sprite.frame.x as i16, y: sprite.frame.y as i16 },
                width: sprite.frame.w as i16,
                height: sprite.frame.h as i16,
            },
            destination: self.destination_bounds().rect(),
        }
    }

    /// Whether the bounding box can be held by a `Rect`.
    pub open spec fn bounding_box_fits(self) -> bool
        recommends
            self.current_sprite() is Some,
    {
        &&& self.destination_fits()
        &&& self.bounding_bounds().left <= i16::MAX
        &&& self.bounding_bounds().top <= i16::MAX
    }
}

/// The character.
pub struct RedHatBoy {
    state_machine: RedHatBoyStateMachine,
    sprite_sheet: Sheet,
    image: ImageElement,
}

impl View for RedHatBoy {
    type V = RedHatBoyView;

    closed spec fn view(&self) -> RedHatBoyView {
        RedHatBoyView {
            state: self.state_machine@,
            frames: self.sprite_sheet.frames@,
            image: self.image,
        }
    }
}

impl RedHatBoy {
    /// A character at its spawn point, idle, shown by the sprites of
    /// `sprite_sheet`.
    pub fn new(sprite_sheet: Sheet, image: ImageElement) -> (r: Self)
        ensures
            r@ == (RedHatBoyView {
                state: CharacterState::spawn(),
                frames: sprite_sheet.frames@,
                image,
            }),
    {
        RedHatBoy {
            state_machine: RedHatBoyStateMachine::Idle(RedHatBoyState::new()),
            sprite_sheet,
            image,
        }
    }

    /// The instruction that puts the current sprite on the canvas.
    pub fn draw(&self) -> (r: DrawCommand)
        requires
            self@.can_draw(),
        ensures
            r == self@.draw_command(),
    {
        let sprite = self.sprite();
        let position = Point { x: sprite.frame.x as i16, y: sprite.frame.y as i16 };
        let width: i16 = sprite.frame.w as i16;
        let height: i16 = sprite.frame.h as i16;
        let source = Rect::new(position, width, height);
        let destination = self.destination_box();
        DrawCommand::Image { element: self.image, frame: source, destination }
    }

    /// The character's bounding box.
    pub fn bounding_box(&self) -> (r: Rect)
        requires
            self@.current_sprite() is Some,
            self@.bounding_box_fits(),
        ensures
            r == self@.bounding_bounds().rect(),
            r.bounds() == self@.bounding_bounds(),
    {
        let mut bounding_box = self.destination_box();
        bounding_box.position.x += X_OFFSET;
        bounding_box.width -= WIDTH_OFFSET;
        bounding_box.position.y += Y_OFFSET;
        bounding_box.height -= Y_OFFSET;
        bounding_box
    }

    /// Where the current sprite goes on the playfield.
    pub fn destination_box(&self) -> (r: Rect)
        requires
            self@.current_sprite() is Some,
            self@.destination_fits(),
        ensures
            r == self@.destination_bounds().rect(),
            r.bounds() == self@.destination_bounds(),
    {
        let sprite = self.sprite();
        let x: i32 = self.state_machine.context().position.x as i32;
        let y: i32 = self.state_machine.context().position.y as i32;
        let sprite_x: i32 = sprite.sprite_source_size.x as i32;
        let sprite_y: i32 = sprite.sprite_source_size.y as i32;
        let position = Point { x: (x + sprite_x) as i16, y: (y + sprite_y) as i16 };
        let width: i16 = sprite.frame.w as i16;
        let height: i16 = sprite.frame.h as i16;
        Rect::new(position, width, height)
    }

    /// Whether the character's bounding box overlaps `rect`. The box is
    /// summed in a wider type, so the answer is exact wherever the character
    /// stands.
    pub fn touches(&self, rect: &Rect) -> (r: bool)
        requires
            self@.current_sprite() is Some,
        ensures
            r == self@.bounding_bounds().overlaps(rect.bounds()),
    {
        let sprite = self.sprite();
        let context = self.state_machine.context();
        let left: i32 = context.position.x as i32 + sprite.sprite_source_size.x as i32 + X_OFFSET as i32;
        let top: i32 = context.position.y as i32 + sprite.sprite_source_size.y as i32 + Y_OFFSET as i32;
        let right: i32 = left + (sprite.frame.w as i32 - WIDTH_OFFSET as i32);
        let bottom: i32 = top + (sprite.frame.h as i32 - Y_OFFSET as i32);
        let that_left: i32 = rect.position.x as i32;
        let that_right: i32 = that_left + rect.width as i32;
        let that_top: i32 = rect.position.y as i32;
        let that_bottom: i32 = that_top + rect.height as i32;
        left < that_right && right > that_left && top < that_bottom && bottom > that_top
    }

    /// The current sprite of a character that has one.
    fn sprite(&self) -> (r: Cell)
        requires
            self@.current_sprite() is Some,
        ensures
            self@.current_sprite() == Some(r),
    {
        match self.current_sprite() {
            Some(sprite) => *sprite,
            None => vstd::pervasive::unreached(),
        }
    }

    pub fn current_sprite(&self) -> (r: Option<&Cell>)
        ensures
            match r {
                Some(cell) => self@.current_sprite() == Some(*cell),
                None => self@.current_sprite() is None,
            },
    {
        let name = self.frame_name();
        self.sprite_sheet.frames.get(name.as_str())
    }

    /// The name of the sprite that shows the character now.
    pub fn frame_name(&self) -> (r: String)
        ensures
            r@ == self@.frame_name(),
    {
        let name = self.state_machine.frame_name();
        let number: u8 = (self.state_machine.context().frame / 3) + 1;
        let mut text = String::from_str(name);
        text.append(" (");
        append_decimal(&mut text, number);
        text.append(").png");
        text
    }

    /// Whether the character can take `event` without leaving the
    /// coordinate space.
    pub fn accepts(&self, event: Event) -> (r: bool)
        ensures
            r == self@.state.accepts(event),
    {
        self.state_machine.accepts(event)
    }

    /// Whether the current sprite can be drawn.
    pub fn can_draw(&self) -> (r: bool)
        ensures
            r == self@.can_draw(),
    {
        match self.current_sprite() {
            Some(sprite) => {
                let context = self.state_machine.context();
                let left: i32 = context.position.x as i32 + sprite.sprite_source_size.x as i32;
                let top: i32 = context.position.y as i32 + sprite.sprite_source_size.y as i32;
                left <= 32767 && top <= 32767 && sprite.frame.w <= 32767 && sprite.frame.h
                    <= 32767 && sprite.frame.x <= 32767 && sprite.frame.y <= 32767
            },
            None => false,
        }
    }

    /// Moves the character on by one event.
    pub fn transition(&mut self, event: Event)
        requires
            old(self)@.state.accepts(event),
        ensures
            final(self)@ == old(self)@.after(event),
    {
        self.state_machine = self.state_machine.transition(event);
    }

    /// Lets the character feel what meeting an obstacle has given rise to.
    pub fn meet(&mut self, contact: Option<Event>)
        requires
            contact matches Some(event) ==> old(self)@.state.accepts(event),
        ensures
            final(self)@ == old(self)@.after_contact(contact),
    {
        if let Some(event) = contact {
            self.transition(event);
        }
    }

    pub fn update(&mut self)
        requires
            old(self)@.state.accepts(Event::Update),
        ensures
            final(self)@ == old(self)@.after(Event::Update),
    {
        self.state_machine = self.state_machine.transition(Event::Update);
    }

    pub fn run_right(&mut self)
        requires
            old(self)@.state.accepts(Event::Run),
        ensures
            final(self)@ == old(self)@.after(Event::Run),
    {
        self.state_machine = self.state_machine.transition(Event::Run);
    }

    pub fn slide(&mut self)
        ensures
            final(self)@ == old(self)@.after(Event::Slide),
    {
        self.state_machine = self.state_machine.transition(Event::Slide);
    }

    pub fn jump(&mut self)
        ensures
            final(self)@ == old(self)@.after(Event::Jump),
    {
        self.state_machine = self.state_machine.transition(Event::Jump);
    }

    pub fn knock_out(&mut self)
        ensures
            final(self)@ == old(self)@.after(Event::KnockOut),
    {
        self.state_machine = self.state_machine.transition(Event::KnockOut);
    }

    pub fn knocked_out(&self) -> (r: bool)
        ensures
            r == (self@.state.tag is Dead),
    {
        self.state_machine.is_dead()
    }

    /// The name of the state that the character is in.
    pub fn state(&self) -> (r: StateTag)
        ensures
            r == self@.state.tag,
    {
        self.state_machine.tag()
    }

    /// Puts the character on a surface whose top is at `position`.
    pub fn land_on(&mut self, position: i16)
        requires
            old(self)@.state.accepts(Event::Land(position)),
        ensures
            final(self)@ == old(self)@.after(Event::Land(position)),
    {
        self.state_machine = self.state_machine.transition(Event::Land(position));
    }

    pub fn _velocity_x(&self) -> (r: i16)
        ensures
            r == self@.state.context.velocity.x,
    {
        self.state_machine.context().velocity.x
    }

    pub fn velocity_y(&self) -> (r: i16)
        ensures
            r == self@.state.context.velocity.y,
    {
        self.state_machine.context().velocity.y
    }

    pub fn _pos_x(&self) -> (r: i16)
        ensures
            r == self@.state.context.position.x,
    {
        self.state_machine.context().position.x
    }

    pub fn pos_y(&self) -> (r: i16)
        ensures
            r == self@.state.context.position.y,
    {
        self.state_machine.context().position.y
    }

    pub fn walking_speed(&self) -> (r: i16)
        ensures
            r == self@.state.context.velocity.x,
    {
        self.state_machine.context().velocity.x
    }

    /// The character as it was spawned, with the sprites of `boy`.
    pub fn reset(boy: Self) -> (r: Self)
        ensures
            r@ == (RedHatBoyView {
                state: CharacterState::spawn(),
                frames: boy@.frames,
                image: boy@.image,
            }),
    {
        RedHatBoy::new(boy.sprite_sheet, boy.image)
    }
}

} // verus!
