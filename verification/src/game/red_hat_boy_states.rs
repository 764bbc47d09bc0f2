//! The character's physics and its six states.
//!
//! A state is the physics context together with a tag type that says which
//! state it is. A transition consumes the state and hands back the next one,
//! so that no two states of one character are alive at a time.

use vstd::prelude::*;
use crate::engine::Point;
use crate::game::HEIGHT;

verus! {

/// The `y` at which the character stands on the ground.
pub const FLOOR: i16 = 479;

/// How far the character's position lies above the surface it stands on.
pub const PLAYER_HEIGHT: i16 = HEIGHT - FLOOR;

/// The `x` at which the character is spawned.
pub const STARTING_POINT: i16 = -20;

pub const IDLE_FRAME_NAME: &'static str = "Idle";

pub const RUNNING_FRAME_NAME: &'static str = "Run";

pub const SLIDING_FRAME_NAME: &'static str = "Slide";

pub const JUMPING_FRAME_NAME: &'static str = "Jump";

pub const FALLING_FRAME_NAME: &'static str = "Dead";

pub const IDLE_FRAMES: u8 = 29;

pub const RUNNING_FRAMES: u8 = 23;

pub const SLIDING_FRAMES: u8 = 14;

pub const JUMPING_FRAMES: u8 = 35;

pub const FALLING_FRAMES: u8 = 29;

pub const RUNNING_SPEED: i16 = 4;

pub const JUMP_SPEED: i16 = -25;

pub const GRAVITY: i16 = 1;

pub const TERMINAL_VELOCITY: i16 = 20;

/// Position, velocity and animation frame of the character.
#[derive(Clone, Copy, Debug, PartialEq, Eq, Structural)]
pub struct RedHatBoyContext {
    pub frame: u8,
    pub position: Point,
    pub velocity: Point,
}

impl RedHatBoyContext {
    /// The context of a character that has just been spawned: on the floor,
    /// at rest, at the first frame.
    pub open spec fn spawn() -> RedHatBoyContext {
        RedHatBoyContext {
            frame: 0,
            position: Point { x: STARTING_POINT, y: FLOOR },
            velocity: Point { x: 0, y: 0 },
        }
    }

    /// The vertical velocity after gravity has pulled for one tick: gravity
    /// adds to it until the terminal velocity is reached.
    pub open spec fn pulled_velocity(self) -> int {
        if self.velocity.y < TERMINAL_VELOCITY {
            self.velocity.y + GRAVITY
        } else {
            self.velocity.y as int
        }
    }

    /// Whether one tick of physics keeps the position inside the coordinate
    /// space.
    pub open spec fn spec_can_update(self) -> bool {
        i16::MIN <= self.position.y + self.pulled_velocity() <= i16::MAX
    }

    #[verifier::when_used_as_spec(spec_can_update)]
    pub fn can_update(self) -> (r: bool)
        ensures
            r == self.spec_can_update(),
    {
        let velocity: i32 = if self.velocity.y < TERMINAL_VELOCITY {
            self.velocity.y as i32 + GRAVITY as i32
        } else {
            self.velocity.y as i32
        };
        let fallen: i32 = self.position.y as i32 + velocity;
        -32768 <= fallen && fallen <= 32767
    }

    /// One tick of physics in a state whose animation has `frame_count`
    /// frames: gravity, the next frame, the fall, the floor.
    pub open spec fn spec_update(self, frame_count: u8) -> RedHatBoyContext {
        let velocity_y = self.pulled_velocity();
        let fallen = self.position.y + velocity_y;
        RedHatBoyContext {
            frame: if self.frame < frame_count {
                (self.frame + 1) as u8
            } else {
                0
            },
            position: Point {
                x: self.position.x,
                y: if fallen > FLOOR {
                    FLOOR
                } else {
                    fallen as i16
                },
            },
            velocity: Point { x: self.velocity.x, y: velocity_y as i16 },
        }
    }

    pub open spec fn spec_reset_frame(self) -> RedHatBoyContext {
        RedHatBoyContext { frame: 0, position: self.position, velocity: self.velocity }
    }

    pub open spec fn spec_run_right(self) -> RedHatBoyContext {
        RedHatBoyContext {
            frame: self.frame,
            position: self.position,
            velocity: Point { x: (self.velocity.x + RUNNING_SPEED) as i16, y: self.velocity.y },
        }
    }

    pub open spec fn spec_set_vertical_velocity(self, y: i16) -> RedHatBoyContext {
        RedHatBoyContext {
            frame: self.frame,
            position: self.position,
            velocity: Point { x: self.velocity.x, y },
        }
    }

    pub open spec fn spec_stop(self) -> RedHatBoyContext {
        RedHatBoyContext {
            frame: self.frame,
            position: self.position,
            velocity: Point { x: 0, y: self.velocity.y },
        }
    }

    pub open spec fn spec_set_on(self, position: i16) -> RedHatBoyContext {
        RedHatBoyContext {
            frame: self.frame,
            position: Point { x: self.position.x, y: (position - PLAYER_HEIGHT) as i16 },
            velocity: self.velocity,
        }
    }

    /// What a knock-out does to the context: the character stops dead, in
    /// both directions, at the first frame.
    pub open spec fn knocked_out(self) -> RedHatBoyContext {
        self.spec_set_vertical_velocity(0).spec_reset_frame().spec_stop()
    }

    /// Advances the physics by one tick.
    ///
    /// Gravity never slows the fall, the character never sinks below the
    /// floor, and the frame counter steps by one until `frame_count` is
    /// reached, from where it starts again at zero.
    #[verifier::when_used_as_spec(spec_update)]
    pub fn update(self, frame_count: u8) -> (r: Self)
        requires
            self.can_update(),
        ensures
            r == self.spec_update(frame_count),
            r.velocity.y >= self.velocity.y,
            self.velocity.y < TERMINAL_VELOCITY ==> r.velocity.y == self.velocity.y + GRAVITY,
            self.velocity.y <= TERMINAL_VELOCITY ==> r.velocity.y <= TERMINAL_VELOCITY,
            r.position.y <= FLOOR,
            self.frame < frame_count ==> r.frame == self.frame + 1,
            self.frame >= frame_count ==> r.frame == 0,
            r.frame <= frame_count,
    {
        let mut context = self;
        if context.velocity.y < TERMINAL_VELOCITY {
            context.velocity.y += GRAVITY;
        }
        if context.frame < frame_count {
            context.frame += 1;
        } else {
            context.frame = 0;
        }
        context.position.y += context.velocity.y;
        if context.position.y > FLOOR {
            context.position.y = FLOOR;
        }
        context
    }

    #[verifier::when_used_as_spec(spec_reset_frame)]
    pub fn reset_frame(self) -> (r: Self)
        ensures
            r == self.spec_reset_frame(),
    {
        let mut context = self;
        context.frame = 0;
        context
    }

    #[verifier::when_used_as_spec(spec_run_right)]
    pub fn run_right(self) -> (r: Self)
        requires
            self.velocity.x + RUNNING_SPEED <= i16::MAX,
        ensures
            r == self.spec_run_right(),
            r.velocity.x == self.velocity.x + RUNNING_SPEED,
    {
        let mut context = self;
        context.velocity.x += RUNNING_SPEED;
        context
    }

    #[verifier::when_used_as_spec(spec_set_vertical_velocity)]
    pub fn set_vertical_velocity(self, y: i16) -> (r: Self)
        ensures
            r == self.spec_set_vertical_velocity(y),
    {
        let mut context = self;
        context.velocity.y = y;
        context
    }

    #[verifier::when_used_as_spec(spec_stop)]
    pub fn stop(self) -> (r: Self)
        ensures
            r == self.spec_stop(),
    {
        let mut context = self;
        context.velocity.x = 0;
        context
    }

    /// Puts the character on a surface whose top is at `position`.
    #[verifier::when_used_as_spec(spec_set_on)]
    pub fn set_on(self, position: i16) -> (r: Self)
        requires
            position - PLAYER_HEIGHT >= i16::MIN,
        ensures
            r == self.spec_set_on(position),
            r.position.y == position - PLAYER_HEIGHT,
    {
        let mut context = self;
        let position: i16 = position - PLAYER_HEIGHT;
        context.position.y = position;
        context
    }
}

/// Gravity never slows the fall: after a tick the vertical velocity is at
/// least what it was, and below the terminal velocity it has grown by
/// `GRAVITY`.
pub proof fn lemma_gravity_is_monotonic(context: RedHatBoyContext, frame_count: u8)
    ensures
        context.update(frame_count).velocity.y >= context.velocity.y,
        context.velocity.y < TERMINAL_VELOCITY ==> context.update(frame_count).velocity.y
            == context.velocity.y + GRAVITY,
{
}

/// After a tick the character is on the floor or above it.
pub proof fn lemma_floor_clamp(context: RedHatBoyContext, frame_count: u8)
    requires
        context.can_update(),
    ensures
        context.update(frame_count).position.y <= FLOOR,
{
}

/// A tick takes the animation to its next frame, and from the last frame
/// back to the first.
pub proof fn lemma_frame_wraps(context: RedHatBoyContext, frame_count: u8)
    requires
        context.frame <= frame_count,
    ensures
        context.frame == frame_count ==> context.update(frame_count).frame == 0,
        context.frame != frame_count ==> context.update(frame_count).frame == context.frame + 1,
{
}

/// A character in the state that the tag `S` names.
#[derive(Copy, Clone)]
pub struct RedHatBoyState<S> {
    pub context: RedHatBoyContext,
    _state: S,
}

impl<S> View for RedHatBoyState<S> {
    type V = RedHatBoyContext;

    /// A state is seen as the context it holds: the tag carries no data.
    closed spec fn view(&self) -> RedHatBoyContext {
        self.context
    }
}

impl<S> RedHatBoyState<S> {
    pub fn context(&self) -> (r: &RedHatBoyContext)
        ensures
            *r == self@,
    {
        &self.context
    }
}

impl RedHatBoyState<Idle> {
    pub fn frame_name(&self) -> (r: &str)
        ensures
            r@ == IDLE_FRAME_NAME@,
    {
        IDLE_FRAME_NAME
    }

    pub fn update(self) -> (r: Self)
        requires
            self@.can_update(),
        ensures
            r@ == self@.update(IDLE_FRAMES),
    {
        let mut state = self;
        state.context = state.context.update(IDLE_FRAMES);
        state
    }

    pub fn new() -> (r: Self)
        ensures
            r@ == RedHatBoyContext::spawn(),
    {
        RedHatBoyState {
            context: RedHatBoyContext {
                frame: 0,
                position: Point { x: STARTING_POINT, y: FLOOR },
                velocity: Point { x: 0, y: 0 },
            },
            _state: Idle {  },
        }
    }

    pub fn run(self) -> (r: RedHatBoyState<Running>)
        requires
            self@.velocity.x + RUNNING_SPEED <= i16::MAX,
        ensures
            r@ == self@.reset_frame().run_right(),
    {
        RedHatBoyState { context: self.context.reset_frame().run_right(), _state: Running {  } }
    }
}

impl RedHatBoyState<Running> {
    pub fn frame_name(&self) -> (r: &str)
        ensures
            r@ == RUNNING_FRAME_NAME@,
    {
        RUNNING_FRAME_NAME
    }

    pub fn update(self) -> (r: Self)
        requires
            self@.can_update(),
        ensures
            r@ == self@.update(RUNNING_FRAMES),
    {
        let mut state = self;
        state.context = state.context.update(RUNNING_FRAMES);
        state
    }

    pub fn slide(self) -> (r: RedHatBoyState<Sliding>)
        ensures
            r@ == self@.reset_frame(),
    {
        RedHatBoyState { context: self.context.reset_frame(), _state: Sliding {  } }
    }

    pub fn jump(self) -> (r: RedHatBoyState<Jumping>)
        ensures
            r@ == self@.set_vertical_velocity(JUMP_SPEED).reset_frame(),
    {
        RedHatBoyState {
            context: self.context.set_vertical_velocity(JUMP_SPEED).reset_frame(),
            _state: Jumping {  },
        }
    }

    pub fn knock_out(self) -> (r: RedHatBoyState<Falling>)
        ensures
            r@ == self@.knocked_out(),
    {
        RedHatBoyState {
            context: self.context.set_vertical_velocity(0).reset_frame().stop(),
            _state: Falling {  },
        }
    }

    pub fn land_on(self, position: i16) -> (r: RedHatBoyState<Running>)
        requires
            position - PLAYER_HEIGHT >= i16::MIN,
        ensures
            r@ == self@.set_on(position),
    {
        RedHatBoyState { context: self.context.set_on(position), _state: Running {  } }
    }
}

impl RedHatBoyState<Sliding> {
    pub fn frame_name(&self) -> (r: &str)
        ensures
            r@ == SLIDING_FRAME_NAME@,
    {
        SLIDING_FRAME_NAME
    }

    /// One tick of sliding. Once the slide has run through its frames the
    /// character stands up and runs on.
    pub fn update(self) -> (r: SlidingEndState)
        requires
            self@.can_update(),
        ensures
            match r {
                SlidingEndState::Complete(running) => {
                    &&& self@.update(SLIDING_FRAMES).frame >= SLIDING_FRAMES
                    &&& running@ == self@.update(SLIDING_FRAMES).reset_frame()
                },
                SlidingEndState::Sliding(sliding) => {
                    &&& self@.update(SLIDING_FRAMES).frame < SLIDING_FRAMES
                    &&& sliding@ == self@.update(SLIDING_FRAMES)
                },
            },
    {
        let mut state = self;
        state.context = state.context.update(SLIDING_FRAMES);
        if state.context.frame >= SLIDING_FRAMES {
            SlidingEndState::Complete(state.stand())
        } else {
            SlidingEndState::Sliding(state)
        }
    }

    pub fn stand(&self) -> (r: RedHatBoyState<Running>)
        ensures
            r@ == self@.reset_frame(),
    {
        RedHatBoyState { context: self.context.reset_frame(), _state: Running }
    }

    pub fn knock_out(self) -> (r: RedHatBoyState<Falling>)
        ensures
            r@ == self@.knocked_out(),
    {
        RedHatBoyState {
            context: self.context.set_vertical_velocity(0).reset_frame().stop(),
            _state: Falling {  },
        }
    }

    pub fn land_on(self, position: i16) -> (r: RedHatBoyState<Sliding>)
        requires
            position - PLAYER_HEIGHT >= i16::MIN,
        ensures
            r@ == self@.set_on(position),
    {
        RedHatBoyState { context: self.context.set_on(position), _state: Sliding {  } }
    }
}

/// How a tick of sliding ends.
pub enum SlidingEndState {
    Complete(RedHatBoyState<Running>),
    Sliding(RedHatBoyState<Sliding>),
}

impl RedHatBoyState<Jumping> {
    pub fn frame_name(&self) -> (r: &str)
        ensures
            r@ == JUMPING_FRAME_NAME@,
    {
        JUMPING_FRAME_NAME
    }

    /// One tick of the jump. Once the character is back at the floor it
    /// lands, and runs on from the first frame.
    pub fn update(self) -> (r: JumpingEndState)
        requires
            self@.can_update(),
        ensures
            match r {
                JumpingEndState::Landing(running) => {
                    &&& self@.update(JUMPING_FRAMES).position.y >= FLOOR
                    &&& running@ == self@.update(JUMPING_FRAMES).set_on(HEIGHT).reset_frame()
                },
                JumpingEndState::Jumping(jumping) => {
                    &&& self@.update(JUMPING_FRAMES).position.y < FLOOR
                    &&& jumping@ == self@.update(JUMPING_FRAMES)
                },
            },
    {
        let mut state = self;
        state.context = state.context.update(JUMPING_FRAMES);
        if state.context.position.y >= FLOOR {
            JumpingEndState::Landing(state.land_on(HEIGHT))
        } else {
            JumpingEndState::Jumping(state)
        }
    }

    pub fn land_on(self, position: i16) -> (r: RedHatBoyState<Running>)
        requires
            position - PLAYER_HEIGHT >= i16::MIN,
        ensures
            r@ == self@.set_on(position).reset_frame(),
    {
        RedHatBoyState { context: self.context.set_on(position).reset_frame(), _state: Running }
    }

    pub fn knock_out(self) -> (r: RedHatBoyState<Falling>)
        ensures
            r@ == self@.knocked_out(),
    {
        RedHatBoyState {
            context: self.context.set_vertical_velocity(0).reset_frame().stop(),
            _state: Falling {  },
        }
    }
}

/// How a tick of the jump ends.
pub enum JumpingEndState {
    Landing(RedHatBoyState<Running>),
    Jumping(RedHatBoyState<Jumping>),
}

impl RedHatBoyState<Falling> {
    pub fn frame_name(&self) -> (r: &str)
        ensures
            r@ == FALLING_FRAME_NAME@,
    {
        FALLING_FRAME_NAME
    }

    /// One tick of the fall. Once the fall has run through its frames the
    /// character is dead.
    pub fn update(self) -> (r: FallingEndState)
        requires
            self@.can_update(),
        ensures
            match r {
                FallingEndState::Complete(dead) => {
                    &&& self@.update(FALLING_FRAMES).frame >= FALLING_FRAMES
                    &&& dead@ == self@.update(FALLING_FRAMES)
                },
                FallingEndState::Falling(falling) => {
                    &&& self@.update(FALLING_FRAMES).frame < FALLING_FRAMES
                    &&& falling@ == self@.update(FALLING_FRAMES)
                },
            },
    {
        let mut state = self;
        state.context = state.context.update(FALLING_FRAMES);
        if state.context.frame >= FALLING_FRAMES {
            FallingEndState::Complete(state.die())
        } else {
            FallingEndState::Falling(state)
        }
    }

    pub fn die(&self) -> (r: RedHatBoyState<Dead>)
        ensures
            r@ == self@,
    {
        RedHatBoyState { context: self.context, _state: Dead }
    }
}

/// How a tick of the fall ends.
pub enum FallingEndState {
    Complete(RedHatBoyState<Dead>),
    Falling(RedHatBoyState<Falling>),
}

impl RedHatBoyState<Dead> {
    pub fn frame_name(&self) -> (r: &str)
        ensures
            r@ == FALLING_FRAME_NAME@,
    {
        FALLING_FRAME_NAME
    }
}

#[derive(Copy, Clone)]
pub struct Idle;

#[derive(Copy, Clone)]
pub struct Running;

#[derive(Copy, Clone)]
pub struct Sliding;

#[derive(Copy, Clone)]
pub struct Jumping;

#[derive(Copy, Clone)]
pub struct Falling;

#[derive(Copy, Clone)]
pub struct Dead;

} // verus!
