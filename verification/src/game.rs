//! The game: the character, the obstacles, the walk and its life cycle.

use vstd::prelude::*;
use vstd::hash_map::StringHashMap;
use vstd::string::StringExecFns;
use std::rc::Rc;
use crate::engine::{DrawCommand, Image, ImageElement, KeyState, Point, Rect, SpriteSheet};
use crate::game::red_hat_boy::{CharacterState, RedHatBoyView, StateTag};
use crate::game::walk::{lemma_right_edges_of_views, WalkView};
use crate::segments::{segment, stone_and_platform, INITIAL_STONE_OFFSET, LOW_PLATFORM};

pub mod obstacle;
pub mod red_hat_boy;
pub mod red_hat_boy_states;
pub mod walk;

pub use obstacle::{rightmost, AnyObstacle, Barrier, Obstacle, Platform};
pub use red_hat_boy::{Event, RedHatBoy, RedHatBoyStateMachine};
pub use walk::Walk;

verus! {

/// A region of a sprite sheet, in pixels.
#[derive(Clone, Copy, Debug, PartialEq, Eq, Structural)]
pub struct SheetRect {
    pub x: u16,
    pub y: u16,
    pub w: u16,
    pub h: u16,
}

/// One cell of a sprite sheet: the region that holds the sprite, and where
/// that region lies within the untrimmed sprite.
#[derive(Clone, Copy, Debug, PartialEq, Eq, Structural)]
pub struct Cell {
    pub frame: SheetRect,
    pub sprite_source_size: SheetRect,
}

/// The catalog of a sprite sheet: its cells by name.
pub struct Sheet {
    pub frames: StringHashMap<Cell>,
}

impl Sheet {
    /// The cell that the catalog holds under `name`, if any.
    pub open spec fn spec_cell(&self, name: Seq<char>) -> Option<Cell> {
        if self.frames@.contains_key(name) {
            Some(self.frames@[name])
        } else {
            None
        }
    }

    /// A catalog without cells.
    pub fn new() -> (r: Self)
        ensures
            r.frames@ == Map::<Seq<char>, Cell>::empty(),
    {
        Sheet { frames: StringHashMap::new() }
    }

    /// Files `cell` under `name`, in place of what was filed there before.
    pub fn insert(&mut self, name: &str, cell: Cell)
        ensures
            final(self).frames@ == old(self).frames@.insert(name@, cell),
    {
        self.frames.insert(String::from_str(name), cell);
    }

    pub fn cell(&self, name: &str) -> (r: Option<&Cell>)
        ensures
            match r {
                Some(cell) => self.spec_cell(name@) == Some(*cell),
                None => self.spec_cell(name@) is None,
            },
    {
        self.frames.get(name)
    }
}

/// Width of the playfield.
pub const WIDTH: i16 = 1200;

/// Height of the playfield.
pub const HEIGHT: i16 = 600;

/// How far the character's bounding box begins right of its sprite.
pub const X_OFFSET: i16 = 18;

/// How far the character's bounding box begins below the top of its sprite.
pub const Y_OFFSET: i16 = 14;

/// How much narrower the character's bounding box is than its sprite.
pub const WIDTH_OFFSET: i16 = 28;

/// The gap between the last obstacle and the segment that follows it.
pub const OBSTACLE_BUFFER: i16 = 20;

/// How far ahead of the character the walk is kept filled with obstacles.
pub const TIMELINE_MINIMUM: i16 = 1000;

/// What a game is started with: the catalogs and the pictures, loaded.
pub struct Assets {
    /// The catalog of the character's sprites, and the picture they are cut
    /// from.
    pub boy_sheet: Sheet,
    pub boy_image: ImageElement,
    /// The picture that scrolls behind the walk.
    pub background: ImageElement,
    /// The picture of a stone.
    pub stone: ImageElement,
    /// The catalog of the tiles that platforms are built from, and the
    /// picture they are cut from.
    pub tiles: Sheet,
    pub tiles_image: ImageElement,
}

impl Assets {
    /// Whether a game can begin with these: the first segment lies inside
    /// the coordinate space, right edges included.
    pub fn can_start(&self) -> (r: bool)
        ensures
            r == self.first_walk().can_start(),
    {
        let stone_right: i32 = INITIAL_STONE_OFFSET as i32 + self.stone.width as i32;
        -32768 <= stone_right && stone_right <= 32767
    }

    /// The walk that a game begins with: the character at its spawn point,
    /// two backgrounds side by side, the first segment at the origin.
    pub open spec fn first_walk(self) -> WalkView {
        let sheet = SpriteSheet { sheet: self.tiles, image: self.tiles_image };
        let obstacles = segment(self.stone, sheet, 0, LOW_PLATFORM);
        WalkView {
            boy: RedHatBoyView {
                state: CharacterState::spawn(),
                frames: self.boy_sheet.frames@,
                image: self.boy_image,
            },
            backgrounds: seq![
                Image {
                    element: self.background,
                    bounding_box: Rect {
                        position: Point { x: 0, y: 0 },
                        width: self.background.width,
                        height: self.background.height,
                    },
                },
                Image {
                    element: self.background,
                    bounding_box: Rect {
                        position: Point { x: self.background.width, y: 0 },
                        width: self.background.width,
                        height: self.background.height,
                    },
                },
            ],
            obstacles,
            obstacle_sheet: sheet,
            stone: self.stone,
            timeline: crate::game::obstacle::rightmost_edge(
                obstacles.map_values(
                    |obstacle: crate::game::obstacle::ObstacleView| obstacle.right_edge(),
                ),
            ) as i16,
        }
    }
}

/// Why a game could not be started.
#[derive(Clone, Copy, Debug, PartialEq, Eq, Structural)]
pub enum GameError {
    AlreadyInitialized,
}

impl GameError {
    pub fn message(&self) -> (r: &'static str)
        ensures
            r@ == "Error: Game is already initialized!"@,
    {
        "Error: Game is already initialized!"
    }
}

/// What the user interface is asked to do after a tick.
#[derive(Clone, Copy, Debug, PartialEq, Eq, Structural)]
pub enum UiAction {
    /// Leave the interface as it is.
    Nothing,
    /// The run is over: offer a new game.
    ShowNewGame,
    /// A new game has begun: take the offer away.
    HideNewGame,
}

/// What the world around the game is asked to do after a tick.
#[derive(Clone, Copy, Debug, PartialEq, Eq, Structural)]
pub struct Effects {
    /// What the user interface has to do.
    pub ui: UiAction,
    /// Whether the sound of a jump is to be played.
    pub jump_sound: bool,
}

/// The game: nothing before it is initialized, the state machine after.
pub struct WalkTheDog {
    pub machine: Option<WalkTheDogStateMachine>,
}

impl WalkTheDog {
    pub fn new() -> (r: Self)
        ensures
            r.machine is None,
    {
        WalkTheDog { machine: None }
    }

    /// Starts a game from `assets`. A game that has been initialized cannot
    /// be initialized again.
    pub fn initialize(&self, assets: Assets) -> (r: Result<WalkTheDog, GameError>)
        requires
            self.machine is None ==> assets.first_walk().can_start(),
        ensures
            match r {
                Ok(game) => {
                    &&& self.machine is None
                    &&& game.machine matches Some(machine)
                    &&& machine@ == (GameView {
                        phase: GamePhase::Ready,
                        walk: assets.first_walk(),
                    })
                },
                Err(error) => self.machine is Some && error == GameError::AlreadyInitialized,
            },
    {
        match self.machine {
            None => {
                let boy = RedHatBoy::new(assets.boy_sheet, assets.boy_image);
                let first_background = Image::new(assets.background, Point { x: 0, y: 0 });
                let background_width: i16 = assets.background.width;
                let second_background = Image::new(
                    assets.background,
                    Point { x: background_width, y: 0 },
                );
                let sheet = SpriteSheet { sheet: assets.tiles, image: assets.tiles_image };
                let sheet = Rc::new(sheet);
                let starting_obstacles = stone_and_platform(assets.stone, sheet.clone(), 0);
                proof {
                    lemma_right_edges_of_views(starting_obstacles@);
                }
                let timeline: i16 = rightmost(starting_obstacles.as_slice());
                let walk = Walk {
                    boy,
                    backgrounds: [first_background, second_background],
                    obstacles: starting_obstacles,
                    obstacle_sheet: sheet,
                    stone: assets.stone,
                    timeline,
                };
                assert(walk@.backgrounds =~= assets.first_walk().backgrounds);
                Ok(WalkTheDog { machine: Some(WalkTheDogStateMachine::new(walk)) })
            },
            Some(_) => Err(GameError::AlreadyInitialized),
        }
    }

    /// Moves the game on by one tick, and says what the world around the
    /// game has to do: offer a new game when the run has just ended, take the
    /// offer away when a new game has just begun, and play the sound of a
    /// jump when the character has set off on one.
    pub fn update(&mut self, keystate: &KeyState, new_game_pressed: bool) -> (effects: Effects)
        requires
            old(self).machine matches Some(machine) && machine@.can_update(
                keystate@,
                new_game_pressed,
                0,
            ) && machine@.can_update(keystate@, new_game_pressed, 1),
        ensures
            old(self).machine matches Some(before) && final(self).machine matches Some(after) && (
            after@ == before@.updated(keystate@, new_game_pressed, 0) || after@
                == before@.updated(keystate@, new_game_pressed, 1)) && effects
                == before@.effects(keystate@, after@),
    {
        match self.try_update(keystate, new_game_pressed) {
            Some(effects) => effects,
            None => vstd::pervasive::unreached(),
        }
    }

    /// Moves the game on by one tick, if there is a game and the tick stays
    /// inside the coordinate space and finds every sprite that it looks up.
    /// Where it does not, nothing is handed back and the game is gone.
    pub fn try_update(&mut self, keystate: &KeyState, new_game_pressed: bool) -> (r: Option<
        Effects,
    >)
        ensures
            r is Some <==> (old(self).machine matches Some(machine) && machine@.can_update(
                keystate@,
                new_game_pressed,
                0,
            ) && machine@.can_update(keystate@, new_game_pressed, 1)),
            r matches Some(effects) ==> old(self).machine matches Some(before) && final(self).machine
                matches Some(after) && (after@ == before@.updated(keystate@, new_game_pressed, 0)
                || after@ == before@.updated(keystate@, new_game_pressed, 1)) && effects
                == before@.effects(keystate@, after@),
            r is None ==> final(self).machine is None,
    {
        match self.machine.take() {
            Some(machine) => {
                let was_walking = machine.is_walking();
                let was_over = machine.is_game_over();
                let jump_sound = was_walking && keystate.is_pressed("Space") && matches!(
                    machine.walk().boy.state(),
                    StateTag::Running
                );
                match machine.try_update(keystate, new_game_pressed) {
                    Some(machine) => {
                        let ui = if was_walking && machine.is_game_over() {
                            UiAction::ShowNewGame
                        } else if was_over && machine.is_ready() {
                            UiAction::HideNewGame
                        } else {
                            UiAction::Nothing
                        };
                        self.machine = Some(machine);
                        Some(Effects { ui, jump_sound })
                    },
                    None => None,
                }
            },
            None => None,
        }
    }

    /// The instructions that draw the game, if the walk can be drawn.
    pub fn try_draw(&self) -> (r: Option<Vec<DrawCommand>>)
        ensures
            r is Some <==> (self.machine matches Some(machine) ==> machine@.walk.can_draw()),
            r matches Some(commands) ==> commands@ == seq![
                DrawCommand::Clear(
                    Rect { position: Point { x: 0, y: 0 }, width: WIDTH, height: HEIGHT },
                ),
            ] + (match self.machine {
                Some(machine) => machine@.walk.draw_commands(),
                None => Seq::empty(),
            }),
    {
        if let Some(machine) = &self.machine {
            if !machine.walk().can_draw() {
                return None;
            }
        }
        Some(self.draw())
    }

    /// The instructions that draw the game: the playfield is wiped, then the
    /// walk is drawn, if there is one.
    pub fn draw(&self) -> (r: Vec<DrawCommand>)
        requires
            self.machine matches Some(machine) ==> machine@.walk.can_draw(),
        ensures
            r@ == seq![
                DrawCommand::Clear(
                    Rect { position: Point { x: 0, y: 0 }, width: WIDTH, height: HEIGHT },
                ),
            ] + (match self.machine {
                Some(machine) => machine@.walk.draw_commands(),
                None => Seq::empty(),
            }),
    {
        let rect = Rect::new_from_x_y(0, 0, WIDTH, HEIGHT);
        let mut commands: Vec<DrawCommand> = Vec::new();
        commands.push(DrawCommand::Clear(rect));
        if let Some(machine) = &self.machine {
            let mut more = machine.draw();
            commands.append(&mut more);
        }
        commands
    }
}

/// The name of a stage of the game.
#[derive(Clone, Copy, Debug, PartialEq, Eq, Structural)]
pub enum GamePhase {
    Ready,
    Walking,
    GameOver,
}

/// A game as a plain value: its stage, and its walk.
pub struct GameView {
    pub phase: GamePhase,
    pub walk: WalkView,
}

impl GameView {
    /// Whether a tick stays inside the coordinate space and finds every
    /// sprite that it looks up.
    pub open spec fn can_update(
        self,
        keys: Set<Seq<char>>,
        new_game_pressed: bool,
        next_segment: i32,
    ) -> bool {
        match self.phase {
            GamePhase::Ready => {
                &&& self.walk.boy.state.accepts(Event::Update)
                &&& keys.contains("ArrowRight"@) ==> self.walk.boy.after(
                    Event::Update,
                ).state.accepts(Event::Run)
            },
            GamePhase::Walking => self.walk.can_walk(keys, next_segment),
            GamePhase::GameOver => new_game_pressed ==> self.walk.can_start(),
        }
    }

    /// The game after a tick.
    ///
    /// A game that is ready lets the character idle until ArrowRight is
    /// held, and then sets it running. A game that is walking walks, until
    /// the character is dead. A game that is over waits for a new game, and
    /// then begins afresh.
    pub open spec fn updated(
        self,
        keys: Set<Seq<char>>,
        new_game_pressed: bool,
        next_segment: i32,
    ) -> GameView {
        match self.phase {
            GamePhase::Ready => {
                let boy = self.walk.boy.after(Event::Update);
                if keys.contains("ArrowRight"@) {
                    GameView {
                        phase: GamePhase::Walking,
                        walk: self.walk.with_boy(boy.after(Event::Run)),
                    }
                } else {
                    GameView { phase: GamePhase::Ready, walk: self.walk.with_boy(boy) }
                }
            },
            GamePhase::Walking => {
                let walk = self.walk.walked(keys, next_segment);
                GameView {
                    phase: if walk.boy.state.tag is Dead {
                        GamePhase::GameOver
                    } else {
                        GamePhase::Walking
                    },
                    walk,
                }
            },
            GamePhase::GameOver => {
                if new_game_pressed {
                    GameView { phase: GamePhase::Ready, walk: self.walk.fresh() }
                } else {
                    self
                }
            },
        }
    }

    /// What the world around the game has to do when the keys `keys` have
    /// taken the game from `self` to `after`. The sound of a jump is played
    /// when Space is held while the character is running.
    pub open spec fn effects(self, keys: Set<Seq<char>>, after: GameView) -> Effects {
        Effects {
            ui: self.ui_action(after),
            jump_sound: self.phase is Walking && keys.contains("Space"@)
                && self.walk.boy.state.tag is Running,
        }
    }

    /// What the user interface has to do when the game has gone from `self`
    /// to `after`.
    pub open spec fn ui_action(self, after: GameView) -> UiAction {
        if self.phase is Walking && after.phase is GameOver {
            UiAction::ShowNewGame
        } else if self.phase is GameOver && after.phase is Ready {
            UiAction::HideNewGame
        } else {
            UiAction::Nothing
        }
    }
}

/// A game that is over and is asked for a new game is ready in the next
/// tick, on a walk that begins afresh.
pub proof fn lemma_new_game_begins_afresh(game: GameView, keys: Set<Seq<char>>, next_segment: i32)
    requires
        game.phase is GameOver,
    ensures
        game.updated(keys, true, next_segment).phase is Ready,
        game.updated(keys, true, next_segment).walk == game.walk.fresh(),
        game.updated(keys, false, next_segment) == game,
{
}

/// The game in one of its three stages.
pub enum WalkTheDogStateMachine {
    Ready(WalkTheDogState<Ready>),
    Walking(WalkTheDogState<Walking>),
    GameOver(WalkTheDogState<GameOver>),
}

impl View for WalkTheDogStateMachine {
    type V = GameView;

    open spec fn view(&self) -> GameView {
        match self {
            WalkTheDogStateMachine::Ready(state) => GameView {
                phase: GamePhase::Ready,
                walk: state@,
            },
            WalkTheDogStateMachine::Walking(state) => GameView {
                phase: GamePhase::Walking,
                walk: state@,
            },
            WalkTheDogStateMachine::GameOver(state) => GameView {
                phase: GamePhase::GameOver,
                walk: state@,
            },
        }
    }
}

impl WalkTheDogStateMachine {
    /// A game that is ready to begin on `walk`.
    pub fn new(walk: Walk) -> (r: Self)
        ensures
            r@ == (GameView { phase: GamePhase::Ready, walk: walk@ }),
    {
        WalkTheDogStateMachine::Ready(WalkTheDogState::new(walk))
    }

    /// Moves the game on by one tick. Where the walk grows, the shape of the
    /// new segment is drawn at random.
    pub fn update(self, keystate: &KeyState, new_game_pressed: bool) -> (r: Self)
        requires
            self@.can_update(keystate@, new_game_pressed, 0),
            self@.can_update(keystate@, new_game_pressed, 1),
        ensures
            r@ == self@.updated(keystate@, new_game_pressed, 0) || r@ == self@.updated(
                keystate@,
                new_game_pressed,
                1,
            ),
    {
        match self {
            WalkTheDogStateMachine::Ready(state) => WalkTheDogStateMachine::from(
                state.update(keystate),
            ),
            WalkTheDogStateMachine::Walking(state) => WalkTheDogStateMachine::from(
                state.update(keystate),
            ),
            WalkTheDogStateMachine::GameOver(state) => WalkTheDogStateMachine::from(
                state.update(new_game_pressed),
            ),
        }
    }

    /// Moves the game on by one tick, if the tick stays inside the
    /// coordinate space and finds every sprite that it looks up. Where it
    /// does not, the game is lost and nothing is handed back.
    pub fn try_update(self, keystate: &KeyState, new_game_pressed: bool) -> (r: Option<Self>)
        ensures
            r is Some <==> self@.can_update(keystate@, new_game_pressed, 0) && self@.can_update(
                keystate@,
                new_game_pressed,
                1,
            ),
            r matches Some(after) ==> after@ == self@.updated(keystate@, new_game_pressed, 0)
                || after@ == self@.updated(keystate@, new_game_pressed, 1),
    {
        match self {
            WalkTheDogStateMachine::Ready(state) => match state.try_update(keystate) {
                Some(end) => Some(WalkTheDogStateMachine::from(end)),
                None => None,
            },
            WalkTheDogStateMachine::Walking(state) => match state.try_update(keystate) {
                Some(end) => Some(WalkTheDogStateMachine::from(end)),
                None => None,
            },
            WalkTheDogStateMachine::GameOver(state) => match state.try_update(new_game_pressed) {
                Some(end) => Some(WalkTheDogStateMachine::from(end)),
                None => None,
            },
        }
    }

    /// Moves the game on by one tick. Where the walk grows, it grows by the
    /// segment for `next_segment`.
    pub fn update_with(self, keystate: &KeyState, new_game_pressed: bool, next_segment: i32) -> (r:
        Self)
        requires
            self@.can_update(keystate@, new_game_pressed, next_segment),
        ensures
            r@ == self@.updated(keystate@, new_game_pressed, next_segment),
    {
        match self {
            WalkTheDogStateMachine::Ready(state) => WalkTheDogStateMachine::from(
                state.update(keystate),
            ),
            WalkTheDogStateMachine::Walking(state) => WalkTheDogStateMachine::from(
                state.update_with(keystate, next_segment),
            ),
            WalkTheDogStateMachine::GameOver(state) => WalkTheDogStateMachine::from(
                state.update(new_game_pressed),
            ),
        }
    }

    pub fn draw(&self) -> (r: Vec<DrawCommand>)
        requires
            self@.walk.can_draw(),
        ensures
            r@ == self@.walk.draw_commands(),
    {
        match self {
            WalkTheDogStateMachine::Ready(state) => state.draw(),
            WalkTheDogStateMachine::Walking(state) => state.draw(),
            WalkTheDogStateMachine::GameOver(state) => state.draw(),
        }
    }

    pub fn is_ready(&self) -> (r: bool)
        ensures
            r == (self@.phase is Ready),
    {
        matches!(self, WalkTheDogStateMachine::Ready(_))
    }

    pub fn is_walking(&self) -> (r: bool)
        ensures
            r == (self@.phase is Walking),
    {
        matches!(self, WalkTheDogStateMachine::Walking(_))
    }

    pub fn is_game_over(&self) -> (r: bool)
        ensures
            r == (self@.phase is GameOver),
    {
        matches!(self, WalkTheDogStateMachine::GameOver(_))
    }

    /// The walk of the game, whichever stage it is in.
    pub fn walk(&self) -> (r: &Walk)
        ensures
            r@ == self@.walk,
    {
        match self {
            WalkTheDogStateMachine::Ready(state) => state.walk(),
            WalkTheDogStateMachine::Walking(state) => state.walk(),
            WalkTheDogStateMachine::GameOver(state) => state.walk(),
        }
    }
}

/// A game in the stage that the tag `T` names.
pub struct WalkTheDogState<T> {
    _state: T,
    walk: Walk,
}

impl<T> View for WalkTheDogState<T> {
    type V = WalkView;

    /// A stage is seen as the walk it holds: the tag carries no data.
    closed spec fn view(&self) -> WalkView {
        self.walk@
    }
}

impl<T> WalkTheDogState<T> {
    pub fn draw(&self) -> (r: Vec<DrawCommand>)
        requires
            self@.can_draw(),
        ensures
            r@ == self@.draw_commands(),
    {
        self.walk.draw()
    }

    pub fn walk(&self) -> (r: &Walk)
        ensures
            r@ == self@,
    {
        &self.walk
    }
}

pub struct Ready;

pub struct Walking;

pub struct GameOver;

impl WalkTheDogState<Ready> {
    pub fn new(walk: Walk) -> (r: WalkTheDogState<Ready>)
        ensures
            r@ == walk@,
    {
        WalkTheDogState { _state: Ready, walk }
    }

    /// One tick of waiting: the character idles, and sets off once
    /// ArrowRight is held.
    pub fn update(self, keystate: &KeyState) -> (r: ReadyEndState)
        requires
            self@.boy.state.accepts(Event::Update),
            keystate@.contains("ArrowRight"@) ==> self@.boy.after(Event::Update).state.accepts(
                Event::Run,
            ),
        ensures
            match r {
                ReadyEndState::Complete(walking) => {
                    &&& keystate@.contains("ArrowRight"@)
                    &&& walking@ == self@.with_boy(
                        self@.boy.after(Event::Update).after(Event::Run),
                    )
                },
                ReadyEndState::Continue(ready) => {
                    &&& !keystate@.contains("ArrowRight"@)
                    &&& ready@ == self@.with_boy(self@.boy.after(Event::Update))
                },
            },
    {
        let mut state = self;
        state.walk.boy.update();
        if keystate.is_pressed("ArrowRight") {
            ReadyEndState::Complete(state.start_running())
        } else {
            ReadyEndState::Continue(state)
        }
    }

    /// One tick of waiting, if the tick stays inside the coordinate space.
    pub fn try_update(self, keystate: &KeyState) -> (r: Option<ReadyEndState>)
        ensures
            r is Some <==> {
                &&& self@.boy.state.accepts(Event::Update)
                &&& keystate@.contains("ArrowRight"@) ==> self@.boy.after(
                    Event::Update,
                ).state.accepts(Event::Run)
            },
            r matches Some(end) ==> (match end {
                ReadyEndState::Complete(walking) => {
                    &&& keystate@.contains("ArrowRight"@)
                    &&& walking@ == self@.with_boy(
                        self@.boy.after(Event::Update).after(Event::Run),
                    )
                },
                ReadyEndState::Continue(ready) => {
                    &&& !keystate@.contains("ArrowRight"@)
                    &&& ready@ == self@.with_boy(self@.boy.after(Event::Update))
                },
            }),
    {
        if !self.walk.boy.accepts(Event::Update) {
            return None;
        }
        let mut state = self;
        state.walk.boy.update();
        if keystate.is_pressed("ArrowRight") {
            if !state.walk.boy.accepts(Event::Run) {
                return None;
            }
            Some(ReadyEndState::Complete(state.start_running()))
        } else {
            Some(ReadyEndState::Continue(state))
        }
    }

    pub fn start_running(self) -> (r: WalkTheDogState<Walking>)
        requires
            self@.boy.state.accepts(Event::Run),
        ensures
            r@ == self@.with_boy(self@.boy.after(Event::Run)),
    {
        let mut state = self;
        state.run_right();
        WalkTheDogState { _state: Walking, walk: state.walk }
    }

    pub fn run_right(&mut self)
        requires
            old(self)@.boy.state.accepts(Event::Run),
        ensures
            final(self)@ == old(self)@.with_boy(old(self)@.boy.after(Event::Run)),
    {
        self.walk.boy.run_right();
    }
}

/// How a tick of waiting ends.
pub enum ReadyEndState {
    Complete(WalkTheDogState<Walking>),
    Continue(WalkTheDogState<Ready>),
}

impl WalkingEndState {
    /// The walk that the tick has ended on.
    pub open spec fn walk(self) -> WalkView {
        match self {
            WalkingEndState::Complete(game_over) => game_over@,
            WalkingEndState::Continue(walking) => walking@,
        }
    }

    /// Whether the tick has ended on `walk`: in a game that is over if the
    /// character is dead, in one that goes on if it is not.
    pub open spec fn ends_on(self, walk: WalkView) -> bool {
        match self {
            WalkingEndState::Complete(game_over) => {
                &&& walk.boy.state.tag is Dead
                &&& game_over@ == walk
            },
            WalkingEndState::Continue(walking) => {
                &&& !(walk.boy.state.tag is Dead)
                &&& walking@ == walk
            },
        }
    }
}

impl WalkTheDogState<Walking> {
    /// One tick of walking. Where the walk grows, the shape of the new
    /// segment is drawn at random.
    pub fn update(self, keystate: &KeyState) -> (r: WalkingEndState)
        requires
            self@.can_walk(keystate@, 0),
            self@.can_walk(keystate@, 1),
        ensures
            r.ends_on(self@.walked(keystate@, 0)) || r.ends_on(self@.walked(keystate@, 1)),
            self@.is_refilled(r.walk(), self@.walking_speed(keystate@)),
    {
        match self.advance(keystate, None) {
            Some(end) => end,
            None => vstd::pervasive::unreached(),
        }
    }

    /// One tick of walking. Where the walk grows, it grows by the segment
    /// for `next_segment`.
    pub fn update_with(self, keystate: &KeyState, next_segment: i32) -> (r: WalkingEndState)
        requires
            self@.can_walk(keystate@, next_segment),
        ensures
            r.ends_on(self@.walked(keystate@, next_segment)),
            0 <= next_segment < 2 ==> self@.is_refilled(r.walk(), self@.walking_speed(keystate@)),
    {
        match self.advance(keystate, Some(next_segment)) {
            Some(end) => end,
            None => vstd::pervasive::unreached(),
        }
    }

    /// One tick of walking, if the tick stays inside the coordinate space
    /// and finds every sprite that it looks up.
    pub fn try_update(self, keystate: &KeyState) -> (r: Option<WalkingEndState>)
        ensures
            r is Some <==> self@.can_walk(keystate@, 0) && self@.can_walk(keystate@, 1),
            r matches Some(end) ==> end.ends_on(self@.walked(keystate@, 0)) || end.ends_on(
                self@.walked(keystate@, 1),
            ),
            r matches Some(end) ==> self@.is_refilled(end.walk(), self@.walking_speed(keystate@)),
    {
        self.advance(keystate, None)
    }

    /// One tick of walking: the walk scrolls; then it grows, where the
    /// timeline has come closer than `TIMELINE_MINIMUM`, or the timeline
    /// scrolls with the world; and the run is over if the character is
    /// dead. The walk grows by the segment for `next_segment`, or, where
    /// none is given, by one drawn at random.
    fn advance(self, keystate: &KeyState, next_segment: Option<i32>) -> (r: Option<
        WalkingEndState,
    >)
        ensures
            r is Some <==> (match next_segment {
                Some(given) => self@.can_walk(keystate@, given),
                None => self@.can_walk(keystate@, 0) && self@.can_walk(keystate@, 1),
            }),
            r matches Some(end) ==> (match next_segment {
                Some(given) => end.ends_on(self@.walked(keystate@, given)),
                None => end.ends_on(self@.walked(keystate@, 0)) || end.ends_on(
                    self@.walked(keystate@, 1),
                ),
            }),
            r matches Some(end) ==> (match next_segment {
                Some(given) => 0 <= given < 2 ==> self@.is_refilled(
                    end.walk(),
                    self@.walking_speed(keystate@),
                ),
                None => self@.is_refilled(end.walk(), self@.walking_speed(keystate@)),
            }),
    {
        let mut state = self;
        let walking_speed: i16 = match state.walk.try_scroll(keystate) {
            Some(walking_speed) => walking_speed,
            None => {
                return None;
            },
        };
        proof {
            assert(state.walk@.next_obstacles(0) == self@.next_obstacles(0));
            assert(state.walk@.next_obstacles(1) == self@.next_obstacles(1));
            if let Some(given) = next_segment {
                assert(state.walk@.next_obstacles(given) == self@.next_obstacles(given));
            }
        }
        if state.walk.timeline < TIMELINE_MINIMUM {
            match next_segment {
                Some(given) => {
                    if !state.walk.can_generate(given) {
                        return None;
                    }
                    state.walk.append_segment(given);
                },
                None => {
                    if !state.walk.can_generate(0) {
                        return None;
                    }
                    state.walk.generate_next_segment();
                },
            }
        } else {
            let moved: i32 = state.walk.timeline as i32 + walking_speed as i32;
            if moved < -32768 || moved > 32767 {
                return None;
            }
            state.walk.timeline += walking_speed;
        }
        if state.walk.is_dead() {
            Some(WalkingEndState::Complete(state.end_game()))
        } else {
            Some(WalkingEndState::Continue(state))
        }
    }

    /// Ends the run. The walk stays as it is, to be looked at.
    pub fn end_game(self) -> (r: WalkTheDogState<GameOver>)
        ensures
            r@ == self@,
    {
        WalkTheDogState { _state: GameOver, walk: self.walk }
    }
}

/// How a tick of walking ends.
pub enum WalkingEndState {
    Complete(WalkTheDogState<GameOver>),
    Continue(WalkTheDogState<Walking>),
}

impl WalkTheDogState<GameOver> {
    /// One tick after the run: a new game begins if it has been asked for.
    pub fn update(self, new_game_pressed: bool) -> (r: GameOverEndState)
        requires
            new_game_pressed ==> self@.can_start(),
        ensures
            match r {
                GameOverEndState::Complete(ready) => new_game_pressed && ready@ == self@.fresh(),
                GameOverEndState::Continue(game_over) => !new_game_pressed && game_over@ == self@,
            },
    {
        if new_game_pressed {
            GameOverEndState::Complete(self.new_game())
        } else {
            GameOverEndState::Continue(self)
        }
    }

    /// One tick after the run, if a new game can begin where it has been
    /// asked for.
    pub fn try_update(self, new_game_pressed: bool) -> (r: Option<GameOverEndState>)
        ensures
            r is Some <==> (new_game_pressed ==> self@.can_start()),
            r matches Some(end) ==> (match end {
                GameOverEndState::Complete(ready) => new_game_pressed && ready@ == self@.fresh(),
                GameOverEndState::Continue(game_over) => !new_game_pressed && game_over@ == self@,
            }),
    {
        if new_game_pressed && !self.walk.can_start() {
            return None;
        }
        Some(self.update(new_game_pressed))
    }

    /// Begins afresh: the character is back at its spawn point, and the
    /// obstacles are those of a walk that has just begun.
    pub fn new_game(self) -> (r: WalkTheDogState<Ready>)
        requires
            self@.can_start(),
        ensures
            r@ == self@.fresh(),
    {
        WalkTheDogState { _state: Ready, walk: Walk::reset(self.walk) }
    }
}

/// How a tick after the run ends.
pub enum GameOverEndState {
    Complete(WalkTheDogState<Ready>),
    Continue(WalkTheDogState<GameOver>),
}

impl From<ReadyEndState> for WalkTheDogStateMachine {
    fn from(state: ReadyEndState) -> (r: Self) {
        match state {
            ReadyEndState::Complete(walking) => WalkTheDogStateMachine::Walking(walking),
            ReadyEndState::Continue(ready) => WalkTheDogStateMachine::Ready(ready),
        }
    }
}

impl vstd::std_specs::convert::FromSpecImpl<ReadyEndState> for WalkTheDogStateMachine {
    open spec fn obeys_from_spec() -> bool {
        true
    }

    open spec fn from_spec(state: ReadyEndState) -> Self {
        match state {
            ReadyEndState::Complete(walking) => WalkTheDogStateMachine::Walking(walking),
            ReadyEndState::Continue(ready) => WalkTheDogStateMachine::Ready(ready),
        }
    }
}

impl From<WalkTheDogState<Ready>> for WalkTheDogStateMachine {
    fn from(state: WalkTheDogState<Ready>) -> (r: Self) {
        WalkTheDogStateMachine::Ready(state)
    }
}

impl vstd::std_specs::convert::FromSpecImpl<WalkTheDogState<Ready>> for WalkTheDogStateMachine {
    open spec fn obeys_from_spec() -> bool {
        true
    }

    open spec fn from_spec(state: WalkTheDogState<Ready>) -> Self {
        WalkTheDogStateMachine::Ready(state)
    }
}

impl From<WalkTheDogState<Walking>> for WalkTheDogStateMachine {
    fn from(state: WalkTheDogState<Walking>) -> (r: Self) {
        WalkTheDogStateMachine::Walking(state)
    }
}

impl vstd::std_specs::convert::FromSpecImpl<WalkTheDogState<Walking>> for WalkTheDogStateMachine {
    open spec fn obeys_from_spec() -> bool {
        true
    }

    open spec fn from_spec(state: WalkTheDogState<Walking>) -> Self {
        WalkTheDogStateMachine::Walking(state)
    }
}

impl From<WalkTheDogState<GameOver>> for WalkTheDogStateMachine {
    fn from(state: WalkTheDogState<GameOver>) -> (r: Self) {
        WalkTheDogStateMachine::GameOver(state)
    }
}

impl vstd::std_specs::convert::FromSpecImpl<WalkTheDogState<GameOver>> for WalkTheDogStateMachine {
    open spec fn obeys_from_spec() -> bool {
        true
    }

    open spec fn from_spec(state: WalkTheDogState<GameOver>) -> Self {
        WalkTheDogStateMachine::GameOver(state)
    }
}

impl From<WalkingEndState> for WalkTheDogStateMachine {
    fn from(end_state: WalkingEndState) -> (r: Self) {
        match end_state {
            WalkingEndState::Continue(state) => WalkTheDogStateMachine::Walking(state),
            WalkingEndState::Complete(state) => WalkTheDogStateMachine::GameOver(state),
        }
    }
}

impl vstd::std_specs::convert::FromSpecImpl<WalkingEndState> for WalkTheDogStateMachine {
    open spec fn obeys_from_spec() -> bool {
        true
    }

    open spec fn from_spec(end_state: WalkingEndState) -> Self {
        match end_state {
            WalkingEndState::Continue(state) => WalkTheDogStateMachine::Walking(state),
            WalkingEndState::Complete(state) => WalkTheDogStateMachine::GameOver(state),
        }
    }
}

impl From<GameOverEndState> for WalkTheDogStateMachine {
    fn from(end_state: GameOverEndState) -> (r: Self) {
        match end_state {
            GameOverEndState::Continue(state) => WalkTheDogStateMachine::GameOver(state),
            GameOverEndState::Complete(state) => WalkTheDogStateMachine::Ready(state),
        }
    }
}

impl vstd::std_specs::convert::FromSpecImpl<GameOverEndState> for WalkTheDogStateMachine {
    open spec fn obeys_from_spec() -> bool {
        true
    }

    open spec fn from_spec(end_state: GameOverEndState) -> Self {
        match end_state {
            GameOverEndState::Continue(state) => WalkTheDogStateMachine::GameOver(state),
            GameOverEndState::Complete(state) => WalkTheDogStateMachine::Ready(state),
        }
    }
}

} // verus!
