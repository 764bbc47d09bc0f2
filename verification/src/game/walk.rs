//! The walk: the character, the backgrounds that scroll past it, and the
//! obstacles ahead of it.

use vstd::prelude::*;
use std::rc::Rc;
use crate::engine::{DrawCommand, Image, ImageElement, KeyState, Point, Rect, SpriteSheet};
use crate::game::obstacle::{
    right_edges, rightmost, rightmost_edge, AnyObstacle, Obstacle, ObstacleView,
};
use crate::game::red_hat_boy::{Event, RedHatBoy, RedHatBoyView};
use crate::game::red_hat_boy_states::{FLOOR, STARTING_POINT};
use crate::game::{OBSTACLE_BUFFER, TIMELINE_MINIMUM};
use crate::segments::{
    lemma_segment_right_edges, platform_and_stone, segment, segment_has_right_edges,
    segment_right_edge, stone_and_platform, views, FIRST_PLATFORM, HIGH_PLATFORM,
    INITIAL_STONE_OFFSET, LOW_PLATFORM, PLATFORM_WIDTH,
};

verus! {

/// `rand::rngs::ThreadRng`: the handle to the random number generator that
/// `rand` keeps for the thread. Nothing is known of what it holds.
#[verifier::external_type_specification]
#[verifier::external_body]
pub struct ExThreadRng(rand::rngs::ThreadRng);

/// `rand::thread_rng` hands out the handle to the thread's generator.
/// Nothing is claimed of the handle. The first use on a thread unwinds
/// where the system gives the generator no entropy to start from.
pub assume_specification[ rand::thread_rng ]() -> (rng: rand::rngs::ThreadRng);

/// Draws a number from `low..high`: `Rng::gen_range` of `rand`, on the
/// thread's generator.
///
/// Taken on trust: that the number lies in the range, as `gen_range` says of
/// every range that is not empty. Which number comes is left open. A draw
/// at which the generator takes a new seed unwinds where the system gives it
/// none.
#[verifier::external_body]
fn gen_range(rng: &mut rand::rngs::ThreadRng, low: i32, high: i32) -> (r: i32)
    requires
        low < high,
    ensures
        low <= r < high,
{
    rand::Rng::gen_range(rng, low..high)
}

/// The instructions that draw `obstacles`, one obstacle after the other.
pub open spec fn obstacle_commands(obstacles: Seq<ObstacleView>) -> Seq<DrawCommand>
    decreases obstacles.len(),
{
    if obstacles.len() == 0 {
        Seq::empty()
    } else {
        obstacle_commands(obstacles.drop_last()) + obstacles.last().draw_commands()
    }
}

/// The character after it has met `obstacles`, one after the other.
pub open spec fn collide(boy: RedHatBoyView, obstacles: Seq<ObstacleView>) -> RedHatBoyView
    decreases obstacles.len(),
{
    if obstacles.len() == 0 {
        boy
    } else {
        let met = collide(boy, obstacles.drop_last());
        met.after_contact(obstacles.last().contact(met))
    }
}

/// Whether the character can meet `obstacles`, one after the other.
pub open spec fn can_collide(boy: RedHatBoyView, obstacles: Seq<ObstacleView>) -> bool
    decreases obstacles.len(),
{
    obstacles.len() > 0 ==> {
        &&& can_collide(boy, obstacles.drop_last())
        &&& collide(boy, obstacles.drop_last()).can_meet(
            obstacles.last().contact(collide(boy, obstacles.drop_last())),
        )
    }
}

/// A character that can meet all of `obstacles` can meet the first `count`
/// of them.
pub proof fn lemma_can_collide_with_first(
    boy: RedHatBoyView,
    obstacles: Seq<ObstacleView>,
    count: int,
)
    requires
        can_collide(boy, obstacles),
        0 <= count <= obstacles.len(),
    ensures
        can_collide(boy, obstacles.take(count)),
    decreases obstacles.len(),
{
    if count == obstacles.len() {
        assert(obstacles.take(count) =~= obstacles);
    } else {
        lemma_can_collide_with_first(boy, obstacles.drop_last(), count);
        assert(obstacles.drop_last().take(count) =~= obstacles.take(count));
    }
}

/// The two backgrounds after the world has moved by `x`. A background that
/// has left the playfield on the left is put behind the other.
pub open spec fn scrolled_backgrounds(backgrounds: Seq<Image>, x: int) -> Seq<Image> {
    let first = backgrounds[0].shifted(x);
    let second = backgrounds[1].shifted(x);
    let first = if first.bounding_box.right_edge() < 0 {
        first.at_x(second.bounding_box.right_edge() as i16)
    } else {
        first
    };
    let second = if second.bounding_box.right_edge() < 0 {
        second.at_x(first.bounding_box.right_edge() as i16)
    } else {
        second
    };
    seq![first, second]
}

/// Whether the backgrounds stay inside the coordinate space when the world
/// moves by `x`, right edges included.
pub open spec fn backgrounds_can_scroll(backgrounds: Seq<Image>, x: int) -> bool {
    let first = backgrounds[0].shifted(x);
    let second = backgrounds[1].shifted(x);
    &&& backgrounds[0].bounding_box.can_shift(x)
    &&& backgrounds[1].bounding_box.can_shift(x)
    &&& i16::MIN <= first.bounding_box.right_edge() <= i16::MAX
    &&& i16::MIN <= second.bounding_box.right_edge() <= i16::MAX
    &&& second.bounding_box.right_edge() < 0 ==> i16::MIN <= scrolled_backgrounds(
        backgrounds,
        x,
    )[0].bounding_box.right_edge() <= i16::MAX
}

/// Whether `rect` can be moved by `x` without leaving the coordinate space.
fn can_shift(rect: &Rect, x: i16) -> (r: bool)
    ensures
        r == rect.can_shift(x as int),
{
    let moved: i32 = rect.x() as i32 + x as i32;
    -32768 <= moved && moved <= 32767
}

/// Whether the right edge of `rect` lies inside the coordinate space.
fn has_right_edge(rect: &Rect) -> (r: bool)
    ensures
        r == (i16::MIN <= rect.right_edge() <= i16::MAX),
{
    let right: i32 = rect.x() as i32 + rect.width() as i32;
    -32768 <= right && right <= 32767
}

/// Whether a segment that begins at `offset_x` lies inside the coordinate
/// space with the right edges of its stone and its platform.
fn has_right_edges(stone: ImageElement, offset_x: i32) -> (r: bool)
    requires
        i16::MIN <= offset_x <= i16::MAX + OBSTACLE_BUFFER,
    ensures
        r == segment_has_right_edges(stone, offset_x as int),
{
    let stone_left: i32 = offset_x + INITIAL_STONE_OFFSET as i32;
    let stone_right: i32 = stone_left + stone.width as i32;
    let platform_right: i32 = offset_x + FIRST_PLATFORM as i32 + PLATFORM_WIDTH as i32;
    -32768 <= stone_left && -32768 <= stone_right && stone_right <= 32767 && platform_right
        <= 32767
}

/// A walk as a plain value.
pub struct WalkView {
    pub boy: RedHatBoyView,
    pub backgrounds: Seq<Image>,
    pub obstacles: Seq<ObstacleView>,
    pub obstacle_sheet: SpriteSheet,
    pub stone: ImageElement,
    pub timeline: i16,
}

impl WalkView {
    /// The segment that the walk grows by when `next_segment` is drawn: the
    /// low shape for 0, the high shape for 1, and nothing for any other
    /// number. It begins `OBSTACLE_BUFFER` behind the timeline.
    pub open spec fn next_obstacles(self, next_segment: i32) -> Seq<ObstacleView> {
        if next_segment == 0 {
            segment(self.stone, self.obstacle_sheet, self.timeline + OBSTACLE_BUFFER, LOW_PLATFORM)
        } else if next_segment == 1 {
            segment(self.stone, self.obstacle_sheet, self.timeline + OBSTACLE_BUFFER, HIGH_PLATFORM)
        } else {
            Seq::empty()
        }
    }

    /// Whether the segment for `next_segment` lies inside the coordinate
    /// space, right edges included.
    pub open spec fn can_generate(self, next_segment: i32) -> bool {
        0 <= next_segment < 2 ==> segment_has_right_edges(
            self.stone,
            self.timeline + OBSTACLE_BUFFER,
        )
    }

    /// The walk with the segment for `next_segment` behind its obstacles,
    /// and the timeline at the right edge of that segment.
    pub open spec fn with_next_segment(self, next_segment: i32) -> WalkView {
        let next_obstacles = self.next_obstacles(next_segment);
        WalkView {
            boy: self.boy,
            backgrounds: self.backgrounds,
            obstacles: self.obstacles + next_obstacles,
            obstacle_sheet: self.obstacle_sheet,
            stone: self.stone,
            timeline: rightmost_edge(
                next_obstacles.map_values(|obstacle: ObstacleView| obstacle.right_edge()),
            ) as i16,
        }
    }

    /// The walk as it begins: the character at its spawn point, the first
    /// segment at the origin, and the timeline at the right edge of that
    /// segment.
    pub open spec fn fresh(self) -> WalkView {
        let obstacles = segment(self.stone, self.obstacle_sheet, 0, LOW_PLATFORM);
        WalkView {
            boy: RedHatBoyView {
                state: crate::game::red_hat_boy::CharacterState::spawn(),
                frames: self.boy.frames,
                image: self.boy.image,
            },
            backgrounds: self.backgrounds,
            obstacles,
            obstacle_sheet: self.obstacle_sheet,
            stone: self.stone,
            timeline: rightmost_edge(
                obstacles.map_values(|obstacle: ObstacleView| obstacle.right_edge()),
            ) as i16,
        }
    }

    /// Whether the first segment lies inside the coordinate space, right
    /// edges included.
    pub open spec fn can_start(self) -> bool {
        segment_has_right_edges(self.stone, 0)
    }

    /// The walk with `boy` for its character.
    pub open spec fn with_boy(self, boy: RedHatBoyView) -> WalkView {
        WalkView {
            boy,
            backgrounds: self.backgrounds,
            obstacles: self.obstacles,
            obstacle_sheet: self.obstacle_sheet,
            stone: self.stone,
            timeline: self.timeline,
        }
    }

    /// Whether the walk can scroll for a tick: it stays inside the
    /// coordinate space, and finds every sprite that it looks up.
    pub open spec fn can_scroll(self, keys: Set<Seq<char>>) -> bool {
        let x = self.walking_speed(keys);
        &&& self.steered_boy(keys).state.accepts(Event::Update)
        &&& self.moved_boy(keys).state.context.velocity.x > i16::MIN
        &&& backgrounds_can_scroll(self.backgrounds, x)
        &&& forall|i: int| 0 <= i < self.obstacles.len() ==> (#[trigger] self.obstacles[i]).can_move(x)
        &&& can_collide(self.moved_boy(keys), self.scrolled_obstacles(keys))
    }

    /// The character after the keys have had their say: Space makes it
    /// jump, ArrowDown makes it slide.
    pub open spec fn steered_boy(self, keys: Set<Seq<char>>) -> RedHatBoyView {
        let boy = if keys.contains("Space"@) {
            self.boy.after(Event::Jump)
        } else {
            self.boy
        };
        if keys.contains("ArrowDown"@) {
            boy.after(Event::Slide)
        } else {
            boy
        }
    }

    /// The character after the keys and one tick of its own.
    pub open spec fn moved_boy(self, keys: Set<Seq<char>>) -> RedHatBoyView {
        self.steered_boy(keys).after(Event::Update)
    }

    /// How far the world moves in the tick: as far as the character walks,
    /// the other way.
    pub open spec fn walking_speed(self, keys: Set<Seq<char>>) -> int {
        -self.moved_boy(keys).state.context.velocity.x
    }

    /// The obstacles after the world has moved.
    pub open spec fn scrolled_obstacles(self, keys: Set<Seq<char>>) -> Seq<ObstacleView> {
        self.obstacles.map_values(
            |obstacle: ObstacleView| obstacle.shifted(self.walking_speed(keys)),
        )
    }

    /// The walk after a tick of walking, up to the timeline: the character
    /// has obeyed the keys and moved, the world has scrolled past it, and
    /// the character has met every obstacle where the obstacle then was.
    pub open spec fn scrolled(self, keys: Set<Seq<char>>) -> WalkView {
        WalkView {
            boy: collide(self.moved_boy(keys), self.scrolled_obstacles(keys)),
            backgrounds: scrolled_backgrounds(self.backgrounds, self.walking_speed(keys)),
            obstacles: self.scrolled_obstacles(keys),
            obstacle_sheet: self.obstacle_sheet,
            stone: self.stone,
            timeline: self.timeline,
        }
    }

    /// The walk after a tick of walking. Where the timeline has come closer
    /// than `TIMELINE_MINIMUM` the walk grows by the segment for
    /// `next_segment`; where it has not, the timeline scrolls with the
    /// world.
    pub open spec fn walked(self, keys: Set<Seq<char>>, next_segment: i32) -> WalkView {
        let scrolled = self.scrolled(keys);
        if self.timeline < TIMELINE_MINIMUM {
            scrolled.with_next_segment(next_segment)
        } else {
            WalkView {
                boy: scrolled.boy,
                backgrounds: scrolled.backgrounds,
                obstacles: scrolled.obstacles,
                obstacle_sheet: scrolled.obstacle_sheet,
                stone: scrolled.stone,
                timeline: (self.timeline + self.walking_speed(keys)) as i16,
            }
        }
    }

    /// Whether `after` holds what a tick of walking owes the timeline of
    /// `self` when the world moves by `x`. Where the timeline had come
    /// closer than `TIMELINE_MINIMUM`, there are two obstacles more, and the
    /// timeline is at the right edge of the new segment, ahead of the old
    /// timeline and the buffer; it has not moved with the world as well.
    /// Where it had not, there are as many obstacles as there were, and the
    /// timeline has moved with the world.
    pub open spec fn is_refilled(self, after: WalkView, x: int) -> bool {
        if self.timeline < TIMELINE_MINIMUM {
            &&& after.obstacles.len() == self.obstacles.len() + 2
            &&& after.obstacles[self.obstacles.len() as int] is Barrier
            &&& after.obstacles[self.obstacles.len() as int + 1] is Platform
            &&& after.timeline == segment_right_edge(self.stone, self.timeline + OBSTACLE_BUFFER)
            &&& after.timeline >= self.timeline + OBSTACLE_BUFFER
        } else {
            &&& after.obstacles.len() == self.obstacles.len()
            &&& after.timeline == self.timeline + x
        }
    }

    /// Whether a tick of walking stays inside the coordinate space and
    /// finds every sprite that it looks up.
    pub open spec fn can_walk(self, keys: Set<Seq<char>>, next_segment: i32) -> bool {
        &&& self.can_scroll(keys)
        &&& if self.timeline < TIMELINE_MINIMUM {
            self.can_generate(next_segment)
        } else {
            i16::MIN <= self.timeline + self.walking_speed(keys) <= i16::MAX
        }
    }

    pub open spec fn can_draw(self) -> bool {
        &&& self.boy.can_draw()
        &&& forall|i: int| 0 <= i < self.obstacles.len() ==> (#[trigger] self.obstacles[i]).can_draw()
    }

    /// The instructions that draw the walk: the backgrounds, the character
    /// in front of them, the obstacles in front of the character.
    pub open spec fn draw_commands(self) -> Seq<DrawCommand> {
        self.backgrounds.map_values(
            |background: Image|
                DrawCommand::EntireImage {
                    element: background.element,
                    position: background.bounding_box.position,
                },
        ) + seq![self.boy.draw_command()] + obstacle_commands(self.obstacles)
    }
}

/// A walk whose timeline has come closer than `TIMELINE_MINIMUM` grows in
/// the tick by a segment of two obstacles, and its timeline is then at the
/// right edge of that segment, which lies further ahead than the old
/// timeline and the buffer.
pub proof fn lemma_refill(walk: WalkView, keys: Set<Seq<char>>, next_segment: i32)
    requires
        walk.timeline < TIMELINE_MINIMUM,
        0 <= next_segment < 2,
        walk.can_walk(keys, next_segment),
    ensures
        walk.walked(keys, next_segment).obstacles == walk.scrolled_obstacles(keys)
            + walk.next_obstacles(next_segment),
        walk.walked(keys, next_segment).obstacles.len() == walk.obstacles.len() + 2,
        walk.walked(keys, next_segment).timeline == segment_right_edge(
            walk.stone,
            walk.timeline + OBSTACLE_BUFFER,
        ),
        walk.walked(keys, next_segment).timeline >= walk.timeline + OBSTACLE_BUFFER,
{
    lemma_segment_right_edges(
        walk.stone,
        walk.obstacle_sheet,
        walk.timeline + OBSTACLE_BUFFER,
        if next_segment == 0 {
            LOW_PLATFORM
        } else {
            HIGH_PLATFORM
        },
    );
    assert(walk.scrolled(keys).next_obstacles(next_segment) == walk.next_obstacles(next_segment));
}

/// A tick of walking takes no obstacle away: the obstacles that were there
/// are there after it, in their order, each moved by as much as the world
/// has moved.
pub proof fn lemma_no_obstacle_is_removed(walk: WalkView, keys: Set<Seq<char>>, next_segment: i32)
    ensures
        walk.walked(keys, next_segment).obstacles.len() >= walk.obstacles.len(),
        forall|i: int|
            0 <= i < walk.obstacles.len() ==> #[trigger] walk.walked(
                keys,
                next_segment,
            ).obstacles[i] == walk.obstacles[i].shifted(walk.walking_speed(keys)),
{
}

/// A walk that begins afresh has the character idle at its spawn point
/// and at rest, and for its obstacles the first segment and nothing else,
/// whatever the walk held before.
pub proof fn lemma_fresh_walk(walk: WalkView)
    ensures
        walk.fresh().boy.state.tag is Idle,
        walk.fresh().boy.state.context.position == (Point { x: STARTING_POINT, y: FLOOR }),
        walk.fresh().boy.state.context.velocity == (Point { x: 0, y: 0 }),
        walk.fresh().boy.state.context.frame == 0,
        walk.fresh().obstacles == segment(walk.stone, walk.obstacle_sheet, 0, LOW_PLATFORM),
        walk.fresh().obstacles.len() == 2,
{
}

/// The world that the character runs through.
pub struct Walk {
    pub boy: RedHatBoy,
    pub backgrounds: [Image; 2],
    pub obstacles: Vec<AnyObstacle>,
    pub obstacle_sheet: Rc<SpriteSheet>,
    pub stone: ImageElement,
    pub timeline: i16,
}

impl View for Walk {
    type V = WalkView;

    open spec fn view(&self) -> WalkView {
        WalkView {
            boy: self.boy@,
            backgrounds: self.backgrounds@,
            obstacles: views(self.obstacles@),
            obstacle_sheet: *self.obstacle_sheet,
            stone: self.stone,
            timeline: self.timeline,
        }
    }
}

/// The right edges of obstacles are those of their plain values.
pub proof fn lemma_right_edges_of_views(obstacles: Seq<AnyObstacle>)
    ensures
        right_edges(obstacles) == views(obstacles).map_values(
            |obstacle: ObstacleView| obstacle.right_edge(),
        ),
{
    assert(right_edges(obstacles) =~= views(obstacles).map_values(
        |obstacle: ObstacleView| obstacle.right_edge(),
    ));
}

impl Walk {
    /// How far the world moves per tick: as far as the character walks, the
    /// other way.
    pub fn velocity(&self) -> (r: i16)
        requires
            self@.boy.state.context.velocity.x > i16::MIN,
        ensures
            r == -self@.boy.state.context.velocity.x,
    {
        -self.boy.walking_speed()
    }

    /// Lets the walk scroll for a tick: the character obeys the keys and
    /// moves, the backgrounds and the obstacles move past it, and the
    /// character meets every obstacle where the obstacle then is. Hands back
    /// how far the world has moved.
    pub fn scroll(&mut self, keystate: &KeyState) -> (walking_speed: i16)
        requires
            old(self)@.can_scroll(keystate@),
        ensures
            final(self)@ == old(self)@.scrolled(keystate@),
            walking_speed == old(self)@.walking_speed(keystate@),
    {
        match self.try_scroll(keystate) {
            Some(walking_speed) => walking_speed,
            None => vstd::pervasive::unreached(),
        }
    }

    /// Lets the walk scroll for a tick, if the tick stays inside the
    /// coordinate space and finds every sprite that it looks up. Where it
    /// does not, nothing is handed back, and the walk is left as far as the
    /// tick has come.
    pub fn try_scroll(&mut self, keystate: &KeyState) -> (r: Option<i16>)
        ensures
            r is Some <==> old(self)@.can_scroll(keystate@),
            r matches Some(walking_speed) ==> {
                &&& final(self)@ == old(self)@.scrolled(keystate@)
                &&& walking_speed == old(self)@.walking_speed(keystate@)
            },
    {
        if keystate.is_pressed("Space") {
            self.boy.jump();
        }
        if keystate.is_pressed("ArrowDown") {
            self.boy.slide();
        }
        if !self.boy.accepts(Event::Update) {
            return None;
        }
        self.boy.update();
        if self.boy.walking_speed() == i16::MIN {
            return None;
        }
        let walking_speed: i16 = self.velocity();
        let mut first_background = self.backgrounds[0];
        let mut second_background = self.backgrounds[1];
        if !can_shift(first_background.bounding_box(), walking_speed) || !can_shift(
            second_background.bounding_box(),
            walking_speed,
        ) {
            return None;
        }
        first_background.move_horizontally(walking_speed);
        second_background.move_horizontally(walking_speed);
        if !has_right_edge(first_background.bounding_box()) || !has_right_edge(
            second_background.bounding_box(),
        ) {
            return None;
        }
        if first_background.right() < 0 {
            first_background.set_x(second_background.right());
        }
        if second_background.right() < 0 {
            if !has_right_edge(first_background.bounding_box()) {
                return None;
            }
            second_background.set_x(first_background.right());
        }
        self.backgrounds = [first_background, second_background];
        assert(self.backgrounds@ =~= scrolled_backgrounds(
            old(self)@.backgrounds,
            walking_speed as int,
        ));
        let ghost moved_boy = self.boy@;
        let ghost scrolled = old(self)@.scrolled_obstacles(keystate@);
        let count: usize = self.obstacles.len();
        let mut i: usize = 0;
        while i < count
            invariant
                i <= count,
                count == self.obstacles@.len(),
                count == old(self).obstacles@.len(),
                moved_boy == old(self)@.moved_boy(keystate@),
                scrolled == old(self)@.scrolled_obstacles(keystate@),
                walking_speed == old(self)@.walking_speed(keystate@),
                old(self)@.steered_boy(keystate@).state.accepts(Event::Update),
                moved_boy.state.context.velocity.x > i16::MIN,
                backgrounds_can_scroll(old(self)@.backgrounds, walking_speed as int),
                forall|j: int|
                    0 <= j < i ==> (#[trigger] old(self)@.obstacles[j]).can_move(
                        walking_speed as int,
                    ),
                can_collide(moved_boy, scrolled.take(i as int)),
                self.boy@ == collide(moved_boy, scrolled.take(i as int)),
                forall|j: int| 0 <= j < i ==> (#[trigger] self.obstacles@[j])@ == scrolled[j],
                forall|j: int|
                    i <= j < count ==> (#[trigger] self.obstacles@[j])@ == old(self)@.obstacles[j],
                self.backgrounds@ == scrolled_backgrounds(
                    old(self)@.backgrounds,
                    walking_speed as int,
                ),
                self.obstacle_sheet == old(self).obstacle_sheet,
                self.stone == old(self).stone,
                self.timeline == old(self).timeline,
            decreases count - i,
        {
            proof {
                assert(scrolled.take(i + 1).drop_last() =~= scrolled.take(i as int));
                assert(scrolled.take(i + 1).last() == scrolled[i as int]);
            }
            if !self.obstacles[i].is_movable_by(walking_speed) {
                assert(!old(self)@.obstacles[i as int].can_move(walking_speed as int));
                return None;
            }
            self.obstacles[i].move_horizontally(walking_speed);
            if self.boy.current_sprite().is_none() {
                proof {
                    if can_collide(moved_boy, scrolled) {
                        lemma_can_collide_with_first(moved_boy, scrolled, i + 1);
                    }
                }
                return None;
            }
            let contact = self.obstacles[i].contact_with(&self.boy);
            if let Some(event) = contact {
                if !self.boy.accepts(event) {
                    proof {
                        if can_collide(moved_boy, scrolled) {
                            lemma_can_collide_with_first(moved_boy, scrolled, i + 1);
                        }
                    }
                    return None;
                }
            }
            self.boy.meet(contact);
            i += 1;
        }
        proof {
            assert(scrolled.take(i as int) =~= scrolled);
            assert(views(self.obstacles@) =~= scrolled);
        }
        Some(walking_speed)
    }

    /// Whether the segment for `next_segment` lies inside the coordinate
    /// space, right edges included.
    pub fn can_generate(&self, next_segment: i32) -> (r: bool)
        ensures
            r == self@.can_generate(next_segment),
    {
        if 0 <= next_segment && next_segment < 2 {
            has_right_edges(self.stone, self.timeline as i32 + OBSTACLE_BUFFER as i32)
        } else {
            true
        }
    }

    /// Whether the first segment lies inside the coordinate space, right
    /// edges included.
    pub fn can_start(&self) -> (r: bool)
        ensures
            r == self@.can_start(),
    {
        has_right_edges(self.stone, 0)
    }

    /// Whether the walk can be drawn: every sprite is found, and its place
    /// can be held by a `Rect`.
    pub fn can_draw(&self) -> (r: bool)
        ensures
            r == self@.can_draw(),
    {
        if !self.boy.can_draw() {
            return false;
        }
        let mut i: usize = 0;
        while i < self.obstacles.len()
            invariant
                i <= self.obstacles@.len(),
                forall|j: int| 0 <= j < i ==> (#[trigger] self@.obstacles[j]).can_draw(),
            decreases self.obstacles@.len() - i,
        {
            if !self.obstacles[i].is_drawable() {
                assert(!self@.obstacles[i as int].can_draw());
                return false;
            }
            i += 1;
        }
        true
    }

    /// Lets the walk grow by a segment, drawn at random from the two shapes.
    ///
    /// Whichever shape is drawn, two obstacles go behind those that are
    /// there, and the timeline is at the right edge of the new segment, which
    /// lies ahead of the old timeline and the buffer. The draw unwinds where
    /// the system gives the thread's generator no entropy.
    pub fn generate_next_segment(&mut self)
        requires
            old(self)@.can_generate(0),
            old(self)@.can_generate(1),
        ensures
            final(self)@ == old(self)@.with_next_segment(0) || final(self)@ == old(
                self,
            )@.with_next_segment(1),
            final(self)@.boy == old(self)@.boy,
            final(self)@.backgrounds == old(self)@.backgrounds,
            final(self)@.obstacles.len() == old(self)@.obstacles.len() + 2,
            forall|i: int|
                0 <= i < old(self)@.obstacles.len() ==> #[trigger] final(self)@.obstacles[i] == old(
                    self,
                )@.obstacles[i],
            final(self)@.obstacles[old(self)@.obstacles.len() as int] is Barrier,
            final(self)@.obstacles[old(self)@.obstacles.len() as int + 1] is Platform,
            final(self).timeline == segment_right_edge(
                old(self).stone,
                old(self).timeline + OBSTACLE_BUFFER,
            ),
            final(self).timeline >= old(self).timeline + OBSTACLE_BUFFER,
    {
        let mut rng = rand::thread_rng();
        let next_segment: i32 = gen_range(&mut rng, 0, 2);
        self.append_segment(next_segment);
    }

    /// Lets the walk grow by the segment for `next_segment`.
    ///
    /// For 0 and for 1 two obstacles go behind those that are there, a stone
    /// and then a platform, and the timeline is at the right edge of the new
    /// segment, which lies ahead of the old timeline and the buffer. What
    /// was there stays as it is.
    pub fn append_segment(&mut self, next_segment: i32)
        requires
            old(self)@.can_generate(next_segment),
        ensures
            final(self)@ == old(self)@.with_next_segment(next_segment),
            final(self)@.boy == old(self)@.boy,
            final(self)@.backgrounds == old(self)@.backgrounds,
            forall|i: int|
                0 <= i < old(self)@.obstacles.len() ==> #[trigger] final(self)@.obstacles[i] == old(
                    self,
                )@.obstacles[i],
            0 <= next_segment < 2 ==> {
                &&& final(self)@.obstacles.len() == old(self)@.obstacles.len() + 2
                &&& final(self)@.obstacles[old(self)@.obstacles.len() as int] is Barrier
                &&& final(self)@.obstacles[old(self)@.obstacles.len() as int + 1] is Platform
                &&& final(self).timeline == segment_right_edge(
                    old(self).stone,
                    old(self).timeline + OBSTACLE_BUFFER,
                )
                &&& final(self).timeline >= old(self).timeline + OBSTACLE_BUFFER
            },
    {
        let mut next_obstacles = match next_segment {
            0 => stone_and_platform(
                self.stone,
                self.obstacle_sheet.clone(),
                self.timeline + OBSTACLE_BUFFER,
            ),
            1 => platform_and_stone(
                self.stone,
                self.obstacle_sheet.clone(),
                self.timeline + OBSTACLE_BUFFER,
            ),
            _ => vec![],
        };
        proof {
            assert(views(next_obstacles@) =~= self@.next_obstacles(next_segment));
            lemma_right_edges_of_views(next_obstacles@);
        }
        self.timeline = rightmost(next_obstacles.as_slice());
        let ghost appended = next_obstacles@;
        self.obstacles.append(&mut next_obstacles);
        proof {
            assert(views(self.obstacles@) =~= views(old(self).obstacles@) + views(appended));
        }
    }

    /// The instructions that draw the walk.
    pub fn draw(&self) -> (r: Vec<DrawCommand>)
        requires
            self@.can_draw(),
        ensures
            r@ == self@.draw_commands(),
    {
        let mut commands: Vec<DrawCommand> = Vec::new();
        commands.push(self.backgrounds[0].draw());
        commands.push(self.backgrounds[1].draw());
        commands.push(self.boy.draw());
        let ghost head = commands@;
        let mut i: usize = 0;
        while i < self.obstacles.len()
            invariant
                i <= self.obstacles@.len(),
                self@.can_draw(),
                commands@ == head + obstacle_commands(views(self.obstacles@).take(i as int)),
            decreases self.obstacles@.len() - i,
        {
            proof {
                let all = views(self.obstacles@);
                assert(all.take(i + 1).drop_last() =~= all.take(i as int));
                assert(all.take(i + 1).last() == self.obstacles@[i as int]@);
                assert(self@.obstacles[i as int].can_draw());
            }
            let mut more = self.obstacles[i].draw();
            commands.append(&mut more);
            i += 1;
        }
        proof {
            assert(views(self.obstacles@).take(i as int) =~= views(self.obstacles@));
            assert(head =~= self@.backgrounds.map_values(
                |background: Image|
                    DrawCommand::EntireImage {
                        element: background.element,
                        position: background.bounding_box.position,
                    },
            ) + seq![self@.boy.draw_command()]);
        }
        commands
    }

    pub fn is_dead(&self) -> (r: bool)
        ensures
            r == (self@.boy.state.tag is Dead),
    {
        self.boy.knocked_out()
    }

    /// The walk as it begins, with the pictures and the sprites of `walk`.
    /// The obstacles of `walk` are dropped, however many there were: the new
    /// walk holds the first segment and nothing else.
    pub fn reset(walk: Self) -> (r: Self)
        requires
            walk@.can_start(),
        ensures
            r@ == walk@.fresh(),
            r@.boy.state == crate::game::red_hat_boy::CharacterState::spawn(),
            r@.obstacles == segment(walk.stone, walk@.obstacle_sheet, 0, LOW_PLATFORM),
            r@.obstacles.len() == 2,
            r.timeline == segment_right_edge(walk.stone, 0),
            r.timeline >= FIRST_PLATFORM + PLATFORM_WIDTH,
            r@.backgrounds == walk@.backgrounds,
            r@.obstacle_sheet == walk@.obstacle_sheet,
            r.stone == walk.stone,
    {
        let starting_obstacles = stone_and_platform(walk.stone, walk.obstacle_sheet.clone(), 0);
        proof {
            lemma_right_edges_of_views(starting_obstacles@);
        }
        let timeline: i16 = rightmost(starting_obstacles.as_slice());
        Walk {
            boy: RedHatBoy::reset(walk.boy),
            backgrounds: walk.backgrounds,
            obstacles: starting_obstacles,
            obstacle_sheet: walk.obstacle_sheet,
            stone: walk.stone,
            timeline,
        }
    }
}

} // verus!
