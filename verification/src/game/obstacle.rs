//! What the character can run into: barriers, which knock it out, and
//! platforms, on which it can land.

use vstd::prelude::*;
use std::rc::Rc;
use crate::engine::{Bounds, DrawCommand, Image, Point, Rect, SpriteSheet};
use crate::game::red_hat_boy::{Event, RedHatBoy, RedHatBoyView};
use crate::game::Cell;

verus! {

/// What the walk asks of an obstacle.
pub trait Obstacle {
    /// The event that meeting the character gives rise to, if any.
    spec fn contact(&self, boy: RedHatBoyView) -> Option<Event>;

    /// Whether the obstacle has a right edge inside the coordinate space.
    spec fn has_right_edge(&self) -> bool;

    /// The `x` of the obstacle's right edge.
    spec fn right_edge(&self) -> int;

    /// Whether the obstacle can be moved by `x` without leaving the
    /// coordinate space.
    spec fn can_move(&self, x: int) -> bool;

    /// Whether `self` is `before`, moved by `x` along the x axis.
    spec fn is_moved(&self, before: &Self, x: int) -> bool;

    /// Whether the places of the obstacle's pictures can be held by `Rect`s.
    spec fn can_draw(&self) -> bool;

    /// The instructions that put the obstacle on the canvas.
    spec fn draw_commands(&self) -> Seq<DrawCommand>;

    /// The event that meeting the character gives rise to, if any.
    fn contact_with(&self, boy: &RedHatBoy) -> (r: Option<Event>)
        requires
            boy@.current_sprite() is Some,
        ensures
            r == self.contact(boy@),
    ;

    /// Whether the obstacle can be moved by `x` without leaving the
    /// coordinate space.
    fn is_movable_by(&self, x: i16) -> (r: bool)
        ensures
            r == self.can_move(x as int),
    ;

    /// Whether the places of the obstacle's pictures can be held by `Rect`s.
    fn is_drawable(&self) -> (r: bool)
        ensures
            r == self.can_draw(),
    ;

    /// Lets the character feel the obstacle: where they touch, the character
    /// is moved on by the event that the touch gives rise to.
    fn check_intersection(&self, boy: &mut RedHatBoy)
        requires
            old(boy)@.can_meet(self.contact(old(boy)@)),
        ensures
            final(boy)@ == old(boy)@.after_contact(self.contact(old(boy)@)),
    ;

    /// The instructions that put the obstacle on the canvas.
    fn draw(&self) -> (r: Vec<DrawCommand>)
        requires
            self.can_draw(),
        ensures
            r@ == self.draw_commands(),
    ;

    /// Moves the obstacle by `x` along the x axis. Its right edge moves
    /// with it.
    fn move_horizontally(&mut self, x: i16)
        requires
            old(self).can_move(x as int),
        ensures
            final(self).is_moved(old(self), x as int),
            old(self).has_right_edge() ==> final(self).right_edge() == old(self).right_edge() + x,
    ;

    fn right(&self) -> (r: i16)
        requires
            self.has_right_edge(),
        ensures
            r == self.right_edge(),
    ;
}

/// The first of `boxes`, from index `from` on, that `bounds` overlaps.
pub open spec fn first_touched(bounds: Bounds, boxes: Seq<Rect>, from: int) -> Option<Rect>
    decreases boxes.len() - from,
{
    if from < 0 || from >= boxes.len() {
        None
    } else if bounds.overlaps(boxes[from].bounds()) {
        Some(boxes[from])
    } else {
        first_touched(bounds, boxes, from + 1)
    }
}

/// The cells that `frames` holds under `names`, in the order of the names.
/// A name that the catalog lacks is passed over.
pub open spec fn found_cells(frames: Map<Seq<char>, Cell>, names: Seq<Seq<char>>) -> Seq<Cell>
    decreases names.len(),
{
    if names.len() == 0 {
        Seq::empty()
    } else {
        let found = found_cells(frames, names.drop_last());
        if frames.contains_key(names.last()) {
            found.push(frames[names.last()])
        } else {
            found
        }
    }
}

/// The right edges of `boxes`, in their order.
pub open spec fn box_right_edges(boxes: Seq<Rect>) -> Seq<int> {
    boxes.map_values(|b: Rect| b.right_edge())
}

/// The names as sequences of characters.
pub open spec fn names_of(names: Seq<&str>) -> Seq<Seq<char>> {
    names.map_values(|name: &str| name@)
}

/// The summed widths of the first `count` of `sprites`.
pub open spec fn widths_before(sprites: Seq<Cell>, count: int) -> int
    decreases count,
{
    if count <= 0 {
        0
    } else {
        widths_before(sprites, count - 1) + sprites[count - 1].frame.w
    }
}

/// A platform as a plain value.
pub struct PlatformView {
    pub sheet: SpriteSheet,
    pub bounding_boxes: Seq<Rect>,
    pub sprites: Seq<Cell>,
    pub position: Point,
}

impl PlatformView {
    /// The cell that the platform's size is read from.
    pub open spec fn current_sprite(self) -> Option<Cell> {
        self.sheet.spec_cell("13.png"@)
    }

    /// A platform that touches the character lets it land if the character
    /// is coming down and is above the platform, and knocks it out if not.
    /// The character lands on the first box that it touches.
    pub open spec fn contact(self, boy: RedHatBoyView) -> Option<Event> {
        match first_touched(boy.bounding_bounds(), self.bounding_boxes, 0) {
            Some(box_to_land_on) => {
                let is_falling = boy.state.context.velocity.y > 0;
                let is_above_platform = boy.state.context.position.y < self.position.y;
                if is_falling && is_above_platform {
                    Some(Event::Land(box_to_land_on.position.y))
                } else {
                    Some(Event::KnockOut)
                }
            },
            None => None,
        }
    }

    /// A platform has a right edge when it has a box, and the right edge of
    /// every box lies inside the coordinate space.
    pub open spec fn has_right_edge(self) -> bool {
        &&& self.bounding_boxes.len() > 0
        &&& forall|i: int|
            0 <= i < self.bounding_boxes.len() ==> i16::MIN <= (
            #[trigger] self.bounding_boxes[i]).right_edge() <= i16::MAX
    }

    /// How far right the platform reaches: the greatest right edge of its
    /// boxes, in whichever order the boxes stand.
    pub open spec fn right_edge(self) -> int {
        rightmost_edge(box_right_edges(self.bounding_boxes))
    }

    pub open spec fn can_move(self, x: int) -> bool {
        &&& i16::MIN <= self.position.x + x <= i16::MAX
        &&& forall|i: int|
            0 <= i < self.bounding_boxes.len() ==> (#[trigger] self.bounding_boxes[i]).can_shift(x)
    }

    /// The platform moved by `x` along the x axis, its boxes with it.
    pub open spec fn shifted(self, x: int) -> PlatformView {
        PlatformView {
            sheet: self.sheet,
            bounding_boxes: self.bounding_boxes.map_values(|b: Rect| b.shifted(x)),
            sprites: self.sprites,
            position: Point { x: (self.position.x + x) as i16, y: self.position.y },
        }
    }

    /// The instruction that draws the sprite at `index`: the sprites stand
    /// side by side from the platform's position on.
    pub open spec fn draw_command(self, index: int) -> DrawCommand {
        let sprite = self.sprites[index];
        DrawCommand::Image {
            element: self.sheet.image,
            frame: Rect {
                position: Point { x: sprite.frame.x as i16, y: sprite.frame.y as i16 },
                width: sprite.frame.w as i16,
                height: sprite.frame.h as i16,
            },
            destination: Rect {
                position: Point {
                    x: (self.position.x + widths_before(self.sprites, index)) as i16,
                    y: self.position.y,
                },
                width: sprite.frame.w as i16,
                height: sprite.frame.h as i16,
            },
        }
    }

    pub open spec fn can_draw(self) -> bool {
        forall|i: int|
            0 <= i < self.sprites.len() ==> {
                &&& (#[trigger] self.sprites[i]).frame.x <= i16::MAX
                &&& self.sprites[i].frame.y <= i16::MAX
                &&& self.sprites[i].frame.w <= i16::MAX
                &&& self.sprites[i].frame.h <= i16::MAX
                &&& widths_before(self.sprites, i + 1) <= i16::MAX
                &&& self.position.x + widths_before(self.sprites, i) <= i16::MAX
            }
    }
}

/// An obstacle as a plain value.
pub enum ObstacleView {
    Barrier(Image),
    Platform(PlatformView),
}

impl ObstacleView {
    /// The event that meeting the character gives rise to, if any. A
    /// barrier that touches the character knocks it out, whichever way the
    /// character moves.
    pub open spec fn contact(self, boy: RedHatBoyView) -> Option<Event> {
        match self {
            ObstacleView::Barrier(image) => {
                if boy.bounding_bounds().overlaps(image.bounding_box.bounds()) {
                    Some(Event::KnockOut)
                } else {
                    None
                }
            },
            ObstacleView::Platform(platform) => platform.contact(boy),
        }
    }

    pub open spec fn has_right_edge(self) -> bool {
        match self {
            ObstacleView::Barrier(image) => i16::MIN <= image.bounding_box.right_edge()
                <= i16::MAX,
            ObstacleView::Platform(platform) => platform.has_right_edge(),
        }
    }

    pub open spec fn right_edge(self) -> int {
        match self {
            ObstacleView::Barrier(image) => image.bounding_box.right_edge(),
            ObstacleView::Platform(platform) => platform.right_edge(),
        }
    }

    pub open spec fn can_move(self, x: int) -> bool {
        match self {
            ObstacleView::Barrier(image) => image.bounding_box.can_shift(x),
            ObstacleView::Platform(platform) => platform.can_move(x),
        }
    }

    pub open spec fn shifted(self, x: int) -> ObstacleView {
        match self {
            ObstacleView::Barrier(image) => ObstacleView::Barrier(image.shifted(x)),
            ObstacleView::Platform(platform) => ObstacleView::Platform(platform.shifted(x)),
        }
    }

    pub open spec fn can_draw(self) -> bool {
        match self {
            ObstacleView::Barrier(image) => true,
            ObstacleView::Platform(platform) => platform.can_draw(),
        }
    }

    /// The instructions that put the obstacle on the canvas.
    pub open spec fn draw_commands(self) -> Seq<DrawCommand> {
        match self {
            ObstacleView::Barrier(image) => seq![
                DrawCommand::EntireImage {
                    element: image.element,
                    position: image.bounding_box.position,
                },
            ],
            ObstacleView::Platform(platform) => Seq::new(
                platform.sprites.len(),
                |i: int| platform.draw_command(i),
            ),
        }
    }
}

/// A barrier that touches the character knocks it out, whether the
/// character is rising, falling or neither.
pub proof fn lemma_barrier_always_knocks_out(barrier: Image, boy: RedHatBoyView)
    requires
        boy.bounding_bounds().overlaps(barrier.bounding_box.bounds()),
    ensures
        ObstacleView::Barrier(barrier).contact(boy) == Some(Event::KnockOut),
{
}

/// A platform that touches the character lets it land on the box that it
/// touches first, if the character is falling and above the platform, and
/// knocks it out if it is not.
pub proof fn lemma_platform_lands_or_knocks_out(platform: PlatformView, boy: RedHatBoyView)
    ensures
        match first_touched(boy.bounding_bounds(), platform.bounding_boxes, 0) {
            Some(touched) => platform.contact(boy) == Some(
                if boy.state.context.velocity.y > 0 && boy.state.context.position.y
                    < platform.position.y {
                    Event::Land(touched.position.y)
                } else {
                    Event::KnockOut
                },
            ),
            None => platform.contact(boy) is None,
        },
{
}

/// A solid hazard: one picture, and no way past it but over it.
pub struct Barrier {
    image: Image,
}

impl View for Barrier {
    type V = Image;

    closed spec fn view(&self) -> Image {
        self.image
    }
}

impl Barrier {
    pub fn new(image: Image) -> (r: Self)
        ensures
            r@ == image,
    {
        Barrier { image }
    }
}

impl Obstacle for Barrier {
    open spec fn contact(&self, boy: RedHatBoyView) -> Option<Event> {
        ObstacleView::Barrier(self@).contact(boy)
    }

    open spec fn has_right_edge(&self) -> bool {
        ObstacleView::Barrier(self@).has_right_edge()
    }

    open spec fn right_edge(&self) -> int {
        ObstacleView::Barrier(self@).right_edge()
    }

    open spec fn can_move(&self, x: int) -> bool {
        ObstacleView::Barrier(self@).can_move(x)
    }

    open spec fn is_moved(&self, before: &Self, x: int) -> bool {
        self@ == before@.shifted(x)
    }

    open spec fn can_draw(&self) -> bool {
        true
    }

    open spec fn draw_commands(&self) -> Seq<DrawCommand> {
        ObstacleView::Barrier(self@).draw_commands()
    }

    fn contact_with(&self, boy: &RedHatBoy) -> (r: Option<Event>) {
        if boy.touches(self.image.bounding_box()) {
            Some(Event::KnockOut)
        } else {
            None
        }
    }

    fn is_movable_by(&self, x: i16) -> (r: bool) {
        let moved: i32 = self.image.bounding_box().x() as i32 + x as i32;
        -32768 <= moved && moved <= 32767
    }

    fn is_drawable(&self) -> (r: bool) {
        true
    }

    /// Knocks the character out if it touches the barrier.
    fn check_intersection(&self, boy: &mut RedHatBoy)
        ensures
            old(boy)@.bounding_bounds().overlaps(self@.bounding_box.bounds()) ==> final(boy)@
                == old(boy)@.after(Event::KnockOut),
            !old(boy)@.bounding_bounds().overlaps(self@.bounding_box.bounds()) ==> final(boy)@
                == old(boy)@,
    {
        if boy.touches(self.image.bounding_box()) {
            boy.knock_out();
        }
    }

    fn draw(&self) -> (r: Vec<DrawCommand>) {
        let mut commands: Vec<DrawCommand> = Vec::new();
        commands.push(self.image.draw());
        commands
    }

    fn move_horizontally(&mut self, x: i16) {
        self.image.move_horizontally(x);
    }

    fn right(&self) -> (r: i16) {
        self.image.bounding_box().right()
    }
}

/// A surface of several tiles that the character can land on.
pub struct Platform {
    sheet: Rc<SpriteSheet>,
    bounding_boxes: Vec<Rect>,
    sprites: Vec<Cell>,
    position: Point,
}

impl View for Platform {
    type V = PlatformView;

    closed spec fn view(&self) -> PlatformView {
        PlatformView {
            sheet: *self.sheet,
            bounding_boxes: self.bounding_boxes@,
            sprites: self.sprites@,
            position: self.position,
        }
    }
}

impl Platform {
    /// A platform at `position`. Its tiles are the cells that `sheet` holds
    /// under `sprite_names`; its boxes are `bounding_boxes`, which are given
    /// relative to the platform, moved to where the platform is.
    pub fn new(
        sheet: Rc<SpriteSheet>,
        position: Point,
        sprite_names: &[&str],
        bounding_boxes: &[Rect],
    ) -> (r: Self)
        requires
            forall|i: int|
                0 <= i < bounding_boxes@.len() ==> (#[trigger] bounding_boxes@[i]).can_move_by(
                    position,
                ),
        ensures
            r@ == (PlatformView {
                sheet: *sheet,
                bounding_boxes: bounding_boxes@.map_values(|b: Rect| b.moved_by(position)),
                sprites: found_cells(sheet.sheet.frames@, names_of(sprite_names@)),
                position,
            }),
    {
        let ghost names = names_of(sprite_names@);
        let mut sprites: Vec<Cell> = Vec::new();
        let mut i: usize = 0;
        while i < sprite_names.len()
            invariant
                i <= sprite_names@.len(),
                names == names_of(sprite_names@),
                sprites@ == found_cells(sheet.sheet.frames@, names.take(i as int)),
            decreases sprite_names@.len() - i,
        {
            proof {
                assert(names.take(i + 1).drop_last() =~= names.take(i as int));
                assert(names.take(i + 1).last() == sprite_names@[i as int]@);
            }
            match sheet.cell(sprite_names[i]) {
                Some(cell) => {
                    sprites.push(*cell);
                },
                None => {},
            }
            i += 1;
        }
        proof {
            assert(names.take(i as int) =~= names);
        }
        let mut boxes: Vec<Rect> = Vec::new();
        let mut k: usize = 0;
        while k < bounding_boxes.len()
            invariant
                k <= bounding_boxes@.len(),
                forall|j: int|
                    0 <= j < bounding_boxes@.len() ==> (#[trigger] bounding_boxes@[j]).can_move_by(
                        position,
                    ),
                boxes@ == bounding_boxes@.take(k as int).map_values(
                    |b: Rect| b.moved_by(position),
                ),
            decreases bounding_boxes@.len() - k,
        {
            let bounding_box = &bounding_boxes[k];
            let x: i16 = bounding_box.x() + position.x;
            let y: i16 = bounding_box.y() + position.y;
            boxes.push(Rect::new_from_x_y(x, y, bounding_box.width, bounding_box.height));
            k += 1;
            proof {
                assert(boxes@ =~= bounding_boxes@.take(k as int).map_values(
                    |b: Rect| b.moved_by(position),
                ));
            }
        }
        proof {
            assert(bounding_boxes@.take(k as int) =~= bounding_boxes@);
        }
        Platform { sheet, bounding_boxes: boxes, sprites, position }
    }

    pub fn bounding_boxes(&self) -> (r: &Vec<Rect>)
        ensures
            r@ == self@.bounding_boxes,
    {
        &self.bounding_boxes
    }

    /// The place of the platform: three tiles wide, one tile high.
    pub fn destination_box(&self) -> (r: Rect)
        requires
            self@.current_sprite() is Some,
            self@.current_sprite().unwrap().frame.w * 3 <= i16::MAX,
            self@.current_sprite().unwrap().frame.h <= i16::MAX,
        ensures
            r.position == self@.position,
            r.width == self@.current_sprite().unwrap().frame.w * 3,
            r.height == self@.current_sprite().unwrap().frame.h,
    {
        let platform = match self.current_sprite() {
            Some(cell) => *cell,
            None => vstd::pervasive::unreached(),
        };
        let position = Point { x: self.position.x, y: self.position.y };
        let width: i16 = (platform.frame.w * 3) as i16;
        let height: i16 = platform.frame.h as i16;
        Rect::new(position, width, height)
    }

    pub fn current_sprite(&self) -> (r: Option<&Cell>)
        ensures
            match r {
                Some(cell) => self@.current_sprite() == Some(*cell),
                None => self@.current_sprite() is None,
            },
    {
        self.sheet.cell("13.png")
    }
}

impl Obstacle for Platform {
    open spec fn contact(&self, boy: RedHatBoyView) -> Option<Event> {
        self@.contact(boy)
    }

    open spec fn has_right_edge(&self) -> bool {
        self@.has_right_edge()
    }

    open spec fn right_edge(&self) -> int {
        self@.right_edge()
    }

    open spec fn can_move(&self, x: int) -> bool {
        self@.can_move(x)
    }

    open spec fn is_moved(&self, before: &Self, x: int) -> bool {
        self@ == before@.shifted(x)
    }

    open spec fn can_draw(&self) -> bool {
        self@.can_draw()
    }

    open spec fn draw_commands(&self) -> Seq<DrawCommand> {
        ObstacleView::Platform(self@).draw_commands()
    }

    /// Finds the first box that the character touches, and says whether the
    /// character lands on it or is knocked out.
    fn contact_with(&self, boy: &RedHatBoy) -> (r: Option<Event>) {
        let mut found: Option<Rect> = None;
        let mut i: usize = 0;
        while i < self.bounding_boxes.len() && found.is_none()
            invariant
                i <= self.bounding_boxes@.len(),
                boy@.current_sprite() is Some,
                found is None ==> first_touched(boy@.bounding_bounds(), self.bounding_boxes@, 0)
                    == first_touched(boy@.bounding_bounds(), self.bounding_boxes@, i as int),
                found is Some ==> first_touched(boy@.bounding_bounds(), self.bounding_boxes@, 0)
                    == found,
            decreases self.bounding_boxes@.len() - i + (if found is None { 1int } else { 0int }),
        {
            if boy.touches(&self.bounding_boxes[i]) {
                found = Some(self.bounding_boxes[i]);
            } else {
                i += 1;
            }
        }
        match found {
            Some(box_to_land_on) => {
                let is_falling = boy.velocity_y() > 0;
                let is_above_platform = boy.pos_y() < self.position.y;
                if is_falling && is_above_platform {
                    Some(Event::Land(box_to_land_on.y()))
                } else {
                    Some(Event::KnockOut)
                }
            },
            None => None,
        }
    }

    fn is_movable_by(&self, x: i16) -> (r: bool) {
        let moved: i32 = self.position.x as i32 + x as i32;
        if moved < -32768 || moved > 32767 {
            return false;
        }
        let mut i: usize = 0;
        while i < self.bounding_boxes.len()
            invariant
                i <= self.bounding_boxes@.len(),
                forall|j: int| 0 <= j < i ==> (#[trigger] self.bounding_boxes@[j]).can_shift(x as int),
            decreases self.bounding_boxes@.len() - i,
        {
            let moved: i32 = self.bounding_boxes[i].x() as i32 + x as i32;
            if moved < -32768 || moved > 32767 {
                assert(!self@.bounding_boxes[i as int].can_shift(x as int));
                return false;
            }
            i += 1;
        }
        true
    }

    fn is_drawable(&self) -> (r: bool) {
        let mut x: i32 = 0;
        let mut i: usize = 0;
        while i < self.sprites.len()
            invariant
                i <= self.sprites@.len(),
                x == widths_before(self.sprites@, i as int),
                0 <= x <= i16::MAX,
                forall|j: int|
                    0 <= j < i ==> {
                        &&& (#[trigger] self.sprites@[j]).frame.x <= i16::MAX
                        &&& self.sprites@[j].frame.y <= i16::MAX
                        &&& self.sprites@[j].frame.w <= i16::MAX
                        &&& self.sprites@[j].frame.h <= i16::MAX
                        &&& widths_before(self.sprites@, j + 1) <= i16::MAX
                        &&& self.position.x + widths_before(self.sprites@, j) <= i16::MAX
                    },
            decreases self.sprites@.len() - i,
        {
            let sprite = &self.sprites[i];
            let fits = sprite.frame.x <= 32767 && sprite.frame.y <= 32767 && sprite.frame.w
                <= 32767 && sprite.frame.h <= 32767 && x + sprite.frame.w as i32 <= 32767
                && self.position.x as i32 + x <= 32767;
            if !fits {
                assert(self@.sprites[i as int] == *sprite);
                assert(widths_before(self.sprites@, i + 1) == x + sprite.frame.w);
                return false;
            }
            x = x + sprite.frame.w as i32;
            i += 1;
        }
        true
    }

    /// Lets the character land on the platform or knocks it out, where they
    /// touch.
    fn check_intersection(&self, boy: &mut RedHatBoy) {
        let contact = self.contact_with(boy);
        match contact {
            Some(Event::Land(position)) => boy.land_on(position),
            Some(_) => boy.knock_out(),
            None => {},
        }
    }

    fn draw(&self) -> (r: Vec<DrawCommand>) {
        let mut commands: Vec<DrawCommand> = Vec::new();
        let mut x: i16 = 0;
        let mut i: usize = 0;
        while i < self.sprites.len()
            invariant
                i <= self.sprites@.len(),
                self@.can_draw(),
                x == widths_before(self.sprites@, i as int),
                0 <= x,
                commands@.len() == i,
                forall|j: int| 0 <= j < i ==> commands@[j] == self@.draw_command(j),
            decreases self.sprites@.len() - i,
        {
            let sprite = &self.sprites[i];
            assert(self@.sprites[i as int] == *sprite);
            let rect_x: i16 = sprite.frame.x as i16;
            let rect_y: i16 = sprite.frame.y as i16;
            let width: i16 = sprite.frame.w as i16;
            let height: i16 = sprite.frame.h as i16;
            let source = Rect::new_from_x_y(rect_x, rect_y, width, height);
            let rect_x: i16 = self.position.x + x;
            let rect_y: i16 = self.position.y;
            let destination = Rect::new_from_x_y(rect_x, rect_y, width, height);
            commands.push(self.sheet.draw(&source, &destination));
            x += width;
            i += 1;
        }
        commands
    }

    fn move_horizontally(&mut self, x: i16) {
        self.position.x += x;
        let mut i: usize = 0;
        while i < self.bounding_boxes.len()
            invariant
                i <= self.bounding_boxes@.len(),
                self.bounding_boxes@.len() == old(self).bounding_boxes@.len(),
                old(self)@.can_move(x as int),
                self.sheet == old(self).sheet,
                self.sprites == old(self).sprites,
                self.position == (Point {
                    x: (old(self).position.x + x) as i16,
                    y: old(self).position.y,
                }),
                forall|j: int|
                    0 <= j < i ==> self.bounding_boxes@[j] == old(self).bounding_boxes@[j].shifted(
                        x as int,
                    ),
                forall|j: int|
                    i <= j < self.bounding_boxes@.len() ==> self.bounding_boxes@[j] == old(
                        self,
                    ).bounding_boxes@[j],
            decreases self.bounding_boxes@.len() - i,
        {
            assert(old(self)@.bounding_boxes[i as int].can_shift(x as int));
            let moved: i16 = self.bounding_boxes[i].position.x + x;
            self.bounding_boxes[i].set_x(moved);
            i += 1;
        }
        assert(self.bounding_boxes@ =~= old(self).bounding_boxes@.map_values(
            |b: Rect| b.shifted(x as int),
        ));
        proof {
            if old(self)@.has_right_edge() {
                lemma_right_edge_moves_with_platform(old(self)@, x as int);
            }
        }
    }

    /// How far right the platform reaches: the right edge of one of its
    /// boxes, and none of its boxes reaches further.
    fn right(&self) -> (r: i16)
        ensures
            exists|i: int|
                0 <= i < self@.bounding_boxes.len() && (
                #[trigger] self@.bounding_boxes[i]).right_edge() == r,
            forall|i: int|
                0 <= i < self@.bounding_boxes.len() ==> (
                #[trigger] self@.bounding_boxes[i]).right_edge() <= r,
    {
        proof {
            lemma_platform_reaches_its_right_edge(self@);
        }
        let ghost edges = box_right_edges(self.bounding_boxes@);
        let mut best: i16 = self.bounding_boxes[0].right();
        let mut i: usize = 1;
        assert(edges.take(1) =~= seq![edges[0]]);
        while i < self.bounding_boxes.len()
            invariant
                1 <= i <= self.bounding_boxes@.len(),
                self@.has_right_edge(),
                edges == box_right_edges(self.bounding_boxes@),
                best == rightmost_edge(edges.take(i as int)),
            decreases self.bounding_boxes@.len() - i,
        {
            assert(i16::MIN <= self@.bounding_boxes[i as int].right_edge() <= i16::MAX);
            let right: i16 = self.bounding_boxes[i].right();
            proof {
                assert(edges.take(i + 1).drop_last() =~= edges.take(i as int));
                assert(edges.take(i + 1).last() == right);
            }
            if right >= best {
                best = right;
            }
            i += 1;
        }
        proof {
            assert(edges.take(i as int) =~= edges);
        }
        best
    }
}

/// One of the obstacles that a walk is made of.
pub enum AnyObstacle {
    Barrier(Barrier),
    Platform(Platform),
}

impl View for AnyObstacle {
    type V = ObstacleView;

    open spec fn view(&self) -> ObstacleView {
        match self {
            AnyObstacle::Barrier(barrier) => ObstacleView::Barrier(barrier@),
            AnyObstacle::Platform(platform) => ObstacleView::Platform(platform@),
        }
    }
}

impl Obstacle for AnyObstacle {
    open spec fn contact(&self, boy: RedHatBoyView) -> Option<Event> {
        self@.contact(boy)
    }

    open spec fn has_right_edge(&self) -> bool {
        self@.has_right_edge()
    }

    open spec fn right_edge(&self) -> int {
        self@.right_edge()
    }

    open spec fn can_move(&self, x: int) -> bool {
        self@.can_move(x)
    }

    open spec fn is_moved(&self, before: &Self, x: int) -> bool {
        self@ == before@.shifted(x)
    }

    open spec fn can_draw(&self) -> bool {
        self@.can_draw()
    }

    open spec fn draw_commands(&self) -> Seq<DrawCommand> {
        self@.draw_commands()
    }

    fn contact_with(&self, boy: &RedHatBoy) -> (r: Option<Event>) {
        match self {
            AnyObstacle::Barrier(barrier) => barrier.contact_with(boy),
            AnyObstacle::Platform(platform) => platform.contact_with(boy),
        }
    }

    fn is_movable_by(&self, x: i16) -> (r: bool) {
        match self {
            AnyObstacle::Barrier(barrier) => barrier.is_movable_by(x),
            AnyObstacle::Platform(platform) => platform.is_movable_by(x),
        }
    }

    fn is_drawable(&self) -> (r: bool) {
        match self {
            AnyObstacle::Barrier(barrier) => barrier.is_drawable(),
            AnyObstacle::Platform(platform) => platform.is_drawable(),
        }
    }

    fn check_intersection(&self, boy: &mut RedHatBoy) {
        match self {
            AnyObstacle::Barrier(barrier) => barrier.check_intersection(boy),
            AnyObstacle::Platform(platform) => platform.check_intersection(boy),
        }
    }

    fn draw(&self) -> (r: Vec<DrawCommand>) {
        match self {
            AnyObstacle::Barrier(barrier) => barrier.draw(),
            AnyObstacle::Platform(platform) => platform.draw(),
        }
    }

    fn move_horizontally(&mut self, x: i16) {
        match self {
            AnyObstacle::Barrier(barrier) => barrier.move_horizontally(x),
            AnyObstacle::Platform(platform) => platform.move_horizontally(x),
        }
    }

    fn right(&self) -> (r: i16) {
        match self {
            AnyObstacle::Barrier(barrier) => barrier.right(),
            AnyObstacle::Platform(platform) => platform.right(),
        }
    }
}

/// The greatest of `edges`, and zero where there are none.
pub open spec fn rightmost_edge(edges: Seq<int>) -> int
    decreases edges.len(),
{
    if edges.len() == 0 {
        0
    } else if edges.len() == 1 {
        edges[0]
    } else {
        let rest = rightmost_edge(edges.drop_last());
        if edges.last() >= rest {
            edges.last()
        } else {
            rest
        }
    }
}

/// Where every edge moves by `x`, the rightmost of them moves by `x`.
pub proof fn lemma_rightmost_edge_moves(edges: Seq<int>, x: int)
    requires
        edges.len() > 0,
    ensures
        rightmost_edge(edges.map_values(|edge: int| edge + x)) == rightmost_edge(edges) + x,
    decreases edges.len(),
{
    let moved = edges.map_values(|edge: int| edge + x);
    if edges.len() > 1 {
        lemma_rightmost_edge_moves(edges.drop_last(), x);
        assert(moved.drop_last() =~= edges.drop_last().map_values(|edge: int| edge + x));
    }
}

/// The right edge of a platform is the right edge of one of its boxes, and
/// none of its boxes reaches further.
pub proof fn lemma_platform_reaches_its_right_edge(platform: PlatformView)
    requires
        platform.bounding_boxes.len() > 0,
    ensures
        exists|i: int|
            0 <= i < platform.bounding_boxes.len() && (
            #[trigger] platform.bounding_boxes[i]).right_edge() == platform.right_edge(),
        forall|i: int|
            0 <= i < platform.bounding_boxes.len() ==> (
            #[trigger] platform.bounding_boxes[i]).right_edge() <= platform.right_edge(),
{
    let edges = box_right_edges(platform.bounding_boxes);
    lemma_rightmost_edge_is_greatest(edges);
    let at = choose|i: int| 0 <= i < edges.len() && edges[i] == rightmost_edge(edges);
    assert(platform.bounding_boxes[at].right_edge() == platform.right_edge());
    assert forall|i: int| 0 <= i < platform.bounding_boxes.len() implies (
    #[trigger] platform.bounding_boxes[i]).right_edge() <= platform.right_edge() by {
        assert(edges[i] <= rightmost_edge(edges));
    }
}

/// A platform that moves takes its right edge with it.
pub proof fn lemma_right_edge_moves_with_platform(platform: PlatformView, x: int)
    requires
        platform.has_right_edge(),
        platform.can_move(x),
    ensures
        platform.shifted(x).right_edge() == platform.right_edge() + x,
{
    let edges = box_right_edges(platform.bounding_boxes);
    lemma_rightmost_edge_moves(edges, x);
    assert forall|i: int| 0 <= i < platform.bounding_boxes.len() implies box_right_edges(
        platform.shifted(x).bounding_boxes,
    )[i] == edges[i] + x by {
        assert(platform.bounding_boxes[i].can_shift(x));
    }
    assert(box_right_edges(platform.shifted(x).bounding_boxes) =~= edges.map_values(
        |edge: int| edge + x,
    ));
}

/// The right edges of `obstacles`, in their order.
pub open spec fn right_edges<O: Obstacle>(obstacles: Seq<O>) -> Seq<int> {
    obstacles.map_values(|obstacle: O| obstacle.right_edge())
}

/// The rightmost edge is one of the edges, and none lies right of it.
pub proof fn lemma_rightmost_edge_is_greatest(edges: Seq<int>)
    requires
        edges.len() > 0,
    ensures
        exists|i: int| 0 <= i < edges.len() && edges[i] == rightmost_edge(edges),
        forall|i: int| 0 <= i < edges.len() ==> edges[i] <= rightmost_edge(edges),
    decreases edges.len(),
{
    if edges.len() == 1 {
        assert(edges[0] == rightmost_edge(edges));
    } else {
        let front = edges.drop_last();
        lemma_rightmost_edge_is_greatest(front);
        let at = choose|i: int| 0 <= i < front.len() && front[i] == rightmost_edge(front);
        if edges.last() >= rightmost_edge(front) {
            assert(edges[edges.len() - 1] == rightmost_edge(edges));
        } else {
            assert(edges[at] == rightmost_edge(edges));
        }
        assert forall|i: int| 0 <= i < edges.len() implies edges[i] <= rightmost_edge(edges) by {
            if i < front.len() {
                assert(front[i] == edges[i]);
            }
        }
    }
}

/// How far right the obstacles reach: the greatest of their right edges,
/// and zero where there is no obstacle.
pub fn rightmost<O: Obstacle>(obstacle_list: &[O]) -> (r: i16)
    requires
        forall|i: int|
            0 <= i < obstacle_list@.len() ==> (#[trigger] obstacle_list@[i]).has_right_edge(),
    ensures
        r == rightmost_edge(right_edges(obstacle_list@)),
        obstacle_list@.len() == 0 ==> r == 0,
        obstacle_list@.len() > 0 ==> exists|i: int|
            0 <= i < obstacle_list@.len() && (#[trigger] obstacle_list@[i]).right_edge() == r,
        obstacle_list@.len() > 0 ==> forall|i: int|
            0 <= i < obstacle_list@.len() ==> (#[trigger] obstacle_list@[i]).right_edge() <= r,
{
    let ghost edges = right_edges(obstacle_list@);
    proof {
        if edges.len() > 0 {
            lemma_rightmost_edge_is_greatest(edges);
            let at = choose|i: int| 0 <= i < edges.len() && edges[i] == rightmost_edge(edges);
            assert(obstacle_list@[at].right_edge() == rightmost_edge(edges));
            assert forall|i: int| 0 <= i < obstacle_list@.len() implies (
            #[trigger] obstacle_list@[i]).right_edge() <= rightmost_edge(edges) by {
                assert(edges[i] <= rightmost_edge(edges));
            }
        }
    }
    let mut best: i16 = 0;
    let mut i: usize = 0;
    while i < obstacle_list.len()
        invariant
            i <= obstacle_list@.len(),
            edges == right_edges(obstacle_list@),
            forall|j: int|
                0 <= j < obstacle_list@.len() ==> (#[trigger] obstacle_list@[j]).has_right_edge(),
            best == rightmost_edge(edges.take(i as int)),
        decreases obstacle_list@.len() - i,
    {
        let right: i16 = obstacle_list[i].right();
        proof {
            assert(edges.take(i + 1).drop_last() =~= edges.take(i as int));
            assert(edges.take(i + 1).last() == right);
        }
        if i == 0 || right >= best {
            best = right;
        }
        i += 1;
    }
    proof {
        assert(edges.take(i as int) =~= edges);
    }
    best
}

} // verus!
