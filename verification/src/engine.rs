//! Geometry, images and input as plain values.

use vstd::prelude::*;
use vstd::hash_map::StringHashMap;
use vstd::string::StringExecFns;
use crate::game::{Cell, Sheet};

verus! {

/// A position or an offset on the playfield. The origin is the top-left
/// corner and `y` grows downwards.
#[derive(Clone, Copy, Debug, PartialEq, Eq, Structural)]
pub struct Point {
    pub x: i16,
    pub y: i16,
}

/// The four edges of an axis-aligned box, in unbounded coordinates.
pub struct Bounds {
    pub left: int,
    pub top: int,
    pub right: int,
    pub bottom: int,
}

impl Bounds {
    /// The rectangle with these edges.
    pub open spec fn rect(self) -> Rect {
        Rect {
            position: Point { x: self.left as i16, y: self.top as i16 },
            width: (self.right - self.left) as i16,
            height: (self.bottom - self.top) as i16,
        }
    }

    /// Two boxes overlap when their projections overlap on both axes. The
    /// intervals are half-open: boxes that only share an edge do not overlap.
    pub open spec fn overlaps(self, other: Bounds) -> bool {
        &&& self.left < other.right
        &&& self.right > other.left
        &&& self.top < other.bottom
        &&& self.bottom > other.top
    }

    /// Whether the point lies in the box. The left and the top edge belong
    /// to the box, the right and the bottom edge do not.
    pub open spec fn contains(self, x: int, y: int) -> bool {
        &&& self.left <= x < self.right
        &&& self.top <= y < self.bottom
    }

    /// Whether the box holds no point.
    pub open spec fn is_empty(self) -> bool {
        self.right <= self.left || self.bottom <= self.top
    }
}

/// Boxes that hold a point in common overlap, and boxes that overlap hold a
/// point in common unless one of them is empty. Whether two boxes overlap
/// does not depend on their order.
pub proof fn lemma_overlap_is_a_common_point(a: Bounds, b: Bounds)
    ensures
        (exists|x: int, y: int| a.contains(x, y) && b.contains(x, y)) ==> a.overlaps(b),
        a.overlaps(b) && !a.is_empty() && !b.is_empty() ==> exists|x: int, y: int|
            a.contains(x, y) && b.contains(x, y),
        a.overlaps(b) == b.overlaps(a),
{
    if a.overlaps(b) && !a.is_empty() && !b.is_empty() {
        let x = if a.left >= b.left {
            a.left
        } else {
            b.left
        };
        let y = if a.top >= b.top {
            a.top
        } else {
            b.top
        };
        assert(a.contains(x, y) && b.contains(x, y));
    }
}

/// An axis-aligned rectangle: the position of its top-left corner, a width
/// and a height.
#[derive(Clone, Copy, Debug, PartialEq, Eq, Structural)]
pub struct Rect {
    pub position: Point,
    pub width: i16,
    pub height: i16,
}

impl Rect {
    /// A rectangle is well formed when neither its width nor its height is
    /// negative.
    pub open spec fn wf(&self) -> bool {
        self.width >= 0 && self.height >= 0
    }

    pub open spec fn left_edge(&self) -> int {
        self.position.x as int
    }

    pub open spec fn right_edge(&self) -> int {
        self.position.x + self.width
    }

    pub open spec fn top_edge(&self) -> int {
        self.position.y as int
    }

    pub open spec fn bottom_edge(&self) -> int {
        self.position.y + self.height
    }

    pub open spec fn bounds(&self) -> Bounds {
        Bounds {
            left: self.left_edge(),
            top: self.top_edge(),
            right: self.right_edge(),
            bottom: self.bottom_edge(),
        }
    }

    /// The rectangle with its left edge at `x`, everything else kept.
    pub open spec fn at_x(&self, x: i16) -> Rect {
        Rect { position: Point { x, y: self.position.y }, width: self.width, height: self.height }
    }

    /// The rectangle moved by `dx` along the x axis.
    pub open spec fn shifted(&self, dx: int) -> Rect {
        self.at_x((self.position.x + dx) as i16)
    }

    /// The rectangle moved by `offset`, along both axes.
    pub open spec fn moved_by(&self, offset: Point) -> Rect {
        Rect {
            position: Point {
                x: (self.position.x + offset.x) as i16,
                y: (self.position.y + offset.y) as i16,
            },
            width: self.width,
            height: self.height,
        }
    }

    /// Whether the rectangle can be moved by `offset` without leaving the
    /// coordinate space.
    pub open spec fn can_move_by(&self, offset: Point) -> bool {
        &&& i16::MIN <= self.position.x + offset.x <= i16::MAX
        &&& i16::MIN <= self.position.y + offset.y <= i16::MAX
    }

    /// Whether the rectangle can be moved by `dx` without leaving the
    /// coordinate space.
    pub open spec fn can_shift(&self, dx: int) -> bool {
        i16::MIN <= self.position.x + dx <= i16::MAX
    }

    pub fn new(position: Point, width: i16, height: i16) -> (r: Self)
        ensures
            r == (Rect { position, width, height }),
            r.wf() <==> width >= 0 && height >= 0,
    {
        Rect { position, width, height }
    }

    pub fn new_from_x_y(x: i16, y: i16, width: i16, height: i16) -> (r: Self)
        ensures
            r == (Rect { position: Point { x, y }, width, height }),
    {
        let position = Point { x, y };
        Self::new(position, width, height)
    }

    /// Whether the two rectangles overlap. The edges are summed in a wider
    /// type, so the answer is exact for every pair of rectangles.
    pub fn intersects(&self, rect: &Rect) -> (r: bool)
        ensures
            r == self.bounds().overlaps(rect.bounds()),
    {
        let this_left: i32 = self.position.x as i32;
        let this_right: i32 = this_left + self.width as i32;
        let this_top: i32 = self.position.y as i32;
        let this_bottom: i32 = this_top + self.height as i32;
        let that_left: i32 = rect.position.x as i32;
        let that_right: i32 = that_left + rect.width as i32;
        let that_top: i32 = rect.position.y as i32;
        let that_bottom: i32 = that_top + rect.height as i32;
        let x_overlaps = this_left < that_right && this_right > that_left;
        let y_overlaps = this_top < that_bottom && this_bottom > that_top;
        x_overlaps && y_overlaps
    }

    pub fn left(&self) -> (r: i16)
        ensures
            r == self.left_edge(),
    {
        self.x()
    }

    pub fn right(&self) -> (r: i16)
        requires
            i16::MIN <= self.right_edge() <= i16::MAX,
        ensures
            r == self.right_edge(),
    {
        self.x() + self.width
    }

    pub fn bottom(&self) -> (r: i16)
        requires
            i16::MIN <= self.bottom_edge() <= i16::MAX,
        ensures
            r == self.bottom_edge(),
    {
        self.y() + self.height
    }

    pub fn top(&self) -> (r: i16)
        ensures
            r == self.top_edge(),
    {
        self.y()
    }

    pub fn x(&self) -> (r: i16)
        ensures
            r == self.position.x,
    {
        self.position.x
    }

    pub fn y(&self) -> (r: i16)
        ensures
            r == self.position.y,
    {
        self.position.y
    }

    pub fn width(&self) -> (r: i16)
        ensures
            r == self.width,
    {
        self.width
    }

    pub fn height(&self) -> (r: i16)
        ensures
            r == self.height,
    {
        self.height
    }

    pub fn set_x(&mut self, x: i16)
        ensures
            *final(self) == old(self).at_x(x),
            final(self).wf() == old(self).wf(),
    {
        self.position.x = x;
    }
}

/// The edges of a well-formed rectangle are in order, and stay so wherever
/// the rectangle is moved.
pub proof fn lemma_well_formed_rect(rect: Rect, offset: Point, x: i16)
    requires
        rect.wf(),
    ensures
        rect.left_edge() <= rect.right_edge(),
        rect.top_edge() <= rect.bottom_edge(),
        rect.at_x(x).wf(),
        rect.moved_by(offset).wf(),
{
}

/// A picture that has been loaded: the handle under which the canvas knows
/// it, and its size in pixels.
#[derive(Clone, Copy, Debug, PartialEq, Eq, Structural)]
pub struct ImageElement {
    pub id: u32,
    pub width: i16,
    pub height: i16,
}

/// One instruction to the canvas.
#[derive(Clone, Copy, Debug, PartialEq, Eq, Structural)]
pub enum DrawCommand {
    /// Wipe a region.
    Clear(Rect),
    /// Copy the region `frame` of a picture into the region `destination`.
    Image { element: ImageElement, frame: Rect, destination: Rect },
    /// Put a whole picture with its top-left corner at `position`.
    EntireImage { element: ImageElement, position: Point },
}

/// A picture placed on the playfield.
#[derive(Clone, Copy, Debug, PartialEq, Eq, Structural)]
pub struct Image {
    pub element: ImageElement,
    pub bounding_box: Rect,
}

impl Image {
    /// The image moved by `distance` along the x axis.
    pub open spec fn shifted(&self, distance: int) -> Image {
        Image { element: self.element, bounding_box: self.bounding_box.shifted(distance) }
    }

    /// The image with its left edge at `x`.
    pub open spec fn at_x(&self, x: i16) -> Image {
        Image { element: self.element, bounding_box: self.bounding_box.at_x(x) }
    }

    /// Places `element` with its top-left corner at `position`; the bounding
    /// box is as large as the picture.
    pub fn new(element: ImageElement, position: Point) -> (r: Self)
        ensures
            r == (Image {
                element,
                bounding_box: Rect { position, width: element.width, height: element.height },
            }),
    {
        let bounding_box = Rect::new(position, element.width, element.height);
        Image { element, bounding_box }
    }

    pub fn draw(&self) -> (r: DrawCommand)
        ensures
            r == (DrawCommand::EntireImage {
                element: self.element,
                position: self.bounding_box.position,
            }),
    {
        DrawCommand::EntireImage { element: self.element, position: self.bounding_box.position }
    }

    pub fn bounding_box(&self) -> (r: &Rect)
        ensures
            *r == self.bounding_box,
    {
        &self.bounding_box
    }

    pub fn move_horizontally(&mut self, distance: i16)
        requires
            old(self).bounding_box.can_shift(distance as int),
        ensures
            *final(self) == old(self).shifted(distance as int),
    {
        let x: i16 = self.bounding_box.x() + distance;
        self.set_x(x);
    }

    pub fn set_x(&mut self, x: i16)
        ensures
            *final(self) == old(self).at_x(x),
    {
        self.bounding_box.set_x(x);
    }

    pub fn right(&self) -> (r: i16)
        requires
            i16::MIN <= self.bounding_box.right_edge() <= i16::MAX,
        ensures
            r == self.bounding_box.right_edge(),
    {
        self.bounding_box.right()
    }
}

/// A sheet of sprites: the catalog of its cells and the picture they are
/// cut from.
pub struct SpriteSheet {
    pub sheet: Sheet,
    pub image: ImageElement,
}

impl SpriteSheet {
    /// The cell that the catalog holds under `name`, if any.
    pub open spec fn spec_cell(&self, name: Seq<char>) -> Option<Cell> {
        self.sheet.spec_cell(name)
    }

    pub fn new(sheet: Sheet, image: ImageElement) -> (r: Self)
        ensures
            r.sheet == sheet,
            r.image == image,
    {
        SpriteSheet { sheet, image }
    }

    pub fn cell(&self, name: &str) -> (r: Option<&Cell>)
        ensures
            match r {
                Some(cell) => self.spec_cell(name@) == Some(*cell),
                None => self.spec_cell(name@) is None,
            },
    {
        self.sheet.cell(name)
    }

    /// The instruction that copies the region `source` of the sheet's picture
    /// into `destination`.
    pub fn draw(&self, source: &Rect, destination: &Rect) -> (r: DrawCommand)
        ensures
            r == (DrawCommand::Image {
                element: self.image,
                frame: *source,
                destination: *destination,
            }),
    {
        DrawCommand::Image { element: self.image, frame: *source, destination: *destination }
    }
}

/// The keys that are held down, by their names.
pub struct KeyState {
    pressed_keys: StringHashMap<()>,
}

impl View for KeyState {
    type V = Set<Seq<char>>;

    /// The names of the keys that are held.
    closed spec fn view(&self) -> Set<Seq<char>> {
        self.pressed_keys@.dom()
    }
}

impl KeyState {
    pub fn new() -> (r: Self)
        ensures
            r@ == Set::<Seq<char>>::empty(),
    {
        KeyState { pressed_keys: StringHashMap::new() }
    }

    pub fn is_pressed(&self, code: &str) -> (r: bool)
        ensures
            r == self@.contains(code@),
    {
        self.pressed_keys.contains_key(code)
    }

    pub fn set_pressed(&mut self, code: &str)
        ensures
            final(self)@ == old(self)@.insert(code@),
    {
        self.pressed_keys.insert(String::from_str(code), ());
    }

    pub fn set_released(&mut self, code: &str)
        ensures
            final(self)@ == old(self)@.remove(code@),
    {
        self.pressed_keys.remove(code);
    }
}

} // verus!
