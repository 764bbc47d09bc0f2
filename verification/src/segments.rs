//! The two shapes of segment that a walk is built from.

use vstd::prelude::*;
use std::rc::Rc;
use crate::engine::{Image, ImageElement, Point, Rect, SpriteSheet};
use crate::game::obstacle::{
    box_right_edges, found_cells, names_of, right_edges, rightmost_edge, AnyObstacle, Barrier,
    Obstacle, ObstacleView, Platform, PlatformView,
};

verus! {

/// The `y` of a platform of the low tier.
pub const LOW_PLATFORM: i16 = 420;

/// The `y` of a platform of the high tier.
pub const HIGH_PLATFORM: i16 = 375;

/// How far into its segment a platform begins.
pub const FIRST_PLATFORM: i16 = 500;

/// How far into its segment a stone lies.
pub const INITIAL_STONE_OFFSET: i16 = 150;

/// The `y` of a stone that lies on the ground.
pub const STONE_ON_GROUND: i16 = 546;

/// How far the last box of a floating platform begins right of the platform.
pub const LAST_BOX_OFFSET: i16 = 324;

/// The width of a floating platform.
pub const PLATFORM_WIDTH: i16 = 384;

/// A floating platform at `position`: three tiles, and three boxes to land
/// on, the middle one deeper than the two at the ends.
pub open spec fn floating_platform(sheet: SpriteSheet, position: Point) -> PlatformView {
    PlatformView {
        sheet,
        bounding_boxes: seq![
            Rect { position: Point { x: 0, y: 0 }, width: 60, height: 54 }.moved_by(position),
            Rect { position: Point { x: 60, y: 0 }, width: 264, height: 93 }.moved_by(position),
            Rect { position: Point { x: 324, y: 0 }, width: 60, height: 54 }.moved_by(position),
        ],
        sprites: found_cells(sheet.sheet.frames@, seq!["13.png"@, "14.png"@, "15.png"@]),
        position,
    }
}

/// A stone on the ground, `INITIAL_STONE_OFFSET` into the segment that
/// begins at `offset_x`.
pub open spec fn stone_at(stone: ImageElement, offset_x: int) -> ObstacleView {
    ObstacleView::Barrier(
        Image {
            element: stone,
            bounding_box: Rect {
                position: Point { x: (offset_x + INITIAL_STONE_OFFSET) as i16, y: STONE_ON_GROUND },
                width: stone.width,
                height: stone.height,
            },
        },
    )
}

/// A segment that begins at `offset_x`: a stone, then a floating platform
/// at the height `tier`.
pub open spec fn segment(
    stone: ImageElement,
    sheet: SpriteSheet,
    offset_x: int,
    tier: i16,
) -> Seq<ObstacleView> {
    seq![
        stone_at(stone, offset_x),
        ObstacleView::Platform(
            floating_platform(sheet, Point { x: (offset_x + FIRST_PLATFORM) as i16, y: tier }),
        ),
    ]
}

/// Whether a segment that begins at `offset_x` lies inside the coordinate
/// space.
pub open spec fn segment_fits(offset_x: int) -> bool {
    offset_x + FIRST_PLATFORM + LAST_BOX_OFFSET <= i16::MAX
}

/// Whether a segment that begins at `offset_x` lies inside the coordinate
/// space with the right edges of its stone and its platform.
pub open spec fn segment_has_right_edges(stone: ImageElement, offset_x: int) -> bool {
    &&& i16::MIN <= offset_x + INITIAL_STONE_OFFSET
    &&& i16::MIN <= offset_x + INITIAL_STONE_OFFSET + stone.width <= i16::MAX
    &&& offset_x + FIRST_PLATFORM + PLATFORM_WIDTH <= i16::MAX
}

/// The right edge of a segment that begins at `offset_x`: that of its
/// platform, or that of its stone where the stone is so wide that it
/// reaches further.
pub open spec fn segment_right_edge(stone: ImageElement, offset_x: int) -> int {
    if offset_x + FIRST_PLATFORM + PLATFORM_WIDTH >= offset_x + INITIAL_STONE_OFFSET + stone.width {
        offset_x + FIRST_PLATFORM + PLATFORM_WIDTH
    } else {
        offset_x + INITIAL_STONE_OFFSET + stone.width
    }
}

/// A segment whose right edges lie inside the coordinate space lies inside
/// it altogether; each of its two obstacles has a right edge, and the
/// rightmost of them is the right edge of the segment.
pub proof fn lemma_segment_right_edges(
    stone: ImageElement,
    sheet: SpriteSheet,
    offset_x: int,
    tier: i16,
)
    requires
        segment_has_right_edges(stone, offset_x),
    ensures
        segment_fits(offset_x),
        segment(stone, sheet, offset_x, tier).len() == 2,
        forall|i: int|
            0 <= i < 2 ==> (#[trigger] segment(stone, sheet, offset_x, tier)[i]).has_right_edge(),
        rightmost_edge(
            segment(stone, sheet, offset_x, tier).map_values(
                |obstacle: ObstacleView| obstacle.right_edge(),
            ),
        ) == segment_right_edge(stone, offset_x),
{
    let obstacles = segment(stone, sheet, offset_x, tier);
    let edges = obstacles.map_values(|obstacle: ObstacleView| obstacle.right_edge());
    assert(obstacles[0].right_edge() == offset_x + INITIAL_STONE_OFFSET + stone.width);
    let platform = floating_platform(
        sheet,
        Point { x: (offset_x + FIRST_PLATFORM) as i16, y: tier },
    );
    let reaches = box_right_edges(platform.bounding_boxes);
    assert(reaches =~= seq![
        offset_x + FIRST_PLATFORM + 60,
        offset_x + FIRST_PLATFORM + LAST_BOX_OFFSET,
        offset_x + FIRST_PLATFORM + PLATFORM_WIDTH,
    ]);
    let front = reaches.drop_last();
    assert(front.drop_last() =~= seq![reaches[0]]);
    assert(rightmost_edge(front.drop_last()) == reaches[0]);
    assert(front.last() == reaches[1]);
    assert(rightmost_edge(front) == reaches[1]);
    assert(reaches.last() == reaches[2]);
    assert(obstacles[1].right_edge() == offset_x + FIRST_PLATFORM + PLATFORM_WIDTH);
    assert(edges.drop_last() =~= seq![edges[0]]);
    assert(rightmost_edge(edges.drop_last()) == edges[0]);
}

/// The obstacles as plain values.
pub open spec fn views(obstacles: Seq<AnyObstacle>) -> Seq<ObstacleView> {
    obstacles.map_values(|obstacle: AnyObstacle| obstacle@)
}

/// Obstacles that are a segment whose right edges lie inside the coordinate
/// space have a right edge each, and the rightmost of theirs is the right
/// edge of the segment.
pub proof fn lemma_obstacles_of_a_segment(
    obstacles: Seq<AnyObstacle>,
    stone: ImageElement,
    sheet: SpriteSheet,
    offset_x: int,
    tier: i16,
)
    requires
        views(obstacles) == segment(stone, sheet, offset_x, tier),
        segment_has_right_edges(stone, offset_x),
    ensures
        obstacles.len() == 2,
        forall|i: int| 0 <= i < obstacles.len() ==> (#[trigger] obstacles[i]).has_right_edge(),
        rightmost_edge(right_edges(obstacles)) == segment_right_edge(stone, offset_x),
{
    lemma_segment_right_edges(stone, sheet, offset_x, tier);
    assert(obstacles.len() == views(obstacles).len());
    assert forall|i: int| 0 <= i < obstacles.len() implies (
    #[trigger] obstacles[i]).has_right_edge() by {
        assert(views(obstacles)[i] == obstacles[i]@);
        assert(segment(stone, sheet, offset_x, tier)[i].has_right_edge());
    }
    assert(right_edges(obstacles) =~= views(obstacles).map_values(
        |obstacle: ObstacleView| obstacle.right_edge(),
    ));
}

/// The segment with a stone and a platform of the low tier.
pub fn stone_and_platform(stone: ImageElement, sprite_sheet: Rc<SpriteSheet>, offset_x: i16) -> (r:
    Vec<AnyObstacle>)
    requires
        segment_fits(offset_x as int),
    ensures
        views(r@) == segment(stone, *sprite_sheet, offset_x as int, LOW_PLATFORM),
        r@.len() == 2,
        segment_has_right_edges(stone, offset_x as int) ==> {
            &&& forall|i: int| 0 <= i < r@.len() ==> (#[trigger] r@[i]).has_right_edge()
            &&& rightmost_edge(right_edges(r@)) == segment_right_edge(stone, offset_x as int)
        },
{
    let position = Point { x: offset_x + INITIAL_STONE_OFFSET, y: STONE_ON_GROUND };
    let stone = Image::new(stone, position);
    let stone = Barrier::new(stone);
    let position = Point { x: offset_x + FIRST_PLATFORM, y: LOW_PLATFORM };
    let obstacles = vec![
        AnyObstacle::Barrier(stone),
        AnyObstacle::Platform(create_floating_platform(sprite_sheet, position)),
    ];
    proof {
        assert(views(obstacles@) =~= segment(
            stone@.element,
            *sprite_sheet,
            offset_x as int,
            LOW_PLATFORM,
        ));
        if segment_has_right_edges(stone@.element, offset_x as int) {
            lemma_obstacles_of_a_segment(
                obstacles@,
                stone@.element,
                obstacles@[1]@->Platform_0.sheet,
                offset_x as int,
                LOW_PLATFORM,
            );
        }
    }
    obstacles
}

/// The segment with a stone and a platform of the high tier.
pub fn platform_and_stone(stone: ImageElement, sprite_sheet: Rc<SpriteSheet>, offset_x: i16) -> (r:
    Vec<AnyObstacle>)
    requires
        segment_fits(offset_x as int),
    ensures
        views(r@) == segment(stone, *sprite_sheet, offset_x as int, HIGH_PLATFORM),
        r@.len() == 2,
        segment_has_right_edges(stone, offset_x as int) ==> {
            &&& forall|i: int| 0 <= i < r@.len() ==> (#[trigger] r@[i]).has_right_edge()
            &&& rightmost_edge(right_edges(r@)) == segment_right_edge(stone, offset_x as int)
        },
{
    let position = Point { x: offset_x + INITIAL_STONE_OFFSET, y: STONE_ON_GROUND };
    let stone = Image::new(stone, position);
    let stone = Barrier::new(stone);
    let position = Point { x: offset_x + FIRST_PLATFORM, y: HIGH_PLATFORM };
    let obstacles = vec![
        AnyObstacle::Barrier(stone),
        AnyObstacle::Platform(create_floating_platform(sprite_sheet, position)),
    ];
    proof {
        assert(views(obstacles@) =~= segment(
            stone@.element,
            *sprite_sheet,
            offset_x as int,
            HIGH_PLATFORM,
        ));
        if segment_has_right_edges(stone@.element, offset_x as int) {
            lemma_obstacles_of_a_segment(
                obstacles@,
                stone@.element,
                obstacles@[1]@->Platform_0.sheet,
                offset_x as int,
                HIGH_PLATFORM,
            );
        }
    }
    obstacles
}

fn create_floating_platform(sprite_sheet: Rc<SpriteSheet>, position: Point) -> (r: Platform)
    requires
        position.x + LAST_BOX_OFFSET <= i16::MAX,
        position.y <= i16::MAX,
    ensures
        r@ == floating_platform(*sprite_sheet, position),
{
    let floating_platform_sprites: [&str; 3] = ["13.png", "14.png", "15.png"];
    let first = Rect::new_from_x_y(0, 0, 60, 54);
    let second = Rect::new_from_x_y(60, 0, 384 - (60 * 2), 93);
    let third = Rect::new_from_x_y(384 - 60, 0, 60, 54);
    let floating_platform_bounding_boxes: [Rect; 3] = [first, second, third];
    proof {
        assert(names_of(floating_platform_sprites@) =~= seq!["13.png"@, "14.png"@, "15.png"@]);
        assert(floating_platform_bounding_boxes@.map_values(|b: Rect| b.moved_by(position))
            =~= floating_platform(*sprite_sheet, position).bounding_boxes);
    }
    Platform::new(
        sprite_sheet,
        position,
        floating_platform_sprites.as_slice(),
        floating_platform_bounding_boxes.as_slice(),
    )
}

} // verus!
