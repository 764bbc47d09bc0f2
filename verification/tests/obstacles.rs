use std::rc::Rc;
use walk_the_dog::engine::{DrawCommand, Image, ImageElement, Point, Rect, SpriteSheet};
use walk_the_dog::game::{
    rightmost, AnyObstacle, Barrier, Cell, Obstacle, Platform, RedHatBoy, Sheet, SheetRect,
};

const PICTURE: ImageElement = ImageElement { id: 1, width: 2048, height: 1024 };
const STONE: ImageElement = ImageElement { id: 2, width: 70, height: 54 };
const TILES: ImageElement = ImageElement { id: 3, width: 512, height: 512 };

fn sprite(number: u16) -> Cell {
    Cell {
        frame: SheetRect { x: number * 10, y: number, w: 100, h: 100 },
        sprite_source_size: SheetRect { x: 0, y: 0, w: 100, h: 100 },
    }
}

fn boy_sheet() -> Sheet {
    let mut sheet = Sheet::new();
    for (label, count) in [("Idle", 10u16), ("Run", 8), ("Slide", 5), ("Jump", 12), ("Dead", 10)] {
        for number in 1..=count {
            sheet.insert(&format!("{} ({}).png", label, number), sprite(number));
        }
    }
    sheet
}

fn tile(x: u16, w: u16) -> Cell {
    Cell {
        frame: SheetRect { x, y: 200, w, h: 93 },
        sprite_source_size: SheetRect { x: 0, y: 0, w, h: 93 },
    }
}

fn tiles() -> Rc<SpriteSheet> {
    let mut sheet = Sheet::new();
    sheet.insert("13.png", tile(0, 128));
    sheet.insert("14.png", tile(128, 130));
    sheet.insert("15.png", tile(258, 126));
    Rc::new(SpriteSheet::new(sheet, TILES))
}

fn boxes() -> [Rect; 3] {
    [
        Rect::new_from_x_y(0, 0, 60, 54),
        Rect::new_from_x_y(60, 0, 264, 93),
        Rect::new_from_x_y(324, 0, 60, 54),
    ]
}

fn platform_at(x: i16, y: i16) -> Platform {
    Platform::new(tiles(), Point { x, y }, &["13.png", "14.png", "15.png"], &boxes())
}

fn barrier_at(x: i16, y: i16) -> Barrier {
    Barrier::new(Image::new(STONE, Point { x, y }))
}

// Running, at y = 100 and falling with velocity 5. Its bounding box
// reaches from x = -2 to 70 and from y = 114 to 200.
fn falling_boy() -> RedHatBoy {
    let mut boy = RedHatBoy::new(boy_sheet(), PICTURE);
    boy.run_right();
    boy.land_on(206);
    for _ in 0..5 {
        boy.update();
    }
    assert_eq!(boy.pos_y(), 100);
    assert_eq!(boy.velocity_y(), 5);
    assert_eq!(boy.bounding_box(), Rect::new_from_x_y(-2, 114, 72, 86));
    boy
}

// Jumping, at y = 100 and rising with velocity -5.
fn rising_boy() -> RedHatBoy {
    let mut boy = RedHatBoy::new(boy_sheet(), PICTURE);
    boy.run_right();
    boy.land_on(511);
    boy.jump();
    for _ in 0..20 {
        boy.update();
    }
    assert_eq!(boy.pos_y(), 100);
    assert_eq!(boy.velocity_y(), -5);
    assert_eq!(boy.bounding_box(), Rect::new_from_x_y(-2, 114, 72, 86));
    boy
}

#[test]
fn a_falling_character_above_the_platform_lands_on_it() {
    let platform = platform_at(0, 150);
    let mut boy = falling_boy();
    assert_eq!(platform.contact_with(&boy), Some(walk_the_dog::game::Event::Land(150)));
    platform.check_intersection(&mut boy);
    assert_eq!(boy.pos_y(), 150 - 121);
    assert_eq!(boy.pos_y(), 29);
    assert_eq!(boy.velocity_y(), 5);
    assert_eq!(boy.walking_speed(), 4);
    assert_eq!(boy.frame_name(), "Run (2).png");
    assert!(!boy.knocked_out());
}

#[test]
fn a_rising_character_is_knocked_out_by_the_platform() {
    let platform = platform_at(0, 150);
    let mut boy = rising_boy();
    assert_eq!(platform.contact_with(&boy), Some(walk_the_dog::game::Event::KnockOut));
    platform.check_intersection(&mut boy);
    assert_eq!(boy.frame_name(), "Dead (1).png");
    assert_eq!(boy.pos_y(), 100);
    assert_eq!(boy.velocity_y(), 0);
    assert_eq!(boy.walking_speed(), 0);
}

#[test]
fn a_falling_character_that_is_not_above_the_platform_is_knocked_out() {
    let platform = platform_at(0, 100);
    let mut boy = falling_boy();
    platform.check_intersection(&mut boy);
    assert_eq!(boy.frame_name(), "Dead (1).png");
    let platform = platform_at(0, 60);
    let mut boy = falling_boy();
    platform.check_intersection(&mut boy);
    assert_eq!(boy.frame_name(), "Dead (1).png");
}

#[test]
fn a_character_at_rest_is_knocked_out_by_the_platform() {
    let platform = platform_at(0, 520);
    let mut boy = RedHatBoy::new(boy_sheet(), PICTURE);
    boy.run_right();
    assert_eq!(boy.velocity_y(), 0);
    assert_eq!(boy.bounding_box(), Rect::new_from_x_y(-2, 493, 72, 86));
    platform.check_intersection(&mut boy);
    assert_eq!(boy.frame_name(), "Dead (1).png");
}

#[test]
fn a_platform_that_does_not_touch_the_character_leaves_it_alone() {
    let mut boy = falling_boy();
    for platform in [platform_at(70, 150), platform_at(0, 200), platform_at(-386, 150)] {
        assert_eq!(platform.contact_with(&boy), None);
        platform.check_intersection(&mut boy);
        assert_eq!(boy.pos_y(), 100);
        assert_eq!(boy.velocity_y(), 5);
        assert_eq!(boy.frame_name(), "Run (2).png");
    }
}

#[test]
fn the_character_lands_on_the_first_box_that_it_touches() {
    let steps = [
        Rect::new_from_x_y(500, 40, 10, 10),
        Rect::new_from_x_y(0, 30, 60, 54),
        Rect::new_from_x_y(0, 10, 60, 54),
    ];
    let platform = Platform::new(tiles(), Point { x: 0, y: 150 }, &["13.png"], &steps);
    let mut boy = falling_boy();
    platform.check_intersection(&mut boy);
    assert_eq!(boy.pos_y(), 180 - 121);
}

#[test]
fn a_sliding_character_that_lands_keeps_sliding() {
    let platform = platform_at(0, 150);
    let mut boy = RedHatBoy::new(boy_sheet(), PICTURE);
    boy.run_right();
    boy.land_on(206);
    boy.slide();
    for _ in 0..5 {
        boy.update();
    }
    assert_eq!(boy.pos_y(), 100);
    assert_eq!(boy.frame_name(), "Slide (2).png");
    platform.check_intersection(&mut boy);
    assert_eq!(boy.pos_y(), 29);
    assert_eq!(boy.frame_name(), "Slide (2).png");
}

#[test]
fn a_jumping_character_that_lands_runs_on() {
    let platform = platform_at(0, 150);
    let mut boy = RedHatBoy::new(boy_sheet(), PICTURE);
    boy.run_right();
    boy.land_on(161);
    boy.jump();
    for _ in 0..30 {
        boy.update();
    }
    assert_eq!(boy.velocity_y(), 5);
    assert_eq!(boy.pos_y(), 40 - 285);
    boy.land_on(216);
    boy.jump();
    for _ in 0..30 {
        boy.update();
    }
    assert_eq!(boy.velocity_y(), 5);
    assert_eq!(boy.pos_y(), 95 - 285);
    let high = platform_at(0, -100);
    assert_eq!(boy.frame_name(), "Jump (11).png");
    high.check_intersection(&mut boy);
    assert_eq!(boy.pos_y(), -221);
    assert_eq!(boy.frame_name(), "Run (1).png");
    platform.check_intersection(&mut boy);
    assert_eq!(boy.pos_y(), -221);
}

#[test]
fn a_barrier_knocks_out_a_falling_character() {
    let barrier = barrier_at(30, 150);
    let mut boy = falling_boy();
    assert_eq!(barrier.contact_with(&boy), Some(walk_the_dog::game::Event::KnockOut));
    barrier.check_intersection(&mut boy);
    assert_eq!(boy.frame_name(), "Dead (1).png");
    assert_eq!(boy.walking_speed(), 0);
    assert_eq!(boy.velocity_y(), 0);
}

#[test]
fn a_barrier_knocks_out_a_rising_character() {
    let barrier = barrier_at(30, 150);
    let mut boy = rising_boy();
    barrier.check_intersection(&mut boy);
    assert_eq!(boy.frame_name(), "Dead (1).png");
}

#[test]
fn a_barrier_knocks_out_a_character_at_rest() {
    let barrier = barrier_at(30, 546);
    let mut boy = RedHatBoy::new(boy_sheet(), PICTURE);
    boy.run_right();
    assert_eq!(boy.velocity_y(), 0);
    barrier.check_intersection(&mut boy);
    assert_eq!(boy.frame_name(), "Dead (1).png");
}

#[test]
fn a_barrier_that_does_not_touch_the_character_leaves_it_alone() {
    let mut boy = falling_boy();
    for barrier in [barrier_at(70, 150), barrier_at(30, 200), barrier_at(-72, 150)] {
        assert_eq!(barrier.contact_with(&boy), None);
        barrier.check_intersection(&mut boy);
        assert_eq!(boy.frame_name(), "Run (2).png");
        assert_eq!(boy.walking_speed(), 4);
    }
}

#[test]
fn a_barrier_moves_and_reports_its_right_edge() {
    let mut barrier = barrier_at(150, 546);
    assert_eq!(barrier.right(), 220);
    barrier.move_horizontally(-4);
    assert_eq!(barrier.right(), 216);
    assert_eq!(
        barrier.draw(),
        vec![DrawCommand::EntireImage { element: STONE, position: Point { x: 146, y: 546 } }]
    );
    assert!(barrier.is_movable_by(-4));
    assert!(barrier.is_movable_by(32767 - 146));
    assert!(!barrier.is_movable_by(32767 - 145));
    assert!(barrier.is_drawable());
}

#[test]
fn a_platform_places_its_boxes_where_it_is() {
    let platform = platform_at(500, 420);
    assert_eq!(
        *platform.bounding_boxes(),
        vec![
            Rect::new_from_x_y(500, 420, 60, 54),
            Rect::new_from_x_y(560, 420, 264, 93),
            Rect::new_from_x_y(824, 420, 60, 54),
        ]
    );
    assert_eq!(platform.right(), 884);
}

#[test]
fn a_platform_moves_its_boxes_with_it() {
    let mut platform = platform_at(500, 420);
    platform.move_horizontally(-4);
    assert_eq!(
        *platform.bounding_boxes(),
        vec![
            Rect::new_from_x_y(496, 420, 60, 54),
            Rect::new_from_x_y(556, 420, 264, 93),
            Rect::new_from_x_y(820, 420, 60, 54),
        ]
    );
    assert_eq!(platform.right(), 880);
    assert_eq!(platform.destination_box().x(), 496);
    assert!(platform.is_movable_by(-4));
    assert!(!platform.is_movable_by(32767 - 819));
    assert!(platform.is_movable_by(32767 - 820));
    assert!(platform.is_movable_by(-32768));
    platform.move_horizontally(-32768);
    assert_eq!(platform.bounding_boxes()[0].x(), -32272);
    assert!(platform.is_movable_by(-496));
    assert!(!platform.is_movable_by(-497));
}

#[test]
fn a_platform_is_three_tiles_wide() {
    let platform = platform_at(500, 420);
    assert_eq!(platform.current_sprite(), Some(&tile(0, 128)));
    assert_eq!(platform.destination_box(), Rect::new_from_x_y(500, 420, 384, 93));
}

#[test]
fn a_platform_draws_its_tiles_side_by_side() {
    let platform = platform_at(500, 420);
    assert!(platform.is_drawable());
    assert_eq!(
        platform.draw(),
        vec![
            DrawCommand::Image {
                element: TILES,
                frame: Rect::new_from_x_y(0, 200, 128, 93),
                destination: Rect::new_from_x_y(500, 420, 128, 93),
            },
            DrawCommand::Image {
                element: TILES,
                frame: Rect::new_from_x_y(128, 200, 130, 93),
                destination: Rect::new_from_x_y(628, 420, 130, 93),
            },
            DrawCommand::Image {
                element: TILES,
                frame: Rect::new_from_x_y(258, 200, 126, 93),
                destination: Rect::new_from_x_y(758, 420, 126, 93),
            },
        ]
    );
}

#[test]
fn a_platform_passes_over_tiles_that_the_sheet_lacks() {
    let platform = Platform::new(
        tiles(),
        Point { x: 10, y: 20 },
        &["15.png", "none.png", "13.png"],
        &boxes(),
    );
    assert_eq!(
        platform.draw(),
        vec![
            DrawCommand::Image {
                element: TILES,
                frame: Rect::new_from_x_y(258, 200, 126, 93),
                destination: Rect::new_from_x_y(10, 20, 126, 93),
            },
            DrawCommand::Image {
                element: TILES,
                frame: Rect::new_from_x_y(0, 200, 128, 93),
                destination: Rect::new_from_x_y(136, 20, 128, 93),
            },
        ]
    );
    let bare = Platform::new(tiles(), Point { x: 10, y: 20 }, &[], &[]);
    assert_eq!(bare.draw(), vec![]);
    assert_eq!(*bare.bounding_boxes(), vec![]);
}

#[test]
fn a_platform_too_far_right_cannot_be_drawn() {
    let names = ["13.png", "14.png", "15.png"];
    let platform = Platform::new(tiles(), Point { x: 32767 - 258, y: 420 }, &names, &[]);
    assert!(platform.is_drawable());
    let platform = Platform::new(tiles(), Point { x: 32767 - 257, y: 420 }, &names, &[]);
    assert!(!platform.is_drawable());
    let platform = Platform::new(tiles(), Point { x: 32767 - 257, y: 420 }, &names[..2], &[]);
    assert!(platform.is_drawable());
}

#[test]
fn any_obstacle_behaves_as_what_it_holds() {
    let mut stone = AnyObstacle::Barrier(barrier_at(150, 546));
    let mut platform = AnyObstacle::Platform(platform_at(500, 420));
    assert_eq!(stone.right(), 220);
    assert_eq!(platform.right(), 884);
    stone.move_horizontally(-10);
    platform.move_horizontally(-10);
    assert_eq!(stone.right(), 210);
    assert_eq!(platform.right(), 874);
    assert_eq!(stone.draw().len(), 1);
    assert_eq!(platform.draw().len(), 3);
    assert!(stone.is_drawable() && platform.is_drawable());
    assert!(stone.is_movable_by(1) && platform.is_movable_by(1));
    let mut boy = falling_boy();
    platform.check_intersection(&mut boy);
    assert_eq!(boy.frame_name(), "Run (2).png");
    let near = AnyObstacle::Platform(platform_at(0, 150));
    assert_eq!(near.contact_with(&boy), Some(walk_the_dog::game::Event::Land(150)));
    near.check_intersection(&mut boy);
    assert_eq!(boy.pos_y(), 29);
    let wall = AnyObstacle::Barrier(barrier_at(0, 100));
    wall.check_intersection(&mut boy);
    assert_eq!(boy.frame_name(), "Dead (1).png");
}

#[test]
fn rightmost_of_nothing_is_zero() {
    let none: Vec<AnyObstacle> = vec![];
    assert_eq!(rightmost(&none), 0);
}

#[test]
fn rightmost_is_the_greatest_right_edge() {
    let obstacles = vec![
        AnyObstacle::Barrier(barrier_at(150, 546)),
        AnyObstacle::Platform(platform_at(500, 420)),
        AnyObstacle::Barrier(barrier_at(300, 546)),
    ];
    assert_eq!(rightmost(&obstacles), 884);
    let obstacles = vec![
        AnyObstacle::Barrier(barrier_at(1000, 546)),
        AnyObstacle::Platform(platform_at(500, 420)),
    ];
    assert_eq!(rightmost(&obstacles), 1070);
    let barriers = vec![barrier_at(5, 0), barrier_at(1, 0)];
    assert_eq!(rightmost(&barriers), 75);
}

#[test]
fn rightmost_of_obstacles_left_of_the_origin_is_negative() {
    let obstacles = vec![
        AnyObstacle::Barrier(barrier_at(-500, 546)),
        AnyObstacle::Barrier(barrier_at(-300, 546)),
        AnyObstacle::Barrier(barrier_at(-400, 546)),
    ];
    assert_eq!(rightmost(&obstacles), -230);
}

#[test]
fn a_platform_reaches_as_far_as_the_box_that_reaches_furthest() {
    let unordered = [Rect::new_from_x_y(100, 0, 50, 10), Rect::new_from_x_y(0, 0, 50, 10)];
    let mut platform = Platform::new(tiles(), Point { x: 0, y: 0 }, &["13.png"], &unordered);
    assert_eq!(platform.right(), 150);
    platform.move_horizontally(-30);
    assert_eq!(platform.right(), 120);
    let nested = [
        Rect::new_from_x_y(10, 0, 500, 10),
        Rect::new_from_x_y(20, 0, 30, 10),
        Rect::new_from_x_y(400, 0, 100, 10),
    ];
    let platform = Platform::new(tiles(), Point { x: 5, y: 0 }, &[], &nested);
    assert_eq!(platform.right(), 515);
    let left = [Rect::new_from_x_y(-300, 0, 50, 10), Rect::new_from_x_y(-500, 0, 260, 10)];
    let platform = Platform::new(tiles(), Point { x: 0, y: 0 }, &[], &left);
    assert_eq!(platform.right(), -240);
    let one = [Rect::new_from_x_y(7, 0, 3, 10)];
    let platform = AnyObstacle::Platform(Platform::new(tiles(), Point { x: 0, y: 0 }, &[], &one));
    assert_eq!(platform.right(), 10);
}

#[test]
fn rightmost_goes_by_the_furthest_box_of_each_platform() {
    let unordered = [Rect::new_from_x_y(100, 0, 50, 10), Rect::new_from_x_y(0, 0, 50, 10)];
    let obstacles = vec![
        AnyObstacle::Platform(Platform::new(tiles(), Point { x: 0, y: 0 }, &[], &unordered)),
        AnyObstacle::Barrier(barrier_at(60, 546)),
    ];
    assert_eq!(rightmost(&obstacles), 150);
}
