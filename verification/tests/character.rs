use walk_the_dog::engine::{DrawCommand, ImageElement, Point, Rect};
use walk_the_dog::game::red_hat_boy::{RedHatBoyStateMachine, StateTag};
use walk_the_dog::game::red_hat_boy_states::{Idle, RedHatBoyState};
use walk_the_dog::game::{Cell, Event, RedHatBoy, Sheet, SheetRect};

const PICTURE: ImageElement = ImageElement { id: 1, width: 2048, height: 1024 };

fn cell(number: u16) -> Cell {
    Cell {
        frame: SheetRect { x: number * 10, y: number, w: 160, h: 136 },
        sprite_source_size: SheetRect { x: 10, y: 20, w: 160, h: 136 },
    }
}

fn sheet() -> Sheet {
    let mut sheet = Sheet::new();
    for (label, count) in [("Idle", 10u16), ("Run", 8), ("Slide", 5), ("Jump", 12), ("Dead", 10)] {
        for number in 1..=count {
            sheet.insert(&format!("{} ({}).png", label, number), cell(number));
        }
    }
    sheet
}

fn boy() -> RedHatBoy {
    RedHatBoy::new(sheet(), PICTURE)
}

fn running_boy() -> RedHatBoy {
    let mut boy = boy();
    boy.run_right();
    boy
}

fn dead_boy() -> RedHatBoy {
    let mut boy = running_boy();
    boy.knock_out();
    for _ in 0..29 {
        assert!(!boy.knocked_out());
        boy.update();
    }
    assert!(boy.knocked_out());
    boy
}

fn idle_machine() -> RedHatBoyStateMachine {
    RedHatBoyStateMachine::Idle(RedHatBoyState::<Idle>::new())
}

fn same(a: &RedHatBoyStateMachine, b: &RedHatBoyStateMachine) -> bool {
    let same_state = matches!(
        (a, b),
        (RedHatBoyStateMachine::Idle(_), RedHatBoyStateMachine::Idle(_))
            | (RedHatBoyStateMachine::Running(_), RedHatBoyStateMachine::Running(_))
            | (RedHatBoyStateMachine::Sliding(_), RedHatBoyStateMachine::Sliding(_))
            | (RedHatBoyStateMachine::Jumping(_), RedHatBoyStateMachine::Jumping(_))
            | (RedHatBoyStateMachine::Falling(_), RedHatBoyStateMachine::Falling(_))
            | (RedHatBoyStateMachine::Dead(_), RedHatBoyStateMachine::Dead(_))
    );
    same_state && a.context() == b.context()
}

#[test]
fn a_new_character_shows_the_first_idle_sprite() {
    let boy = boy();
    assert_eq!(boy.frame_name(), "Idle (1).png");
    assert_eq!(boy.pos_y(), 479);
    assert_eq!(boy._pos_x(), -20);
    assert_eq!(boy.velocity_y(), 0);
    assert_eq!(boy._velocity_x(), 0);
    assert_eq!(boy.walking_speed(), 0);
    assert!(!boy.knocked_out());
}

#[test]
fn a_sprite_stays_for_three_frames() {
    let mut boy = boy();
    let mut names = Vec::new();
    for _ in 0..=30 {
        names.push(boy.frame_name());
        boy.update();
    }
    assert_eq!(names[0], "Idle (1).png");
    assert_eq!(names[2], "Idle (1).png");
    assert_eq!(names[3], "Idle (2).png");
    assert_eq!(names[5], "Idle (2).png");
    assert_eq!(names[6], "Idle (3).png");
    assert_eq!(names[26], "Idle (9).png");
    assert_eq!(names[27], "Idle (10).png");
    assert_eq!(names[29], "Idle (10).png");
    assert_eq!(names[30], "Idle (1).png");
}

#[test]
fn every_state_files_its_sprites_under_its_label() {
    let mut boy = running_boy();
    assert_eq!(boy.frame_name(), "Run (1).png");
    for _ in 0..23 {
        boy.update();
    }
    assert_eq!(boy.frame_name(), "Run (8).png");
    boy.slide();
    assert_eq!(boy.frame_name(), "Slide (1).png");
    for _ in 0..13 {
        boy.update();
    }
    assert_eq!(boy.frame_name(), "Slide (5).png");
    boy.update();
    assert_eq!(boy.frame_name(), "Run (1).png");
    boy.jump();
    assert_eq!(boy.frame_name(), "Jump (1).png");
    for _ in 0..35 {
        boy.update();
    }
    assert_eq!(boy.frame_name(), "Jump (12).png");
    boy.knock_out();
    assert_eq!(boy.frame_name(), "Dead (1).png");
    for _ in 0..28 {
        boy.update();
    }
    assert_eq!(boy.frame_name(), "Dead (10).png");
    assert!(!boy.knocked_out());
    boy.update();
    assert!(boy.knocked_out());
    assert_eq!(boy.frame_name(), "Dead (10).png");
}

#[test]
fn the_current_sprite_is_looked_up_by_the_frame_name() {
    let mut boy = boy();
    assert_eq!(boy.current_sprite(), Some(&cell(1)));
    for _ in 0..4 {
        boy.update();
    }
    assert_eq!(boy.current_sprite(), Some(&cell(2)));
}

#[test]
fn a_sprite_that_the_sheet_lacks_is_not_found() {
    let boy = RedHatBoy::new(Sheet::new(), PICTURE);
    assert_eq!(boy.current_sprite(), None);
    assert!(!boy.can_draw());
    let mut partial = Sheet::new();
    partial.insert("Idle (1).png", cell(1));
    let mut boy = RedHatBoy::new(partial, PICTURE);
    assert_eq!(boy.current_sprite(), Some(&cell(1)));
    boy.run_right();
    assert_eq!(boy.current_sprite(), None);
}

#[test]
fn the_destination_box_is_the_position_moved_by_the_sprite_offset() {
    let boy = boy();
    assert_eq!(boy.destination_box(), Rect::new_from_x_y(-10, 499, 160, 136));
}

#[test]
fn the_bounding_box_is_the_destination_box_cut_down() {
    let boy = boy();
    assert_eq!(boy.bounding_box(), Rect::new_from_x_y(8, 513, 132, 122));
}

#[test]
fn touches_goes_by_the_bounding_box() {
    let boy = boy();
    assert!(boy.touches(&Rect::new_from_x_y(139, 634, 10, 10)));
    assert!(!boy.touches(&Rect::new_from_x_y(140, 634, 10, 10)));
    assert!(!boy.touches(&Rect::new_from_x_y(139, 635, 10, 10)));
    assert!(boy.touches(&Rect::new_from_x_y(0, 500, 9, 14)));
    assert!(!boy.touches(&Rect::new_from_x_y(0, 500, 8, 14)));
    assert!(!boy.touches(&Rect::new_from_x_y(0, 500, 9, 13)));
    assert!(!boy.touches(&Rect::new_from_x_y(-10, 499, 18, 14)));
}

#[test]
fn the_character_is_drawn_from_its_sprite_into_its_destination_box() {
    let mut boy = boy();
    for _ in 0..3 {
        boy.update();
    }
    assert!(boy.can_draw());
    assert_eq!(
        boy.draw(),
        DrawCommand::Image {
            element: PICTURE,
            frame: Rect::new_from_x_y(20, 2, 160, 136),
            destination: Rect::new_from_x_y(-10, 499, 160, 136),
        }
    );
}

#[test]
fn run_right_sets_the_character_running() {
    let boy = running_boy();
    assert_eq!(boy.walking_speed(), 4);
    assert_eq!(boy._velocity_x(), 4);
    assert_eq!(boy.frame_name(), "Run (1).png");
}

#[test]
fn jump_while_idle_changes_nothing() {
    let machine = idle_machine();
    let after = machine.transition(Event::Jump);
    assert!(same(&machine, &after));
    let mut boy = boy();
    boy.update();
    boy.jump();
    assert_eq!(boy.frame_name(), "Idle (1).png");
    assert_eq!(boy.velocity_y(), 1);
    assert_eq!(boy.pos_y(), 479);
}

#[test]
fn events_that_a_state_does_not_listen_to_change_nothing() {
    let idle = idle_machine();
    for event in [Event::Slide, Event::Jump, Event::KnockOut, Event::Land(150)] {
        assert!(same(&idle, &idle.transition(event)));
    }
    let running = idle.transition(Event::Run).transition(Event::Update);
    assert!(same(&running, &running.transition(Event::Run)));
    let sliding = running.transition(Event::Slide).transition(Event::Update);
    for event in [Event::Run, Event::Slide, Event::Jump] {
        assert!(same(&sliding, &sliding.transition(event)));
    }
    let jumping = running.transition(Event::Jump).transition(Event::Update);
    for event in [Event::Run, Event::Slide, Event::Jump] {
        assert!(same(&jumping, &jumping.transition(event)));
    }
    let falling = running.transition(Event::KnockOut).transition(Event::Update);
    for event in [Event::Run, Event::Slide, Event::Jump, Event::KnockOut, Event::Land(150)] {
        assert!(same(&falling, &falling.transition(event)));
    }
}

#[test]
fn the_machine_follows_the_transition_table() {
    let idle = idle_machine();
    assert!(matches!(idle.transition(Event::Update), RedHatBoyStateMachine::Idle(_)));
    let running = idle.transition(Event::Run);
    assert!(matches!(running, RedHatBoyStateMachine::Running(_)));
    assert!(matches!(running.transition(Event::Update), RedHatBoyStateMachine::Running(_)));
    assert!(matches!(running.transition(Event::Slide), RedHatBoyStateMachine::Sliding(_)));
    assert!(matches!(running.transition(Event::Jump), RedHatBoyStateMachine::Jumping(_)));
    assert!(matches!(running.transition(Event::KnockOut), RedHatBoyStateMachine::Falling(_)));
    assert!(matches!(running.transition(Event::Land(300)), RedHatBoyStateMachine::Running(_)));
    let sliding = running.transition(Event::Slide);
    assert!(matches!(sliding.transition(Event::Update), RedHatBoyStateMachine::Sliding(_)));
    assert!(matches!(sliding.transition(Event::KnockOut), RedHatBoyStateMachine::Falling(_)));
    assert!(matches!(sliding.transition(Event::Land(300)), RedHatBoyStateMachine::Sliding(_)));
    let jumping = running.transition(Event::Jump);
    assert!(matches!(jumping.transition(Event::Update), RedHatBoyStateMachine::Jumping(_)));
    assert!(matches!(jumping.transition(Event::KnockOut), RedHatBoyStateMachine::Falling(_)));
    assert!(matches!(jumping.transition(Event::Land(300)), RedHatBoyStateMachine::Running(_)));
    let falling = running.transition(Event::KnockOut);
    assert!(matches!(falling.transition(Event::Update), RedHatBoyStateMachine::Falling(_)));
    assert!(!falling.is_dead());
}

#[test]
fn the_machine_reports_label_context_and_death() {
    let idle = idle_machine();
    assert_eq!(idle.frame_name(), "Idle");
    assert_eq!(idle.context().position, Point { x: -20, y: 479 });
    assert!(!idle.is_dead());
    let mut falling = idle.transition(Event::Run).transition(Event::KnockOut);
    assert_eq!(falling.frame_name(), "Dead");
    for _ in 0..29 {
        falling = falling.transition(Event::Update);
    }
    assert!(falling.is_dead());
    assert_eq!(falling.frame_name(), "Dead");
    assert_eq!(falling.context().frame, 29);
}

#[test]
fn once_dead_the_character_stays_dead() {
    let mut boy = dead_boy();
    let frame = boy.frame_name();
    let y = boy.pos_y();
    for round in 0..3 {
        boy.update();
        boy.run_right();
        boy.jump();
        boy.slide();
        boy.land_on(100 + round);
        boy.knock_out();
        boy.transition(Event::Update);
        assert!(boy.knocked_out());
        assert_eq!(boy.frame_name(), frame);
        assert_eq!(boy.pos_y(), y);
        assert_eq!(boy.walking_speed(), 0);
        assert_eq!(boy.velocity_y(), 20);
    }
}

#[test]
fn landing_puts_the_character_on_the_surface() {
    let mut boy = running_boy();
    boy.land_on(206);
    assert_eq!(boy.pos_y(), 85);
    for _ in 0..5 {
        boy.update();
    }
    assert_eq!(boy.velocity_y(), 5);
    assert_eq!(boy.pos_y(), 100);
    boy.land_on(150);
    assert_eq!(boy.pos_y(), 29);
    assert_eq!(boy.velocity_y(), 5);
    assert_eq!(boy.frame_name(), "Run (2).png");
}

#[test]
fn meet_applies_the_event_if_there_is_one() {
    let mut boy = running_boy();
    boy.meet(None);
    assert_eq!(boy.frame_name(), "Run (1).png");
    boy.meet(Some(Event::Land(420)));
    assert_eq!(boy.pos_y(), 299);
    boy.meet(Some(Event::KnockOut));
    assert_eq!(boy.frame_name(), "Dead (1).png");
    assert_eq!(boy.walking_speed(), 0);
}

#[test]
fn accepts_says_whether_an_event_fits() {
    let mut boy = running_boy();
    assert!(boy.accepts(Event::Update));
    assert!(boy.accepts(Event::Land(-32647)));
    assert!(!boy.accepts(Event::Land(-32648)));
    assert!(boy.accepts(Event::Run));
    assert!(boy.accepts(Event::KnockOut));
    boy.land_on(-32647);
    assert_eq!(boy.pos_y(), -32768);
    assert!(boy.accepts(Event::Update));
    boy.jump();
    assert!(!boy.accepts(Event::Update));
    let dead = dead_boy();
    assert!(dead.accepts(Event::Land(-32768)));
    assert!(dead.accepts(Event::Update));
}

#[test]
fn reset_brings_the_character_back_to_its_spawn_point() {
    let mut boy = running_boy();
    boy.jump();
    for _ in 0..10 {
        boy.update();
    }
    let boy = RedHatBoy::reset(boy);
    assert_eq!(boy.frame_name(), "Idle (1).png");
    assert_eq!(boy._pos_x(), -20);
    assert_eq!(boy.pos_y(), 479);
    assert_eq!(boy._velocity_x(), 0);
    assert_eq!(boy.velocity_y(), 0);
    assert_eq!(boy.current_sprite(), Some(&cell(1)));
    let boy = RedHatBoy::reset(dead_boy());
    assert!(!boy.knocked_out());
    assert_eq!(boy.frame_name(), "Idle (1).png");
}

#[test]
fn the_tags_name_the_six_states() {
    let all = [
        StateTag::Idle,
        StateTag::Running,
        StateTag::Sliding,
        StateTag::Jumping,
        StateTag::Falling,
        StateTag::Dead,
    ];
    for (i, a) in all.iter().enumerate() {
        for (j, b) in all.iter().enumerate() {
            assert_eq!(a == b, i == j);
        }
    }
}
