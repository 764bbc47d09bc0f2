use walk_the_dog::engine::Point;
use walk_the_dog::game::red_hat_boy_states::{
    RedHatBoyContext, FLOOR, GRAVITY, JUMP_SPEED, PLAYER_HEIGHT, RUNNING_SPEED, STARTING_POINT,
    TERMINAL_VELOCITY,
};

fn context(frame: u8, x: i16, y: i16, vx: i16, vy: i16) -> RedHatBoyContext {
    RedHatBoyContext { frame, position: Point { x, y }, velocity: Point { x: vx, y: vy } }
}

#[test]
fn the_constants_are_those_of_the_game() {
    assert_eq!(FLOOR, 479);
    assert_eq!(PLAYER_HEIGHT, 121);
    assert_eq!(STARTING_POINT, -20);
    assert_eq!(RUNNING_SPEED, 4);
    assert_eq!(JUMP_SPEED, -25);
    assert_eq!(GRAVITY, 1);
    assert_eq!(TERMINAL_VELOCITY, 20);
}

#[test]
fn update_pulls_moves_and_steps_the_frame() {
    let before = context(3, 7, 100, 4, -10);
    let after = before.update(29);
    assert_eq!(after, context(4, 7, 91, 4, -9));
}

#[test]
fn gravity_adds_to_the_velocity_below_the_terminal_velocity() {
    let mut now = context(0, 0, -1000, 0, -25);
    for _ in 0..45 {
        let next = now.update(200);
        assert!(next.velocity.y >= now.velocity.y);
        assert_eq!(next.velocity.y, now.velocity.y + 1);
        now = next;
    }
    assert_eq!(now.velocity.y, 20);
}

#[test]
fn gravity_stops_at_the_terminal_velocity() {
    let at_terminal = context(0, 0, 0, 0, 20);
    assert_eq!(at_terminal.update(29).velocity.y, 20);
    let just_below = context(0, 0, 0, 0, 19);
    assert_eq!(just_below.update(29).velocity.y, 20);
    let above = context(0, 0, 0, 0, 30);
    assert_eq!(above.update(29).velocity.y, 30);
}

#[test]
fn the_character_never_sinks_below_the_floor() {
    let on_the_floor = context(0, 0, 479, 0, 0);
    assert_eq!(on_the_floor.update(29).position.y, 479);
    let falling_fast = context(0, 0, 470, 0, 20);
    assert_eq!(falling_fast.update(29).position.y, 479);
    let just_above = context(0, 0, 470, 0, 7);
    assert_eq!(just_above.update(29).position.y, 478);
    let below = context(0, 0, 600, 0, -5);
    assert_eq!(below.update(29).position.y, 479);
}

#[test]
fn the_frame_wraps_once_the_count_is_reached() {
    assert_eq!(context(28, 0, 479, 0, 0).update(29).frame, 29);
    assert_eq!(context(29, 0, 479, 0, 0).update(29).frame, 0);
    assert_eq!(context(0, 0, 479, 0, 0).update(29).frame, 1);
    assert_eq!(context(0, 0, 479, 0, 0).update(0).frame, 0);
    assert_eq!(context(254, 0, 479, 0, 0).update(255).frame, 255);
    assert_eq!(context(255, 0, 479, 0, 0).update(255).frame, 0);
}

#[test]
fn a_frame_past_the_count_starts_over() {
    assert_eq!(context(30, 0, 479, 0, 0).update(29).frame, 0);
    assert_eq!(context(200, 0, 479, 0, 0).update(14).frame, 0);
}

#[test]
fn update_leaves_the_horizontal_position_alone() {
    let after = context(0, -20, 479, 4, 0).update(23);
    assert_eq!(after.position.x, -20);
    assert_eq!(after.velocity.x, 4);
}

#[test]
fn can_update_says_whether_the_fall_fits() {
    assert!(context(0, 0, 479, 0, 0).can_update());
    assert!(context(0, 0, -32768, 0, 0).can_update());
    assert!(!context(0, 0, -32768, 0, -25).can_update());
    assert!(context(0, 0, -32744, 0, -25).can_update());
    assert!(!context(0, 0, -32745, 0, -25).can_update());
    assert!(context(0, 0, 32747, 0, 20).can_update());
    assert!(!context(0, 0, 32748, 0, 20).can_update());
}

#[test]
fn reset_frame_sets_the_frame_to_zero() {
    assert_eq!(context(17, 1, 2, 3, 4).reset_frame(), context(0, 1, 2, 3, 4));
}

#[test]
fn run_right_adds_the_running_speed() {
    assert_eq!(context(17, 1, 2, 0, 4).run_right(), context(17, 1, 2, 4, 4));
    assert_eq!(context(17, 1, 2, 4, 4).run_right(), context(17, 1, 2, 8, 4));
}

#[test]
fn set_vertical_velocity_sets_it() {
    assert_eq!(context(17, 1, 2, 3, 4).set_vertical_velocity(-25), context(17, 1, 2, 3, -25));
}

#[test]
fn stop_keeps_the_vertical_velocity() {
    assert_eq!(context(17, 1, 2, 3, 4).stop(), context(17, 1, 2, 0, 4));
}

#[test]
fn set_on_puts_the_character_a_player_height_above_the_surface() {
    assert_eq!(context(17, 1, 2, 3, 4).set_on(150), context(17, 1, 29, 3, 4));
    assert_eq!(context(17, 1, 2, 3, 4).set_on(600), context(17, 1, 479, 3, 4));
    assert_eq!(context(17, 1, 2, 3, 4).set_on(420), context(17, 1, 299, 3, 4));
}
