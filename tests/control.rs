use platformer_test::geometry::Vec2;
use platformer_test::input::{ActionState, AxisState, Input};
use platformer_test::player::{jump_impulse_of, Player, PlayerProperties, SlideSide, State};
use platformer_test::sides::{CollisionSide, Side};

const UNIT: i64 = 16000;
const DT: u64 = 16667;

fn input(jump: ActionState, x: i32) -> Input {
    Input { jump, horizontal: AxisState(x) }
}

#[test]
fn sliding_caps_the_fall_speed() {
    let mut p = Player::new(PlayerProperties::default());
    p.state = State::Sliding { side: SlideSide::Left };
    let mut v = Vec2::new(0, -40 * UNIT);
    p.update(&mut v, &input(ActionState::Released, 0), 1_000_000, DT);
    assert_eq!(v.y, -15 * UNIT);
}

#[test]
fn sliding_does_not_cap_rising() {
    let mut p = Player::new(PlayerProperties::default());
    p.state = State::Sliding { side: SlideSide::Right };
    let mut v = Vec2::new(0, 20 * UNIT);
    p.update(&mut v, &input(ActionState::Released, 0), 1_000_000, DT);
    assert_eq!(v.y, 20 * UNIT - 26667);
}

#[test]
fn gravity_and_terminal_speed() {
    let mut p = Player::new(PlayerProperties::default());
    let mut v = Vec2::new(0, 0);
    p.update(&mut v, &input(ActionState::Released, 0), 0, DT);
    assert_eq!(v.y, -26667);
    let mut v = Vec2::new(0, -45 * UNIT);
    p.update(&mut v, &input(ActionState::Released, 0), 0, DT);
    assert_eq!(v.y, -45 * UNIT);
    // Holding jump on the way up uses the lighter jump gravity.
    let mut v = Vec2::new(0, 10 * UNIT);
    p.update(&mut v, &input(ActionState::Held, 0), 0, DT);
    assert_eq!(v.y, 10 * UNIT - 15200);
}

#[test]
fn deceleration_stops_without_overshoot() {
    let mut p = Player::new(PlayerProperties::default());
    p.state = State::Grounded;
    let mut v = Vec2::new(10000, 0);
    p.update(&mut v, &input(ActionState::Released, 0), 0, DT);
    assert_eq!(v.x, 0);
    let mut v = Vec2::new(-100000, 0);
    p.state = State::Grounded;
    p.update(&mut v, &input(ActionState::Released, 0), 0, DT);
    assert_eq!(v.x, -100000 + 17333);
}

#[test]
fn acceleration_and_direction_change() {
    let mut p = Player::new(PlayerProperties::default());
    p.state = State::Grounded;
    let mut v = Vec2::new(0, 0);
    p.update(&mut v, &input(ActionState::Released, 1000), 1_000_000, DT);
    assert_eq!(v.x, 22667);
    p.state = State::Grounded;
    let mut v = Vec2::new(50000, 0);
    p.update(&mut v, &input(ActionState::Released, -500), 1_000_000, DT);
    assert_eq!(v.x, 50000 - 16667);
    p.state = State::Grounded;
    let mut v = Vec2::new(12 * UNIT, 0);
    p.update(&mut v, &input(ActionState::Released, 1000), 1_000_000, DT);
    assert_eq!(v.x, 12 * UNIT);
}

#[test]
fn steering_is_ignored_right_after_a_wall_jump() {
    let mut p = Player::new(PlayerProperties::default());
    p.last_walljump_time = 1_000_000;
    let mut v = Vec2::new(10 * UNIT, 0);
    p.update(&mut v, &input(ActionState::Released, -1000), 1_100_000, DT);
    assert_eq!(v.x, 10 * UNIT);
}

#[test]
fn wall_jump_pushes_away_from_the_wall() {
    let mut p = Player::new(PlayerProperties::default());
    p.state = State::Sliding { side: SlideSide::Left };
    let mut v = Vec2::new(0, -5 * UNIT);
    p.update(&mut v, &input(ActionState::JustPressed, 0), 2_000_000, DT);
    assert_eq!(v, Vec2::new(10 * UNIT, 20 * UNIT));
    assert!(!p.pressed_jump);
    assert_eq!(p.last_walljump_time, 2_000_000);
}

#[test]
fn jumps_fall_off_geometrically() {
    assert_eq!(jump_impulse_of(22 * UNIT, 800, 0), 352000);
    assert_eq!(jump_impulse_of(22 * UNIT, 800, 1), 281600);
    assert_eq!(jump_impulse_of(22 * UNIT, 800, 2), 225280);
    assert_eq!(jump_impulse_of(1001, 500, 2), 250);
}

#[test]
fn grounded_then_double_jump() {
    let mut p = Player::new(PlayerProperties::default());
    p.state = State::Grounded;
    let mut v = Vec2::zero();
    p.update(&mut v, &input(ActionState::JustPressed, 0), 1_000_000, DT);
    assert_eq!(v.y, 352000);
    assert_eq!(p.times_jumped_since_grounded, 1);
    assert!(p.can_jump);
    p.state = State::Airborne;
    let mut v = Vec2::zero();
    p.update(&mut v, &input(ActionState::JustPressed, 0), 1_050_000, DT);
    assert_eq!(v.y, 281600);
    assert_eq!(p.times_jumped_since_grounded, 2);
    assert!(!p.can_jump);
    let mut v = Vec2::zero();
    p.update(&mut v, &input(ActionState::JustPressed, 0), 1_100_000, DT);
    assert_eq!(v.y, -26667);
}

fn airborne_after_leaving_ground(left_at: u64) -> Player {
    let mut p = Player::new(PlayerProperties::default());
    p.can_jump = true;
    p.last_grounded_time = left_at;
    p
}

#[test]
fn coyote_jump_just_inside_the_window_is_the_first() {
    let mut p = airborne_after_leaving_ground(1_000_000);
    let mut v = Vec2::zero();
    p.update(&mut v, &input(ActionState::JustPressed, 0), 1_099_999, DT);
    assert_eq!(v.y, 352000);
    assert_eq!(p.times_jumped_since_grounded, 1);
}

#[test]
fn coyote_jump_just_after_the_window_is_the_second() {
    let mut p = airborne_after_leaving_ground(1_000_000);
    let mut v = Vec2::zero();
    p.update(&mut v, &input(ActionState::JustPressed, 0), 1_100_001, DT);
    assert_eq!(v.y, 281600);
    assert_eq!(p.times_jumped_since_grounded, 2);
}

#[test]
fn coyote_time_forfeits_one_jump_silently() {
    let mut p = airborne_after_leaving_ground(1_000_000);
    let mut v = Vec2::zero();
    p.update(&mut v, &input(ActionState::Released, 0), 1_100_000, DT);
    assert_eq!(p.times_jumped_since_grounded, 0);
    p.update(&mut v, &input(ActionState::Released, 0), 1_100_001, DT);
    assert_eq!(p.times_jumped_since_grounded, 1);
    assert!(p.can_jump);
}

/// A player in the air with no jump left presses jump at `pressed`, lands on the tick at
/// `landing`, and the next tick runs on the ground. Returns the vertical speed then.
fn land_after_press(pressed: u64, landing: u64) -> (i64, Player) {
    let mut p = Player::new(PlayerProperties::default());
    p.times_jumped_since_grounded = 2;
    let mut v = Vec2::zero();
    p.update(&mut v, &input(ActionState::JustPressed, 0), pressed, DT);
    assert!(p.pressed_jump);
    p.update(&mut v, &input(ActionState::Held, 0), landing, DT);
    let mut down = CollisionSide::empty();
    down.insert(Side::Down);
    p.set_state(down, false, false, v.x);
    assert_eq!(p.state, State::Grounded);
    let mut v = Vec2::zero();
    p.update(&mut v, &input(ActionState::Held, 0), landing + DT, DT);
    (v.y, p)
}

#[test]
fn buffered_jump_inside_the_buffer_fires_on_landing() {
    let (vy, p) = land_after_press(1_000_000, 1_000_000 + 150_000 - 1);
    assert_eq!(vy, 352000);
    assert_eq!(p.times_jumped_since_grounded, 1);
}

#[test]
fn buffered_jump_past_the_buffer_is_dropped() {
    let (vy, p) = land_after_press(1_000_000, 1_000_000 + 150_000 + 1);
    assert_eq!(vy, -26667);
    assert_eq!(p.times_jumped_since_grounded, 0);
    assert!(!p.pressed_jump);
}

#[test]
fn pushing_off_a_wall_leaves_sliding() {
    let mut p = Player::new(PlayerProperties::default());
    p.state = State::Sliding { side: SlideSide::Left };
    p.set_state(CollisionSide::empty(), true, false, 100);
    assert_eq!(p.state, State::Airborne);
    p.state = State::Sliding { side: SlideSide::Left };
    p.set_state(CollisionSide::empty(), true, false, 0);
    assert_eq!(p.state, State::Sliding { side: SlideSide::Left });
    p.set_state(CollisionSide::empty(), false, true, 0);
    assert_eq!(p.state, State::Sliding { side: SlideSide::Right });
    p.set_state(CollisionSide::empty(), false, false, 0);
    assert_eq!(p.state, State::Airborne);
}

#[test]
fn new_players_start_in_the_air() {
    let p = Player::new(PlayerProperties::default());
    assert_eq!(p.state, State::Airborne);
    assert_eq!(State::default(), State::Airborne);
    assert!(!p.can_jump && !p.pressed_jump);
    assert_eq!(PlayerProperties::default().max_run_speed, 12 * UNIT);
}
