use shadow_chaser::components::CharacterController;
use shadow_chaser::input::{InputState, Key};
use shadow_chaser::math::{Timestep, Vec2, SCALE};
use shadow_chaser::player_control::{
    PlayerControlSystem, SweepResult, GROUNDED_MIN_FALL, JUMP_SPEED, MOVE_SPEED,
};

fn sixty_hz() -> Timestep {
    Timestep { num: 1, den: 60 }
}

fn down_gravity() -> Vec2 {
    Vec2 { x: 0, y: -2000 * SCALE }
}

fn at_rest() -> CharacterController {
    CharacterController::new()
}

fn free(dx: i64, dy: i64) -> SweepResult {
    SweepResult { allowed: Vec2 { x: dx, y: dy }, grounded: false }
}

fn blocked_floor() -> SweepResult {
    SweepResult { allowed: Vec2 { x: 0, y: 0 }, grounded: true }
}

#[test]
fn airborne_gravity_integrates_exactly() {
    let dt = sixty_hz();
    let input = InputState::new();
    let v = PlayerControlSystem::update_velocity(&at_rest(), false, &input, down_gravity(), &dt);
    // -2000 * SCALE / 60, truncated toward zero
    assert_eq!(v.y, -33_333_333);
    assert_eq!(v.x, 0);
}

#[test]
fn grounded_clamp_holds_fall_speed() {
    let dt = sixty_hz();
    let input = InputState::new();
    let v = PlayerControlSystem::update_velocity(&at_rest(), true, &input, down_gravity(), &dt);
    // one tick of gravity would reach -33.33 units/s; the clamp holds -1.0
    assert_eq!(v.y, GROUNDED_MIN_FALL);
    assert!(v.y >= -SCALE);
}

#[test]
fn horizontal_velocity_converges_without_overshoot() {
    let dt = sixty_hz();
    let gravity = Vec2 { x: 0, y: 0 };
    let mut input = InputState::new();
    input.key_pressed(Key::Right);
    let mut ctl = at_rest();
    // first two smoothing steps, exactly
    let v1 = PlayerControlSystem::update_velocity(&ctl, false, &input, gravity, &dt);
    assert_eq!(v1.x, 80_000_000);
    ctl.velocity = v1;
    let v2 = PlayerControlSystem::update_velocity(&ctl, false, &input, gravity, &dt);
    assert_eq!(v2.x, 144_000_000);
    ctl.velocity = v2;
    // and the approach stays monotone, never passing the target
    let mut previous_gap = MOVE_SPEED - ctl.velocity.x;
    for _ in 0..200 {
        let v = PlayerControlSystem::update_velocity(&ctl, false, &input, gravity, &dt);
        let gap = MOVE_SPEED - v.x;
        assert!(gap >= 0, "overshot the desired speed");
        assert!(gap <= previous_gap, "moved away from the desired speed");
        previous_gap = gap;
        ctl.velocity = v;
    }
}

#[test]
fn left_key_wins_over_right() {
    let dt = sixty_hz();
    let gravity = Vec2 { x: 0, y: 0 };
    let mut input = InputState::new();
    input.key_pressed(Key::Right);
    input.key_pressed(Key::Left);
    let v = PlayerControlSystem::update_velocity(&at_rest(), false, &input, gravity, &dt);
    assert_eq!(v.x, -MOVE_SPEED / 5);
}

#[test]
fn jump_launches_straight_up() {
    let dt = sixty_hz();
    let mut input = InputState::new();
    input.key_pressed(Key::Right);
    input.key_pressed(Key::Jump);
    let moving = CharacterController { velocity: Vec2 { x: 250 * SCALE, y: -5 * SCALE } };
    let v = PlayerControlSystem::update_velocity(&moving, true, &input, down_gravity(), &dt);
    assert_eq!(v.y, JUMP_SPEED);
    assert_eq!(v.x, 0);
}

#[test]
fn airborne_jump_is_ignored() {
    let dt = sixty_hz();
    let mut with_jump = InputState::new();
    with_jump.key_pressed(Key::Right);
    with_jump.key_pressed(Key::Jump);
    let mut without_jump = InputState::new();
    without_jump.key_pressed(Key::Right);
    let moving = CharacterController { velocity: Vec2 { x: 250 * SCALE, y: -5 * SCALE } };
    let a = PlayerControlSystem::update_velocity(&moving, false, &with_jump, down_gravity(), &dt);
    let b = PlayerControlSystem::update_velocity(
        &moving,
        false,
        &without_jump,
        down_gravity(),
        &dt,
    );
    assert_eq!(a, b);
}

#[test]
fn horizontal_block_leaves_vertical_outcome_alone() {
    let dt = sixty_hz();
    let start = Vec2 { x: 10 * SCALE, y: 20 * SCALE };
    let velocity = Vec2 { x: 100 * SCALE, y: -30 * SCALE };
    let falling = free(0, -500_000);
    // a wall stops all horizontal movement; free air lets it through
    let wall = free(0, 0);
    let open = free(1_666_666, 0);
    let blocked = PlayerControlSystem::resolve_tick(start, velocity, &wall, &falling, &dt);
    let unblocked = PlayerControlSystem::resolve_tick(start, velocity, &open, &falling, &dt);
    // vertical displacement and velocity agree exactly
    assert_eq!(blocked.position.y, unblocked.position.y);
    assert_eq!(blocked.velocity.y, unblocked.velocity.y);
    assert_eq!(blocked.grounded, unblocked.grounded);
    // and the horizontal outcomes differ only by what each sweep allowed
    assert_eq!(blocked.position.x, start.x);
    assert_eq!(unblocked.position.x, start.x + 1_666_666);
    assert_eq!(blocked.velocity.x, 0);
}

#[test]
fn vertical_block_leaves_horizontal_outcome_alone() {
    let dt = sixty_hz();
    let start = Vec2 { x: 10 * SCALE, y: 20 * SCALE };
    let velocity = Vec2 { x: 100 * SCALE, y: -30 * SCALE };
    let step = free(1_666_666, 0);
    let floor = blocked_floor();
    let open = free(0, -500_000);
    let on_floor = PlayerControlSystem::resolve_tick(start, velocity, &step, &floor, &dt);
    let in_air = PlayerControlSystem::resolve_tick(start, velocity, &step, &open, &dt);
    assert_eq!(on_floor.position.x, in_air.position.x);
    assert_eq!(on_floor.velocity.x, in_air.velocity.x);
    assert_eq!(on_floor.position.y, start.y);
    assert_eq!(in_air.position.y, start.y - 500_000);
}

#[test]
fn grounded_tracks_vertical_sweep_exactly() {
    let dt = sixty_hz();
    let start = Vec2 { x: 0, y: 0 };
    let velocity = Vec2 { x: 0, y: -SCALE };
    let h = free(0, 0);
    let hit = PlayerControlSystem::resolve_tick(start, velocity, &h, &blocked_floor(), &dt);
    assert!(hit.grounded);
    let miss = PlayerControlSystem::resolve_tick(start, velocity, &h, &free(0, -100), &dt);
    assert!(!miss.grounded);
}

#[test]
fn rest_on_floor_is_stable() {
    let dt = sixty_hz();
    let input = InputState::new();
    let start = Vec2 { x: 0, y: -240 * SCALE };
    // grounded, at rest, no input: integrate...
    let v = PlayerControlSystem::update_velocity(&at_rest(), true, &input, down_gravity(), &dt);
    assert_eq!(v.x, 0);
    assert_eq!(v.y, GROUNDED_MIN_FALL);
    // ...so the horizontal sweep is skipped entirely...
    let d = PlayerControlSystem::desired_displacement(v, &dt);
    assert_eq!(d.x, 0);
    assert!(!PlayerControlSystem::horizontal_sweep_needed(d.x));
    // ...and the floor blocks the tiny downward intent
    let r = PlayerControlSystem::resolve_tick(start, v, &free(0, 0), &blocked_floor(), &dt);
    assert_eq!(r.position, start);
    assert_eq!(r.velocity, Vec2 { x: 0, y: 0 });
    assert!(r.grounded);
}

#[test]
fn three_ticks_of_free_fall() {
    let dt = sixty_hz();
    let input = InputState::new();
    let mut ctl = at_rest();
    let mut pos = Vec2 { x: 0, y: 100 * SCALE };
    let mut grounded = false;
    for _ in 0..3 {
        let v = PlayerControlSystem::update_velocity(&ctl, grounded, &input, down_gravity(), &dt);
        let d = PlayerControlSystem::desired_displacement(v, &dt);
        // no ground within reach: both sweeps allow the full displacement
        let h = if PlayerControlSystem::horizontal_sweep_needed(d.x) {
            free(d.x, 0)
        } else {
            free(0, 0)
        };
        let r = PlayerControlSystem::resolve_tick(pos, v, &h, &free(0, d.y), &dt);
        pos = r.position;
        ctl.velocity = r.velocity;
        grounded = r.grounded;
    }
    assert!(!grounded);
    // velocity.y after three ticks is -2000 * 3/60 = -100 units/s, up to the
    // fixed-point rounding of each tick
    assert_eq!(ctl.velocity.y, -99_999_900);
    let units = ctl.velocity.y as f64 / SCALE as f64;
    assert!((units + 100.0).abs() < 0.001);
    assert_eq!(pos.y, 96_666_670);
}

#[test]
fn jump_key_fires_exactly_once() {
    let dt = sixty_hz();
    let mut input = InputState::new();
    let mut ctl = at_rest();

    // the player presses and holds the jump key
    input.key_pressed(Key::Jump);
    assert!(input.jump_pressed);

    // tick one: grounded, flag set: launch
    let v1 = PlayerControlSystem::update_velocity(&ctl, true, &input, down_gravity(), &dt);
    assert_eq!(v1.y, JUMP_SPEED);
    ctl.velocity = v1;
    shadow_chaser::input::InputResetSystem::run(&mut input);
    assert!(!input.jump_pressed);

    // the key is still held: the OS repeats the press event, but the edge
    // does not re-arm
    input.key_pressed(Key::Jump);
    assert!(!input.jump_pressed);

    // tick two: still grounded, no pending jump: no re-launch
    let v2 = PlayerControlSystem::update_velocity(&ctl, true, &input, down_gravity(), &dt);
    assert_ne!(v2.y, JUMP_SPEED);

    // releasing and pressing again arms a new jump
    input.key_released(Key::Jump);
    input.key_pressed(Key::Jump);
    assert!(input.jump_pressed);
}

#[test]
fn zero_timestep_skips_reconciliation() {
    let dt = Timestep { num: 0, den: 60 };
    let velocity = Vec2 { x: 7, y: -9 };
    let r = PlayerControlSystem::resolve_tick(
        Vec2 { x: 0, y: 0 },
        velocity,
        &free(0, 0),
        &free(0, 0),
        &dt,
    );
    assert_eq!(r.velocity, velocity);
}

#[test]
fn sweep_epsilon_threshold() {
    assert!(!PlayerControlSystem::horizontal_sweep_needed(0));
    assert!(!PlayerControlSystem::horizontal_sweep_needed(1));
    assert!(!PlayerControlSystem::horizontal_sweep_needed(-1));
    assert!(PlayerControlSystem::horizontal_sweep_needed(2));
    assert!(PlayerControlSystem::horizontal_sweep_needed(-2));
}
