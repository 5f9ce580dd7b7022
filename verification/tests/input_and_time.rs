use shadow_chaser::input::{InputResetSystem, InputState, Key};
use shadow_chaser::math::Timestep;
use shadow_chaser::timestep::{FixedTimestep, MAX_TICKS_PER_UPDATE};

#[test]
fn keys_are_tracked_per_direction() {
    let mut input = InputState::new();
    assert!(!input.left_held && !input.right_held && !input.jump_held);
    input.key_pressed(Key::Left);
    assert!(input.left_held);
    assert!(!input.right_held);
    input.key_pressed(Key::Right);
    assert!(input.left_held && input.right_held);
    input.key_released(Key::Left);
    assert!(!input.left_held);
    assert!(input.right_held);
}

#[test]
fn movement_keys_do_not_arm_the_jump_flag() {
    let mut input = InputState::new();
    input.key_pressed(Key::Left);
    input.key_pressed(Key::Right);
    assert!(!input.jump_pressed);
}

#[test]
fn releasing_jump_does_not_clear_a_pending_edge() {
    let mut input = InputState::new();
    input.key_pressed(Key::Jump);
    input.key_released(Key::Jump);
    // the press happened this tick; only the end-of-tick reset consumes it
    assert!(input.jump_pressed);
    InputResetSystem::run(&mut input);
    assert!(!input.jump_pressed);
}

#[test]
fn reset_keeps_held_keys() {
    let mut input = InputState::new();
    input.key_pressed(Key::Left);
    input.key_pressed(Key::Jump);
    InputResetSystem::run(&mut input);
    assert!(input.left_held);
    assert!(input.jump_held);
    assert!(!input.jump_pressed);
}

#[test]
fn sixty_hz_timestep_in_fixed_point_seconds() {
    let dt = Timestep { num: 1, den: 60 };
    assert_eq!(dt.seconds_fx(), 16_666);
}

#[test]
fn accumulator_drains_whole_timesteps() {
    let mut driver = FixedTimestep::new();
    let dt_fx = Timestep { num: 1, den: 60 }.seconds_fx();
    // 35 ms arrive: two whole ticks run, the remainder stays owed
    let ticks = driver.advance(35_000, dt_fx);
    assert_eq!(ticks, 2);
    assert_eq!(driver.accumulator, 35_000 - 2 * 16_666);
    // a fast frame arrives before a whole timestep is owed: no tick runs
    let ticks = driver.advance(1_000, dt_fx);
    assert_eq!(ticks, 0);
    assert_eq!(driver.accumulator, 2_668);
}

#[test]
fn accumulator_caps_catch_up_after_a_stall() {
    let mut driver = FixedTimestep::new();
    let dt_fx = Timestep { num: 1, den: 60 }.seconds_fx();
    // a whole second of debt (60 ticks' worth) after a stall
    let ticks = driver.advance(1_000_000, dt_fx);
    assert_eq!(ticks, MAX_TICKS_PER_UPDATE);
    // the excess debt is discarded, not replayed
    assert_eq!(driver.accumulator, 1_000_000 % 16_666);
    assert!(driver.accumulator < dt_fx);
}

#[test]
fn zero_elapsed_time_runs_nothing() {
    let mut driver = FixedTimestep::new();
    let ticks = driver.advance(0, 16_666);
    assert_eq!(ticks, 0);
    assert_eq!(driver.accumulator, 0);
}
