use std::f64::consts::TAU;

use teapot::animation::{
    FrameState, FRAMES_PER_SECOND, FRAMES_PER_TURN, FRAME_NANOS, NANOS_PER_SECOND, SECONDS_PER_TURN,
};
use teapot::units::Angle;

fn radians(angle: Angle) -> f64 {
    TAU * (angle.numer as f64) / (angle.denom as f64)
}

/// The distance between two angles along the circle.
fn apart(a: f64, b: f64) -> f64 {
    let d: f64 = (a - b).rem_euclid(TAU);
    d.min(TAU - d)
}

fn after(ticks: u64) -> FrameState {
    let mut state = FrameState::new();
    let mut tick: u64 = 0;
    while tick < ticks {
        state.tick();
        tick += 1;
    }
    state
}

#[test]
fn constants_have_their_values() {
    assert_eq!(NANOS_PER_SECOND, 1_000_000_000);
    assert_eq!(FRAMES_PER_SECOND, 60);
    assert_eq!(SECONDS_PER_TURN, 10);
    assert_eq!(FRAMES_PER_TURN, 600);
    assert_eq!(FRAMES_PER_TURN, SECONDS_PER_TURN * FRAMES_PER_SECOND);
    assert_eq!(FRAME_NANOS, 16_666_666);
    assert_eq!(FRAME_NANOS, NANOS_PER_SECOND / FRAMES_PER_SECOND);
}

#[test]
fn new_state_has_not_turned() {
    let state = FrameState::new();
    assert_eq!(state.frame_in_turn(), 0);
    assert_eq!(state.angle(), Angle { numer: 0, denom: 600 });
    assert_eq!(radians(state.angle()), 0.0);
}

#[test]
fn tick_advances_by_one_step() {
    let mut state = FrameState::new();
    state.tick();
    assert_eq!(state.frame_in_turn(), 1);
    assert_eq!(state.angle(), Angle { numer: 1, denom: 600 });
    state.tick();
    assert_eq!(state.frame_in_turn(), 2);
    assert_eq!(state.angle(), Angle { numer: 2, denom: 600 });
}

#[test]
fn one_step_is_the_rotation_of_a_sixtieth_of_a_second() {
    let mut state = FrameState::new();
    state.tick();
    let per_second: f64 = TAU / 10.0;
    let expected: f64 = per_second * (1.0 / 60.0);
    assert!((radians(state.angle()) - expected).abs() < 1e-12);
    assert!((radians(state.angle()) - 0.010_471_975_511_965_978).abs() < 1e-15);
}

#[test]
fn a_quarter_of_the_frames_make_a_quarter_turn() {
    let state = after(150);
    assert_eq!(state.angle(), Angle { numer: 150, denom: 600 });
    assert!((radians(state.angle()) - TAU / 4.0).abs() < 1e-12);
}

#[test]
fn tick_wraps_where_the_turn_is_complete() {
    let mut state = after(599);
    assert_eq!(state.frame_in_turn(), 599);
    assert!(radians(state.angle()) < TAU);
    state.tick();
    assert_eq!(state.frame_in_turn(), 0);
    assert_eq!(radians(state.angle()), 0.0);
    state.tick();
    assert_eq!(state.frame_in_turn(), 1);
}

#[test]
fn rotation_wraps_and_stays_in_range() {
    let mut state = FrameState::new();
    let mut wraps: u32 = 0;
    let mut tick: u32 = 0;
    while tick < 2000 {
        let before: u64 = state.frame_in_turn();
        state.tick();
        let now: u64 = state.frame_in_turn();
        assert!(now < FRAMES_PER_TURN);
        let angle = state.angle();
        assert!(angle.numer < angle.denom);
        assert!((0.0..TAU).contains(&radians(angle)));
        if now < before {
            wraps += 1;
            assert_eq!(now + FRAMES_PER_TURN, before + 1);
        } else {
            assert_eq!(now, before + 1);
        }
        tick += 1;
    }
    assert_eq!(wraps, 3);
}

#[test]
fn rotation_is_continuous_between_frames() {
    let mut state = FrameState::new();
    let step: f64 = TAU / 10.0 / 60.0;
    let mut tick: u32 = 0;
    while tick < 1500 {
        let before: f64 = radians(state.angle());
        state.tick();
        let now: f64 = radians(state.angle());
        assert!(apart(now, before) <= step + 1e-9);
        if now >= before {
            assert!(now - before <= step + 1e-9);
        } else {
            assert!((before + step - TAU - now).abs() < 1e-9);
        }
        tick += 1;
    }
}

#[test]
fn rotation_depends_on_the_frame_count_alone() {
    let mut state = FrameState::new();
    let mut frame: u64 = 0;
    while frame <= 30_000 {
        assert_eq!(state.frame_in_turn(), frame % 600);
        let expected: f64 = ((frame as f64) * (TAU / 10.0) * (1.0 / 60.0)).rem_euclid(TAU);
        assert!(apart(radians(state.angle()), expected) < 1e-5);
        state.tick();
        frame += 1;
    }
}

#[test]
fn two_runs_with_the_same_frames_agree() {
    let first = after(777);
    let second = after(777);
    assert_eq!(first.frame_in_turn(), second.frame_in_turn());
    assert_eq!(first.angle(), second.angle());
    assert_eq!(first.frame_in_turn(), 177);
}

#[test]
fn six_hundred_ticks_make_one_revolution() {
    let mut state = after(600);
    assert_eq!(state.frame_in_turn(), 0);
    assert!(apart(radians(state.angle()), 0.0) < 1e-4);
    state.tick();
    assert_eq!(state.frame_in_turn(), 1);
}

#[test]
fn whole_revolutions_return_to_the_start() {
    let start = after(123);
    let later = after(123 + 5 * 600);
    assert_eq!(start.frame_in_turn(), 123);
    assert_eq!(later.frame_in_turn(), 123);
    assert_eq!(start.angle(), later.angle());
}
