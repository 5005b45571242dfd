//! Tests of the repeating timer and the footstep cadence.

use echoed_footsteps::FootSide;
use echoed_footsteps::Timer;
use echoed_footsteps::config::FOOTSTEP_MIN_SPEED;
use echoed_footsteps::footstep_interval;
use echoed_footsteps::footsteps_tick;

#[test]
fn timer_completion_is_edge_triggered() {
    let mut t = Timer::new(1_000);
    t.tick(999);
    assert!(!t.just_finished);
    assert_eq!(t.elapsed, 999);
    t.tick(1);
    assert!(t.just_finished);
    assert_eq!(t.elapsed, 0);
    t.tick(500);
    assert!(!t.just_finished);
    assert_eq!(t.elapsed, 500);
}

#[test]
fn timer_wraps_overshoot() {
    let mut t = Timer::new(1_000);
    t.tick(2_300);
    assert!(t.just_finished);
    assert_eq!(t.elapsed, 300);
}

#[test]
fn timer_phase_offset() {
    let mut t = Timer::new(2_000);
    t.set_elapsed(1_500);
    t.tick(600);
    assert!(t.just_finished);
    assert_eq!(t.elapsed, 100);
}

#[test]
fn footstep_interval_formula() {
    // interval = 20 * max(110, 15000 - speed) microseconds.
    assert_eq!(footstep_interval(0), 300_000);
    assert_eq!(footstep_interval(1_000), 280_000);
    assert_eq!(footstep_interval(12_000), 60_000);
    // At and past the floor.
    assert_eq!(footstep_interval(14_890), 2_200);
    assert_eq!(footstep_interval(15_000), 2_200);
    assert_eq!(footstep_interval(100_000), 2_200);
}

#[test]
fn footstep_interval_monotone_in_speed() {
    let mut prev = footstep_interval(0);
    for s in 1..40 {
        let cur = footstep_interval(s * 500);
        assert!(cur <= prev);
        prev = cur;
    }
}

#[test]
fn footsteps_alternate_feet() {
    let mut timer = Timer::new(20_000);
    let mut left = false;
    // Fast enough, and the tick completes the interval.
    let ev = footsteps_tick(&mut timer, &mut left, 12_000, 100_000);
    assert_eq!(ev.map(|e| e.foot_side), Some(FootSide::Left));
    assert!(left);
    let ev2 = footsteps_tick(&mut timer, &mut left, 12_000, 100_000);
    assert_eq!(ev2.map(|e| e.foot_side), Some(FootSide::Right));
    assert!(!left);
}

#[test]
fn footsteps_silent_below_speed_threshold() {
    let mut timer = Timer::new(20_000);
    let mut left = false;
    let ev = footsteps_tick(&mut timer, &mut left, FOOTSTEP_MIN_SPEED, 1_000_000);
    assert!(ev.is_none());
    assert!(!left);
}

#[test]
fn footsteps_silent_before_interval_elapses() {
    let mut timer = Timer::new(20_000);
    let mut left = false;
    // Speed 12_000 gives a 60_000 microsecond interval; a 10_000 tick is
    // not enough to complete it.
    let ev = footsteps_tick(&mut timer, &mut left, 12_000, 10_000);
    assert!(ev.is_none());
    assert_eq!(timer.elapsed, 10_000);
    assert_eq!(timer.duration, 60_000);
}
