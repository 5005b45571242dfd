//! Speed-dependent footstep cadence.
//!
//! A repeating timer whose period is recomputed from the player's current
//! speed every tick before ticking: the faster the player moves, the shorter
//! the interval, down to a fixed floor. When the timer completes while the
//! player is actually moving, a footstep event is emitted and the stepping
//! foot alternates.

use vstd::prelude::*;

use crate::config::FOOTSTEP_BASE;
use crate::config::FOOTSTEP_FLOOR;
use crate::config::FOOTSTEP_MIN_SPEED;
use crate::config::FOOTSTEP_SPEED_CONST;
use crate::timer::Timer;

verus! {

/// Which foot a footstep event landed on.
#[derive(Clone, Copy, Debug, PartialEq, Eq, Structural)]
pub enum FootSide {
    Left,
    Right,
}

/// A footstep happened this tick, on the given foot.
#[derive(Clone, Copy, Debug, PartialEq, Eq, Structural)]
pub struct FootstepEvent {
    pub foot_side: FootSide,
}

/// The footstep interval for a player moving at `speed` milliunits per tick,
/// in microseconds: a base constant times a speed factor that shrinks
/// linearly as speed grows, but never below its floor.
pub open spec fn spec_footstep_interval(speed: int) -> int {
    FOOTSTEP_BASE * vstd::math::max(FOOTSTEP_FLOOR as int, FOOTSTEP_SPEED_CONST - speed)
}

/// Computes the footstep interval for the given speed.
pub fn footstep_interval(speed: i64) -> (r: u64)
    requires
        speed >= 0,
    ensures
        r == spec_footstep_interval(speed as int),
{
    let factor: u64 = if speed >= 0 && (speed as u64) <= FOOTSTEP_SPEED_CONST - FOOTSTEP_FLOOR {
        FOOTSTEP_SPEED_CONST - (speed as u64)
    } else {
        FOOTSTEP_FLOOR
    };
    assert(factor == vstd::math::max(FOOTSTEP_FLOOR as int, FOOTSTEP_SPEED_CONST - speed));
    assert(FOOTSTEP_BASE * factor == 20 * factor <= 20 * 15000) by (nonlinear_arith)
        requires factor <= 15000u64, FOOTSTEP_BASE == 20u64;
    FOOTSTEP_BASE * factor
}

/// Cadence law: a faster player never waits longer between footsteps; the
/// interval is strictly shorter while the speed factor is above its floor,
/// and never drops below the floor interval.
pub proof fn lemma_footstep_interval_monotonic(s1: int, s2: int)
    requires
        0 <= s1 <= s2,
    ensures
        spec_footstep_interval(s2) <= spec_footstep_interval(s1),
        spec_footstep_interval(s2) >= FOOTSTEP_BASE * FOOTSTEP_FLOOR,
        s1 < s2 <= FOOTSTEP_SPEED_CONST - FOOTSTEP_FLOOR ==> spec_footstep_interval(s2)
            < spec_footstep_interval(s1),
{
    let f1 = vstd::math::max(FOOTSTEP_FLOOR as int, FOOTSTEP_SPEED_CONST - s1);
    let f2 = vstd::math::max(FOOTSTEP_FLOOR as int, FOOTSTEP_SPEED_CONST - s2);
    assert(FOOTSTEP_FLOOR <= f2 <= f1);
    assert(FOOTSTEP_BASE * f2 <= FOOTSTEP_BASE * f1) by (nonlinear_arith)
        requires 0 <= f2 <= f1, FOOTSTEP_BASE == 20u64;
    assert(FOOTSTEP_BASE * FOOTSTEP_FLOOR <= FOOTSTEP_BASE * f2) by (nonlinear_arith)
        requires FOOTSTEP_FLOOR <= f2, FOOTSTEP_BASE == 20u64;
    if s1 < s2 <= FOOTSTEP_SPEED_CONST - FOOTSTEP_FLOOR {
        assert(f2 < f1);
        assert(FOOTSTEP_BASE * f2 < FOOTSTEP_BASE * f1) by (nonlinear_arith)
            requires 0 <= f2 < f1, FOOTSTEP_BASE == 20u64;
    }
}

/// One cadence tick: recomputes the timer period from the current speed,
/// advances the timer, and — when it completes while the player moves faster
/// than the minimum — alternates the stepping foot and reports it.
pub fn footsteps_tick(timer: &mut Timer, used_left_foot: &mut bool, speed: i64, delta: u64) -> (r:
    Option<FootstepEvent>)
    requires
        old(timer).wf(),
        speed >= 0,
        delta <= crate::timer::TIME_LIMIT,
    ensures
        final(timer).wf(),
        final(timer).duration == spec_footstep_interval(speed as int),
        ({
            let fired = old(timer).elapsed + delta >= spec_footstep_interval(speed as int);
            let stepped = fired && speed > FOOTSTEP_MIN_SPEED;
            &&& final(timer).just_finished == fired
            &&& final(timer).elapsed == if fired {
                (old(timer).elapsed + delta) % spec_footstep_interval(speed as int)
            } else {
                old(timer).elapsed + delta
            }
            &&& *final(used_left_foot) == if stepped {
                !*old(used_left_foot)
            } else {
                *old(used_left_foot)
            }
            &&& r == if stepped {
                Some(
                    FootstepEvent {
                        foot_side: if *final(used_left_foot) {
                            FootSide::Left
                        } else {
                            FootSide::Right
                        },
                    },
                )
            } else {
                None::<FootstepEvent>
            }
        }),
{
    let interval = footstep_interval(speed);
    assert(interval >= FOOTSTEP_BASE * FOOTSTEP_FLOOR >= 1) by {
        lemma_footstep_interval_monotonic(speed as int, speed as int);
    }
    timer.set_duration(interval);
    timer.tick(delta);
    if speed > FOOTSTEP_MIN_SPEED && timer.just_finished {
        *used_left_foot = !*used_left_foot;
        let side = if *used_left_foot {
            FootSide::Left
        } else {
            FootSide::Right
        };
        Some(FootstepEvent { foot_side: side })
    } else {
        None
    }
}

} // verus!
