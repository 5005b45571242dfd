//! Repeating countdown timer with edge-triggered completion.
//!
//! A timer accumulates elapsed microseconds; a tick that reaches the duration
//! reports completion for that tick only and wraps the accumulator, so a
//! caller polling `just_finished` sees one completion per crossed period.

use vstd::prelude::*;

verus! {

/// Largest duration, phase or tick delta a timer accepts, in microseconds.
pub const TIME_LIMIT: u64 = 0x1_0000_0000;

/// A repeating timer: elapsed time below the duration, completion latched for
/// one tick.
#[derive(Clone, Copy, Debug, PartialEq, Eq, Structural)]
pub struct Timer {
    pub duration: u64,
    pub elapsed: u64,
    pub just_finished: bool,
}

/// The timer after one tick of `delta`: completion exactly when the
/// accumulated time reaches the duration, wrapping the overshoot.
pub open spec fn spec_timer_tick(t: Timer, delta: int) -> Timer {
    if t.elapsed + delta >= t.duration {
        Timer {
            duration: t.duration,
            elapsed: ((t.elapsed + delta) % (t.duration as int)) as u64,
            just_finished: true,
        }
    } else {
        Timer { duration: t.duration, elapsed: (t.elapsed + delta) as u64, just_finished: false }
    }
}

impl Timer {
    /// Positive, bounded duration; bounded accumulator.
    pub open spec fn wf(&self) -> bool {
        &&& 1 <= self.duration <= TIME_LIMIT
        &&& self.elapsed <= TIME_LIMIT
    }

    /// A fresh timer with the given period that has not run yet.
    pub fn new(duration: u64) -> (r: Timer)
        requires
            1 <= duration <= TIME_LIMIT,
        ensures
            r.wf(),
            r.duration == duration,
            r.elapsed == 0,
            !r.just_finished,
    {
        Timer { duration, elapsed: 0, just_finished: false }
    }

    /// Moves the accumulator, e.g. to start mid-period with a phase offset.
    pub fn set_elapsed(&mut self, elapsed: u64)
        requires
            old(self).wf(),
            elapsed <= TIME_LIMIT,
        ensures
            final(self).wf(),
            *final(self) == (Timer { elapsed, ..*old(self) }),
    {
        self.elapsed = elapsed;
    }

    /// Changes the period; the accumulated time is kept, so shortening the
    /// period can make the next tick complete at once.
    pub fn set_duration(&mut self, duration: u64)
        requires
            old(self).wf(),
            1 <= duration <= TIME_LIMIT,
        ensures
            final(self).wf(),
            *final(self) == (Timer { duration, ..*old(self) }),
    {
        self.duration = duration;
    }

    /// Advances the timer by `delta`. The timer completes exactly when the
    /// accumulated time reaches the duration; it then wraps, keeping the
    /// overshoot modulo the period.
    pub fn tick(&mut self, delta: u64)
        requires
            old(self).wf(),
            delta <= TIME_LIMIT,
        ensures
            final(self).wf(),
            *final(self) == spec_timer_tick(*old(self), delta as int),
    {
        let total = self.elapsed + delta;
        if total >= self.duration {
            proof {
                vstd::arithmetic::div_mod::lemma_mod_division_less_than_divisor(
                    total as int,
                    self.duration as int,
                );
            }
            self.elapsed = total % self.duration;
            self.just_finished = true;
        } else {
            self.elapsed = total;
            self.just_finished = false;
        }
    }
}

} // verus!
