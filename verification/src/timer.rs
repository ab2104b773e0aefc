//! A reusable countdown value type: `(elapsed, duration)` in milliseconds.
//!
//! Door opening and entity fade-out are both driven by this timer.  It is
//! monotonic: advancing never decreases the elapsed time, and once finished
//! it stays finished.

use vstd::prelude::*;
use crate::units::{DT_LIMIT, TIMER_LIMIT};

verus! {

/// A one-shot timer over a fixed duration.
#[derive(Clone, Copy, PartialEq, Eq, Structural, Debug)]
pub struct EffectTimer {
    pub elapsed: i64,
    pub duration: i64,
}

/// A well-formed timer: positive bounded duration, elapsed time inside it.
pub open spec fn timer_wf(t: EffectTimer) -> bool {
    &&& 0 < t.duration <= TIMER_LIMIT
    &&& 0 <= t.elapsed <= t.duration
}

/// The timer after `dt` has elapsed: elapsed time grows by `dt`, capped at
/// the duration.
pub open spec fn timer_advance_spec(t: EffectTimer, dt: int) -> EffectTimer {
    EffectTimer {
        elapsed: if t.elapsed + dt >= t.duration {
            t.duration
        } else {
            (t.elapsed + dt) as i64
        },
        duration: t.duration,
    }
}

/// The fraction of the duration that has elapsed, in permille.
pub open spec fn timer_progress_spec(t: EffectTimer) -> int {
    (t.elapsed * 1000) / (t.duration as int)
}

impl EffectTimer {
    /// A fresh timer that has not yet advanced.
    pub fn new(duration: i64) -> (t: EffectTimer)
        requires
            0 < duration <= TIMER_LIMIT,
        ensures
            t == (EffectTimer { elapsed: 0, duration }),
            timer_wf(t),
    {
        EffectTimer { elapsed: 0, duration }
    }

    /// Advances the timer by `dt` milliseconds, capped at the duration;
    /// the elapsed time never decreases.
    pub fn advance(&mut self, dt: i64)
        requires
            timer_wf(*old(self)),
            0 <= dt <= DT_LIMIT,
        ensures
            *final(self) == timer_advance_spec(*old(self), dt as int),
            timer_wf(*final(self)),
            final(self).elapsed >= old(self).elapsed,
    {
        if self.elapsed + dt >= self.duration {
            self.elapsed = self.duration;
        } else {
            self.elapsed = self.elapsed + dt;
        }
    }

    /// The elapsed fraction of the duration in permille: 0 when fresh,
    /// 1000 exactly when finished.
    pub fn progress_permille(&self) -> (p: i64)
        requires
            timer_wf(*self),
        ensures
            p == timer_progress_spec(*self),
            0 <= p <= 1000,
            (p == 1000) == (self.elapsed == self.duration),
    {
        proof {
            assert(0 <= (self.elapsed * 1000) / (self.duration as int) <= 1000 && ((self.elapsed * 1000)
                / (self.duration as int) == 1000) == (self.elapsed == self.duration)) by (nonlinear_arith)
                requires
                    0 < self.duration,
                    0 <= self.elapsed <= self.duration,
            ;
        }
        ((self.elapsed as u64 * 1000) / (self.duration as u64)) as i64
    }

    /// Whether the timer has run its full duration.
    pub fn finished(&self) -> (r: bool)
        requires
            timer_wf(*self),
        ensures
            r == (self.elapsed == self.duration),
    {
        self.elapsed >= self.duration
    }
}

/// Advancing a timer never reduces its progress: the interpolations driven
/// by it (door offset, fade opacity) are monotonic.
pub proof fn lemma_timer_progress_monotonic(t: EffectTimer, dt: int)
    requires
        timer_wf(t),
        0 <= dt,
    ensures
        timer_progress_spec(timer_advance_spec(t, dt)) >= timer_progress_spec(t),
{
    let t2 = timer_advance_spec(t, dt);
    assert(t2.elapsed >= t.elapsed);
    assert((t2.elapsed * 1000) / (t.duration as int) >= (t.elapsed * 1000) / (t.duration as int))
        by (nonlinear_arith)
        requires
            0 < t.duration,
            t2.elapsed >= t.elapsed,
    ;
}

} // verus!
