//! Countdown timers.
//!
//! One integer-millisecond timer type serves every timed system in the
//! core: weapon cooldowns, projectile lifetimes, the hit-stun freeze and
//! the combo decay window.  Elapsed time saturates at the configured
//! duration, so once a timer has completed it stays completed until it
//! is explicitly reset by its owning system.

use vstd::prelude::*;

verus! {

#[derive(Clone, Copy, PartialEq, Eq, Structural, Debug)]
pub struct SimTimer {
    pub elapsed_ms: u64,
    pub duration_ms: u64,
}

/// Elapsed time after feeding `dt_ms` to a timer: the sum, capped at
/// the timer's duration.
pub open spec fn ticked_elapsed(t: SimTimer, dt_ms: u64) -> int {
    if t.elapsed_ms + dt_ms >= t.duration_ms {
        t.duration_ms as int
    } else {
        t.elapsed_ms + dt_ms
    }
}

impl SimTimer {
    /// A timer never holds more elapsed time than its duration.
    pub open spec fn wf(self) -> bool {
        self.elapsed_ms <= self.duration_ms
    }

    pub open spec fn finished_spec(self) -> bool {
        self.elapsed_ms >= self.duration_ms
    }

    /// A fresh, unelapsed timer.
    pub fn new(duration_ms: u64) -> (r: SimTimer)
        ensures
            r.elapsed_ms == 0,
            r.duration_ms == duration_ms,
            r.wf(),
    {
        SimTimer { elapsed_ms: 0, duration_ms }
    }

    /// Advance the timer by `dt_ms`.  Returns whether the timer crossed
    /// its duration on this very tick.
    pub fn tick(&mut self, dt_ms: u64) -> (just_finished: bool)
        requires
            old(self).wf(),
        ensures
            final(self).wf(),
            final(self).duration_ms == old(self).duration_ms,
            final(self).elapsed_ms == ticked_elapsed(*old(self), dt_ms),
            just_finished == (!old(self).finished_spec() && final(self).finished_spec()),
    {
        if dt_ms >= self.duration_ms - self.elapsed_ms {
            let was_finished = self.elapsed_ms >= self.duration_ms;
            self.elapsed_ms = self.duration_ms;
            !was_finished
        } else {
            self.elapsed_ms = self.elapsed_ms + dt_ms;
            false
        }
    }

    /// Whether the timer has completed its duration since it was last
    /// reset.
    pub fn finished(&self) -> (r: bool)
        ensures
            r == self.finished_spec(),
    {
        self.elapsed_ms >= self.duration_ms
    }

    /// Start the countdown over.
    pub fn reset(&mut self)
        ensures
            final(self).elapsed_ms == 0,
            final(self).duration_ms == old(self).duration_ms,
            final(self).wf(),
    {
        self.elapsed_ms = 0;
    }
}

} // verus!
