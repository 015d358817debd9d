//! The combo/score multiplier accumulator.
//!
//! Each kill raises the combo count and rearms a decay window; if the
//! window elapses with no kill, the count falls back to zero.  The
//! score multiplier derived from the count is capped.

use vstd::prelude::*;

use crate::fp::SCALE;
use crate::timer::{ticked_elapsed, SimTimer};

verus! {

/// The multiplier never exceeds twenty.
pub const COMBO_MULTIPLIER_CAP: i64 = 20_000_000;

/// Decay window rearmed by each kill.
pub const COMBO_DECAY_MS: u64 = 4_000;

#[derive(Clone, Copy, PartialEq, Eq, Structural, Debug)]
pub struct ComboCounter {
    pub decay_timer: SimTimer,
    pub count: u32,
}

/// The fixed-point score multiplier for a combo count:
/// `1 + count`, capped at twenty.
pub open spec fn multiplier_spec(count: u32) -> int {
    if count >= 19 {
        COMBO_MULTIPLIER_CAP as int
    } else {
        (1 + count) * SCALE
    }
}

/// One bookkeeping pass for a tick in which `kills` enemies died:
/// the decay window only runs while a combo is alive, a window that
/// lapses on a killless tick resets the count, and every kill raises
/// the count and rearms the window.
pub open spec fn combo_step_model(c: ComboCounter, dt_ms: u64, kills: u32) -> ComboCounter {
    let ticked = if c.count > 0 {
        SimTimer {
            elapsed_ms: ticked_elapsed(c.decay_timer, dt_ms) as u64,
            duration_ms: c.decay_timer.duration_ms,
        }
    } else {
        c.decay_timer
    };
    let lapsed = c.count > 0 && !c.decay_timer.finished_spec() && ticked.finished_spec();
    let after_lapse = if lapsed && kills == 0 {
        ComboCounter {
            decay_timer: SimTimer { elapsed_ms: 0, duration_ms: ticked.duration_ms },
            count: 0,
        }
    } else {
        ComboCounter { decay_timer: ticked, count: c.count }
    };
    if kills > 0 {
        ComboCounter {
            decay_timer: SimTimer { elapsed_ms: 0, duration_ms: after_lapse.decay_timer.duration_ms },
            count: if after_lapse.count + kills <= u32::MAX {
                (after_lapse.count + kills) as u32
            } else {
                u32::MAX
            },
        }
    } else {
        after_lapse
    }
}

impl ComboCounter {
    pub open spec fn wf(self) -> bool {
        self.decay_timer.wf()
    }

    /// A fresh counter with the given decay window and no combo.
    pub fn new(decay_timer: SimTimer) -> (r: ComboCounter)
        ensures
            r.decay_timer == decay_timer,
            r.count == 0,
    {
        ComboCounter { decay_timer, count: 0 }
    }

    /// The score multiplier the current combo grants.
    pub fn multiplier(&self) -> (r: i64)
        ensures
            r == multiplier_spec(self.count),
            SCALE <= r <= COMBO_MULTIPLIER_CAP,
    {
        if self.count >= 19 {
            COMBO_MULTIPLIER_CAP
        } else {
            (1 + self.count as i64) * SCALE
        }
    }

    /// Advance the decay window and absorb this tick's kills.
    pub fn step(&mut self, dt_ms: u64, kills: u32)
        requires
            old(self).wf(),
        ensures
            *final(self) == combo_step_model(*old(self), dt_ms, kills),
            final(self).wf(),
    {
        let mut just_lapsed = false;
        if self.count > 0 {
            just_lapsed = self.decay_timer.tick(dt_ms);
        }
        if just_lapsed && kills == 0 {
            self.decay_timer.reset();
            self.count = 0;
        }
        if kills > 0 {
            if kills <= u32::MAX - self.count {
                self.count = self.count + kills;
            } else {
                self.count = u32::MAX;
            }
            self.decay_timer.reset();
        }
    }
}

/// Drain a tick's enemy-death events into the combo accumulator.
pub fn combo_enemy_death_subscriber(combo: &mut ComboCounter, dt_ms: u64, kills: u32)
    requires
        old(combo).wf(),
    ensures
        *final(combo) == combo_step_model(*old(combo), dt_ms, kills),
        final(combo).wf(),
{
    combo.step(dt_ms, kills);
}

} // verus!
