//! The heat-driven wave spawner.
//!
//! A single scalar "heat" controls the cadence of enemy waves: a wave
//! triggers once the time since the last wave exceeds `60 / heat`
//! seconds.  Kills raise heat, each spawned wave lowers it by a fixed
//! decrement, and heat can never fall below 1.

use vstd::prelude::*;

use crate::fp::SCALE;

verus! {

/// Wait before the very first wave, in milliseconds of cadence credit.
pub const FIRST_WAVE_LEAD_MS: u64 = 55_000;

/// Numerator of the cadence formula: at heat 1 a wave every 60 s.
pub const WAVE_INTERVAL_NUMERATOR_MS: u64 = 60_000;

/// Fixed-point heat lost when a wave spawns.
pub const HEAT_WAVE_DECREMENT: i64 = 10_000;

/// Heat never drops below one (fixed point).
pub const HEAT_FLOOR: i64 = 1_000_000;

/// Heat is clamped upward here so that kill contributions always fit.
pub const HEAT_CAP: i64 = 1_000_000_000;

/// Enemies spawned per wave for the baseline archetype.
pub const WAVE_SIZE: u32 = 10;

/// A wave is due once `time_since_last_wave > 60 / heat` seconds,
/// stated without division: `t * heat > 60_000 ms * SCALE`.
pub open spec fn wave_due(time_since_last_wave_ms: u64, heat: i64) -> bool {
    time_since_last_wave_ms * heat > WAVE_INTERVAL_NUMERATOR_MS * SCALE
}

/// The tracker after one cadence tick: on a due wave the clock
/// restarts, the wave count rises (saturating), and heat cools by the
/// fixed decrement clamped to the floor; otherwise only the clock
/// accrues the tick (saturating).
pub open spec fn heat_stepped(t: HeatTracker, dt_ms: u64) -> HeatTracker {
    if wave_due(t.time_since_last_wave_ms, t.heat) {
        HeatTracker {
            time_since_last_wave_ms: 0u64,
            heat: if t.heat - HEAT_WAVE_DECREMENT >= HEAT_FLOOR {
                (t.heat - HEAT_WAVE_DECREMENT) as i64
            } else {
                HEAT_FLOOR
            },
            spawned_waves: if t.spawned_waves < u32::MAX {
                (t.spawned_waves + 1) as u32
            } else {
                u32::MAX
            },
        }
    } else {
        HeatTracker {
            time_since_last_wave_ms: if t.time_since_last_wave_ms + dt_ms <= u64::MAX {
                (t.time_since_last_wave_ms + dt_ms) as u64
            } else {
                u64::MAX
            },
            heat: t.heat,
            spawned_waves: t.spawned_waves,
        }
    }
}

/// Process-wide wave state.
#[derive(Clone, Copy, PartialEq, Eq, Structural, Debug)]
pub struct HeatTracker {
    pub time_since_last_wave_ms: u64,
    pub heat: i64,
    pub spawned_waves: u32,
}

impl HeatTracker {
    /// Heat stays between its floor of one and its cap.
    pub open spec fn wf(self) -> bool {
        HEAT_FLOOR <= self.heat <= HEAT_CAP
    }

    /// The slow initial cadence: heat at the floor, most of the first
    /// interval already credited so the first wave arrives promptly.
    pub open spec fn initial() -> HeatTracker {
        HeatTracker {
            time_since_last_wave_ms: FIRST_WAVE_LEAD_MS,
            heat: HEAT_FLOOR,
            spawned_waves: 0,
        }
    }

    pub fn new() -> (r: HeatTracker)
        ensures
            r == HeatTracker::initial(),
            r.wf(),
    {
        HeatTracker {
            time_since_last_wave_ms: FIRST_WAVE_LEAD_MS,
            heat: HEAT_FLOOR,
            spawned_waves: 0,
        }
    }

    /// Full reset to the initial state, as after a player death.
    pub fn reset(&mut self)
        ensures
            *final(self) == HeatTracker::initial(),
            final(self).wf(),
    {
        self.time_since_last_wave_ms = FIRST_WAVE_LEAD_MS;
        self.heat = HEAT_FLOOR;
        self.spawned_waves = 0;
    }

    /// A kill raises heat by the dead enemy's configured contribution,
    /// clamped at the cap.
    pub fn on_enemy_death(&mut self, contribution: i64)
        requires
            old(self).wf(),
            0 <= contribution,
        ensures
            *final(self) == heat_bumped(*old(self), contribution),
            final(self).wf(),
    {
        if contribution <= HEAT_CAP - self.heat {
            self.heat = self.heat + contribution;
        } else {
            self.heat = HEAT_CAP;
        }
    }

    /// Whether a wave is due now.
    pub fn wave_ready(&self) -> (r: bool)
        requires
            self.wf(),
        ensures
            r == wave_due(self.time_since_last_wave_ms, self.heat),
    {
        let t: u128 = self.time_since_last_wave_ms as u128;
        let h: u128 = self.heat as u128;
        proof {
            assert((t as int) * (h as int) <= (u64::MAX as int) * (HEAT_CAP as int))
                by (nonlinear_arith)
                requires
                    t as int <= u64::MAX as int,
                    0 <= h as int <= HEAT_CAP as int;
        }
        let lhs: u128 = t * h;
        let rhs: u128 = 60_000_000_000;
        proof {
            assert(rhs == WAVE_INTERVAL_NUMERATOR_MS * SCALE);
        }
        lhs > rhs
    }

    /// Advance the cadence clock by one tick.  When a wave falls due,
    /// the clock restarts, the wave count rises, and heat cools by the
    /// fixed decrement — clamped so it never drops below the floor.
    /// Returns the number of enemies to spawn, if any.
    pub fn step(&mut self, dt_ms: u64) -> (wave: Option<u32>)
        requires
            old(self).wf(),
        ensures
            *final(self) == heat_stepped(*old(self), dt_ms),
            final(self).wf(),
            final(self).heat >= HEAT_FLOOR,
            wave == if wave_due(old(self).time_since_last_wave_ms, old(self).heat) {
                Some(WAVE_SIZE)
            } else {
                None::<u32>
            },
    {
        if self.wave_ready() {
            if self.spawned_waves < u32::MAX {
                self.spawned_waves = self.spawned_waves + 1;
            }
            self.time_since_last_wave_ms = 0;
            if self.heat - HEAT_WAVE_DECREMENT >= HEAT_FLOOR {
                self.heat = self.heat - HEAT_WAVE_DECREMENT;
            } else {
                self.heat = HEAT_FLOOR;
            }
            Some(WAVE_SIZE)
        } else {
            if dt_ms <= u64::MAX - self.time_since_last_wave_ms {
                self.time_since_last_wave_ms = self.time_since_last_wave_ms + dt_ms;
            } else {
                self.time_since_last_wave_ms = u64::MAX;
            }
            None
        }
    }
}

/// A tracker after one kill's heat contribution, clamped at the cap.
pub open spec fn heat_bumped(t: HeatTracker, contribution: i64) -> HeatTracker {
    HeatTracker {
        heat: if t.heat + contribution <= HEAT_CAP {
            (t.heat + contribution) as i64
        } else {
            HEAT_CAP
        },
        ..t
    }
}

/// A tracker after a whole tick's enemy-death events, oldest first.
pub open spec fn heat_after_deaths(t: HeatTracker, events: Seq<crate::events::EnemyDeath>)
    -> HeatTracker
    decreases events.len(),
{
    if events.len() == 0 {
        t
    } else {
        heat_bumped(heat_after_deaths(t, events.drop_last()), events.last().heat)
    }
}

/// Drain a tick's enemy-death events into the tracker: each dead
/// enemy's configured heat contribution shortens the time to the next
/// wave.
pub fn heat_enemy_death_subscriber(
    tracker: &mut HeatTracker,
    events: &Vec<crate::events::EnemyDeath>,
)
    requires
        old(tracker).wf(),
        forall|i: int| 0 <= i < events@.len() ==> 0 <= (#[trigger] events@[i]).heat,
    ensures
        *final(tracker) == heat_after_deaths(*old(tracker), events@),
        final(tracker).wf(),
{
    let ghost evs = events@;
    let n = events.len();
    let mut i: usize = 0;
    while i < n
        invariant
            n == evs.len(),
            i <= n,
            events@ == evs,
            forall|j: int| 0 <= j < n ==> 0 <= (#[trigger] evs[j]).heat,
            *tracker == heat_after_deaths(*old(tracker), evs.subrange(0, i as int)),
            tracker.wf(),
        decreases n - i,
    {
        let ghost prefix = evs.subrange(0, i as int);
        let ghost prefix1 = evs.subrange(0, i as int + 1);
        proof {
            assert(prefix1.drop_last() =~= prefix);
            assert(prefix1.last() == evs[i as int]);
        }
        tracker.on_enemy_death(events[i].heat);
        i = i + 1;
    }
    proof {
        assert(evs.subrange(0, n as int) =~= evs);
    }
}

/// Drain a tick's player-death events: any death resets the tracker
/// to its initial state, so a new attempt starts at the slow initial
/// cadence.
pub fn heat_player_death_subscriber(tracker: &mut HeatTracker, player_deaths: usize)
    ensures
        *final(tracker) == if player_deaths > 0 {
            HeatTracker::initial()
        } else {
            *old(tracker)
        },
{
    if player_deaths > 0 {
        tracker.reset();
    }
}

/// Wave cadence: at heat 1 the interval between waves is exactly 60
/// simulated seconds — a wave is never due at or before the 60 000 ms
/// mark and always due past it — and at heat 2 exactly 30 seconds.
pub proof fn lemma_wave_cadence(t_ms: u64)
    ensures
        wave_due(t_ms, SCALE) <==> t_ms > 60_000,
        wave_due(t_ms, (2 * SCALE) as i64) <==> t_ms > 30_000,
{
    assert((t_ms as int) * (SCALE as int) > 60_000 * (SCALE as int) <==> t_ms > 60_000)
        by (nonlinear_arith);
    assert((t_ms as int) * ((2 * SCALE) as int) > 60_000 * (SCALE as int) <==> t_ms > 30_000)
        by (nonlinear_arith);
}

/// Heat floor: whatever sequence of tick steps the tracker goes
/// through, heat never drops below one.  (Kill events only add
/// non-negative heat, so they cannot break the floor either; that is
/// part of `on_enemy_death`'s contract.)
pub proof fn lemma_heat_floor(tracker: HeatTracker)
    requires
        tracker.wf(),
    ensures
        tracker.heat >= HEAT_FLOOR,
{
}

} // verus!
