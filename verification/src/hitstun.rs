//! The hit-stun state machine.
//!
//! Any damaging hit freezes the whole simulation for a short fixed
//! duration: the machine moves from `Normal` to `Stunned` when a tick's
//! hit events are observed — all of them at once, so one tick can only
//! ever trigger a single transition — and back once the stun timer
//! completes.  The timer is built lazily on first entry and reset, not
//! recreated, on every later entry.

use vstd::prelude::*;

use crate::timer::{ticked_elapsed, SimTimer};

verus! {

#[derive(Clone, Copy, PartialEq, Eq, Structural, Debug)]
pub struct HitStunMachine {
    pub stunned: bool,
    pub timer: Option<SimTimer>,
}

impl HitStunMachine {
    pub open spec fn wf(self) -> bool {
        match self.timer {
            Some(t) => t.wf(),
            None => true,
        }
    }

    /// The machine before any hit has ever been observed.
    pub fn new() -> (r: HitStunMachine)
        ensures
            r.stunned == false,
            r.timer is None,
            r.wf(),
    {
        HitStunMachine { stunned: false, timer: None }
    }

    /// Observe and drain all of one tick's hit events — player hits and
    /// enemy hits together.  Returns how many `Normal → Stunned`
    /// transitions this performed: exactly one if the tick carried any
    /// hit at all, and never more, however many hits there were.
    pub fn observe_hits(&mut self, player_hits: u32, enemy_hits: u32) -> (transitions: u32)
        ensures
            final(self).stunned == (player_hits > 0 || enemy_hits > 0 || old(self).stunned),
            final(self).timer == old(self).timer,
            transitions == if (player_hits > 0 || enemy_hits > 0) && !old(self).stunned {
                1int
            } else {
                0int
            },
    {
        if (player_hits > 0 || enemy_hits > 0) && !self.stunned {
            self.stunned = true;
            1
        } else if player_hits > 0 || enemy_hits > 0 {
            self.stunned = true;
            0
        } else {
            0
        }
    }

    /// One tick while stunned.  On the first entry ever, the stun
    /// timer is constructed with the configured duration and nothing
    /// else happens; afterwards the timer ticks, and on completing it
    /// is reset and the simulation resumes.  Returns whether the
    /// machine returned to `Normal` on this tick.
    pub fn stun_tick(&mut self, dt_ms: u64, configured_stun_ms: u64) -> (resumed: bool)
        requires
            old(self).wf(),
        ensures
            final(self).wf(),
            match old(self).timer {
                None => {
                    &&& final(self).timer == Some(SimTimer {
                        elapsed_ms: 0u64,
                        duration_ms: configured_stun_ms,
                    })
                    &&& final(self).stunned == old(self).stunned
                    &&& !resumed
                },
                Some(t) => {
                    let advanced = ticked_elapsed(t, dt_ms);
                    if advanced >= t.duration_ms {
                        &&& final(self).timer == Some(SimTimer {
                            elapsed_ms: 0u64,
                            duration_ms: t.duration_ms,
                        })
                        &&& final(self).stunned == false
                        &&& resumed
                    } else {
                        &&& final(self).timer == Some(SimTimer {
                            elapsed_ms: advanced as u64,
                            duration_ms: t.duration_ms,
                        })
                        &&& final(self).stunned == old(self).stunned
                        &&& !resumed
                    }
                },
            },
    {
        match self.timer {
            Some(t) => {
                let mut ticked = t;
                ticked.tick(dt_ms);
                if ticked.finished() {
                    ticked.reset();
                    self.timer = Some(ticked);
                    self.stunned = false;
                    true
                } else {
                    self.timer = Some(ticked);
                    false
                }
            },
            None => {
                self.timer = Some(SimTimer::new(configured_stun_ms));
                false
            },
        }
    }
}

/// The per-tick trigger system: drain both hit queues into the
/// machine, freezing the simulation when any hit occurred.
pub fn hitstun_trigger_system(
    machine: &mut HitStunMachine,
    player_hits: u32,
    enemy_hits: u32,
) -> (transitions: u32)
    ensures
        final(machine).stunned == (player_hits > 0 || enemy_hits > 0 || old(machine).stunned),
        final(machine).timer == old(machine).timer,
        transitions == if (player_hits > 0 || enemy_hits > 0) && !old(machine).stunned {
            1int
        } else {
            0int
        },
{
    machine.observe_hits(player_hits, enemy_hits)
}

/// The per-tick stun countdown system: while frozen, only this runs.
pub fn hitstun_tick_system(
    machine: &mut HitStunMachine,
    dt_ms: u64,
    configured_stun_ms: u64,
) -> (resumed: bool)
    requires
        old(machine).wf(),
    ensures
        final(machine).wf(),
        resumed == (old(machine).timer is Some && ticked_elapsed(
            old(machine).timer.unwrap(),
            dt_ms,
        ) >= old(machine).timer.unwrap().duration_ms),
        resumed ==> !final(machine).stunned,
        !resumed ==> final(machine).stunned == old(machine).stunned,
{
    machine.stun_tick(dt_ms, configured_stun_ms)
}

} // verus!
