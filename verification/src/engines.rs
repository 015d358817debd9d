//! Engine-type modifiers, including the stateful superboost engine.
//!
//! The superboost engine multiplies acceleration once and for all, and
//! applies a turn-speed penalty only while boosting.  The penalty is
//! reversed by restoring the exact pre-penalty value, so toggling the
//! boost on and off any number of times can never drift the stat.

use vstd::prelude::*;

use crate::fp::{factor_in_range, fp_in_range, mul_fp, mul_fp_spec};
use crate::modifier::{recalculated_model, Recalculated};
use crate::stats::PlaneMovementStats;

verus! {

/// The stock engine: modifies nothing.
#[derive(Clone, Copy, PartialEq, Eq, Structural, Debug)]
pub struct NormalEngine;

/// Planned engine that fires backwards; modifies nothing yet.
#[derive(Clone, Copy, PartialEq, Eq, Structural, Debug)]
pub struct GungineEngine;

/// Planned engine immune to water damage; modifies nothing yet.
#[derive(Clone, Copy, PartialEq, Eq, Structural, Debug)]
pub struct SubmarineEngine;

/// An engine with a permanent acceleration multiplier and a turn-speed
/// multiplier that is in force only while the craft is boosting.
#[derive(Clone, Copy, PartialEq, Eq, Structural, Debug)]
pub struct SuperboostEngine {
    pub modified_acceleration: bool,
    pub modified_turn_speed: bool,
    pub dirty: bool,
    pub boosting: bool,
    pub acceleration_modifier: i64,
    pub turn_speed_modifier: i64,
    pub saved_turn_speed: i64,
}

impl SuperboostEngine {
    /// A freshly attached engine: dirty, not boosting, nothing applied.
    pub fn new(acceleration_modifier: i64, turn_speed_modifier: i64) -> (r: Self)
        ensures
            r == (SuperboostEngine {
                modified_acceleration: false,
                modified_turn_speed: false,
                dirty: true,
                boosting: false,
                acceleration_modifier,
                turn_speed_modifier,
                saved_turn_speed: 0,
            }),
    {
        SuperboostEngine {
            modified_acceleration: false,
            modified_turn_speed: false,
            dirty: true,
            boosting: false,
            acceleration_modifier,
            turn_speed_modifier,
            saved_turn_speed: 0,
        }
    }

    /// The engine after an external condition change: same parameters
    /// and bookkeeping, new boosting state, marked for resettling.
    pub open spec fn with_boosting(self, b: bool) -> Self {
        SuperboostEngine {
            modified_acceleration: self.modified_acceleration,
            modified_turn_speed: self.modified_turn_speed,
            dirty: true,
            boosting: b,
            acceleration_modifier: self.acceleration_modifier,
            turn_speed_modifier: self.turn_speed_modifier,
            saved_turn_speed: self.saved_turn_speed,
        }
    }

    /// Record a change of the boosting condition.  The external system
    /// that flips the condition must not touch the stat record itself;
    /// it only marks the modifier dirty through this call.
    pub fn set_boosting(&mut self, b: bool)
        ensures
            *final(self) == old(self).with_boosting(b),
    {
        self.boosting = b;
        self.dirty = true;
    }
}

impl Recalculated<PlaneMovementStats> for SuperboostEngine {
    open spec fn dirty_spec(&self) -> bool {
        self.dirty
    }

    open spec fn with_dirty(&self, d: bool) -> Self {
        SuperboostEngine {
            modified_acceleration: self.modified_acceleration,
            modified_turn_speed: self.modified_turn_speed,
            dirty: d,
            boosting: self.boosting,
            acceleration_modifier: self.acceleration_modifier,
            turn_speed_modifier: self.turn_speed_modifier,
            saved_turn_speed: self.saved_turn_speed,
        }
    }

    open spec fn modify_model(&self, stats: PlaneMovementStats) -> (Self, PlaneMovementStats) {
        let (m1, s1) = if !self.modified_acceleration {
            (
                SuperboostEngine { modified_acceleration: true, ..*self },
                PlaneMovementStats {
                    acceleration: mul_fp_spec(
                        stats.acceleration as int,
                        self.acceleration_modifier as int,
                    ) as i64,
                    turn_speed: stats.turn_speed,
                },
            )
        } else {
            (*self, stats)
        };
        if m1.boosting && !m1.modified_turn_speed {
            (
                SuperboostEngine {
                    modified_turn_speed: true,
                    saved_turn_speed: s1.turn_speed,
                    ..m1
                },
                PlaneMovementStats {
                    acceleration: s1.acceleration,
                    turn_speed: mul_fp_spec(
                        s1.turn_speed as int,
                        m1.turn_speed_modifier as int,
                    ) as i64,
                },
            )
        } else if !m1.boosting && m1.modified_turn_speed {
            (
                SuperboostEngine { modified_turn_speed: false, ..m1 },
                PlaneMovementStats {
                    acceleration: s1.acceleration,
                    turn_speed: m1.saved_turn_speed,
                },
            )
        } else {
            (m1, s1)
        }
    }

    open spec fn wf(&self, stats: PlaneMovementStats) -> bool {
        stats.wf()
            && factor_in_range(self.acceleration_modifier)
            && factor_in_range(self.turn_speed_modifier)
            && fp_in_range(self.saved_turn_speed)
    }

    fn is_dirty(&self) -> (r: bool) {
        self.dirty
    }

    fn set_dirty(&mut self) {
        self.dirty = true;
    }

    fn clear_dirty(&mut self) {
        self.dirty = false;
    }

    fn modify(&mut self, stats: &mut PlaneMovementStats) {
        if !self.modified_acceleration {
            proof {
                crate::fp::lemma_mul_fp_in_range(stats.acceleration, self.acceleration_modifier);
            }
            stats.acceleration = mul_fp(stats.acceleration, self.acceleration_modifier);
            self.modified_acceleration = true;
        }
        if self.boosting && !self.modified_turn_speed {
            self.saved_turn_speed = stats.turn_speed;
            stats.turn_speed = mul_fp(stats.turn_speed, self.turn_speed_modifier);
            self.modified_turn_speed = true;
        } else if !self.boosting && self.modified_turn_speed {
            stats.turn_speed = self.saved_turn_speed;
            self.modified_turn_speed = false;
        }
    }
}

/// One full boost cycle: the condition flips on and the pair settles,
/// then the condition flips off and the pair settles again.
pub open spec fn toggle_round_model(
    m: SuperboostEngine,
    s: PlaneMovementStats,
) -> (SuperboostEngine, PlaneMovementStats) {
    let on = recalculated_model(m.with_boosting(true), s);
    recalculated_model(on.0.with_boosting(false), on.1)
}

/// `n` consecutive boost cycles.
pub open spec fn toggle_rounds_model(
    n: nat,
    m: SuperboostEngine,
    s: PlaneMovementStats,
) -> (SuperboostEngine, PlaneMovementStats)
    decreases n,
{
    if n == 0 {
        (m, s)
    } else {
        let prev = toggle_rounds_model((n - 1) as nat, m, s);
        toggle_round_model(prev.0, prev.1)
    }
}

proof fn lemma_toggle_round(m: SuperboostEngine, s: PlaneMovementStats)
    requires
        m.modified_acceleration,
        !m.modified_turn_speed,
    ensures
        toggle_round_model(m, s).1 == s,
        toggle_round_model(m, s).0.modified_acceleration,
        !toggle_round_model(m, s).0.modified_turn_speed,
{
}

/// Toggle symmetry: on a settled superboost engine, boosting on and off
/// any number of times returns the stat record to exactly its starting
/// value — the turn-speed penalty is withdrawn by restoring the saved
/// stat, never by an inverse multiplication that could drift.
pub proof fn lemma_toggle_symmetry(n: nat, m: SuperboostEngine, s: PlaneMovementStats)
    requires
        m.modified_acceleration,
        !m.modified_turn_speed,
    ensures
        toggle_rounds_model(n, m, s).1 == s,
    decreases n,
{
    if n > 0 {
        lemma_toggle_symmetry((n - 1) as nat, m, s);
        lemma_toggle_flags((n - 1) as nat, m, s);
        lemma_toggle_round(toggle_rounds_model((n - 1) as nat, m, s).0, s);
    }
}

proof fn lemma_toggle_flags(n: nat, m: SuperboostEngine, s: PlaneMovementStats)
    requires
        m.modified_acceleration,
        !m.modified_turn_speed,
    ensures
        toggle_rounds_model(n, m, s).0.modified_acceleration,
        !toggle_rounds_model(n, m, s).0.modified_turn_speed,
    decreases n,
{
    if n > 0 {
        lemma_toggle_flags((n - 1) as nat, m, s);
        lemma_toggle_round(
            toggle_rounds_model((n - 1) as nat, m, s).0,
            toggle_rounds_model((n - 1) as nat, m, s).1,
        );
    }
}

/// The build selections an engine slot can hold.
#[derive(Clone, Copy, PartialEq, Eq, Structural, Debug)]
pub enum EngineType {
    Normal,
    Superboost,
    Gungine,
    Submarine,
}

} // verus!
