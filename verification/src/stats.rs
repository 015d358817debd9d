//! Base and derived stat records carried by simulation objects.

use vstd::prelude::*;

use crate::fp::fp_in_range;

verus! {

/// Movement stats of a craft: thrust per tick and turn rate.
#[derive(Clone, Copy, PartialEq, Eq, Structural, Debug)]
pub struct PlaneMovementStats {
    pub acceleration: i64,
    pub turn_speed: i64,
}

impl PlaneMovementStats {
    pub open spec fn wf(self) -> bool {
        fp_in_range(self.acceleration) && fp_in_range(self.turn_speed)
    }
}

/// Health record: current points, cap, and regeneration per second.
#[derive(Clone, Copy, PartialEq, Eq, Structural, Debug)]
pub struct HP {
    pub hp: i64,
    pub max: i64,
    pub regen: i64,
}

impl HP {
    pub open spec fn wf(self) -> bool {
        fp_in_range(self.hp) && fp_in_range(self.max) && fp_in_range(self.regen)
    }
}

/// Player-only combat stats touched by body modifiers.
#[derive(Clone, Copy, PartialEq, Eq, Structural, Debug)]
pub struct PlayerStats {
    pub contact_damage: i64,
    pub takes_contact_damage: bool,
}

impl PlayerStats {
    pub open spec fn wf(self) -> bool {
        fp_in_range(self.contact_damage)
    }

    /// The stock loadout: unit contact damage, vulnerable to contact.
    pub fn stock() -> (r: PlayerStats)
        ensures
            r.contact_damage == crate::fp::SCALE,
            r.takes_contact_damage,
            r.wf(),
    {
        PlayerStats { contact_damage: crate::fp::SCALE, takes_contact_damage: true }
    }
}

} // verus!
