//! Per-tick simulation events.
//!
//! Events are appended to per-tick queues by the emitting system and
//! drained in a fixed order by the interested systems; no queue
//! survives the tick that filled it.

use vstd::prelude::*;

use crate::vec2::Vec2Fp;
use crate::weapon::WeaponType;

verus! {

/// Identity of a simulation object, unique within a session.
pub type EntityId = u64;

/// A cooldown-gated fire request that was honoured this tick.
#[derive(Clone, Copy, PartialEq, Eq, Structural, Debug)]
pub struct WeaponFired {
    /// The object whose weapon fired.
    pub entity: EntityId,
    /// The firer's velocity at the moment of firing, inherited by
    /// ballistic projectiles.
    pub entity_velocity: Vec2Fp,
    /// True when fired by an enemy: the shot is hostile to the player.
    pub hostile: bool,
    pub weapon_type: WeaponType,
}

impl WeaponFired {
    pub fn new(entity: EntityId, entity_velocity: Vec2Fp, hostile: bool, weapon_type: WeaponType)
        -> (r: WeaponFired)
        ensures
            r == (WeaponFired { entity, entity_velocity, hostile, weapon_type }),
    {
        WeaponFired { entity, entity_velocity, hostile, weapon_type }
    }
}

/// The player took a damaging hit this tick.
#[derive(Clone, Copy, PartialEq, Eq, Structural, Debug)]
pub struct PlayerHit;

/// An enemy took a damaging hit this tick.
#[derive(Clone, Copy, PartialEq, Eq, Structural, Debug)]
pub struct EnemyHit {
    pub entity: EntityId,
    pub damage: i64,
}

/// The player's health reached zero.
#[derive(Clone, Copy, PartialEq, Eq, Structural, Debug)]
pub struct PlayerDeath;

/// An enemy's health reached zero; carries its score and heat payload.
#[derive(Clone, Copy, PartialEq, Eq, Structural, Debug)]
pub struct EnemyDeath {
    pub entity: EntityId,
    pub score: u32,
    pub heat: i64,
}

} // verus!
