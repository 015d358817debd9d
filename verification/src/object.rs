//! The objects the simulation moves and damages.

use vstd::prelude::*;

use crate::fp::{fp_in_range, SCALE};
use crate::stats::{PlaneMovementStats, HP};
use crate::timer::SimTimer;
use crate::vec2::{Vec2Fp, COORD_LIMIT};

verus! {

/// The distilled per-tick control signal for one craft, supplied by the
/// input layer or by an AI.
#[derive(Clone, Copy, PartialEq, Eq, Structural, Debug)]
pub struct Intent {
    pub accelerate: bool,
    pub brake: bool,
    /// Steering in `[-1, 1]` fixed point.
    pub turn_intent: i64,
    pub fire: bool,
    /// The fire control went from released to held this tick.
    pub just_fired: bool,
}

impl Intent {
    pub open spec fn wf(self) -> bool {
        -SCALE <= self.turn_intent <= SCALE
    }

}

/// Velocity, mass and the per-tick forces acting on a moving object.
#[derive(Clone, Copy, PartialEq, Eq, Structural, Debug)]
pub struct Physics {
    pub mass: i64,
    pub velocity: Vec2Fp,
    /// Per-tick velocity damping factor in `[0, 1]` fixed point.
    pub friction: i64,
    /// Per-tick velocity increment.
    pub gravity: Vec2Fp,
}

/// Velocities stay well below this bound; the integrator re-clamps
/// every tick.
pub const SPEED_LIMIT: i64 = 100_000_000_000;

impl Physics {
    pub open spec fn wf(self) -> bool {
        &&& -SPEED_LIMIT <= self.velocity.x <= SPEED_LIMIT
        &&& -SPEED_LIMIT <= self.velocity.y <= SPEED_LIMIT
        &&& 0 <= self.friction <= SCALE
        &&& -SPEED_LIMIT <= self.gravity.x <= SPEED_LIMIT
        &&& -SPEED_LIMIT <= self.gravity.y <= SPEED_LIMIT
        &&& fp_in_range(self.mass)
    }

}

/// One simulated ship: the player's craft or an enemy craft.
#[derive(Clone, Copy, PartialEq, Eq, Structural, Debug)]
pub struct Craft {
    pub id: crate::events::EntityId,
    pub position: Vec2Fp,
    /// Heading angle in millionth-radians.
    pub rotation: i64,
    pub physics: Physics,
    pub hp: HP,
    /// Circular hitbox radius.
    pub radius: i64,
    pub movement: PlaneMovementStats,
    pub intent: Intent,
}

impl Craft {
    pub open spec fn wf(self) -> bool {
        &&& self.position.in_coord_range()
        &&& self.physics.wf()
        &&& self.hp.wf()
        &&& 0 <= self.radius <= COORD_LIMIT
        &&& self.movement.wf()
        &&& self.intent.wf()
    }
}

/// An enemy: a craft plus its weapon and kill payload.
#[derive(Clone, Copy, PartialEq, Eq, Structural, Debug)]
pub struct Enemy {
    pub craft: Craft,
    /// Base score granted on death.
    pub score: u32,
    /// Heat contributed to the wave spawner on death.
    pub heat_reward: i64,
    pub weapon: crate::weapon::WeaponData,
}

impl Enemy {
    pub open spec fn wf(self) -> bool {
        self.craft.wf() && 0 <= self.heat_reward && self.weapon.wf()
    }
}

/// An ephemeral ballistic projectile.
#[derive(Clone, Copy, PartialEq, Eq, Structural, Debug)]
pub struct Projectile {
    pub damage: i64,
    /// How many further targets the projectile may damage after its
    /// next hit before despawning.
    pub piercing: u32,
    pub hostile_to_player: bool,
    pub position: Vec2Fp,
    pub physics: Physics,
    pub radius: i64,
    pub lifetime: SimTimer,
    /// Cleared when the projectile is spent; cleanup removes it at the
    /// end of the tick.
    pub alive: bool,
}

impl Projectile {
    pub open spec fn wf(self) -> bool {
        &&& 0 <= self.damage <= COORD_LIMIT
        &&& self.position.in_coord_range()
        &&& self.physics.wf()
        &&& 0 <= self.radius <= COORD_LIMIT
        &&& self.lifetime.wf()
    }
}

/// An ephemeral beam: a damaging ray anchored to its firer's transform.
#[derive(Clone, Copy, PartialEq, Eq, Structural, Debug)]
pub struct Beam {
    pub damage: i64,
    pub hostile: bool,
    pub width: i64,
    /// `None` is an unbounded beam.
    pub max_dist: Option<i64>,
    pub origin: Vec2Fp,
    /// Heading angle in millionth-radians.
    pub rotation: i64,
    pub lifetime: SimTimer,
    pub alive: bool,
}

impl Beam {
    pub open spec fn wf(self) -> bool {
        &&& 0 <= self.damage <= COORD_LIMIT
        &&& 0 < self.width <= COORD_LIMIT
        &&& self.origin.in_coord_range()
        &&& self.lifetime.wf()
        &&& match self.max_dist {
            Some(d) => 0 <= d <= COORD_LIMIT,
            None => true,
        }
    }
}

} // verus!
