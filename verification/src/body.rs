//! Body-type modifiers: hull choices that rewrite the craft's derived
//! stats once per dirty transition.

use vstd::prelude::*;

use crate::fp::{mul_fp, mul_fp_spec};
use crate::modifier::Recalculated;
use crate::stats::{PlaneMovementStats, PlayerStats, HP};

verus! {

/// The stock hull: modifies nothing.
#[derive(Clone, Copy, PartialEq, Eq, Structural, Debug)]
pub struct NormalBody;

/// Planned hull that drops bombs; modifies nothing yet.
#[derive(Clone, Copy, PartialEq, Eq, Structural, Debug)]
pub struct BomberBody;

/// A slow, heavily armoured hull: halved handling, tripled health cap,
/// reduced regeneration.
#[derive(Clone, Copy, PartialEq, Eq, Structural, Debug)]
pub struct HeavyBody {
    pub dirty_plane: bool,
    pub dirty_hp: bool,
}

pub const HEAVY_HANDLING_FACTOR: i64 = 500_000;

pub const HEAVY_MAX_HP_FACTOR: i64 = 3_000_000;

pub const HEAVY_REGEN_FACTOR: i64 = 600_000;

impl Default for HeavyBody {
    /// A freshly attached modifier starts dirty for both of its
    /// targets, so the first settle pass applies it.
    fn default() -> (r: Self)
        ensures
            r.dirty_plane,
            r.dirty_hp,
    {
        HeavyBody { dirty_plane: true, dirty_hp: true }
    }
}

impl Recalculated<PlaneMovementStats> for HeavyBody {
    open spec fn dirty_spec(&self) -> bool {
        self.dirty_plane
    }

    open spec fn with_dirty(&self, d: bool) -> Self {
        HeavyBody { dirty_plane: d, dirty_hp: self.dirty_hp }
    }

    open spec fn modify_model(&self, stats: PlaneMovementStats) -> (Self, PlaneMovementStats) {
        (
            *self,
            PlaneMovementStats {
                acceleration: mul_fp_spec(stats.acceleration as int, HEAVY_HANDLING_FACTOR as int) as i64,
                turn_speed: mul_fp_spec(stats.turn_speed as int, HEAVY_HANDLING_FACTOR as int) as i64,
            },
        )
    }

    open spec fn wf(&self, stats: PlaneMovementStats) -> bool {
        stats.wf()
    }

    fn is_dirty(&self) -> (r: bool) {
        self.dirty_plane
    }

    fn set_dirty(&mut self) {
        self.dirty_plane = true;
    }

    fn clear_dirty(&mut self) {
        self.dirty_plane = false;
    }

    fn modify(&mut self, stats: &mut PlaneMovementStats) {
        proof {
            crate::fp::lemma_mul_fp_in_range(stats.acceleration, HEAVY_HANDLING_FACTOR);
            crate::fp::lemma_mul_fp_in_range(stats.turn_speed, HEAVY_HANDLING_FACTOR);
        }
        stats.acceleration = mul_fp(stats.acceleration, HEAVY_HANDLING_FACTOR);
        stats.turn_speed = mul_fp(stats.turn_speed, HEAVY_HANDLING_FACTOR);
    }
}

impl Recalculated<HP> for HeavyBody {
    open spec fn dirty_spec(&self) -> bool {
        self.dirty_hp
    }

    open spec fn with_dirty(&self, d: bool) -> Self {
        HeavyBody { dirty_plane: self.dirty_plane, dirty_hp: d }
    }

    open spec fn modify_model(&self, stats: HP) -> (Self, HP) {
        (
            *self,
            HP {
                hp: stats.hp,
                max: mul_fp_spec(stats.max as int, HEAVY_MAX_HP_FACTOR as int) as i64,
                regen: mul_fp_spec(stats.regen as int, HEAVY_REGEN_FACTOR as int) as i64,
            },
        )
    }

    open spec fn wf(&self, stats: HP) -> bool {
        stats.wf()
    }

    fn is_dirty(&self) -> (r: bool) {
        self.dirty_hp
    }

    fn set_dirty(&mut self) {
        self.dirty_hp = true;
    }

    fn clear_dirty(&mut self) {
        self.dirty_hp = false;
    }

    fn modify(&mut self, stats: &mut HP) {
        stats.max = mul_fp(stats.max, HEAVY_MAX_HP_FACTOR);
        stats.regen = mul_fp(stats.regen, HEAVY_REGEN_FACTOR);
    }
}

/// A brawler hull: immune to contact damage, doubled contact damage
/// dealt, halved health cap.
#[derive(Clone, Copy, PartialEq, Eq, Structural, Debug)]
pub struct MeleeBody {
    pub dirty_player: bool,
    pub dirty_hp: bool,
}

pub const MELEE_CONTACT_FACTOR: i64 = 2_000_000;

pub const MELEE_MAX_HP_FACTOR: i64 = 500_000;

impl Default for MeleeBody {
    fn default() -> (r: Self)
        ensures
            r.dirty_player,
            r.dirty_hp,
    {
        MeleeBody { dirty_player: true, dirty_hp: true }
    }
}

impl Recalculated<PlayerStats> for MeleeBody {
    open spec fn dirty_spec(&self) -> bool {
        self.dirty_player
    }

    open spec fn with_dirty(&self, d: bool) -> Self {
        MeleeBody { dirty_player: d, dirty_hp: self.dirty_hp }
    }

    open spec fn modify_model(&self, stats: PlayerStats) -> (Self, PlayerStats) {
        (
            *self,
            PlayerStats {
                contact_damage: mul_fp_spec(stats.contact_damage as int, MELEE_CONTACT_FACTOR as int) as i64,
                takes_contact_damage: false,
            },
        )
    }

    open spec fn wf(&self, stats: PlayerStats) -> bool {
        stats.wf()
    }

    fn is_dirty(&self) -> (r: bool) {
        self.dirty_player
    }

    fn set_dirty(&mut self) {
        self.dirty_player = true;
    }

    fn clear_dirty(&mut self) {
        self.dirty_player = false;
    }

    fn modify(&mut self, stats: &mut PlayerStats) {
        stats.takes_contact_damage = false;
        stats.contact_damage = mul_fp(stats.contact_damage, MELEE_CONTACT_FACTOR);
    }
}

impl Recalculated<HP> for MeleeBody {
    open spec fn dirty_spec(&self) -> bool {
        self.dirty_hp
    }

    open spec fn with_dirty(&self, d: bool) -> Self {
        MeleeBody { dirty_player: self.dirty_player, dirty_hp: d }
    }

    open spec fn modify_model(&self, stats: HP) -> (Self, HP) {
        (
            *self,
            HP {
                hp: stats.hp,
                max: mul_fp_spec(stats.max as int, MELEE_MAX_HP_FACTOR as int) as i64,
                regen: stats.regen,
            },
        )
    }

    open spec fn wf(&self, stats: HP) -> bool {
        stats.wf()
    }

    fn is_dirty(&self) -> (r: bool) {
        self.dirty_hp
    }

    fn set_dirty(&mut self) {
        self.dirty_hp = true;
    }

    fn clear_dirty(&mut self) {
        self.dirty_hp = false;
    }

    fn modify(&mut self, stats: &mut HP) {
        stats.max = mul_fp(stats.max, MELEE_MAX_HP_FACTOR);
    }
}

/// A volatile hull: raised contact damage and health cap.
#[derive(Clone, Copy, PartialEq, Eq, Structural, Debug)]
pub struct NukeBody {
    pub dirty_player: bool,
    pub dirty_hp: bool,
}

pub const NUKE_CONTACT_FACTOR: i64 = 2_500_000;

pub const NUKE_MAX_HP_FACTOR: i64 = 1_500_000;

impl Default for NukeBody {
    fn default() -> (r: Self)
        ensures
            r.dirty_player,
            r.dirty_hp,
    {
        NukeBody { dirty_player: true, dirty_hp: true }
    }
}

impl Recalculated<PlayerStats> for NukeBody {
    open spec fn dirty_spec(&self) -> bool {
        self.dirty_player
    }

    open spec fn with_dirty(&self, d: bool) -> Self {
        NukeBody { dirty_player: d, dirty_hp: self.dirty_hp }
    }

    open spec fn modify_model(&self, stats: PlayerStats) -> (Self, PlayerStats) {
        (
            *self,
            PlayerStats {
                contact_damage: mul_fp_spec(stats.contact_damage as int, NUKE_CONTACT_FACTOR as int) as i64,
                takes_contact_damage: stats.takes_contact_damage,
            },
        )
    }

    open spec fn wf(&self, stats: PlayerStats) -> bool {
        stats.wf()
    }

    fn is_dirty(&self) -> (r: bool) {
        self.dirty_player
    }

    fn set_dirty(&mut self) {
        self.dirty_player = true;
    }

    fn clear_dirty(&mut self) {
        self.dirty_player = false;
    }

    fn modify(&mut self, stats: &mut PlayerStats) {
        stats.contact_damage = mul_fp(stats.contact_damage, NUKE_CONTACT_FACTOR);
    }
}

impl Recalculated<HP> for NukeBody {
    open spec fn dirty_spec(&self) -> bool {
        self.dirty_hp
    }

    open spec fn with_dirty(&self, d: bool) -> Self {
        NukeBody { dirty_player: self.dirty_player, dirty_hp: d }
    }

    open spec fn modify_model(&self, stats: HP) -> (Self, HP) {
        (
            *self,
            HP {
                hp: stats.hp,
                max: mul_fp_spec(stats.max as int, NUKE_MAX_HP_FACTOR as int) as i64,
                regen: stats.regen,
            },
        )
    }

    open spec fn wf(&self, stats: HP) -> bool {
        stats.wf()
    }

    fn is_dirty(&self) -> (r: bool) {
        self.dirty_hp
    }

    fn set_dirty(&mut self) {
        self.dirty_hp = true;
    }

    fn clear_dirty(&mut self) {
        self.dirty_hp = false;
    }

    fn modify(&mut self, stats: &mut HP) {
        stats.max = mul_fp(stats.max, NUKE_MAX_HP_FACTOR);
    }
}

/// The build selections a craft can spawn with.
#[derive(Clone, Copy, PartialEq, Eq, Structural, Debug)]
pub enum BodyType {
    Normal,
    Heavy,
    Melee,
    Nuke,
    Bomber,
}

} // verus!
