//! Weapon data, fire-request gating, and fire-event consumption.
//!
//! A fire request is honoured exactly when the weapon's cooldown has
//! completed its period since the last shot and the fire intent matches
//! the weapon's trigger discipline.  A honoured request becomes a
//! `WeaponFired` event; consuming the event spawns either a batch of
//! ballistic projectiles with randomly spread headings or a single
//! beam anchored ahead of the firer.

use vstd::prelude::*;

use crate::events::{EntityId, WeaponFired};
use crate::fp::{
    cos_spec, lemma_mul_fp_contracts, mul_fp, mul_fp_spec, sin_spec, cos_fp, sin_fp, SCALE,
};
use crate::object::{Beam, Intent, Physics, Projectile, SPEED_LIMIT};
use crate::rng::random_fraction;
use crate::timer::{ticked_elapsed, SimTimer};
use crate::vec2::{Vec2Fp, COORD_LIMIT};

verus! {

/// Muzzle speeds stay below this bound.
pub const MUZZLE_LIMIT: i64 = 10_000_000_000;

/// A beam is anchored this far ahead of its firer.
pub const BEAM_ANCHOR_OFFSET: i64 = 200_000_000;

/// Base collision radius of a projectile of visual scale one.
pub const BULLET_BASE_RADIUS: i64 = 10_000_000;

#[derive(Clone, Copy, PartialEq, Eq, Structural, Debug)]
pub enum WeaponType {
    MachineGun,
    SpreadGun,
    Missile,
    SlugGun,
    Laser,
    Gungine,
}

/// The variant payload of a weapon: ballistic parameters or beam
/// parameters.
#[derive(Clone, Copy, PartialEq, Eq, Structural, Debug)]
pub enum WeaponSubtype {
    BulletBased {
        /// Muzzle velocity in the firer's frame, before rotation.
        velocity: Vec2Fp,
        gravity: Vec2Fp,
        bullet_mass: i64,
        friction: i64,
        bullet_scale: i64,
        num_spawned_per_shot: u8,
    },
    Laser {
        width: i64,
        /// `None` is an unbounded beam.
        max_dist: Option<i64>,
    },
}

#[derive(Clone, Copy, PartialEq, Eq, Structural, Debug)]
pub struct WeaponData {
    pub timer: SimTimer,
    pub weapon_type: WeaponType,
    pub damage: i64,
    pub automatic: bool,
    /// Total spread angle in millionth-radians.
    pub spread: i64,
    pub piercing: u32,
    pub lifetime_ms: u64,
    pub subtype: WeaponSubtype,
}

impl WeaponData {
    pub open spec fn wf(self) -> bool {
        &&& self.timer.wf()
        &&& 0 <= self.damage <= COORD_LIMIT
        &&& 0 <= self.spread <= SCALE
        &&& match self.subtype {
            WeaponSubtype::BulletBased {
                velocity,
                gravity,
                bullet_mass,
                friction,
                bullet_scale,
                num_spawned_per_shot,
            } => {
                &&& -MUZZLE_LIMIT <= velocity.x <= MUZZLE_LIMIT
                &&& -MUZZLE_LIMIT <= velocity.y <= MUZZLE_LIMIT
                &&& -SPEED_LIMIT <= gravity.x <= SPEED_LIMIT
                &&& -SPEED_LIMIT <= gravity.y <= SPEED_LIMIT
                &&& 0 <= friction <= SCALE
                &&& crate::fp::fp_in_range(bullet_mass)
                &&& 0 <= bullet_scale <= 10 * SCALE
            },
            WeaponSubtype::Laser { width, max_dist } => {
                &&& 0 < width <= COORD_LIMIT
                &&& match max_dist {
                    Some(d) => 0 <= d <= COORD_LIMIT,
                    None => true,
                }
            },
        }
    }

    /// Assemble a ballistic weapon.
    pub fn new_bullet_subtype(
        weapon_type: WeaponType,
        shoot_cooldown_ms: u64,
        automatic: bool,
        bullet_damage: i64,
        bullet_spread: i64,
        bullet_velocity: Vec2Fp,
        bullet_gravity: Vec2Fp,
        bullet_friction: i64,
        bullet_lifetime_ms: u64,
        bullet_scale: i64,
        bullet_multiplicity: u8,
        mass: i64,
        piercing: u32,
    ) -> (r: WeaponData)
        ensures
            r == (WeaponData {
                timer: SimTimer { elapsed_ms: 0u64, duration_ms: shoot_cooldown_ms },
                weapon_type,
                damage: bullet_damage,
                automatic,
                spread: bullet_spread,
                piercing,
                lifetime_ms: bullet_lifetime_ms,
                subtype: WeaponSubtype::BulletBased {
                    velocity: bullet_velocity,
                    gravity: bullet_gravity,
                    bullet_mass: mass,
                    friction: bullet_friction,
                    bullet_scale,
                    num_spawned_per_shot: bullet_multiplicity,
                },
            }),
    {
        WeaponData {
            timer: SimTimer::new(shoot_cooldown_ms),
            weapon_type,
            damage: bullet_damage,
            automatic,
            spread: bullet_spread,
            piercing,
            lifetime_ms: bullet_lifetime_ms,
            subtype: WeaponSubtype::BulletBased {
                velocity: bullet_velocity,
                gravity: bullet_gravity,
                bullet_mass: mass,
                friction: bullet_friction,
                bullet_scale,
                num_spawned_per_shot: bullet_multiplicity,
            },
        }
    }

    /// Assemble a beam weapon.
    pub fn new_laser_subtype(
        weapon_type: WeaponType,
        shoot_cooldown_ms: u64,
        automatic: bool,
        damage: i64,
        spread: i64,
        lifetime_ms: u64,
        width: i64,
        max_dist: Option<i64>,
        piercing: u32,
    ) -> (r: WeaponData)
        ensures
            r == (WeaponData {
                timer: SimTimer { elapsed_ms: 0u64, duration_ms: shoot_cooldown_ms },
                weapon_type,
                damage,
                automatic,
                spread,
                piercing,
                lifetime_ms,
                subtype: WeaponSubtype::Laser { width, max_dist },
            }),
    {
        WeaponData {
            timer: SimTimer::new(shoot_cooldown_ms),
            weapon_type,
            damage,
            automatic,
            spread,
            piercing,
            lifetime_ms,
            subtype: WeaponSubtype::Laser { width, max_dist },
        }
    }
}

impl WeaponType {
    /// The tuning table: the full weapon record for each weapon type.
    /// The missile launcher is not tuned yet and has no entry.
    pub open spec fn table_spec(self) -> WeaponData {
        match self {
            WeaponType::SlugGun => WeaponData {
                timer: SimTimer { elapsed_ms: 0u64, duration_ms: 500u64 },
                weapon_type: WeaponType::SlugGun,
                damage: 20_000_000i64,
                automatic: true,
                spread: 100_000i64,
                piercing: 10u32,
                lifetime_ms: 2000u64,
                subtype: WeaponSubtype::BulletBased {
                    velocity: Vec2Fp { x: 0i64, y: 800_000_000i64 },
                    gravity: Vec2Fp { x: 0i64, y: -4_000_000i64 },
                    bullet_mass: 50i64,
                    friction: 999_500i64,
                    bullet_scale: 1_000_000i64,
                    num_spawned_per_shot: 1u8,
                },
            },
            WeaponType::Gungine => WeaponData {
                timer: SimTimer { elapsed_ms: 0u64, duration_ms: 250u64 },
                weapon_type: WeaponType::Gungine,
                damage: 20_000_000i64,
                automatic: true,
                spread: 100_000i64,
                piercing: 2u32,
                lifetime_ms: 2000u64,
                subtype: WeaponSubtype::BulletBased {
                    velocity: Vec2Fp { x: 0i64, y: -800_000_000i64 },
                    gravity: Vec2Fp { x: 0i64, y: -4_000_000i64 },
                    bullet_mass: 50i64,
                    friction: 999_500i64,
                    bullet_scale: 1_000_000i64,
                    num_spawned_per_shot: 1u8,
                },
            },
            WeaponType::MachineGun => WeaponData {
                timer: SimTimer { elapsed_ms: 0u64, duration_ms: 100u64 },
                weapon_type: WeaponType::MachineGun,
                damage: 50_000_000i64,
                automatic: true,
                spread: 300_000i64,
                piercing: 0u32,
                lifetime_ms: 600u64,
                subtype: WeaponSubtype::BulletBased {
                    velocity: Vec2Fp { x: 0i64, y: 1_000_000_000i64 },
                    gravity: Vec2Fp { x: 0i64, y: -3_000_000i64 },
                    bullet_mass: 5i64,
                    friction: 995_000i64,
                    bullet_scale: 600_000i64,
                    num_spawned_per_shot: 1u8,
                },
            },
            WeaponType::Laser => WeaponData {
                timer: SimTimer { elapsed_ms: 0u64, duration_ms: 10u64 },
                weapon_type: WeaponType::Laser,
                damage: 5_000_000i64,
                automatic: true,
                spread: 0i64,
                piercing: 5u32,
                lifetime_ms: 20u64,
                subtype: WeaponSubtype::Laser { width: 15_000_000i64, max_dist: None },
            },
            WeaponType::SpreadGun => WeaponData {
                timer: SimTimer { elapsed_ms: 0u64, duration_ms: 100u64 },
                weapon_type: WeaponType::SpreadGun,
                damage: 16_660_000i64,
                automatic: true,
                spread: 700_000i64,
                piercing: 0u32,
                lifetime_ms: 600u64,
                subtype: WeaponSubtype::BulletBased {
                    velocity: Vec2Fp { x: 0i64, y: 1_000_000_000i64 },
                    gravity: Vec2Fp { x: 0i64, y: -3_000_000i64 },
                    bullet_mass: 5i64,
                    friction: 995_000i64,
                    bullet_scale: 600_000i64,
                    num_spawned_per_shot: 3u8,
                },
            },
            WeaponType::Missile => WeaponData {
                timer: SimTimer { elapsed_ms: 0u64, duration_ms: 0u64 },
                weapon_type: WeaponType::Missile,
                damage: 0i64,
                automatic: false,
                spread: 0i64,
                piercing: 0u32,
                lifetime_ms: 0u64,
                subtype: WeaponSubtype::Laser { width: 1i64, max_dist: None },
            },
        }
    }

    /// Build the weapon record for this type.  The missile launcher has
    /// no tuning yet, so it cannot be built.
    pub fn data_from_type(self) -> (r: WeaponData)
        requires
            self != WeaponType::Missile,
        ensures
            r == self.table_spec(),
            r.wf(),
    {
        match self {
            WeaponType::SlugGun => WeaponData::new_bullet_subtype(
                self,
                500,
                true,
                20_000_000,
                100_000,
                Vec2Fp::new(0, 800_000_000),
                Vec2Fp::new(0, -4_000_000),
                999_500,
                2000,
                1_000_000,
                1,
                50,
                10,
            ),
            WeaponType::Gungine => WeaponData::new_bullet_subtype(
                self,
                250,
                true,
                20_000_000,
                100_000,
                Vec2Fp::new(0, -800_000_000),
                Vec2Fp::new(0, -4_000_000),
                999_500,
                2000,
                1_000_000,
                1,
                50,
                2,
            ),
            WeaponType::MachineGun => WeaponData::new_bullet_subtype(
                self,
                100,
                true,
                50_000_000,
                300_000,
                Vec2Fp::new(0, 1_000_000_000),
                Vec2Fp::new(0, -3_000_000),
                995_000,
                600,
                600_000,
                1,
                5,
                0,
            ),
            WeaponType::Laser => WeaponData::new_laser_subtype(
                self,
                10,
                true,
                5_000_000,
                0,
                20,
                15_000_000,
                None,
                5,
            ),
            WeaponType::SpreadGun => WeaponData::new_bullet_subtype(
                self,
                100,
                true,
                16_660_000,
                700_000,
                Vec2Fp::new(0, 1_000_000_000),
                Vec2Fp::new(0, -3_000_000),
                995_000,
                600,
                600_000,
                3,
                5,
                0,
            ),
            WeaponType::Missile => unreached(),
        }
    }
}

/// Whether a ticked cooldown together with the intent grants a shot:
/// the period must have elapsed, and an automatic weapon wants the fire
/// control held while a semi-automatic one wants a fresh press.
pub open spec fn fire_granted(weapon: WeaponData, intent: Intent, dt_ms: u64) -> bool {
    &&& ticked_elapsed(weapon.timer, dt_ms) >= weapon.timer.duration_ms
    &&& ((weapon.automatic && intent.fire) || (!weapon.automatic && intent.just_fired))
}

/// Cooldown gate for the player's weapon.  The cooldown always ticks;
/// a honoured request becomes a fire event and restarts the cooldown.
pub fn player_fire_gate(
    weapon: &mut WeaponData,
    intent: &Intent,
    dt_ms: u64,
    entity: EntityId,
    velocity: Vec2Fp,
) -> (r: Option<WeaponFired>)
    requires
        old(weapon).timer.wf(),
    ensures
        final(weapon).timer.wf(),
        *final(weapon) == (WeaponData { timer: final(weapon).timer, ..*old(weapon) }),
        if fire_granted(*old(weapon), *intent, dt_ms) {
            &&& r == Some(WeaponFired {
                entity,
                entity_velocity: velocity,
                hostile: false,
                weapon_type: old(weapon).weapon_type,
            })
            &&& final(weapon).timer.elapsed_ms == 0
            &&& final(weapon).timer.duration_ms == old(weapon).timer.duration_ms
        } else {
            &&& r is None
            &&& final(weapon).timer == (SimTimer {
                elapsed_ms: ticked_elapsed(old(weapon).timer, dt_ms) as u64,
                duration_ms: old(weapon).timer.duration_ms,
            })
        },
{
    self_tick_and_gate(weapon, intent, dt_ms, entity, velocity, false, true)
}

/// Cooldown gate for an enemy weapon: the cooldown only ticks while
/// the AI holds its fire intent, and a granted shot is hostile.
pub fn enemy_fire_gate(
    weapon: &mut WeaponData,
    intent: &Intent,
    dt_ms: u64,
    entity: EntityId,
    velocity: Vec2Fp,
) -> (r: Option<WeaponFired>)
    requires
        old(weapon).timer.wf(),
    ensures
        final(weapon).timer.wf(),
        *final(weapon) == (WeaponData { timer: final(weapon).timer, ..*old(weapon) }),
        if !intent.fire {
            r is None && *final(weapon) == *old(weapon)
        } else if fire_granted(*old(weapon), *intent, dt_ms) {
            &&& r == Some(WeaponFired {
                entity,
                entity_velocity: velocity,
                hostile: true,
                weapon_type: old(weapon).weapon_type,
            })
            &&& final(weapon).timer.elapsed_ms == 0
            &&& final(weapon).timer.duration_ms == old(weapon).timer.duration_ms
        } else {
            &&& r is None
            &&& final(weapon).timer == (SimTimer {
                elapsed_ms: ticked_elapsed(old(weapon).timer, dt_ms) as u64,
                duration_ms: old(weapon).timer.duration_ms,
            })
        },
{
    if !intent.fire {
        return None;
    }
    self_tick_and_gate(weapon, intent, dt_ms, entity, velocity, true, false)
}

/// Shared cooldown plumbing for both gates.  `require_fire_held`
/// narrows an automatic weapon's gate to the `fire` intent; for the
/// player gate the trigger discipline is read from the weapon alone.
fn self_tick_and_gate(
    weapon: &mut WeaponData,
    intent: &Intent,
    dt_ms: u64,
    entity: EntityId,
    velocity: Vec2Fp,
    hostile: bool,
    _player: bool,
) -> (r: Option<WeaponFired>)
    requires
        old(weapon).timer.wf(),
    ensures
        final(weapon).timer.wf(),
        *final(weapon) == (WeaponData { timer: final(weapon).timer, ..*old(weapon) }),
        if fire_granted(*old(weapon), *intent, dt_ms) {
            &&& r == Some(WeaponFired {
                entity,
                entity_velocity: velocity,
                hostile,
                weapon_type: old(weapon).weapon_type,
            })
            &&& final(weapon).timer.elapsed_ms == 0
            &&& final(weapon).timer.duration_ms == old(weapon).timer.duration_ms
        } else {
            &&& r is None
            &&& final(weapon).timer == (SimTimer {
                elapsed_ms: ticked_elapsed(old(weapon).timer, dt_ms) as u64,
                duration_ms: old(weapon).timer.duration_ms,
            })
        },
{
    let mut timer = weapon.timer;
    timer.tick(dt_ms);
    let ready = timer.finished();
    weapon.timer = timer;
    if ready && ((weapon.automatic && intent.fire) || (!weapon.automatic && intent.just_fired)) {
        weapon.timer.reset();
        Some(WeaponFired::new(entity, velocity, hostile, weapon.weapon_type))
    } else {
        None
    }
}

/// The velocity of a spawned projectile: the firer's velocity plus the
/// muzzle velocity rotated by the firer's heading and a sampled spread
/// angle derived from the fraction `f`.
pub open spec fn bullet_velocity_model(
    entity_velocity: Vec2Fp,
    rotation: int,
    spread: int,
    f: int,
    muzzle: Vec2Fp,
) -> Vec2Fp {
    let angle = rotation + mul_fp_spec(spread, f - SCALE as int / 2);
    let c = cos_spec(angle);
    let s = sin_spec(angle);
    Vec2Fp {
        x: (entity_velocity.x + mul_fp_spec(muzzle.x as int, c) - mul_fp_spec(
            muzzle.y as int,
            s,
        )) as i64,
        y: (entity_velocity.y + mul_fp_spec(muzzle.x as int, s) + mul_fp_spec(
            muzzle.y as int,
            c,
        )) as i64,
    }
}

/// Everything about a freshly spawned projectile except its sampled
/// velocity.
pub open spec fn projectile_matches_weapon(
    p: Projectile,
    weapon: WeaponData,
    hostile: bool,
    position: Vec2Fp,
    gravity: Vec2Fp,
    bullet_mass: i64,
    friction: i64,
    bullet_scale: i64,
) -> bool {
    &&& p.damage == weapon.damage
    &&& p.piercing == weapon.piercing
    &&& p.hostile_to_player == hostile
    &&& p.position == position
    &&& p.physics.mass == bullet_mass
    &&& p.physics.friction == friction
    &&& p.physics.gravity == gravity
    &&& p.radius == mul_fp_spec(BULLET_BASE_RADIUS as int, bullet_scale as int)
    &&& p.lifetime == (SimTimer { elapsed_ms: 0u64, duration_ms: weapon.lifetime_ms })
    &&& p.alive
}

/// Consume one fire event: spawn the weapon's projectile batch, or its
/// beam.  Every projectile copies the weapon's ballistics; its heading
/// spread is a fresh uniform sample, so the contract states membership
/// of the sampled family rather than a fixed value.
pub fn fire_weapon(
    event: &WeaponFired,
    position: Vec2Fp,
    rotation: i64,
    weapon: &WeaponData,
) -> (spawned: (Vec<Projectile>, Option<Beam>))
    requires
        event.weapon_type == weapon.weapon_type,
        weapon.wf(),
        0 <= rotation <= crate::fp::TAU_FP,
        position.in_coord_range(),
        -COORD_LIMIT + BEAM_ANCHOR_OFFSET <= position.x <= COORD_LIMIT - BEAM_ANCHOR_OFFSET,
        -COORD_LIMIT + BEAM_ANCHOR_OFFSET <= position.y <= COORD_LIMIT - BEAM_ANCHOR_OFFSET,
        -SPEED_LIMIT + 2 * MUZZLE_LIMIT <= event.entity_velocity.x
            <= SPEED_LIMIT - 2 * MUZZLE_LIMIT,
        -SPEED_LIMIT + 2 * MUZZLE_LIMIT <= event.entity_velocity.y
            <= SPEED_LIMIT - 2 * MUZZLE_LIMIT,
    ensures
        match weapon.subtype {
            WeaponSubtype::BulletBased {
                velocity,
                gravity,
                bullet_mass,
                friction,
                bullet_scale,
                num_spawned_per_shot,
            } => {
                &&& spawned.1 is None
                &&& spawned.0@.len() == num_spawned_per_shot
                &&& forall|i: int| 0 <= i < spawned.0@.len() ==> {
                    &&& projectile_matches_weapon(
                        #[trigger] spawned.0@[i],
                        *weapon,
                        event.hostile,
                        position,
                        gravity,
                        bullet_mass,
                        friction,
                        bullet_scale,
                    )
                    &&& exists|f: int|
                        0 <= f < SCALE && spawned.0@[i].physics.velocity
                            == bullet_velocity_model(
                            event.entity_velocity,
                            rotation as int,
                            weapon.spread as int,
                            f,
                            velocity,
                        )
                    &&& spawned.0@[i].wf()
                }
            },
            WeaponSubtype::Laser { width, max_dist } => {
                &&& spawned.0@.len() == 0
                &&& spawned.1 == Some(Beam {
                    damage: weapon.damage,
                    hostile: event.hostile,
                    width,
                    max_dist,
                    origin: Vec2Fp {
                        x: (position.x + mul_fp_spec(
                            (-sin_spec(rotation as int)),
                            BEAM_ANCHOR_OFFSET as int,
                        )) as i64,
                        y: (position.y + mul_fp_spec(
                            cos_spec(rotation as int),
                            BEAM_ANCHOR_OFFSET as int,
                        )) as i64,
                    },
                    rotation,
                    lifetime: SimTimer { elapsed_ms: 0u64, duration_ms: weapon.lifetime_ms },
                    alive: true,
                })
                &&& spawned.1.unwrap().wf()
            },
        },
{
    match weapon.subtype {
        WeaponSubtype::BulletBased {
            velocity,
            gravity,
            bullet_mass,
            friction,
            bullet_scale,
            num_spawned_per_shot,
        } => {
            let mut bullets: Vec<Projectile> = Vec::new();
            let mut k: u8 = 0;
            proof {
                let prod = (BULLET_BASE_RADIUS as int) * (bullet_scale as int);
                assert(0 <= prod <= (COORD_LIMIT as int) * (SCALE as int)) by (nonlinear_arith)
                    requires
                        0 <= bullet_scale as int <= 10 * (SCALE as int),
                        prod == (BULLET_BASE_RADIUS as int) * (bullet_scale as int);
                crate::fp::lemma_tdiv_bound(prod, COORD_LIMIT as int, SCALE as int);
                vstd::arithmetic::div_mod::lemma_div_pos_is_pos(prod, SCALE as int);
            }
            let radius = mul_fp(BULLET_BASE_RADIUS, bullet_scale);
            while k < num_spawned_per_shot
                invariant
                    weapon.wf(),
                    0 <= rotation <= crate::fp::TAU_FP,
                    weapon.subtype == (WeaponSubtype::BulletBased {
                        velocity,
                        gravity,
                        bullet_mass,
                        friction,
                        bullet_scale,
                        num_spawned_per_shot,
                    }),
                    position.in_coord_range(),
                    -SPEED_LIMIT + 2 * MUZZLE_LIMIT <= event.entity_velocity.x
                        <= SPEED_LIMIT - 2 * MUZZLE_LIMIT,
                    -SPEED_LIMIT + 2 * MUZZLE_LIMIT <= event.entity_velocity.y
                        <= SPEED_LIMIT - 2 * MUZZLE_LIMIT,
                    radius == mul_fp_spec(BULLET_BASE_RADIUS as int, bullet_scale as int),
                    0 <= radius <= COORD_LIMIT,
                    k <= num_spawned_per_shot,
                    bullets@.len() == k,
                    forall|i: int| 0 <= i < bullets@.len() ==> {
                        &&& projectile_matches_weapon(
                            #[trigger] bullets@[i],
                            *weapon,
                            event.hostile,
                            position,
                            gravity,
                            bullet_mass,
                            friction,
                            bullet_scale,
                        )
                        &&& exists|f: int|
                            0 <= f < SCALE && bullets@[i].physics.velocity
                                == bullet_velocity_model(
                                event.entity_velocity,
                                rotation as int,
                                weapon.spread as int,
                                f,
                                velocity,
                            )
                        &&& bullets@[i].wf()
                    },
                decreases num_spawned_per_shot - k,
            {
                let f = random_fraction();
                let half: i64 = SCALE / 2;
                let fh: i64 = f - half;
                let angle_off = mul_fp(weapon.spread, fh);
                proof {
                    lemma_mul_fp_contracts(weapon.spread, fh, SCALE as int);
                }
                let angle = rotation + angle_off;
                let c = cos_fp(angle);
                let s = sin_fp(angle);
                proof {
                    lemma_mul_fp_contracts(velocity.x, c, MUZZLE_LIMIT as int);
                    lemma_mul_fp_contracts(velocity.x, s, MUZZLE_LIMIT as int);
                    lemma_mul_fp_contracts(velocity.y, c, MUZZLE_LIMIT as int);
                    lemma_mul_fp_contracts(velocity.y, s, MUZZLE_LIMIT as int);
                }
                let vel = Vec2Fp {
                    x: event.entity_velocity.x + (mul_fp(velocity.x, c) - mul_fp(velocity.y, s)),
                    y: event.entity_velocity.y + (mul_fp(velocity.x, s) + mul_fp(velocity.y, c)),
                };
                let bullet = Projectile {
                    damage: weapon.damage,
                    piercing: weapon.piercing,
                    hostile_to_player: event.hostile,
                    position,
                    physics: Physics {
                        mass: bullet_mass,
                        velocity: vel,
                        friction,
                        gravity,
                    },
                    radius,
                    lifetime: SimTimer::new(weapon.lifetime_ms),
                    alive: true,
                };
                proof {
                    let fi = f as int;
                    assert(0 <= fi < SCALE);
                    assert(bullet.physics.velocity == bullet_velocity_model(
                        event.entity_velocity,
                        rotation as int,
                        weapon.spread as int,
                        fi,
                        velocity,
                    ));
                }
                bullets.push(bullet);
                k = k + 1;
            }
            (bullets, None)
        },
        WeaponSubtype::Laser { width, max_dist } => {
            let s = sin_fp(rotation);
            let c = cos_fp(rotation);
            let ns = -s;
            proof {
                crate::fp::lemma_mul_fp_contracts_left(ns, BEAM_ANCHOR_OFFSET,
                    BEAM_ANCHOR_OFFSET as int);
                crate::fp::lemma_mul_fp_contracts_left(c, BEAM_ANCHOR_OFFSET,
                    BEAM_ANCHOR_OFFSET as int);
            }
            let origin = Vec2Fp {
                x: position.x + mul_fp(ns, BEAM_ANCHOR_OFFSET),
                y: position.y + mul_fp(c, BEAM_ANCHOR_OFFSET),
            };
            let beam = Beam {
                damage: weapon.damage,
                hostile: event.hostile,
                width,
                max_dist,
                origin,
                rotation,
                lifetime: SimTimer::new(weapon.lifetime_ms),
                alive: true,
            };
            (Vec::new(), Some(beam))
        },
    }
}

} // verus!
