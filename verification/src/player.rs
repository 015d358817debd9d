//! Player-facing systems: intent-driven movement and death detection.

use vstd::prelude::*;

use crate::body::BodyType;
use crate::config::GameConfig;
use crate::engines::{EngineType, SuperboostEngine};
use crate::events::PlayerDeath;
use crate::fp::{mul_fp, mul_fp_spec, norm_angle, SCALE, TAU_FP};
use crate::modifier::{recalculate, recalculated_model};
use crate::object::{Craft, Intent, Physics};
use crate::physics::{clamp_i64, clamped, dt_factor, VEL_CLAMP, MAX_TICK_MS};
use crate::stats::{PlaneMovementStats, PlayerStats, HP};
use crate::vec2::{forward_of, Vec2Fp};
use crate::weapon::{WeaponData, WeaponSubtype, WeaponType};

verus! {

/// Movement stats are clamped here before use, so a misconfigured
/// modifier can degrade handling but never break the integrator.
pub const MOVE_LIMIT: i64 = 10_000_000_000;

/// Velocity damping applied while braking.
pub const BRAKE_FACTOR: i64 = 975_000;

/// One tick of intent-driven movement: the craft turns by
/// `turn_intent * turn_speed * dt`, then thrusts along its new heading
/// while accelerating, and damps its velocity while braking.
pub open spec fn movement_model(
    rotation: int,
    velocity: Vec2Fp,
    intent: Intent,
    stats: PlaneMovementStats,
    dt_ms: u64,
) -> (int, Vec2Fp) {
    let ts = clamped(stats.turn_speed as int, MOVE_LIMIT as int);
    let acc = clamped(stats.acceleration as int, MOVE_LIMIT as int);
    let turn = mul_fp_spec(mul_fp_spec(ts, intent.turn_intent as int), dt_factor(dt_ms));
    let rot2 = (rotation + turn) % (TAU_FP as int);
    let v1 = if intent.accelerate {
        let fwd = forward_of(rot2);
        Vec2Fp {
            x: clamped(velocity.x + mul_fp_spec(acc, fwd.x as int), VEL_CLAMP as int) as i64,
            y: clamped(velocity.y + mul_fp_spec(acc, fwd.y as int), VEL_CLAMP as int) as i64,
        }
    } else {
        velocity
    };
    let v2 = if intent.brake {
        Vec2Fp {
            x: mul_fp_spec(v1.x as int, BRAKE_FACTOR as int) as i64,
            y: mul_fp_spec(v1.y as int, BRAKE_FACTOR as int) as i64,
        }
    } else {
        v1
    };
    (rot2, v2)
}

/// Apply one tick of intent to a craft's heading and velocity.
pub fn plane_intent_movement_system(
    rotation: &mut i64,
    physics: &mut Physics,
    intent: &Intent,
    stats: &PlaneMovementStats,
    dt_ms: u64,
)
    requires
        intent.wf(),
        old(physics).wf(),
        0 <= *old(rotation) < TAU_FP,
        dt_ms <= MAX_TICK_MS,
    ensures
        (*final(rotation) as int, final(physics).velocity) == movement_model(
            *old(rotation) as int,
            old(physics).velocity,
            *intent,
            *stats,
            dt_ms,
        ),
        *final(physics) == (Physics { velocity: final(physics).velocity, ..*old(physics) }),
        0 <= *final(rotation) < TAU_FP,
        final(physics).wf(),
{
    let ts = clamp_i64(stats.turn_speed, MOVE_LIMIT);
    let acc = clamp_i64(stats.acceleration, MOVE_LIMIT);
    proof {
        crate::fp::lemma_mul_fp_contracts(ts, intent.turn_intent, MOVE_LIMIT as int);
    }
    let swept = mul_fp(ts, intent.turn_intent);
    let dtf: i64 = (dt_ms as i64) * 1000;
    proof {
        crate::fp::lemma_mul_fp_in_range(swept, dtf);
    }
    let turn = mul_fp(swept, dtf);
    let rot2 = norm_angle(*rotation + turn);
    *rotation = rot2;
    if intent.accelerate {
        let fwd = crate::vec2::forward_dir(rot2);
        proof {
            crate::fp::lemma_mul_fp_contracts(acc, fwd.x, MOVE_LIMIT as int);
            crate::fp::lemma_mul_fp_contracts(acc, fwd.y, MOVE_LIMIT as int);
        }
        let vx = clamp_i64(physics.velocity.x + mul_fp(acc, fwd.x), VEL_CLAMP);
        let vy = clamp_i64(physics.velocity.y + mul_fp(acc, fwd.y), VEL_CLAMP);
        physics.velocity = Vec2Fp { x: vx, y: vy };
    }
    if intent.brake {
        proof {
            crate::fp::lemma_mul_fp_contracts(
                physics.velocity.x,
                BRAKE_FACTOR,
                crate::object::SPEED_LIMIT as int,
            );
            crate::fp::lemma_mul_fp_contracts(
                physics.velocity.y,
                BRAKE_FACTOR,
                crate::object::SPEED_LIMIT as int,
            );
        }
        physics.velocity = Vec2Fp {
            x: mul_fp(physics.velocity.x, BRAKE_FACTOR),
            y: mul_fp(physics.velocity.y, BRAKE_FACTOR),
        };
    }
}

/// Whether a craft's health has reached zero: the death condition read
/// after all of the tick's damage has settled.
pub open spec fn is_dead(hp: int) -> bool {
    hp <= 0
}

/// Emit a player-death event when the player's health is spent.
pub fn player_death_detection_system(hp: i64) -> (r: Option<PlayerDeath>)
    ensures
        r is Some <==> is_dead(hp as int),
{
    if hp <= 0 {
        Some(PlayerDeath)
    } else {
        None
    }
}

/// A loadout selection: weapon, hull and engine.
#[derive(Clone, Copy, PartialEq, Eq, Structural, Debug)]
pub struct PlayerBuild {
    pub weapon: WeaponType,
    pub body: BodyType,
    pub engine: EngineType,
}

/// Everything a freshly spawned player craft carries.
pub struct PlayerSpawn {
    pub craft: Craft,
    pub stats: PlayerStats,
    pub weapon: WeaponData,
    pub engine: Option<SuperboostEngine>,
}

/// Ballistic player weapons swap in a slightly smaller projectile.
pub const PLAYER_BULLET_SCALE: i64 = 900_000;

/// The player's base craft, before any modifier settles.
pub open spec fn stock_player_craft(id: crate::events::EntityId) -> Craft {
    Craft {
        id,
        position: Vec2Fp { x: 0i64, y: 0i64 },
        rotation: 0i64,
        physics: Physics {
            mass: 100_000_000i64,
            velocity: Vec2Fp { x: 0i64, y: 0i64 },
            friction: 990_000i64,
            gravity: Vec2Fp { x: 0i64, y: -4_000_000i64 },
        },
        hp: HP { hp: 100_000_000i64, max: 100_000_000i64, regen: 20_000_000i64 },
        radius: 10_000_000i64,
        movement: PlaneMovementStats { acceleration: 10_000_000i64, turn_speed: 4_000_000i64 },
        intent: Intent {
            accelerate: false,
            brake: false,
            turn_intent: 0i64,
            fire: false,
            just_fired: false,
        },
    }
}

/// The selected weapon's record, with the player's projectile scale
/// swapped into ballistic subtypes.
pub open spec fn player_weapon_of(w: WeaponType) -> WeaponData {
    let base = w.table_spec();
    match base.subtype {
        WeaponSubtype::BulletBased {
            velocity,
            gravity,
            bullet_mass,
            friction,
            bullet_scale,
            num_spawned_per_shot,
        } => WeaponData {
            subtype: WeaponSubtype::BulletBased {
                velocity,
                gravity,
                bullet_mass,
                friction,
                bullet_scale: PLAYER_BULLET_SCALE,
                num_spawned_per_shot,
            },
            ..base
        },
        WeaponSubtype::Laser { .. } => base,
    }
}

/// The base stats with the selected body's modifiers settled once, in
/// the order movement, combat stats, health.
pub open spec fn player_body_settled(body: BodyType, craft: Craft, stats: PlayerStats) -> (
    Craft,
    PlayerStats,
) {
    match body {
        BodyType::Heavy => {
            let hb = crate::body::HeavyBody { dirty_plane: true, dirty_hp: true };
            let (hb1, movement) = recalculated_model::<PlaneMovementStats, crate::body::HeavyBody>(
                hb,
                craft.movement,
            );
            let (hb2, hp) = recalculated_model::<HP, crate::body::HeavyBody>(hb1, craft.hp);
            (Craft { movement, hp, ..craft }, stats)
        },
        BodyType::Melee => {
            let mb = crate::body::MeleeBody { dirty_player: true, dirty_hp: true };
            let (mb1, stats2) = recalculated_model::<PlayerStats, crate::body::MeleeBody>(
                mb,
                stats,
            );
            let (mb2, hp) = recalculated_model::<HP, crate::body::MeleeBody>(mb1, craft.hp);
            (Craft { hp, ..craft }, stats2)
        },
        BodyType::Nuke => {
            let nb = crate::body::NukeBody { dirty_player: true, dirty_hp: true };
            let (nb1, stats2) = recalculated_model::<PlayerStats, crate::body::NukeBody>(
                nb,
                stats,
            );
            let (nb2, hp) = recalculated_model::<HP, crate::body::NukeBody>(nb1, craft.hp);
            (Craft { hp, ..craft }, stats2)
        },
        BodyType::Normal => (craft, stats),
        BodyType::Bomber => (craft, stats),
    }
}

/// Assemble the player for a session from the selected build: the
/// stock craft with the chosen body's modifiers settled, the chosen
/// weapon with the player's projectile scale, and a superboost engine
/// configured from the session tuning when one was selected.  The
/// missile launcher is untuned and the backward-firing engine's gun
/// is not a selectable build, so neither can be spawned.
pub fn add_player(build: PlayerBuild, config: &GameConfig, id: crate::events::EntityId) -> (r:
    PlayerSpawn)
    requires
        build.weapon != WeaponType::Missile,
        build.weapon != WeaponType::Gungine,
        build.engine != EngineType::Submarine,
        config.wf(),
    ensures
        (r.craft, r.stats) == player_body_settled(
            build.body,
            stock_player_craft(id),
            PlayerStats { contact_damage: SCALE as i64, takes_contact_damage: true },
        ),
        r.weapon == player_weapon_of(build.weapon),
        r.weapon.wf(),
        r.engine == match build.engine {
            EngineType::Superboost => Some(SuperboostEngine {
                modified_acceleration: false,
                modified_turn_speed: false,
                dirty: true,
                boosting: false,
                acceleration_modifier: config.superboost_acceleration_modifier,
                turn_speed_modifier: config.superboost_turn_speed_modifier,
                saved_turn_speed: 0i64,
            }),
            _ => None::<SuperboostEngine>,
        },
{
    let base_weapon = build.weapon.data_from_type();
    let weapon = match base_weapon.subtype {
        WeaponSubtype::BulletBased {
            velocity,
            gravity,
            bullet_mass,
            friction,
            bullet_scale: _,
            num_spawned_per_shot,
        } => WeaponData {
            subtype: WeaponSubtype::BulletBased {
                velocity,
                gravity,
                bullet_mass,
                friction,
                bullet_scale: PLAYER_BULLET_SCALE,
                num_spawned_per_shot,
            },
            ..base_weapon
        },
        WeaponSubtype::Laser { .. } => base_weapon,
    };
    let mut craft = Craft {
        id,
        position: Vec2Fp { x: 0, y: 0 },
        rotation: 0,
        physics: Physics {
            mass: 100_000_000,
            velocity: Vec2Fp { x: 0, y: 0 },
            friction: 990_000,
            gravity: Vec2Fp { x: 0, y: -4_000_000 },
        },
        hp: HP { hp: 100_000_000, max: 100_000_000, regen: 20_000_000 },
        radius: 10_000_000,
        movement: PlaneMovementStats { acceleration: 10_000_000, turn_speed: 4_000_000 },
        intent: Intent {
            accelerate: false,
            brake: false,
            turn_intent: 0,
            fire: false,
            just_fired: false,
        },
    };
    let mut stats = PlayerStats { contact_damage: SCALE, takes_contact_damage: true };
    match build.body {
        BodyType::Heavy => {
            let mut hb = crate::body::HeavyBody { dirty_plane: true, dirty_hp: true };
            let mut movement = craft.movement;
            recalculate(&mut hb, &mut movement);
            let mut hp = craft.hp;
            recalculate(&mut hb, &mut hp);
            craft.movement = movement;
            craft.hp = hp;
        },
        BodyType::Melee => {
            let mut mb = crate::body::MeleeBody { dirty_player: true, dirty_hp: true };
            recalculate(&mut mb, &mut stats);
            let mut hp = craft.hp;
            recalculate(&mut mb, &mut hp);
            craft.hp = hp;
        },
        BodyType::Nuke => {
            let mut nb = crate::body::NukeBody { dirty_player: true, dirty_hp: true };
            recalculate(&mut nb, &mut stats);
            let mut hp = craft.hp;
            recalculate(&mut nb, &mut hp);
            craft.hp = hp;
        },
        BodyType::Normal => {},
        BodyType::Bomber => {},
    }
    let engine = match build.engine {
        EngineType::Superboost => Some(SuperboostEngine::new(
            config.superboost_acceleration_modifier,
            config.superboost_turn_speed_modifier,
        )),
        _ => None,
    };
    PlayerSpawn { craft, stats, weapon, engine }
}

} // verus!
