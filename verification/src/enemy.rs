//! Enemy archetypes and wave spawning placement.

use vstd::prelude::*;

use crate::events::EntityId;
use crate::fp::{cos_spec, mul_fp, mul_fp_spec, sin_spec, isqrt, SCALE, TAU_FP};
use crate::object::{Craft, Enemy, Intent, Physics};
use crate::rng::random_fraction;
use crate::stats::{PlaneMovementStats, HP};
use crate::timer::SimTimer;
use crate::vec2::Vec2Fp;
use crate::weapon::{WeaponData, WeaponSubtype, WeaponType};

verus! {

/// Enemies of a wave appear inside a disc of this radius around the
/// player.
pub const ENEMY_SPAWN_RADIUS: i64 = 300_000_000;

/// Positions handed to the spawner must leave this much margin inside
/// the position box.
pub const SPAWN_MARGIN: i64 = 301_000_000;

/// A uniformly distributed point of the unit disc: a uniform angle and
/// a square-root-scaled radius, so the samples are uniform in area
/// rather than bunched at the centre.
pub fn random_in_circle() -> (r: Vec2Fp)
    ensures
        r.in_unit_range(),
        exists|phi: int, rad: i64|
            0 <= rad <= SCALE && r.x == mul_fp_spec(rad as int, cos_spec(phi)) && r.y
                == mul_fp_spec(rad as int, sin_spec(phi)),
{
    let u = random_fraction();
    let v = random_fraction();
    proof {
        crate::fp::lemma_mul_fp_contracts_left(u, TAU_FP, TAU_FP as int);
        assert(0 <= (v as int) * (SCALE as int) <= 1_000_000_000_000) by (nonlinear_arith)
            requires
                0 <= v < 1_000_000,
                SCALE == 1_000_000;
    }
    let phi = mul_fp(u, TAU_FP);
    let rad_u: u64 = isqrt((v as u64) * (SCALE as u64));
    proof {
        assert(rad_u <= 1_000_000) by (nonlinear_arith)
            requires
                (rad_u as int) * (rad_u as int) <= 1_000_000_000_000,
                rad_u >= 0;
    }
    let rad: i64 = rad_u as i64;
    let c = crate::fp::cos_fp(phi);
    let s = crate::fp::sin_fp(phi);
    proof {
        crate::fp::lemma_mul_fp_contracts(rad, c, SCALE as int);
        crate::fp::lemma_mul_fp_contracts(rad, s, SCALE as int);
    }
    let r = Vec2Fp { x: mul_fp(rad, c), y: mul_fp(rad, s) };
    proof {
        assert(0 <= rad <= SCALE && r.x == mul_fp_spec(rad as int, cos_spec(phi as int)) && r.y
            == mul_fp_spec(rad as int, sin_spec(phi as int)));
    }
    r
}

/// The weapon a basic enemy carries: the machine-gun archetype with a
/// slow trigger, gentle ballistics and a long projectile life.
pub open spec fn basic_enemy_weapon() -> WeaponData {
    WeaponData {
        timer: SimTimer { elapsed_ms: 0u64, duration_ms: 1000u64 },
        weapon_type: WeaponType::MachineGun,
        damage: 20_000_000i64,
        automatic: true,
        spread: 300_000i64,
        piercing: 0u32,
        lifetime_ms: 3000u64,
        subtype: WeaponSubtype::BulletBased {
            velocity: Vec2Fp { x: 0i64, y: 100_000_000i64 },
            gravity: Vec2Fp { x: 0i64, y: -300_000i64 },
            bullet_mass: 10_000i64,
            friction: 1_000_000i64,
            bullet_scale: 1_000_000i64,
            num_spawned_per_shot: 1u8,
        },
    }
}

/// Everything about a freshly spawned basic enemy except its sampled
/// position.
pub open spec fn basic_enemy_matches(e: Enemy, id: EntityId) -> bool {
    &&& e.craft.id == id
    &&& e.craft.rotation == 0
    &&& e.craft.physics == (Physics {
        mass: 50_000_000i64,
        velocity: Vec2Fp { x: 0i64, y: 0i64 },
        friction: 995_000i64,
        gravity: Vec2Fp { x: 0i64, y: -4_000_000i64 },
    })
    &&& e.craft.hp == (HP { hp: 100_000_000i64, max: 100_000_000i64, regen: 0i64 })
    &&& e.craft.radius == 10_000_000
    &&& e.craft.movement == (PlaneMovementStats {
        acceleration: 6_000_000i64,
        turn_speed: 1_500_000i64,
    })
    &&& e.craft.intent == (Intent {
        accelerate: false,
        brake: false,
        turn_intent: 0i64,
        fire: false,
        just_fired: false,
    })
    &&& e.score == 16
    &&& e.heat_reward == 500_000
    &&& e.weapon == basic_enemy_weapon()
}

/// Spawn one basic enemy at a uniformly sampled point of the spawn
/// disc around the player.
pub fn add_basic_enemy(player_position: Vec2Fp, id: EntityId) -> (e: Enemy)
    requires
        -crate::physics::POS_CLAMP <= player_position.x <= crate::physics::POS_CLAMP,
        -crate::physics::POS_CLAMP <= player_position.y <= crate::physics::POS_CLAMP,
    ensures
        basic_enemy_matches(e, id),
        -ENEMY_SPAWN_RADIUS <= e.craft.position.x - player_position.x <= ENEMY_SPAWN_RADIUS,
        -ENEMY_SPAWN_RADIUS <= e.craft.position.y - player_position.y <= ENEMY_SPAWN_RADIUS,
        e.wf(),
{
    let offset = random_in_circle();
    proof {
        crate::fp::lemma_mul_fp_contracts_left(offset.x, ENEMY_SPAWN_RADIUS,
            ENEMY_SPAWN_RADIUS as int);
        crate::fp::lemma_mul_fp_contracts_left(offset.y, ENEMY_SPAWN_RADIUS,
            ENEMY_SPAWN_RADIUS as int);
    }
    let dx = mul_fp(offset.x, ENEMY_SPAWN_RADIUS);
    let dy = mul_fp(offset.y, ENEMY_SPAWN_RADIUS);
    let position = Vec2Fp { x: player_position.x + dx, y: player_position.y + dy };
    Enemy {
        craft: Craft {
            id,
            position,
            rotation: 0,
            physics: Physics {
                mass: 50_000_000,
                velocity: Vec2Fp { x: 0, y: 0 },
                friction: 995_000,
                gravity: Vec2Fp { x: 0, y: -4_000_000 },
            },
            hp: HP { hp: 100_000_000, max: 100_000_000, regen: 0 },
            radius: 10_000_000,
            movement: PlaneMovementStats { acceleration: 6_000_000, turn_speed: 1_500_000 },
            intent: Intent {
                accelerate: false,
                brake: false,
                turn_intent: 0,
                fire: false,
                just_fired: false,
            },
        },
        score: 16,
        heat_reward: 500_000,
        weapon: basic_enemy_weapon_build(),
    }
}

/// Build the basic enemy's weapon record.
pub fn basic_enemy_weapon_build() -> (w: WeaponData)
    ensures
        w == basic_enemy_weapon(),
        w.wf(),
{
    WeaponData {
        timer: SimTimer::new(1000),
        weapon_type: WeaponType::MachineGun,
        damage: 20_000_000,
        automatic: true,
        spread: 300_000,
        piercing: 0,
        lifetime_ms: 3000,
        subtype: WeaponSubtype::BulletBased {
            velocity: Vec2Fp { x: 0, y: 100_000_000 },
            gravity: Vec2Fp { x: 0, y: -300_000 },
            bullet_mass: 10_000,
            friction: 1_000_000,
            bullet_scale: 1_000_000,
            num_spawned_per_shot: 1,
        },
    }
}

/// The death events a set of enemies owes this tick, in order: one
/// event, carrying the score and heat payload, for each enemy whose
/// health has reached zero after the tick's damage settled.
pub open spec fn death_events_of(es: Seq<Enemy>) -> Seq<crate::events::EnemyDeath> {
    es.filter(|e: Enemy| e.craft.hp.hp <= 0).map_values(
        |e: Enemy| crate::events::EnemyDeath { entity: e.craft.id, score: e.score, heat: e.heat_reward },
    )
}

/// Emit an enemy-death event for every enemy whose health is spent.
pub fn enemy_death_detection_system(enemies: &Vec<Enemy>) -> (events: Vec<crate::events::EnemyDeath>)
    ensures
        events@ == death_events_of(enemies@),
{
    let ghost es0 = enemies@;
    let ghost dead = |e: Enemy| e.craft.hp.hp <= 0;
    let ghost to_event = |e: Enemy| crate::events::EnemyDeath {
        entity: e.craft.id,
        score: e.score,
        heat: e.heat_reward,
    };
    let mut events: Vec<crate::events::EnemyDeath> = Vec::new();
    let n = enemies.len();
    let mut i: usize = 0;
    proof {
        reveal(Seq::filter);
        assert(es0.subrange(0, 0) =~= Seq::<Enemy>::empty());
        assert(events@ =~= es0.subrange(0, 0).filter(dead).map_values(to_event));
    }
    while i < n
        invariant
            n == es0.len(),
            i <= n,
            enemies@ == es0,
            events@ == es0.subrange(0, i as int).filter(dead).map_values(to_event),
            dead == (|e: Enemy| e.craft.hp.hp <= 0),
            to_event == (|e: Enemy| crate::events::EnemyDeath {
                entity: e.craft.id,
                score: e.score,
                heat: e.heat_reward,
            }),
        decreases n - i,
    {
        let ghost prefix = es0.subrange(0, i as int);
        let ghost prefix1 = es0.subrange(0, i as int + 1);
        proof {
            reveal(Seq::filter);
            assert(prefix1.drop_last() =~= prefix);
            assert(prefix1.last() == es0[i as int]);
        }
        let e = &enemies[i];
        if e.craft.hp.hp <= 0 {
            events.push(crate::events::EnemyDeath {
                entity: e.craft.id,
                score: e.score,
                heat: e.heat_reward,
            });
            proof {
                assert(prefix1.filter(dead) =~= prefix.filter(dead).push(es0[i as int]));
                assert(prefix1.filter(dead).map_values(to_event) =~= prefix.filter(dead).map_values(
                    to_event,
                ).push(to_event(es0[i as int])));
            }
        } else {
            proof {
                assert(prefix1.filter(dead) =~= prefix.filter(dead));
            }
        }
        i = i + 1;
    }
    proof {
        assert(es0.subrange(0, n as int) =~= es0);
    }
    events
}

/// The wave spawner's per-tick system: advance the cadence clock, and
/// when a wave falls due, spawn its enemies in a disc around the
/// player and cool the heat.  The tracker leaves exactly as one
/// cadence step says; on a due wave exactly `WAVE_SIZE` basic enemies
/// are appended, each inside the spawn disc around the player, and
/// the enemies already present are untouched.
pub fn wave_system(
    tracker: &mut crate::heat::HeatTracker,
    enemies: &mut Vec<Enemy>,
    player_position: Vec2Fp,
    dt_ms: u64,
    next_id: &mut u64,
)
    requires
        old(tracker).wf(),
        forall|i: int| 0 <= i < old(enemies)@.len() ==> (#[trigger] old(enemies)@[i]).wf(),
        -crate::physics::POS_CLAMP <= player_position.x <= crate::physics::POS_CLAMP,
        -crate::physics::POS_CLAMP <= player_position.y <= crate::physics::POS_CLAMP,
    ensures
        *final(tracker) == crate::heat::heat_stepped(*old(tracker), dt_ms),
        final(tracker).wf(),
        if crate::heat::wave_due(old(tracker).time_since_last_wave_ms, old(tracker).heat) {
            &&& final(enemies)@.len() == old(enemies)@.len() + crate::heat::WAVE_SIZE
            &&& final(enemies)@.subrange(0, old(enemies)@.len() as int) == old(enemies)@
            &&& forall|i: int|
                old(enemies)@.len() <= i < final(enemies)@.len() ==> {
                    let e = #[trigger] final(enemies)@[i];
                    &&& basic_enemy_matches(e, e.craft.id)
                    &&& -ENEMY_SPAWN_RADIUS <= e.craft.position.x - player_position.x
                        <= ENEMY_SPAWN_RADIUS
                    &&& -ENEMY_SPAWN_RADIUS <= e.craft.position.y - player_position.y
                        <= ENEMY_SPAWN_RADIUS
                    &&& e.wf()
                }
            &&& *final(next_id) == if *old(next_id) + crate::heat::WAVE_SIZE <= u64::MAX {
                *old(next_id) + crate::heat::WAVE_SIZE
            } else {
                u64::MAX as int
            }
        } else {
            &&& final(enemies)@ == old(enemies)@
            &&& *final(next_id) == *old(next_id)
        },
        forall|i: int| 0 <= i < final(enemies)@.len() ==> (#[trigger] final(enemies)@[i]).wf(),
{
    let ghost es0 = enemies@;
    let ghost id0 = *next_id;
    let wave = tracker.step(dt_ms);
    if let Some(count) = wave {
        let mut k: u32 = 0;
        while k < count
            invariant
                k <= count,
                count == crate::heat::WAVE_SIZE,
                enemies@.len() == es0.len() + k,
                enemies@.subrange(0, es0.len() as int) == es0,
                *next_id == if id0 + k <= u64::MAX {
                    id0 + k
                } else {
                    u64::MAX as int
                },
                -crate::physics::POS_CLAMP <= player_position.x <= crate::physics::POS_CLAMP,
                -crate::physics::POS_CLAMP <= player_position.y <= crate::physics::POS_CLAMP,
                forall|j: int| 0 <= j < es0.len() ==> (#[trigger] es0[j]).wf(),
                forall|j: int|
                    es0.len() <= j < enemies@.len() ==> {
                        let e = #[trigger] enemies@[j];
                        &&& basic_enemy_matches(e, e.craft.id)
                        &&& -ENEMY_SPAWN_RADIUS <= e.craft.position.x - player_position.x
                            <= ENEMY_SPAWN_RADIUS
                        &&& -ENEMY_SPAWN_RADIUS <= e.craft.position.y - player_position.y
                            <= ENEMY_SPAWN_RADIUS
                        &&& e.wf()
                    },
            decreases count - k,
        {
            let e = add_basic_enemy(player_position, *next_id);
            if *next_id < u64::MAX {
                *next_id = *next_id + 1;
            }
            enemies.push(e);
            proof {
                assert(enemies@.subrange(0, es0.len() as int) =~= es0);
            }
            k = k + 1;
        }
        proof {
            assert forall|i: int| 0 <= i < enemies@.len() implies (#[trigger] enemies@[i]).wf() by {
                if i < es0.len() {
                    assert(enemies@.subrange(0, es0.len() as int)[i] == enemies@[i]);
                    assert(es0[i].wf());
                }
            }
        }
    }
}

} // verus!
