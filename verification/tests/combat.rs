use arena_core::bullet::{
    bullet_sweep, circles_overlap_check, enemy_bullet_collision_system,
    player_bullet_collision_system,
};
use arena_core::enemy::basic_enemy_weapon_build;
use arena_core::events::WeaponFired;
use arena_core::laser::{beam_hits_check, beam_sweep};
use arena_core::object::{Beam, Craft, Enemy, Intent, Physics, Projectile};
use arena_core::stats::{PlaneMovementStats, HP};
use arena_core::timer::SimTimer;
use arena_core::vec2::Vec2Fp;
use arena_core::weapon::{
    enemy_fire_gate, fire_weapon, player_fire_gate, WeaponData, WeaponSubtype, WeaponType,
};

fn enemy_at(id: u64, x: i64, y: i64, hp: i64) -> Enemy {
    Enemy {
        craft: Craft {
            id,
            position: Vec2Fp { x, y },
            rotation: 0,
            physics: Physics {
                mass: 50_000_000,
                velocity: Vec2Fp { x: 0, y: 0 },
                friction: 995_000,
                gravity: Vec2Fp { x: 0, y: 0 },
            },
            hp: HP { hp, max: 100_000_000, regen: 0 },
            radius: 10_000_000,
            movement: PlaneMovementStats { acceleration: 6_000_000, turn_speed: 1_500_000 },
            intent: Intent { accelerate: false, brake: false, turn_intent: 0, fire: false, just_fired: false },
        },
        score: 16,
        heat_reward: 500_000,
        weapon: basic_enemy_weapon_build(),
    }
}

fn bullet_at(x: i64, y: i64, damage: i64, piercing: u32, hostile: bool) -> Projectile {
    Projectile {
        damage,
        piercing,
        hostile_to_player: hostile,
        position: Vec2Fp { x, y },
        physics: Physics {
            mass: 10_000,
            velocity: Vec2Fp { x: 0, y: 0 },
            friction: 1_000_000,
            gravity: Vec2Fp { x: 0, y: 0 },
        },
        radius: 10_000_000,
        lifetime: SimTimer::new(2000),
        alive: true,
    }
}

#[test]
fn bullet_strike_applies_damage_and_despawns() {
    // an enemy with health 100 struck by a damage-20, piercing-0 bullet
    let mut enemies = vec![enemy_at(7, 0, 0, 100_000_000)];
    let mut bullet = bullet_at(0, 0, 20_000_000, 0, false);
    let hits = bullet_sweep(&mut bullet, &mut enemies);
    assert_eq!(enemies[0].craft.hp.hp, 80_000_000);
    assert!(!bullet.alive);
    assert_eq!(hits.len(), 1);
    assert_eq!(hits[0].entity, 7);
    assert_eq!(hits[0].damage, 20_000_000);
}

#[test]
fn piercing_caps_distinct_targets() {
    // piercing 1 allows at most two distinct targets
    let mut enemies = vec![
        enemy_at(1, 0, 0, 100_000_000),
        enemy_at(2, 5_000_000, 0, 100_000_000),
        enemy_at(3, -5_000_000, 0, 100_000_000),
    ];
    let mut bullet = bullet_at(0, 0, 20_000_000, 1, false);
    let hits = bullet_sweep(&mut bullet, &mut enemies);
    assert_eq!(hits.len(), 2);
    assert_ne!(hits[0].entity, hits[1].entity);
    assert!(!bullet.alive);
    assert_eq!(enemies[0].craft.hp.hp, 80_000_000);
    assert_eq!(enemies[1].craft.hp.hp, 80_000_000);
    assert_eq!(enemies[2].craft.hp.hp, 100_000_000);
}

#[test]
fn hostile_bullet_ignores_enemies() {
    let mut enemies = vec![enemy_at(1, 0, 0, 100_000_000)];
    let mut bullets = vec![bullet_at(0, 0, 20_000_000, 0, true)];
    let hits = enemy_bullet_collision_system(&mut bullets, &mut enemies);
    assert!(hits.is_empty());
    assert_eq!(enemies[0].craft.hp.hp, 100_000_000);
    assert!(bullets[0].alive);
}

#[test]
fn friendly_bullet_ignores_player() {
    let mut bullets = vec![bullet_at(0, 0, 20_000_000, 0, false)];
    let mut hp = HP { hp: 100_000_000, max: 100_000_000, regen: 20_000_000 };
    let hits = player_bullet_collision_system(&mut bullets, &mut hp, Vec2Fp { x: 0, y: 0 }, 10_000_000);
    assert_eq!(hits, 0);
    assert_eq!(hp.hp, 100_000_000);
}

#[test]
fn hostile_bullet_damages_player() {
    let mut bullets = vec![bullet_at(0, 0, 20_000_000, 0, true)];
    let mut hp = HP { hp: 100_000_000, max: 100_000_000, regen: 20_000_000 };
    let hits = player_bullet_collision_system(&mut bullets, &mut hp, Vec2Fp { x: 0, y: 0 }, 10_000_000);
    assert_eq!(hits, 1);
    assert_eq!(hp.hp, 80_000_000);
    assert!(!bullets[0].alive);
}

#[test]
fn out_of_range_bullet_misses() {
    // centres 30 units apart, radii 10 + 10: no overlap
    let mut enemies = vec![enemy_at(1, 30_000_000, 0, 100_000_000)];
    let mut bullet = bullet_at(0, 0, 20_000_000, 0, false);
    let hits = bullet_sweep(&mut bullet, &mut enemies);
    assert!(hits.is_empty());
    assert!(bullet.alive);
    assert_eq!(enemies[0].craft.hp.hp, 100_000_000);
}

#[test]
fn circle_test_is_strict() {
    // distance exactly equal to the radius sum is not a hit
    let a = Vec2Fp { x: 0, y: 0 };
    let b = Vec2Fp { x: 20_000_000, y: 0 };
    assert!(!circles_overlap_check(a, 10_000_000, b, 10_000_000));
    let c = Vec2Fp { x: 19_999_999, y: 0 };
    assert!(circles_overlap_check(a, 10_000_000, c, 10_000_000));
}

fn flash_beam(width: i64, max_dist: Option<i64>) -> Beam {
    Beam {
        damage: 5_000_000,
        hostile: false,
        width,
        max_dist,
        origin: Vec2Fp { x: 0, y: 0 },
        rotation: 0,
        lifetime: SimTimer::new(20),
        alive: true,
    }
}

#[test]
fn beam_hits_aligned_target_every_pass() {
    // beam width 15, unbounded range, aimed straight at a target 50
    // units ahead with radius 10: rejection 0 < 25, projection 50 < out
    let beam = flash_beam(15_000_000, None);
    let mut enemies = vec![enemy_at(4, 0, 50_000_000, 100_000_000)];
    let hits = beam_sweep(&beam, &mut enemies);
    assert_eq!(hits.len(), 1);
    assert_eq!(hits[0].damage, 5_000_000);
    assert_eq!(enemies[0].craft.hp.hp, 95_000_000);
    // beams are continuous damage: the next tick's pass hits again
    let hits2 = beam_sweep(&beam, &mut enemies);
    assert_eq!(hits2.len(), 1);
    assert_eq!(enemies[0].craft.hp.hp, 90_000_000);
}

#[test]
fn beam_ignores_target_behind() {
    let beam = flash_beam(15_000_000, None);
    assert!(!beam_hits_check(&beam, Vec2Fp { x: 0, y: -50_000_000 }, 10_000_000));
}

#[test]
fn beam_respects_max_range() {
    let near = flash_beam(15_000_000, Some(40_000_000));
    assert!(!beam_hits_check(&near, Vec2Fp { x: 0, y: 50_000_000 }, 10_000_000));
    let far = flash_beam(15_000_000, Some(60_000_000));
    assert!(beam_hits_check(&far, Vec2Fp { x: 0, y: 50_000_000 }, 10_000_000));
}

#[test]
fn beam_rejects_wide_target() {
    // target 30 units to the side of the ray, width 15 + radius 10 < 30
    let beam = flash_beam(15_000_000, None);
    assert!(!beam_hits_check(&beam, Vec2Fp { x: 30_000_000, y: 50_000_000 }, 10_000_000));
}

#[test]
fn automatic_gate_needs_held_fire() {
    let mut weapon = WeaponType::MachineGun.data_from_type();
    let held = Intent { accelerate: false, brake: false, turn_intent: 0, fire: true, just_fired: false };
    let idle = Intent { accelerate: false, brake: false, turn_intent: 0, fire: false, just_fired: false };
    // cooldown not yet elapsed
    assert!(player_fire_gate(&mut weapon, &held, 50, 1, Vec2Fp { x: 0, y: 0 }).is_none());
    // elapsed but fire released
    assert!(player_fire_gate(&mut weapon, &idle, 100, 1, Vec2Fp { x: 0, y: 0 }).is_none());
    // elapsed and held: fires and resets the cooldown
    let ev = player_fire_gate(&mut weapon, &held, 0, 1, Vec2Fp { x: 3, y: 4 });
    let ev = ev.expect("gate should open");
    assert_eq!(ev.entity, 1);
    assert!(!ev.hostile);
    assert_eq!(ev.weapon_type, WeaponType::MachineGun);
    assert_eq!(weapon.timer.elapsed_ms, 0);
    assert!(player_fire_gate(&mut weapon, &held, 50, 1, Vec2Fp { x: 0, y: 0 }).is_none());
}

#[test]
fn semi_automatic_gate_needs_fresh_press() {
    let mut weapon = WeaponType::SlugGun.data_from_type();
    weapon.automatic = false;
    let held = Intent { accelerate: false, brake: false, turn_intent: 0, fire: true, just_fired: false };
    let pressed = Intent { accelerate: false, brake: false, turn_intent: 0, fire: true, just_fired: true };
    assert!(player_fire_gate(&mut weapon, &held, 1000, 1, Vec2Fp { x: 0, y: 0 }).is_none());
    assert!(player_fire_gate(&mut weapon, &pressed, 0, 1, Vec2Fp { x: 0, y: 0 }).is_some());
}

#[test]
fn enemy_gate_only_ticks_while_firing() {
    let mut weapon = basic_enemy_weapon_build();
    let idle = Intent { accelerate: false, brake: false, turn_intent: 0, fire: false, just_fired: false };
    let firing = Intent { accelerate: false, brake: false, turn_intent: 0, fire: true, just_fired: false };
    // without fire intent the cooldown must not advance
    assert!(enemy_fire_gate(&mut weapon, &idle, 5000, 9, Vec2Fp { x: 0, y: 0 }).is_none());
    assert_eq!(weapon.timer.elapsed_ms, 0);
    let ev = enemy_fire_gate(&mut weapon, &firing, 1000, 9, Vec2Fp { x: 0, y: 0 });
    let ev = ev.expect("gate should open");
    assert!(ev.hostile);
}

#[test]
fn fire_event_spawns_projectile_batch() {
    let weapon = WeaponType::SpreadGun.data_from_type();
    let ev = WeaponFired::new(1, Vec2Fp { x: 0, y: 0 }, false, WeaponType::SpreadGun);
    let (bullets, beam) = fire_weapon(&ev, Vec2Fp { x: 0, y: 0 }, 0, &weapon);
    assert!(beam.is_none());
    assert_eq!(bullets.len(), 3);
    for b in &bullets {
        assert_eq!(b.damage, 16_660_000);
        assert_eq!(b.piercing, 0);
        assert!(!b.hostile_to_player);
        assert!(b.alive);
        assert_eq!(b.lifetime.duration_ms, 600);
        // the spread angle is at most 0.35 rad, so the vertical muzzle
        // velocity keeps most of its magnitude
        assert!(b.physics.velocity.y > 900_000_000);
    }
}

#[test]
fn zero_spread_shot_inherits_exact_velocity() {
    let mut weapon = WeaponType::SlugGun.data_from_type();
    weapon.spread = 0;
    let ev = WeaponFired::new(1, Vec2Fp { x: 1_000_000, y: 2_000_000 }, false, WeaponType::SlugGun);
    let (bullets, _) = fire_weapon(&ev, Vec2Fp { x: 0, y: 0 }, 0, &weapon);
    assert_eq!(bullets.len(), 1);
    // heading straight up: velocity is the firer's plus the muzzle speed
    assert_eq!(bullets[0].physics.velocity.x, 1_000_000);
    assert_eq!(bullets[0].physics.velocity.y, 802_000_000);
}

#[test]
fn laser_event_spawns_anchored_beam() {
    let weapon = WeaponType::Laser.data_from_type();
    let ev = WeaponFired::new(1, Vec2Fp { x: 0, y: 0 }, false, WeaponType::Laser);
    let (bullets, beam) = fire_weapon(&ev, Vec2Fp { x: 0, y: 0 }, 0, &weapon);
    assert!(bullets.is_empty());
    let beam = beam.expect("laser spawns a beam");
    assert_eq!(beam.damage, 5_000_000);
    assert_eq!(beam.width, 15_000_000);
    assert_eq!(beam.max_dist, None);
    // anchored 200 units ahead of the firer along its heading
    assert_eq!(beam.origin.x, 0);
    assert_eq!(beam.origin.y, 200_000_000);
    assert_eq!(beam.rotation, 0);
    assert_eq!(beam.lifetime.duration_ms, 20);
}

#[test]
fn weapon_constructors_fill_every_field() {
    let w = WeaponData::new_bullet_subtype(
        WeaponType::MachineGun,
        100,
        true,
        50_000_000,
        300_000,
        Vec2Fp { x: 0, y: 1_000_000_000 },
        Vec2Fp { x: 0, y: -3_000_000 },
        995_000,
        600,
        600_000,
        1,
        5,
        0,
    );
    assert_eq!(w, WeaponType::MachineGun.data_from_type());
    let l = WeaponData::new_laser_subtype(
        WeaponType::Laser,
        10,
        true,
        5_000_000,
        0,
        20,
        15_000_000,
        None,
        5,
    );
    assert_eq!(l, WeaponType::Laser.data_from_type());
    match l.subtype {
        WeaponSubtype::Laser { width, max_dist } => {
            assert_eq!(width, 15_000_000);
            assert_eq!(max_dist, None);
        },
        _ => panic!("laser subtype expected"),
    }
}
