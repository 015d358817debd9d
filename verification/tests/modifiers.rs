use arena_core::body::{HeavyBody, MeleeBody, NukeBody};
use arena_core::engines::SuperboostEngine;
use arena_core::modifier::{recalculate, Recalculated};
use arena_core::stats::{PlaneMovementStats, PlayerStats, HP};

#[test]
fn clean_modifier_is_a_no_op() {
    let mut body = HeavyBody { dirty_plane: false, dirty_hp: false };
    let mut stats = PlaneMovementStats { acceleration: 10_000_000, turn_speed: 4_000_000 };
    let before = stats;
    recalculate(&mut body, &mut stats);
    assert_eq!(stats, before);
    assert_eq!(body, HeavyBody { dirty_plane: false, dirty_hp: false });
}

#[test]
fn dirty_modifier_applies_once_then_settles() {
    let mut body = HeavyBody::default();
    let mut stats = PlaneMovementStats { acceleration: 10_000_000, turn_speed: 4_000_000 };
    recalculate(&mut body, &mut stats);
    assert_eq!(stats.acceleration, 5_000_000);
    assert_eq!(stats.turn_speed, 2_000_000);
    // a second settle pass must not reapply the halving
    let settled = stats;
    recalculate(&mut body, &mut stats);
    assert_eq!(stats, settled);
}

#[test]
fn heavy_body_health_effects() {
    let mut body = HeavyBody::default();
    let mut hp = HP { hp: 100_000_000, max: 100_000_000, regen: 20_000_000 };
    let mut plane = PlaneMovementStats { acceleration: 10_000_000, turn_speed: 4_000_000 };
    recalculate(&mut body, &mut plane);
    recalculate(&mut body, &mut hp);
    assert_eq!(hp.max, 300_000_000);
    assert_eq!(hp.regen, 12_000_000);
    assert_eq!(hp.hp, 100_000_000);
}

#[test]
fn melee_body_effects() {
    let mut body = MeleeBody::default();
    let mut stats = PlayerStats::stock();
    let mut hp = HP { hp: 100_000_000, max: 100_000_000, regen: 20_000_000 };
    recalculate(&mut body, &mut stats);
    recalculate(&mut body, &mut hp);
    assert!(!stats.takes_contact_damage);
    assert_eq!(stats.contact_damage, 2_000_000);
    assert_eq!(hp.max, 50_000_000);
}

#[test]
fn nuke_body_effects() {
    let mut body = NukeBody::default();
    let mut stats = PlayerStats::stock();
    let mut hp = HP { hp: 100_000_000, max: 100_000_000, regen: 20_000_000 };
    recalculate(&mut body, &mut stats);
    recalculate(&mut body, &mut hp);
    assert!(stats.takes_contact_damage);
    assert_eq!(stats.contact_damage, 2_500_000);
    assert_eq!(hp.max, 150_000_000);
}

#[test]
fn superboost_toggle_symmetry() {
    let mut engine = SuperboostEngine::new(2_000_000, 333_300);
    let mut stats = PlaneMovementStats { acceleration: 10_000_000, turn_speed: 4_000_000 };
    // first settle applies the permanent acceleration multiplier
    recalculate(&mut engine, &mut stats);
    assert_eq!(stats.acceleration, 20_000_000);
    assert_eq!(stats.turn_speed, 4_000_000);
    let rested = stats;
    // toggling the boost on and off repeatedly must never drift the stat
    for _ in 0..10 {
        engine.set_boosting(true);
        recalculate(&mut engine, &mut stats);
        assert_eq!(stats.turn_speed, 1_333_200);
        assert_eq!(stats.acceleration, 20_000_000);
        engine.set_boosting(false);
        recalculate(&mut engine, &mut stats);
        assert_eq!(stats, rested);
    }
}

#[test]
fn superboost_redundant_settles_keep_penalty() {
    let mut engine = SuperboostEngine::new(2_000_000, 500_000);
    let mut stats = PlaneMovementStats { acceleration: 8_000_000, turn_speed: 6_000_000 };
    engine.set_boosting(true);
    recalculate(&mut engine, &mut stats);
    assert_eq!(stats.turn_speed, 3_000_000);
    // marking dirty again while still boosting must not compound
    engine.set_dirty();
    recalculate(&mut engine, &mut stats);
    assert_eq!(stats.turn_speed, 3_000_000);
    assert_eq!(stats.acceleration, 16_000_000);
}
