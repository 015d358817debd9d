use arena_core::combo::{combo_enemy_death_subscriber, ComboCounter};
use arena_core::config::GameConfig;
use arena_core::enemy::{add_basic_enemy, enemy_death_detection_system, wave_system};
use arena_core::gamestate::{game_ending_system, in_game_no_hitstun, GameState};
use arena_core::heat::{heat_player_death_subscriber, HeatTracker};
use arena_core::hitstun::HitStunMachine;
use arena_core::hp::hp_regen_system;
use arena_core::object::{Beam, Craft, Enemy, Intent, Physics, Projectile};
use arena_core::physics::linear_physics;
use arena_core::player::{
    add_player, plane_intent_movement_system, player_death_detection_system, PlayerBuild,
};
use arena_core::score::ScoreTracker;
use arena_core::stats::{PlaneMovementStats, PlayerStats, HP};
use arena_core::timer::SimTimer;
use arena_core::vec2::Vec2Fp;
use arena_core::vertical_bound::vertical_bound_system;
use arena_core::body::BodyType;
use arena_core::engines::EngineType;
use arena_core::weapon::WeaponType;

#[test]
fn wave_cadence_at_heat_one_is_sixty_seconds() {
    // at heat 1.0 a wave is due strictly after 60 000 ms, not at it
    let mut tracker = HeatTracker { time_since_last_wave_ms: 0, heat: 1_000_000, spawned_waves: 0 };
    assert!(tracker.step(60_000).is_none());
    assert_eq!(tracker.time_since_last_wave_ms, 60_000);
    assert!(tracker.step(1).is_none());
    assert_eq!(tracker.time_since_last_wave_ms, 60_001);
    let wave = tracker.step(0);
    assert_eq!(wave, Some(10));
    assert_eq!(tracker.time_since_last_wave_ms, 0);
    assert_eq!(tracker.spawned_waves, 1);
}

#[test]
fn wave_cadence_at_heat_two_is_thirty_seconds() {
    let mut tracker = HeatTracker { time_since_last_wave_ms: 30_000, heat: 2_000_000, spawned_waves: 0 };
    assert!(tracker.step(0).is_none());
    tracker.time_since_last_wave_ms = 30_001;
    assert_eq!(tracker.step(0), Some(10));
}

#[test]
fn heat_never_drops_below_floor() {
    let mut tracker = HeatTracker {
        time_since_last_wave_ms: 100_000,
        heat: 1_005_000,
        spawned_waves: 0,
    };
    // first wave cools by the full decrement, later waves clamp at 1.0
    for _ in 0..5 {
        tracker.time_since_last_wave_ms = 100_000;
        tracker.step(0);
        assert!(tracker.heat >= 1_000_000);
    }
    assert_eq!(tracker.heat, 1_000_000);
}

#[test]
fn kills_raise_heat_and_death_resets_it() {
    let mut tracker = HeatTracker::new();
    assert_eq!(tracker.heat, 1_000_000);
    tracker.on_enemy_death(500_000);
    tracker.on_enemy_death(500_000);
    assert_eq!(tracker.heat, 2_000_000);
    heat_player_death_subscriber(&mut tracker, 1);
    assert_eq!(tracker.heat, 1_000_000);
    assert_eq!(tracker.time_since_last_wave_ms, 55_000);
    assert_eq!(tracker.spawned_waves, 0);
}

#[test]
fn hitstun_triggers_exactly_once_per_tick() {
    // both a player hit and several enemy hits in one tick: one
    // transition, not two
    let mut machine = HitStunMachine::new();
    let transitions = machine.observe_hits(1, 5);
    assert_eq!(transitions, 1);
    assert!(machine.stunned);
    // further hits while already stunned do not transition again
    let transitions = machine.observe_hits(2, 0);
    assert_eq!(transitions, 0);
    assert!(machine.stunned);
}

#[test]
fn hitstun_timer_is_lazy_and_reused() {
    let mut machine = HitStunMachine::new();
    machine.observe_hits(1, 0);
    // the first stun tick only constructs the timer
    assert!(!machine.stun_tick(1000, 10));
    assert!(machine.stunned);
    // the timer then runs to completion and is reset, not recreated
    assert!(machine.stun_tick(10, 10));
    assert!(!machine.stunned);
    assert_eq!(machine.timer, Some(SimTimer { elapsed_ms: 0, duration_ms: 10 }));
    // on re-entry the existing timer counts down again
    machine.observe_hits(0, 1);
    assert!(machine.stunned);
    assert!(!machine.stun_tick(4, 10));
    assert!(machine.stun_tick(6, 10));
}

#[test]
fn combo_counts_kills_and_decays() {
    let mut combo = ComboCounter::new(SimTimer::new(4_000));
    assert_eq!(combo.multiplier(), 1_000_000);
    combo_enemy_death_subscriber(&mut combo, 16, 2);
    assert_eq!(combo.count, 2);
    assert_eq!(combo.multiplier(), 3_000_000);
    // a killless window shorter than the decay keeps the combo
    combo_enemy_death_subscriber(&mut combo, 3_999, 0);
    assert_eq!(combo.count, 2);
    // the window lapsing with no kill resets it
    combo_enemy_death_subscriber(&mut combo, 1, 0);
    assert_eq!(combo.count, 0);
    assert_eq!(combo.multiplier(), 1_000_000);
}

#[test]
fn combo_multiplier_caps_at_twenty() {
    let mut combo = ComboCounter::new(SimTimer::new(4_000));
    combo_enemy_death_subscriber(&mut combo, 0, 30);
    assert_eq!(combo.multiplier(), 20_000_000);
}

#[test]
fn score_scales_kills_by_multiplier() {
    let mut score = ScoreTracker::new();
    score.on_enemy_death(16, 2_000_000);
    assert_eq!(score.score, 32);
    score.on_enemy_death(16, 1_000_000);
    assert_eq!(score.score, 48);
    // truncation mirrors the integer cast of the accumulating side
    score.on_enemy_death(3, 1_500_000);
    assert_eq!(score.score, 52);
}

#[test]
fn physics_integrates_gravity_friction_and_position() {
    let mut pos = Vec2Fp { x: 0, y: 0 };
    let mut ph = Physics {
        mass: 100_000_000,
        velocity: Vec2Fp { x: 0, y: 0 },
        friction: 1_000_000,
        gravity: Vec2Fp { x: 0, y: -4_000_000 },
    };
    linear_physics(&mut pos, &mut ph, 1000);
    assert_eq!(ph.velocity.y, -4_000_000);
    assert_eq!(pos.y, -4_000_000);
    // halving friction halves the velocity before integration
    ph.friction = 500_000;
    linear_physics(&mut pos, &mut ph, 1000);
    assert_eq!(ph.velocity.y, -4_000_000);
    assert_eq!(pos.y, -8_000_000);
}

#[test]
fn movement_turns_thrusts_and_brakes() {
    let mut rotation: i64 = 0;
    let mut ph = Physics {
        mass: 100_000_000,
        velocity: Vec2Fp { x: 0, y: 0 },
        friction: 990_000,
        gravity: Vec2Fp { x: 0, y: 0 },
    };
    let stats = PlaneMovementStats { acceleration: 10_000_000, turn_speed: 4_000_000 };
    let thrust = Intent { accelerate: true, brake: false, turn_intent: 0, fire: false, just_fired: false };
    plane_intent_movement_system(&mut rotation, &mut ph, &thrust, &stats, 1000);
    assert_eq!(rotation, 0);
    assert_eq!(ph.velocity.x, 0);
    assert_eq!(ph.velocity.y, 10_000_000);
    let brake = Intent { accelerate: false, brake: true, turn_intent: 0, fire: false, just_fired: false };
    plane_intent_movement_system(&mut rotation, &mut ph, &brake, &stats, 1000);
    assert_eq!(ph.velocity.y, 9_750_000);
    let steer = Intent { accelerate: false, brake: false, turn_intent: 1_000_000, fire: false, just_fired: false };
    plane_intent_movement_system(&mut rotation, &mut ph, &steer, &stats, 500);
    assert_eq!(rotation, 2_000_000);
}

#[test]
fn vertical_bound_pushes_back_inside() {
    let config = GameConfig::default();
    let mut rotation: i64 = 0;
    let mut ph = Physics {
        mass: 100_000_000,
        velocity: Vec2Fp { x: 0, y: 0 },
        friction: 990_000,
        gravity: Vec2Fp { x: 0, y: 0 },
    };
    // above the upper bound, pointing straight up and not sideways:
    // steered and pushed down
    vertical_bound_system(&mut rotation, &mut ph, 600_000_000, &config, 1000);
    assert_eq!(ph.velocity.y, -8_100_000);
    assert_ne!(rotation, 0);
    // inside the corridor nothing happens
    let mut rotation2: i64 = 0;
    let mut ph2 = ph;
    let vy = ph2.velocity.y;
    vertical_bound_system(&mut rotation2, &mut ph2, 0, &config, 1000);
    assert_eq!(rotation2, 0);
    assert_eq!(ph2.velocity.y, vy);
    // below the lower bound: pushed up
    let mut rotation3: i64 = 0;
    let mut ph3 = Physics { velocity: Vec2Fp { x: 0, y: 0 }, ..ph };
    vertical_bound_system(&mut rotation3, &mut ph3, -600_000_000, &config, 1000);
    assert_eq!(ph3.velocity.y, 16_100_000);
}

#[test]
fn regen_heals_only_while_not_firing() {
    let mut hp = HP { hp: 50_000_000, max: 100_000_000, regen: 20_000_000 };
    hp_regen_system(&mut hp, true, 1000);
    assert_eq!(hp.hp, 50_000_000);
    hp_regen_system(&mut hp, false, 1000);
    assert_eq!(hp.hp, 70_000_000);
    // overfull health snaps back to the cap
    hp.hp = 120_000_000;
    hp_regen_system(&mut hp, false, 1000);
    assert_eq!(hp.hp, 100_000_000);
}

#[test]
fn timers_saturate_at_their_duration() {
    let mut t = SimTimer::new(100);
    assert!(t.tick(u64::MAX));
    assert_eq!(t.elapsed_ms, 100);
    assert!(t.finished());
    // already saturated: a later tick is not a fresh completion
    assert!(!t.tick(u64::MAX));
    t.reset();
    assert_eq!(t.elapsed_ms, 0);
    assert!(!t.finished());
}

#[test]
fn death_detection_reads_settled_health() {
    assert!(player_death_detection_system(0).is_some());
    assert!(player_death_detection_system(-5).is_some());
    assert!(player_death_detection_system(1).is_none());
}

#[test]
fn enemy_death_events_carry_payload() {
    let alive = add_basic_enemy(Vec2Fp { x: 0, y: 0 }, 1);
    let mut dead = add_basic_enemy(Vec2Fp { x: 0, y: 0 }, 2);
    dead.craft.hp.hp = 0;
    let events = enemy_death_detection_system(&vec![alive, dead]);
    assert_eq!(events.len(), 1);
    assert_eq!(events[0].entity, 2);
    assert_eq!(events[0].score, 16);
    assert_eq!(events[0].heat, 500_000);
}

#[test]
fn wave_system_spawns_around_player() {
    let mut tracker = HeatTracker {
        time_since_last_wave_ms: 70_000,
        heat: 1_000_000,
        spawned_waves: 0,
    };
    let mut enemies: Vec<Enemy> = Vec::new();
    let mut next_id: u64 = 1;
    let player_pos = Vec2Fp { x: 5_000_000, y: -3_000_000 };
    wave_system(&mut tracker, &mut enemies, player_pos, 16, &mut next_id);
    assert_eq!(enemies.len(), 10);
    for e in &enemies {
        assert!((e.craft.position.x - player_pos.x).abs() <= 300_000_000);
        assert!((e.craft.position.y - player_pos.y).abs() <= 300_000_000);
        assert_eq!(e.craft.hp.hp, 100_000_000);
    }
    assert_eq!(next_id, 11);
    assert_eq!(tracker.time_since_last_wave_ms, 0);
    assert_eq!(tracker.spawned_waves, 1);
    // no second wave right away: only the clock accrues the tick
    let heat_before = tracker.heat;
    wave_system(&mut tracker, &mut enemies, player_pos, 16, &mut next_id);
    assert_eq!(enemies.len(), 10);
    assert_eq!(next_id, 11);
    assert_eq!(tracker.time_since_last_wave_ms, 16);
    assert_eq!(tracker.heat, heat_before);
    assert_eq!(tracker.spawned_waves, 1);
}

#[test]
fn game_ending_clears_arena_then_returns_to_menu() {
    let mut timer = SimTimer::new(2000);
    let mut enemies = vec![add_basic_enemy(Vec2Fp { x: 0, y: 0 }, 1)];
    let mut bullets: Vec<Projectile> = Vec::new();
    let mut beams = vec![Beam {
        damage: 5_000_000,
        hostile: false,
        width: 15_000_000,
        max_dist: None,
        origin: Vec2Fp { x: 0, y: 0 },
        rotation: 0,
        lifetime: SimTimer::new(20),
        alive: true,
    }];
    let next = game_ending_system(&mut timer, &mut enemies, &mut bullets, &mut beams, 1000);
    assert!(next.is_none());
    assert!(enemies.is_empty());
    assert!(beams.is_empty());
    let next = game_ending_system(&mut timer, &mut enemies, &mut bullets, &mut beams, 1000);
    assert_eq!(next, Some(GameState::MainMenu));
    assert_eq!(timer.elapsed_ms, 0);
}

#[test]
fn gameplay_gate_respects_state_and_stun() {
    assert!(in_game_no_hitstun(&GameState::InGame, false));
    assert!(!in_game_no_hitstun(&GameState::InGame, true));
    assert!(!in_game_no_hitstun(&GameState::MainMenu, false));
}

#[test]
fn add_player_applies_build() {
    let config = GameConfig::default();
    let build = PlayerBuild {
        weapon: WeaponType::MachineGun,
        body: BodyType::Heavy,
        engine: EngineType::Superboost,
    };
    let spawn = add_player(build, &config, 1);
    assert_eq!(spawn.craft.hp.max, 300_000_000);
    assert_eq!(spawn.craft.hp.regen, 12_000_000);
    assert_eq!(spawn.craft.movement.acceleration, 5_000_000);
    assert_eq!(spawn.craft.movement.turn_speed, 2_000_000);
    let engine = spawn.engine.expect("superboost selected");
    assert_eq!(engine.acceleration_modifier, 2_000_000);
    assert_eq!(engine.turn_speed_modifier, 333_300);
    // ballistic player weapons carry the smaller projectile scale
    match spawn.weapon.subtype {
        arena_core::weapon::WeaponSubtype::BulletBased { bullet_scale, .. } => {
            assert_eq!(bullet_scale, 900_000);
        },
        _ => panic!("machine gun is ballistic"),
    }
    let stock = add_player(
        PlayerBuild { weapon: WeaponType::Laser, body: BodyType::Normal, engine: EngineType::Normal },
        &config,
        2,
    );
    assert_eq!(stock.craft.hp.max, 100_000_000);
    assert!(stock.engine.is_none());
    assert_eq!(stock.stats, PlayerStats::stock());
}

#[test]
fn spawned_enemy_is_well_formed() {
    let e = add_basic_enemy(Vec2Fp { x: 0, y: 0 }, 42);
    assert_eq!(e.craft.id, 42);
    assert_eq!(e.score, 16);
    assert_eq!(e.heat_reward, 500_000);
    assert_eq!(e.craft.radius, 10_000_000);
    assert_eq!(e.weapon.timer.duration_ms, 1000);
    assert!(e.craft.position.x.abs() <= 300_000_000);
    assert!(e.craft.position.y.abs() <= 300_000_000);
}
