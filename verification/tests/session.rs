use arena_core::config::GameConfig;
use arena_core::enemy::random_in_circle;
use arena_core::fp::{cos_fp, isqrt, norm_angle, sin_fp, HALF_PI_FP, PI_FP, SCALE, TAU_FP};
use arena_core::gamestate::GameState;
use arena_core::body::BodyType;
use arena_core::engines::EngineType;
use arena_core::heat::{heat_enemy_death_subscriber, HeatTracker};
use arena_core::hitstun::{hitstun_tick_system, hitstun_trigger_system, HitStunMachine};
use arena_core::events::EnemyDeath;
use arena_core::object::Intent;
use arena_core::player::{add_player, PlayerBuild};
use arena_core::rng::random_fraction;
use arena_core::score::{score_system, ScoreTracker};
use arena_core::combo::ComboCounter;
use arena_core::sim::Sim;
use arena_core::timer::SimTimer;
use arena_core::vec2::Vec2Fp;
use arena_core::ai::plane_ai;
use arena_core::weapon::WeaponType;

#[test]
fn trig_hits_exact_anchors() {
    assert_eq!(sin_fp(0), 0);
    assert_eq!(sin_fp(HALF_PI_FP), SCALE);
    assert_eq!(sin_fp(PI_FP), 0);
    assert_eq!(cos_fp(0), SCALE);
    assert_eq!(cos_fp(PI_FP + HALF_PI_FP), 0);
    // the second half-turn mirrors the first
    assert_eq!(sin_fp(PI_FP + HALF_PI_FP), -SCALE);
    // a sample off the anchors stays close to the real sine
    let s = sin_fp(HALF_PI_FP / 2);
    assert!((s - 707_107).abs() < 2_000, "sin(pi/4) was {s}");
}

#[test]
fn angles_normalize_into_one_turn() {
    assert_eq!(norm_angle(0), 0);
    assert_eq!(norm_angle(TAU_FP), 0);
    assert_eq!(norm_angle(-1), TAU_FP - 1);
    assert_eq!(norm_angle(TAU_FP + 5), 5);
}

#[test]
fn integer_square_root_brackets() {
    assert_eq!(isqrt(0), 0);
    assert_eq!(isqrt(1), 1);
    assert_eq!(isqrt(999_999), 999);
    assert_eq!(isqrt(1_000_000), 1000);
    assert_eq!(isqrt(1_000_000_000_000), 1_000_000);
}

#[test]
fn random_fraction_stays_in_unit_interval() {
    for _ in 0..1000 {
        let f = random_fraction();
        assert!((0..SCALE).contains(&f));
    }
}

#[test]
fn random_disc_points_stay_inside_unit_box() {
    for _ in 0..1000 {
        let p = random_in_circle();
        assert!(p.x.abs() <= SCALE);
        assert!(p.y.abs() <= SCALE);
    }
}

#[test]
fn ai_steers_fires_and_chases() {
    // enemy at the origin facing up, player 200 units ahead: fire and
    // accelerate, no reason to prefer either side strongly
    let intent = plane_ai(Vec2Fp { x: 0, y: 0 }, 0, Vec2Fp { x: 0, y: 200_000_000 });
    assert!(intent.fire);
    assert!(intent.accelerate);
    // player behind: hold fire, keep turning
    let intent = plane_ai(Vec2Fp { x: 0, y: 0 }, 0, Vec2Fp { x: 0, y: -200_000_000 });
    assert!(!intent.fire);
    assert!(!intent.accelerate);
    assert_eq!(intent.turn_intent.abs(), SCALE);
    // player to the right of the nose: turn clockwise
    let intent = plane_ai(Vec2Fp { x: 0, y: 0 }, 0, Vec2Fp { x: 200_000_000, y: 0 });
    assert_eq!(intent.turn_intent, -SCALE);
    // player to the left: turn counter-clockwise
    let intent = plane_ai(Vec2Fp { x: 0, y: 0 }, 0, Vec2Fp { x: -200_000_000, y: 0 });
    assert_eq!(intent.turn_intent, SCALE);
}

#[test]
fn heat_subscriber_folds_all_events() {
    let mut tracker = HeatTracker::new();
    let events = vec![
        EnemyDeath { entity: 1, score: 16, heat: 500_000 },
        EnemyDeath { entity: 2, score: 16, heat: 250_000 },
    ];
    heat_enemy_death_subscriber(&mut tracker, &events);
    assert_eq!(tracker.heat, 1_750_000);
}

#[test]
fn score_subscriber_uses_combo_multiplier() {
    let mut score = ScoreTracker::new();
    let mut combo = ComboCounter::new(SimTimer::new(4_000));
    combo.step(0, 1);
    assert_eq!(combo.multiplier(), 2_000_000);
    let events = vec![
        EnemyDeath { entity: 1, score: 16, heat: 500_000 },
        EnemyDeath { entity: 2, score: 10, heat: 500_000 },
    ];
    score_system(&mut score, &events, &combo);
    assert_eq!(score.score, 52);
}

#[test]
fn hitstun_system_functions_mirror_the_machine() {
    let mut machine = HitStunMachine::new();
    assert_eq!(hitstun_trigger_system(&mut machine, 1, 1), 1);
    assert!(!hitstun_tick_system(&mut machine, 16, 10));
    assert!(hitstun_tick_system(&mut machine, 16, 10));
    assert!(!machine.stunned);
}

fn fresh_session() -> Sim {
    let config = GameConfig::default();
    let build = PlayerBuild {
        weapon: WeaponType::MachineGun,
        body: BodyType::Normal,
        engine: EngineType::Superboost,
    };
    let spawn = add_player(build, &config, 1);
    let mut sim = Sim::new(spawn.craft, spawn.stats, spawn.weapon);
    sim.player_engine = spawn.engine;
    sim.state = GameState::InGame;
    sim
}

#[test]
fn session_fires_the_held_trigger() {
    let mut sim = fresh_session();
    let intent = Intent {
        accelerate: false,
        brake: false,
        turn_intent: 0,
        fire: true,
        just_fired: true,
    };
    // a third of a second of held fire on a 100 ms cooldown
    let mut saw_bullets = false;
    for _ in 0..20 {
        sim.tick(intent, 16);
        saw_bullets = saw_bullets || !sim.bullets.is_empty();
    }
    assert!(saw_bullets);
}

#[test]
fn session_spawns_the_first_wave_on_cadence() {
    let mut sim = fresh_session();
    // enough health that stray enemy fire cannot end the session
    sim.player.hp.hp = 1_000_000_000;
    sim.player.hp.max = 1_000_000_000;
    let intent = Intent {
        accelerate: false,
        brake: false,
        turn_intent: 0,
        fire: false,
        just_fired: false,
    };
    // eight simulated seconds: the 55 s lead plus the 60 s cadence
    // mark falls inside them, and without player fire no enemy dies
    for _ in 0..500 {
        sim.tick(intent, 16);
        assert!(sim.heat.heat >= 1_000_000);
    }
    assert_eq!(sim.heat.spawned_waves, 1);
    assert_eq!(sim.enemies.len(), 10);
}

#[test]
fn session_freezes_while_stunned() {
    let mut sim = fresh_session();
    sim.hitstun.observe_hits(1, 0);
    sim.state = GameState::HitStun;
    let before_enemies = sim.enemies.len();
    let before_score = sim.score.score;
    let before_heat = sim.heat;
    let intent = Intent {
        accelerate: true,
        brake: false,
        turn_intent: 1_000_000,
        fire: true,
        just_fired: true,
    };
    // the first stun tick lazily builds the timer; gameplay stays put
    sim.tick(intent, 16);
    assert_eq!(sim.enemies.len(), before_enemies);
    assert_eq!(sim.score.score, before_score);
    assert_eq!(sim.heat, before_heat);
    assert_eq!(sim.state, GameState::HitStun);
    // the configured ten milliseconds elapse and play resumes
    sim.tick(intent, 16);
    assert_eq!(sim.state, GameState::InGame);
    assert!(!sim.hitstun.stunned);
}

#[test]
fn session_ends_when_player_health_is_spent() {
    let mut sim = fresh_session();
    sim.player.hp.hp = 0;
    let intent = Intent {
        accelerate: false,
        brake: false,
        turn_intent: 0,
        fire: false,
        just_fired: false,
    };
    sim.tick(intent, 16);
    assert_eq!(sim.state, GameState::GameEnding);
    // a dead player no longer regenerates
    assert_eq!(sim.player.hp.hp, 0);
    // the heat tracker resets for the next attempt (this tick's 16 ms
    // of cadence credit still accrue after the reset)
    assert_eq!(sim.heat.heat, 1_000_000);
    assert_eq!(sim.heat.spawned_waves, 0);
    assert_eq!(sim.heat.time_since_last_wave_ms, 55_016);
    // the wind-down clears the arena and returns to the menu
    sim.tick(intent, 1000);
    assert!(sim.enemies.is_empty());
    assert!(sim.bullets.is_empty());
    sim.tick(intent, 1000);
    assert_eq!(sim.state, GameState::MainMenu);
}
