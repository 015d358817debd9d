//! The whole simulation, advanced one tick at a time.
//!
//! Within a tick the subsystems run in a fixed topological order:
//! intent application, stat-modifier settlement, movement and bounds,
//! physics integration, weapon fire processing, collision and damage
//! resolution, death and hit consumption, wave/heat/combo bookkeeping,
//! lifetimes and cleanup, regeneration, and hit-stun evaluation last.
//! All damage settles before death detection reads health, and death
//! detection settles before cleanup despawns, so no death is processed
//! twice.  While the machine is stunned, only the stun timer ticks.

use vstd::prelude::*;

use crate::combo::ComboCounter;
use crate::config::GameConfig;
use crate::engines::SuperboostEngine;
use crate::fp::{factor_in_range, fp_in_range, SCALE, TAU_FP};
use crate::gamestate::{can_transition, GameState};
use crate::heat::{HeatTracker, HEAT_FLOOR};
use crate::hitstun::HitStunMachine;
use crate::hp::{hp_regen_system, REGEN_LIMIT};
use crate::modifier::recalculate;
use crate::object::{Beam, Craft, Enemy, Intent, Projectile};
use crate::physics::{clamp_i64, linear_physics, MAX_TICK_MS, POS_CLAMP, VEL_CLAMP};
use crate::player::{plane_intent_movement_system, player_death_detection_system};
use crate::score::ScoreTracker;
use crate::stats::PlayerStats;
use crate::timer::SimTimer;
use crate::vec2::Vec2Fp;
use crate::vertical_bound::vertical_bound_system;
use crate::weapon::{enemy_fire_gate, fire_weapon, player_fire_gate, WeaponData};

verus! {

/// Enemies can stand at most one spawn radius outside the integrator's
/// position box.
pub const CRAFT_POS_LIMIT: i64 = 400_300_000_000;

/// A craft whose dynamic state is inside every bound the tick's
/// systems rely on.
pub open spec fn craft_bounded(c: Craft) -> bool {
    &&& c.wf()
    &&& 0 <= c.rotation < TAU_FP
    &&& -CRAFT_POS_LIMIT <= c.position.x <= CRAFT_POS_LIMIT
    &&& -CRAFT_POS_LIMIT <= c.position.y <= CRAFT_POS_LIMIT
    &&& -VEL_CLAMP <= c.physics.velocity.x <= VEL_CLAMP
    &&& -VEL_CLAMP <= c.physics.velocity.y <= VEL_CLAMP
    &&& 0 <= c.hp.regen <= REGEN_LIMIT
    &&& 0 < c.hp.max
}

/// The whole game simulation.
pub struct Sim {
    pub config: GameConfig,
    pub state: GameState,
    pub hitstun: HitStunMachine,
    pub player: Craft,
    pub player_stats: PlayerStats,
    pub player_weapon: WeaponData,
    pub player_engine: Option<SuperboostEngine>,
    pub enemies: Vec<Enemy>,
    pub bullets: Vec<Projectile>,
    pub beams: Vec<Beam>,
    pub heat: HeatTracker,
    pub combo: ComboCounter,
    pub score: ScoreTracker,
    pub ending_timer: SimTimer,
    pub next_id: u64,
}

impl Sim {
    pub open spec fn wf(self) -> bool {
        &&& self.config.wf()
        &&& self.hitstun.wf()
        &&& craft_bounded(self.player)
        &&& self.player_stats.wf()
        &&& self.player_weapon.wf()
        &&& match self.player_engine {
            Some(e) => factor_in_range(e.acceleration_modifier) && -SCALE
                <= e.turn_speed_modifier <= SCALE && fp_in_range(e.saved_turn_speed),
            None => true,
        }
        &&& forall|i: int| 0 <= i < self.enemies@.len() ==> craft_bounded(
            (#[trigger] self.enemies@[i]).craft,
        ) && self.enemies@[i].wf()
        &&& forall|i: int| 0 <= i < self.bullets@.len() ==> (#[trigger] self.bullets@[i]).wf()
        &&& forall|i: int| 0 <= i < self.beams@.len() ==> (#[trigger] self.beams@[i]).wf()
        &&& self.heat.wf()
        &&& self.combo.wf()
        &&& self.ending_timer.wf()
    }

    /// A fresh session in the loading state, with the stock
    /// configuration, an empty arena and cold trackers.
    pub fn new(player: Craft, player_stats: PlayerStats, player_weapon: WeaponData) -> (r: Sim)
        requires
            craft_bounded(player),
            player_stats.wf(),
            player_weapon.wf(),
        ensures
            r.wf(),
            r.state == GameState::Loading,
            r.heat == HeatTracker::initial(),
            r.score.score == 0,
            r.combo.count == 0,
            r.enemies@.len() == 0,
            r.bullets@.len() == 0,
            r.beams@.len() == 0,
    {
        Sim {
            config: Default::default(),
            state: GameState::Loading,
            hitstun: HitStunMachine::new(),
            player,
            player_stats,
            player_weapon,
            player_engine: None,
            enemies: Vec::new(),
            bullets: Vec::new(),
            beams: Vec::new(),
            heat: HeatTracker::new(),
            combo: ComboCounter::new(SimTimer::new(crate::combo::COMBO_DECAY_MS)),
            score: ScoreTracker::new(),
            ending_timer: SimTimer::new(2000),
            next_id: 1,
        }
    }

    /// Advance the whole simulation by one tick.
    ///
    /// While stunned, core gameplay does not run: only the stun timer
    /// ticks, and every other field of the simulation is left exactly
    /// as it was.  Heat never leaves its floor, and the high-level
    /// state only ever moves along an edge of the state graph.
    pub fn tick(&mut self, intent: Intent, dt_ms: u64)
        requires
            old(self).wf(),
            intent.wf(),
            dt_ms <= MAX_TICK_MS,
        ensures
            final(self).wf(),
            final(self).heat.heat >= HEAT_FLOOR,
            final(self).state == old(self).state || can_transition(
                old(self).state,
                final(self).state,
            ),
            old(self).state == GameState::HitStun ==> {
                &&& final(self).player == old(self).player
                &&& final(self).enemies@ == old(self).enemies@
                &&& final(self).bullets@ == old(self).bullets@
                &&& final(self).beams@ == old(self).beams@
                &&& final(self).heat == old(self).heat
                &&& final(self).combo == old(self).combo
                &&& final(self).score == old(self).score
                &&& final(self).player_weapon == old(self).player_weapon
            },
            (old(self).state == GameState::Loading || old(self).state == GameState::MainMenu
                || old(self).state == GameState::InHanger || old(self).state == GameState::Paused
                || old(self).state == GameState::Quitting) ==> *final(self) == *old(self),
            old(self).state == GameState::InGame ==> {
                &&& (final(self).state == GameState::GameEnding <==> final(self).player.hp.hp
                    <= 0)
                &&& final(self).state == GameState::GameEnding ==> final(self).heat
                    == (HeatTracker {
                    time_since_last_wave_ms: (crate::heat::FIRST_WAVE_LEAD_MS + dt_ms) as u64,
                    heat: HEAT_FLOOR,
                    spawned_waves: 0u32,
                })
                &&& forall|i: int|
                    0 <= i < final(self).bullets@.len()
                        ==> (#[trigger] final(self).bullets@[i]).alive
                &&& forall|i: int|
                    0 <= i < final(self).beams@.len() ==> (#[trigger] final(self).beams@[i]).alive
            },
    {
        match self.state {
            GameState::HitStun => {
                let resumed = self.hitstun.stun_tick(dt_ms, self.config.hitstun_time_ms);
                if resumed {
                    self.state = GameState::InGame;
                }
            },
            GameState::GameEnding => {
                let next = crate::gamestate::game_ending_system(
                    &mut self.ending_timer,
                    &mut self.enemies,
                    &mut self.bullets,
                    &mut self.beams,
                    dt_ms,
                );
                if let Some(s) = next {
                    self.state = s;
                }
            },
            GameState::InGame => {
                self.in_game_tick(intent, dt_ms);
            },
            _ => {},
        }
    }

    #[verifier::rlimit(100)]
    fn in_game_tick(&mut self, intent: Intent, dt_ms: u64)
        requires
            old(self).wf(),
            old(self).state == GameState::InGame,
            intent.wf(),
            dt_ms <= MAX_TICK_MS,
        ensures
            final(self).wf(),
            final(self).heat.heat >= HEAT_FLOOR,
            final(self).state == old(self).state || can_transition(
                old(self).state,
                final(self).state,
            ),
            final(self).state == GameState::GameEnding <==> final(self).player.hp.hp <= 0,
            final(self).state == GameState::GameEnding ==> final(self).heat == (HeatTracker {
                time_since_last_wave_ms: (crate::heat::FIRST_WAVE_LEAD_MS + dt_ms) as u64,
                heat: HEAT_FLOOR,
                spawned_waves: 0u32,
            }),
            forall|i: int|
                0 <= i < final(self).bullets@.len() ==> (#[trigger] final(self).bullets@[i]).alive,
            forall|i: int|
                0 <= i < final(self).beams@.len() ==> (#[trigger] final(self).beams@[i]).alive,
    {
        // Intent application: the player's injected intent, the
        // enemies' AI decisions.
        self.player.intent = intent;
        enemy_ai_system(&mut self.enemies, self.player.position);

        // Stat-modifier settlement: the superboost condition follows
        // the accelerate intent, and a dirty engine is reapplied
        // exactly once.
        if let Some(engine) = &mut self.player_engine {
            if engine.boosting != intent.accelerate {
                engine.set_boosting(intent.accelerate);
            }
            let mut movement = self.player.movement;
            recalculate(engine, &mut movement);
            // A runaway multiplier chain is an invariant violation, not
            // a crash: clamp the settled stats back into range and
            // continue.
            movement.acceleration = clamp_i64(movement.acceleration, crate::fp::FP_LIMIT);
            movement.turn_speed = clamp_i64(movement.turn_speed, crate::fp::FP_LIMIT);
            self.player.movement = movement;
        }

        // Movement and the vertical bound repulsor.
        plane_intent_movement_system(
            &mut self.player.rotation,
            &mut self.player.physics,
            &intent,
            &self.player.movement,
            dt_ms,
        );
        vertical_bound_system(
            &mut self.player.rotation,
            &mut self.player.physics,
            self.player.position.y,
            &self.config,
            dt_ms,
        );
        enemy_motion_system(&mut self.enemies, &self.config, dt_ms);

        // Physics integration.
        linear_physics(&mut self.player.position, &mut self.player.physics, dt_ms);
        projectile_physics_system(&mut self.bullets, dt_ms);

        // Weapon fire processing: cooldown gates emit fire events,
        // consuming an event spawns the shot.
        let player_event = player_fire_gate(
            &mut self.player_weapon,
            &intent,
            dt_ms,
            self.player.id,
            self.player.physics.velocity,
        );
        if let Some(ev) = player_event {
            let (mut spawned, beam) = fire_weapon(
                &ev,
                self.player.position,
                self.player.rotation,
                &self.player_weapon,
            );
            append_projectiles(&mut self.bullets, &mut spawned);
            if let Some(b) = beam {
                push_beam(&mut self.beams, b);
            }
        }
        enemy_weapon_system(&mut self.enemies, &mut self.bullets, &mut self.beams, dt_ms);

        // Collision and damage resolution.
        let ghost bullets_pre = self.bullets@;
        let ghost enemies_pre = self.enemies@;
        let enemy_hits = crate::bullet::enemy_bullet_collision_system(
            &mut self.bullets,
            &mut self.enemies,
        );
        proof {
            crate::bullet::lemma_pass_damage_shape(bullets_pre, enemies_pre);
            assert forall|i: int| 0 <= i < self.enemies@.len() implies craft_bounded(
                (#[trigger] self.enemies@[i]).craft,
            ) by {
                assert(crate::bullet::enemy_damaged_only(enemies_pre[i], self.enemies@[i]));
            }
        }
        let ghost bullets_mid = self.bullets@;
        let ghost player_hp_pre = self.player.hp;
        let player_hits = crate::bullet::player_bullet_collision_system(
            &mut self.bullets,
            &mut self.player.hp,
            self.player.position,
            self.player.radius,
        );
        proof {
            crate::bullet::lemma_player_pass_shape(
                bullets_mid,
                player_hp_pre,
                self.player.position,
                self.player.radius,
            );
        }
        let ghost enemies_mid = self.enemies@;
        let beam_hits = crate::laser::enemy_laser_collision_system(
            &self.beams,
            &mut self.enemies,
        );
        proof {
            crate::laser::lemma_beams_pass_damage_shape(self.beams@, enemies_mid);
            assert forall|i: int| 0 <= i < self.enemies@.len() implies craft_bounded(
                (#[trigger] self.enemies@[i]).craft,
            ) by {
                assert(crate::bullet::enemy_damaged_only(enemies_mid[i], self.enemies@[i]));
            }
        }

        // Death and hit-event consumption: all damage has settled.
        if player_death_detection_system(self.player.hp.hp).is_some() {
            self.state = GameState::GameEnding;
            self.heat.reset();
            proof {
                assert((crate::heat::FIRST_WAVE_LEAD_MS as int) * (HEAT_FLOOR as int)
                    <= (crate::heat::WAVE_INTERVAL_NUMERATOR_MS as int) * (SCALE as int))
                    by (nonlinear_arith)
                    requires
                        crate::heat::FIRST_WAVE_LEAD_MS == 55_000,
                        HEAT_FLOOR == 1_000_000,
                        crate::heat::WAVE_INTERVAL_NUMERATOR_MS == 60_000,
                        SCALE == 1_000_000;
                assert(!crate::heat::wave_due(
                    crate::heat::FIRST_WAVE_LEAD_MS,
                    HEAT_FLOOR,
                ));
            }
        }
        let death_events = crate::enemy::enemy_death_detection_system(&self.enemies);
        proof {
            crate::lifetime::lemma_filter_preserves(
                self.enemies@,
                |e: Enemy| e.craft.hp.hp <= 0,
                |e: Enemy| 0 <= e.heat_reward,
            );
        }
        let kills: u32 = if death_events.len() >= u32::MAX as usize {
            u32::MAX
        } else {
            death_events.len() as u32
        };
        // Kills still score and feed the combo after the player fell,
        // but the freshly reset tracker keeps its slow cadence: a new
        // attempt must not inherit posthumous heat.
        match self.state {
            GameState::InGame => {
                crate::heat::heat_enemy_death_subscriber(&mut self.heat, &death_events);
            },
            _ => {},
        }
        self.combo.step(dt_ms, kills);
        crate::score::score_system(&mut self.score, &death_events, &self.combo);
        let ghost enemies_pre_cleanup = self.enemies@;
        crate::lifetime::enemy_cleanup_system(&mut self.enemies);
        proof {
            crate::lifetime::lemma_filter_preserves(
                enemies_pre_cleanup,
                |e: Enemy| e.craft.hp.hp > 0,
                |e: Enemy| craft_bounded(e.craft) && e.wf(),
            );
        }

        // Wave/heat bookkeeping and spawning.
        let ghost tracker_pre_wave = self.heat;
        let ghost enemies_pre_wave = self.enemies@;
        crate::enemy::wave_system(
            &mut self.heat,
            &mut self.enemies,
            self.player.position,
            dt_ms,
            &mut self.next_id,
        );
        proof {
            let pre_len = enemies_pre_wave.len() as int;
            assert forall|i: int|
                0 <= i < self.enemies@.len() implies craft_bounded(
                (#[trigger] self.enemies@[i]).craft,
            ) && self.enemies@[i].wf() by {
                if crate::heat::wave_due(
                    tracker_pre_wave.time_since_last_wave_ms,
                    tracker_pre_wave.heat,
                ) && i < pre_len {
                    assert(self.enemies@.subrange(0, pre_len)[i] == self.enemies@[i]);
                    assert(self.enemies@[i] == enemies_pre_wave[i]);
                }
            }
        }

        // Lifetimes and end-of-tick cleanup.
        crate::lifetime::projectile_lifetime_system(&mut self.bullets, dt_ms);
        crate::lifetime::beam_lifetime_system(&mut self.beams, dt_ms);
        let ghost bullets_pre_cleanup = self.bullets@;
        let ghost beams_pre_cleanup = self.beams@;
        crate::lifetime::projectile_cleanup_system(&mut self.bullets);
        crate::lifetime::beam_cleanup_system(&mut self.beams);
        proof {
            crate::lifetime::lemma_filter_preserves(
                bullets_pre_cleanup,
                |p: Projectile| p.alive,
                |p: Projectile| p.wf(),
            );
            crate::lifetime::lemma_filter_preserves(
                beams_pre_cleanup,
                |b: Beam| b.alive,
                |b: Beam| b.wf(),
            );
            bullets_pre_cleanup.filter_lemma(|p: Projectile| p.alive);
            beams_pre_cleanup.filter_lemma(|b: Beam| b.alive);
        }

        // Regeneration; a player that died this tick regenerates no
        // more, so death detection read the health the tick ends with.
        match self.state {
            GameState::InGame => {
                hp_regen_system(&mut self.player.hp, intent.fire, dt_ms);
            },
            _ => {},
        }
        enemy_regen_system(&mut self.enemies, dt_ms);

        // Hit-stun evaluation: the tick's hit events are drained in a
        // single observation, so the machine can enter the stun at
        // most once per tick.  A tick that ended the session keeps its
        // game-ending transition.
        let any_player_hit: u32 = if player_hits > 0 {
            1
        } else {
            0
        };
        let any_enemy_hit: u32 = if enemy_hits.len() > 0 || beam_hits.len() > 0 {
            1
        } else {
            0
        };
        self.hitstun.observe_hits(any_player_hit, any_enemy_hit);
        if self.hitstun.stunned {
            match self.state {
                GameState::InGame => {
                    self.state = GameState::HitStun;
                },
                _ => {},
            }
        }
    }
}

/// Let every enemy's AI decide its intent for this tick.
fn enemy_ai_system(enemies: &mut Vec<Enemy>, player_pos: Vec2Fp)
    requires
        forall|i: int| 0 <= i < old(enemies)@.len() ==> craft_bounded(
            (#[trigger] old(enemies)@[i]).craft,
        ) && old(enemies)@[i].wf(),
        player_pos.in_coord_range(),
    ensures
        final(enemies)@.len() == old(enemies)@.len(),
        forall|i: int| 0 <= i < final(enemies)@.len() ==> craft_bounded(
            (#[trigger] final(enemies)@[i]).craft,
        ) && final(enemies)@[i].wf(),
{
    let n = enemies.len();
    let mut i: usize = 0;
    while i < n
        invariant
            n == enemies@.len(),
            i <= n,
            player_pos.in_coord_range(),
            forall|j: int| 0 <= j < n ==> craft_bounded((#[trigger] enemies@[j]).craft)
                && enemies@[j].wf(),
        decreases n - i,
    {
        let e = enemies[i];
        let decided = crate::ai::plane_ai(e.craft.position, e.craft.rotation, player_pos);
        let e2 = Enemy { craft: Craft { intent: decided, ..e.craft }, ..e };
        enemies.set(i, e2);
        i = i + 1;
    }
}

/// Movement, the vertical bound, and physics for every enemy.
fn enemy_motion_system(enemies: &mut Vec<Enemy>, config: &GameConfig, dt_ms: u64)
    requires
        forall|i: int| 0 <= i < old(enemies)@.len() ==> craft_bounded(
            (#[trigger] old(enemies)@[i]).craft,
        ) && old(enemies)@[i].wf(),
        config.wf(),
        dt_ms <= MAX_TICK_MS,
    ensures
        final(enemies)@.len() == old(enemies)@.len(),
        forall|i: int| 0 <= i < final(enemies)@.len() ==> craft_bounded(
            (#[trigger] final(enemies)@[i]).craft,
        ) && final(enemies)@[i].wf(),
{
    let n = enemies.len();
    let mut i: usize = 0;
    while i < n
        invariant
            n == enemies@.len(),
            i <= n,
            config.wf(),
            dt_ms <= MAX_TICK_MS,
            forall|j: int| 0 <= j < n ==> craft_bounded((#[trigger] enemies@[j]).craft)
                && enemies@[j].wf(),
        decreases n - i,
    {
        let e = enemies[i];
        let mut rotation = e.craft.rotation;
        let mut physics = e.craft.physics;
        let mut position = e.craft.position;
        plane_intent_movement_system(&mut rotation, &mut physics, &e.craft.intent,
            &e.craft.movement, dt_ms);
        vertical_bound_system(&mut rotation, &mut physics, position.y, config, dt_ms);
        linear_physics(&mut position, &mut physics, dt_ms);
        let e2 = Enemy {
            craft: Craft { rotation, physics, position, ..e.craft },
            ..e
        };
        enemies.set(i, e2);
        i = i + 1;
    }
}

/// Physics for every projectile.
fn projectile_physics_system(bullets: &mut Vec<Projectile>, dt_ms: u64)
    requires
        forall|i: int| 0 <= i < old(bullets)@.len() ==> (#[trigger] old(bullets)@[i]).wf(),
        dt_ms <= MAX_TICK_MS,
    ensures
        final(bullets)@.len() == old(bullets)@.len(),
        forall|i: int| 0 <= i < final(bullets)@.len() ==> (#[trigger] final(bullets)@[i]).wf(),
{
    let n = bullets.len();
    let mut i: usize = 0;
    while i < n
        invariant
            n == bullets@.len(),
            i <= n,
            dt_ms <= MAX_TICK_MS,
            forall|j: int| 0 <= j < n ==> (#[trigger] bullets@[j]).wf(),
        decreases n - i,
    {
        let b = bullets[i];
        let mut position = b.position;
        let mut physics = b.physics;
        linear_physics(&mut position, &mut physics, dt_ms);
        bullets.set(i, Projectile { position, physics, ..b });
        i = i + 1;
    }
}

/// Append freshly spawned projectiles, keeping the pool well formed.
fn append_projectiles(bullets: &mut Vec<Projectile>, spawned: &mut Vec<Projectile>)
    requires
        forall|i: int| 0 <= i < old(bullets)@.len() ==> (#[trigger] old(bullets)@[i]).wf(),
        forall|i: int| 0 <= i < old(spawned)@.len() ==> (#[trigger] old(spawned)@[i]).wf(),
    ensures
        final(bullets)@ == old(bullets)@ + old(spawned)@,
        forall|i: int| 0 <= i < final(bullets)@.len() ==> (#[trigger] final(bullets)@[i]).wf(),
{
    bullets.append(spawned);
    proof {
        assert forall|i: int| 0 <= i < bullets@.len() implies (#[trigger] bullets@[i]).wf() by {
            if i < old(bullets)@.len() {
                assert(bullets@[i] == old(bullets)@[i]);
            } else {
                assert(bullets@[i] == old(spawned)@[i - old(bullets)@.len()]);
            }
        }
    }
}

/// Add one beam to the pool.
fn push_beam(beams: &mut Vec<Beam>, beam: Beam)
    requires
        forall|i: int| 0 <= i < old(beams)@.len() ==> (#[trigger] old(beams)@[i]).wf(),
        beam.wf(),
    ensures
        final(beams)@ == old(beams)@.push(beam),
        forall|i: int| 0 <= i < final(beams)@.len() ==> (#[trigger] final(beams)@[i]).wf(),
{
    beams.push(beam);
}

/// Tick every enemy's cooldown gate and consume the fire events it
/// grants.
fn enemy_weapon_system(
    enemies: &mut Vec<Enemy>,
    bullets: &mut Vec<Projectile>,
    beams: &mut Vec<Beam>,
    dt_ms: u64,
)
    requires
        forall|i: int| 0 <= i < old(enemies)@.len() ==> craft_bounded(
            (#[trigger] old(enemies)@[i]).craft,
        ) && old(enemies)@[i].wf(),
        forall|i: int| 0 <= i < old(bullets)@.len() ==> (#[trigger] old(bullets)@[i]).wf(),
        forall|i: int| 0 <= i < old(beams)@.len() ==> (#[trigger] old(beams)@[i]).wf(),
    ensures
        final(enemies)@.len() == old(enemies)@.len(),
        forall|i: int| 0 <= i < final(enemies)@.len() ==> craft_bounded(
            (#[trigger] final(enemies)@[i]).craft,
        ) && final(enemies)@[i].wf(),
        forall|i: int| 0 <= i < final(bullets)@.len() ==> (#[trigger] final(bullets)@[i]).wf(),
        forall|i: int| 0 <= i < final(beams)@.len() ==> (#[trigger] final(beams)@[i]).wf(),
{
    let n = enemies.len();
    let mut i: usize = 0;
    while i < n
        invariant
            n == enemies@.len(),
            i <= n,
            forall|j: int| 0 <= j < n ==> craft_bounded((#[trigger] enemies@[j]).craft)
                && enemies@[j].wf(),
            forall|j: int| 0 <= j < bullets@.len() ==> (#[trigger] bullets@[j]).wf(),
            forall|j: int| 0 <= j < beams@.len() ==> (#[trigger] beams@[j]).wf(),
        decreases n - i,
    {
        let e = enemies[i];
        let mut weapon = e.weapon;
        let event = enemy_fire_gate(&mut weapon, &e.craft.intent, dt_ms, e.craft.id,
            e.craft.physics.velocity);
        enemies.set(i, Enemy { weapon, ..e });
        if let Some(ev) = event {
            let (mut spawned, beam) = fire_weapon(&ev, e.craft.position, e.craft.rotation,
                &weapon);
            append_projectiles(bullets, &mut spawned);
            if let Some(b) = beam {
                push_beam(beams, b);
            }
        }
        i = i + 1;
    }
}

/// Regenerate every enemy's health; an enemy holds its fire intent's
/// tradeoff just as the player does.
fn enemy_regen_system(enemies: &mut Vec<Enemy>, dt_ms: u64)
    requires
        forall|i: int| 0 <= i < old(enemies)@.len() ==> craft_bounded(
            (#[trigger] old(enemies)@[i]).craft,
        ) && old(enemies)@[i].wf(),
        dt_ms <= MAX_TICK_MS,
    ensures
        final(enemies)@.len() == old(enemies)@.len(),
        forall|i: int| 0 <= i < final(enemies)@.len() ==> craft_bounded(
            (#[trigger] final(enemies)@[i]).craft,
        ) && final(enemies)@[i].wf(),
{
    let n = enemies.len();
    let mut i: usize = 0;
    while i < n
        invariant
            n == enemies@.len(),
            i <= n,
            dt_ms <= MAX_TICK_MS,
            forall|j: int| 0 <= j < n ==> craft_bounded((#[trigger] enemies@[j]).craft)
                && enemies@[j].wf(),
        decreases n - i,
    {
        let e = enemies[i];
        let mut hp = e.craft.hp;
        hp_regen_system(&mut hp, e.craft.intent.fire, dt_ms);
        enemies.set(i, Enemy { craft: Craft { hp, ..e.craft }, ..e });
        i = i + 1;
    }
}

} // verus!
