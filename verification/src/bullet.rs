//! Projectile collision resolution.
//!
//! The broad phase tests every live projectile against every potential
//! target of the opposite hostility with a circle-overlap test.  Damage
//! is applied to the target immediately, piercing charges are consumed,
//! and a spent projectile is marked dead for end-of-tick cleanup.
//! Because each projectile/target pair is visited exactly once per
//! pass, a projectile can never damage the same target twice in one
//! tick.

use vstd::prelude::*;

use crate::events::EnemyHit;
use crate::fp::FP_LIMIT;
use crate::object::{Craft, Enemy, Projectile};
use crate::stats::HP;
use crate::vec2::{Vec2Fp, COORD_LIMIT};

verus! {

/// Circle hitboxes overlap when the squared distance between centres
/// is below the squared sum of radii.
pub open spec fn circles_overlap(p1: Vec2Fp, r1: i64, p2: Vec2Fp, r2: i64) -> bool {
    let dx = p1.x - p2.x;
    let dy = p1.y - p2.y;
    dx * dx + dy * dy < (r1 + r2) * (r1 + r2)
}

/// Exact circle-overlap test, computed wide.
pub fn circles_overlap_check(p1: Vec2Fp, r1: i64, p2: Vec2Fp, r2: i64) -> (r: bool)
    requires
        p1.in_coord_range(),
        p2.in_coord_range(),
        0 <= r1 <= COORD_LIMIT,
        0 <= r2 <= COORD_LIMIT,
    ensures
        r == circles_overlap(p1, r1, p2, r2),
{
    let dx = p1.x - p2.x;
    let dy = p1.y - p2.y;
    let rr = r1 + r2;
    proof {
        crate::vec2::lemma_in_range_product_fits(dx, dx);
        crate::vec2::lemma_in_range_product_fits(dy, dy);
        crate::vec2::lemma_in_range_product_fits(rr, rr);
    }
    let d2: i128 = (dx as i128) * (dx as i128) + (dy as i128) * (dy as i128);
    let rr2: i128 = (rr as i128) * (rr as i128);
    d2 < rr2
}

/// A target's health after one hit, clamped at the representable floor
/// so that a single bad frame can never wrap it around.
pub open spec fn damage_applied(hp: int, damage: int) -> int {
    if hp - damage >= -(FP_LIMIT as int) {
        hp - damage
    } else {
        -(FP_LIMIT as int)
    }
}

/// Apply one hit's damage to a health record.
pub fn apply_damage(hp: &mut HP, damage: i64)
    requires
        old(hp).wf(),
        0 <= damage <= COORD_LIMIT,
    ensures
        final(hp).hp == damage_applied(old(hp).hp as int, damage as int),
        final(hp).max == old(hp).max,
        final(hp).regen == old(hp).regen,
        final(hp).wf(),
{
    if self_hp_minus_ok(hp.hp, damage) {
        hp.hp = hp.hp - damage;
    } else {
        hp.hp = -FP_LIMIT;
    }
}

fn self_hp_minus_ok(hp: i64, damage: i64) -> (r: bool)
    requires
        -FP_LIMIT <= hp <= FP_LIMIT,
        0 <= damage <= COORD_LIMIT,
    ensures
        r == (hp - damage >= -(FP_LIMIT as int)),
{
    hp - damage >= -FP_LIMIT
}

/// What one projectile does to one enemy when their pair is visited:
/// a live, player-fired projectile that overlaps the enemy's hitbox
/// damages it and emits a hit event, then either spends its last
/// piercing charge and despawns or flies on with one charge fewer.
pub open spec fn bullet_enemy_step(b: Projectile, e: Enemy) -> (Projectile, Enemy, Option<
    EnemyHit,
>) {
    if b.alive && !b.hostile_to_player && circles_overlap(
        b.position,
        b.radius,
        e.craft.position,
        e.craft.radius,
    ) {
        let e2 = Enemy {
            craft: Craft {
                hp: HP {
                    hp: damage_applied(e.craft.hp.hp as int, b.damage as int) as i64,
                    ..e.craft.hp
                },
                ..e.craft
            },
            ..e
        };
        let b2 = if b.piercing == 0 {
            Projectile { alive: false, ..b }
        } else {
            Projectile { piercing: (b.piercing - 1) as u32, ..b }
        };
        (b2, e2, Some(EnemyHit { entity: e.craft.id, damage: b.damage }))
    } else {
        (b, e, None)
    }
}

/// One projectile swept over a sequence of enemies, pair by pair in
/// order.
pub open spec fn bullet_sweep_model(b: Projectile, es: Seq<Enemy>) -> (Projectile, Seq<Enemy>, Seq<
    EnemyHit,
>)
    decreases es.len(),
{
    if es.len() == 0 {
        (b, Seq::empty(), Seq::empty())
    } else {
        let prev = bullet_sweep_model(b, es.drop_last());
        let st = bullet_enemy_step(prev.0, es.last());
        (
            st.0,
            prev.1.push(st.1),
            match st.2 {
                Some(h) => prev.2.push(h),
                None => prev.2,
            },
        )
    }
}

/// Sweep one projectile over all enemies, applying damage as each
/// overlapping pair is found.
pub fn bullet_sweep(b: &mut Projectile, enemies: &mut Vec<Enemy>) -> (hits: Vec<EnemyHit>)
    requires
        old(b).wf(),
        forall|i: int| 0 <= i < old(enemies)@.len() ==> (#[trigger] old(enemies)@[i]).wf(),
    ensures
        (*final(b), final(enemies)@, hits@) == bullet_sweep_model(*old(b), old(enemies)@),
        final(b).wf(),
        final(enemies)@.len() == old(enemies)@.len(),
        forall|i: int| 0 <= i < final(enemies)@.len() ==> (#[trigger] final(enemies)@[i]).wf(),
{
    let ghost b0 = *b;
    let ghost es0 = enemies@;
    let mut hits: Vec<EnemyHit> = Vec::new();
    let n = enemies.len();
    let mut i: usize = 0;
    while i < n
        invariant
            n == es0.len(),
            i <= n,
            enemies@.len() == n,
            b0.wf(),
            b.wf(),
            forall|j: int| 0 <= j < n ==> (#[trigger] es0[j]).wf(),
            forall|j: int| 0 <= j < n ==> (#[trigger] enemies@[j]).wf(),
            forall|j: int| i <= j < n ==> enemies@[j] == es0[j],
            (*b, enemies@.subrange(0, i as int), hits@) == bullet_sweep_model(
                b0,
                es0.subrange(0, i as int),
            ),
        decreases n - i,
    {
        let ghost prefix = es0.subrange(0, i as int);
        let ghost prefix1 = es0.subrange(0, i as int + 1);
        proof {
            assert(prefix1.drop_last() =~= prefix);
            assert(prefix1.last() == es0[i as int]);
        }
        let e = enemies[i];
        if b.alive && !b.hostile_to_player && circles_overlap_check(
            b.position,
            b.radius,
            e.craft.position,
            e.craft.radius,
        ) {
            let mut hp = e.craft.hp;
            apply_damage(&mut hp, b.damage);
            let e2 = Enemy {
                craft: Craft { hp, ..e.craft },
                ..e
            };
            enemies.set(i, e2);
            hits.push(EnemyHit { entity: e.craft.id, damage: b.damage });
            if b.piercing == 0 {
                b.alive = false;
            } else {
                b.piercing = b.piercing - 1;
            }
        }
        proof {
            assert(enemies@.subrange(0, i as int + 1) =~= enemies@.subrange(0, i as int).push(
                enemies@[i as int],
            ));
            assert(enemies@.subrange(0, i as int) =~= bullet_sweep_model(b0, prefix).1);
        }
        i = i + 1;
    }
    proof {
        assert(es0.subrange(0, n as int) =~= es0);
        assert(enemies@.subrange(0, n as int) =~= enemies@);
    }
    hits
}

/// The damage capacity a projectile has left: one hit plus one per
/// remaining piercing charge while it lives, none once spent.
pub open spec fn hit_capacity(b: Projectile) -> int {
    if b.alive {
        b.piercing + 1
    } else {
        0
    }
}

/// Piercing monotonicity, first half: sweeping a projectile over any
/// sequence of enemies emits at most as many hits as the projectile
/// has capacity — a projectile with piercing `P` damages at most
/// `P + 1` targets before despawning.
pub proof fn lemma_piercing_monotonic(b: Projectile, es: Seq<Enemy>)
    ensures
        bullet_sweep_model(b, es).2.len() + hit_capacity(bullet_sweep_model(b, es).0)
            <= hit_capacity(b),
        bullet_sweep_model(b, es).2.len() <= hit_capacity(b),
    decreases es.len(),
{
    if es.len() > 0 {
        lemma_piercing_monotonic(b, es.drop_last());
    }
}

/// Piercing monotonicity, second half: each hit of a sweep names the
/// enemy whose pair produced it, so when the enemies carry distinct
/// ids no two hits of one sweep name the same target — a projectile
/// never damages the same target twice in one tick.
pub proof fn lemma_no_double_hit(b: Projectile, es: Seq<Enemy>)
    requires
        forall|i: int, j: int|
            0 <= i < j < es.len() ==> es[i].craft.id != es[j].craft.id,
    ensures
        forall|i: int, j: int|
            0 <= i < j < bullet_sweep_model(b, es).2.len() ==> bullet_sweep_model(b, es).2[i].entity
                != bullet_sweep_model(b, es).2[j].entity,
    decreases es.len(),
{
    if es.len() > 0 {
        let prev = bullet_sweep_model(b, es.drop_last());
        lemma_no_double_hit(b, es.drop_last());
        lemma_sweep_hits_from_targets(b, es.drop_last());
        let st = bullet_enemy_step(prev.0, es.last());
        if st.2 is Some {
            assert forall|i: int|
                0 <= i < prev.2.len() implies prev.2[i].entity != es.last().craft.id by {
                let k = choose|k: int| 0 <= k < es.drop_last().len() && prev.2[i].entity
                    == es.drop_last()[k].craft.id;
                assert(es[k].craft.id != es[es.len() - 1].craft.id);
            }
        }
    }
}

/// Every hit of a sweep names some enemy of the swept sequence.
proof fn lemma_sweep_hits_from_targets(b: Projectile, es: Seq<Enemy>)
    ensures
        forall|i: int|
            0 <= i < bullet_sweep_model(b, es).2.len() ==> exists|k: int|
                0 <= k < es.len() && #[trigger] bullet_sweep_model(b, es).2[i].entity
                    == es[k].craft.id,
    decreases es.len(),
{
    if es.len() > 0 {
        let prev = bullet_sweep_model(b, es.drop_last());
        lemma_sweep_hits_from_targets(b, es.drop_last());
        let st = bullet_enemy_step(prev.0, es.last());
        assert forall|i: int|
            0 <= i < bullet_sweep_model(b, es).2.len() implies exists|k: int|
                0 <= k < es.len() && #[trigger] bullet_sweep_model(b, es).2[i].entity
                    == es[k].craft.id by {
            if i < prev.2.len() {
                let k = choose|k: int| 0 <= k < es.drop_last().len() && prev.2[i].entity
                    == es.drop_last()[k].craft.id;
                assert(bullet_sweep_model(b, es).2[i].entity == es[k].craft.id);
            } else {
                assert(bullet_sweep_model(b, es).2[i].entity == es[es.len() - 1].craft.id);
            }
        }
    }
}

/// A full collision pass: every projectile swept over the enemies in
/// turn, accumulating the tick's hit events.
pub open spec fn bullets_pass_model(bs: Seq<Projectile>, es: Seq<Enemy>) -> (Seq<Projectile>, Seq<
    Enemy,
>, Seq<EnemyHit>)
    decreases bs.len(),
{
    if bs.len() == 0 {
        (Seq::empty(), es, Seq::empty())
    } else {
        let prev = bullets_pass_model(bs.drop_last(), es);
        let sw = bullet_sweep_model(bs.last(), prev.1);
        (prev.0.push(sw.0), sw.1, prev.2 + sw.2)
    }
}

/// Match every projectile against every enemy, player-fired shots
/// only; apply damage, consume piercing, and collect the tick's
/// enemy-hit events.
pub fn enemy_bullet_collision_system(
    bullets: &mut Vec<Projectile>,
    enemies: &mut Vec<Enemy>,
) -> (hits: Vec<EnemyHit>)
    requires
        forall|i: int| 0 <= i < old(bullets)@.len() ==> (#[trigger] old(bullets)@[i]).wf(),
        forall|i: int| 0 <= i < old(enemies)@.len() ==> (#[trigger] old(enemies)@[i]).wf(),
    ensures
        (final(bullets)@, final(enemies)@, hits@) == bullets_pass_model(
            old(bullets)@,
            old(enemies)@,
        ),
        final(bullets)@.len() == old(bullets)@.len(),
        final(enemies)@.len() == old(enemies)@.len(),
        forall|i: int| 0 <= i < final(bullets)@.len() ==> (#[trigger] final(bullets)@[i]).wf(),
        forall|i: int| 0 <= i < final(enemies)@.len() ==> (#[trigger] final(enemies)@[i]).wf(),
{
    let ghost bs0 = bullets@;
    let ghost es0 = enemies@;
    let mut hits: Vec<EnemyHit> = Vec::new();
    let n = bullets.len();
    let mut j: usize = 0;
    while j < n
        invariant
            n == bs0.len(),
            j <= n,
            bullets@.len() == n,
            enemies@.len() == es0.len(),
            forall|i: int| 0 <= i < n ==> (#[trigger] bs0[i]).wf(),
            forall|i: int| 0 <= i < n ==> (#[trigger] bullets@[i]).wf(),
            forall|i: int| 0 <= i < enemies@.len() ==> (#[trigger] enemies@[i]).wf(),
            forall|i: int| j <= i < n ==> bullets@[i] == bs0[i],
            (bullets@.subrange(0, j as int), enemies@, hits@) == bullets_pass_model(
                bs0.subrange(0, j as int),
                es0,
            ),
        decreases n - j,
    {
        let ghost prefix = bs0.subrange(0, j as int);
        let ghost prefix1 = bs0.subrange(0, j as int + 1);
        proof {
            assert(prefix1.drop_last() =~= prefix);
            assert(prefix1.last() == bs0[j as int]);
        }
        let mut b = bullets[j];
        let mut sweep_hits = bullet_sweep(&mut b, enemies);
        bullets.set(j, b);
        hits.append(&mut sweep_hits);
        proof {
            assert(bullets@.subrange(0, j as int + 1) =~= bullets@.subrange(0, j as int).push(
                bullets@[j as int],
            ));
            assert(bullets@.subrange(0, j as int) =~= bullets_pass_model(prefix, es0).0);
        }
        j = j + 1;
    }
    proof {
        assert(bs0.subrange(0, n as int) =~= bs0);
        assert(bullets@.subrange(0, n as int) =~= bullets@);
    }
    hits
}

/// What one enemy-fired projectile does to the player when their pair
/// is visited.
pub open spec fn bullet_player_step(b: Projectile, player_hp: HP, pos: Vec2Fp, radius: i64) -> (
    Projectile,
    HP,
    bool,
) {
    if b.alive && b.hostile_to_player && circles_overlap(b.position, b.radius, pos, radius) {
        let hp2 = HP { hp: damage_applied(player_hp.hp as int, b.damage as int) as i64, ..player_hp };
        let b2 = if b.piercing == 0 {
            Projectile { alive: false, ..b }
        } else {
            Projectile { piercing: (b.piercing - 1) as u32, ..b }
        };
        (b2, hp2, true)
    } else {
        (b, player_hp, false)
    }
}

/// All hostile projectiles matched against the player in order,
/// counting the player-hit events emitted.
pub open spec fn player_pass_model(bs: Seq<Projectile>, player_hp: HP, pos: Vec2Fp, radius: i64)
    -> (Seq<Projectile>, HP, int)
    decreases bs.len(),
{
    if bs.len() == 0 {
        (Seq::empty(), player_hp, 0)
    } else {
        let prev = player_pass_model(bs.drop_last(), player_hp, pos, radius);
        let st = bullet_player_step(bs.last(), prev.1, pos, radius);
        (prev.0.push(st.0), st.1, prev.2 + if st.2 { 1int } else { 0int })
    }
}

/// Match every enemy-fired projectile against the player's hitbox;
/// apply damage, consume piercing, and count the player-hit events.
pub fn player_bullet_collision_system(
    bullets: &mut Vec<Projectile>,
    player_hp: &mut HP,
    pos: Vec2Fp,
    radius: i64,
) -> (hits: usize)
    requires
        forall|i: int| 0 <= i < old(bullets)@.len() ==> (#[trigger] old(bullets)@[i]).wf(),
        old(player_hp).wf(),
        pos.in_coord_range(),
        0 <= radius <= COORD_LIMIT,
    ensures
        (final(bullets)@, *final(player_hp), hits as int) == player_pass_model(
            old(bullets)@,
            *old(player_hp),
            pos,
            radius,
        ),
        final(player_hp).wf(),
        forall|i: int| 0 <= i < final(bullets)@.len() ==> (#[trigger] final(bullets)@[i]).wf(),
{
    let ghost bs0 = bullets@;
    let ghost hp0 = *player_hp;
    let mut hits: usize = 0;
    let n = bullets.len();
    let mut j: usize = 0;
    while j < n
        invariant
            n == bs0.len(),
            j <= n,
            hits <= j,
            bullets@.len() == n,
            hp0.wf(),
            player_hp.wf(),
            pos.in_coord_range(),
            0 <= radius <= COORD_LIMIT,
            forall|i: int| 0 <= i < n ==> (#[trigger] bs0[i]).wf(),
            forall|i: int| 0 <= i < n ==> (#[trigger] bullets@[i]).wf(),
            forall|i: int| j <= i < n ==> bullets@[i] == bs0[i],
            (bullets@.subrange(0, j as int), *player_hp, hits as int) == player_pass_model(
                bs0.subrange(0, j as int),
                hp0,
                pos,
                radius,
            ),
        decreases n - j,
    {
        let ghost prefix = bs0.subrange(0, j as int);
        let ghost prefix1 = bs0.subrange(0, j as int + 1);
        proof {
            assert(prefix1.drop_last() =~= prefix);
            assert(prefix1.last() == bs0[j as int]);
        }
        let mut b = bullets[j];
        if b.alive && b.hostile_to_player && circles_overlap_check(b.position, b.radius, pos, radius)
        {
            apply_damage(player_hp, b.damage);
            hits = hits + 1;
            if b.piercing == 0 {
                b.alive = false;
            } else {
                b.piercing = b.piercing - 1;
            }
            bullets.set(j, b);
        }
        proof {
            assert(bullets@.subrange(0, j as int + 1) =~= bullets@.subrange(0, j as int).push(
                bullets@[j as int],
            ));
            assert(bullets@.subrange(0, j as int) =~= player_pass_model(prefix, hp0, pos, radius).0);
        }
        j = j + 1;
    }
    proof {
        assert(bs0.subrange(0, n as int) =~= bs0);
        assert(bullets@.subrange(0, n as int) =~= bullets@);
    }
    hits
}

/// `b` is `a` with at most its current health changed: the shape that
/// every collision pass leaves a target in.
pub open spec fn enemy_damaged_only(a: Enemy, b: Enemy) -> bool {
    b == (Enemy {
        craft: Craft { hp: HP { hp: b.craft.hp.hp, ..a.craft.hp }, ..a.craft },
        ..a
    })
}

/// A sweep only lowers targets' health (never below the clamp floor)
/// and touches nothing else about them; the projectile keeps its
/// damage value.
pub proof fn lemma_sweep_damage_shape(b: Projectile, es: Seq<Enemy>)
    requires
        0 <= b.damage,
    ensures
        bullet_sweep_model(b, es).1.len() == es.len(),
        bullet_sweep_model(b, es).0.damage == b.damage,
        forall|i: int| 0 <= i < es.len() ==> {
            let e2 = #[trigger] bullet_sweep_model(b, es).1[i];
            &&& enemy_damaged_only(es[i], e2)
            &&& (e2.craft.hp.hp <= es[i].craft.hp.hp || e2.craft.hp.hp == -FP_LIMIT)
            &&& (e2.craft.hp.hp >= -FP_LIMIT || e2.craft.hp.hp == es[i].craft.hp.hp)
        },
    decreases es.len(),
{
    if es.len() > 0 {
        lemma_sweep_damage_shape(b, es.drop_last());
    }
}

/// A whole pass only lowers targets' health and touches nothing else
/// about them.
pub proof fn lemma_pass_damage_shape(bs: Seq<Projectile>, es: Seq<Enemy>)
    requires
        forall|j: int| 0 <= j < bs.len() ==> 0 <= (#[trigger] bs[j]).damage,
    ensures
        bullets_pass_model(bs, es).1.len() == es.len(),
        forall|i: int| 0 <= i < es.len() ==> {
            let e2 = #[trigger] bullets_pass_model(bs, es).1[i];
            &&& enemy_damaged_only(es[i], e2)
            &&& (e2.craft.hp.hp <= es[i].craft.hp.hp || e2.craft.hp.hp == -FP_LIMIT)
            &&& (e2.craft.hp.hp >= -FP_LIMIT || e2.craft.hp.hp == es[i].craft.hp.hp)
        },
    decreases bs.len(),
{
    if bs.len() > 0 {
        lemma_pass_damage_shape(bs.drop_last(), es);
        lemma_sweep_damage_shape(bs.last(), bullets_pass_model(bs.drop_last(), es).1);
    }
}

/// The player pass only lowers the player's current health (never
/// below the clamp floor) and leaves cap and regeneration untouched.
pub proof fn lemma_player_pass_shape(bs: Seq<Projectile>, hp0: HP, pos: Vec2Fp, radius: i64)
    requires
        forall|j: int| 0 <= j < bs.len() ==> 0 <= (#[trigger] bs[j]).damage,
    ensures
        ({
            let hp2 = player_pass_model(bs, hp0, pos, radius).1;
            &&& hp2.max == hp0.max
            &&& hp2.regen == hp0.regen
            &&& (hp2.hp <= hp0.hp || hp2.hp == -FP_LIMIT)
            &&& (hp2.hp >= -FP_LIMIT || hp2.hp == hp0.hp)
        }),
    decreases bs.len(),
{
    if bs.len() > 0 {
        lemma_player_pass_shape(bs.drop_last(), hp0, pos, radius);
    }
}

} // verus!
