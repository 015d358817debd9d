//! Beam collision resolution.
//!
//! A beam is a damaging ray anchored to a transform.  A target is hit
//! when it lies in front of the beam origin, within the beam's range,
//! and within beam-width-plus-target-radius of the ray.  Unlike a
//! projectile, a beam consumes nothing on a hit: it deals its damage
//! on every tick it overlaps a target.

use vstd::prelude::*;

use crate::events::EnemyHit;
use crate::fp::SCALE;
use crate::object::{Beam, Craft, Enemy};
use crate::stats::HP;
use crate::vec2::{forward_of, Vec2Fp, COORD_LIMIT};

verus! {

/// The ray-versus-circle test, written without division: with `v` the
/// vector from beam origin to target centre and `d` the beam's forward
/// direction, the target is in front when `v · d >= 0`, in range when
/// the projection does not exceed `max_dist`, and overlapping when the
/// rejection distance is below the beam width plus the target radius.
/// Every comparison is multiplied through by `|d|^2`.
pub open spec fn beam_hits(beam: Beam, pos: Vec2Fp, radius: i64) -> bool {
    let d = forward_of(beam.rotation as int);
    let vx = pos.x - beam.origin.x;
    let vy = pos.y - beam.origin.y;
    let vd = vx * d.x + vy * d.y;
    let dd = d.x * d.x + d.y * d.y;
    let vv = vx * vx + vy * vy;
    let reach = beam.width + radius;
    &&& vd >= 0
    &&& vv * dd - vd * vd < reach * reach * dd
    &&& match beam.max_dist {
        Some(m) => vd * vd < m * m * dd,
        None => true,
    }
}

/// Exact beam-versus-circle test, computed wide.
pub fn beam_hits_check(beam: &Beam, pos: Vec2Fp, radius: i64) -> (r: bool)
    requires
        beam.wf(),
        pos.in_coord_range(),
        0 <= radius <= COORD_LIMIT,
    ensures
        r == beam_hits(*beam, pos, radius),
{
    let dir = crate::vec2::forward_dir(beam.rotation);
    let vx = pos.x - beam.origin.x;
    let vy = pos.y - beam.origin.y;
    let reach = beam.width + radius;
    proof {
        lemma_beam_products_fit(vx, vy, dir, reach);
    }
    let vd: i128 = (vx as i128) * (dir.x as i128) + (vy as i128) * (dir.y as i128);
    let dd: i128 = (dir.x as i128) * (dir.x as i128) + (dir.y as i128) * (dir.y as i128);
    let vv: i128 = (vx as i128) * (vx as i128) + (vy as i128) * (vy as i128);
    if vd < 0 {
        return false;
    }
    let lhs: i128 = vv * dd - vd * vd;
    let rhs: i128 = ((reach as i128) * (reach as i128)) * dd;
    if lhs >= rhs {
        return false;
    }
    match beam.max_dist {
        Some(m) => {
            proof {
                lemma_range_product_fits(m, dd as int);
            }
            (vd * vd) < ((m as i128) * (m as i128)) * dd
        },
        None => true,
    }
}

/// All the wide products of the beam test stay far inside `i128`.
proof fn lemma_beam_products_fit(vx: i64, vy: i64, dir: Vec2Fp, reach: i64)
    requires
        -1_000_000_000_000 <= vx <= 1_000_000_000_000,
        -1_000_000_000_000 <= vy <= 1_000_000_000_000,
        dir.in_unit_range(),
        0 <= reach <= 1_000_000_000_000,
    ensures
        ({
            let vd = vx * dir.x + vy * dir.y;
            let dd = dir.x * dir.x + dir.y * dir.y;
            let vv = (vx as int) * (vx as int) + (vy as int) * (vy as int);
            let rr2 = (reach as int) * (reach as int);
            &&& -1_000_000_000_000_000_000 <= vx * dir.x <= 1_000_000_000_000_000_000
            &&& -1_000_000_000_000_000_000 <= vy * dir.y <= 1_000_000_000_000_000_000
            &&& 0 <= dir.x * dir.x <= 1_000_000_000_000
            &&& 0 <= dir.y * dir.y <= 1_000_000_000_000
            &&& 0 <= (vx as int) * (vx as int) <= 1_000_000_000_000_000_000_000_000
            &&& 0 <= (vy as int) * (vy as int) <= 1_000_000_000_000_000_000_000_000
            &&& -2_000_000_000_000_000_000 <= vd <= 2_000_000_000_000_000_000
            &&& 0 <= dd <= 2_000_000_000_000
            &&& 0 <= vv <= 2_000_000_000_000_000_000_000_000
            &&& 0 <= rr2 <= 1_000_000_000_000_000_000_000_000
            &&& -0x8000_0000_0000_0000_0000_0000_0000_0000 <= vv * dd
                <= 0x7fff_ffff_ffff_ffff_ffff_ffff_ffff_ffff
            &&& -0x8000_0000_0000_0000_0000_0000_0000_0000 <= vd * vd
                <= 0x7fff_ffff_ffff_ffff_ffff_ffff_ffff_ffff
            &&& -0x8000_0000_0000_0000_0000_0000_0000_0000 <= rr2 * dd
                <= 0x7fff_ffff_ffff_ffff_ffff_ffff_ffff_ffff
        }),
{
    let vd = vx * dir.x + vy * dir.y;
    let dd = dir.x * dir.x + dir.y * dir.y;
    let vv = (vx as int) * (vx as int) + (vy as int) * (vy as int);
    let rr2 = (reach as int) * (reach as int);
    assert(-1_000_000_000_000_000_000 <= vx * dir.x <= 1_000_000_000_000_000_000
        && -1_000_000_000_000_000_000 <= vy * dir.y <= 1_000_000_000_000_000_000
        && 0 <= dir.x * dir.x <= 1_000_000_000_000
        && 0 <= dir.y * dir.y <= 1_000_000_000_000
        && 0 <= (vx as int) * (vx as int) <= 1_000_000_000_000_000_000_000_000
        && 0 <= (vy as int) * (vy as int) <= 1_000_000_000_000_000_000_000_000
        && 0 <= rr2 <= 1_000_000_000_000_000_000_000_000) by (nonlinear_arith)
        requires
            -1_000_000_000_000 <= vx as int <= 1_000_000_000_000,
            -1_000_000_000_000 <= vy as int <= 1_000_000_000_000,
            -1_000_000 <= dir.x as int <= 1_000_000,
            -1_000_000 <= dir.y as int <= 1_000_000,
            0 <= reach as int <= 1_000_000_000_000,
            rr2 == (reach as int) * (reach as int);
    assert(-8_000_000_000_000_000_000_000_000_000_000_000_000 <= vv * dd
        <= 8_000_000_000_000_000_000_000_000_000_000_000_000
        && -8_000_000_000_000_000_000_000_000_000_000_000_000 <= vd * vd
            <= 8_000_000_000_000_000_000_000_000_000_000_000_000
        && -8_000_000_000_000_000_000_000_000_000_000_000_000 <= rr2 * dd
            <= 8_000_000_000_000_000_000_000_000_000_000_000_000) by (nonlinear_arith)
        requires
            -2_000_000_000_000_000_000 <= vd <= 2_000_000_000_000_000_000,
            0 <= dd <= 2_000_000_000_000,
            0 <= vv <= 2_000_000_000_000_000_000_000_000,
            0 <= rr2 <= 1_000_000_000_000_000_000_000_000;
}

/// A range cutoff squared times the direction length stays inside
/// `i128`.
proof fn lemma_range_product_fits(m: i64, dd: int)
    requires
        0 <= m <= COORD_LIMIT,
        0 <= dd <= 2_000_000_000_000,
    ensures
        0 <= (m as int) * (m as int) <= 1_000_000_000_000_000_000_000_000,
        0 <= ((m as int) * (m as int)) * dd <= 0x7fff_ffff_ffff_ffff_ffff_ffff_ffff_ffff,
{
    assert(0 <= (m as int) * (m as int) <= 1_000_000_000_000_000_000_000_000
        && 0 <= ((m as int) * (m as int)) * dd
            <= 8_000_000_000_000_000_000_000_000_000_000_000_000) by (nonlinear_arith)
        requires
            0 <= m as int <= 500_000_000_000,
            0 <= dd <= 2_000_000_000_000;
}

/// What one beam does to one enemy when their pair is visited: a live,
/// player-fired beam that overlaps the enemy damages it and emits a
/// hit event; the beam itself is never consumed.  Beams carry the same
/// hostility flag projectiles do, and this pass applies it the same
/// way — an enemy-fired beam leaves enemies untouched; this filter is
/// a deliberate design choice of this pass.
pub open spec fn beam_enemy_step(beam: Beam, e: Enemy) -> (Enemy, Option<EnemyHit>) {
    if beam.alive && !beam.hostile && beam_hits(beam, e.craft.position, e.craft.radius) {
        let e2 = Enemy {
            craft: Craft {
                hp: HP {
                    hp: crate::bullet::damage_applied(e.craft.hp.hp as int, beam.damage as int) as i64,
                    ..e.craft.hp
                },
                ..e.craft
            },
            ..e
        };
        (e2, Some(EnemyHit { entity: e.craft.id, damage: beam.damage }))
    } else {
        (e, None)
    }
}

/// One beam swept over a sequence of enemies.
pub open spec fn beam_sweep_model(beam: Beam, es: Seq<Enemy>) -> (Seq<Enemy>, Seq<EnemyHit>)
    decreases es.len(),
{
    if es.len() == 0 {
        (Seq::empty(), Seq::empty())
    } else {
        let prev = beam_sweep_model(beam, es.drop_last());
        let st = beam_enemy_step(beam, es.last());
        (
            prev.0.push(st.0),
            match st.1 {
                Some(h) => prev.1.push(h),
                None => prev.1,
            },
        )
    }
}

/// A full pass of one tick's beams over the enemies.
pub open spec fn beams_pass_model(beams: Seq<Beam>, es: Seq<Enemy>) -> (Seq<Enemy>, Seq<EnemyHit>)
    decreases beams.len(),
{
    if beams.len() == 0 {
        (es, Seq::empty())
    } else {
        let prev = beams_pass_model(beams.drop_last(), es);
        let sw = beam_sweep_model(beams.last(), prev.0);
        (sw.0, prev.1 + sw.1)
    }
}

/// Sweep one beam over all enemies.
pub fn beam_sweep(beam: &Beam, enemies: &mut Vec<Enemy>) -> (hits: Vec<EnemyHit>)
    requires
        beam.wf(),
        forall|i: int| 0 <= i < old(enemies)@.len() ==> (#[trigger] old(enemies)@[i]).wf(),
    ensures
        (final(enemies)@, hits@) == beam_sweep_model(*beam, old(enemies)@),
        final(enemies)@.len() == old(enemies)@.len(),
        forall|i: int| 0 <= i < final(enemies)@.len() ==> (#[trigger] final(enemies)@[i]).wf(),
{
    let ghost es0 = enemies@;
    let mut hits: Vec<EnemyHit> = Vec::new();
    let n = enemies.len();
    let mut i: usize = 0;
    while i < n
        invariant
            n == es0.len(),
            i <= n,
            enemies@.len() == n,
            beam.wf(),
            forall|j: int| 0 <= j < n ==> (#[trigger] es0[j]).wf(),
            forall|j: int| 0 <= j < n ==> (#[trigger] enemies@[j]).wf(),
            forall|j: int| i <= j < n ==> enemies@[j] == es0[j],
            (enemies@.subrange(0, i as int), hits@) == beam_sweep_model(
                *beam,
                es0.subrange(0, i as int),
            ),
        decreases n - i,
    {
        let ghost prefix = es0.subrange(0, i as int);
        let ghost prefix1 = es0.subrange(0, i as int + 1);
        proof {
            assert(prefix1.drop_last() =~= prefix);
            assert(prefix1.last() == es0[i as int]);
        }
        let e = enemies[i];
        if beam.alive && !beam.hostile && beam_hits_check(beam, e.craft.position, e.craft.radius) {
            let mut hp = e.craft.hp;
            crate::bullet::apply_damage(&mut hp, beam.damage);
            let e2 = Enemy {
                craft: Craft { hp, ..e.craft },
                ..e
            };
            enemies.set(i, e2);
            hits.push(EnemyHit { entity: e.craft.id, damage: beam.damage });
        }
        proof {
            assert(enemies@.subrange(0, i as int + 1) =~= enemies@.subrange(0, i as int).push(
                enemies@[i as int],
            ));
            assert(enemies@.subrange(0, i as int) =~= beam_sweep_model(*beam, prefix).0);
        }
        i = i + 1;
    }
    proof {
        assert(es0.subrange(0, n as int) =~= es0);
        assert(enemies@.subrange(0, n as int) =~= enemies@);
    }
    hits
}

/// Match every live beam against every enemy; apply damage and collect
/// the tick's enemy-hit events.
pub fn enemy_laser_collision_system(beams: &Vec<Beam>, enemies: &mut Vec<Enemy>) -> (hits: Vec<
    EnemyHit,
>)
    requires
        forall|i: int| 0 <= i < beams@.len() ==> (#[trigger] beams@[i]).wf(),
        forall|i: int| 0 <= i < old(enemies)@.len() ==> (#[trigger] old(enemies)@[i]).wf(),
    ensures
        (final(enemies)@, hits@) == beams_pass_model(beams@, old(enemies)@),
        final(enemies)@.len() == old(enemies)@.len(),
        forall|i: int| 0 <= i < final(enemies)@.len() ==> (#[trigger] final(enemies)@[i]).wf(),
{
    let ghost es0 = enemies@;
    let mut hits: Vec<EnemyHit> = Vec::new();
    let n = beams.len();
    let mut j: usize = 0;
    while j < n
        invariant
            n == beams@.len(),
            j <= n,
            enemies@.len() == es0.len(),
            forall|i: int| 0 <= i < n ==> (#[trigger] beams@[i]).wf(),
            forall|i: int| 0 <= i < enemies@.len() ==> (#[trigger] enemies@[i]).wf(),
            (enemies@, hits@) == beams_pass_model(beams@.subrange(0, j as int), es0),
        decreases n - j,
    {
        let ghost prefix = beams@.subrange(0, j as int);
        let ghost prefix1 = beams@.subrange(0, j as int + 1);
        proof {
            assert(prefix1.drop_last() =~= prefix);
            assert(prefix1.last() == beams@[j as int]);
        }
        let beam = &beams[j];
        let mut sweep_hits = beam_sweep(beam, enemies);
        hits.append(&mut sweep_hits);
        j = j + 1;
    }
    proof {
        assert(beams@.subrange(0, n as int) =~= beams@);
    }
    hits
}

/// A beam pass only lowers targets' health (never below the clamp
/// floor) and touches nothing else about them.
pub proof fn lemma_beam_sweep_damage_shape(beam: Beam, es: Seq<Enemy>)
    requires
        0 <= beam.damage,
    ensures
        beam_sweep_model(beam, es).0.len() == es.len(),
        forall|i: int| 0 <= i < es.len() ==> {
            let e2 = #[trigger] beam_sweep_model(beam, es).0[i];
            &&& crate::bullet::enemy_damaged_only(es[i], e2)
            &&& (e2.craft.hp.hp <= es[i].craft.hp.hp || e2.craft.hp.hp
                == -crate::fp::FP_LIMIT)
            &&& (e2.craft.hp.hp >= -crate::fp::FP_LIMIT || e2.craft.hp.hp
                == es[i].craft.hp.hp)
        },
    decreases es.len(),
{
    if es.len() > 0 {
        lemma_beam_sweep_damage_shape(beam, es.drop_last());
    }
}

/// All of a tick's beams together only lower targets' health and touch
/// nothing else about them.
pub proof fn lemma_beams_pass_damage_shape(beams: Seq<Beam>, es: Seq<Enemy>)
    requires
        forall|j: int| 0 <= j < beams.len() ==> 0 <= (#[trigger] beams[j]).damage,
    ensures
        beams_pass_model(beams, es).0.len() == es.len(),
        forall|i: int| 0 <= i < es.len() ==> {
            let e2 = #[trigger] beams_pass_model(beams, es).0[i];
            &&& crate::bullet::enemy_damaged_only(es[i], e2)
            &&& (e2.craft.hp.hp <= es[i].craft.hp.hp || e2.craft.hp.hp
                == -crate::fp::FP_LIMIT)
            &&& (e2.craft.hp.hp >= -crate::fp::FP_LIMIT || e2.craft.hp.hp
                == es[i].craft.hp.hp)
        },
    decreases beams.len(),
{
    if beams.len() > 0 {
        lemma_beams_pass_damage_shape(beams.drop_last(), es);
        lemma_beam_sweep_damage_shape(beams.last(), beams_pass_model(beams.drop_last(), es).0);
    }
}

} // verus!
