//! Ephemeral-object lifetimes: countdown ticking and end-of-tick
//! cleanup.

use vstd::prelude::*;

use crate::object::{Beam, Projectile};
use crate::timer::{ticked_elapsed, SimTimer};

verus! {

/// A projectile after one lifetime tick: the countdown advances, and
/// an expiring countdown marks the projectile dead.
pub open spec fn projectile_aged(p: Projectile, dt_ms: u64) -> Projectile {
    let t2 = SimTimer {
        elapsed_ms: ticked_elapsed(p.lifetime, dt_ms) as u64,
        duration_ms: p.lifetime.duration_ms,
    };
    let expired = !p.lifetime.finished_spec() && t2.finished_spec();
    Projectile { lifetime: t2, alive: p.alive && !expired, ..p }
}

/// A beam after one lifetime tick.
pub open spec fn beam_aged(b: Beam, dt_ms: u64) -> Beam {
    let t2 = SimTimer {
        elapsed_ms: ticked_elapsed(b.lifetime, dt_ms) as u64,
        duration_ms: b.lifetime.duration_ms,
    };
    let expired = !b.lifetime.finished_spec() && t2.finished_spec();
    Beam { lifetime: t2, alive: b.alive && !expired, ..b }
}

/// Tick every projectile's lifetime.
pub fn projectile_lifetime_system(bullets: &mut Vec<Projectile>, dt_ms: u64)
    requires
        forall|i: int| 0 <= i < old(bullets)@.len() ==> (#[trigger] old(bullets)@[i]).wf(),
    ensures
        final(bullets)@.len() == old(bullets)@.len(),
        forall|i: int| 0 <= i < final(bullets)@.len() ==> final(bullets)@[i] == projectile_aged(
            #[trigger] old(bullets)@[i],
            dt_ms,
        ),
        forall|i: int| 0 <= i < final(bullets)@.len() ==> (#[trigger] final(bullets)@[i]).wf(),
{
    let ghost bs0 = bullets@;
    let n = bullets.len();
    let mut i: usize = 0;
    while i < n
        invariant
            n == bs0.len(),
            i <= n,
            bullets@.len() == n,
            forall|j: int| 0 <= j < n ==> (#[trigger] bs0[j]).wf(),
            forall|j: int| i <= j < n ==> bullets@[j] == bs0[j],
            forall|j: int| 0 <= j < i ==> bullets@[j] == projectile_aged(#[trigger] bs0[j], dt_ms),
            forall|j: int| 0 <= j < n ==> (#[trigger] bullets@[j]).wf(),
        decreases n - i,
    {
        let mut b = bullets[i];
        let mut t = b.lifetime;
        let expired = t.tick(dt_ms);
        b.lifetime = t;
        if expired {
            b.alive = false;
        }
        bullets.set(i, b);
        i = i + 1;
    }
}

/// Tick every beam's lifetime.
pub fn beam_lifetime_system(beams: &mut Vec<Beam>, dt_ms: u64)
    requires
        forall|i: int| 0 <= i < old(beams)@.len() ==> (#[trigger] old(beams)@[i]).wf(),
    ensures
        final(beams)@.len() == old(beams)@.len(),
        forall|i: int| 0 <= i < final(beams)@.len() ==> final(beams)@[i] == beam_aged(
            #[trigger] old(beams)@[i],
            dt_ms,
        ),
        forall|i: int| 0 <= i < final(beams)@.len() ==> (#[trigger] final(beams)@[i]).wf(),
{
    let ghost bs0 = beams@;
    let n = beams.len();
    let mut i: usize = 0;
    while i < n
        invariant
            n == bs0.len(),
            i <= n,
            beams@.len() == n,
            forall|j: int| 0 <= j < n ==> (#[trigger] bs0[j]).wf(),
            forall|j: int| i <= j < n ==> beams@[j] == bs0[j],
            forall|j: int| 0 <= j < i ==> beams@[j] == beam_aged(#[trigger] bs0[j], dt_ms),
            forall|j: int| 0 <= j < n ==> (#[trigger] beams@[j]).wf(),
        decreases n - i,
    {
        let mut b = beams[i];
        let mut t = b.lifetime;
        let expired = t.tick(dt_ms);
        b.lifetime = t;
        if expired {
            b.alive = false;
        }
        beams.set(i, b);
        i = i + 1;
    }
}

/// Remove every dead projectile, preserving the order of the rest.
pub fn projectile_cleanup_system(bullets: &mut Vec<Projectile>)
    ensures
        final(bullets)@ == old(bullets)@.filter(|p: Projectile| p.alive),
{
    let ghost bs0 = bullets@;
    let mut kept: Vec<Projectile> = Vec::new();
    let n = bullets.len();
    let mut i: usize = 0;
    proof {
        reveal(Seq::filter);
        assert(bs0.subrange(0, 0) =~= Seq::<Projectile>::empty());
    }
    while i < n
        invariant
            n == bs0.len(),
            i <= n,
            bullets@ == bs0,
            kept@ == bs0.subrange(0, i as int).filter(|p: Projectile| p.alive),
        decreases n - i,
    {
        let ghost prefix = bs0.subrange(0, i as int);
        let ghost prefix1 = bs0.subrange(0, i as int + 1);
        proof {
            reveal(Seq::filter);
            assert(prefix1.drop_last() =~= prefix);
            assert(prefix1.last() == bs0[i as int]);
        }
        let b = bullets[i];
        if b.alive {
            kept.push(b);
        }
        i = i + 1;
    }
    proof {
        assert(bs0.subrange(0, n as int) =~= bs0);
    }
    *bullets = kept;
}

/// Remove every dead beam, preserving the order of the rest.
pub fn beam_cleanup_system(beams: &mut Vec<Beam>)
    ensures
        final(beams)@ == old(beams)@.filter(|b: Beam| b.alive),
{
    let ghost bs0 = beams@;
    let mut kept: Vec<Beam> = Vec::new();
    let n = beams.len();
    let mut i: usize = 0;
    proof {
        reveal(Seq::filter);
        assert(bs0.subrange(0, 0) =~= Seq::<Beam>::empty());
    }
    while i < n
        invariant
            n == bs0.len(),
            i <= n,
            beams@ == bs0,
            kept@ == bs0.subrange(0, i as int).filter(|b: Beam| b.alive),
        decreases n - i,
    {
        let ghost prefix = bs0.subrange(0, i as int);
        let ghost prefix1 = bs0.subrange(0, i as int + 1);
        proof {
            reveal(Seq::filter);
            assert(prefix1.drop_last() =~= prefix);
            assert(prefix1.last() == bs0[i as int]);
        }
        let b = beams[i];
        if b.alive {
            kept.push(b);
        }
        i = i + 1;
    }
    proof {
        assert(bs0.subrange(0, n as int) =~= bs0);
    }
    *beams = kept;
}

/// Remove every dead enemy (health spent), preserving order; used by
/// death processing after the tick's damage has settled.
pub fn enemy_cleanup_system(enemies: &mut Vec<crate::object::Enemy>)
    ensures
        final(enemies)@ == old(enemies)@.filter(|e: crate::object::Enemy| e.craft.hp.hp > 0),
{
    let ghost es0 = enemies@;
    let mut kept: Vec<crate::object::Enemy> = Vec::new();
    let n = enemies.len();
    let mut i: usize = 0;
    proof {
        reveal(Seq::filter);
        assert(es0.subrange(0, 0) =~= Seq::<crate::object::Enemy>::empty());
    }
    while i < n
        invariant
            n == es0.len(),
            i <= n,
            enemies@ == es0,
            kept@ == es0.subrange(0, i as int).filter(|e: crate::object::Enemy| e.craft.hp.hp > 0),
        decreases n - i,
    {
        let ghost prefix = es0.subrange(0, i as int);
        let ghost prefix1 = es0.subrange(0, i as int + 1);
        proof {
            reveal(Seq::filter);
            assert(prefix1.drop_last() =~= prefix);
            assert(prefix1.last() == es0[i as int]);
        }
        let e = enemies[i];
        if e.craft.hp.hp > 0 {
            kept.push(e);
        }
        i = i + 1;
    }
    proof {
        assert(es0.subrange(0, n as int) =~= es0);
    }
    *enemies = kept;
}

/// Filtering a sequence keeps every elementwise property its elements
/// had.
pub proof fn lemma_filter_preserves<A>(s: Seq<A>, pred: spec_fn(A) -> bool, prop: spec_fn(A) -> bool)
    requires
        forall|i: int| 0 <= i < s.len() ==> prop(#[trigger] s[i]),
    ensures
        forall|i: int| 0 <= i < s.filter(pred).len() ==> prop(#[trigger] s.filter(pred)[i]),
    decreases s.len(),
{
    reveal(Seq::filter);
    if s.len() > 0 {
        assert(forall|i: int| 0 <= i < s.drop_last().len() ==> prop(#[trigger] s.drop_last()[i]));
        lemma_filter_preserves(s.drop_last(), pred, prop);
        if pred(s.last()) {
            assert(s.filter(pred) == s.drop_last().filter(pred).push(s.last()));
            assert forall|i: int| 0 <= i < s.filter(pred).len() implies prop(
                #[trigger] s.filter(pred)[i],
            ) by {
                if i < s.filter(pred).len() - 1 {
                    assert(s.filter(pred)[i] == s.drop_last().filter(pred)[i]);
                } else {
                    assert(s.filter(pred)[i] == s.last());
                }
            }
        }
    }
}

} // verus!
