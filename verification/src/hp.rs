//! Health regeneration.

use vstd::prelude::*;

use crate::fp::{mul_fp, mul_fp_spec, FP_LIMIT};
use crate::physics::{dt_factor, MAX_TICK_MS};
use crate::stats::HP;

verus! {

/// Regeneration rates stay below this bound.
pub const REGEN_LIMIT: i64 = 1_000_000_000;

/// One tick of regeneration: a wounded object heals by
/// `regen * dt` while it is not firing; an overfull object is clamped
/// back to its cap.
pub open spec fn hp_regen_model(hp: HP, firing: bool, dt_ms: u64) -> HP {
    if hp.hp < hp.max {
        if !firing {
            let healed = hp.hp + mul_fp_spec(hp.regen as int, dt_factor(dt_ms));
            HP { hp: if healed <= FP_LIMIT { healed as i64 } else { FP_LIMIT }, ..hp }
        } else {
            hp
        }
    } else if hp.hp > hp.max {
        HP { hp: hp.max, ..hp }
    } else {
        hp
    }
}

/// Regenerate one object's health for one tick.  Only an object that
/// holds its fire heals, mirroring the player's firing tradeoff; an
/// object with no intent record passes `firing == false`.
pub fn hp_regen_system(hp: &mut HP, firing: bool, dt_ms: u64)
    requires
        old(hp).wf(),
        0 <= old(hp).regen <= REGEN_LIMIT,
        dt_ms <= MAX_TICK_MS,
    ensures
        *final(hp) == hp_regen_model(*old(hp), firing, dt_ms),
        final(hp).wf(),
        old(hp).hp > 0 && old(hp).max > 0 ==> final(hp).hp > 0,
{
    if hp.hp < hp.max {
        if !firing {
            let dtf: i64 = (dt_ms as i64) * 1000;
            proof {
                crate::fp::lemma_mul_fp_in_range(hp.regen, dtf);
                let gain = crate::fp::mul_fp_spec(hp.regen as int, dtf as int);
                assert(0 <= (hp.regen as int) * (dtf as int)) by (nonlinear_arith)
                    requires
                        0 <= hp.regen,
                        0 <= dtf;
                vstd::arithmetic::div_mod::lemma_div_pos_is_pos(
                    (hp.regen as int) * (dtf as int), crate::fp::SCALE as int);
            }
            let gain = mul_fp(hp.regen, dtf);
            if hp.hp + gain <= FP_LIMIT {
                hp.hp = hp.hp + gain;
            } else {
                hp.hp = FP_LIMIT;
            }
        }
    } else if hp.hp > hp.max {
        hp.hp = hp.max;
    }
}

} // verus!
