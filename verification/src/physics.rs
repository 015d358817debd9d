//! The physics integrator: gravity, velocity damping and position
//! integration for anything carrying a `Physics` record.

use vstd::prelude::*;

use crate::fp::{mul_fp, mul_fp_spec, SCALE};
use crate::object::Physics;
use crate::vec2::Vec2Fp;

verus! {

/// Velocities are clamped here every integration step.
pub const VEL_CLAMP: i64 = 50_000_000_000;

/// Positions are clamped here every integration step, comfortably
/// inside the geometry range.
pub const POS_CLAMP: i64 = 400_000_000_000;

/// Ticks longer than ten simulated seconds are not meaningful.
pub const MAX_TICK_MS: u64 = 10_000;

pub open spec fn clamped(v: int, bound: int) -> int {
    if v > bound {
        bound
    } else if v < -bound {
        -bound
    } else {
        v
    }
}

/// Clamp a scalar into `[-bound, bound]`.
pub fn clamp_i64(v: i64, bound: i64) -> (r: i64)
    requires
        bound >= 0,
    ensures
        r == clamped(v as int, bound as int),
        -bound <= r <= bound,
{
    if v > bound {
        bound
    } else if v < -bound {
        -bound
    } else {
        v
    }
}

/// A tick's duration as a dimensionless fixed-point factor of one
/// second.
pub open spec fn dt_factor(dt_ms: u64) -> int {
    dt_ms * 1000
}

/// One integration step: gravity accelerates the velocity, friction
/// damps it multiplicatively, the clamped velocity advances the
/// position, and both are clamped into the simulation's working box.
pub open spec fn physics_step_model(pos: Vec2Fp, ph: Physics, dt_ms: u64) -> (Vec2Fp, Physics) {
    let v1x = ph.velocity.x + ph.gravity.x;
    let v1y = ph.velocity.y + ph.gravity.y;
    let v2x = clamped(mul_fp_spec(v1x, ph.friction as int), VEL_CLAMP as int);
    let v2y = clamped(mul_fp_spec(v1y, ph.friction as int), VEL_CLAMP as int);
    let px = clamped(pos.x + mul_fp_spec(v2x, dt_factor(dt_ms)), POS_CLAMP as int);
    let py = clamped(pos.y + mul_fp_spec(v2y, dt_factor(dt_ms)), POS_CLAMP as int);
    (
        Vec2Fp { x: px as i64, y: py as i64 },
        Physics { velocity: Vec2Fp { x: v2x as i64, y: v2y as i64 }, ..ph },
    )
}

/// Advance one object's physics by one tick.
pub fn linear_physics(pos: &mut Vec2Fp, ph: &mut Physics, dt_ms: u64)
    requires
        old(ph).wf(),
        old(pos).in_coord_range(),
        dt_ms <= MAX_TICK_MS,
    ensures
        (*final(pos), *final(ph)) == physics_step_model(*old(pos), *old(ph), dt_ms),
        final(ph).wf(),
        final(pos).in_coord_range(),
        -VEL_CLAMP <= final(ph).velocity.x <= VEL_CLAMP,
        -VEL_CLAMP <= final(ph).velocity.y <= VEL_CLAMP,
        -POS_CLAMP <= final(pos).x <= POS_CLAMP,
        -POS_CLAMP <= final(pos).y <= POS_CLAMP,
{
    let v1x = ph.velocity.x + ph.gravity.x;
    let v1y = ph.velocity.y + ph.gravity.y;
    proof {
        crate::fp::lemma_mul_fp_contracts(v1x, ph.friction, 2 * crate::object::SPEED_LIMIT as int);
        crate::fp::lemma_mul_fp_contracts(v1y, ph.friction, 2 * crate::object::SPEED_LIMIT as int);
    }
    let v2x = clamp_i64(mul_fp(v1x, ph.friction), VEL_CLAMP);
    let v2y = clamp_i64(mul_fp(v1y, ph.friction), VEL_CLAMP);
    ph.velocity = Vec2Fp { x: v2x, y: v2y };
    let dtf: i64 = (dt_ms as i64) * 1000;
    proof {
        crate::fp::lemma_mul_fp_in_range(v2x, dtf);
        crate::fp::lemma_mul_fp_in_range(v2y, dtf);
    }
    let sx = mul_fp(v2x, dtf);
    let sy = mul_fp(v2y, dtf);
    pos.x = clamp_i64(pos.x + sx, POS_CLAMP);
    pos.y = clamp_i64(pos.y + sy, POS_CLAMP);
}

} // verus!
