//! The vertical bound repulsor: a soft boundary at the top and bottom
//! of the corridor that steers a craft back toward the arena and
//! pushes it away from the edge.

use vstd::prelude::*;

use crate::config::GameConfig;
use crate::fp::{mul_fp, mul_fp_spec, norm_angle, TAU_FP};
use crate::object::Physics;
use crate::physics::{clamp_i64, clamped, dt_factor, VEL_CLAMP, MAX_TICK_MS};
use crate::vec2::{forward_of, Vec2Fp};

verus! {

/// Steering ignores headings within this margin of straight up or
/// down, to keep the repulsor from oscillating.
pub const DEADZONE_WIDTH: i64 = 100_000;

/// The steering decision at the upper bound: rotate toward pointing
/// down, choosing the shorter way, with a deadzone once nearly
/// vertical.  Returns the signed number of steering steps (`1` is
/// counter-clockwise).
pub open spec fn upper_steer(pointing: Vec2Fp) -> int {
    if pointing.y < 0 {
        if pointing.x < -DEADZONE_WIDTH {
            1
        } else if pointing.x > DEADZONE_WIDTH {
            -1
        } else {
            0
        }
    } else {
        if pointing.x <= 0 {
            1
        } else {
            -1
        }
    }
}

/// The steering decision at the lower bound: rotate toward pointing
/// up, mirroring `upper_steer`.
pub open spec fn lower_steer(pointing: Vec2Fp) -> int {
    if pointing.y > 0 {
        if pointing.x <= -DEADZONE_WIDTH {
            -1
        } else if pointing.x > DEADZONE_WIDTH {
            1
        } else {
            0
        }
    } else {
        if pointing.x <= 0 {
            -1
        } else {
            1
        }
    }
}

/// One tick of the repulsor on one bounded object: outside the
/// corridor, the heading is steered back and the vertical velocity is
/// pushed toward the arena; inside, nothing changes.
pub open spec fn vertical_bound_model(
    pos_y: int,
    rotation: int,
    physics: Physics,
    config: GameConfig,
    dt_ms: u64,
) -> (int, Physics) {
    let strength = mul_fp_spec(config.vertical_bounds_rotation_speed as int, dt_factor(dt_ms));
    let pointing = forward_of(rotation);
    if pos_y > config.upper_bound {
        let rot2 = (rotation + upper_steer(pointing) * strength) % (TAU_FP as int);
        let vy = clamped(
            physics.velocity.y - config.upper_repulsion_strength,
            VEL_CLAMP as int,
        );
        (rot2, Physics { velocity: Vec2Fp { x: physics.velocity.x, y: vy as i64 }, ..physics })
    } else if pos_y < config.lower_bound {
        let rot2 = (rotation + lower_steer(pointing) * strength) % (TAU_FP as int);
        let vy = clamped(
            physics.velocity.y + config.lower_repulsion_strength,
            VEL_CLAMP as int,
        );
        (rot2, Physics { velocity: Vec2Fp { x: physics.velocity.x, y: vy as i64 }, ..physics })
    } else {
        (rotation, physics)
    }
}

/// Apply the repulsor to one vertically bounded object.
pub fn vertical_bound_system(
    rotation: &mut i64,
    physics: &mut Physics,
    pos_y: i64,
    config: &GameConfig,
    dt_ms: u64,
)
    requires
        config.wf(),
        old(physics).wf(),
        0 <= *old(rotation) < TAU_FP,
        dt_ms <= MAX_TICK_MS,
    ensures
        (*final(rotation) as int, *final(physics)) == vertical_bound_model(
            pos_y as int,
            *old(rotation) as int,
            *old(physics),
            *config,
            dt_ms,
        ),
        0 <= *final(rotation) < TAU_FP,
        final(physics).wf(),
{
    let dtf: i64 = (dt_ms as i64) * 1000;
    proof {
        crate::fp::lemma_mul_fp_in_range(config.vertical_bounds_rotation_speed, dtf);
    }
    let strength = mul_fp(config.vertical_bounds_rotation_speed, dtf);
    let fwd = crate::vec2::forward_dir(*rotation);
    if pos_y > config.upper_bound {
        let delta: i64 = if fwd.y < 0 {
            if fwd.x < -DEADZONE_WIDTH {
                strength
            } else if fwd.x > DEADZONE_WIDTH {
                -strength
            } else {
                0
            }
        } else {
            if fwd.x <= 0 {
                strength
            } else {
                -strength
            }
        };
        proof {
            assert(delta as int == upper_steer(forward_of(*old(rotation) as int)) * strength);
        }
        *rotation = norm_angle(*rotation + delta);
        physics.velocity = Vec2Fp {
            x: physics.velocity.x,
            y: clamp_i64(physics.velocity.y - config.upper_repulsion_strength, VEL_CLAMP),
        };
    } else if pos_y < config.lower_bound {
        let delta: i64 = if fwd.y > 0 {
            if fwd.x <= -DEADZONE_WIDTH {
                -strength
            } else if fwd.x > DEADZONE_WIDTH {
                strength
            } else {
                0
            }
        } else {
            if fwd.x <= 0 {
                -strength
            } else {
                strength
            }
        };
        proof {
            assert(delta as int == lower_steer(forward_of(*old(rotation) as int)) * strength);
        }
        *rotation = norm_angle(*rotation + delta);
        physics.velocity = Vec2Fp {
            x: physics.velocity.x,
            y: clamp_i64(physics.velocity.y + config.lower_repulsion_strength, VEL_CLAMP),
        };
    }
}

} // verus!
