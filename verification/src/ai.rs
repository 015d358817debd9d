//! The basic enemy AI: steer toward the player, fire when roughly
//! aimed, accelerate when far and facing the right way.

use vstd::prelude::*;

use crate::fp::SCALE;
use crate::object::Intent;
use crate::vec2::{forward_of, rightward_of, Vec2Fp};

verus! {

/// The kinds of controller an enemy can carry.
#[derive(Clone, Copy, PartialEq, Eq, Structural, Debug)]
pub enum AIType {
    Basic,
}

#[derive(Clone, Copy, PartialEq, Eq, Structural, Debug)]
pub struct AI {
    pub ai_type: AIType,
}

impl AI {
    pub fn new(ai_type: AIType) -> (r: AI)
        ensures
            r == (AI { ai_type }),
    {
        AI { ai_type }
    }
}

/// Squared cosine of the firing cone's half-angle (half a radian),
/// scaled by `SCALE^2`: the AI fires while the player is inside the
/// cone.
pub const FIRE_CONE_COS_SQ: i64 = 770_151_000_000;

/// Squared cosine of the pursuit cone's half-angle (nine tenths of a
/// radian), scaled by `SCALE^2`.
pub const CHASE_CONE_COS_SQ: i64 = 386_399_000_000;

/// Squared distance (in whole units) below which the AI stops
/// accelerating toward the player.
pub const CHASE_NEAR_SQ: i64 = 100;

/// Whether the angle between `dir` and the unit-truncated offset `v`
/// is inside the cone whose squared cosine is `cos_sq` (scaled by
/// `SCALE^2`): true when `v · d > 0` and `(v · d)^2 SCALE^2` exceeds
/// `cos_sq |v|^2 |d|^2`.
pub open spec fn within_cone(v: Vec2Fp, dir: Vec2Fp, cos_sq: int) -> bool {
    let vd = v.x * dir.x + v.y * dir.y;
    let vv = v.x * v.x + v.y * v.y;
    let dd = dir.x * dir.x + dir.y * dir.y;
    vd > 0 && vd * vd * (SCALE as int) * (SCALE as int) > cos_sq * vv * dd
}

/// The offset from the enemy to the player, truncated to whole units
/// so the cone tests stay exact in wide arithmetic.
pub open spec fn unit_offset(enemy_pos: Vec2Fp, player_pos: Vec2Fp) -> Vec2Fp {
    Vec2Fp {
        x: crate::fp::tdiv(player_pos.x - enemy_pos.x, SCALE as int) as i64,
        y: crate::fp::tdiv(player_pos.y - enemy_pos.y, SCALE as int) as i64,
    }
}

/// The basic AI's whole decision for one tick.
pub open spec fn plane_ai_model(enemy_pos: Vec2Fp, rotation: int, player_pos: Vec2Fp) -> Intent {
    let v = unit_offset(enemy_pos, player_pos);
    let fwd = forward_of(rotation);
    let right = rightward_of(rotation);
    let sidedness = right.x * v.x + right.y * v.y;
    let vv = v.x * v.x + v.y * v.y;
    Intent {
        accelerate: vv > CHASE_NEAR_SQ && within_cone(v, fwd, CHASE_CONE_COS_SQ as int),
        brake: false,
        turn_intent: if sidedness < 0 {
            SCALE
        } else {
            (-SCALE) as i64
        },
        fire: within_cone(v, fwd, FIRE_CONE_COS_SQ as int),
        just_fired: false,
    }
}

/// Bounds under which every product of the cone tests fits `i128`.
proof fn lemma_cone_products_fit(v: Vec2Fp, dir: Vec2Fp, cos_sq: i64)
    requires
        -1_000_000 <= v.x <= 1_000_000,
        -1_000_000 <= v.y <= 1_000_000,
        dir.in_unit_range(),
        0 <= cos_sq <= 1_000_000_000_000,
    ensures
        ({
            let vd = v.x * dir.x + v.y * dir.y;
            let vv = v.x * v.x + v.y * v.y;
            let dd = dir.x * dir.x + dir.y * dir.y;
            &&& -1_000_000_000_000 <= v.x * dir.x <= 1_000_000_000_000
            &&& -1_000_000_000_000 <= v.y * dir.y <= 1_000_000_000_000
            &&& 0 <= v.x * v.x <= 1_000_000_000_000
            &&& 0 <= v.y * v.y <= 1_000_000_000_000
            &&& 0 <= dir.x * dir.x <= 1_000_000_000_000
            &&& 0 <= dir.y * dir.y <= 1_000_000_000_000
            &&& -2_000_000_000_000 <= vd <= 2_000_000_000_000
            &&& 0 <= vv <= 2_000_000_000_000
            &&& 0 <= dd <= 2_000_000_000_000
            &&& -4_000_000_000_000_000_000_000_000 <= vd * vd <= 4_000_000_000_000_000_000_000_000
            &&& -4_000_000_000_000_000_000_000_000_000_000_000_000 <= vd * vd * (SCALE as int)
                <= 4_000_000_000_000_000_000_000_000_000_000_000_000
            &&& ({
                let lhs = vd * vd * (SCALE as int) * (SCALE as int);
                -0x8000_0000_0000_0000_0000_0000_0000_0000 <= lhs
                    <= 0x7fff_ffff_ffff_ffff_ffff_ffff_ffff_ffff
            })
            &&& -4_000_000_000_000_000_000_000_000 <= cos_sq * vv
                <= 4_000_000_000_000_000_000_000_000
            &&& ({
                let rhs = cos_sq * vv * dd;
                -0x8000_0000_0000_0000_0000_0000_0000_0000 <= rhs
                    <= 0x7fff_ffff_ffff_ffff_ffff_ffff_ffff_ffff
            })
        }),
{
    let vd = v.x * dir.x + v.y * dir.y;
    let vv = v.x * v.x + v.y * v.y;
    let dd = dir.x * dir.x + dir.y * dir.y;
    assert(-1_000_000_000_000 <= v.x * dir.x <= 1_000_000_000_000
        && -1_000_000_000_000 <= v.y * dir.y <= 1_000_000_000_000
        && 0 <= v.x * v.x <= 1_000_000_000_000
        && 0 <= v.y * v.y <= 1_000_000_000_000
        && 0 <= dir.x * dir.x <= 1_000_000_000_000
        && 0 <= dir.y * dir.y <= 1_000_000_000_000) by (nonlinear_arith)
        requires
            -1_000_000 <= v.x as int <= 1_000_000,
            -1_000_000 <= v.y as int <= 1_000_000,
            -1_000_000 <= dir.x as int <= 1_000_000,
            -1_000_000 <= dir.y as int <= 1_000_000;
    assert(-4_000_000_000_000_000_000_000_000 <= vd * vd <= 4_000_000_000_000_000_000_000_000)
        by (nonlinear_arith)
        requires
            -2_000_000_000_000 <= vd <= 2_000_000_000_000;
    assert(-4_000_000_000_000_000_000_000_000_000_000_000_000 <= vd * vd * (SCALE as int)
        <= 4_000_000_000_000_000_000_000_000_000_000_000_000
        && -8_000_000_000_000_000_000_000_000_000_000_000_000 <= vd * vd * (SCALE as int) * (
        SCALE as int) <= 8_000_000_000_000_000_000_000_000_000_000_000_000) by (nonlinear_arith)
        requires
            -4_000_000_000_000_000_000_000_000 <= vd * vd <= 4_000_000_000_000_000_000_000_000,
            SCALE == 1_000_000;
    assert(-4_000_000_000_000_000_000_000_000 <= cos_sq * vv <= 4_000_000_000_000_000_000_000_000
        && -8_000_000_000_000_000_000_000_000_000_000_000_000 <= cos_sq * vv * dd
            <= 8_000_000_000_000_000_000_000_000_000_000_000_000) by (nonlinear_arith)
        requires
            0 <= cos_sq as int <= 1_000_000_000_000,
            0 <= vv <= 2_000_000_000_000,
            0 <= dd <= 2_000_000_000_000;
}

/// Exact cone test, computed wide.
fn within_cone_check(v: Vec2Fp, dir: Vec2Fp, cos_sq: i64) -> (r: bool)
    requires
        -1_000_000 <= v.x <= 1_000_000,
        -1_000_000 <= v.y <= 1_000_000,
        dir.in_unit_range(),
        0 <= cos_sq <= 1_000_000_000_000,
    ensures
        r == within_cone(v, dir, cos_sq as int),
{
    proof {
        lemma_cone_products_fit(v, dir, cos_sq);
    }
    let vd: i128 = (v.x as i128) * (dir.x as i128) + (v.y as i128) * (dir.y as i128);
    if vd <= 0 {
        return false;
    }
    let vv: i128 = (v.x as i128) * (v.x as i128) + (v.y as i128) * (v.y as i128);
    let dd: i128 = (dir.x as i128) * (dir.x as i128) + (dir.y as i128) * (dir.y as i128);
    let lhs: i128 = vd * vd * (SCALE as i128) * (SCALE as i128);
    let rhs: i128 = (cos_sq as i128) * vv * dd;
    lhs > rhs
}

/// Truncate a fixed-point coordinate difference to whole units.
fn to_units(d: i64) -> (r: i64)
    ensures
        r == crate::fp::tdiv(d as int, SCALE as int),
        -1_000_000_000_000 <= d <= 1_000_000_000_000 ==> -1_000_000 <= r <= 1_000_000,
{
    proof {
        if -1_000_000_000_000 <= d <= 1_000_000_000_000 {
            crate::fp::lemma_tdiv_bound(d as int, 1_000_000, SCALE as int);
        }
    }
    d / SCALE
}

/// Decide one basic enemy's intent for this tick.
pub fn plane_ai(enemy_pos: Vec2Fp, rotation: i64, player_pos: Vec2Fp) -> (r: Intent)
    requires
        enemy_pos.in_coord_range(),
        player_pos.in_coord_range(),
    ensures
        r == plane_ai_model(enemy_pos, rotation as int, player_pos),
        r.wf(),
{
    let vx = to_units(player_pos.x - enemy_pos.x);
    let vy = to_units(player_pos.y - enemy_pos.y);
    let v = Vec2Fp { x: vx, y: vy };
    let fwd = crate::vec2::forward_dir(rotation);
    let right = crate::vec2::rightward_dir(rotation);
    proof {
        lemma_cone_products_fit(v, right, 0);
        assert(-1_000_000_000_000 <= (right.x as int) * (v.x as int) <= 1_000_000_000_000
            && -1_000_000_000_000 <= (right.y as int) * (v.y as int) <= 1_000_000_000_000)
            by (nonlinear_arith)
            requires
                -1_000_000 <= v.x as int <= 1_000_000,
                -1_000_000 <= v.y as int <= 1_000_000,
                -1_000_000 <= right.x as int <= 1_000_000,
                -1_000_000 <= right.y as int <= 1_000_000;
    }
    let sidedness: i128 = (right.x as i128) * (v.x as i128) + (right.y as i128) * (v.y as i128);
    let vv: i128 = (v.x as i128) * (v.x as i128) + (v.y as i128) * (v.y as i128);
    let fire = within_cone_check(v, fwd, FIRE_CONE_COS_SQ);
    let accelerate = vv > (CHASE_NEAR_SQ as i128) && within_cone_check(v, fwd, CHASE_CONE_COS_SQ);
    Intent {
        accelerate,
        brake: false,
        turn_intent: if sidedness < 0 {
            SCALE
        } else {
            -SCALE
        },
        fire,
        just_fired: false,
    }
}

} // verus!
