//! Planar fixed-point vectors.
//!
//! Positions, velocities and headings are pairs of `i64` millionths.
//! Products are computed in `i128`, so dot products and squared lengths
//! are exact for any pair of in-range vectors.

use vstd::prelude::*;

use crate::fp::{cos_spec, fp_in_range, sin_spec, cos_fp, sin_fp, FP_LIMIT};

verus! {

/// Magnitude bound for coordinates that take part in geometry
/// (collision tests, beam projection): half a million engineering units.
pub const COORD_LIMIT: i64 = 500_000_000_000;

#[derive(Clone, Copy, PartialEq, Eq, Structural, Debug)]
pub struct Vec2Fp {
    pub x: i64,
    pub y: i64,
}

impl Vec2Fp {
    /// Both coordinates within the wide scalar range.
    pub open spec fn in_range(self) -> bool {
        fp_in_range(self.x) && fp_in_range(self.y)
    }

    /// Both coordinates within the narrower geometry range.
    pub open spec fn in_coord_range(self) -> bool {
        -COORD_LIMIT <= self.x <= COORD_LIMIT && -COORD_LIMIT <= self.y <= COORD_LIMIT
    }

    /// Both coordinates bounded by one fixed-point unit, as the
    /// components of a heading always are.
    pub open spec fn in_unit_range(self) -> bool {
        -crate::fp::SCALE <= self.x <= crate::fp::SCALE
            && -crate::fp::SCALE <= self.y <= crate::fp::SCALE
    }

    pub fn new(x: i64, y: i64) -> (r: Vec2Fp)
        ensures
            r.x == x,
            r.y == y,
    {
        Vec2Fp { x, y }
    }

}

/// The product of two in-range scalars is far inside the `i128` range.
pub proof fn lemma_in_range_product_fits(a: i64, b: i64)
    requires
        fp_in_range(a),
        fp_in_range(b),
    ensures
        -(FP_LIMIT as int) * (FP_LIMIT as int) <= a as int * b as int
            <= (FP_LIMIT as int) * (FP_LIMIT as int),
{
    assert(-(FP_LIMIT as int) * (FP_LIMIT as int) <= a as int * b as int
        <= (FP_LIMIT as int) * (FP_LIMIT as int)) by (nonlinear_arith)
        requires
            -(FP_LIMIT as int) <= a as int <= FP_LIMIT as int,
            -(FP_LIMIT as int) <= b as int <= FP_LIMIT as int;
}

/// The forward (nose) direction of an object with the given heading
/// angle: the unit Y axis rotated by the heading.
pub open spec fn forward_of(angle: int) -> Vec2Fp {
    Vec2Fp { x: (-sin_spec(angle)) as i64, y: cos_spec(angle) as i64 }
}

/// The rightward direction of an object with the given heading angle:
/// the unit X axis rotated by the heading.
pub open spec fn rightward_of(angle: int) -> Vec2Fp {
    Vec2Fp { x: cos_spec(angle) as i64, y: sin_spec(angle) as i64 }
}

/// Forward unit-scale direction for a heading angle in
/// millionth-radians.
pub fn forward_dir(angle: i64) -> (r: Vec2Fp)
    ensures
        r == forward_of(angle as int),
        r.in_unit_range(),
{
    let s = sin_fp(angle);
    let c = cos_fp(angle);
    Vec2Fp { x: -s, y: c }
}

/// Rightward unit-scale direction for a heading angle in
/// millionth-radians.
pub fn rightward_dir(angle: i64) -> (r: Vec2Fp)
    ensures
        r == rightward_of(angle as int),
        r.in_unit_range(),
{
    let s = sin_fp(angle);
    let c = cos_fp(angle);
    Vec2Fp { x: c, y: s }
}

} // verus!
