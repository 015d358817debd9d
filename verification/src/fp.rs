//! Fixed-point scalar arithmetic.
//!
//! Every continuous quantity in the simulation (positions, velocities,
//! health, heat, angles) is an `i64` holding millionths of a unit.
//! Angles are millionths of a radian.

use vstd::prelude::*;

verus! {

/// Number of fixed-point steps per engineering unit.
pub const SCALE: i64 = 1_000_000;

/// Largest magnitude a simulation scalar may take.  Wide enough for any
/// position, velocity or stat in play, narrow enough that products with a
/// bounded factor stay inside `i64` after rescaling.
pub const FP_LIMIT: i64 = 1_000_000_000_000;

/// Largest magnitude allowed for a dimensionless fixed-point factor
/// (a friction coefficient, a stat multiplier, a sampled fraction).
pub const FACTOR_LIMIT: i64 = 1_000_000_000;

/// A bound on any fixed-point product of an in-range scalar and an
/// in-range factor, after rescaling.
pub const FP_PRODUCT_LIMIT: i64 = 1_000_000_000_000_000;

/// Truncating division, the semantics of `/` on Rust's signed integers,
/// for a positive divisor.
pub open spec fn tdiv(a: int, d: int) -> int {
    if a >= 0 {
        a / d
    } else {
        -((-a) / d)
    }
}

/// A scalar within the simulation's working range.
pub open spec fn fp_in_range(v: i64) -> bool {
    -FP_LIMIT <= v <= FP_LIMIT
}

/// A dimensionless factor within the simulation's working range.
pub open spec fn factor_in_range(v: i64) -> bool {
    -FACTOR_LIMIT <= v <= FACTOR_LIMIT
}

/// Fixed-point product of a scalar and a factor: `a * b` rescaled back to
/// millionths, truncated toward zero.
pub open spec fn mul_fp_spec(a: int, b: int) -> int {
    tdiv(a * b, SCALE as int)
}

/// Truncating division by a positive `d` maps `[-bound * d, bound * d]`
/// into `[-bound, bound]`.
pub proof fn lemma_tdiv_bound(a: int, bound: int, d: int)
    requires
        d > 0,
        bound >= 0,
        -(bound * d) <= a <= bound * d,
    ensures
        -bound <= tdiv(a, d) <= bound,
{
    vstd::arithmetic::mul::lemma_mul_is_commutative(bound, d);
    if a >= 0 {
        vstd::arithmetic::div_mod::lemma_div_pos_is_pos(a, d);
        vstd::arithmetic::div_mod::lemma_div_is_ordered(a, bound * d, d);
        vstd::arithmetic::div_mod::lemma_div_multiples_vanish(bound, d);
    } else {
        vstd::arithmetic::div_mod::lemma_div_pos_is_pos(-a, d);
        vstd::arithmetic::div_mod::lemma_div_is_ordered(-a, bound * d, d);
        vstd::arithmetic::div_mod::lemma_div_multiples_vanish(bound, d);
    }
}

/// The fixed-point product of a bounded scalar and a bounded factor stays
/// within `FP_PRODUCT_LIMIT`, well inside `i64`.
pub proof fn lemma_mul_fp_in_range(a: i64, b: i64)
    requires
        fp_in_range(a),
        factor_in_range(b),
    ensures
        -(FP_PRODUCT_LIMIT as int) <= mul_fp_spec(a as int, b as int) <= FP_PRODUCT_LIMIT as int,
{
    let p = a as int * b as int;
    let big = (FP_PRODUCT_LIMIT as int) * (SCALE as int);
    assert(p <= big) by (nonlinear_arith)
        requires
            -(FP_LIMIT as int) <= a as int <= FP_LIMIT as int,
            -(FACTOR_LIMIT as int) <= b as int <= FACTOR_LIMIT as int,
            p == a as int * b as int,
            big == (FP_PRODUCT_LIMIT as int) * (SCALE as int);
    assert(-big <= p) by (nonlinear_arith)
        requires
            -(FP_LIMIT as int) <= a as int <= FP_LIMIT as int,
            -(FACTOR_LIMIT as int) <= b as int <= FACTOR_LIMIT as int,
            p == a as int * b as int,
            big == (FP_PRODUCT_LIMIT as int) * (SCALE as int);
    lemma_tdiv_bound(p, FP_PRODUCT_LIMIT as int, SCALE as int);
}

/// Multiplying by a factor of magnitude at most one never grows a
/// scalar's magnitude: the product stays within any bound the scalar
/// satisfied.
pub proof fn lemma_mul_fp_contracts(a: i64, b: i64, bound: int)
    requires
        -SCALE <= b <= SCALE,
        bound >= 0,
        -bound <= a as int <= bound,
    ensures
        -bound <= mul_fp_spec(a as int, b as int) <= bound,
{
    let p = a as int * b as int;
    let big = bound * (SCALE as int);
    assert(-big <= p <= big) by (nonlinear_arith)
        requires
            -bound <= a as int <= bound,
            -(SCALE as int) <= b as int <= SCALE as int,
            bound >= 0,
            p == a as int * b as int,
            big == bound * (SCALE as int);
    lemma_tdiv_bound(p, bound, SCALE as int);
}

/// Mirror image of `lemma_mul_fp_contracts` for a factor of magnitude
/// at most one standing on the left.
pub proof fn lemma_mul_fp_contracts_left(a: i64, b: i64, bound: int)
    requires
        -SCALE <= a <= SCALE,
        bound >= 0,
        -bound <= b as int <= bound,
    ensures
        -bound <= mul_fp_spec(a as int, b as int) <= bound,
{
    let p = a as int * b as int;
    let big = bound * (SCALE as int);
    assert(-big <= p <= big) by (nonlinear_arith)
        requires
            -bound <= b as int <= bound,
            -(SCALE as int) <= a as int <= SCALE as int,
            bound >= 0,
            p == a as int * b as int,
            big == bound * (SCALE as int);
    lemma_tdiv_bound(p, bound, SCALE as int);
}

/// Fixed-point multiply: `a` a scalar, `b` a dimensionless factor.
pub fn mul_fp(a: i64, b: i64) -> (r: i64)
    requires
        fp_in_range(a),
        factor_in_range(b),
    ensures
        r == mul_fp_spec(a as int, b as int),
        -FP_PRODUCT_LIMIT <= r <= FP_PRODUCT_LIMIT,
{
    proof {
        lemma_mul_fp_in_range(a, b);
    }
    let p: i128 = (a as i128) * (b as i128);
    (p / (SCALE as i128)) as i64
}

/// Half a turn, in millionths of a radian (even, so that a quarter turn
/// is exact).
pub const PI_FP: i64 = 3_141_592;

/// A quarter turn, in millionths of a radian.
pub const HALF_PI_FP: i64 = 1_570_796;

/// A full turn, in millionths of a radian.
pub const TAU_FP: i64 = 6_283_184;

/// Reduce an angle to the canonical range `[0, TAU_FP)`.
pub fn norm_angle(a: i64) -> (r: i64)
    ensures
        r == (a as int) % (TAU_FP as int),
        0 <= r < TAU_FP,
{
    proof {
        vstd::arithmetic::div_mod::lemma_mod_bound(a as int, TAU_FP as int);
    }
    let m: i64 = a % TAU_FP;
    if m < 0 {
        proof {
            let t = TAU_FP as int;
            let q = (-(a as int)) % t;
            vstd::arithmetic::div_mod::lemma_mod_bound(-(a as int), t);
            vstd::arithmetic::div_mod::lemma_fundamental_div_mod(-(a as int), t);
            vstd::arithmetic::div_mod::lemma_fundamental_div_mod_converse_mod(
                a as int, t, -((-(a as int)) / t) - 1, t - q);
        }
        m + TAU_FP
    } else {
        proof {
            if a < 0 {
                let t = TAU_FP as int;
                vstd::arithmetic::div_mod::lemma_mod_bound(-(a as int), t);
                vstd::arithmetic::div_mod::lemma_fundamental_div_mod(-(a as int), t);
                vstd::arithmetic::div_mod::lemma_fundamental_div_mod_converse_mod(
                    a as int, t, -((-(a as int)) / t), 0);
            }
        }
        m
    }
}

/// Quadratic approximation of the sine of `x` millionth-radians, for
/// `x` in `[0, PI_FP]`, scaled by `SCALE`.
pub open spec fn sin_half_spec(x: int) -> int {
    16 * x * ((PI_FP as int) - x) * (SCALE as int)
        / (5 * (PI_FP as int) * (PI_FP as int) - 4 * x * ((PI_FP as int) - x))
}

/// Sine of an arbitrary angle in millionth-radians, scaled by `SCALE`:
/// the first half-turn uses the quadratic approximation, the second its
/// mirror image.
pub open spec fn sin_spec(a: int) -> int {
    let n = a % (TAU_FP as int);
    if n <= PI_FP as int {
        sin_half_spec(n)
    } else {
        -sin_half_spec(n - PI_FP as int)
    }
}

/// Cosine, as the sine shifted by a quarter turn.
pub open spec fn cos_spec(a: int) -> int {
    sin_spec(a + HALF_PI_FP as int)
}

fn sin_half(x: i64) -> (r: i64)
    requires
        0 <= x <= PI_FP,
    ensures
        r == sin_half_spec(x as int),
        0 <= r <= SCALE,
{
    proof {
        assert(0 <= (x as int) * ((PI_FP as int) - x as int)
            && (x as int) * ((PI_FP as int) - x as int)
                <= (HALF_PI_FP as int) * (HALF_PI_FP as int)) by (nonlinear_arith)
            requires
                0 <= x as int <= PI_FP as int,
                PI_FP as int == 2 * (HALF_PI_FP as int);
    }
    let q: i128 = (x as i128) * ((PI_FP - x) as i128);
    let num: i128 = 16 * q * (SCALE as i128);
    let den: i128 = 5 * (PI_FP as i128) * (PI_FP as i128) - 4 * q;
    proof {
        let numi = num as int;
        let deni = den as int;
        assert(numi == 16 * (x as int) * ((PI_FP as int) - x as int) * (SCALE as int)
            && numi >= 0
            && deni == 5 * (PI_FP as int) * (PI_FP as int)
                - 4 * (x as int) * ((PI_FP as int) - x as int)) by (nonlinear_arith)
            requires
                numi == 16 * (q as int) * (SCALE as int),
                deni == 5 * (PI_FP as int) * (PI_FP as int) - 4 * (q as int),
                0 <= q as int,
                q as int == (x as int) * ((PI_FP as int) - x as int);
        assert(numi <= (SCALE as int) * deni) by (nonlinear_arith)
            requires
                numi == 16 * (q as int) * (SCALE as int),
                deni == 5 * (PI_FP as int) * (PI_FP as int) - 4 * (q as int),
                0 <= q as int <= (HALF_PI_FP as int) * (HALF_PI_FP as int),
                PI_FP as int == 2 * (HALF_PI_FP as int);
        vstd::arithmetic::div_mod::lemma_div_pos_is_pos(numi, deni);
        vstd::arithmetic::div_mod::lemma_div_is_ordered(numi, (SCALE as int) * deni, deni);
        vstd::arithmetic::div_mod::lemma_div_multiples_vanish(SCALE as int, deni);
    }
    (num / den) as i64
}

/// Sine of an angle in millionth-radians, as a fixed-point factor in
/// `[-SCALE, SCALE]`.
pub fn sin_fp(a: i64) -> (r: i64)
    ensures
        r == sin_spec(a as int),
        -SCALE <= r <= SCALE,
{
    let n = norm_angle(a);
    if n <= PI_FP {
        sin_half(n)
    } else {
        -sin_half(n - PI_FP)
    }
}

/// Cosine of an angle in millionth-radians, as a fixed-point factor in
/// `[-SCALE, SCALE]`.
pub fn cos_fp(a: i64) -> (r: i64)
    ensures
        r == cos_spec(a as int),
        -SCALE <= r <= SCALE,
{
    let n = norm_angle(a);
    let r = sin_fp(n + HALF_PI_FP);
    proof {
        let t = TAU_FP as int;
        let h = HALF_PI_FP as int;
        vstd::arithmetic::div_mod::lemma_mod_bound(h, t);
        vstd::arithmetic::div_mod::lemma_small_mod(h as nat, t as nat);
        vstd::arithmetic::div_mod::lemma_add_mod_noop(a as int, h, t);
        vstd::arithmetic::div_mod::lemma_mod_twice(a as int, t);
        assert((n as int + h) % t == (a as int + h) % t) by {
            vstd::arithmetic::div_mod::lemma_add_mod_noop(n as int, h, t);
        }
    }
    r
}

/// Integer square root for inputs up to `SCALE * SCALE`.
pub fn isqrt(n: u64) -> (r: u64)
    requires
        n <= 1_000_000_000_000,
    ensures
        (r as int) * (r as int) <= n as int,
        (n as int) < ((r as int) + 1) * ((r as int) + 1),
{
    let mut r: u64 = 0;
    loop
        invariant_except_break
            n <= 1_000_000_000_000,
            r <= 1_000_000,
            (r as int) * (r as int) <= n as int,
        ensures
            (r as int) * (r as int) <= n as int,
            (n as int) < ((r as int) + 1) * ((r as int) + 1),
        decreases 1_000_001 - r,
    {
        proof {
            assert(((r as int) + 1) * ((r as int) + 1) <= 0x1000_0000_0000_0000) by (nonlinear_arith)
                requires r <= 1_000_000;
        }
        let sq: u64 = (r + 1) * (r + 1);
        if sq <= n {
            proof {
                assert(r < 1_000_000) by (nonlinear_arith)
                    requires
                        ((r as int) + 1) * ((r as int) + 1) <= 1_000_000_000_000,
                        r >= 0;
            }
            r = r + 1;
        } else {
            break;
        }
    }
    r
}

} // verus!
