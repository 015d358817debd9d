//! Randomness for spread angles and spawn positions.
//!
//! The only trusted item in the crate lives here: the declaration of
//! `rand::random`.  Everything downstream of the raw sample is verified
//! for every value the sample could take.

use vstd::prelude::*;

use crate::fp::SCALE;

verus! {

/// Relies on `rand::random`: one sample of the thread-local generator.
/// Nothing can be promised of a random value, so there is no `ensures`.
pub assume_specification<T>[ rand::random::<T> ]() -> (r: T)
    where
        rand::distr::StandardUniform: rand::distr::Distribution<T>,
;

/// A uniformly distributed fixed-point fraction in `[0, SCALE)`.
pub fn random_fraction() -> (r: i64)
    ensures
        0 <= r < SCALE,
{
    let raw: u32 = rand::random::<u32>();
    proof {
        assert((raw as int) * (SCALE as int) < 4_294_967_296_000_000) by (nonlinear_arith)
            requires
                (raw as int) < 4_294_967_296,
                SCALE == 1_000_000;
    }
    let wide: u64 = (raw as u64) * (SCALE as u64);
    let q: u64 = wide / 4_294_967_296;
    proof {
        let two32: int = 4_294_967_296;
        vstd::arithmetic::div_mod::lemma_div_pos_is_pos(wide as int, two32);
        assert((wide as int) < two32 * (SCALE as int)) by (nonlinear_arith)
            requires
                wide as int == (raw as int) * (SCALE as int),
                two32 == 4_294_967_296,
                (raw as int) < two32;
        vstd::arithmetic::div_mod::lemma_multiply_divide_lt(
            wide as int, two32, SCALE as int);
    }
    q as i64
}

} // verus!
