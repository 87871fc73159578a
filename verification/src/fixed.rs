//! Fixed-point arithmetic shared by the camera and the fractal iteration.
//!
//! A quantity of one world unit is stored as `SCALE` steps; products of two
//! such quantities are scaled back down with a quotient truncated toward
//! zero, which is the only rounding used anywhere in the crate.

use vstd::prelude::*;
use vstd::arithmetic::div_mod::{
    lemma_div_is_ordered, lemma_div_is_ordered_by_denominator, lemma_div_nonincreasing,
    lemma_div_pos_is_pos,
};

verus! {

/// Number of fixed-point steps in one world unit: all fractional quantities
/// in this crate are held in thousandths.
pub const SCALE: i64 = 1000;

/// Magnitude of an integer.
pub open spec fn mag(a: int) -> int {
    if a >= 0 {
        a
    } else {
        -a
    }
}

/// Quotient truncated toward zero; every fixed-point scaling in this crate
/// rounds this way.
pub open spec fn tdiv(a: int, b: int) -> int
    recommends
        b > 0,
{
    if a >= 0 {
        a / b
    } else {
        -((-a) / b)
    }
}

/// The magnitude of a truncated quotient is the quotient of the magnitude,
/// and dividing by a positive divisor never grows a magnitude.
pub proof fn lemma_tdiv_mag(a: int, b: int)
    requires
        b > 0,
    ensures
        mag(tdiv(a, b)) == mag(a) / b,
        mag(a) / b <= mag(a),
        a >= 0 ==> tdiv(a, b) >= 0,
        a <= 0 ==> tdiv(a, b) <= 0,
{
    if a >= 0 {
        lemma_div_pos_is_pos(a, b);
        lemma_div_nonincreasing(a, b);
    } else {
        lemma_div_pos_is_pos(-a, b);
        lemma_div_nonincreasing(-a, b);
    }
}

/// A larger divisor gives a (weakly) smaller nonnegative quotient.
pub proof fn lemma_div_shrinks(x: int, small: int, large: int)
    requires
        0 <= x,
        1 <= small <= large,
    ensures
        x / large <= x / small,
{
    lemma_div_is_ordered_by_denominator(x, small, large);
}

/// A nonnegative dividend bounded by `y` has a quotient bounded by `y / b`.
pub proof fn lemma_div_le(x: int, y: int, b: int)
    requires
        0 <= x <= y,
        0 < b,
    ensures
        x / b <= y / b,
{
    lemma_div_is_ordered(x, y, b);
}

/// Bound on the magnitude of a product, from bounds on the factors.
pub proof fn lemma_mag_mul_le(a: int, b: int, x: int, y: int)
    by (nonlinear_arith)
    requires
        mag(a) <= x,
        mag(b) <= y,
    ensures
        mag(a * b) <= x * y,
{
}

/// Runtime truncating division for the wide intermediates of the
/// fixed-point formulas.
pub fn tdiv_i128(a: i128, b: i128) -> (q: i128)
    requires
        b > 0,
        a != i128::MIN,
    ensures
        q as int == tdiv(a as int, b as int),
{
    proof {
        lemma_tdiv_mag(a as int, b as int);
    }
    if a >= 0 {
        let m: u128 = (a as u128) / (b as u128);
        m as i128
    } else {
        let m: u128 = ((-a) as u128) / (b as u128);
        -(m as i128)
    }
}

} // verus!
