//! Fixed-point arithmetic shared by the controller, the plant and the driver.
//!
//! An `i64` value `v` represents the real number `v / SCALE`. Addition and
//! subtraction of fixed-point values are exact; a product is scaled back down
//! with a truncating (round-toward-zero) division, which is the only rounding
//! the whole simulation performs.

use vstd::prelude::*;

verus! {

/// Number of fixed-point units per whole unit: an `i64` value `v` stands for
/// the real number `v / SCALE`.
pub const SCALE: i64 = 1_000_000;

/// Truncating (round-toward-zero) division, the rounding used by the
/// executable arithmetic. Only ever applied with a positive divisor.
pub open spec fn tdiv(a: int, b: int) -> int {
    if a >= 0 {
        a / b
    } else {
        -((-a) / b)
    }
}

/// The fixed-point product of `a` and `b`: multiply exactly, then scale back
/// down with a truncating division.
pub open spec fn fmul(a: int, b: int) -> int {
    tdiv(a * b, SCALE as int)
}

/// Whether a model value is representable as an `i64` fixed-point number.
pub open spec fn fits_i64(x: int) -> bool {
    i64::MIN <= x <= i64::MAX
}

/// A fixed-point product with a zero factor is exactly zero.
pub proof fn lemma_fmul_zero(x: int)
    ensures
        fmul(0, x) == 0,
        fmul(x, 0) == 0,
{
    broadcast use vstd::arithmetic::div_mod::lemma_div_basics_1;

    assert(0 * x == 0);
    assert(x * 0 == 0);
}

/// A product of two values is bounded by the product of their bounds.
pub proof fn lemma_mul_bounds(a: int, b: int, a_bound: int, b_bound: int)
    requires
        -a_bound <= a <= a_bound,
        -b_bound <= b <= b_bound,
        0 <= a_bound,
        0 <= b_bound,
    ensures
        -(a_bound * b_bound) <= a * b <= a_bound * b_bound,
{
    assert(-(a_bound * b_bound) <= a * b <= a_bound * b_bound) by (nonlinear_arith)
        requires
            -a_bound <= a <= a_bound,
            -b_bound <= b <= b_bound,
            0 <= a_bound,
            0 <= b_bound,
    ;
}

/// A truncated quotient is no larger in magnitude than the quotient of a
/// bound on the dividend.
pub proof fn lemma_tdiv_magnitude(a: int, b: int, bound: int)
    requires
        b > 0,
        -bound <= a <= bound,
        0 <= bound,
    ensures
        -(bound / b) <= tdiv(a, b) <= bound / b,
{
    broadcast use vstd::arithmetic::div_mod::lemma_div_pos_is_pos;
    broadcast use vstd::arithmetic::div_mod::lemma_div_is_ordered;

    if a >= 0 {
        assert(a / b <= bound / b);
    } else {
        assert((-a) / b <= bound / b);
    }
}

/// Whether an `i128` intermediate lies within the `i64` range.
pub(crate) fn fits_in_i64(x: i128) -> (r: bool)
    ensures
        r == fits_i64(x as int),
{
    i64::MIN as i128 <= x && x <= i64::MAX as i128
}

/// Truncating division on `i128`, exact with respect to `tdiv`. Every call
/// site has a positive divisor and a dividend strictly above `i128::MIN`, so
/// the quotient is always representable.
pub(crate) fn tdiv128(a: i128, b: i128) -> (r: i128)
    requires
        0 < b,
        i128::MIN < a,
    ensures
        r == tdiv(a as int, b as int),
        0 <= a ==> 0 <= r <= a,
        a < 0 ==> a <= r <= 0,
{
    proof {
        broadcast use vstd::arithmetic::div_mod::lemma_div_basics_1;
        broadcast use vstd::arithmetic::div_mod::lemma_div_basics_5;

    }
    match a.checked_div(b) {
        Some(q) => q,
        None => {
            proof {
                assert(false);
            }
            0
        },
    }
}

} // verus!
