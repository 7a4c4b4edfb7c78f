//! Multiply-then-divide arithmetic over a 128-bit intermediate.
//!
//! Every product is formed before the single division, and the division
//! truncates toward zero, so a rounding remainder never favours the payee.

use vstd::prelude::*;
use vstd::arithmetic::div_mod::{lemma_div_is_ordered, lemma_div_pos_is_pos};
use vstd::arithmetic::mul::{lemma_mul_inequality, lemma_mul_nonnegative, lemma_mul_is_commutative};

verus! {

/// Denominator of a rate given in basis points.
pub const BPS_DENOMINATOR: u64 = 10000;

/// `floor(a * b / d)` over the mathematical integers.
pub open spec fn mul_div_floor(a: int, b: int, d: int) -> int {
    (a * b) / d
}

/// Whether `floor(a * b / d)` exists and fits in 64 bits.
pub open spec fn mul_div_fits(a: int, b: int, d: int) -> bool {
    d != 0 && mul_div_floor(a, b, d) <= u64::MAX
}

/// The product of two 64-bit values always fits in 128 bits.
pub proof fn lemma_product_fits_u128(a: u64, b: u64)
    ensures
        0 <= a * b <= u128::MAX,
{
    assert(0 <= a * b <= 0xffff_ffff_ffff_ffff * 0xffff_ffff_ffff_ffff) by (nonlinear_arith)
        requires
            0 <= a <= 0xffff_ffff_ffff_ffff,
            0 <= b <= 0xffff_ffff_ffff_ffff,
    ;
}

/// Scaling by a ratio that is at most one never grows the value:
/// with `0 <= b <= d` and `d > 0`, `0 <= floor(a * b / d) <= a`.
pub proof fn lemma_mul_div_at_most(a: int, b: int, d: int)
    requires
        0 <= a,
        0 <= b <= d,
        0 < d,
    ensures
        0 <= mul_div_floor(a, b, d) <= a,
{
    lemma_mul_nonnegative(a, b);
    lemma_div_pos_is_pos(a * b, d);
    lemma_mul_inequality(b, d, a);
    lemma_mul_is_commutative(a, b);
    lemma_mul_is_commutative(a, d);
    lemma_div_is_ordered(a * b, a * d, d);
    assert((a * d) / d == a) by (nonlinear_arith)
        requires
            0 < d,
    ;
}

/// `floor(a * b / d)` grows with `a` for non-negative `b` and positive `d`.
pub proof fn lemma_mul_div_monotone(a1: int, a2: int, b: int, d: int)
    requires
        0 <= a1 <= a2,
        0 <= b,
        0 < d,
    ensures
        mul_div_floor(a1, b, d) <= mul_div_floor(a2, b, d),
{
    lemma_mul_inequality(a1, a2, b);
    lemma_div_is_ordered(a1 * b, a2 * b, d);
}

/// Computes `floor(a * b / d)` through a 128-bit product, or reports that
/// the quotient does not exist or does not fit in 64 bits.
pub fn checked_mul_div(a: u64, b: u64, d: u64) -> (quotient: Option<u64>)
    ensures
        quotient == if mul_div_fits(a as int, b as int, d as int) {
            Some(mul_div_floor(a as int, b as int, d as int) as u64)
        } else {
            None::<u64>
        },
{
    proof {
        lemma_product_fits_u128(a, b);
    }
    if d == 0 {
        return None;
    }
    let product: u128 = (a as u128) * (b as u128);
    let wide: u128 = product / (d as u128);
    if wide <= u64::MAX as u128 {
        Some(wide as u64)
    } else {
        None
    }
}

/// Computes `floor(a * b / d)` through a 128-bit product. The caller shows
/// that the quotient exists and fits: an overflow is a fault, never a
/// wrapped or saturated value.
pub fn mul_div(a: u64, b: u64, d: u64) -> (quotient: u64)
    requires
        mul_div_fits(a as int, b as int, d as int),
    ensures
        quotient == mul_div_floor(a as int, b as int, d as int),
{
    proof {
        lemma_product_fits_u128(a, b);
    }
    let product: u128 = (a as u128) * (b as u128);
    let wide: u128 = product / (d as u128);
    wide as u64
}

/// Takes `rate_bps` basis points of `amount`, rounded down.
pub open spec fn bps_share(amount: int, rate_bps: int) -> int {
    mul_div_floor(amount, rate_bps, 10000)
}

/// A share of at most 10000 basis points lies between zero and the amount.
pub proof fn lemma_bps_share_bounded(amount: int, rate_bps: int)
    requires
        0 <= amount,
        0 <= rate_bps <= 10000,
    ensures
        0 <= bps_share(amount, rate_bps) <= amount,
{
    lemma_mul_div_at_most(amount, rate_bps, 10000);
}

} // verus!
