//! The utilization-based interest curve: two straight segments that meet at
//! the optimal utilization, and the share of the borrow rate that is paid
//! on to lenders.

use vstd::prelude::*;
use vstd::arithmetic::div_mod::{lemma_div_is_ordered, lemma_div_pos_is_pos};
use vstd::arithmetic::mul::{lemma_mul_inequality, lemma_mul_is_commutative, lemma_mul_nonnegative};
use crate::fixed_point::{lemma_mul_div_at_most, lemma_mul_div_monotone, mul_div, mul_div_floor};

verus! {

/// Utilization at which every unit of liquidity is borrowed, in basis
/// points.
pub const FULL_UTILIZATION_BPS: u64 = 10000;

/// Borrowed liquidity as a share of all liquidity, in basis points, rounded
/// down. A pool without any liquidity has utilization zero.
pub open spec fn utilization_bps(borrowed: int, available: int) -> int {
    if available + borrowed == 0 {
        0
    } else {
        (borrowed * 10000) / (available + borrowed)
    }
}

/// Utilization never exceeds one hundred percent.
pub proof fn lemma_utilization_bounded(borrowed: int, available: int)
    requires
        0 <= borrowed,
        0 <= available,
    ensures
        0 <= utilization_bps(borrowed, available) <= 10000,
{
    if available + borrowed != 0 {
        let total = available + borrowed;
        lemma_div_pos_is_pos(borrowed * 10000, total);
        lemma_div_is_ordered(borrowed * 10000, total * 10000, total);
        assert((total * 10000) / total == 10000) by (nonlinear_arith)
            requires
                0 < total,
        ;
    }
}

/// Whether the utilization ratio can be formed in 128 bits: a pool that
/// holds anything needs its scaled borrowings and its total to fit.
pub open spec fn utilization_fits(borrowed: int, available: int) -> bool {
    available + borrowed != 0 ==> {
        &&& borrowed * 10000 <= u128::MAX
        &&& available + borrowed <= u128::MAX
    }
}

/// Computes the utilization of a pool in basis points, or reports that the
/// ratio cannot be formed in 128 bits. Only a pool without any liquidity,
/// neither available nor borrowed, has utilization zero for want of a
/// divisor.
pub fn checked_utilization(borrowed: u128, available: u128) -> (utilization: Option<u64>)
    ensures
        utilization == if utilization_fits(borrowed as int, available as int) {
            Some(utilization_bps(borrowed as int, available as int) as u64)
        } else {
            None::<u64>
        },
        utilization is Some ==> utilization->0 == utilization_bps(borrowed as int, available as int),
        utilization is Some ==> utilization->0 <= 10000,
{
    proof {
        lemma_utilization_bounded(borrowed as int, available as int);
    }
    if available == 0 && borrowed == 0 {
        return Some(0);
    }
    let scaled: u128 = match borrowed.checked_mul(10000) {
        Some(s) => s,
        None => {
            return None;
        },
    };
    let total: u128 = match available.checked_add(borrowed) {
        Some(t) => t,
        None => {
            return None;
        },
    };
    Some((scaled / total) as u64)
}

/// The borrow rate at a utilization. Up to the optimal utilization the rate
/// rises in a straight line from the minimum rate to the optimal rate; above
/// it, in a straight line from the optimal rate to the maximum rate at full
/// utilization. Each segment rounds down.
pub open spec fn borrow_rate(
    utilization: int,
    min_rate: int,
    optimal_rate: int,
    max_rate: int,
    optimal_utilization: int,
) -> int {
    if utilization <= optimal_utilization {
        min_rate + mul_div_floor(optimal_rate - min_rate, utilization, optimal_utilization)
    } else {
        optimal_rate + mul_div_floor(
            max_rate - optimal_rate,
            utilization - optimal_utilization,
            10000 - optimal_utilization,
        )
    }
}

/// Whether the curve can be evaluated at a utilization: the utilization is
/// at most one hundred percent, the segment it lies on does not fall, and
/// the lower segment has a positive length.
pub open spec fn borrow_rate_defined(
    utilization: int,
    min_rate: int,
    optimal_rate: int,
    max_rate: int,
    optimal_utilization: int,
) -> bool {
    &&& utilization <= 10000
    &&& if utilization <= optimal_utilization {
        min_rate <= optimal_rate && optimal_utilization > 0
    } else {
        optimal_rate <= max_rate
    }
}

/// On the lower segment the rate lies between the minimum and the optimal
/// rate; on the upper segment, between the optimal and the maximum rate.
pub proof fn lemma_borrow_rate_bounded(
    utilization: int,
    min_rate: int,
    optimal_rate: int,
    max_rate: int,
    optimal_utilization: int,
)
    requires
        0 <= utilization,
        0 <= min_rate,
        0 <= optimal_rate,
        0 <= max_rate,
        0 <= optimal_utilization,
        borrow_rate_defined(utilization, min_rate, optimal_rate, max_rate, optimal_utilization),
    ensures
        utilization <= optimal_utilization ==> min_rate <= borrow_rate(
            utilization,
            min_rate,
            optimal_rate,
            max_rate,
            optimal_utilization,
        ) <= optimal_rate,
        utilization > optimal_utilization ==> optimal_rate <= borrow_rate(
            utilization,
            min_rate,
            optimal_rate,
            max_rate,
            optimal_utilization,
        ) <= max_rate,
{
    if utilization <= optimal_utilization {
        lemma_mul_div_at_most(optimal_rate - min_rate, utilization, optimal_utilization);
    } else {
        lemma_mul_div_at_most(
            max_rate - optimal_rate,
            utilization - optimal_utilization,
            10000 - optimal_utilization,
        );
    }
}

/// At the optimal utilization the rate is the optimal rate exactly; at
/// utilization zero it is the minimum rate.
pub proof fn lemma_borrow_rate_at_kink(min_rate: int, optimal_rate: int, max_rate: int, optimal_utilization: int)
    requires
        0 < optimal_utilization,
    ensures
        borrow_rate(optimal_utilization, min_rate, optimal_rate, max_rate, optimal_utilization)
            == optimal_rate,
        borrow_rate(0, min_rate, optimal_rate, max_rate, optimal_utilization) == min_rate,
{
    let span = optimal_rate - min_rate;
    assert((span * optimal_utilization) / optimal_utilization == span) by (nonlinear_arith)
        requires
            0 < optimal_utilization,
    ;
    assert(span * 0 == 0) by (nonlinear_arith);
    assert(0int / optimal_utilization == 0) by (nonlinear_arith)
        requires
            0 < optimal_utilization,
    ;
}

/// The yield paid to lenders: `conversion_percent` percent of the borrow
/// rate, rounded down.
pub open spec fn lending_yield(borrow_rate: int, conversion_percent: int) -> int {
    mul_div_floor(borrow_rate, conversion_percent, 100)
}

/// Lenders are never paid more than borrowers pay, and with a conversion
/// below one hundred percent and a positive borrow rate they are paid
/// strictly less.
pub proof fn lemma_lending_yield_below_borrow_rate(borrow_rate: int, conversion_percent: int)
    requires
        0 <= borrow_rate,
        0 <= conversion_percent <= 100,
    ensures
        0 <= lending_yield(borrow_rate, conversion_percent) <= borrow_rate,
        conversion_percent < 100 && borrow_rate > 0 ==> lending_yield(borrow_rate, conversion_percent)
            < borrow_rate,
{
    lemma_mul_div_at_most(borrow_rate, conversion_percent, 100);
    if conversion_percent < 100 && borrow_rate > 0 {
        lemma_mul_inequality(conversion_percent, 99, borrow_rate);
        lemma_mul_is_commutative(borrow_rate, conversion_percent);
        lemma_mul_is_commutative(borrow_rate, 99);
        lemma_mul_nonnegative(borrow_rate, conversion_percent);
        lemma_div_is_ordered(borrow_rate * conversion_percent, borrow_rate * 99, 100);
        assert((borrow_rate * 99) / 100 < borrow_rate);
    }
}

/// A higher borrow rate never pays lenders less: at a fixed conversion the
/// lending yield grows with the borrow rate.
pub proof fn lemma_lending_yield_grows_with_borrow_rate(
    low_borrow_rate: int,
    high_borrow_rate: int,
    conversion_percent: int,
)
    requires
        0 <= low_borrow_rate <= high_borrow_rate,
        0 <= conversion_percent,
    ensures
        lending_yield(low_borrow_rate, conversion_percent) <= lending_yield(
            high_borrow_rate,
            conversion_percent,
        ),
{
    lemma_mul_div_monotone(low_borrow_rate, high_borrow_rate, conversion_percent, 100);
}

/// Evaluates the curve at a utilization. The caller shows that the curve
/// can be evaluated there.
pub fn borrow_apy(
    utilization_bps: u64,
    min_rate: u64,
    optimal_rate: u64,
    max_rate: u64,
    optimal_utilization_bps: u64,
) -> (rate: u64)
    requires
        borrow_rate_defined(
            utilization_bps as int,
            min_rate as int,
            optimal_rate as int,
            max_rate as int,
            optimal_utilization_bps as int,
        ),
    ensures
        rate == borrow_rate(
            utilization_bps as int,
            min_rate as int,
            optimal_rate as int,
            max_rate as int,
            optimal_utilization_bps as int,
        ),
        utilization_bps <= optimal_utilization_bps ==> min_rate <= rate <= optimal_rate,
        utilization_bps > optimal_utilization_bps ==> optimal_rate <= rate <= max_rate,
{
    proof {
        lemma_borrow_rate_bounded(
            utilization_bps as int,
            min_rate as int,
            optimal_rate as int,
            max_rate as int,
            optimal_utilization_bps as int,
        );
    }
    if utilization_bps <= optimal_utilization_bps {
        let rise: u64 = mul_div(optimal_rate - min_rate, utilization_bps, optimal_utilization_bps);
        min_rate + rise
    } else {
        let rise: u64 = mul_div(
            max_rate - optimal_rate,
            utilization_bps - optimal_utilization_bps,
            FULL_UTILIZATION_BPS - optimal_utilization_bps,
        );
        optimal_rate + rise
    }
}

/// Scales a borrow rate down to the yield paid to lenders.
pub fn lending_apy(borrow_apy: u64, conversion_percent: u64) -> (rate: u64)
    requires
        conversion_percent <= 100,
    ensures
        rate == lending_yield(borrow_apy as int, conversion_percent as int),
        rate <= borrow_apy,
        conversion_percent < 100 && borrow_apy > 0 ==> rate < borrow_apy,
{
    proof {
        lemma_lending_yield_below_borrow_rate(borrow_apy as int, conversion_percent as int);
    }
    mul_div(borrow_apy, conversion_percent, 100)
}

} // verus!
