//! The routed aggregator venue. It prices nothing itself: it takes the
//! output that the venue quoted for its own route plan and checks that the
//! quote was made for this trade.

use vstd::prelude::*;
use crate::errors::IntentError;
use crate::fixed_point::{lemma_mul_div_at_most, mul_div, mul_div_floor};
use crate::pubkey::Pubkey;

verus! {

/// Parts per thousand of the input that the simulated route pays out.
pub const SIMULATED_RATE_PER_MILLE: u64 = 950;

/// One trade handed to the aggregator.
#[derive(Clone, Copy, Debug, PartialEq, Eq)]
pub struct JupiterSwapParams {
    pub from_mint: Pubkey,
    pub to_mint: Pubkey,
    pub amount: u64,
    pub slippage_bps: u16,
    pub platform_fee_bps: u16,
}

/// The venue's quote for a trade, with the route it planned.
#[derive(Clone, Debug, PartialEq, Eq)]
pub struct JupiterSwapData {
    pub route_plan: Vec<RoutePlanStep>,
    pub in_amount: u64,
    pub quoted_out_amount: u64,
    pub slippage_bps: u16,
    pub platform_fee_bps: u16,
}

/// One leg of a route and the share of the trade it carries, in percent.
#[derive(Clone, Debug, PartialEq, Eq)]
pub struct RoutePlanStep {
    pub swap_info: SwapInfo,
    pub percent: u8,
}

/// A single pool's part in a route.
#[derive(Clone, Debug, PartialEq, Eq)]
pub struct SwapInfo {
    pub amm_key: Pubkey,
    pub label: String,
    pub input_mint: Pubkey,
    pub output_mint: Pubkey,
    pub in_amount: u64,
    pub out_amount: u64,
    pub fee_amount: u64,
    pub fee_mint: Pubkey,
}

/// What the aggregator returns for a trade and a quote: the quoted output
/// where the quote is for the same input and the same slippage bound, and a
/// refusal otherwise. A wrong input is reported before a wrong bound.
pub open spec fn quote_outcome(
    amount: u64,
    slippage_bps: u16,
    quoted_in_amount: u64,
    quoted_slippage_bps: u16,
    quoted_out_amount: u64,
) -> Result<u64, IntentError> {
    if quoted_in_amount != amount {
        Err(IntentError::InvalidAmount)
    } else if quoted_slippage_bps != slippage_bps {
        Err(IntentError::SlippageExceeded)
    } else {
        Ok(quoted_out_amount)
    }
}

/// Output of the simulated route: ninety-five percent of the input,
/// rounded down.
pub open spec fn simulated_output(amount: u64) -> int {
    mul_div_floor(amount as int, 950, 1000)
}

/// Accepts the venue's quote for a trade after checking that it was made
/// for this input and this slippage bound.
pub fn execute_jupiter_swap(swap_params: JupiterSwapParams, jupiter_swap_data: &JupiterSwapData) -> (outcome:
    Result<u64, IntentError>)
    ensures
        outcome == quote_outcome(
            swap_params.amount,
            swap_params.slippage_bps,
            jupiter_swap_data.in_amount,
            jupiter_swap_data.slippage_bps,
            jupiter_swap_data.quoted_out_amount,
        ),
{
    if jupiter_swap_data.in_amount != swap_params.amount {
        return Err(IntentError::InvalidAmount);
    }
    if jupiter_swap_data.slippage_bps != swap_params.slippage_bps {
        return Err(IntentError::SlippageExceeded);
    }
    Ok(jupiter_swap_data.quoted_out_amount)
}

/// Prices a trade at the simulated rate, without consulting the quote.
pub fn execute_jupiter_swap_simple(params: JupiterSwapParams, _swap_data: &JupiterSwapData) -> (outcome: Result<
    u64,
    IntentError,
>)
    ensures
        outcome is Ok,
        outcome->Ok_0 == simulated_output(params.amount),
        outcome->Ok_0 <= params.amount,
{
    proof {
        lemma_mul_div_at_most(params.amount as int, 950, 1000);
    }
    Ok(mul_div(params.amount, SIMULATED_RATE_PER_MILLE, 1000))
}

} // verus!
