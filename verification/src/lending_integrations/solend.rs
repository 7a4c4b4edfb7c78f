//! The first lending venue: its reserve data and the yield it pays.

use vstd::prelude::*;
use crate::errors::IntentError;
use crate::interest_curve::{
    borrow_apy,
    borrow_rate,
    borrow_rate_defined,
    checked_utilization,
    lending_apy,
    lending_yield,
    utilization_bps,
    utilization_fits,
};
use crate::lending_integrations::{lend_outcome, yield_meets_minimum};
use crate::pubkey::{filled_key, Pubkey};
use crate::state::IntentAccount;

verus! {

/// Share of the borrow rate that this venue pays to lenders, in percent.
pub const SOLEND_YIELD_PERCENT: u64 = 70;

/// One deposit handed to the venue.
#[derive(Clone, Copy, Debug, PartialEq, Eq)]
pub struct SolendLendParams {
    pub reserve: Pubkey,
    pub lending_market: Pubkey,
    pub amount: u64,
    pub expected_apy: u16,
}

/// A reserve's state as the venue reports it.
#[derive(Clone, Copy, Debug, PartialEq, Eq)]
pub struct SolendReserve {
    pub version: u8,
    pub last_update: u64,
    pub lending_market: Pubkey,
    pub liquidity: ReserveLiquidity,
    pub collateral: ReserveCollateral,
    pub config: ReserveConfig,
}

/// What a reserve holds and has lent out.
#[derive(Clone, Copy, Debug, PartialEq, Eq)]
pub struct ReserveLiquidity {
    pub mint_pubkey: Pubkey,
    pub mint_decimals: u8,
    pub supply_pubkey: Pubkey,
    pub fee_receiver: Pubkey,
    pub oracle_pubkey: Pubkey,
    pub available_amount: u64,
    pub borrowed_amount_wads: u128,
    pub cumulative_borrow_rate_wads: u128,
    pub market_price: u128,
}

/// The collateral token of a reserve.
#[derive(Clone, Copy, Debug, PartialEq, Eq)]
pub struct ReserveCollateral {
    pub mint_pubkey: Pubkey,
    pub mint_total_supply: u64,
    pub supply_pubkey: Pubkey,
}

/// A reserve's rate curve and risk parameters. Rates and the optimal
/// utilization are whole percents.
#[derive(Clone, Copy, Debug, PartialEq, Eq)]
pub struct ReserveConfig {
    pub optimal_utilization_rate: u8,
    pub loan_to_value_ratio: u8,
    pub liquidation_bonus: u8,
    pub liquidation_threshold: u8,
    pub min_borrow_rate: u8,
    pub optimal_borrow_rate: u8,
    pub max_borrow_rate: u8,
    pub fees: ReserveFees,
}

/// A reserve's fees.
#[derive(Clone, Copy, Debug, PartialEq, Eq)]
pub struct ReserveFees {
    pub borrow_fee_wad: u64,
    pub flash_loan_fee_wad: u64,
    pub host_fee_percentage: u8,
}

/// Utilization of a reserve in basis points: what is borrowed as a share
/// of what is borrowed and what is available. Only a reserve that holds
/// neither counts as unused.
pub open spec fn reserve_utilization(liquidity: ReserveLiquidity) -> int {
    utilization_bps(liquidity.borrowed_amount_wads as int, liquidity.available_amount as int)
}

/// Borrow rate of a reserve at its present utilization.
pub open spec fn reserve_borrow_rate(reserve: SolendReserve) -> int {
    borrow_rate(
        reserve_utilization(reserve.liquidity),
        reserve.config.min_borrow_rate as int,
        reserve.config.optimal_borrow_rate as int,
        reserve.config.max_borrow_rate as int,
        reserve.config.optimal_utilization_rate * 100,
    )
}

/// Yield that a reserve pays to lenders at its present utilization.
pub open spec fn reserve_lending_apy(reserve: SolendReserve) -> int {
    lending_yield(reserve_borrow_rate(reserve), 70)
}

/// Whether the yield of a reserve can be computed: the utilization ratio
/// can be formed in 128 bits and the curve can be evaluated at it.
pub open spec fn reserve_apy_defined(reserve: SolendReserve) -> bool {
    &&& utilization_fits(
        reserve.liquidity.borrowed_amount_wads as int,
        reserve.liquidity.available_amount as int,
    )
    &&& borrow_rate_defined(
        reserve_utilization(reserve.liquidity),
        reserve.config.min_borrow_rate as int,
        reserve.config.optimal_borrow_rate as int,
        reserve.config.max_borrow_rate as int,
        reserve.config.optimal_utilization_rate * 100,
    )
}

/// Decides whether the yield of a reserve can be computed.
pub fn reserve_apy_computable(reserve: &SolendReserve) -> (computable: bool)
    ensures
        computable == reserve_apy_defined(*reserve),
{
    let liquidity = &reserve.liquidity;
    let utilization: u64 = match checked_utilization(
        liquidity.borrowed_amount_wads,
        liquidity.available_amount as u128,
    ) {
        Some(u) => u,
        None => {
            return false;
        },
    };
    let optimal_utilization: u64 = (reserve.config.optimal_utilization_rate as u64) * 100;
    if utilization <= optimal_utilization {
        reserve.config.min_borrow_rate <= reserve.config.optimal_borrow_rate && optimal_utilization > 0
    } else {
        reserve.config.optimal_borrow_rate <= reserve.config.max_borrow_rate
    }
}

/// The yield that a reserve pays to lenders at its present utilization, in
/// whole percent.
pub fn calculate_lending_apy(reserve: &SolendReserve) -> (apy: Result<u16, IntentError>)
    requires
        reserve_apy_defined(*reserve),
    ensures
        apy is Ok,
        apy->Ok_0 == reserve_lending_apy(*reserve),
        apy->Ok_0 <= reserve_borrow_rate(*reserve),
{
    let liquidity = &reserve.liquidity;
    let utilization: u64 = checked_utilization(
        liquidity.borrowed_amount_wads,
        liquidity.available_amount as u128,
    ).unwrap();
    let optimal_utilization: u64 = (reserve.config.optimal_utilization_rate as u64) * 100;
    let borrow: u64 = borrow_apy(
        utilization,
        reserve.config.min_borrow_rate as u64,
        reserve.config.optimal_borrow_rate as u64,
        reserve.config.max_borrow_rate as u64,
        optimal_utilization,
    );
    let paid: u64 = lending_apy(borrow, SOLEND_YIELD_PERCENT);
    Ok(paid as u16)
}

/// Holds a deposit against a reserve: the reserve must hold the asset that
/// the intent lends, and its yield, taken in basis points, must reach the
/// intent's minimum. The yield is returned in whole percent.
pub fn execute_solend_lend(
    intent_account: &IntentAccount,
    _params: SolendLendParams,
    reserve_data: SolendReserve,
) -> (outcome: Result<u16, IntentError>)
    requires
        reserve_data.liquidity.mint_pubkey@ == intent_account.from_mint@ ==> reserve_apy_defined(
            reserve_data,
        ),
    ensures
        outcome == lend_outcome(
            *intent_account,
            reserve_data.liquidity.mint_pubkey,
            reserve_lending_apy(reserve_data) as u16,
        ),
{
    if !reserve_data.liquidity.mint_pubkey.same_as(&intent_account.from_mint) {
        return Err(IntentError::InvalidAmount);
    }
    let current_apy: u16 = match calculate_lending_apy(&reserve_data) {
        Ok(apy) => apy,
        Err(e) => {
            return Err(e);
        },
    };
    if !yield_meets_minimum(current_apy, intent_account) {
        return Err(IntentError::APYTooLow);
    }
    Ok(current_apy)
}

/// The listed markets: each with its asset's name, its reserve and its
/// lending market.
pub fn get_solend_markets() -> (markets: Vec<(String, Pubkey, Pubkey)>)
    ensures
        markets@.len() == 3,
        markets@[0].0@ == "SOL"@,
        markets@[0].1@ == filled_key(11),
        markets@[0].2@ == filled_key(12),
        markets@[1].0@ == "USDC"@,
        markets@[1].1@ == filled_key(13),
        markets@[1].2@ == filled_key(14),
        markets@[2].0@ == "USDT"@,
        markets@[2].1@ == filled_key(15),
        markets@[2].2@ == filled_key(16),
{
    let mut markets: Vec<(String, Pubkey, Pubkey)> = Vec::new();
    markets.push(("SOL".to_string(), Pubkey::filled(11), Pubkey::filled(12)));
    markets.push(("USDC".to_string(), Pubkey::filled(13), Pubkey::filled(14)));
    markets.push(("USDT".to_string(), Pubkey::filled(15), Pubkey::filled(16)));
    markets
}

} // verus!
