//! The second lending venue: its reserve data and the yield it pays.

use vstd::prelude::*;
use crate::errors::IntentError;
use crate::interest_curve::{
    borrow_apy,
    borrow_rate,
    borrow_rate_defined,
    checked_utilization,
    lending_apy,
    lending_yield,
    utilization_bps,
};
use crate::lending_integrations::{lend_outcome, yield_meets_minimum};
use crate::pubkey::{filled_key, Pubkey};
use crate::state::IntentAccount;

verus! {

/// Share of the borrow rate that this venue pays to lenders, in percent.
pub const PORT_YIELD_PERCENT: u64 = 75;

/// One deposit handed to the venue.
#[derive(Clone, Copy, Debug, PartialEq, Eq)]
pub struct PortLendParams {
    pub reserve: Pubkey,
    pub staking_pool: Pubkey,
    pub amount: u64,
    pub expected_apy: u16,
}

/// A reserve's state as the venue reports it.
#[derive(Clone, Copy, Debug, PartialEq, Eq)]
pub struct PortReserve {
    pub is_initialized: bool,
    pub lending_market: Pubkey,
    pub liquidity: PortLiquidity,
    pub collateral: PortCollateral,
    pub config: PortConfig,
    pub last_update: u64,
}

/// What a reserve holds and has lent out.
#[derive(Clone, Copy, Debug, PartialEq, Eq)]
pub struct PortLiquidity {
    pub mint_pubkey: Pubkey,
    pub supply_pubkey: Pubkey,
    pub fee_receiver: Pubkey,
    pub oracle_pubkey: Pubkey,
    pub available_amount: u64,
    pub borrowed_amount: u64,
    pub cumulative_borrow_rate: u128,
    pub market_price: u64,
}

/// The collateral token of a reserve.
#[derive(Clone, Copy, Debug, PartialEq, Eq)]
pub struct PortCollateral {
    pub mint_pubkey: Pubkey,
    pub supply_pubkey: Pubkey,
    pub total_supply: u64,
}

/// A reserve's rate curve and risk parameters. Rates and the optimal
/// utilization are whole percents.
#[derive(Clone, Copy, Debug, PartialEq, Eq)]
pub struct PortConfig {
    pub optimal_utilization_rate: u8,
    pub max_borrow_rate: u8,
    pub loan_to_value_ratio: u8,
    pub liquidation_bonus: u8,
    pub liquidation_threshold: u8,
    pub min_borrow_rate: u8,
    pub optimal_borrow_rate: u8,
    pub borrow_fee_rate: u8,
}

/// Utilization of a reserve in basis points: what is borrowed as a share
/// of what is borrowed and what is available. Only a reserve that holds
/// neither counts as unused.
pub open spec fn port_utilization(liquidity: PortLiquidity) -> int {
    utilization_bps(liquidity.borrowed_amount as int, liquidity.available_amount as int)
}

/// Borrow rate of a reserve at its present utilization.
pub open spec fn port_borrow_rate(reserve: PortReserve) -> int {
    borrow_rate(
        port_utilization(reserve.liquidity),
        reserve.config.min_borrow_rate as int,
        reserve.config.optimal_borrow_rate as int,
        reserve.config.max_borrow_rate as int,
        reserve.config.optimal_utilization_rate * 100,
    )
}

/// Yield that a reserve pays to lenders at its present utilization.
pub open spec fn port_lending_apy(reserve: PortReserve) -> int {
    lending_yield(port_borrow_rate(reserve), 75)
}

/// Whether the yield of a reserve can be computed: the curve can be
/// evaluated at its utilization. The utilization itself can always be
/// formed, as the reserve's amounts are 64-bit values.
pub open spec fn port_apy_defined(reserve: PortReserve) -> bool {
    borrow_rate_defined(
        port_utilization(reserve.liquidity),
        reserve.config.min_borrow_rate as int,
        reserve.config.optimal_borrow_rate as int,
        reserve.config.max_borrow_rate as int,
        reserve.config.optimal_utilization_rate * 100,
    )
}

/// Utilization of a reserve in basis points.
fn current_utilization(liquidity: &PortLiquidity) -> (utilization: u64)
    ensures
        utilization == port_utilization(*liquidity),
        utilization <= 10000,
{
    checked_utilization(liquidity.borrowed_amount as u128, liquidity.available_amount as u128).unwrap()
}

/// Decides whether the yield of a reserve can be computed.
pub fn port_apy_computable(reserve: &PortReserve) -> (computable: bool)
    ensures
        computable == port_apy_defined(*reserve),
{
    let utilization: u64 = current_utilization(&reserve.liquidity);
    let optimal_utilization: u64 = (reserve.config.optimal_utilization_rate as u64) * 100;
    if utilization <= optimal_utilization {
        reserve.config.min_borrow_rate <= reserve.config.optimal_borrow_rate && optimal_utilization > 0
    } else {
        reserve.config.optimal_borrow_rate <= reserve.config.max_borrow_rate
    }
}

/// The yield that a reserve pays to lenders at its present utilization, in
/// whole percent.
pub fn calculate_port_apy(reserve: &PortReserve) -> (apy: Result<u16, IntentError>)
    requires
        port_apy_defined(*reserve),
    ensures
        apy is Ok,
        apy->Ok_0 == port_lending_apy(*reserve),
        apy->Ok_0 <= port_borrow_rate(*reserve),
{
    let utilization: u64 = current_utilization(&reserve.liquidity);
    let optimal_utilization: u64 = (reserve.config.optimal_utilization_rate as u64) * 100;
    let borrow: u64 = borrow_apy(
        utilization,
        reserve.config.min_borrow_rate as u64,
        reserve.config.optimal_borrow_rate as u64,
        reserve.config.max_borrow_rate as u64,
        optimal_utilization,
    );
    let paid: u64 = lending_apy(borrow, PORT_YIELD_PERCENT);
    Ok(paid as u16)
}

/// Holds a deposit against a reserve: the reserve must hold the asset that
/// the intent lends, and its yield, taken in basis points, must reach the
/// intent's minimum. The yield is returned in whole percent.
pub fn execute_port_lend(
    intent_account: &IntentAccount,
    _params: PortLendParams,
    reserve_data: PortReserve,
) -> (outcome: Result<u16, IntentError>)
    requires
        reserve_data.liquidity.mint_pubkey@ == intent_account.from_mint@ ==> port_apy_defined(reserve_data),
    ensures
        outcome == lend_outcome(
            *intent_account,
            reserve_data.liquidity.mint_pubkey,
            port_lending_apy(reserve_data) as u16,
        ),
{
    if !reserve_data.liquidity.mint_pubkey.same_as(&intent_account.from_mint) {
        return Err(IntentError::InvalidAmount);
    }
    let current_apy: u16 = match calculate_port_apy(&reserve_data) {
        Ok(apy) => apy,
        Err(e) => {
            return Err(e);
        },
    };
    if !yield_meets_minimum(current_apy, intent_account) {
        return Err(IntentError::APYTooLow);
    }
    Ok(current_apy)
}

/// The listed markets: each with its asset's name, its reserve and its
/// staking pool.
pub fn get_port_markets() -> (markets: Vec<(String, Pubkey, Pubkey)>)
    ensures
        markets@.len() == 2,
        markets@[0].0@ == "SOL"@,
        markets@[0].1@ == filled_key(21),
        markets@[0].2@ == filled_key(22),
        markets@[1].0@ == "USDC"@,
        markets@[1].1@ == filled_key(23),
        markets@[1].2@ == filled_key(24),
{
    let mut markets: Vec<(String, Pubkey, Pubkey)> = Vec::new();
    markets.push(("SOL".to_string(), Pubkey::filled(21), Pubkey::filled(22)));
    markets.push(("USDC".to_string(), Pubkey::filled(23), Pubkey::filled(24)));
    markets
}

} // verus!
