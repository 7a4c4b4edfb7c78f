//! Lending venues and the rule that picks one for a deposit.

use vstd::prelude::*;
use crate::errors::IntentError;
use crate::pubkey::Pubkey;
use crate::state::IntentAccount;

pub mod francium;
pub mod port_finance;
pub mod solend;

verus! {

/// A deposit above this amount goes to the venue with the deepest
/// liquidity.
pub const LARGE_DEPOSIT_THRESHOLD: u64 = 10_000_000_000;

/// Yield that the first venue reports, in basis points.
pub const SOLEND_REPORTED_APY_BPS: u16 = 650;

/// Yield that the second venue reports, in basis points.
pub const PORT_REPORTED_APY_BPS: u16 = 580;

/// The venues a lend can settle against, in the order in which they are
/// listed.
#[derive(Clone, Copy, Debug, PartialEq, Eq, Structural)]
pub enum LendingProtocol {
    /// The venue with the deepest liquidity.
    Solend,
    /// The second venue.
    PortFinance,
    /// A yield-farming venue.
    TulipProtocol,
    /// A leveraged yield-farming venue.
    Francium,
}

/// Picks the venue for a deposit.
pub struct LendingRouter;

/// The venue chosen for a deposit: the deepest venue for a large deposit,
/// the second venue otherwise.
pub open spec fn best_lending_protocol(amount: u64) -> LendingProtocol {
    if amount > LARGE_DEPOSIT_THRESHOLD {
        LendingProtocol::Solend
    } else {
        LendingProtocol::PortFinance
    }
}

/// The better of two reported yields with the venue that reports it. On a
/// tie the venue listed first wins.
pub open spec fn higher_yield(solend_apy: u16, port_apy: u16) -> (LendingProtocol, u16) {
    if solend_apy >= port_apy {
        (LendingProtocol::Solend, solend_apy)
    } else {
        (LendingProtocol::PortFinance, port_apy)
    }
}

/// The minimum yield an intent insists on; none stated means zero.
pub open spec fn required_apy(intent: IntentAccount) -> u16 {
    match intent.min_apy {
        Some(apy) => apy,
        None => 0,
    }
}

/// A venue's yield, which it states in whole percent, in basis points.
pub open spec fn yield_in_bps(apy_percent: u16) -> int {
    apy_percent * 100
}

/// What a venue returns for a deposit once its yield is known: a refusal
/// where the reserve holds another asset than the intent lends, a refusal
/// where the yield is below the intent's minimum, the yield otherwise. The
/// venue's yield is in whole percent and the intent's minimum in basis
/// points; the two are compared in basis points.
pub open spec fn lend_outcome(intent: IntentAccount, reserve_mint: Pubkey, apy: u16) -> Result<
    u16,
    IntentError,
> {
    if reserve_mint@ != intent.from_mint@ {
        Err(IntentError::InvalidAmount)
    } else if yield_in_bps(apy) < required_apy(intent) {
        Err(IntentError::APYTooLow)
    } else {
        Ok(apy)
    }
}

/// Holds a venue's yield, in whole percent, to an intent's minimum, in
/// basis points.
pub fn yield_meets_minimum(apy_percent: u16, intent: &IntentAccount) -> (meets: bool)
    ensures
        meets == (yield_in_bps(apy_percent) >= required_apy(*intent)),
{
    let min_apy: u16 = match intent.min_apy {
        Some(apy) => apy,
        None => 0,
    };
    (apy_percent as u32) * 100 >= (min_apy as u32)
}

/// Compares two reported yields and names the venue with the higher one.
pub fn best_yield(solend_apy: u16, port_apy: u16) -> (best: (LendingProtocol, u16))
    ensures
        best == higher_yield(solend_apy, port_apy),
        best.1 >= solend_apy,
        best.1 >= port_apy,
{
    if solend_apy >= port_apy {
        (LendingProtocol::Solend, solend_apy)
    } else {
        (LendingProtocol::PortFinance, port_apy)
    }
}

impl LendingRouter {
    /// Chooses the venue for a deposit of `amount`. The choice depends on
    /// the amount alone.
    pub fn choose_best_lending_protocol(_mint: &Pubkey, amount: u64) -> (venue: LendingProtocol)
        ensures
            venue == best_lending_protocol(amount),
    {
        if amount > LARGE_DEPOSIT_THRESHOLD {
            LendingProtocol::Solend
        } else {
            LendingProtocol::PortFinance
        }
    }

    /// The venue that currently reports the higher yield for an asset, with
    /// that yield. Nothing is changed.
    pub fn get_best_apy_for_token(_mint: &Pubkey) -> (best: Result<(LendingProtocol, u16), IntentError>)
        ensures
            best == Ok::<(LendingProtocol, u16), IntentError>(
                higher_yield(SOLEND_REPORTED_APY_BPS, PORT_REPORTED_APY_BPS),
            ),
            best == Ok::<(LendingProtocol, u16), IntentError>((LendingProtocol::Solend, 650u16)),
    {
        Ok(best_yield(SOLEND_REPORTED_APY_BPS, PORT_REPORTED_APY_BPS))
    }
}

} // verus!
