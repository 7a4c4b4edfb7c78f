//! Swap venues and the rule that picks one for a trade.

use vstd::prelude::*;
use crate::pubkey::{filled_key, Pubkey};

pub mod jupiter;
pub mod orca;
pub mod raydium;

verus! {

/// A trade above this amount always goes to the aggregator.
pub const LARGE_TRADE_THRESHOLD: u64 = 1_000_000_000;

/// The venues a swap can settle against.
#[derive(Clone, Copy, Debug, PartialEq, Eq, Structural)]
pub enum SwapProtocol {
    /// The routed aggregator.
    Jupiter,
    /// The direct constant-product pool.
    Raydium,
    /// The alternative pool venue.
    Orca,
}

/// Picks the venue for a swap.
pub struct ProtocolRouter;

/// Whether a key is one of the three major assets: the keys filled with
/// zero, one and two.
pub open spec fn is_major_asset(mint: Seq<u8>) -> bool {
    mint == filled_key(0) || mint == filled_key(1) || mint == filled_key(2)
}

/// Whether the pair is made of two different major assets.
pub open spec fn is_major_pair(from_mint: Seq<u8>, to_mint: Seq<u8>) -> bool {
    is_major_asset(from_mint) && is_major_asset(to_mint) && from_mint != to_mint
}

/// The venue chosen for a swap: the aggregator for a large trade whatever
/// the pair, the direct pool for a small trade in a major pair, and the
/// aggregator for every other pair.
pub open spec fn best_protocol(from_mint: Seq<u8>, to_mint: Seq<u8>, amount: u64) -> SwapProtocol {
    if amount > LARGE_TRADE_THRESHOLD {
        SwapProtocol::Jupiter
    } else if is_major_pair(from_mint, to_mint) {
        SwapProtocol::Raydium
    } else {
        SwapProtocol::Jupiter
    }
}

impl ProtocolRouter {
    /// Chooses the venue for a swap of `amount` from one asset to another.
    /// The choice depends on nothing but the three arguments.
    pub fn choose_best_protocol(from_mint: &Pubkey, to_mint: &Pubkey, amount: u64) -> (venue: SwapProtocol)
        ensures
            venue == best_protocol(from_mint@, to_mint@, amount),
    {
        if amount > LARGE_TRADE_THRESHOLD {
            SwapProtocol::Jupiter
        } else if Self::is_major_pair(from_mint, to_mint) {
            SwapProtocol::Raydium
        } else {
            SwapProtocol::Jupiter
        }
    }

    fn is_major_pair(from_mint: &Pubkey, to_mint: &Pubkey) -> (major: bool)
        ensures
            major == is_major_pair(from_mint@, to_mint@),
    {
        let sol_mint = Pubkey::filled(0);
        let usdc_mint = Pubkey::filled(1);
        let usdt_mint = Pubkey::filled(2);
        proof {
            assert(filled_key(0)[0] == 0u8 && filled_key(1)[0] == 1u8 && filled_key(2)[0] == 2u8);
        }
        (from_mint.same_as(&sol_mint) && to_mint.same_as(&usdc_mint)) || (from_mint.same_as(&usdc_mint)
            && to_mint.same_as(&sol_mint)) || (from_mint.same_as(&sol_mint) && to_mint.same_as(&usdt_mint))
            || (from_mint.same_as(&usdt_mint) && to_mint.same_as(&sol_mint)) || (from_mint.same_as(
            &usdc_mint,
        ) && to_mint.same_as(&usdt_mint)) || (from_mint.same_as(&usdt_mint) && to_mint.same_as(&usdc_mint))
    }
}

} // verus!
