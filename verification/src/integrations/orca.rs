//! The alternative pool venue: the pools it lists.

use vstd::prelude::*;
use crate::pubkey::{filled_key, Pubkey};

verus! {

/// The listed pools, each with its label and its key.
pub fn get_orca_pools() -> (pools: Vec<(String, Pubkey)>)
    ensures
        pools@.len() == 2,
        pools@[0].0@ == "SOL-USDC-0.3%"@,
        pools@[0].1@ == filled_key(6),
        pools@[1].0@ == "SOL-USDT-0.3%"@,
        pools@[1].1@ == filled_key(7),
{
    let mut pools: Vec<(String, Pubkey)> = Vec::new();
    pools.push(("SOL-USDC-0.3%".to_string(), Pubkey::filled(6)));
    pools.push(("SOL-USDT-0.3%".to_string(), Pubkey::filled(7)));
    pools
}

} // verus!
