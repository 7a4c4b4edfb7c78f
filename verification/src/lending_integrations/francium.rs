//! The leveraged yield-farming venue: the farms it lists.

use vstd::prelude::*;
use crate::pubkey::{filled_key, Pubkey};

verus! {

/// The listed farms, each with its label and its key.
pub fn get_francium_farms() -> (farms: Vec<(String, Pubkey)>)
    ensures
        farms@.len() == 2,
        farms@[0].0@ == "SOL-USDC LP"@,
        farms@[0].1@ == filled_key(31),
        farms@[1].0@ == "RAY-SOL LP"@,
        farms@[1].1@ == filled_key(32),
{
    let mut farms: Vec<(String, Pubkey)> = Vec::new();
    farms.push(("SOL-USDC LP".to_string(), Pubkey::filled(31)));
    farms.push(("RAY-SOL LP".to_string(), Pubkey::filled(32)));
    farms
}

} // verus!
