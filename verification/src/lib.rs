//! Intent settlement engine.
//!
//! A participant declares an intent (swap, lend or buy) and the engine
//! later settles it against the venue it was routed to, with a protocol fee
//! fixed when the intent was opened and with slippage and yield bounds
//! enforced at settlement. Every rule is stated as a contract and proved:
//!
//! - `fixed_point`: multiply-then-divide over a 128-bit intermediate;
//! - `interest_curve`: the utilization-based borrow rate and lending yield;
//! - `integrations`: swap venues, constant-product pricing, venue choice;
//! - `lending_integrations`: lending venues, their yields, venue choice;
//! - `state`: the records, parameters and receipts;
//! - `registry`: opening and cancelling intents, pausing the protocol;
//! - `settlement`: validating, pricing and recording a settlement;
//! - `devnet`: the simplified engine with short-lived intents;
//! - `launchpad`: token launches between a soft and a hard cap.
//!
//! The engine reads no clock and moves no token: the caller passes the time
//! and carries out what a receipt names.

pub mod devnet;
pub mod errors;
pub mod fixed_point;
pub mod integrations;
pub mod interest_curve;
pub mod launchpad;
pub mod lending_integrations;
pub mod pubkey;
pub mod registry;
pub mod settlement;
pub mod state;
