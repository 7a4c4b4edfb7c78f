//! The records the engine keeps: one protocol configuration, one profile per
//! participant and one record per intent, with the parameters that open an
//! intent and the receipts that a settlement hands back.

use vstd::prelude::*;
use crate::integrations::SwapProtocol;
use crate::lending_integrations::LendingProtocol;
use crate::pubkey::Pubkey;

verus! {

/// Protocol fee in basis points, fixed when the protocol is set up.
pub const PROTOCOL_FEE_BPS: u16 = 30;

/// Most intents one participant may have pending at a time.
pub const MAX_INTENTS_PER_USER: u8 = 50;

/// Seconds an intent stays executable after it was created: seven days.
pub const INTENT_EXPIRY_SECONDS: i64 = 604800;

/// Lowest risk score with which an asset may be traded.
pub const MIN_RUGPROOF_SCORE: u8 = 70;

/// Highest slippage bound a swap may ask for, in basis points.
pub const MAX_SLIPPAGE_BPS: u16 = 5000;

/// Highest minimum yield a lend may ask for, in basis points.
pub const MAX_APY_BPS: u16 = 10000;

/// The protocol's configuration and running totals.
#[derive(Clone, Copy, Debug, PartialEq, Eq)]
pub struct ProtocolState {
    pub authority: Pubkey,
    pub treasury_authority: Pubkey,
    pub protocol_fee_bps: u16,
    pub total_fees_collected: u64,
    pub total_intents_created: u64,
    pub total_intents_executed: u64,
    pub is_paused: bool,
    pub bump: u8,
}

impl ProtocolState {
    /// The fee rate is at most the whole amount.
    pub open spec fn wf(&self) -> bool {
        self.protocol_fee_bps <= 10000
    }

    /// Decides `wf`.
    pub fn is_well_formed(&self) -> (ok: bool)
        ensures
            ok == self.wf(),
    {
        self.protocol_fee_bps <= 10000
    }
}

/// One participant's profile.
#[derive(Clone, Copy, Debug, PartialEq, Eq)]
pub struct UserAccount {
    pub authority: Pubkey,
    pub active_intents: u8,
    pub total_intents_created: u64,
    pub total_volume: u64,
    pub rugproof_enabled: bool,
    pub bump: u8,
}

impl UserAccount {
    /// The number of pending intents is within the ceiling.
    pub open spec fn wf(&self) -> bool {
        self.active_intents <= MAX_INTENTS_PER_USER
    }

    /// Decides `wf`.
    pub fn is_well_formed(&self) -> (ok: bool)
        ensures
            ok == self.wf(),
    {
        self.active_intents <= MAX_INTENTS_PER_USER
    }
}

/// What an intent asks for.
#[derive(Clone, Copy, Debug, PartialEq, Eq, Structural)]
pub enum IntentType {
    Swap,
    Lend,
    Buy,
}

/// Where an intent stands in its life. `Expired` is never stored: an intent
/// past its expiry time stays `Pending` and is refused when executed.
#[derive(Clone, Copy, Debug, PartialEq, Eq, Structural)]
pub enum IntentStatus {
    Pending,
    Executed,
    Cancelled,
    Expired,
}

/// One declared intent.
#[derive(Clone, Copy, Debug, PartialEq, Eq)]
pub struct IntentAccount {
    pub authority: Pubkey,
    pub intent_type: IntentType,
    pub status: IntentStatus,
    pub from_mint: Pubkey,
    pub to_mint: Pubkey,
    pub amount: u64,
    pub protocol_fee: u64,
    pub max_slippage: u16,
    pub min_apy: Option<u16>,
    pub target_price: Option<u64>,
    pub max_price_impact: Option<u16>,
    pub execution_price: Option<u64>,
    pub execution_apy: Option<u16>,
    pub rugproof_enabled: bool,
    pub selected_swap_protocol: SwapProtocol,
    pub selected_lending_protocol: Option<LendingProtocol>,
    pub created_at: i64,
    pub expires_at: i64,
    pub executed_at: Option<i64>,
    pub cancelled_at: Option<i64>,
    pub bump: u8,
}

impl IntentAccount {
    /// The fee is part of the amount, and the slippage bound is within the
    /// permitted maximum.
    pub open spec fn wf(&self) -> bool {
        &&& self.protocol_fee <= self.amount
        &&& self.max_slippage <= MAX_SLIPPAGE_BPS
    }

    /// The amount that reaches the venue: the principal less the fee.
    pub open spec fn net_amount(&self) -> int {
        self.amount - self.protocol_fee
    }

    /// Decides `wf`.
    pub fn is_well_formed(&self) -> (ok: bool)
        ensures
            ok == self.wf(),
    {
        self.protocol_fee <= self.amount && self.max_slippage <= MAX_SLIPPAGE_BPS
    }
}

/// What a caller gives to open a swap intent.
#[derive(Clone, Copy, Debug, PartialEq, Eq)]
pub struct SwapIntentParams {
    pub from_mint: Pubkey,
    pub to_mint: Pubkey,
    pub amount: u64,
    pub max_slippage: u16,
    pub rugproof_enabled: bool,
}

/// What a caller gives to open a lend intent.
#[derive(Clone, Copy, Debug, PartialEq, Eq)]
pub struct LendIntentParams {
    pub mint: Pubkey,
    pub amount: u64,
    pub min_apy: u16,
}

/// What a caller gives to open a buy intent.
#[derive(Clone, Copy, Debug, PartialEq, Eq)]
pub struct BuyIntentParams {
    pub mint: Pubkey,
    pub usdc_mint: Pubkey,
    pub usdc_amount: u64,
    pub target_price: Option<u64>,
    pub max_price_impact: u16,
    pub rugproof_check: bool,
}

/// Receipt of a settled swap. `protocol_fee` is what goes to the treasury
/// and `amount_in` what goes to the venue.
#[derive(Clone, Copy, Debug, PartialEq, Eq)]
pub struct SwapIntentExecuted {
    pub intent_id: Pubkey,
    pub user: Pubkey,
    pub protocol: SwapProtocol,
    pub from_mint: Pubkey,
    pub to_mint: Pubkey,
    pub amount_in: u64,
    pub amount_out: u64,
    pub protocol_fee: u64,
}

/// Receipt of a settled lend. `protocol_fee` is what goes to the treasury
/// and `amount` what goes to the venue's receiving account.
#[derive(Clone, Copy, Debug, PartialEq, Eq)]
pub struct LendIntentExecuted {
    pub intent_id: Pubkey,
    pub user: Pubkey,
    pub mint: Pubkey,
    pub amount: u64,
    pub apy: u16,
    pub protocol: LendingProtocol,
    pub protocol_fee: u64,
}

} // verus!
