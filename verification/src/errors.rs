//! Why an operation on an intent was refused.

use vstd::prelude::*;

verus! {

/// Every refusal leaves all records exactly as they were.
#[derive(Clone, Copy, Debug, PartialEq, Eq, Structural)]
pub enum IntentError {
    /// The owner already has the maximum number of pending intents.
    TooManyActiveIntents,
    /// The protocol is paused.
    ProtocolPaused,
    /// The amount is zero, or a venue's figures do not match the intent.
    InvalidAmount,
    /// The slippage bound asked for is above the permitted maximum.
    SlippageTooHigh,
    /// The asset's risk score is below the permitted minimum.
    RugproofCheckFailed,
    /// The intent has already been executed or cancelled.
    IntentNotPending,
    /// The intent's expiry time has been reached.
    IntentExpired,
    /// The venue's output is below what the slippage bound allows.
    SlippageExceeded,
    /// The minimum yield asked for is zero or above one hundred percent.
    InvalidAPY,
    /// The venue's yield is below the intent's minimum.
    APYTooLow,
    /// The caller is not the owner or the administrator.
    Unauthorized,
    /// The intent was routed to another venue than the one used.
    WrongProtocol,
}

impl IntentError {
    /// The message shown for this refusal.
    pub fn message(&self) -> (text: &'static str)
        ensures
            text@ == error_message(*self),
    {
        match self {
            IntentError::TooManyActiveIntents => "Too many active intents",
            IntentError::ProtocolPaused => "Protocol is paused",
            IntentError::InvalidAmount => "Invalid amount",
            IntentError::SlippageTooHigh => "Slippage too high",
            IntentError::RugproofCheckFailed => "Rugproof check failed",
            IntentError::IntentNotPending => "Intent is not pending",
            IntentError::IntentExpired => "Intent has expired",
            IntentError::SlippageExceeded => "Slippage exceeded",
            IntentError::InvalidAPY => "Invalid APY",
            IntentError::APYTooLow => "APY too low",
            IntentError::Unauthorized => "Unauthorized",
            IntentError::WrongProtocol => "Wrong protocol selected",
        }
    }
}

/// The text of each refusal.
pub open spec fn error_message(e: IntentError) -> Seq<char> {
    match e {
        IntentError::TooManyActiveIntents => "Too many active intents"@,
        IntentError::ProtocolPaused => "Protocol is paused"@,
        IntentError::InvalidAmount => "Invalid amount"@,
        IntentError::SlippageTooHigh => "Slippage too high"@,
        IntentError::RugproofCheckFailed => "Rugproof check failed"@,
        IntentError::IntentNotPending => "Intent is not pending"@,
        IntentError::IntentExpired => "Intent has expired"@,
        IntentError::SlippageExceeded => "Slippage exceeded"@,
        IntentError::InvalidAPY => "Invalid APY"@,
        IntentError::APYTooLow => "APY too low"@,
        IntentError::Unauthorized => "Unauthorized"@,
        IntentError::WrongProtocol => "Wrong protocol selected"@,
    }
}

} // verus!
