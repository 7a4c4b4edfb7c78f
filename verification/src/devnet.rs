//! The simplified engine: intents that live for hours instead of days and
//! settle against figures handed in by the caller instead of a venue's
//! data. It keeps records of its own, smaller than the full engine's.

use vstd::prelude::*;
use crate::registry::{calculate_protocol_fee, lemma_fee_at_most_amount, protocol_fee};
use crate::pubkey::Pubkey;
use crate::state::{MAX_APY_BPS, MAX_INTENTS_PER_USER, PROTOCOL_FEE_BPS};

verus! {

/// Seconds a swap intent stays executable: one hour.
pub const SWAP_EXPIRY_SECONDS: i64 = 3600;

/// Seconds a lend intent stays executable: two hours.
pub const LEND_EXPIRY_SECONDS: i64 = 7200;

/// Highest slippage bound a swap may ask for, in basis points.
pub const MAX_SLIPPAGE_BPS: u16 = 1000;

/// Why an operation was refused. Every refusal leaves all records as they
/// were.
#[derive(Clone, Copy, Debug, PartialEq, Eq, Structural)]
pub enum ErrorCode {
    /// The protocol is paused.
    ProtocolPaused,
    /// The amount is zero.
    InvalidAmount,
    /// The slippage bound asked for is above the permitted maximum.
    SlippageTooHigh,
    /// The intent has already been executed or cancelled.
    IntentNotPending,
    /// The intent's expiry time has been reached.
    IntentExpired,
    /// The minimum yield asked for is above one hundred percent.
    InvalidAPY,
    /// The yield offered is below the intent's minimum.
    APYTooLow,
    /// The caller is not the intent's owner.
    Unauthorized,
    /// The owner already has the maximum number of pending intents.
    TooManyActiveIntents,
}

impl ErrorCode {
    /// The message shown for this refusal.
    pub fn message(&self) -> (text: &'static str)
        ensures
            text@ == error_message(*self),
    {
        match self {
            ErrorCode::ProtocolPaused => "Protocol is paused",
            ErrorCode::InvalidAmount => "Invalid amount",
            ErrorCode::SlippageTooHigh => "Slippage too high",
            ErrorCode::IntentNotPending => "Intent is not pending",
            ErrorCode::IntentExpired => "Intent has expired",
            ErrorCode::InvalidAPY => "Invalid APY",
            ErrorCode::APYTooLow => "APY too low",
            ErrorCode::Unauthorized => "Unauthorized",
            ErrorCode::TooManyActiveIntents => "Too many active intents",
        }
    }
}

/// The text of each refusal.
pub open spec fn error_message(e: ErrorCode) -> Seq<char> {
    match e {
        ErrorCode::ProtocolPaused => "Protocol is paused"@,
        ErrorCode::InvalidAmount => "Invalid amount"@,
        ErrorCode::SlippageTooHigh => "Slippage too high"@,
        ErrorCode::IntentNotPending => "Intent is not pending"@,
        ErrorCode::IntentExpired => "Intent has expired"@,
        ErrorCode::InvalidAPY => "Invalid APY"@,
        ErrorCode::APYTooLow => "APY too low"@,
        ErrorCode::Unauthorized => "Unauthorized"@,
        ErrorCode::TooManyActiveIntents => "Too many active intents"@,
    }
}

/// The protocol's configuration and running totals.
#[derive(Clone, Copy, Debug, PartialEq, Eq)]
pub struct ProtocolState {
    pub authority: Pubkey,
    pub treasury_authority: Pubkey,
    pub protocol_fee_bps: u16,
    pub total_intents_created: u64,
    pub total_intents_executed: u64,
    pub is_paused: bool,
    pub bump: u8,
}

impl ProtocolState {
    /// The fee rate is at most the whole amount.
    pub open spec fn wf(&self) -> bool {
        self.protocol_fee_bps <= 10000
    }

    /// Decides `wf`.
    pub fn is_well_formed(&self) -> (ok: bool)
        ensures
            ok == self.wf(),
    {
        self.protocol_fee_bps <= 10000
    }
}

/// One participant's profile.
#[derive(Clone, Copy, Debug, PartialEq, Eq)]
pub struct UserAccount {
    pub authority: Pubkey,
    pub active_intents: u8,
    pub total_intents_created: u64,
    pub total_volume: u64,
    pub bump: u8,
}

impl UserAccount {
    /// The number of pending intents is within the ceiling.
    pub open spec fn wf(&self) -> bool {
        self.active_intents <= MAX_INTENTS_PER_USER
    }

    /// Decides `wf`.
    pub fn is_well_formed(&self) -> (ok: bool)
        ensures
            ok == self.wf(),
    {
        self.active_intents <= MAX_INTENTS_PER_USER
    }
}

/// What an intent asks for.
#[derive(Clone, Copy, Debug, PartialEq, Eq, Structural)]
pub enum IntentType {
    Swap,
    Lend,
}

/// Where an intent stands in its life. `Expired` is never stored.
#[derive(Clone, Copy, Debug, PartialEq, Eq, Structural)]
pub enum IntentStatus {
    Pending,
    Executed,
    Cancelled,
    Expired,
}

/// One declared intent.
#[derive(Clone, Copy, Debug, PartialEq, Eq)]
pub struct IntentAccount {
    pub authority: Pubkey,
    pub intent_type: IntentType,
    pub status: IntentStatus,
    pub from_mint: Pubkey,
    pub to_mint: Pubkey,
    pub amount: u64,
    pub protocol_fee: u64,
    pub max_slippage: Option<u16>,
    pub min_apy: Option<u16>,
    pub execution_output: Option<u64>,
    pub execution_apy: Option<u16>,
    pub created_at: i64,
    pub expires_at: i64,
    pub executed_at: Option<i64>,
    pub cancelled_at: Option<i64>,
    pub bump: u8,
}

impl IntentAccount {
    /// The fee is part of the amount.
    pub open spec fn wf(&self) -> bool {
        self.protocol_fee <= self.amount
    }

    /// The amount that is traded or lent: the principal less the fee.
    pub open spec fn net_amount(&self) -> int {
        self.amount - self.protocol_fee
    }

    /// Decides `wf`.
    pub fn is_well_formed(&self) -> (ok: bool)
        ensures
            ok == self.wf(),
    {
        self.protocol_fee <= self.amount
    }
}

/// Receipt of a settled swap. `protocol_fee` is what goes to the treasury
/// and `amount_in` what is traded.
#[derive(Clone, Copy, Debug, PartialEq, Eq)]
pub struct SwapIntentExecuted {
    pub intent_id: Pubkey,
    pub user: Pubkey,
    pub from_mint: Pubkey,
    pub to_mint: Pubkey,
    pub amount_in: u64,
    pub amount_out: u64,
    pub protocol_fee: u64,
}

/// Receipt of a settled lend. `protocol_fee` is what goes to the treasury
/// and `amount` what is lent.
#[derive(Clone, Copy, Debug, PartialEq, Eq)]
pub struct LendIntentExecuted {
    pub intent_id: Pubkey,
    pub user: Pubkey,
    pub mint: Pubkey,
    pub amount: u64,
    pub apy: u16,
    pub protocol_fee: u64,
}

/// Sets up the protocol: the given administrator and treasury, the standard
/// fee rate, all totals at zero, not paused.
pub fn initialize_protocol(authority: Pubkey, treasury_authority: Pubkey, bump: u8) -> (state: ProtocolState)
    ensures
        state == (ProtocolState {
            authority,
            treasury_authority,
            protocol_fee_bps: 30,
            total_intents_created: 0,
            total_intents_executed: 0,
            is_paused: false,
            bump,
        }),
        state.wf(),
{
    ProtocolState {
        authority,
        treasury_authority,
        protocol_fee_bps: PROTOCOL_FEE_BPS,
        total_intents_created: 0,
        total_intents_executed: 0,
        is_paused: false,
        bump,
    }
}

/// Sets up a participant's profile: no intents, no volume.
pub fn initialize_user(authority: Pubkey, bump: u8) -> (user: UserAccount)
    ensures
        user == (UserAccount { authority, active_intents: 0, total_intents_created: 0, total_volume: 0, bump }),
        user.wf(),
{
    UserAccount { authority, active_intents: 0, total_intents_created: 0, total_volume: 0, bump }
}

/// The participant's profile after opening an intent.
pub open spec fn user_after_create(user: UserAccount) -> UserAccount {
    UserAccount {
        active_intents: (user.active_intents + 1) as u8,
        total_intents_created: (user.total_intents_created + 1) as u64,
        ..user
    }
}

/// The protocol's totals after an intent was opened.
pub open spec fn state_after_create(state: ProtocolState) -> ProtocolState {
    ProtocolState { total_intents_created: (state.total_intents_created + 1) as u64, ..state }
}

/// Whether the counters and the clock leave room to open an intent that
/// lives for `ttl` seconds.
pub open spec fn create_has_room(state: ProtocolState, user: UserAccount, now: i64, ttl: i64) -> bool {
    &&& user.total_intents_created < u64::MAX
    &&& state.total_intents_created < u64::MAX
    &&& now + ttl <= i64::MAX
}

/// Decides whether the counters and the clock leave room to open an intent
/// that lives for `ttl` seconds.
pub fn create_fits(state: &ProtocolState, user: &UserAccount, now: i64, ttl: i64) -> (fits: bool)
    requires
        ttl >= 0,
    ensures
        fits == create_has_room(*state, *user, now, ttl),
{
    user.total_intents_created < u64::MAX && state.total_intents_created < u64::MAX && now <= i64::MAX - ttl
}

/// Why a swap intent is refused, if it is. The checks come in this order:
/// capacity, pause, amount, slippage bound.
pub open spec fn swap_intent_refusal(state: ProtocolState, user: UserAccount, amount: u64, max_slippage: u16) -> Option<
    ErrorCode,
> {
    if user.active_intents >= MAX_INTENTS_PER_USER {
        Some(ErrorCode::TooManyActiveIntents)
    } else if state.is_paused {
        Some(ErrorCode::ProtocolPaused)
    } else if amount == 0 {
        Some(ErrorCode::InvalidAmount)
    } else if max_slippage > MAX_SLIPPAGE_BPS {
        Some(ErrorCode::SlippageTooHigh)
    } else {
        None
    }
}

/// Checks whether a swap intent may be opened, without changing any
/// record.
pub fn validate_swap_intent(state: &ProtocolState, user: &UserAccount, amount: u64, max_slippage: u16) -> (outcome:
    Result<(), ErrorCode>)
    ensures
        outcome == match swap_intent_refusal(*state, *user, amount, max_slippage) {
            Some(e) => Err::<(), ErrorCode>(e),
            None => Ok::<(), ErrorCode>(()),
        },
{
    if user.active_intents >= MAX_INTENTS_PER_USER {
        return Err(ErrorCode::TooManyActiveIntents);
    }
    if state.is_paused {
        return Err(ErrorCode::ProtocolPaused);
    }
    if amount == 0 {
        return Err(ErrorCode::InvalidAmount);
    }
    if max_slippage > MAX_SLIPPAGE_BPS {
        return Err(ErrorCode::SlippageTooHigh);
    }
    Ok(())
}

/// The record of a newly opened swap intent, with the fee fixed from the
/// rate in force.
pub open spec fn new_swap_intent(
    state: ProtocolState,
    authority: Pubkey,
    from_mint: Pubkey,
    to_mint: Pubkey,
    amount: u64,
    max_slippage: u16,
    now: i64,
    bump: u8,
) -> IntentAccount {
    IntentAccount {
        authority,
        intent_type: IntentType::Swap,
        status: IntentStatus::Pending,
        from_mint,
        to_mint,
        amount,
        protocol_fee: protocol_fee(amount, state.protocol_fee_bps) as u64,
        max_slippage: Some(max_slippage),
        min_apy: None,
        execution_output: None,
        execution_apy: None,
        created_at: now,
        expires_at: (now + SWAP_EXPIRY_SECONDS) as i64,
        executed_at: None,
        cancelled_at: None,
        bump,
    }
}

/// Opens a swap intent that lives for one hour. On success the new record
/// is returned and the counters of the participant and of the protocol
/// each go up by one; on refusal nothing changes.
pub fn create_swap_intent(
    protocol_state: &mut ProtocolState,
    user_account: &mut UserAccount,
    authority: Pubkey,
    from_mint: Pubkey,
    to_mint: Pubkey,
    amount: u64,
    max_slippage: u16,
    now: i64,
    bump: u8,
) -> (outcome: Result<IntentAccount, ErrorCode>)
    requires
        old(protocol_state).wf(),
        swap_intent_refusal(*old(protocol_state), *old(user_account), amount, max_slippage) is None
            ==> create_has_room(*old(protocol_state), *old(user_account), now, SWAP_EXPIRY_SECONDS),
    ensures
        match outcome {
            Ok(intent) => {
                &&& swap_intent_refusal(*old(protocol_state), *old(user_account), amount, max_slippage) is None
                &&& intent == new_swap_intent(
                    *old(protocol_state),
                    authority,
                    from_mint,
                    to_mint,
                    amount,
                    max_slippage,
                    now,
                    bump,
                )
                &&& intent.wf()
                &&& *final(user_account) == user_after_create(*old(user_account))
                &&& *final(protocol_state) == state_after_create(*old(protocol_state))
            },
            Err(e) => {
                &&& swap_intent_refusal(*old(protocol_state), *old(user_account), amount, max_slippage) == Some(e)
                &&& *final(user_account) == *old(user_account)
                &&& *final(protocol_state) == *old(protocol_state)
            },
        },
        final(protocol_state).wf(),
        old(user_account).wf() ==> final(user_account).wf(),
{
    match validate_swap_intent(protocol_state, user_account, amount, max_slippage) {
        Ok(()) => {},
        Err(e) => {
            return Err(e);
        },
    }
    proof {
        lemma_fee_at_most_amount(amount, protocol_state.protocol_fee_bps);
    }
    let fee: u64 = calculate_protocol_fee(amount, protocol_state.protocol_fee_bps);
    let intent = IntentAccount {
        authority,
        intent_type: IntentType::Swap,
        status: IntentStatus::Pending,
        from_mint,
        to_mint,
        amount,
        protocol_fee: fee,
        max_slippage: Some(max_slippage),
        min_apy: None,
        execution_output: None,
        execution_apy: None,
        created_at: now,
        expires_at: now + SWAP_EXPIRY_SECONDS,
        executed_at: None,
        cancelled_at: None,
        bump,
    };
    user_account.active_intents = user_account.active_intents + 1;
    user_account.total_intents_created = user_account.total_intents_created + 1;
    protocol_state.total_intents_created = protocol_state.total_intents_created + 1;
    Ok(intent)
}

/// Why a lend intent is refused, if it is. The checks come in this order:
/// capacity, pause, amount, minimum yield.
pub open spec fn lend_intent_refusal(state: ProtocolState, user: UserAccount, amount: u64, min_apy: u16) -> Option<
    ErrorCode,
> {
    if user.active_intents >= MAX_INTENTS_PER_USER {
        Some(ErrorCode::TooManyActiveIntents)
    } else if state.is_paused {
        Some(ErrorCode::ProtocolPaused)
    } else if amount == 0 {
        Some(ErrorCode::InvalidAmount)
    } else if min_apy > MAX_APY_BPS {
        Some(ErrorCode::InvalidAPY)
    } else {
        None
    }
}

/// Checks whether a lend intent may be opened, without changing any
/// record.
pub fn validate_lend_intent(state: &ProtocolState, user: &UserAccount, amount: u64, min_apy: u16) -> (outcome:
    Result<(), ErrorCode>)
    ensures
        outcome == match lend_intent_refusal(*state, *user, amount, min_apy) {
            Some(e) => Err::<(), ErrorCode>(e),
            None => Ok::<(), ErrorCode>(()),
        },
{
    if user.active_intents >= MAX_INTENTS_PER_USER {
        return Err(ErrorCode::TooManyActiveIntents);
    }
    if state.is_paused {
        return Err(ErrorCode::ProtocolPaused);
    }
    if amount == 0 {
        return Err(ErrorCode::InvalidAmount);
    }
    if min_apy > MAX_APY_BPS {
        return Err(ErrorCode::InvalidAPY);
    }
    Ok(())
}

/// The record of a newly opened lend intent, with the fee fixed from the
/// rate in force.
pub open spec fn new_lend_intent(
    state: ProtocolState,
    authority: Pubkey,
    mint: Pubkey,
    amount: u64,
    min_apy: u16,
    now: i64,
    bump: u8,
) -> IntentAccount {
    IntentAccount {
        authority,
        intent_type: IntentType::Lend,
        status: IntentStatus::Pending,
        from_mint: mint,
        to_mint: mint,
        amount,
        protocol_fee: protocol_fee(amount, state.protocol_fee_bps) as u64,
        max_slippage: None,
        min_apy: Some(min_apy),
        execution_output: None,
        execution_apy: None,
        created_at: now,
        expires_at: (now + LEND_EXPIRY_SECONDS) as i64,
        executed_at: None,
        cancelled_at: None,
        bump,
    }
}

/// Opens a lend intent that lives for two hours. On success the new record
/// is returned and the counters of the participant and of the protocol
/// each go up by one; on refusal nothing changes.
pub fn create_lend_intent(
    protocol_state: &mut ProtocolState,
    user_account: &mut UserAccount,
    authority: Pubkey,
    mint: Pubkey,
    amount: u64,
    min_apy: u16,
    now: i64,
    bump: u8,
) -> (outcome: Result<IntentAccount, ErrorCode>)
    requires
        old(protocol_state).wf(),
        lend_intent_refusal(*old(protocol_state), *old(user_account), amount, min_apy) is None
            ==> create_has_room(*old(protocol_state), *old(user_account), now, LEND_EXPIRY_SECONDS),
    ensures
        match outcome {
            Ok(intent) => {
                &&& lend_intent_refusal(*old(protocol_state), *old(user_account), amount, min_apy) is None
                &&& intent == new_lend_intent(*old(protocol_state), authority, mint, amount, min_apy, now, bump)
                &&& intent.wf()
                &&& *final(user_account) == user_after_create(*old(user_account))
                &&& *final(protocol_state) == state_after_create(*old(protocol_state))
            },
            Err(e) => {
                &&& lend_intent_refusal(*old(protocol_state), *old(user_account), amount, min_apy) == Some(e)
                &&& *final(user_account) == *old(user_account)
                &&& *final(protocol_state) == *old(protocol_state)
            },
        },
        final(protocol_state).wf(),
        old(user_account).wf() ==> final(user_account).wf(),
{
    match validate_lend_intent(protocol_state, user_account, amount, min_apy) {
        Ok(()) => {},
        Err(e) => {
            return Err(e);
        },
    }
    proof {
        lemma_fee_at_most_amount(amount, protocol_state.protocol_fee_bps);
    }
    let fee: u64 = calculate_protocol_fee(amount, protocol_state.protocol_fee_bps);
    let intent = IntentAccount {
        authority,
        intent_type: IntentType::Lend,
        status: IntentStatus::Pending,
        from_mint: mint,
        to_mint: mint,
        amount,
        protocol_fee: fee,
        max_slippage: None,
        min_apy: Some(min_apy),
        execution_output: None,
        execution_apy: None,
        created_at: now,
        expires_at: now + LEND_EXPIRY_SECONDS,
        executed_at: None,
        cancelled_at: None,
        bump,
    };
    user_account.active_intents = user_account.active_intents + 1;
    user_account.total_intents_created = user_account.total_intents_created + 1;
    protocol_state.total_intents_created = protocol_state.total_intents_created + 1;
    Ok(intent)
}

/// Why an intent cannot be executed by `user` at time `now`: it is no
/// longer pending, its expiry time has been reached, or `user` is not its
/// owner.
pub open spec fn execution_refusal(intent: IntentAccount, user: Pubkey, now: i64) -> Option<ErrorCode> {
    if intent.status != IntentStatus::Pending {
        Some(ErrorCode::IntentNotPending)
    } else if now >= intent.expires_at {
        Some(ErrorCode::IntentExpired)
    } else if intent.authority@ != user@ {
        Some(ErrorCode::Unauthorized)
    } else {
        None
    }
}

/// Why a lend intent cannot be executed at the yield offered: it cannot be
/// executed at all, or the yield is below the intent's minimum.
pub open spec fn lend_execution_refusal(intent: IntentAccount, user: Pubkey, actual_apy: u16, now: i64) -> Option<
    ErrorCode,
> {
    match execution_refusal(intent, user, now) {
        Some(e) => Some(e),
        None => if actual_apy < required_apy(intent) {
            Some(ErrorCode::APYTooLow)
        } else {
            None
        },
    }
}

/// The minimum yield an intent insists on; none stated means zero.
pub open spec fn required_apy(intent: IntentAccount) -> u16 {
    match intent.min_apy {
        Some(apy) => apy,
        None => 0,
    }
}

/// Whether the counters leave room to record the settlement of an intent.
pub open spec fn settlement_has_room(state: ProtocolState, user: UserAccount, intent: IntentAccount) -> bool {
    &&& user.active_intents >= 1
    &&& user.total_volume + intent.amount <= u64::MAX
    &&& state.total_intents_executed < u64::MAX
}

/// Decides whether the counters leave room to record a settlement.
pub fn settlement_fits(state: &ProtocolState, user: &UserAccount, intent: &IntentAccount) -> (fits: bool)
    ensures
        fits == settlement_has_room(*state, *user, *intent),
{
    user.active_intents >= 1 && user.total_volume <= u64::MAX - intent.amount && state.total_intents_executed
        < u64::MAX
}

/// The owner's profile after one of the owner's intents was settled.
pub open spec fn user_after_settlement(user: UserAccount, intent: IntentAccount) -> UserAccount {
    UserAccount {
        active_intents: (user.active_intents - 1) as u8,
        total_volume: (user.total_volume + intent.amount) as u64,
        ..user
    }
}

/// The protocol's totals after an intent was settled.
pub open spec fn state_after_settlement(state: ProtocolState) -> ProtocolState {
    ProtocolState { total_intents_executed: (state.total_intents_executed + 1) as u64, ..state }
}

/// A swap intent after its settlement at time `now` for `amount_out`.
pub open spec fn intent_after_swap(intent: IntentAccount, amount_out: u64, now: i64) -> IntentAccount {
    IntentAccount {
        status: IntentStatus::Executed,
        executed_at: Some(now),
        execution_output: Some(amount_out),
        ..intent
    }
}

/// A lend intent after its settlement at time `now` at yield `apy`.
pub open spec fn intent_after_lend(intent: IntentAccount, apy: u16, now: i64) -> IntentAccount {
    IntentAccount { status: IntentStatus::Executed, executed_at: Some(now), execution_apy: Some(apy), ..intent }
}

/// Checks that an intent is pending, not expired and owned by `user`.
pub fn ensure_executable(intent: &IntentAccount, user: &Pubkey, now: i64) -> (outcome: Result<(), ErrorCode>)
    ensures
        outcome == match execution_refusal(*intent, *user, now) {
            Some(e) => Err::<(), ErrorCode>(e),
            None => Ok::<(), ErrorCode>(()),
        },
{
    if intent.status != IntentStatus::Pending {
        return Err(ErrorCode::IntentNotPending);
    }
    if now >= intent.expires_at {
        return Err(ErrorCode::IntentExpired);
    }
    if !intent.authority.same_as(user) {
        return Err(ErrorCode::Unauthorized);
    }
    Ok(())
}

/// Checks that a lend intent can be executed by `user` now at the yield
/// offered.
pub fn ensure_lend_executable(intent: &IntentAccount, user: &Pubkey, actual_apy: u16, now: i64) -> (outcome:
    Result<(), ErrorCode>)
    ensures
        outcome == match lend_execution_refusal(*intent, *user, actual_apy, now) {
            Some(e) => Err::<(), ErrorCode>(e),
            None => Ok::<(), ErrorCode>(()),
        },
{
    match ensure_executable(intent, user, now) {
        Ok(()) => {},
        Err(e) => {
            return Err(e);
        },
    }
    let min_apy: u16 = match intent.min_apy {
        Some(apy) => apy,
        None => 0,
    };
    if actual_apy < min_apy {
        return Err(ErrorCode::APYTooLow);
    }
    Ok(())
}

/// Records a settlement in the counters of the owner and of the protocol.
fn record_settlement(protocol_state: &mut ProtocolState, user_account: &mut UserAccount, intent: &IntentAccount)
    requires
        settlement_has_room(*old(protocol_state), *old(user_account), *intent),
    ensures
        *final(user_account) == user_after_settlement(*old(user_account), *intent),
        *final(protocol_state) == state_after_settlement(*old(protocol_state)),
{
    user_account.active_intents = user_account.active_intents - 1;
    user_account.total_volume = user_account.total_volume + intent.amount;
    protocol_state.total_intents_executed = protocol_state.total_intents_executed + 1;
}

/// Settles a swap intent for the output the caller reports. On success the
/// intent is marked executed with the time and the output, the counters
/// are updated, and the receipt names the fee for the treasury and the net
/// amount that is traded. On refusal nothing changes and no receipt exists.
pub fn execute_swap_intent(
    intent_account: &mut IntentAccount,
    protocol_state: &mut ProtocolState,
    user_account: &mut UserAccount,
    intent_id: Pubkey,
    user: Pubkey,
    expected_output: u64,
    now: i64,
) -> (outcome: Result<SwapIntentExecuted, ErrorCode>)
    requires
        old(intent_account).wf(),
        execution_refusal(*old(intent_account), user, now) is None ==> settlement_has_room(
            *old(protocol_state),
            *old(user_account),
            *old(intent_account),
        ),
    ensures
        match execution_refusal(*old(intent_account), user, now) {
            None => {
                &&& outcome == Ok::<SwapIntentExecuted, ErrorCode>(
                    SwapIntentExecuted {
                        intent_id,
                        user,
                        from_mint: old(intent_account).from_mint,
                        to_mint: old(intent_account).to_mint,
                        amount_in: old(intent_account).net_amount() as u64,
                        amount_out: expected_output,
                        protocol_fee: old(intent_account).protocol_fee,
                    },
                )
                &&& *final(intent_account) == intent_after_swap(*old(intent_account), expected_output, now)
                &&& *final(user_account) == user_after_settlement(*old(user_account), *old(intent_account))
                &&& *final(protocol_state) == state_after_settlement(*old(protocol_state))
            },
            Some(e) => {
                &&& outcome == Err::<SwapIntentExecuted, ErrorCode>(e)
                &&& *final(intent_account) == *old(intent_account)
                &&& *final(user_account) == *old(user_account)
                &&& *final(protocol_state) == *old(protocol_state)
            },
        },
        final(intent_account).wf(),
        old(user_account).wf() ==> final(user_account).wf(),
        old(protocol_state).wf() ==> final(protocol_state).wf(),
{
    match ensure_executable(intent_account, &user, now) {
        Ok(()) => {},
        Err(e) => {
            return Err(e);
        },
    }
    let receipt = SwapIntentExecuted {
        intent_id,
        user,
        from_mint: intent_account.from_mint,
        to_mint: intent_account.to_mint,
        amount_in: intent_account.amount - intent_account.protocol_fee,
        amount_out: expected_output,
        protocol_fee: intent_account.protocol_fee,
    };
    record_settlement(protocol_state, user_account, intent_account);
    intent_account.status = IntentStatus::Executed;
    intent_account.executed_at = Some(now);
    intent_account.execution_output = Some(expected_output);
    Ok(receipt)
}

/// Settles a lend intent at the yield the caller reports, which must reach
/// the intent's minimum. On success the intent is marked executed with the
/// time and the yield, the counters are updated, and the receipt names the
/// fee for the treasury and the net amount that is lent. On refusal
/// nothing changes and no receipt exists.
pub fn execute_lend_intent(
    intent_account: &mut IntentAccount,
    protocol_state: &mut ProtocolState,
    user_account: &mut UserAccount,
    intent_id: Pubkey,
    user: Pubkey,
    actual_apy: u16,
    now: i64,
) -> (outcome: Result<LendIntentExecuted, ErrorCode>)
    requires
        old(intent_account).wf(),
        lend_execution_refusal(*old(intent_account), user, actual_apy, now) is None ==> settlement_has_room(
            *old(protocol_state),
            *old(user_account),
            *old(intent_account),
        ),
    ensures
        match lend_execution_refusal(*old(intent_account), user, actual_apy, now) {
            None => {
                &&& outcome == Ok::<LendIntentExecuted, ErrorCode>(
                    LendIntentExecuted {
                        intent_id,
                        user,
                        mint: old(intent_account).from_mint,
                        amount: old(intent_account).net_amount() as u64,
                        apy: actual_apy,
                        protocol_fee: old(intent_account).protocol_fee,
                    },
                )
                &&& *final(intent_account) == intent_after_lend(*old(intent_account), actual_apy, now)
                &&& *final(user_account) == user_after_settlement(*old(user_account), *old(intent_account))
                &&& *final(protocol_state) == state_after_settlement(*old(protocol_state))
            },
            Some(e) => {
                &&& outcome == Err::<LendIntentExecuted, ErrorCode>(e)
                &&& *final(intent_account) == *old(intent_account)
                &&& *final(user_account) == *old(user_account)
                &&& *final(protocol_state) == *old(protocol_state)
            },
        },
        final(intent_account).wf(),
        old(user_account).wf() ==> final(user_account).wf(),
        old(protocol_state).wf() ==> final(protocol_state).wf(),
{
    match ensure_lend_executable(intent_account, &user, actual_apy, now) {
        Ok(()) => {},
        Err(e) => {
            return Err(e);
        },
    }
    let receipt = LendIntentExecuted {
        intent_id,
        user,
        mint: intent_account.from_mint,
        amount: intent_account.amount - intent_account.protocol_fee,
        apy: actual_apy,
        protocol_fee: intent_account.protocol_fee,
    };
    record_settlement(protocol_state, user_account, intent_account);
    intent_account.status = IntentStatus::Executed;
    intent_account.executed_at = Some(now);
    intent_account.execution_apy = Some(actual_apy);
    Ok(receipt)
}

/// Why a cancellation is refused, if it is: the intent is no longer
/// pending, or the caller is not its owner.
pub open spec fn cancel_refusal(intent: IntentAccount, authority: Pubkey) -> Option<ErrorCode> {
    if intent.status != IntentStatus::Pending {
        Some(ErrorCode::IntentNotPending)
    } else if intent.authority@ != authority@ {
        Some(ErrorCode::Unauthorized)
    } else {
        None
    }
}

/// Checks whether an intent may be cancelled by `authority`, without
/// changing any record.
pub fn validate_cancel(intent: &IntentAccount, authority: &Pubkey) -> (outcome: Result<(), ErrorCode>)
    ensures
        outcome == match cancel_refusal(*intent, *authority) {
            Some(e) => Err::<(), ErrorCode>(e),
            None => Ok::<(), ErrorCode>(()),
        },
{
    if intent.status != IntentStatus::Pending {
        return Err(ErrorCode::IntentNotPending);
    }
    if !intent.authority.same_as(authority) {
        return Err(ErrorCode::Unauthorized);
    }
    Ok(())
}

/// An intent after its cancellation at time `now`.
pub open spec fn intent_after_cancel(intent: IntentAccount, now: i64) -> IntentAccount {
    IntentAccount { status: IntentStatus::Cancelled, cancelled_at: Some(now), ..intent }
}

/// The owner's profile after one of the owner's intents was cancelled.
pub open spec fn user_after_cancel(user: UserAccount) -> UserAccount {
    UserAccount { active_intents: (user.active_intents - 1) as u8, ..user }
}

/// Cancels a pending intent on its owner's request. On success the intent
/// is marked cancelled with the time, and the owner has one pending intent
/// fewer; on refusal nothing changes.
pub fn cancel_intent(
    intent_account: &mut IntentAccount,
    user_account: &mut UserAccount,
    authority: &Pubkey,
    now: i64,
) -> (outcome: Result<(), ErrorCode>)
    requires
        cancel_refusal(*old(intent_account), *authority) is None ==> old(user_account).active_intents >= 1,
    ensures
        match outcome {
            Ok(()) => {
                &&& cancel_refusal(*old(intent_account), *authority) is None
                &&& *final(intent_account) == intent_after_cancel(*old(intent_account), now)
                &&& *final(user_account) == user_after_cancel(*old(user_account))
            },
            Err(e) => {
                &&& cancel_refusal(*old(intent_account), *authority) == Some(e)
                &&& *final(intent_account) == *old(intent_account)
                &&& *final(user_account) == *old(user_account)
            },
        },
        old(intent_account).wf() ==> final(intent_account).wf(),
        old(user_account).wf() ==> final(user_account).wf(),
{
    match validate_cancel(intent_account, authority) {
        Ok(()) => {},
        Err(e) => {
            return Err(e);
        },
    }
    intent_account.status = IntentStatus::Cancelled;
    intent_account.cancelled_at = Some(now);
    user_account.active_intents = user_account.active_intents - 1;
    Ok(())
}

/// An intent that is no longer pending is final: cancelling it and
/// executing it are both refused as not pending, whoever asks, whenever,
/// and whatever output or yield is reported.
pub proof fn lemma_terminal_intent_is_final(
    intent: IntentAccount,
    authority: Pubkey,
    actual_apy: u16,
    now: i64,
)
    requires
        intent.status != IntentStatus::Pending,
    ensures
        cancel_refusal(intent, authority) == Some(ErrorCode::IntentNotPending),
        execution_refusal(intent, authority, now) == Some(ErrorCode::IntentNotPending),
        lend_execution_refusal(intent, authority, actual_apy, now) == Some(ErrorCode::IntentNotPending),
{
}

/// Cancelling or executing twice fails the second time: an intent that was
/// cancelled or settled is not pending.
pub proof fn lemma_settled_or_cancelled_is_not_pending(intent: IntentAccount, amount_out: u64, apy: u16, now: i64)
    ensures
        intent_after_cancel(intent, now).status != IntentStatus::Pending,
        intent_after_swap(intent, amount_out, now).status != IntentStatus::Pending,
        intent_after_lend(intent, apy, now).status != IntentStatus::Pending,
{
}

/// The number of pending intents stays between zero and the ceiling: a
/// profile within the ceiling stays within it when an intent is opened,
/// settled or cancelled.
pub proof fn lemma_active_intents_within_ceiling(user: UserAccount, intent: IntentAccount)
    requires
        user.wf(),
    ensures
        user.active_intents < MAX_INTENTS_PER_USER ==> {
            &&& user_after_create(user).active_intents == user.active_intents + 1
            &&& user_after_create(user).wf()
        },
        user.active_intents >= 1 ==> {
            &&& user_after_settlement(user, intent).active_intents == user.active_intents - 1
            &&& user_after_settlement(user, intent).wf()
            &&& user_after_cancel(user).active_intents == user.active_intents - 1
            &&& user_after_cancel(user).wf()
        },
{
}

} // verus!
