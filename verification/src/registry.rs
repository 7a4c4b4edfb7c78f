//! The intent registry: the protocol's configuration, the participants'
//! profiles, and the opening and cancelling of intents.
//!
//! An operation either succeeds and updates every record it touches, or is
//! refused and changes nothing.

use vstd::prelude::*;
use crate::errors::IntentError;
use crate::fixed_point::{bps_share, lemma_bps_share_bounded, mul_div, mul_div_fits};
use crate::integrations::{best_protocol, ProtocolRouter, SwapProtocol};
use crate::lending_integrations::{best_lending_protocol, LendingRouter};
use crate::pubkey::Pubkey;
use crate::state::{
    BuyIntentParams,
    IntentAccount,
    IntentStatus,
    IntentType,
    LendIntentParams,
    ProtocolState,
    SwapIntentParams,
    UserAccount,
    INTENT_EXPIRY_SECONDS,
    MAX_APY_BPS,
    MAX_INTENTS_PER_USER,
    MAX_SLIPPAGE_BPS,
    MIN_RUGPROOF_SCORE,
    PROTOCOL_FEE_BPS,
};

verus! {

/// Sets up the protocol: the given administrator and treasury, the standard
/// fee rate, all totals at zero, not paused.
pub fn initialize_protocol(authority: Pubkey, treasury_authority: Pubkey, bump: u8) -> (state: ProtocolState)
    ensures
        state == (ProtocolState {
            authority,
            treasury_authority,
            protocol_fee_bps: PROTOCOL_FEE_BPS,
            total_fees_collected: 0,
            total_intents_created: 0,
            total_intents_executed: 0,
            is_paused: false,
            bump,
        }),
        state.wf(),
{
    ProtocolState {
        authority,
        treasury_authority,
        protocol_fee_bps: PROTOCOL_FEE_BPS,
        total_fees_collected: 0,
        total_intents_created: 0,
        total_intents_executed: 0,
        is_paused: false,
        bump,
    }
}

/// Sets up a participant's profile: no intents, no volume, risk checks on.
pub fn initialize_user(authority: Pubkey, bump: u8) -> (user: UserAccount)
    ensures
        user == (UserAccount {
            authority,
            active_intents: 0,
            total_intents_created: 0,
            total_volume: 0,
            rugproof_enabled: true,
            bump,
        }),
        user.wf(),
{
    UserAccount {
        authority,
        active_intents: 0,
        total_intents_created: 0,
        total_volume: 0,
        rugproof_enabled: true,
        bump,
    }
}

/// The protocol's fee on an amount: `floor(amount * fee_bps / 10000)`.
pub open spec fn protocol_fee(amount: u64, fee_bps: u16) -> int {
    bps_share(amount as int, fee_bps as int)
}

/// With a fee rate of at most 10000 basis points the fee is part of the
/// amount: `0 <= floor(amount * fee_bps / 10000) <= amount`.
pub proof fn lemma_fee_at_most_amount(amount: u64, fee_bps: u16)
    requires
        fee_bps <= 10000,
    ensures
        0 <= protocol_fee(amount, fee_bps) <= amount,
{
    lemma_bps_share_bounded(amount as int, fee_bps as int);
}

/// The fee is a function of amount and rate: the same amount and the same
/// rate give the same fee, whenever and however often it is computed.
pub proof fn lemma_fee_is_deterministic(amount: u64, fee_bps: u16, same_amount: u64, same_fee_bps: u16)
    requires
        amount == same_amount,
        fee_bps == same_fee_bps,
    ensures
        protocol_fee(amount, fee_bps) == protocol_fee(same_amount, same_fee_bps),
{
}

/// Computes the protocol's fee on an amount. The result depends on the two
/// arguments alone, so the same amount and rate always give the same fee.
pub fn calculate_protocol_fee(amount: u64, fee_bps: u16) -> (fee: u64)
    requires
        mul_div_fits(amount as int, fee_bps as int, 10000),
    ensures
        fee == protocol_fee(amount, fee_bps),
        fee_bps <= 10000 ==> fee <= amount,
{
    proof {
        if fee_bps <= 10000 {
            lemma_fee_at_most_amount(amount, fee_bps);
        }
    }
    mul_div(amount, fee_bps as u64, 10000)
}

/// Risk score of an asset, from the first byte of its key: 95 below 50, 85
/// below 100, 75 otherwise.
pub open spec fn rugproof_score(mint: Seq<u8>) -> u8 {
    if mint[0] < 50 {
        95
    } else if mint[0] < 100 {
        85
    } else {
        75
    }
}

/// Scores an asset by the rule of `rugproof_score`. A caller without a
/// scoring service of its own hands this score to the operations that ask
/// for one.
pub fn perform_rugproof_check(mint: &Pubkey) -> (score: Result<u8, IntentError>)
    ensures
        score == Ok::<u8, IntentError>(rugproof_score(mint@)),
{
    let first: u8 = mint.to_bytes()[0];
    let score: u8 = if first < 50 {
        95
    } else if first < 100 {
        85
    } else {
        75
    };
    Ok(score)
}

/// Holds a risk score to the permitted minimum.
pub fn require_rugproof_score(score: u8) -> (outcome: Result<(), IntentError>)
    ensures
        outcome == if score >= MIN_RUGPROOF_SCORE {
            Ok::<(), IntentError>(())
        } else {
            Err::<(), IntentError>(IntentError::RugproofCheckFailed)
        },
{
    if score >= MIN_RUGPROOF_SCORE {
        Ok(())
    } else {
        Err(IntentError::RugproofCheckFailed)
    }
}

/// Whether the risk check refuses an asset with the given score: only
/// where the check is asked for and the score is below the minimum. Where
/// the check is not asked for the score is not consulted.
pub open spec fn risk_check_fails(enabled: bool, risk_score: u8) -> bool {
    enabled && risk_score < MIN_RUGPROOF_SCORE
}

/// The participant's profile after opening an intent.
pub open spec fn user_after_create(user: UserAccount) -> UserAccount {
    UserAccount {
        active_intents: (user.active_intents + 1) as u8,
        total_intents_created: (user.total_intents_created + 1) as u64,
        ..user
    }
}

/// The protocol's totals after an intent was opened.
pub open spec fn state_after_create(state: ProtocolState) -> ProtocolState {
    ProtocolState { total_intents_created: (state.total_intents_created + 1) as u64, ..state }
}

/// Whether the counters and the clock leave room to open an intent that
/// lives for `ttl` seconds.
pub open spec fn create_has_room(state: ProtocolState, user: UserAccount, now: i64, ttl: i64) -> bool {
    &&& user.total_intents_created < u64::MAX
    &&& state.total_intents_created < u64::MAX
    &&& now + ttl <= i64::MAX
}

/// Decides whether the counters and the clock leave room to open an intent
/// that lives for `ttl` seconds.
pub fn create_fits(state: &ProtocolState, user: &UserAccount, now: i64, ttl: i64) -> (fits: bool)
    requires
        ttl >= 0,
    ensures
        fits == create_has_room(*state, *user, now, ttl),
{
    user.total_intents_created < u64::MAX && state.total_intents_created < u64::MAX && now <= i64::MAX - ttl
}

/// Holds an asset's risk score to the minimum where the check is asked
/// for.
fn check_risk(enabled: bool, risk_score: u8) -> (outcome: Result<(), IntentError>)
    ensures
        outcome == if risk_check_fails(enabled, risk_score) {
            Err::<(), IntentError>(IntentError::RugproofCheckFailed)
        } else {
            Ok::<(), IntentError>(())
        },
{
    if enabled {
        require_rugproof_score(risk_score)
    } else {
        Ok(())
    }
}

/// Why a swap intent is refused, if it is. The checks come in this order:
/// capacity, pause, amount, slippage bound, risk. `risk_score` is the score
/// that the risk service gives the asset bought.
pub open spec fn swap_intent_refusal(
    state: ProtocolState,
    user: UserAccount,
    params: SwapIntentParams,
    risk_score: u8,
) -> Option<IntentError> {
    if user.active_intents >= MAX_INTENTS_PER_USER {
        Some(IntentError::TooManyActiveIntents)
    } else if state.is_paused {
        Some(IntentError::ProtocolPaused)
    } else if params.amount == 0 {
        Some(IntentError::InvalidAmount)
    } else if params.max_slippage > MAX_SLIPPAGE_BPS {
        Some(IntentError::SlippageTooHigh)
    } else if risk_check_fails(params.rugproof_enabled, risk_score) {
        Some(IntentError::RugproofCheckFailed)
    } else {
        None
    }
}

/// Checks whether a swap intent may be opened, without changing any
/// record.
pub fn validate_swap_intent(
    state: &ProtocolState,
    user: &UserAccount,
    params: &SwapIntentParams,
    risk_score: u8,
) -> (outcome: Result<(), IntentError>)
    ensures
        outcome == match swap_intent_refusal(*state, *user, *params, risk_score) {
            Some(e) => Err::<(), IntentError>(e),
            None => Ok::<(), IntentError>(()),
        },
{
    if user.active_intents >= MAX_INTENTS_PER_USER {
        return Err(IntentError::TooManyActiveIntents);
    }
    if state.is_paused {
        return Err(IntentError::ProtocolPaused);
    }
    if params.amount == 0 {
        return Err(IntentError::InvalidAmount);
    }
    if params.max_slippage > MAX_SLIPPAGE_BPS {
        return Err(IntentError::SlippageTooHigh);
    }
    check_risk(params.rugproof_enabled, risk_score)
}

/// The record of a newly opened swap intent. The fee is fixed here, from
/// the rate in force at this moment, and the venue is chosen here.
pub open spec fn new_swap_intent(
    state: ProtocolState,
    authority: Pubkey,
    params: SwapIntentParams,
    now: i64,
    bump: u8,
) -> IntentAccount {
    IntentAccount {
        authority,
        intent_type: IntentType::Swap,
        status: IntentStatus::Pending,
        from_mint: params.from_mint,
        to_mint: params.to_mint,
        amount: params.amount,
        protocol_fee: protocol_fee(params.amount, state.protocol_fee_bps) as u64,
        max_slippage: params.max_slippage,
        min_apy: None,
        target_price: None,
        max_price_impact: None,
        execution_price: None,
        execution_apy: None,
        rugproof_enabled: params.rugproof_enabled,
        selected_swap_protocol: best_protocol(params.from_mint@, params.to_mint@, params.amount),
        selected_lending_protocol: None,
        created_at: now,
        expires_at: (now + INTENT_EXPIRY_SECONDS) as i64,
        executed_at: None,
        cancelled_at: None,
        bump,
    }
}

/// Opens a swap intent for `authority`. `risk_score` is the score that the
/// risk service gives the asset bought; it is read only where the intent
/// asks for the risk check. On success the new record is
/// returned and the counters of the participant and of the protocol each
/// go up by one; on refusal nothing changes.
pub fn create_swap_intent(
    protocol_state: &mut ProtocolState,
    user_account: &mut UserAccount,
    authority: Pubkey,
    params: SwapIntentParams,
    risk_score: u8,
    now: i64,
    bump: u8,
) -> (outcome: Result<IntentAccount, IntentError>)
    requires
        old(protocol_state).wf(),
        swap_intent_refusal(*old(protocol_state), *old(user_account), params, risk_score) is None ==> create_has_room(
            *old(protocol_state),
            *old(user_account),
            now,
            INTENT_EXPIRY_SECONDS,
        ),
    ensures
        match outcome {
            Ok(intent) => {
                &&& swap_intent_refusal(*old(protocol_state), *old(user_account), params, risk_score) is None
                &&& intent == new_swap_intent(*old(protocol_state), authority, params, now, bump)
                &&& intent.wf()
                &&& *final(user_account) == user_after_create(*old(user_account))
                &&& *final(protocol_state) == state_after_create(*old(protocol_state))
            },
            Err(e) => {
                &&& swap_intent_refusal(*old(protocol_state), *old(user_account), params, risk_score) == Some(e)
                &&& *final(user_account) == *old(user_account)
                &&& *final(protocol_state) == *old(protocol_state)
            },
        },
        final(protocol_state).wf(),
        old(user_account).wf() ==> final(user_account).wf(),
{
    match validate_swap_intent(protocol_state, user_account, &params, risk_score) {
        Ok(()) => {},
        Err(e) => {
            return Err(e);
        },
    }
    proof {
        lemma_fee_at_most_amount(params.amount, protocol_state.protocol_fee_bps);
    }
    let fee: u64 = calculate_protocol_fee(params.amount, protocol_state.protocol_fee_bps);
    let selected_protocol = ProtocolRouter::choose_best_protocol(&params.from_mint, &params.to_mint, params.amount);
    let intent = IntentAccount {
        authority,
        intent_type: IntentType::Swap,
        status: IntentStatus::Pending,
        from_mint: params.from_mint,
        to_mint: params.to_mint,
        amount: params.amount,
        protocol_fee: fee,
        max_slippage: params.max_slippage,
        min_apy: None,
        target_price: None,
        max_price_impact: None,
        execution_price: None,
        execution_apy: None,
        rugproof_enabled: params.rugproof_enabled,
        selected_swap_protocol: selected_protocol,
        selected_lending_protocol: None,
        created_at: now,
        expires_at: now + INTENT_EXPIRY_SECONDS,
        executed_at: None,
        cancelled_at: None,
        bump,
    };
    user_account.active_intents = user_account.active_intents + 1;
    user_account.total_intents_created = user_account.total_intents_created + 1;
    protocol_state.total_intents_created = protocol_state.total_intents_created + 1;
    Ok(intent)
}

/// Why a lend intent is refused, if it is. The checks come in this order:
/// capacity, pause, amount, minimum yield.
pub open spec fn lend_intent_refusal(state: ProtocolState, user: UserAccount, params: LendIntentParams) -> Option<
    IntentError,
> {
    if user.active_intents >= MAX_INTENTS_PER_USER {
        Some(IntentError::TooManyActiveIntents)
    } else if state.is_paused {
        Some(IntentError::ProtocolPaused)
    } else if params.amount == 0 {
        Some(IntentError::InvalidAmount)
    } else if params.min_apy == 0 || params.min_apy > MAX_APY_BPS {
        Some(IntentError::InvalidAPY)
    } else {
        None
    }
}

/// Checks whether a lend intent may be opened, without changing any
/// record.
pub fn validate_lend_intent(state: &ProtocolState, user: &UserAccount, params: &LendIntentParams) -> (outcome: Result<
    (),
    IntentError,
>)
    ensures
        outcome == match lend_intent_refusal(*state, *user, *params) {
            Some(e) => Err::<(), IntentError>(e),
            None => Ok::<(), IntentError>(()),
        },
{
    if user.active_intents >= MAX_INTENTS_PER_USER {
        return Err(IntentError::TooManyActiveIntents);
    }
    if state.is_paused {
        return Err(IntentError::ProtocolPaused);
    }
    if params.amount == 0 {
        return Err(IntentError::InvalidAmount);
    }
    if params.min_apy == 0 || params.min_apy > MAX_APY_BPS {
        return Err(IntentError::InvalidAPY);
    }
    Ok(())
}

/// The record of a newly opened lend intent. The asset lent is both source
/// and destination; the swap venue holds its default.
pub open spec fn new_lend_intent(
    state: ProtocolState,
    authority: Pubkey,
    params: LendIntentParams,
    now: i64,
    bump: u8,
) -> IntentAccount {
    IntentAccount {
        authority,
        intent_type: IntentType::Lend,
        status: IntentStatus::Pending,
        from_mint: params.mint,
        to_mint: params.mint,
        amount: params.amount,
        protocol_fee: protocol_fee(params.amount, state.protocol_fee_bps) as u64,
        max_slippage: 0,
        min_apy: Some(params.min_apy),
        target_price: None,
        max_price_impact: None,
        execution_price: None,
        execution_apy: None,
        rugproof_enabled: false,
        selected_swap_protocol: SwapProtocol::Jupiter,
        selected_lending_protocol: Some(best_lending_protocol(params.amount)),
        created_at: now,
        expires_at: (now + INTENT_EXPIRY_SECONDS) as i64,
        executed_at: None,
        cancelled_at: None,
        bump,
    }
}

/// Opens a lend intent for `authority`. On success the new record is
/// returned and the counters of the participant and of the protocol each
/// go up by one; on refusal nothing changes.
pub fn create_lend_intent(
    protocol_state: &mut ProtocolState,
    user_account: &mut UserAccount,
    authority: Pubkey,
    params: LendIntentParams,
    now: i64,
    bump: u8,
) -> (outcome: Result<IntentAccount, IntentError>)
    requires
        old(protocol_state).wf(),
        lend_intent_refusal(*old(protocol_state), *old(user_account), params) is None ==> create_has_room(
            *old(protocol_state),
            *old(user_account),
            now,
            INTENT_EXPIRY_SECONDS,
        ),
    ensures
        match outcome {
            Ok(intent) => {
                &&& lend_intent_refusal(*old(protocol_state), *old(user_account), params) is None
                &&& intent == new_lend_intent(*old(protocol_state), authority, params, now, bump)
                &&& intent.wf()
                &&& *final(user_account) == user_after_create(*old(user_account))
                &&& *final(protocol_state) == state_after_create(*old(protocol_state))
            },
            Err(e) => {
                &&& lend_intent_refusal(*old(protocol_state), *old(user_account), params) == Some(e)
                &&& *final(user_account) == *old(user_account)
                &&& *final(protocol_state) == *old(protocol_state)
            },
        },
        final(protocol_state).wf(),
        old(user_account).wf() ==> final(user_account).wf(),
{
    match validate_lend_intent(protocol_state, user_account, &params) {
        Ok(()) => {},
        Err(e) => {
            return Err(e);
        },
    }
    proof {
        lemma_fee_at_most_amount(params.amount, protocol_state.protocol_fee_bps);
    }
    let fee: u64 = calculate_protocol_fee(params.amount, protocol_state.protocol_fee_bps);
    let selected_protocol = LendingRouter::choose_best_lending_protocol(&params.mint, params.amount);
    let intent = IntentAccount {
        authority,
        intent_type: IntentType::Lend,
        status: IntentStatus::Pending,
        from_mint: params.mint,
        to_mint: params.mint,
        amount: params.amount,
        protocol_fee: fee,
        max_slippage: 0,
        min_apy: Some(params.min_apy),
        target_price: None,
        max_price_impact: None,
        execution_price: None,
        execution_apy: None,
        rugproof_enabled: false,
        selected_swap_protocol: SwapProtocol::Jupiter,
        selected_lending_protocol: Some(selected_protocol),
        created_at: now,
        expires_at: now + INTENT_EXPIRY_SECONDS,
        executed_at: None,
        cancelled_at: None,
        bump,
    };
    user_account.active_intents = user_account.active_intents + 1;
    user_account.total_intents_created = user_account.total_intents_created + 1;
    protocol_state.total_intents_created = protocol_state.total_intents_created + 1;
    Ok(intent)
}

/// Why a buy intent is refused, if it is. The checks come in this order:
/// capacity, pause, amount, risk. `risk_score` is the score that the risk
/// service gives the asset bought.
pub open spec fn buy_intent_refusal(
    state: ProtocolState,
    user: UserAccount,
    params: BuyIntentParams,
    risk_score: u8,
) -> Option<IntentError> {
    if user.active_intents >= MAX_INTENTS_PER_USER {
        Some(IntentError::TooManyActiveIntents)
    } else if state.is_paused {
        Some(IntentError::ProtocolPaused)
    } else if params.usdc_amount == 0 {
        Some(IntentError::InvalidAmount)
    } else if risk_check_fails(params.rugproof_check, risk_score) {
        Some(IntentError::RugproofCheckFailed)
    } else {
        None
    }
}

/// Checks whether a buy intent may be opened, without changing any
/// record.
pub fn validate_buy_intent(
    state: &ProtocolState,
    user: &UserAccount,
    params: &BuyIntentParams,
    risk_score: u8,
) -> (outcome: Result<(), IntentError>)
    ensures
        outcome == match buy_intent_refusal(*state, *user, *params, risk_score) {
            Some(e) => Err::<(), IntentError>(e),
            None => Ok::<(), IntentError>(()),
        },
{
    if user.active_intents >= MAX_INTENTS_PER_USER {
        return Err(IntentError::TooManyActiveIntents);
    }
    if state.is_paused {
        return Err(IntentError::ProtocolPaused);
    }
    if params.usdc_amount == 0 {
        return Err(IntentError::InvalidAmount);
    }
    check_risk(params.rugproof_check, risk_score)
}

/// The record of a newly opened buy intent. It pays in the quote asset and
/// is routed to the aggregator.
pub open spec fn new_buy_intent(
    state: ProtocolState,
    authority: Pubkey,
    params: BuyIntentParams,
    now: i64,
    bump: u8,
) -> IntentAccount {
    IntentAccount {
        authority,
        intent_type: IntentType::Buy,
        status: IntentStatus::Pending,
        from_mint: params.usdc_mint,
        to_mint: params.mint,
        amount: params.usdc_amount,
        protocol_fee: protocol_fee(params.usdc_amount, state.protocol_fee_bps) as u64,
        max_slippage: 0,
        min_apy: None,
        target_price: params.target_price,
        max_price_impact: Some(params.max_price_impact),
        execution_price: None,
        execution_apy: None,
        rugproof_enabled: params.rugproof_check,
        selected_swap_protocol: SwapProtocol::Jupiter,
        selected_lending_protocol: None,
        created_at: now,
        expires_at: (now + INTENT_EXPIRY_SECONDS) as i64,
        executed_at: None,
        cancelled_at: None,
        bump,
    }
}

/// Opens a buy intent for `authority`. `risk_score` is the score that the
/// risk service gives the asset bought; it is read only where the intent
/// asks for the risk check. On success the new record is
/// returned and the counters of the participant and of the protocol each
/// go up by one; on refusal nothing changes.
pub fn create_buy_intent(
    protocol_state: &mut ProtocolState,
    user_account: &mut UserAccount,
    authority: Pubkey,
    params: BuyIntentParams,
    risk_score: u8,
    now: i64,
    bump: u8,
) -> (outcome: Result<IntentAccount, IntentError>)
    requires
        old(protocol_state).wf(),
        buy_intent_refusal(*old(protocol_state), *old(user_account), params, risk_score) is None ==> create_has_room(
            *old(protocol_state),
            *old(user_account),
            now,
            INTENT_EXPIRY_SECONDS,
        ),
    ensures
        match outcome {
            Ok(intent) => {
                &&& buy_intent_refusal(*old(protocol_state), *old(user_account), params, risk_score) is None
                &&& intent == new_buy_intent(*old(protocol_state), authority, params, now, bump)
                &&& intent.wf()
                &&& *final(user_account) == user_after_create(*old(user_account))
                &&& *final(protocol_state) == state_after_create(*old(protocol_state))
            },
            Err(e) => {
                &&& buy_intent_refusal(*old(protocol_state), *old(user_account), params, risk_score) == Some(e)
                &&& *final(user_account) == *old(user_account)
                &&& *final(protocol_state) == *old(protocol_state)
            },
        },
        final(protocol_state).wf(),
        old(user_account).wf() ==> final(user_account).wf(),
{
    match validate_buy_intent(protocol_state, user_account, &params, risk_score) {
        Ok(()) => {},
        Err(e) => {
            return Err(e);
        },
    }
    proof {
        lemma_fee_at_most_amount(params.usdc_amount, protocol_state.protocol_fee_bps);
    }
    let fee: u64 = calculate_protocol_fee(params.usdc_amount, protocol_state.protocol_fee_bps);
    let intent = IntentAccount {
        authority,
        intent_type: IntentType::Buy,
        status: IntentStatus::Pending,
        from_mint: params.usdc_mint,
        to_mint: params.mint,
        amount: params.usdc_amount,
        protocol_fee: fee,
        max_slippage: 0,
        min_apy: None,
        target_price: params.target_price,
        max_price_impact: Some(params.max_price_impact),
        execution_price: None,
        execution_apy: None,
        rugproof_enabled: params.rugproof_check,
        selected_swap_protocol: SwapProtocol::Jupiter,
        selected_lending_protocol: None,
        created_at: now,
        expires_at: now + INTENT_EXPIRY_SECONDS,
        executed_at: None,
        cancelled_at: None,
        bump,
    };
    user_account.active_intents = user_account.active_intents + 1;
    user_account.total_intents_created = user_account.total_intents_created + 1;
    protocol_state.total_intents_created = protocol_state.total_intents_created + 1;
    Ok(intent)
}

/// Why a cancellation is refused, if it is: the intent is no longer
/// pending, or the caller is not its owner.
pub open spec fn cancel_refusal(intent: IntentAccount, authority: Pubkey) -> Option<IntentError> {
    if intent.status != IntentStatus::Pending {
        Some(IntentError::IntentNotPending)
    } else if intent.authority@ != authority@ {
        Some(IntentError::Unauthorized)
    } else {
        None
    }
}

/// Checks whether an intent may be cancelled by `authority`, without
/// changing any record.
pub fn validate_cancel(intent: &IntentAccount, authority: &Pubkey) -> (outcome: Result<(), IntentError>)
    ensures
        outcome == match cancel_refusal(*intent, *authority) {
            Some(e) => Err::<(), IntentError>(e),
            None => Ok::<(), IntentError>(()),
        },
{
    if intent.status != IntentStatus::Pending {
        return Err(IntentError::IntentNotPending);
    }
    if !intent.authority.same_as(authority) {
        return Err(IntentError::Unauthorized);
    }
    Ok(())
}

/// An intent after its cancellation at time `now`.
pub open spec fn intent_after_cancel(intent: IntentAccount, now: i64) -> IntentAccount {
    IntentAccount { status: IntentStatus::Cancelled, cancelled_at: Some(now), ..intent }
}

/// The owner's profile after one of the owner's intents left the pending
/// state by cancellation.
pub open spec fn user_after_cancel(user: UserAccount) -> UserAccount {
    UserAccount { active_intents: (user.active_intents - 1) as u8, ..user }
}

/// Cancels a pending intent on its owner's request. On success the intent
/// is marked cancelled with the time, and the owner has one pending intent
/// fewer; on refusal nothing changes.
pub fn cancel_intent(
    intent_account: &mut IntentAccount,
    user_account: &mut UserAccount,
    authority: &Pubkey,
    now: i64,
) -> (outcome: Result<(), IntentError>)
    requires
        cancel_refusal(*old(intent_account), *authority) is None ==> old(user_account).active_intents >= 1,
    ensures
        match outcome {
            Ok(()) => {
                &&& cancel_refusal(*old(intent_account), *authority) is None
                &&& *final(intent_account) == intent_after_cancel(*old(intent_account), now)
                &&& *final(user_account) == user_after_cancel(*old(user_account))
            },
            Err(e) => {
                &&& cancel_refusal(*old(intent_account), *authority) == Some(e)
                &&& *final(intent_account) == *old(intent_account)
                &&& *final(user_account) == *old(user_account)
            },
        },
        old(intent_account).wf() ==> final(intent_account).wf(),
        old(user_account).wf() ==> final(user_account).wf(),
{
    match validate_cancel(intent_account, authority) {
        Ok(()) => {},
        Err(e) => {
            return Err(e);
        },
    }
    intent_account.status = IntentStatus::Cancelled;
    intent_account.cancelled_at = Some(now);
    user_account.active_intents = user_account.active_intents - 1;
    Ok(())
}

/// Sets the pause flag on the administrator's request. Anyone else is
/// refused and nothing changes.
fn set_paused(protocol_state: &mut ProtocolState, authority: &Pubkey, paused: bool) -> (outcome: Result<
    (),
    IntentError,
>)
    ensures
        outcome == if old(protocol_state).authority@ == authority@ {
            Ok::<(), IntentError>(())
        } else {
            Err::<(), IntentError>(IntentError::Unauthorized)
        },
        *final(protocol_state) == if old(protocol_state).authority@ == authority@ {
            ProtocolState { is_paused: paused, ..*old(protocol_state) }
        } else {
            *old(protocol_state)
        },
{
    if !protocol_state.authority.same_as(authority) {
        return Err(IntentError::Unauthorized);
    }
    protocol_state.is_paused = paused;
    Ok(())
}

/// Pauses the protocol on the administrator's request: no intent can be
/// opened until it is unpaused. Anyone else is refused and nothing changes.
pub fn pause_protocol(protocol_state: &mut ProtocolState, authority: &Pubkey) -> (outcome: Result<
    (),
    IntentError,
>)
    ensures
        outcome == if old(protocol_state).authority@ == authority@ {
            Ok::<(), IntentError>(())
        } else {
            Err::<(), IntentError>(IntentError::Unauthorized)
        },
        *final(protocol_state) == if old(protocol_state).authority@ == authority@ {
            ProtocolState { is_paused: true, ..*old(protocol_state) }
        } else {
            *old(protocol_state)
        },
{
    set_paused(protocol_state, authority, true)
}

/// Lifts the pause on the administrator's request. Anyone else is refused
/// and nothing changes.
pub fn unpause_protocol(protocol_state: &mut ProtocolState, authority: &Pubkey) -> (outcome: Result<
    (),
    IntentError,
>)
    ensures
        outcome == if old(protocol_state).authority@ == authority@ {
            Ok::<(), IntentError>(())
        } else {
            Err::<(), IntentError>(IntentError::Unauthorized)
        },
        *final(protocol_state) == if old(protocol_state).authority@ == authority@ {
            ProtocolState { is_paused: false, ..*old(protocol_state) }
        } else {
            *old(protocol_state)
        },
{
    set_paused(protocol_state, authority, false)
}

/// Opening an intent is refused at the ceiling, whatever is asked for.
pub proof fn lemma_full_profile_refuses_new_intents(
    state: ProtocolState,
    user: UserAccount,
    swap: SwapIntentParams,
    lend: LendIntentParams,
    buy: BuyIntentParams,
    risk_score: u8,
)
    requires
        user.active_intents >= MAX_INTENTS_PER_USER,
    ensures
        swap_intent_refusal(state, user, swap, risk_score) == Some(IntentError::TooManyActiveIntents),
        lend_intent_refusal(state, user, lend) == Some(IntentError::TooManyActiveIntents),
        buy_intent_refusal(state, user, buy, risk_score) == Some(IntentError::TooManyActiveIntents),
{
}

/// The risk check decides last and on the score alone. A swap or buy
/// intent that passes every other check is refused for risk exactly where
/// it asks for the check and the score is below the minimum; where it does
/// not ask for the check, no score changes the outcome.
pub proof fn lemma_risk_check_decides_on_the_score(
    state: ProtocolState,
    user: UserAccount,
    swap: SwapIntentParams,
    buy: BuyIntentParams,
    risk_score: u8,
    other_score: u8,
)
    ensures
        swap_intent_refusal(state, user, swap, MIN_RUGPROOF_SCORE) is None ==> (swap_intent_refusal(
            state,
            user,
            swap,
            risk_score,
        ) == Some(IntentError::RugproofCheckFailed) <==> swap.rugproof_enabled && risk_score
            < MIN_RUGPROOF_SCORE),
        buy_intent_refusal(state, user, buy, MIN_RUGPROOF_SCORE) is None ==> (buy_intent_refusal(
            state,
            user,
            buy,
            risk_score,
        ) == Some(IntentError::RugproofCheckFailed) <==> buy.rugproof_check && risk_score < MIN_RUGPROOF_SCORE),
        !swap.rugproof_enabled ==> swap_intent_refusal(state, user, swap, risk_score) == swap_intent_refusal(
            state,
            user,
            swap,
            other_score,
        ),
        !buy.rugproof_check ==> buy_intent_refusal(state, user, buy, risk_score) == buy_intent_refusal(
            state,
            user,
            buy,
            other_score,
        ),
{
}

/// Every newly opened intent carries the fee of its amount at the rate in
/// force: `floor(amount * fee_bps / 10000)`, which is part of the amount.
/// The fee depends on the amount and the rate alone, not on the clock, the
/// owner, the assets or any counter.
pub proof fn lemma_new_intent_carries_the_fee(
    state: ProtocolState,
    authority: Pubkey,
    swap: SwapIntentParams,
    lend: LendIntentParams,
    buy: BuyIntentParams,
    now: i64,
    bump: u8,
)
    requires
        state.wf(),
    ensures
        new_swap_intent(state, authority, swap, now, bump).protocol_fee == protocol_fee(
            swap.amount,
            state.protocol_fee_bps,
        ),
        new_lend_intent(state, authority, lend, now, bump).protocol_fee == protocol_fee(
            lend.amount,
            state.protocol_fee_bps,
        ),
        new_buy_intent(state, authority, buy, now, bump).protocol_fee == protocol_fee(
            buy.usdc_amount,
            state.protocol_fee_bps,
        ),
        new_swap_intent(state, authority, swap, now, bump).protocol_fee <= swap.amount,
        new_lend_intent(state, authority, lend, now, bump).protocol_fee <= lend.amount,
        new_buy_intent(state, authority, buy, now, bump).protocol_fee <= buy.usdc_amount,
{
    lemma_fee_at_most_amount(swap.amount, state.protocol_fee_bps);
    lemma_fee_at_most_amount(lend.amount, state.protocol_fee_bps);
    lemma_fee_at_most_amount(buy.usdc_amount, state.protocol_fee_bps);
}

/// Two intents opened for the same amount at the same rate carry the same
/// fee, whatever the clock, the owner, the assets and the counters are.
pub proof fn lemma_equal_amount_and_rate_give_equal_fee(
    state: ProtocolState,
    other_state: ProtocolState,
    authority: Pubkey,
    other_authority: Pubkey,
    swap: SwapIntentParams,
    other_swap: SwapIntentParams,
    now: i64,
    later: i64,
    bump: u8,
    other_bump: u8,
)
    requires
        swap.amount == other_swap.amount,
        state.protocol_fee_bps == other_state.protocol_fee_bps,
    ensures
        new_swap_intent(state, authority, swap, now, bump).protocol_fee == new_swap_intent(
            other_state,
            other_authority,
            other_swap,
            later,
            other_bump,
        ).protocol_fee,
{
}

/// An intent is accepted only below the ceiling, so accepting it never
/// takes the owner's pending intents above the ceiling: where no refusal
/// applies, the count goes up by exactly one and is at most the ceiling.
pub proof fn lemma_accepted_intent_keeps_the_ceiling(
    state: ProtocolState,
    user: UserAccount,
    swap: SwapIntentParams,
    lend: LendIntentParams,
    buy: BuyIntentParams,
    risk_score: u8,
)
    ensures
        swap_intent_refusal(state, user, swap, risk_score) is None || lend_intent_refusal(state, user, lend)
            is None || buy_intent_refusal(state, user, buy, risk_score) is None ==> {
            &&& user_after_create(user).active_intents == user.active_intents + 1
            &&& user_after_create(user).active_intents <= MAX_INTENTS_PER_USER
        },
{
}

} // verus!
