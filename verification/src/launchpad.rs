//! Token launches: a fundraise between a soft and a hard cap, with tokens
//! allotted at a fixed price, claimed after a successful launch and
//! refunded after a failed one.

use vstd::prelude::*;
use crate::fixed_point::{bps_share, checked_mul_div, mul_div};
use crate::pubkey::Pubkey;

verus! {

/// Why an operation on a launch was refused. Every refusal leaves all
/// records as they were.
#[derive(Clone, Copy, Debug, PartialEq, Eq, Structural)]
pub enum ErrorCode {
    LaunchpadPaused,
    InvalidSoftCap,
    InvalidHardCap,
    InvalidTokenPrice,
    InvalidMinContribution,
    InvalidMaxContribution,
    InvalidLaunchDuration,
    LaunchNotActive,
    LaunchNotStarted,
    LaunchEnded,
    ContributionTooLow,
    ContributionTooHigh,
    HardCapReached,
    NotEnoughTokens,
    LaunchStillActive,
    LaunchNotSuccessful,
    LaunchNotFailed,
    AlreadyClaimed,
    NoTokensOwed,
    NoRefundOwed,
    Unauthorized,
}

impl ErrorCode {
    /// The message shown for this refusal.
    pub fn message(&self) -> (text: &'static str)
        ensures
            text@ == error_message(*self),
    {
        match self {
            ErrorCode::LaunchpadPaused => "Launchpad is paused",
            ErrorCode::InvalidSoftCap => "Invalid soft cap",
            ErrorCode::InvalidHardCap => "Invalid hard cap",
            ErrorCode::InvalidTokenPrice => "Invalid token price",
            ErrorCode::InvalidMinContribution => "Invalid minimum contribution",
            ErrorCode::InvalidMaxContribution => "Invalid maximum contribution",
            ErrorCode::InvalidLaunchDuration => "Invalid launch duration",
            ErrorCode::LaunchNotActive => "Launch is not active",
            ErrorCode::LaunchNotStarted => "Launch has not started yet",
            ErrorCode::LaunchEnded => "Launch has ended",
            ErrorCode::ContributionTooLow => "Contribution amount is too low",
            ErrorCode::ContributionTooHigh => "Contribution amount is too high",
            ErrorCode::HardCapReached => "Hard cap has been reached",
            ErrorCode::NotEnoughTokens => "Not enough tokens available",
            ErrorCode::LaunchStillActive => "Launch is still active",
            ErrorCode::LaunchNotSuccessful => "Launch was not successful",
            ErrorCode::LaunchNotFailed => "Launch did not fail",
            ErrorCode::AlreadyClaimed => "Tokens already claimed",
            ErrorCode::NoTokensOwed => "No tokens owed",
            ErrorCode::NoRefundOwed => "No refund owed",
            ErrorCode::Unauthorized => "Unauthorized",
        }
    }
}

/// The text of each refusal.
pub open spec fn error_message(e: ErrorCode) -> Seq<char> {
    match e {
        ErrorCode::LaunchpadPaused => "Launchpad is paused"@,
        ErrorCode::InvalidSoftCap => "Invalid soft cap"@,
        ErrorCode::InvalidHardCap => "Invalid hard cap"@,
        ErrorCode::InvalidTokenPrice => "Invalid token price"@,
        ErrorCode::InvalidMinContribution => "Invalid minimum contribution"@,
        ErrorCode::InvalidMaxContribution => "Invalid maximum contribution"@,
        ErrorCode::InvalidLaunchDuration => "Invalid launch duration"@,
        ErrorCode::LaunchNotActive => "Launch is not active"@,
        ErrorCode::LaunchNotStarted => "Launch has not started yet"@,
        ErrorCode::LaunchEnded => "Launch has ended"@,
        ErrorCode::ContributionTooLow => "Contribution amount is too low"@,
        ErrorCode::ContributionTooHigh => "Contribution amount is too high"@,
        ErrorCode::HardCapReached => "Hard cap has been reached"@,
        ErrorCode::NotEnoughTokens => "Not enough tokens available"@,
        ErrorCode::LaunchStillActive => "Launch is still active"@,
        ErrorCode::LaunchNotSuccessful => "Launch was not successful"@,
        ErrorCode::LaunchNotFailed => "Launch did not fail"@,
        ErrorCode::AlreadyClaimed => "Tokens already claimed"@,
        ErrorCode::NoTokensOwed => "No tokens owed"@,
        ErrorCode::NoRefundOwed => "No refund owed"@,
        ErrorCode::Unauthorized => "Unauthorized"@,
    }
}

/// What a creator gives to open a launch.
#[derive(Clone, Debug, PartialEq, Eq)]
pub struct LaunchParams {
    pub token_name: String,
    pub token_symbol: String,
    pub token_uri: String,
    pub soft_cap: u64,
    pub hard_cap: u64,
    pub token_price: u64,
    pub tokens_for_sale: u64,
    pub min_contribution: u64,
    pub max_contribution: u64,
    pub launch_duration: i64,
}

/// The launchpad's configuration and running totals.
#[derive(Clone, Copy, Debug, PartialEq, Eq)]
pub struct LaunchpadState {
    pub authority: Pubkey,
    pub treasury_authority: Pubkey,
    pub platform_fee_bps: u16,
    pub total_launches: u64,
    pub total_raised: u64,
    pub is_paused: bool,
    pub bump: u8,
}

/// Where a launch stands.
#[derive(Clone, Copy, Debug, PartialEq, Eq, Structural)]
pub enum LaunchStatus {
    Active,
    Successful,
    Failed,
}

/// One launch.
#[derive(Clone, Debug, PartialEq, Eq)]
pub struct LaunchState {
    pub creator: Pubkey,
    pub token_mint: Pubkey,
    pub token_name: String,
    pub token_symbol: String,
    pub token_uri: String,
    pub soft_cap: u64,
    pub hard_cap: u64,
    pub token_price: u64,
    pub tokens_for_sale: u64,
    pub min_contribution: u64,
    pub max_contribution: u64,
    pub launch_start: i64,
    pub launch_end: i64,
    pub total_raised: u64,
    pub total_contributors: u32,
    pub tokens_sold: u64,
    pub status: LaunchStatus,
    pub bump: u8,
}

/// One contributor's stake in one launch.
#[derive(Clone, Copy, Debug, PartialEq, Eq)]
pub struct ContributorState {
    pub contributor: Pubkey,
    pub launch: Pubkey,
    pub total_contributed: u64,
    pub tokens_owed: u64,
    pub claimed: bool,
}

/// Notice that a launch was opened.
#[derive(Clone, Debug, PartialEq, Eq)]
pub struct TokenLaunchCreated {
    pub launch_id: Pubkey,
    pub creator: Pubkey,
    pub token_mint: Pubkey,
    pub token_name: String,
    pub token_symbol: String,
    pub soft_cap: u64,
    pub hard_cap: u64,
    pub token_price: u64,
    pub launch_end: i64,
}

/// Receipt of a contribution.
#[derive(Clone, Copy, Debug, PartialEq, Eq)]
pub struct ContributionMade {
    pub launch_id: Pubkey,
    pub contributor: Pubkey,
    pub amount: u64,
    pub tokens_received: u64,
    pub total_raised: u64,
}

/// Notice that a launch was closed.
#[derive(Clone, Copy, Debug, PartialEq, Eq)]
pub struct LaunchFinalized {
    pub launch_id: Pubkey,
    pub success: bool,
    pub total_raised: u64,
    pub tokens_sold: u64,
}

/// Receipt of a claim: the tokens to mint to the contributor.
#[derive(Clone, Copy, Debug, PartialEq, Eq)]
pub struct TokensClaimed {
    pub launch_id: Pubkey,
    pub contributor: Pubkey,
    pub tokens_claimed: u64,
}

/// Receipt of a refund: the amount to pay back to the contributor.
#[derive(Clone, Copy, Debug, PartialEq, Eq)]
pub struct RefundClaimed {
    pub launch_id: Pubkey,
    pub contributor: Pubkey,
    pub refund_amount: u64,
}

/// Receipt of a withdrawal: what goes to the creator and what to the
/// platform.
#[derive(Clone, Copy, Debug, PartialEq, Eq)]
pub struct FundsWithdrawn {
    pub launch_id: Pubkey,
    pub creator: Pubkey,
    pub amount_withdrawn: u64,
    pub platform_fee: u64,
}

/// Sets up the launchpad with the given fee rate: no launches, nothing
/// raised, not paused.
pub fn initialize_launchpad(authority: Pubkey, platform_fee_bps: u16, treasury_authority: Pubkey, bump: u8) -> (state:
    LaunchpadState)
    ensures
        state == (LaunchpadState {
            authority,
            treasury_authority,
            platform_fee_bps,
            total_launches: 0,
            total_raised: 0,
            is_paused: false,
            bump,
        }),
{
    LaunchpadState {
        authority,
        treasury_authority,
        platform_fee_bps,
        total_launches: 0,
        total_raised: 0,
        is_paused: false,
        bump,
    }
}

/// Why a launch is refused, if it is. The checks come in this order:
/// pause, soft cap, hard cap, price, least contribution, greatest
/// contribution, duration.
pub open spec fn launch_refusal(state: LaunchpadState, params: LaunchParams) -> Option<ErrorCode> {
    if state.is_paused {
        Some(ErrorCode::LaunchpadPaused)
    } else if params.soft_cap == 0 {
        Some(ErrorCode::InvalidSoftCap)
    } else if params.hard_cap <= params.soft_cap {
        Some(ErrorCode::InvalidHardCap)
    } else if params.token_price == 0 {
        Some(ErrorCode::InvalidTokenPrice)
    } else if params.min_contribution == 0 {
        Some(ErrorCode::InvalidMinContribution)
    } else if params.max_contribution < params.min_contribution {
        Some(ErrorCode::InvalidMaxContribution)
    } else if params.launch_duration <= 0 {
        Some(ErrorCode::InvalidLaunchDuration)
    } else {
        None
    }
}

/// Checks whether a launch may be opened, without changing any record.
pub fn validate_launch(state: &LaunchpadState, params: &LaunchParams) -> (outcome: Result<(), ErrorCode>)
    ensures
        outcome == match launch_refusal(*state, *params) {
            Some(e) => Err::<(), ErrorCode>(e),
            None => Ok::<(), ErrorCode>(()),
        },
{
    if state.is_paused {
        return Err(ErrorCode::LaunchpadPaused);
    }
    if params.soft_cap == 0 {
        return Err(ErrorCode::InvalidSoftCap);
    }
    if params.hard_cap <= params.soft_cap {
        return Err(ErrorCode::InvalidHardCap);
    }
    if params.token_price == 0 {
        return Err(ErrorCode::InvalidTokenPrice);
    }
    if params.min_contribution == 0 {
        return Err(ErrorCode::InvalidMinContribution);
    }
    if params.max_contribution < params.min_contribution {
        return Err(ErrorCode::InvalidMaxContribution);
    }
    if params.launch_duration <= 0 {
        return Err(ErrorCode::InvalidLaunchDuration);
    }
    Ok(())
}

/// Whether the counter and the clock leave room to open a launch.
pub open spec fn launch_has_room(state: LaunchpadState, params: LaunchParams, now: i64) -> bool {
    &&& now + params.launch_duration <= i64::MAX
    &&& state.total_launches < u64::MAX
}

/// Decides `launch_has_room` for a launch that is not refused.
pub fn launch_fits(state: &LaunchpadState, params: &LaunchParams, now: i64) -> (fits: bool)
    requires
        params.launch_duration > 0,
    ensures
        fits == launch_has_room(*state, *params, now),
{
    now <= i64::MAX - params.launch_duration && state.total_launches < u64::MAX
}

/// The record of a newly opened launch: active from `now` for the given
/// duration, with nothing raised.
pub open spec fn new_launch(params: LaunchParams, creator: Pubkey, token_mint: Pubkey, now: i64, bump: u8) -> LaunchState {
    LaunchState {
        creator,
        token_mint,
        token_name: params.token_name,
        token_symbol: params.token_symbol,
        token_uri: params.token_uri,
        soft_cap: params.soft_cap,
        hard_cap: params.hard_cap,
        token_price: params.token_price,
        tokens_for_sale: params.tokens_for_sale,
        min_contribution: params.min_contribution,
        max_contribution: params.max_contribution,
        launch_start: now,
        launch_end: (now + params.launch_duration) as i64,
        total_raised: 0,
        total_contributors: 0,
        tokens_sold: 0,
        status: LaunchStatus::Active,
        bump,
    }
}

/// Opens a launch for `creator`. On success the new record is returned and
/// the launchpad counts one launch more; on refusal nothing changes.
pub fn create_token_launch(
    launchpad_state: &mut LaunchpadState,
    creator: Pubkey,
    token_mint: Pubkey,
    launch_params: LaunchParams,
    now: i64,
    bump: u8,
) -> (outcome: Result<LaunchState, ErrorCode>)
    requires
        launch_refusal(*old(launchpad_state), launch_params) is None ==> launch_has_room(
            *old(launchpad_state),
            launch_params,
            now,
        ),
    ensures
        match outcome {
            Ok(launch) => {
                &&& launch_refusal(*old(launchpad_state), launch_params) is None
                &&& launch == new_launch(launch_params, creator, token_mint, now, bump)
                &&& *final(launchpad_state) == (LaunchpadState {
                    total_launches: (old(launchpad_state).total_launches + 1) as u64,
                    ..*old(launchpad_state)
                })
            },
            Err(e) => {
                &&& launch_refusal(*old(launchpad_state), launch_params) == Some(e)
                &&& *final(launchpad_state) == *old(launchpad_state)
            },
        },
{
    match validate_launch(launchpad_state, &launch_params) {
        Ok(()) => {},
        Err(e) => {
            return Err(e);
        },
    }
    let launch_end: i64 = now + launch_params.launch_duration;
    let launch = LaunchState {
        creator,
        token_mint,
        token_name: launch_params.token_name,
        token_symbol: launch_params.token_symbol,
        token_uri: launch_params.token_uri,
        soft_cap: launch_params.soft_cap,
        hard_cap: launch_params.hard_cap,
        token_price: launch_params.token_price,
        tokens_for_sale: launch_params.tokens_for_sale,
        min_contribution: launch_params.min_contribution,
        max_contribution: launch_params.max_contribution,
        launch_start: now,
        launch_end,
        total_raised: 0,
        total_contributors: 0,
        tokens_sold: 0,
        status: LaunchStatus::Active,
        bump,
    };
    launchpad_state.total_launches = launchpad_state.total_launches + 1;
    Ok(launch)
}

/// The notice for a launch: who opened it, for which token, between which
/// caps, at which price, and when it ends.
pub open spec fn launch_notice(launch: LaunchState, launch_id: Pubkey) -> TokenLaunchCreated {
    TokenLaunchCreated {
        launch_id,
        creator: launch.creator,
        token_mint: launch.token_mint,
        token_name: launch.token_name,
        token_symbol: launch.token_symbol,
        soft_cap: launch.soft_cap,
        hard_cap: launch.hard_cap,
        token_price: launch.token_price,
        launch_end: launch.launch_end,
    }
}

/// Writes the notice for a launch.
pub fn launch_created(launch: &LaunchState, launch_id: Pubkey) -> (notice: TokenLaunchCreated)
    ensures
        notice == launch_notice(*launch, launch_id),
{
    TokenLaunchCreated {
        launch_id,
        creator: launch.creator,
        token_mint: launch.token_mint,
        token_name: launch.token_name.clone(),
        token_symbol: launch.token_symbol.clone(),
        soft_cap: launch.soft_cap,
        hard_cap: launch.hard_cap,
        token_price: launch.token_price,
        launch_end: launch.launch_end,
    }
}

/// Ten to the power `n`.
pub open spec fn power_of_ten(n: nat) -> nat
    decreases n,
{
    if n == 0 {
        1
    } else {
        10 * power_of_ten((n - 1) as nat)
    }
}

/// Powers of ten grow with the exponent.
pub proof fn lemma_power_of_ten_grows(low: nat, high: nat)
    requires
        low <= high,
    ensures
        1 <= power_of_ten(low) <= power_of_ten(high),
    decreases high,
{
    if low == 0 {
        if high > 0 {
            lemma_power_of_ten_grows(0, (high - 1) as nat);
        }
    } else {
        lemma_power_of_ten_grows((low - 1) as nat, (high - 1) as nat);
    }
}

/// Ten to the power `decimals`, or nothing where it does not fit in 64
/// bits.
pub fn checked_power_of_ten(decimals: u8) -> (scale: Option<u64>)
    ensures
        scale == if power_of_ten(decimals as nat) <= u64::MAX {
            Some(power_of_ten(decimals as nat) as u64)
        } else {
            None::<u64>
        },
{
    let mut value: u64 = 1;
    let mut i: u8 = 0;
    while i < decimals
        invariant
            i <= decimals,
            value == power_of_ten(i as nat),
        decreases decimals - i,
    {
        if value > u64::MAX / 10 {
            proof {
                lemma_power_of_ten_grows((i + 1) as nat, decimals as nat);
            }
            return None;
        }
        value = value * 10;
        i = i + 1;
    }
    Some(value)
}

/// Tokens allotted for a contribution:
/// `floor(amount * 10^decimals / token_price)`.
pub open spec fn tokens_for(amount: u64, decimals: u8, token_price: u64) -> int {
    (amount * power_of_ten(decimals as nat)) / (token_price as int)
}

/// Whether the allotment can be computed in 64 bits: the scale and the
/// scaled amount fit, and the price is not zero.
pub open spec fn tokens_for_defined(amount: u64, decimals: u8, token_price: u64) -> bool {
    &&& power_of_ten(decimals as nat) <= u64::MAX
    &&& amount * power_of_ten(decimals as nat) <= u64::MAX
    &&& token_price != 0
}

/// Computes the allotment for a contribution, or nothing where it cannot
/// be computed in 64 bits.
pub fn checked_tokens_for(amount: u64, decimals: u8, token_price: u64) -> (tokens: Option<u64>)
    ensures
        tokens == if tokens_for_defined(amount, decimals, token_price) {
            Some(tokens_for(amount, decimals, token_price) as u64)
        } else {
            None::<u64>
        },
        tokens is Some ==> tokens->0 == tokens_for(amount, decimals, token_price),
{
    let scale: u64 = match checked_power_of_ten(decimals) {
        Some(s) => s,
        None => {
            return None;
        },
    };
    let scaled: u64 = match amount.checked_mul(scale) {
        Some(s) => s,
        None => {
            return None;
        },
    };
    if token_price == 0 {
        return None;
    }
    Some(scaled / token_price)
}

/// Why a contribution is refused before its allotment is computed, if it
/// is. The checks come in this order: status, start, end, least
/// contribution, greatest contribution per contributor, hard cap.
pub open spec fn contribution_entry_refusal(launch: LaunchState, contributor: ContributorState, amount: u64, now: i64) -> Option<
    ErrorCode,
> {
    if launch.status != LaunchStatus::Active {
        Some(ErrorCode::LaunchNotActive)
    } else if now < launch.launch_start {
        Some(ErrorCode::LaunchNotStarted)
    } else if now > launch.launch_end {
        Some(ErrorCode::LaunchEnded)
    } else if amount < launch.min_contribution {
        Some(ErrorCode::ContributionTooLow)
    } else if contributor.total_contributed + amount > launch.max_contribution {
        Some(ErrorCode::ContributionTooHigh)
    } else if launch.total_raised + amount > launch.hard_cap {
        Some(ErrorCode::HardCapReached)
    } else {
        None
    }
}

/// Checks a contribution before its allotment is computed, without
/// changing any record.
pub fn validate_contribution_entry(
    launch: &LaunchState,
    contributor: &ContributorState,
    amount: u64,
    now: i64,
) -> (outcome: Result<(), ErrorCode>)
    ensures
        outcome == match contribution_entry_refusal(*launch, *contributor, amount, now) {
            Some(e) => Err::<(), ErrorCode>(e),
            None => Ok::<(), ErrorCode>(()),
        },
{
    if launch.status != LaunchStatus::Active {
        return Err(ErrorCode::LaunchNotActive);
    }
    if now < launch.launch_start {
        return Err(ErrorCode::LaunchNotStarted);
    }
    if now > launch.launch_end {
        return Err(ErrorCode::LaunchEnded);
    }
    if amount < launch.min_contribution {
        return Err(ErrorCode::ContributionTooLow);
    }
    if contributor.total_contributed > launch.max_contribution || amount > launch.max_contribution
        - contributor.total_contributed {
        return Err(ErrorCode::ContributionTooHigh);
    }
    if launch.total_raised > launch.hard_cap || amount > launch.hard_cap - launch.total_raised {
        return Err(ErrorCode::HardCapReached);
    }
    Ok(())
}

/// Why a contribution is refused, if it is: on entry, or because the
/// launch has not enough tokens left for its allotment.
pub open spec fn contribution_refusal(
    launch: LaunchState,
    contributor: ContributorState,
    amount: u64,
    decimals: u8,
    now: i64,
) -> Option<ErrorCode> {
    match contribution_entry_refusal(launch, contributor, amount, now) {
        Some(e) => Some(e),
        None => if launch.tokens_sold + tokens_for(amount, decimals, launch.token_price) > launch.tokens_for_sale {
            Some(ErrorCode::NotEnoughTokens)
        } else {
            None
        },
    }
}

/// Checks a contribution and computes its allotment, without changing any
/// record.
pub fn quote_contribution(
    launch: &LaunchState,
    contributor: &ContributorState,
    decimals: u8,
    amount: u64,
    now: i64,
) -> (outcome: Result<u64, ErrorCode>)
    requires
        contribution_entry_refusal(*launch, *contributor, amount, now) is None ==> tokens_for_defined(
            amount,
            decimals,
            launch.token_price,
        ),
    ensures
        outcome == match contribution_refusal(*launch, *contributor, amount, decimals, now) {
            Some(e) => Err::<u64, ErrorCode>(e),
            None => Ok::<u64, ErrorCode>(tokens_for(amount, decimals, launch.token_price) as u64),
        },
{
    match validate_contribution_entry(launch, contributor, amount, now) {
        Ok(()) => {},
        Err(e) => {
            return Err(e);
        },
    }
    let tokens_to_receive: u64 = checked_tokens_for(amount, decimals, launch.token_price).unwrap();
    if launch.tokens_sold > launch.tokens_for_sale || tokens_to_receive > launch.tokens_for_sale
        - launch.tokens_sold {
        return Err(ErrorCode::NotEnoughTokens);
    }
    Ok(tokens_to_receive)
}

/// Whether the counters leave room to record a contribution.
pub open spec fn contribution_has_room(
    launch: LaunchState,
    contributor: ContributorState,
    launchpad: LaunchpadState,
    amount: u64,
    decimals: u8,
) -> bool {
    &&& contributor.tokens_owed + tokens_for(amount, decimals, launch.token_price) <= u64::MAX
    &&& contributor.total_contributed == 0 ==> launch.total_contributors < u32::MAX
    &&& launchpad.total_raised + amount <= u64::MAX
}

/// Decides whether the counters leave room to record a contribution with
/// the given allotment.
pub fn contribution_fits(
    launch: &LaunchState,
    contributor: &ContributorState,
    launchpad: &LaunchpadState,
    amount: u64,
    tokens: u64,
) -> (fits: bool)
    ensures
        fits == {
            &&& contributor.tokens_owed + tokens <= u64::MAX
            &&& contributor.total_contributed == 0 ==> launch.total_contributors < u32::MAX
            &&& launchpad.total_raised + amount <= u64::MAX
        },
{
    contributor.tokens_owed <= u64::MAX - tokens && (contributor.total_contributed != 0
        || launch.total_contributors < u32::MAX) && launchpad.total_raised <= u64::MAX - amount
}

/// A contributor's stake after a contribution.
pub open spec fn contributor_after(
    contributor: ContributorState,
    contributor_key: Pubkey,
    launch_id: Pubkey,
    amount: u64,
    tokens: u64,
) -> ContributorState {
    ContributorState {
        contributor: contributor_key,
        launch: launch_id,
        total_contributed: (contributor.total_contributed + amount) as u64,
        tokens_owed: (contributor.tokens_owed + tokens) as u64,
        claimed: false,
    }
}

/// A launch after a contribution; a first contribution counts a new
/// contributor.
pub open spec fn launch_after_contribution(launch: LaunchState, first: bool, amount: u64, tokens: u64) -> LaunchState {
    LaunchState {
        total_raised: (launch.total_raised + amount) as u64,
        tokens_sold: (launch.tokens_sold + tokens) as u64,
        total_contributors: if first {
            (launch.total_contributors + 1) as u32
        } else {
            launch.total_contributors
        },
        ..launch
    }
}

/// Takes a contribution to an active launch. On success the contributor is
/// allotted tokens at the launch's price, the totals of the contributor,
/// the launch and the launchpad go up, and the receipt names the amount
/// and the allotment. On refusal nothing changes.
pub fn contribute_to_launch(
    launch_state: &mut LaunchState,
    contributor_state: &mut ContributorState,
    launchpad_state: &mut LaunchpadState,
    launch_id: Pubkey,
    contributor: Pubkey,
    decimals: u8,
    amount: u64,
    now: i64,
) -> (outcome: Result<ContributionMade, ErrorCode>)
    requires
        contribution_entry_refusal(*old(launch_state), *old(contributor_state), amount, now) is None
            ==> tokens_for_defined(amount, decimals, old(launch_state).token_price),
        contribution_refusal(*old(launch_state), *old(contributor_state), amount, decimals, now) is None
            ==> contribution_has_room(
            *old(launch_state),
            *old(contributor_state),
            *old(launchpad_state),
            amount,
            decimals,
        ),
    ensures
        match contribution_refusal(*old(launch_state), *old(contributor_state), amount, decimals, now) {
            None => {
                let tokens = tokens_for(amount, decimals, old(launch_state).token_price) as u64;
                &&& outcome == Ok::<ContributionMade, ErrorCode>(
                    ContributionMade {
                        launch_id,
                        contributor,
                        amount,
                        tokens_received: tokens,
                        total_raised: (old(launch_state).total_raised + amount) as u64,
                    },
                )
                &&& *final(contributor_state) == contributor_after(
                    *old(contributor_state),
                    contributor,
                    launch_id,
                    amount,
                    tokens,
                )
                &&& *final(launch_state) == launch_after_contribution(
                    *old(launch_state),
                    old(contributor_state).total_contributed == 0,
                    amount,
                    tokens,
                )
                &&& *final(launchpad_state) == (LaunchpadState {
                    total_raised: (old(launchpad_state).total_raised + amount) as u64,
                    ..*old(launchpad_state)
                })
                &&& final(launch_state).total_raised <= final(launch_state).hard_cap
                &&& final(launch_state).tokens_sold <= final(launch_state).tokens_for_sale
                &&& final(contributor_state).total_contributed <= final(launch_state).max_contribution
            },
            Some(e) => {
                &&& outcome == Err::<ContributionMade, ErrorCode>(e)
                &&& *final(contributor_state) == *old(contributor_state)
                &&& *final(launch_state) == *old(launch_state)
                &&& *final(launchpad_state) == *old(launchpad_state)
            },
        },
{
    let tokens_to_receive: u64 = match quote_contribution(launch_state, contributor_state, decimals, amount, now) {
        Ok(tokens) => tokens,
        Err(e) => {
            return Err(e);
        },
    };
    let is_new_contributor: bool = contributor_state.total_contributed == 0;
    contributor_state.contributor = contributor;
    contributor_state.launch = launch_id;
    contributor_state.total_contributed = contributor_state.total_contributed + amount;
    contributor_state.tokens_owed = contributor_state.tokens_owed + tokens_to_receive;
    contributor_state.claimed = false;
    launch_state.total_raised = launch_state.total_raised + amount;
    launch_state.tokens_sold = launch_state.tokens_sold + tokens_to_receive;
    if is_new_contributor {
        launch_state.total_contributors = launch_state.total_contributors + 1;
    }
    launchpad_state.total_raised = launchpad_state.total_raised + amount;
    Ok(
        ContributionMade {
            launch_id,
            contributor,
            amount,
            tokens_received: tokens_to_receive,
            total_raised: launch_state.total_raised,
        },
    )
}

/// Why a launch cannot be closed at time `now`, if it cannot: it is closed
/// already, or it still runs and has not reached its hard cap.
pub open spec fn finalize_refusal(launch: LaunchState, now: i64) -> Option<ErrorCode> {
    if launch.status != LaunchStatus::Active {
        Some(ErrorCode::LaunchNotActive)
    } else if !(now > launch.launch_end || launch.total_raised >= launch.hard_cap) {
        Some(ErrorCode::LaunchStillActive)
    } else {
        None
    }
}

/// How a launch ends: successful where it raised its soft cap, failed
/// otherwise.
pub open spec fn final_status(launch: LaunchState) -> LaunchStatus {
    if launch.total_raised >= launch.soft_cap {
        LaunchStatus::Successful
    } else {
        LaunchStatus::Failed
    }
}

/// Closes a launch that has run out or reached its hard cap. On success
/// the launch is marked successful or failed and the notice says which; on
/// refusal nothing changes.
pub fn finalize_launch(launch_state: &mut LaunchState, launch_id: Pubkey, now: i64) -> (outcome: Result<
    LaunchFinalized,
    ErrorCode,
>)
    ensures
        match finalize_refusal(*old(launch_state), now) {
            None => {
                &&& outcome == Ok::<LaunchFinalized, ErrorCode>(
                    LaunchFinalized {
                        launch_id,
                        success: final_status(*old(launch_state)) == LaunchStatus::Successful,
                        total_raised: old(launch_state).total_raised,
                        tokens_sold: old(launch_state).tokens_sold,
                    },
                )
                &&& *final(launch_state) == (LaunchState {
                    status: final_status(*old(launch_state)),
                    ..*old(launch_state)
                })
            },
            Some(e) => {
                &&& outcome == Err::<LaunchFinalized, ErrorCode>(e)
                &&& *final(launch_state) == *old(launch_state)
            },
        },
{
    if launch_state.status != LaunchStatus::Active {
        return Err(ErrorCode::LaunchNotActive);
    }
    if !(now > launch_state.launch_end || launch_state.total_raised >= launch_state.hard_cap) {
        return Err(ErrorCode::LaunchStillActive);
    }
    let success: bool = launch_state.total_raised >= launch_state.soft_cap;
    if success {
        launch_state.status = LaunchStatus::Successful;
    } else {
        launch_state.status = LaunchStatus::Failed;
    }
    Ok(
        LaunchFinalized {
            launch_id,
            success,
            total_raised: launch_state.total_raised,
            tokens_sold: launch_state.tokens_sold,
        },
    )
}

/// Why a claim of tokens is refused, if it is: the launch did not succeed,
/// the stake was claimed already, or no tokens are owed.
pub open spec fn claim_refusal(launch: LaunchState, contributor: ContributorState) -> Option<ErrorCode> {
    if launch.status != LaunchStatus::Successful {
        Some(ErrorCode::LaunchNotSuccessful)
    } else if contributor.claimed {
        Some(ErrorCode::AlreadyClaimed)
    } else if contributor.tokens_owed == 0 {
        Some(ErrorCode::NoTokensOwed)
    } else {
        None
    }
}

/// Claims the tokens owed after a successful launch. On success the stake
/// is marked claimed and the receipt names the tokens to mint; on refusal
/// nothing changes.
pub fn claim_tokens(launch_state: &LaunchState, contributor_state: &mut ContributorState, launch_id: Pubkey) -> (outcome:
    Result<TokensClaimed, ErrorCode>)
    ensures
        match claim_refusal(*launch_state, *old(contributor_state)) {
            None => {
                &&& outcome == Ok::<TokensClaimed, ErrorCode>(
                    TokensClaimed {
                        launch_id,
                        contributor: old(contributor_state).contributor,
                        tokens_claimed: old(contributor_state).tokens_owed,
                    },
                )
                &&& *final(contributor_state) == (ContributorState { claimed: true, ..*old(contributor_state) })
            },
            Some(e) => {
                &&& outcome == Err::<TokensClaimed, ErrorCode>(e)
                &&& *final(contributor_state) == *old(contributor_state)
            },
        },
{
    if launch_state.status != LaunchStatus::Successful {
        return Err(ErrorCode::LaunchNotSuccessful);
    }
    if contributor_state.claimed {
        return Err(ErrorCode::AlreadyClaimed);
    }
    if contributor_state.tokens_owed == 0 {
        return Err(ErrorCode::NoTokensOwed);
    }
    contributor_state.claimed = true;
    Ok(
        TokensClaimed {
            launch_id,
            contributor: contributor_state.contributor,
            tokens_claimed: contributor_state.tokens_owed,
        },
    )
}

/// Why a refund is refused, if it is: the launch did not fail, the stake
/// was claimed already, or nothing was contributed.
pub open spec fn refund_refusal(launch: LaunchState, contributor: ContributorState) -> Option<ErrorCode> {
    if launch.status != LaunchStatus::Failed {
        Some(ErrorCode::LaunchNotFailed)
    } else if contributor.claimed {
        Some(ErrorCode::AlreadyClaimed)
    } else if contributor.total_contributed == 0 {
        Some(ErrorCode::NoRefundOwed)
    } else {
        None
    }
}

/// Claims the refund owed after a failed launch. On success the stake is
/// marked claimed and the receipt names the amount to pay back; on refusal
/// nothing changes.
pub fn claim_refund(launch_state: &LaunchState, contributor_state: &mut ContributorState, launch_id: Pubkey) -> (outcome:
    Result<RefundClaimed, ErrorCode>)
    ensures
        match refund_refusal(*launch_state, *old(contributor_state)) {
            None => {
                &&& outcome == Ok::<RefundClaimed, ErrorCode>(
                    RefundClaimed {
                        launch_id,
                        contributor: old(contributor_state).contributor,
                        refund_amount: old(contributor_state).total_contributed,
                    },
                )
                &&& *final(contributor_state) == (ContributorState { claimed: true, ..*old(contributor_state) })
            },
            Some(e) => {
                &&& outcome == Err::<RefundClaimed, ErrorCode>(e)
                &&& *final(contributor_state) == *old(contributor_state)
            },
        },
{
    if launch_state.status != LaunchStatus::Failed {
        return Err(ErrorCode::LaunchNotFailed);
    }
    if contributor_state.claimed {
        return Err(ErrorCode::AlreadyClaimed);
    }
    if contributor_state.total_contributed == 0 {
        return Err(ErrorCode::NoRefundOwed);
    }
    contributor_state.claimed = true;
    Ok(
        RefundClaimed {
            launch_id,
            contributor: contributor_state.contributor,
            refund_amount: contributor_state.total_contributed,
        },
    )
}

/// Why a withdrawal is refused, if it is: the launch did not succeed, or
/// the caller is not its creator.
pub open spec fn withdraw_refusal(launch: LaunchState, creator: Pubkey) -> Option<ErrorCode> {
    if launch.status != LaunchStatus::Successful {
        Some(ErrorCode::LaunchNotSuccessful)
    } else if launch.creator@ != creator@ {
        Some(ErrorCode::Unauthorized)
    } else {
        None
    }
}

/// Checks whether `creator` may withdraw what a launch raised.
pub fn validate_withdrawal(launch: &LaunchState, creator: &Pubkey) -> (outcome: Result<(), ErrorCode>)
    ensures
        outcome == match withdraw_refusal(*launch, *creator) {
            Some(e) => Err::<(), ErrorCode>(e),
            None => Ok::<(), ErrorCode>(()),
        },
{
    if launch.status != LaunchStatus::Successful {
        return Err(ErrorCode::LaunchNotSuccessful);
    }
    if !launch.creator.same_as(creator) {
        return Err(ErrorCode::Unauthorized);
    }
    Ok(())
}

/// The platform's fee on what a launch raised:
/// `floor(total_raised * platform_fee_bps / 10000)`.
pub open spec fn platform_fee(launch: LaunchState, launchpad: LaunchpadState) -> int {
    bps_share(launch.total_raised as int, launchpad.platform_fee_bps as int)
}

/// Whether what a launch raised can be split: where the withdrawal is not
/// refused, the platform's fee is part of what was raised.
pub open spec fn withdrawal_has_room(launch: LaunchState, launchpad: LaunchpadState, creator: Pubkey) -> bool {
    withdraw_refusal(launch, creator) is None ==> platform_fee(launch, launchpad) <= launch.total_raised
}

/// Decides `withdrawal_has_room`.
pub fn withdrawal_fits(launch: &LaunchState, launchpad: &LaunchpadState, creator: &Pubkey) -> (fits: bool)
    ensures
        fits == withdrawal_has_room(*launch, *launchpad, *creator),
{
    match validate_withdrawal(launch, creator) {
        Ok(()) => {},
        Err(_) => {
            return true;
        },
    }
    match checked_mul_div(launch.total_raised, launchpad.platform_fee_bps as u64, 10000) {
        Some(fee) => fee <= launch.total_raised,
        None => false,
    }
}

/// Splits what a successful launch raised between its creator and the
/// platform. Nothing is changed: the receipt names the two amounts, which
/// add up to what was raised.
pub fn withdraw_funds(launch_state: &LaunchState, launchpad_state: &LaunchpadState, launch_id: Pubkey, creator: Pubkey) -> (outcome:
    Result<FundsWithdrawn, ErrorCode>)
    requires
        withdrawal_has_room(*launch_state, *launchpad_state, creator),
    ensures
        match withdraw_refusal(*launch_state, creator) {
            None => {
                &&& outcome == Ok::<FundsWithdrawn, ErrorCode>(
                    FundsWithdrawn {
                        launch_id,
                        creator,
                        amount_withdrawn: (launch_state.total_raised - platform_fee(
                            *launch_state,
                            *launchpad_state,
                        )) as u64,
                        platform_fee: platform_fee(*launch_state, *launchpad_state) as u64,
                    },
                )
                &&& outcome->Ok_0.amount_withdrawn + outcome->Ok_0.platform_fee == launch_state.total_raised
            },
            Some(e) => outcome == Err::<FundsWithdrawn, ErrorCode>(e),
        },
{
    match validate_withdrawal(launch_state, &creator) {
        Ok(()) => {},
        Err(e) => {
            return Err(e);
        },
    }
    let total_amount: u64 = launch_state.total_raised;
    let platform_fee: u64 = mul_div(total_amount, launchpad_state.platform_fee_bps as u64, 10000);
    let creator_amount: u64 = total_amount - platform_fee;
    Ok(FundsWithdrawn { launch_id, creator, amount_withdrawn: creator_amount, platform_fee })
}

} // verus!
