//! Settlement: an intent is held to its status, its expiry and the venue
//! it was routed to, priced from what the venue reports, and recorded.
//!
//! A settlement first validates and prices without touching a record, and
//! commits only when nothing is left to fail. A refusal changes nothing
//! and yields no receipt, so nothing is owed to the treasury.

use vstd::prelude::*;
use crate::errors::IntentError;
use crate::fixed_point::{lemma_mul_div_at_most, mul_div, mul_div_floor};
use crate::integrations::jupiter::{execute_jupiter_swap, quote_outcome, JupiterSwapData, JupiterSwapParams};
use crate::integrations::raydium::{
    calculate_raydium_output,
    directed_quote,
    directed_quote_defined,
    execute_raydium_swap,
    slippage_checked,
    try_calculate_raydium_output,
    RaydiumPoolInfo,
    RaydiumSwapParams,
    RAYDIUM_FEE_DENOMINATOR,
    RAYDIUM_FEE_NUMERATOR,
};
use crate::integrations::SwapProtocol;
use crate::lending_integrations::port_finance::{
    execute_port_lend,
    port_apy_computable,
    port_apy_defined,
    port_lending_apy,
    PortLendParams,
    PortReserve,
};
use crate::lending_integrations::solend::{
    execute_solend_lend,
    reserve_apy_computable,
    reserve_apy_defined,
    reserve_lending_apy,
    SolendLendParams,
    SolendReserve,
};
use crate::lending_integrations::{lend_outcome, LendingProtocol};
use crate::pubkey::Pubkey;
use crate::registry::{cancel_refusal, intent_after_cancel, user_after_cancel, user_after_create};
use crate::state::{
    IntentAccount,
    IntentStatus,
    LendIntentExecuted,
    ProtocolState,
    SwapIntentExecuted,
    UserAccount,
    MAX_INTENTS_PER_USER,
};

verus! {

/// Why an intent cannot be executed at time `now`, whatever the venue: it
/// is no longer pending, or its expiry time has been reached. Expiry is
/// found here and nowhere else; it is never written to the record.
pub open spec fn execution_refusal(intent: IntentAccount, now: i64) -> Option<IntentError> {
    if intent.status != IntentStatus::Pending {
        Some(IntentError::IntentNotPending)
    } else if now >= intent.expires_at {
        Some(IntentError::IntentExpired)
    } else {
        None
    }
}

/// Why a swap intent cannot be settled against `venue` at time `now`: it
/// cannot be executed at all, or it was routed to another venue.
pub open spec fn swap_route_refusal(intent: IntentAccount, now: i64, venue: SwapProtocol) -> Option<IntentError> {
    match execution_refusal(intent, now) {
        Some(e) => Some(e),
        None => if intent.selected_swap_protocol != venue {
            Some(IntentError::WrongProtocol)
        } else {
            None
        },
    }
}

/// Why a lend intent cannot be settled against `venue` at time `now`: it
/// cannot be executed at all, or it was routed to another venue or to none.
pub open spec fn lend_route_refusal(intent: IntentAccount, now: i64, venue: LendingProtocol) -> Option<
    IntentError,
> {
    match execution_refusal(intent, now) {
        Some(e) => Some(e),
        None => if intent.selected_lending_protocol != Some(venue) {
            Some(IntentError::WrongProtocol)
        } else {
            None
        },
    }
}

/// Checks that an intent is pending and not expired.
pub fn ensure_executable(intent: &IntentAccount, now: i64) -> (outcome: Result<(), IntentError>)
    ensures
        outcome == match execution_refusal(*intent, now) {
            Some(e) => Err::<(), IntentError>(e),
            None => Ok::<(), IntentError>(()),
        },
{
    if intent.status != IntentStatus::Pending {
        return Err(IntentError::IntentNotPending);
    }
    if now >= intent.expires_at {
        return Err(IntentError::IntentExpired);
    }
    Ok(())
}

/// Checks that a swap intent can be settled against `venue` now.
pub fn ensure_swap_route(intent: &IntentAccount, now: i64, venue: SwapProtocol) -> (outcome: Result<
    (),
    IntentError,
>)
    ensures
        outcome == match swap_route_refusal(*intent, now, venue) {
            Some(e) => Err::<(), IntentError>(e),
            None => Ok::<(), IntentError>(()),
        },
{
    match ensure_executable(intent, now) {
        Ok(()) => {},
        Err(e) => {
            return Err(e);
        },
    }
    if intent.selected_swap_protocol != venue {
        return Err(IntentError::WrongProtocol);
    }
    Ok(())
}

/// Checks that a lend intent can be settled against `venue` now.
pub fn ensure_lend_route(intent: &IntentAccount, now: i64, venue: LendingProtocol) -> (outcome: Result<
    (),
    IntentError,
>)
    ensures
        outcome == match lend_route_refusal(*intent, now, venue) {
            Some(e) => Err::<(), IntentError>(e),
            None => Ok::<(), IntentError>(()),
        },
{
    match ensure_executable(intent, now) {
        Ok(()) => {},
        Err(e) => {
            return Err(e);
        },
    }
    match intent.selected_lending_protocol {
        Some(selected) => {
            if selected != venue {
                return Err(IntentError::WrongProtocol);
            }
        },
        None => {
            return Err(IntentError::WrongProtocol);
        },
    }
    Ok(())
}

/// The least output a swap must deliver:
/// `floor(base_output * (10000 - max_slippage_bps) / 10000)`.
pub open spec fn minimum_amount_out(base_output: int, max_slippage_bps: u16) -> int {
    mul_div_floor(base_output, 10000 - max_slippage_bps, 10000)
}

/// Whether the counters leave room to record the settlement of an intent.
pub open spec fn settlement_has_room(state: ProtocolState, user: UserAccount, intent: IntentAccount) -> bool {
    &&& user.active_intents >= 1
    &&& user.total_volume + intent.amount <= u64::MAX
    &&& state.total_intents_executed < u64::MAX
    &&& state.total_fees_collected + intent.protocol_fee <= u64::MAX
}

/// Decides whether the counters leave room to record a settlement.
pub fn settlement_fits(state: &ProtocolState, user: &UserAccount, intent: &IntentAccount) -> (fits: bool)
    ensures
        fits == settlement_has_room(*state, *user, *intent),
{
    user.active_intents >= 1 && user.total_volume <= u64::MAX - intent.amount && state.total_intents_executed
        < u64::MAX && state.total_fees_collected <= u64::MAX - intent.protocol_fee
}

/// The owner's profile after one of the owner's intents was settled: one
/// pending intent fewer, and the intent's principal added to the volume.
pub open spec fn user_after_settlement(user: UserAccount, intent: IntentAccount) -> UserAccount {
    UserAccount {
        active_intents: (user.active_intents - 1) as u8,
        total_volume: (user.total_volume + intent.amount) as u64,
        ..user
    }
}

/// The protocol's totals after an intent was settled: one more executed,
/// and the intent's fee added to the fees collected.
pub open spec fn state_after_settlement(state: ProtocolState, intent: IntentAccount) -> ProtocolState {
    ProtocolState {
        total_intents_executed: (state.total_intents_executed + 1) as u64,
        total_fees_collected: (state.total_fees_collected + intent.protocol_fee) as u64,
        ..state
    }
}

/// A swap intent after its settlement at time `now` for `amount_out`.
pub open spec fn intent_after_swap(intent: IntentAccount, amount_out: u64, now: i64) -> IntentAccount {
    IntentAccount {
        status: IntentStatus::Executed,
        executed_at: Some(now),
        execution_price: Some(amount_out),
        ..intent
    }
}

/// A lend intent after its settlement at time `now` at yield `apy`.
pub open spec fn intent_after_lend(intent: IntentAccount, apy: u16, now: i64) -> IntentAccount {
    IntentAccount { status: IntentStatus::Executed, executed_at: Some(now), execution_apy: Some(apy), ..intent }
}

/// The receipt of a settled swap.
pub open spec fn swap_receipt(
    intent: IntentAccount,
    intent_id: Pubkey,
    user: Pubkey,
    protocol: SwapProtocol,
    amount_out: u64,
) -> SwapIntentExecuted {
    SwapIntentExecuted {
        intent_id,
        user,
        protocol,
        from_mint: intent.from_mint,
        to_mint: intent.to_mint,
        amount_in: intent.net_amount() as u64,
        amount_out,
        protocol_fee: intent.protocol_fee,
    }
}

/// The receipt of a settled lend.
pub open spec fn lend_receipt(
    intent: IntentAccount,
    intent_id: Pubkey,
    user: Pubkey,
    protocol: LendingProtocol,
    apy: u16,
) -> LendIntentExecuted {
    LendIntentExecuted {
        intent_id,
        user,
        mint: intent.from_mint,
        amount: intent.net_amount() as u64,
        apy,
        protocol,
        protocol_fee: intent.protocol_fee,
    }
}

/// Records a settlement in the counters of the owner and of the protocol.
fn record_settlement(protocol_state: &mut ProtocolState, user_account: &mut UserAccount, intent: &IntentAccount)
    requires
        settlement_has_room(*old(protocol_state), *old(user_account), *intent),
    ensures
        *final(user_account) == user_after_settlement(*old(user_account), *intent),
        *final(protocol_state) == state_after_settlement(*old(protocol_state), *intent),
{
    user_account.active_intents = user_account.active_intents - 1;
    user_account.total_volume = user_account.total_volume + intent.amount;
    protocol_state.total_intents_executed = protocol_state.total_intents_executed + 1;
    protocol_state.total_fees_collected = protocol_state.total_fees_collected + intent.protocol_fee;
}

/// What settling a swap intent against the aggregator comes to: a refusal
/// of the route, a refusal of the quote, or the quoted output. The quote
/// must be for the intent's net amount and its slippage bound.
pub open spec fn jupiter_swap_outcome(
    intent: IntentAccount,
    quoted_in_amount: u64,
    quoted_slippage_bps: u16,
    quoted_out_amount: u64,
    now: i64,
) -> Result<u64, IntentError> {
    match swap_route_refusal(intent, now, SwapProtocol::Jupiter) {
        Some(e) => Err(e),
        None => quote_outcome(
            intent.net_amount() as u64,
            intent.max_slippage,
            quoted_in_amount,
            quoted_slippage_bps,
            quoted_out_amount,
        ),
    }
}

/// Validates a swap intent against the aggregator's quote without changing
/// any record.
pub fn quote_swap_jupiter(intent: &IntentAccount, jupiter_swap_data: &JupiterSwapData, now: i64) -> (outcome:
    Result<u64, IntentError>)
    requires
        intent.wf(),
    ensures
        outcome == jupiter_swap_outcome(
            *intent,
            jupiter_swap_data.in_amount,
            jupiter_swap_data.slippage_bps,
            jupiter_swap_data.quoted_out_amount,
            now,
        ),
        outcome is Ok ==> outcome->Ok_0 >= minimum_amount_out(
            jupiter_swap_data.quoted_out_amount as int,
            intent.max_slippage,
        ),
{
    proof {
        lemma_mul_div_at_most(
            jupiter_swap_data.quoted_out_amount as int,
            10000 - intent.max_slippage,
            10000,
        );
    }
    match ensure_swap_route(intent, now, SwapProtocol::Jupiter) {
        Ok(()) => {},
        Err(e) => {
            return Err(e);
        },
    }
    let net_amount: u64 = intent.amount - intent.protocol_fee;
    let swap_params = JupiterSwapParams {
        from_mint: intent.from_mint,
        to_mint: intent.to_mint,
        amount: net_amount,
        slippage_bps: intent.max_slippage,
        platform_fee_bps: 0,
    };
    execute_jupiter_swap(swap_params, jupiter_swap_data)
}

/// Settles a swap intent against the aggregator. On success the intent is
/// marked executed with the time and the quoted output, the owner's and
/// the protocol's counters are updated, and the receipt names the fee for
/// the treasury and the net amount for the venue. On refusal nothing
/// changes and no receipt exists, so nothing is owed to the treasury.
pub fn execute_swap_intent_jupiter(
    intent_account: &mut IntentAccount,
    protocol_state: &mut ProtocolState,
    user_account: &mut UserAccount,
    intent_id: Pubkey,
    user: Pubkey,
    jupiter_swap_data: JupiterSwapData,
    now: i64,
) -> (outcome: Result<SwapIntentExecuted, IntentError>)
    requires
        old(intent_account).wf(),
        jupiter_swap_outcome(
            *old(intent_account),
            jupiter_swap_data.in_amount,
            jupiter_swap_data.slippage_bps,
            jupiter_swap_data.quoted_out_amount,
            now,
        ) is Ok ==> settlement_has_room(*old(protocol_state), *old(user_account), *old(intent_account)),
    ensures
        match jupiter_swap_outcome(
            *old(intent_account),
            jupiter_swap_data.in_amount,
            jupiter_swap_data.slippage_bps,
            jupiter_swap_data.quoted_out_amount,
            now,
        ) {
            Ok(amount_out) => {
                &&& outcome == Ok::<SwapIntentExecuted, IntentError>(
                    swap_receipt(*old(intent_account), intent_id, user, SwapProtocol::Jupiter, amount_out),
                )
                &&& *final(intent_account) == intent_after_swap(*old(intent_account), amount_out, now)
                &&& *final(user_account) == user_after_settlement(*old(user_account), *old(intent_account))
                &&& *final(protocol_state) == state_after_settlement(
                    *old(protocol_state),
                    *old(intent_account),
                )
            },
            Err(e) => {
                &&& outcome == Err::<SwapIntentExecuted, IntentError>(e)
                &&& *final(intent_account) == *old(intent_account)
                &&& *final(user_account) == *old(user_account)
                &&& *final(protocol_state) == *old(protocol_state)
            },
        },
        final(intent_account).wf(),
        old(user_account).wf() ==> final(user_account).wf(),
        old(protocol_state).wf() ==> final(protocol_state).wf(),
{
    let amount_out: u64 = match quote_swap_jupiter(intent_account, &jupiter_swap_data, now) {
        Ok(out) => out,
        Err(e) => {
            return Err(e);
        },
    };
    let receipt = SwapIntentExecuted {
        intent_id,
        user,
        protocol: SwapProtocol::Jupiter,
        from_mint: intent_account.from_mint,
        to_mint: intent_account.to_mint,
        amount_in: intent_account.amount - intent_account.protocol_fee,
        amount_out,
        protocol_fee: intent_account.protocol_fee,
    };
    record_settlement(protocol_state, user_account, intent_account);
    intent_account.status = IntentStatus::Executed;
    intent_account.executed_at = Some(now);
    intent_account.execution_price = Some(amount_out);
    Ok(receipt)
}

/// Whether the price needed to settle a swap intent against a pool can be
/// computed: where the route is open, the formula can be evaluated for the
/// net amount in the direction the intent pays in.
pub open spec fn raydium_pricing_defined(intent: IntentAccount, pool: RaydiumPoolInfo, now: i64) -> bool {
    swap_route_refusal(intent, now, SwapProtocol::Raydium) is None ==> directed_quote_defined(
        intent.net_amount() as u64,
        intent.from_mint,
        pool,
    )
}

/// Decides `raydium_pricing_defined`.
pub fn raydium_pricing_computable(intent: &IntentAccount, pool_info: &RaydiumPoolInfo, now: i64) -> (computable:
    bool)
    requires
        intent.wf(),
    ensures
        computable == raydium_pricing_defined(*intent, *pool_info, now),
{
    match ensure_swap_route(intent, now, SwapProtocol::Raydium) {
        Ok(()) => {},
        Err(_) => {
            return true;
        },
    }
    let net_amount: u64 = intent.amount - intent.protocol_fee;
    let pays_coin: bool = intent.from_mint.same_as(&pool_info.coin_mint_address);
    let (reserve_in, reserve_out) = if pays_coin {
        (pool_info.pool_coin_amount, pool_info.pool_pc_amount)
    } else {
        (pool_info.pool_pc_amount, pool_info.pool_coin_amount)
    };
    try_calculate_raydium_output(
        net_amount,
        reserve_in,
        reserve_out,
        RAYDIUM_FEE_NUMERATOR,
        RAYDIUM_FEE_DENOMINATOR,
    ).is_some()
}

/// What settling a swap intent against a pool comes to: a refusal of the
/// route, a refusal for slippage, or the output. The output is the price
/// of the net amount in the direction the intent pays in, so the reserve of
/// the asset paid in is the input reserve. The least acceptable output is
/// that price less the intent's slippage bound.
pub open spec fn raydium_swap_outcome(intent: IntentAccount, pool: RaydiumPoolInfo, now: i64) -> Result<
    u64,
    IntentError,
> {
    match swap_route_refusal(intent, now, SwapProtocol::Raydium) {
        Some(e) => Err(e),
        None => slippage_checked(
            directed_quote(intent.net_amount() as u64, intent.from_mint, pool),
            minimum_amount_out(
                directed_quote(intent.net_amount() as u64, intent.from_mint, pool),
                intent.max_slippage,
            ) as u64,
        ),
    }
}

/// Prices a swap intent against a pool and holds the output to the intent's
/// slippage bound, without changing any record. Where the route is open the
/// intent settles for the pool's price: a price taken from the same
/// reserves always meets its own bound.
pub fn quote_swap_raydium(intent: &IntentAccount, pool_id: Pubkey, pool_info: RaydiumPoolInfo, now: i64) -> (outcome:
    Result<u64, IntentError>)
    requires
        intent.wf(),
        raydium_pricing_defined(*intent, pool_info, now),
    ensures
        outcome == raydium_swap_outcome(*intent, pool_info, now),
        swap_route_refusal(*intent, now, SwapProtocol::Raydium) is None ==> outcome == Ok::<u64, IntentError>(
            directed_quote(intent.net_amount() as u64, intent.from_mint, pool_info) as u64,
        ),
{
    match ensure_swap_route(intent, now, SwapProtocol::Raydium) {
        Ok(()) => {},
        Err(e) => {
            return Err(e);
        },
    }
    let net_amount: u64 = intent.amount - intent.protocol_fee;
    let pays_coin: bool = intent.from_mint.same_as(&pool_info.coin_mint_address);
    let base_output: u64 = match calculate_raydium_output(
        net_amount,
        if pays_coin {
            pool_info.pool_coin_amount
        } else {
            pool_info.pool_pc_amount
        },
        if pays_coin {
            pool_info.pool_pc_amount
        } else {
            pool_info.pool_coin_amount
        },
        RAYDIUM_FEE_NUMERATOR,
        RAYDIUM_FEE_DENOMINATOR,
    ) {
        Ok(out) => out,
        Err(e) => {
            return Err(e);
        },
    };
    let slippage_multiplier: u64 = 10000 - (intent.max_slippage as u64);
    proof {
        lemma_mul_div_at_most(base_output as int, slippage_multiplier as int, 10000);
    }
    let minimum: u64 = mul_div(base_output, slippage_multiplier, 10000);
    let swap_params = RaydiumSwapParams {
        pool_id,
        from_mint: intent.from_mint,
        to_mint: intent.to_mint,
        amount_in: net_amount,
        minimum_amount_out: minimum,
    };
    execute_raydium_swap(swap_params, pool_info)
}

/// Settles a swap intent against a pool. On success the intent is marked
/// executed with the time and the output, the owner's and the protocol's
/// counters are updated, and the receipt names the fee for the treasury and
/// the net amount for the venue. On refusal nothing changes and no receipt
/// exists, so nothing is owed to the treasury.
pub fn execute_swap_intent_raydium(
    intent_account: &mut IntentAccount,
    protocol_state: &mut ProtocolState,
    user_account: &mut UserAccount,
    intent_id: Pubkey,
    user: Pubkey,
    pool_id: Pubkey,
    pool_info: RaydiumPoolInfo,
    now: i64,
) -> (outcome: Result<SwapIntentExecuted, IntentError>)
    requires
        old(intent_account).wf(),
        raydium_pricing_defined(*old(intent_account), pool_info, now),
        raydium_swap_outcome(*old(intent_account), pool_info, now) is Ok ==> settlement_has_room(
            *old(protocol_state),
            *old(user_account),
            *old(intent_account),
        ),
    ensures
        match raydium_swap_outcome(*old(intent_account), pool_info, now) {
            Ok(amount_out) => {
                &&& outcome == Ok::<SwapIntentExecuted, IntentError>(
                    swap_receipt(*old(intent_account), intent_id, user, SwapProtocol::Raydium, amount_out),
                )
                &&& *final(intent_account) == intent_after_swap(*old(intent_account), amount_out, now)
                &&& *final(user_account) == user_after_settlement(*old(user_account), *old(intent_account))
                &&& *final(protocol_state) == state_after_settlement(
                    *old(protocol_state),
                    *old(intent_account),
                )
            },
            Err(e) => {
                &&& outcome == Err::<SwapIntentExecuted, IntentError>(e)
                &&& *final(intent_account) == *old(intent_account)
                &&& *final(user_account) == *old(user_account)
                &&& *final(protocol_state) == *old(protocol_state)
            },
        },
        final(intent_account).wf(),
        old(user_account).wf() ==> final(user_account).wf(),
        old(protocol_state).wf() ==> final(protocol_state).wf(),
{
    let amount_out: u64 = match quote_swap_raydium(intent_account, pool_id, pool_info, now) {
        Ok(out) => out,
        Err(e) => {
            return Err(e);
        },
    };
    let receipt = SwapIntentExecuted {
        intent_id,
        user,
        protocol: SwapProtocol::Raydium,
        from_mint: intent_account.from_mint,
        to_mint: intent_account.to_mint,
        amount_in: intent_account.amount - intent_account.protocol_fee,
        amount_out,
        protocol_fee: intent_account.protocol_fee,
    };
    record_settlement(protocol_state, user_account, intent_account);
    intent_account.status = IntentStatus::Executed;
    intent_account.executed_at = Some(now);
    intent_account.execution_price = Some(amount_out);
    Ok(receipt)
}

/// What settling a lend intent against the first venue comes to: a refusal
/// of the route, a refusal by the venue, or the yield.
pub open spec fn solend_lend_outcome(intent: IntentAccount, reserve: SolendReserve, now: i64) -> Result<
    u16,
    IntentError,
> {
    match lend_route_refusal(intent, now, LendingProtocol::Solend) {
        Some(e) => Err(e),
        None => lend_outcome(intent, reserve.liquidity.mint_pubkey, reserve_lending_apy(reserve) as u16),
    }
}

/// Whether the yield of a reserve is needed to settle an intent against the
/// first venue, and can be computed if so.
pub open spec fn solend_pricing_defined(intent: IntentAccount, reserve: SolendReserve, now: i64) -> bool {
    lend_route_refusal(intent, now, LendingProtocol::Solend) is None && reserve.liquidity.mint_pubkey@
        == intent.from_mint@ ==> reserve_apy_defined(reserve)
}

/// Decides `solend_pricing_defined`.
pub fn solend_pricing_computable(intent: &IntentAccount, reserve_data: &SolendReserve, now: i64) -> (computable:
    bool)
    ensures
        computable == solend_pricing_defined(*intent, *reserve_data, now),
{
    match ensure_lend_route(intent, now, LendingProtocol::Solend) {
        Ok(()) => {},
        Err(_) => {
            return true;
        },
    }
    if !reserve_data.liquidity.mint_pubkey.same_as(&intent.from_mint) {
        return true;
    }
    reserve_apy_computable(reserve_data)
}

/// Validates a lend intent against a reserve of the first venue without
/// changing any record.
pub fn quote_lend_solend(
    intent: &IntentAccount,
    reserve: Pubkey,
    lending_market: Pubkey,
    reserve_data: SolendReserve,
    now: i64,
) -> (outcome: Result<u16, IntentError>)
    requires
        intent.wf(),
        solend_pricing_defined(*intent, reserve_data, now),
    ensures
        outcome == solend_lend_outcome(*intent, reserve_data, now),
{
    match ensure_lend_route(intent, now, LendingProtocol::Solend) {
        Ok(()) => {},
        Err(e) => {
            return Err(e);
        },
    }
    let net_amount: u64 = intent.amount - intent.protocol_fee;
    let lend_params = SolendLendParams {
        reserve,
        lending_market,
        amount: net_amount,
        expected_apy: match intent.min_apy {
            Some(apy) => apy,
            None => 0,
        },
    };
    execute_solend_lend(intent, lend_params, reserve_data)
}

/// Settles a lend intent against the first venue. On success the intent is
/// marked executed with the time and the yield, the owner's and the
/// protocol's counters are updated, and the receipt names the fee for the
/// treasury and the net amount for the venue's receiving account. On
/// refusal nothing changes and no receipt exists.
pub fn execute_lend_intent_solend(
    intent_account: &mut IntentAccount,
    protocol_state: &mut ProtocolState,
    user_account: &mut UserAccount,
    intent_id: Pubkey,
    user: Pubkey,
    reserve: Pubkey,
    lending_market: Pubkey,
    reserve_data: SolendReserve,
    now: i64,
) -> (outcome: Result<LendIntentExecuted, IntentError>)
    requires
        old(intent_account).wf(),
        solend_pricing_defined(*old(intent_account), reserve_data, now),
        solend_lend_outcome(*old(intent_account), reserve_data, now) is Ok ==> settlement_has_room(
            *old(protocol_state),
            *old(user_account),
            *old(intent_account),
        ),
    ensures
        match solend_lend_outcome(*old(intent_account), reserve_data, now) {
            Ok(apy) => {
                &&& outcome == Ok::<LendIntentExecuted, IntentError>(
                    lend_receipt(*old(intent_account), intent_id, user, LendingProtocol::Solend, apy),
                )
                &&& *final(intent_account) == intent_after_lend(*old(intent_account), apy, now)
                &&& *final(user_account) == user_after_settlement(*old(user_account), *old(intent_account))
                &&& *final(protocol_state) == state_after_settlement(
                    *old(protocol_state),
                    *old(intent_account),
                )
            },
            Err(e) => {
                &&& outcome == Err::<LendIntentExecuted, IntentError>(e)
                &&& *final(intent_account) == *old(intent_account)
                &&& *final(user_account) == *old(user_account)
                &&& *final(protocol_state) == *old(protocol_state)
            },
        },
        final(intent_account).wf(),
        old(user_account).wf() ==> final(user_account).wf(),
        old(protocol_state).wf() ==> final(protocol_state).wf(),
{
    let apy: u16 = match quote_lend_solend(intent_account, reserve, lending_market, reserve_data, now) {
        Ok(apy) => apy,
        Err(e) => {
            return Err(e);
        },
    };
    let receipt = LendIntentExecuted {
        intent_id,
        user,
        mint: intent_account.from_mint,
        amount: intent_account.amount - intent_account.protocol_fee,
        apy,
        protocol: LendingProtocol::Solend,
        protocol_fee: intent_account.protocol_fee,
    };
    record_settlement(protocol_state, user_account, intent_account);
    intent_account.status = IntentStatus::Executed;
    intent_account.executed_at = Some(now);
    intent_account.execution_apy = Some(apy);
    Ok(receipt)
}

/// What settling a lend intent against the second venue comes to: a
/// refusal of the route, a refusal by the venue, or the yield.
pub open spec fn port_lend_outcome(intent: IntentAccount, reserve: PortReserve, now: i64) -> Result<
    u16,
    IntentError,
> {
    match lend_route_refusal(intent, now, LendingProtocol::PortFinance) {
        Some(e) => Err(e),
        None => lend_outcome(intent, reserve.liquidity.mint_pubkey, port_lending_apy(reserve) as u16),
    }
}

/// Whether the yield of a reserve is needed to settle an intent against the
/// second venue, and can be computed if so.
pub open spec fn port_pricing_defined(intent: IntentAccount, reserve: PortReserve, now: i64) -> bool {
    lend_route_refusal(intent, now, LendingProtocol::PortFinance) is None && reserve.liquidity.mint_pubkey@
        == intent.from_mint@ ==> port_apy_defined(reserve)
}

/// Decides `port_pricing_defined`.
pub fn port_pricing_computable(intent: &IntentAccount, reserve_data: &PortReserve, now: i64) -> (computable: bool)
    ensures
        computable == port_pricing_defined(*intent, *reserve_data, now),
{
    match ensure_lend_route(intent, now, LendingProtocol::PortFinance) {
        Ok(()) => {},
        Err(_) => {
            return true;
        },
    }
    if !reserve_data.liquidity.mint_pubkey.same_as(&intent.from_mint) {
        return true;
    }
    port_apy_computable(reserve_data)
}

/// Validates a lend intent against a reserve of the second venue without
/// changing any record.
pub fn quote_lend_port(
    intent: &IntentAccount,
    reserve: Pubkey,
    staking_pool: Pubkey,
    reserve_data: PortReserve,
    now: i64,
) -> (outcome: Result<u16, IntentError>)
    requires
        intent.wf(),
        port_pricing_defined(*intent, reserve_data, now),
    ensures
        outcome == port_lend_outcome(*intent, reserve_data, now),
{
    match ensure_lend_route(intent, now, LendingProtocol::PortFinance) {
        Ok(()) => {},
        Err(e) => {
            return Err(e);
        },
    }
    let net_amount: u64 = intent.amount - intent.protocol_fee;
    let lend_params = PortLendParams {
        reserve,
        staking_pool,
        amount: net_amount,
        expected_apy: match intent.min_apy {
            Some(apy) => apy,
            None => 0,
        },
    };
    execute_port_lend(intent, lend_params, reserve_data)
}

/// Settles a lend intent against the second venue. On success the intent
/// is marked executed with the time and the yield, the owner's and the
/// protocol's counters are updated, and the receipt names the fee for the
/// treasury and the net amount for the venue's receiving account. On
/// refusal nothing changes and no receipt exists.
pub fn execute_lend_intent_port(
    intent_account: &mut IntentAccount,
    protocol_state: &mut ProtocolState,
    user_account: &mut UserAccount,
    intent_id: Pubkey,
    user: Pubkey,
    reserve: Pubkey,
    staking_pool: Pubkey,
    reserve_data: PortReserve,
    now: i64,
) -> (outcome: Result<LendIntentExecuted, IntentError>)
    requires
        old(intent_account).wf(),
        port_pricing_defined(*old(intent_account), reserve_data, now),
        port_lend_outcome(*old(intent_account), reserve_data, now) is Ok ==> settlement_has_room(
            *old(protocol_state),
            *old(user_account),
            *old(intent_account),
        ),
    ensures
        match port_lend_outcome(*old(intent_account), reserve_data, now) {
            Ok(apy) => {
                &&& outcome == Ok::<LendIntentExecuted, IntentError>(
                    lend_receipt(*old(intent_account), intent_id, user, LendingProtocol::PortFinance, apy),
                )
                &&& *final(intent_account) == intent_after_lend(*old(intent_account), apy, now)
                &&& *final(user_account) == user_after_settlement(*old(user_account), *old(intent_account))
                &&& *final(protocol_state) == state_after_settlement(
                    *old(protocol_state),
                    *old(intent_account),
                )
            },
            Err(e) => {
                &&& outcome == Err::<LendIntentExecuted, IntentError>(e)
                &&& *final(intent_account) == *old(intent_account)
                &&& *final(user_account) == *old(user_account)
                &&& *final(protocol_state) == *old(protocol_state)
            },
        },
        final(intent_account).wf(),
        old(user_account).wf() ==> final(user_account).wf(),
        old(protocol_state).wf() ==> final(protocol_state).wf(),
{
    let apy: u16 = match quote_lend_port(intent_account, reserve, staking_pool, reserve_data, now) {
        Ok(apy) => apy,
        Err(e) => {
            return Err(e);
        },
    };
    let receipt = LendIntentExecuted {
        intent_id,
        user,
        mint: intent_account.from_mint,
        amount: intent_account.amount - intent_account.protocol_fee,
        apy,
        protocol: LendingProtocol::PortFinance,
        protocol_fee: intent_account.protocol_fee,
    };
    record_settlement(protocol_state, user_account, intent_account);
    intent_account.status = IntentStatus::Executed;
    intent_account.executed_at = Some(now);
    intent_account.execution_apy = Some(apy);
    Ok(receipt)
}

/// An intent that is no longer pending is final: cancelling it and
/// settling it against any venue are all refused as not pending, whoever
/// asks, whenever, and whatever the venue reports.
pub proof fn lemma_terminal_intent_is_final(
    intent: IntentAccount,
    authority: Pubkey,
    now: i64,
    quoted_in_amount: u64,
    quoted_slippage_bps: u16,
    quoted_out_amount: u64,
    pool: RaydiumPoolInfo,
    solend_reserve: SolendReserve,
    port_reserve: PortReserve,
)
    requires
        intent.status != IntentStatus::Pending,
    ensures
        cancel_refusal(intent, authority) == Some(IntentError::IntentNotPending),
        execution_refusal(intent, now) == Some(IntentError::IntentNotPending),
        jupiter_swap_outcome(intent, quoted_in_amount, quoted_slippage_bps, quoted_out_amount, now) == Err::<
            u64,
            IntentError,
        >(IntentError::IntentNotPending),
        raydium_swap_outcome(intent, pool, now) == Err::<u64, IntentError>(IntentError::IntentNotPending),
        solend_lend_outcome(intent, solend_reserve, now) == Err::<u16, IntentError>(
            IntentError::IntentNotPending,
        ),
        port_lend_outcome(intent, port_reserve, now) == Err::<u16, IntentError>(IntentError::IntentNotPending),
{
}

/// Cancelling twice fails the second time: once an intent was cancelled,
/// cancelling it again is refused as not pending, whoever asks, and so is
/// settling it against any venue.
pub proof fn lemma_cancel_twice_is_refused(
    intent: IntentAccount,
    authority: Pubkey,
    now: i64,
    later_authority: Pubkey,
    later: i64,
    quoted_in_amount: u64,
    quoted_slippage_bps: u16,
    quoted_out_amount: u64,
    pool: RaydiumPoolInfo,
    solend_reserve: SolendReserve,
    port_reserve: PortReserve,
)
    requires
        cancel_refusal(intent, authority) is None,
    ensures
        cancel_refusal(intent_after_cancel(intent, now), later_authority) == Some(
            IntentError::IntentNotPending,
        ),
        jupiter_swap_outcome(
            intent_after_cancel(intent, now),
            quoted_in_amount,
            quoted_slippage_bps,
            quoted_out_amount,
            later,
        ) == Err::<u64, IntentError>(IntentError::IntentNotPending),
        raydium_swap_outcome(intent_after_cancel(intent, now), pool, later) == Err::<u64, IntentError>(
            IntentError::IntentNotPending,
        ),
        solend_lend_outcome(intent_after_cancel(intent, now), solend_reserve, later) == Err::<u16, IntentError>(
            IntentError::IntentNotPending,
        ),
        port_lend_outcome(intent_after_cancel(intent, now), port_reserve, later) == Err::<u16, IntentError>(
            IntentError::IntentNotPending,
        ),
{
    lemma_terminal_intent_is_final(
        intent_after_cancel(intent, now),
        later_authority,
        later,
        quoted_in_amount,
        quoted_slippage_bps,
        quoted_out_amount,
        pool,
        solend_reserve,
        port_reserve,
    );
}

/// Executing twice fails the second time: once an intent was settled, as a
/// swap or as a lend, settling it again against any venue is refused as
/// not pending, whatever the venue reports, and so is cancelling it.
pub proof fn lemma_execute_twice_is_refused(
    intent: IntentAccount,
    amount_out: u64,
    apy: u16,
    now: i64,
    later_authority: Pubkey,
    later: i64,
    quoted_in_amount: u64,
    quoted_slippage_bps: u16,
    quoted_out_amount: u64,
    pool: RaydiumPoolInfo,
    solend_reserve: SolendReserve,
    port_reserve: PortReserve,
)
    ensures
        jupiter_swap_outcome(
            intent_after_swap(intent, amount_out, now),
            quoted_in_amount,
            quoted_slippage_bps,
            quoted_out_amount,
            later,
        ) == Err::<u64, IntentError>(IntentError::IntentNotPending),
        raydium_swap_outcome(intent_after_swap(intent, amount_out, now), pool, later) == Err::<u64, IntentError>(
            IntentError::IntentNotPending,
        ),
        solend_lend_outcome(intent_after_lend(intent, apy, now), solend_reserve, later) == Err::<
            u16,
            IntentError,
        >(IntentError::IntentNotPending),
        port_lend_outcome(intent_after_lend(intent, apy, now), port_reserve, later) == Err::<u16, IntentError>(
            IntentError::IntentNotPending,
        ),
        cancel_refusal(intent_after_swap(intent, amount_out, now), later_authority) == Some(
            IntentError::IntentNotPending,
        ),
        cancel_refusal(intent_after_lend(intent, apy, now), later_authority) == Some(
            IntentError::IntentNotPending,
        ),
{
    lemma_terminal_intent_is_final(
        intent_after_swap(intent, amount_out, now),
        later_authority,
        later,
        quoted_in_amount,
        quoted_slippage_bps,
        quoted_out_amount,
        pool,
        solend_reserve,
        port_reserve,
    );
    lemma_terminal_intent_is_final(
        intent_after_lend(intent, apy, now),
        later_authority,
        later,
        quoted_in_amount,
        quoted_slippage_bps,
        quoted_out_amount,
        pool,
        solend_reserve,
        port_reserve,
    );
}

/// The status `Expired` is never stored: a settlement leaves an intent
/// executed and a cancellation leaves it cancelled, whatever it was before.
/// An intent past its expiry time stays as it is and is refused when
/// executed.
pub proof fn lemma_expired_is_never_stored(intent: IntentAccount, amount_out: u64, apy: u16, now: i64)
    ensures
        intent_after_swap(intent, amount_out, now).status == IntentStatus::Executed,
        intent_after_lend(intent, apy, now).status == IntentStatus::Executed,
        intent_after_cancel(intent, now).status == IntentStatus::Cancelled,
        intent.status == IntentStatus::Pending && now >= intent.expires_at ==> execution_refusal(intent, now)
            == Some(IntentError::IntentExpired),
{
}

/// The number of pending intents stays between zero and the ceiling. A
/// profile within the ceiling stays within it when an intent is opened,
/// which is allowed only below the ceiling, and when one is settled or
/// cancelled, which takes exactly one off a count of at least one.
pub proof fn lemma_active_intents_within_ceiling(user: UserAccount, intent: IntentAccount)
    requires
        user.wf(),
    ensures
        user.active_intents < MAX_INTENTS_PER_USER ==> {
            &&& user_after_create(user).active_intents == user.active_intents + 1
            &&& user_after_create(user).wf()
        },
        user.active_intents >= 1 ==> {
            &&& user_after_settlement(user, intent).active_intents == user.active_intents - 1
            &&& user_after_settlement(user, intent).wf()
            &&& user_after_cancel(user).active_intents == user.active_intents - 1
            &&& user_after_cancel(user).wf()
        },
{
}

} // verus!
