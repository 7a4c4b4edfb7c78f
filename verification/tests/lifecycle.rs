use intentfi::registry::{cancel_intent, create_buy_intent, create_lend_intent, create_swap_intent, initialize_protocol, initialize_user, pause_protocol, perform_rugproof_check, require_rugproof_score, unpause_protocol};
use intentfi::settlement::{ensure_executable, ensure_lend_route, ensure_swap_route, execute_lend_intent_port, execute_lend_intent_solend, execute_swap_intent_jupiter, execute_swap_intent_raydium, quote_lend_port, quote_lend_solend, quote_swap_jupiter, quote_swap_raydium, settlement_fits};
use intentfi::errors::IntentError;
use intentfi::integrations::jupiter::JupiterSwapData;
use intentfi::integrations::raydium::RaydiumPoolInfo;
use intentfi::integrations::SwapProtocol;
use intentfi::lending_integrations::port_finance::{PortCollateral, PortConfig, PortLiquidity, PortReserve};
use intentfi::lending_integrations::solend::{
    ReserveCollateral, ReserveConfig, ReserveFees, ReserveLiquidity, SolendReserve,
};
use intentfi::lending_integrations::LendingProtocol;
use intentfi::pubkey::Pubkey;
use intentfi::state::{
    BuyIntentParams, IntentAccount, IntentStatus, IntentType, LendIntentExecuted, LendIntentParams,
    ProtocolState, SwapIntentExecuted, SwapIntentParams, UserAccount,
};

const NOW: i64 = 1_700_000_000;
const WEEK: i64 = 604_800;

fn key(b: u8) -> Pubkey {
    Pubkey::new_from_array([b; 32])
}

fn owner() -> Pubkey {
    key(200)
}

fn fresh() -> (ProtocolState, UserAccount) {
    (initialize_protocol(key(9), key(8), 255), initialize_user(owner(), 254))
}

fn swap_params(from: u8, to: u8, amount: u64, max_slippage: u16) -> SwapIntentParams {
    SwapIntentParams { from_mint: key(from), to_mint: key(to), amount, max_slippage, rugproof_enabled: true }
}

fn quote(in_amount: u64, out: u64, slippage_bps: u16) -> JupiterSwapData {
    JupiterSwapData {
        route_plan: Vec::new(),
        in_amount,
        quoted_out_amount: out,
        slippage_bps,
        platform_fee_bps: 0,
    }
}

fn pool(coin_mint: u8, coin: u64, pc: u64) -> RaydiumPoolInfo {
    RaydiumPoolInfo {
        status: 1,
        nonce: 0,
        order_num: 0,
        depth: 0,
        coin_decimals: 9,
        pc_decimals: 6,
        state: 1,
        reset_flag: 0,
        min_size: 0,
        vol_max_cut_ratio: 0,
        amount_wave_ratio: 0,
        coin_lot_size: 1,
        pc_lot_size: 1,
        min_price_multiplier: 1,
        max_price_multiplier: 1,
        sys_decimal_value: 1,
        pool_coin_token_account: key(40),
        pool_pc_token_account: key(41),
        coin_mint_address: key(coin_mint),
        pc_mint_address: key(42),
        lp_mint_address: key(43),
        amm_open_orders: key(44),
        serum_market: key(45),
        serum_program_id: key(46),
        amm_target_orders: key(47),
        pool_withdraw_queue: key(48),
        pool_temp_lp_token_account: key(49),
        amm_owner: key(50),
        pool_coin_amount: coin,
        pool_pc_amount: pc,
    }
}

fn solend_reserve(mint: u8, available: u64, borrowed: u128) -> SolendReserve {
    SolendReserve {
        version: 1,
        last_update: 0,
        lending_market: key(60),
        liquidity: ReserveLiquidity {
            mint_pubkey: key(mint),
            mint_decimals: 6,
            supply_pubkey: key(61),
            fee_receiver: key(62),
            oracle_pubkey: key(63),
            available_amount: available,
            borrowed_amount_wads: borrowed,
            cumulative_borrow_rate_wads: 0,
            market_price: 0,
        },
        collateral: ReserveCollateral { mint_pubkey: key(64), mint_total_supply: 0, supply_pubkey: key(65) },
        config: ReserveConfig {
            optimal_utilization_rate: 80,
            loan_to_value_ratio: 75,
            liquidation_bonus: 5,
            liquidation_threshold: 80,
            min_borrow_rate: 20,
            optimal_borrow_rate: 100,
            max_borrow_rate: 250,
            fees: ReserveFees { borrow_fee_wad: 0, flash_loan_fee_wad: 0, host_fee_percentage: 0 },
        },
    }
}

fn port_reserve(mint: u8, available: u64, borrowed: u64) -> PortReserve {
    PortReserve {
        is_initialized: true,
        lending_market: key(70),
        liquidity: PortLiquidity {
            mint_pubkey: key(mint),
            supply_pubkey: key(71),
            fee_receiver: key(72),
            oracle_pubkey: key(73),
            available_amount: available,
            borrowed_amount: borrowed,
            cumulative_borrow_rate: 0,
            market_price: 0,
        },
        collateral: PortCollateral { mint_pubkey: key(74), supply_pubkey: key(75), total_supply: 0 },
        config: PortConfig {
            optimal_utilization_rate: 80,
            max_borrow_rate: 250,
            loan_to_value_ratio: 75,
            liquidation_bonus: 5,
            liquidation_threshold: 80,
            min_borrow_rate: 20,
            optimal_borrow_rate: 100,
            borrow_fee_rate: 0,
        },
        last_update: 0,
    }
}

#[test]
fn protocol_starts_with_the_standard_fee_and_no_totals() {
    let state = initialize_protocol(key(9), key(8), 255);
    assert_eq!(
        state,
        ProtocolState {
            authority: key(9),
            treasury_authority: key(8),
            protocol_fee_bps: 30,
            total_fees_collected: 0,
            total_intents_created: 0,
            total_intents_executed: 0,
            is_paused: false,
            bump: 255,
        }
    );
}

#[test]
fn user_starts_without_intents() {
    let user = initialize_user(owner(), 7);
    assert_eq!(
        user,
        UserAccount {
            authority: owner(),
            active_intents: 0,
            total_intents_created: 0,
            total_volume: 0,
            rugproof_enabled: true,
            bump: 7,
        }
    );
}

#[test]
fn swap_intent_snapshots_fee_venue_and_expiry() {
    let (mut state, mut user) = fresh();
    let intent = create_swap_intent(&mut state, &mut user, owner(), swap_params(0, 1, 100_000, 100), 95, NOW, 3).unwrap();
    assert_eq!(
        intent,
        IntentAccount {
            authority: owner(),
            intent_type: IntentType::Swap,
            status: IntentStatus::Pending,
            from_mint: key(0),
            to_mint: key(1),
            amount: 100_000,
            protocol_fee: 300,
            max_slippage: 100,
            min_apy: None,
            target_price: None,
            max_price_impact: None,
            execution_price: None,
            execution_apy: None,
            rugproof_enabled: true,
            selected_swap_protocol: SwapProtocol::Raydium,
            selected_lending_protocol: None,
            created_at: NOW,
            expires_at: NOW + WEEK,
            executed_at: None,
            cancelled_at: None,
            bump: 3,
        }
    );
    assert_eq!(user.active_intents, 1);
    assert_eq!(user.total_intents_created, 1);
    assert_eq!(state.total_intents_created, 1);
    assert_eq!(state.total_fees_collected, 0);
}

#[test]
fn fee_is_fixed_when_the_intent_is_opened() {
    let (mut state, mut user) = fresh();
    state.protocol_fee_bps = 100;
    let intent = create_swap_intent(&mut state, &mut user, owner(), swap_params(0, 1, 100_000, 100), 95, NOW, 3).unwrap();
    assert_eq!(intent.protocol_fee, 1_000);
    state.protocol_fee_bps = 30;
    let mut settled = intent;
    let receipt =
        execute_swap_intent_raydium(&mut settled, &mut state, &mut user, key(77), owner(), key(78), pool(0, 1_000_000, 2_000_000), NOW + 1)
            .unwrap();
    assert_eq!(receipt.protocol_fee, 1_000);
    assert_eq!(receipt.amount_in, 99_000);
    assert_eq!(state.total_fees_collected, 1_000);
}

#[test]
fn swap_intent_is_refused_at_the_ceiling_and_nothing_changes() {
    let (mut state, mut user) = fresh();
    user.active_intents = 50;
    user.total_intents_created = 599;
    state.total_intents_created = 599;
    let before_state = state;
    let before_user = user;
    let outcome = create_swap_intent(&mut state, &mut user, owner(), swap_params(0, 1, 100_000, 100), 95, NOW, 3);
    assert_eq!(outcome, Err(IntentError::TooManyActiveIntents));
    assert_eq!(state, before_state);
    assert_eq!(user, before_user);
    let lend = LendIntentParams { mint: key(1), amount: 5, min_apy: 1 };
    assert_eq!(
        create_lend_intent(&mut state, &mut user, owner(), lend, NOW, 3),
        Err(IntentError::TooManyActiveIntents)
    );
    let buy = BuyIntentParams {
        mint: key(3),
        usdc_mint: key(1),
        usdc_amount: 5,
        target_price: None,
        max_price_impact: 0,
        rugproof_check: false,
    };
    assert_eq!(
        create_buy_intent(&mut state, &mut user, owner(), buy, 95, NOW, 3),
        Err(IntentError::TooManyActiveIntents)
    );
    assert_eq!(state, before_state);
    assert_eq!(user, before_user);
}

#[test]
fn fiftieth_intent_is_accepted_and_the_next_refused() {
    let (mut state, mut user) = fresh();
    user.active_intents = 49;
    assert!(create_swap_intent(&mut state, &mut user, owner(), swap_params(0, 1, 10, 0), 95, NOW, 3).is_ok());
    assert_eq!(user.active_intents, 50);
    assert_eq!(
        create_swap_intent(&mut state, &mut user, owner(), swap_params(0, 1, 10, 0), 95, NOW, 3),
        Err(IntentError::TooManyActiveIntents)
    );
    assert_eq!(user.active_intents, 50);
}

#[test]
fn swap_intent_refusals_come_in_order() {
    let (mut state, mut user) = fresh();
    state.is_paused = true;
    user.active_intents = 50;
    assert_eq!(
        create_swap_intent(&mut state, &mut user, owner(), swap_params(0, 1, 0, 6_000), 95, NOW, 3),
        Err(IntentError::TooManyActiveIntents)
    );
    user.active_intents = 0;
    assert_eq!(
        create_swap_intent(&mut state, &mut user, owner(), swap_params(0, 1, 0, 6_000), 95, NOW, 3),
        Err(IntentError::ProtocolPaused)
    );
    state.is_paused = false;
    assert_eq!(
        create_swap_intent(&mut state, &mut user, owner(), swap_params(0, 1, 0, 6_000), 95, NOW, 3),
        Err(IntentError::InvalidAmount)
    );
    assert_eq!(
        create_swap_intent(&mut state, &mut user, owner(), swap_params(0, 1, 1, 5_001), 95, NOW, 3),
        Err(IntentError::SlippageTooHigh)
    );
    assert!(create_swap_intent(&mut state, &mut user, owner(), swap_params(0, 1, 1, 5_000), 95, NOW, 3).is_ok());
    assert_eq!(user.active_intents, 1);
    assert_eq!(state.total_intents_created, 1);
}

#[test]
fn swap_venue_follows_size_and_pair() {
    let (mut state, mut user) = fresh();
    let large = create_swap_intent(&mut state, &mut user, owner(), swap_params(0, 1, 1_000_000_001, 0), 95, NOW, 3).unwrap();
    assert_eq!(large.selected_swap_protocol, SwapProtocol::Jupiter);
    assert_eq!(large.protocol_fee, 3_000_000);
    let small = create_swap_intent(&mut state, &mut user, owner(), swap_params(0, 1, 1_000_000_000, 0), 95, NOW, 3).unwrap();
    assert_eq!(small.selected_swap_protocol, SwapProtocol::Raydium);
    let exotic = create_swap_intent(&mut state, &mut user, owner(), swap_params(0, 3, 10, 0), 95, NOW, 3).unwrap();
    assert_eq!(exotic.selected_swap_protocol, SwapProtocol::Jupiter);
}

#[test]
fn risk_score_follows_the_first_byte() {
    assert_eq!(perform_rugproof_check(&key(0)), Ok(95));
    assert_eq!(perform_rugproof_check(&key(49)), Ok(95));
    assert_eq!(perform_rugproof_check(&key(50)), Ok(85));
    assert_eq!(perform_rugproof_check(&key(99)), Ok(85));
    assert_eq!(perform_rugproof_check(&key(100)), Ok(75));
    assert_eq!(perform_rugproof_check(&key(255)), Ok(75));
    let mut mixed = [0u8; 32];
    mixed[0] = 120;
    assert_eq!(perform_rugproof_check(&Pubkey::new_from_array(mixed)), Ok(75));
}

#[test]
fn risk_score_below_seventy_is_refused() {
    assert_eq!(require_rugproof_score(69), Err(IntentError::RugproofCheckFailed));
    assert_eq!(require_rugproof_score(0), Err(IntentError::RugproofCheckFailed));
    assert_eq!(require_rugproof_score(70), Ok(()));
    assert_eq!(require_rugproof_score(95), Ok(()));
}

#[test]
fn lend_intent_snapshots_fee_venue_and_minimum_yield() {
    let (mut state, mut user) = fresh();
    let params = LendIntentParams { mint: key(1), amount: 10_000_000_001, min_apy: 500 };
    let intent = create_lend_intent(&mut state, &mut user, owner(), params, NOW, 4).unwrap();
    assert_eq!(intent.intent_type, IntentType::Lend);
    assert_eq!(intent.status, IntentStatus::Pending);
    assert_eq!(intent.from_mint, key(1));
    assert_eq!(intent.to_mint, key(1));
    assert_eq!(intent.protocol_fee, 30_000_000);
    assert_eq!(intent.min_apy, Some(500));
    assert_eq!(intent.max_slippage, 0);
    assert_eq!(intent.selected_lending_protocol, Some(LendingProtocol::Solend));
    assert_eq!(intent.selected_swap_protocol, SwapProtocol::Jupiter);
    assert_eq!(intent.expires_at, NOW + WEEK);
    assert!(!intent.rugproof_enabled);
    let small = LendIntentParams { mint: key(1), amount: 10_000_000_000, min_apy: 10_000 };
    let intent = create_lend_intent(&mut state, &mut user, owner(), small, NOW, 4).unwrap();
    assert_eq!(intent.selected_lending_protocol, Some(LendingProtocol::PortFinance));
    assert_eq!(user.active_intents, 2);
    assert_eq!(state.total_intents_created, 2);
}

#[test]
fn lend_intent_needs_a_yield_between_one_and_ten_thousand() {
    let (mut state, mut user) = fresh();
    let zero = LendIntentParams { mint: key(1), amount: 10, min_apy: 0 };
    assert_eq!(create_lend_intent(&mut state, &mut user, owner(), zero, NOW, 4), Err(IntentError::InvalidAPY));
    let high = LendIntentParams { mint: key(1), amount: 10, min_apy: 10_001 };
    assert_eq!(create_lend_intent(&mut state, &mut user, owner(), high, NOW, 4), Err(IntentError::InvalidAPY));
    let none = LendIntentParams { mint: key(1), amount: 0, min_apy: 0 };
    assert_eq!(create_lend_intent(&mut state, &mut user, owner(), none, NOW, 4), Err(IntentError::InvalidAmount));
    state.is_paused = true;
    assert_eq!(create_lend_intent(&mut state, &mut user, owner(), none, NOW, 4), Err(IntentError::ProtocolPaused));
    assert_eq!(user.active_intents, 0);
    assert_eq!(state.total_intents_created, 0);
}

#[test]
fn buy_intent_pays_in_the_quote_asset() {
    let (mut state, mut user) = fresh();
    let params = BuyIntentParams {
        mint: key(120),
        usdc_mint: key(1),
        usdc_amount: 50_000,
        target_price: Some(42),
        max_price_impact: 250,
        rugproof_check: true,
    };
    let intent = create_buy_intent(&mut state, &mut user, owner(), params, 95, NOW, 5).unwrap();
    assert_eq!(
        intent,
        IntentAccount {
            authority: owner(),
            intent_type: IntentType::Buy,
            status: IntentStatus::Pending,
            from_mint: key(1),
            to_mint: key(120),
            amount: 50_000,
            protocol_fee: 150,
            max_slippage: 0,
            min_apy: None,
            target_price: Some(42),
            max_price_impact: Some(250),
            execution_price: None,
            execution_apy: None,
            rugproof_enabled: true,
            selected_swap_protocol: SwapProtocol::Jupiter,
            selected_lending_protocol: None,
            created_at: NOW,
            expires_at: NOW + WEEK,
            executed_at: None,
            cancelled_at: None,
            bump: 5,
        }
    );
    let empty = BuyIntentParams { usdc_amount: 0, ..params };
    assert_eq!(create_buy_intent(&mut state, &mut user, owner(), empty, 95, NOW, 5), Err(IntentError::InvalidAmount));
    state.is_paused = true;
    assert_eq!(create_buy_intent(&mut state, &mut user, owner(), params, 95, NOW, 5), Err(IntentError::ProtocolPaused));
    assert_eq!(user.active_intents, 1);
}

#[test]
fn only_the_administrator_pauses_and_unpauses() {
    let (mut state, mut user) = fresh();
    assert_eq!(pause_protocol(&mut state, &key(1)), Err(IntentError::Unauthorized));
    assert!(!state.is_paused);
    assert_eq!(pause_protocol(&mut state, &key(9)), Ok(()));
    assert!(state.is_paused);
    assert_eq!(
        create_swap_intent(&mut state, &mut user, owner(), swap_params(0, 1, 10, 0), 95, NOW, 3),
        Err(IntentError::ProtocolPaused)
    );
    assert_eq!(unpause_protocol(&mut state, &key(1)), Err(IntentError::Unauthorized));
    assert!(state.is_paused);
    assert_eq!(unpause_protocol(&mut state, &key(9)), Ok(()));
    assert!(!state.is_paused);
    assert!(create_swap_intent(&mut state, &mut user, owner(), swap_params(0, 1, 10, 0), 95, NOW, 3).is_ok());
}

#[test]
fn cancelling_marks_the_intent_and_frees_a_slot() {
    let (mut state, mut user) = fresh();
    let mut intent = create_swap_intent(&mut state, &mut user, owner(), swap_params(0, 1, 10, 0), 95, NOW, 3).unwrap();
    assert_eq!(cancel_intent(&mut intent, &mut user, &key(1), NOW + 5), Err(IntentError::Unauthorized));
    assert_eq!(intent.status, IntentStatus::Pending);
    assert_eq!(user.active_intents, 1);
    assert_eq!(cancel_intent(&mut intent, &mut user, &owner(), NOW + 5), Ok(()));
    assert_eq!(intent.status, IntentStatus::Cancelled);
    assert_eq!(intent.cancelled_at, Some(NOW + 5));
    assert_eq!(intent.executed_at, None);
    assert_eq!(user.active_intents, 0);
    assert_eq!(user.total_intents_created, 1);
}

#[test]
fn cancelling_twice_is_refused() {
    let (mut state, mut user) = fresh();
    let mut intent = create_swap_intent(&mut state, &mut user, owner(), swap_params(0, 1, 10, 0), 95, NOW, 3).unwrap();
    assert_eq!(cancel_intent(&mut intent, &mut user, &owner(), NOW + 5), Ok(()));
    let cancelled = intent;
    let before = user;
    assert_eq!(cancel_intent(&mut intent, &mut user, &owner(), NOW + 6), Err(IntentError::IntentNotPending));
    assert_eq!(cancel_intent(&mut intent, &mut user, &key(1), NOW + 6), Err(IntentError::IntentNotPending));
    assert_eq!(intent, cancelled);
    assert_eq!(user, before);
}

#[test]
fn an_expired_intent_can_still_be_cancelled() {
    let (mut state, mut user) = fresh();
    let mut intent = create_swap_intent(&mut state, &mut user, owner(), swap_params(0, 1, 10, 0), 95, NOW, 3).unwrap();
    assert_eq!(ensure_executable(&intent, NOW + WEEK), Err(IntentError::IntentExpired));
    assert_eq!(intent.status, IntentStatus::Pending);
    assert_eq!(cancel_intent(&mut intent, &mut user, &owner(), NOW + WEEK + 1), Ok(()));
    assert_eq!(intent.status, IntentStatus::Cancelled);
}

#[test]
fn expiry_is_checked_at_the_second() {
    let (mut state, mut user) = fresh();
    let intent = create_swap_intent(&mut state, &mut user, owner(), swap_params(0, 1, 10, 0), 95, NOW, 3).unwrap();
    assert_eq!(ensure_executable(&intent, NOW + WEEK - 1), Ok(()));
    assert_eq!(ensure_executable(&intent, NOW + WEEK), Err(IntentError::IntentExpired));
    assert_eq!(ensure_swap_route(&intent, NOW, SwapProtocol::Raydium), Ok(()));
    assert_eq!(ensure_swap_route(&intent, NOW, SwapProtocol::Jupiter), Err(IntentError::WrongProtocol));
    assert_eq!(ensure_swap_route(&intent, NOW, SwapProtocol::Orca), Err(IntentError::WrongProtocol));
    assert_eq!(ensure_swap_route(&intent, NOW + WEEK, SwapProtocol::Jupiter), Err(IntentError::IntentExpired));
    assert_eq!(ensure_lend_route(&intent, NOW, LendingProtocol::Solend), Err(IntentError::WrongProtocol));
}

#[test]
fn raydium_intent_on_the_aggregator_path_is_refused_and_nothing_moves() {
    let (mut state, mut user) = fresh();
    let mut intent = create_swap_intent(&mut state, &mut user, owner(), swap_params(0, 1, 100_000, 100), 95, NOW, 3).unwrap();
    assert_eq!(intent.selected_swap_protocol, SwapProtocol::Raydium);
    let (before_intent, before_state, before_user) = (intent, state, user);
    let outcome =
        execute_swap_intent_jupiter(&mut intent, &mut state, &mut user, key(77), owner(), quote(99_700, 180_000, 100), NOW + 1);
    assert_eq!(outcome, Err(IntentError::WrongProtocol));
    assert_eq!(intent, before_intent);
    assert_eq!(state, before_state);
    assert_eq!(user, before_user);
    assert_eq!(state.total_fees_collected, 0);
    assert_eq!(quote_swap_jupiter(&intent, &quote(99_700, 180_000, 100), NOW + 1), Err(IntentError::WrongProtocol));
}

#[test]
fn aggregator_settlement_takes_the_quoted_output() {
    let (mut state, mut user) = fresh();
    let mut intent = create_swap_intent(&mut state, &mut user, owner(), swap_params(0, 3, 100_000, 100), 95, NOW, 3).unwrap();
    assert_eq!(intent.selected_swap_protocol, SwapProtocol::Jupiter);
    assert_eq!(quote_swap_jupiter(&intent, &quote(99_700, 94_000, 100), NOW + 1), Ok(94_000));
    let receipt =
        execute_swap_intent_jupiter(&mut intent, &mut state, &mut user, key(77), owner(), quote(99_700, 94_000, 100), NOW + 9)
            .unwrap();
    assert_eq!(
        receipt,
        SwapIntentExecuted {
            intent_id: key(77),
            user: owner(),
            protocol: SwapProtocol::Jupiter,
            from_mint: key(0),
            to_mint: key(3),
            amount_in: 99_700,
            amount_out: 94_000,
            protocol_fee: 300,
        }
    );
    assert_eq!(intent.status, IntentStatus::Executed);
    assert_eq!(intent.executed_at, Some(NOW + 9));
    assert_eq!(intent.execution_price, Some(94_000));
    assert_eq!(user.active_intents, 0);
    assert_eq!(user.total_volume, 100_000);
    assert_eq!(state.total_intents_executed, 1);
    assert_eq!(state.total_fees_collected, 300);
}

#[test]
fn aggregator_quote_must_match_the_intent() {
    let (mut state, mut user) = fresh();
    let mut intent = create_swap_intent(&mut state, &mut user, owner(), swap_params(0, 3, 100_000, 100), 95, NOW, 3).unwrap();
    let (before_intent, before_state, before_user) = (intent, state, user);
    assert_eq!(
        execute_swap_intent_jupiter(&mut intent, &mut state, &mut user, key(77), owner(), quote(100_000, 94_000, 100), NOW),
        Err(IntentError::InvalidAmount)
    );
    assert_eq!(
        execute_swap_intent_jupiter(&mut intent, &mut state, &mut user, key(77), owner(), quote(99_700, 94_000, 99), NOW),
        Err(IntentError::SlippageExceeded)
    );
    assert_eq!(
        execute_swap_intent_jupiter(&mut intent, &mut state, &mut user, key(77), owner(), quote(1, 94_000, 99), NOW),
        Err(IntentError::InvalidAmount)
    );
    assert_eq!(
        execute_swap_intent_jupiter(&mut intent, &mut state, &mut user, key(77), owner(), quote(99_700, 94_000, 100), NOW + WEEK),
        Err(IntentError::IntentExpired)
    );
    assert_eq!((intent, state, user), (before_intent, before_state, before_user));
}

#[test]
fn executing_twice_is_refused() {
    let (mut state, mut user) = fresh();
    let mut intent = create_swap_intent(&mut state, &mut user, owner(), swap_params(0, 3, 100_000, 100), 95, NOW, 3).unwrap();
    assert!(
        execute_swap_intent_jupiter(&mut intent, &mut state, &mut user, key(77), owner(), quote(99_700, 94_000, 100), NOW)
            .is_ok()
    );
    let (before_intent, before_state, before_user) = (intent, state, user);
    assert_eq!(
        execute_swap_intent_jupiter(&mut intent, &mut state, &mut user, key(77), owner(), quote(99_700, 94_000, 100), NOW),
        Err(IntentError::IntentNotPending)
    );
    assert_eq!(
        execute_swap_intent_raydium(&mut intent, &mut state, &mut user, key(77), owner(), key(78), pool(0, 1, 1), NOW),
        Err(IntentError::IntentNotPending)
    );
    assert_eq!(cancel_intent(&mut intent, &mut user, &owner(), NOW), Err(IntentError::IntentNotPending));
    assert_eq!((intent, state, user), (before_intent, before_state, before_user));
}

#[test]
fn pool_settlement_prices_with_the_constant_product() {
    let (mut state, mut user) = fresh();
    let mut intent = create_swap_intent(&mut state, &mut user, owner(), swap_params(0, 1, 100_000, 100), 95, NOW, 3).unwrap();
    assert_eq!(quote_swap_raydium(&intent, key(78), pool(0, 1_000_000, 2_000_000), NOW), Ok(180_909));
    let receipt =
        execute_swap_intent_raydium(&mut intent, &mut state, &mut user, key(77), owner(), key(78), pool(0, 1_000_000, 2_000_000), NOW + 2)
            .unwrap();
    assert_eq!(
        receipt,
        SwapIntentExecuted {
            intent_id: key(77),
            user: owner(),
            protocol: SwapProtocol::Raydium,
            from_mint: key(0),
            to_mint: key(1),
            amount_in: 99_700,
            amount_out: 180_909,
            protocol_fee: 300,
        }
    );
    assert_eq!(intent.status, IntentStatus::Executed);
    assert_eq!(intent.execution_price, Some(180_909));
    assert_eq!(intent.executed_at, Some(NOW + 2));
    assert_eq!(user.active_intents, 0);
    assert_eq!(user.total_volume, 100_000);
    assert_eq!(state.total_intents_executed, 1);
    assert_eq!(state.total_fees_collected, 300);
}

#[test]
fn pool_settlement_prices_the_side_the_intent_pays_in() {
    let (mut state, mut user) = fresh();
    let mut intent = create_swap_intent(&mut state, &mut user, owner(), swap_params(0, 1, 10_000, 100), 95, NOW, 3).unwrap();
    assert_eq!(intent.protocol_fee, 30);
    assert_eq!(intent.selected_swap_protocol, SwapProtocol::Raydium);
    let pays_coin = pool(0, 1_000_000, 2_000_000);
    let pays_price_currency = pool(1, 1_000_000, 2_000_000);
    assert_eq!(quote_swap_raydium(&intent, key(78), pays_coin, NOW), Ok(19_694));
    assert_eq!(quote_swap_raydium(&intent, key(78), pays_price_currency, NOW), Ok(4_947));
    let receipt = execute_swap_intent_raydium(
        &mut intent,
        &mut state,
        &mut user,
        key(77),
        owner(),
        key(78),
        pays_price_currency,
        NOW + 1,
    )
    .unwrap();
    assert_eq!(receipt.amount_in, 9_970);
    assert_eq!(receipt.amount_out, 4_947);
    assert_eq!(receipt.protocol_fee, 30);
    assert_eq!(intent.status, IntentStatus::Executed);
    assert_eq!(intent.execution_price, Some(4_947));
    assert_eq!(user.active_intents, 0);
    assert_eq!(state.total_fees_collected, 30);
}

#[test]
fn pool_settlement_meets_its_own_slippage_bound() {
    let (mut state, mut user) = fresh();
    for slippage in [0u16, 1, 100, 5_000] {
        let intent =
            create_swap_intent(&mut state, &mut user, owner(), swap_params(0, 1, 100_000, slippage), 95, NOW, 3).unwrap();
        assert_eq!(quote_swap_raydium(&intent, key(78), pool(0, 1_000_000, 2_000_000), NOW), Ok(180_909));
        assert_eq!(quote_swap_raydium(&intent, key(78), pool(1, 1_000_000, 2_000_000), NOW), Ok(47_369));
        assert_eq!(quote_swap_raydium(&intent, key(78), pool(1, 2_000_000, 1_000_000), NOW), Ok(180_909));
        assert_eq!(quote_swap_raydium(&intent, key(78), pool(0, 5, 0), NOW), Ok(0));
    }
}

#[test]
fn swap_intent_is_refused_for_a_low_risk_score() {
    let (mut state, mut user) = fresh();
    let (before_state, before_user) = (state, user);
    let checked = swap_params(0, 1, 100_000, 100);
    assert_eq!(
        create_swap_intent(&mut state, &mut user, owner(), checked, 69, NOW, 3),
        Err(IntentError::RugproofCheckFailed)
    );
    assert_eq!(
        create_swap_intent(&mut state, &mut user, owner(), checked, 0, NOW, 3),
        Err(IntentError::RugproofCheckFailed)
    );
    assert_eq!((state, user), (before_state, before_user));
    let unchecked = SwapIntentParams { rugproof_enabled: false, ..checked };
    let accepted = create_swap_intent(&mut state, &mut user, owner(), unchecked, 0, NOW, 3).unwrap();
    assert!(!accepted.rugproof_enabled);
    assert!(create_swap_intent(&mut state, &mut user, owner(), checked, 70, NOW, 3).is_ok());
    assert_eq!(user.active_intents, 2);
    assert_eq!(state.total_intents_created, 2);
    let steep = SwapIntentParams { max_slippage: 5_001, ..checked };
    assert_eq!(
        create_swap_intent(&mut state, &mut user, owner(), steep, 0, NOW, 3),
        Err(IntentError::SlippageTooHigh)
    );
}

#[test]
fn buy_intent_is_refused_for_a_low_risk_score() {
    let (mut state, mut user) = fresh();
    let (before_state, before_user) = (state, user);
    let checked = BuyIntentParams {
        mint: key(120),
        usdc_mint: key(1),
        usdc_amount: 50_000,
        target_price: None,
        max_price_impact: 250,
        rugproof_check: true,
    };
    assert_eq!(
        create_buy_intent(&mut state, &mut user, owner(), checked, 69, NOW, 5),
        Err(IntentError::RugproofCheckFailed)
    );
    assert_eq!((state, user), (before_state, before_user));
    let unchecked = BuyIntentParams { rugproof_check: false, ..checked };
    assert!(create_buy_intent(&mut state, &mut user, owner(), unchecked, 69, NOW, 5).is_ok());
    assert!(create_buy_intent(&mut state, &mut user, owner(), checked, 70, NOW, 5).is_ok());
    let empty = BuyIntentParams { usdc_amount: 0, ..checked };
    assert_eq!(
        create_buy_intent(&mut state, &mut user, owner(), empty, 0, NOW, 5),
        Err(IntentError::InvalidAmount)
    );
    assert_eq!(user.active_intents, 2);
}

#[test]
fn lend_settles_where_the_yield_in_basis_points_reaches_the_minimum() {
    let (mut state, mut user) = fresh();
    let params = LendIntentParams { mint: key(1), amount: 100_000, min_apy: 500 };
    let mut intent = create_lend_intent(&mut state, &mut user, owner(), params, NOW, 4).unwrap();
    assert_eq!(intent.protocol_fee, 300);
    intent.selected_lending_protocol = Some(LendingProtocol::Solend);
    let mut reserve = solend_reserve(1, 2_000, 8_000);
    reserve.config.min_borrow_rate = 2;
    reserve.config.optimal_borrow_rate = 10;
    reserve.config.max_borrow_rate = 50;
    assert_eq!(quote_lend_solend(&intent, key(80), key(81), reserve, NOW), Ok(7));
    let receipt =
        execute_lend_intent_solend(&mut intent, &mut state, &mut user, key(77), owner(), key(80), key(81), reserve, NOW + 3)
            .unwrap();
    assert_eq!(receipt.apy, 7);
    assert_eq!(receipt.amount, 99_700);
    assert_eq!(receipt.protocol_fee, 300);
    assert_eq!(intent.status, IntentStatus::Executed);
    assert_eq!(intent.execution_apy, Some(7));
    assert_eq!(user.active_intents, 0);
    assert_eq!(state.total_fees_collected, 300);
}

#[test]
fn solend_settlement_records_the_yield() {
    let (mut state, mut user) = fresh();
    let params = LendIntentParams { mint: key(1), amount: 10_000_000_001, min_apy: 122 };
    let mut intent = create_lend_intent(&mut state, &mut user, owner(), params, NOW, 4).unwrap();
    let reserve = solend_reserve(1, 100, 900);
    assert_eq!(quote_lend_solend(&intent, key(80), key(81), reserve, NOW), Ok(122));
    let receipt =
        execute_lend_intent_solend(&mut intent, &mut state, &mut user, key(77), owner(), key(80), key(81), reserve, NOW + 3)
            .unwrap();
    assert_eq!(
        receipt,
        LendIntentExecuted {
            intent_id: key(77),
            user: owner(),
            mint: key(1),
            amount: 10_000_000_001 - 30_000_000,
            apy: 122,
            protocol: LendingProtocol::Solend,
            protocol_fee: 30_000_000,
        }
    );
    assert_eq!(intent.status, IntentStatus::Executed);
    assert_eq!(intent.execution_apy, Some(122));
    assert_eq!(intent.executed_at, Some(NOW + 3));
    assert_eq!(user.active_intents, 0);
    assert_eq!(user.total_volume, 10_000_000_001);
    assert_eq!(state.total_intents_executed, 1);
    assert_eq!(state.total_fees_collected, 30_000_000);
}

#[test]
fn lend_settlement_refusals_leave_everything_unchanged() {
    let (mut state, mut user) = fresh();
    let params = LendIntentParams { mint: key(1), amount: 10_000_000_001, min_apy: 701 };
    let mut intent = create_lend_intent(&mut state, &mut user, owner(), params, NOW, 4).unwrap();
    let (before_intent, before_state, before_user) = (intent, state, user);
    let mut meagre = solend_reserve(1, 2_000, 8_000);
    meagre.config.min_borrow_rate = 2;
    meagre.config.optimal_borrow_rate = 10;
    meagre.config.max_borrow_rate = 50;
    assert_eq!(
        execute_lend_intent_solend(&mut intent, &mut state, &mut user, key(77), owner(), key(80), key(81), meagre, NOW),
        Err(IntentError::APYTooLow)
    );
    assert_eq!(
        execute_lend_intent_solend(&mut intent, &mut state, &mut user, key(77), owner(), key(80), key(81), solend_reserve(2, 100, 900), NOW),
        Err(IntentError::InvalidAmount)
    );
    assert_eq!(
        execute_lend_intent_port(&mut intent, &mut state, &mut user, key(77), owner(), key(80), key(81), port_reserve(1, 100, 900), NOW),
        Err(IntentError::WrongProtocol)
    );
    assert_eq!(
        execute_lend_intent_solend(&mut intent, &mut state, &mut user, key(77), owner(), key(80), key(81), solend_reserve(1, 100, 900), NOW + WEEK),
        Err(IntentError::IntentExpired)
    );
    assert_eq!((intent, state, user), (before_intent, before_state, before_user));
}

#[test]
fn port_settlement_records_the_yield() {
    let (mut state, mut user) = fresh();
    let params = LendIntentParams { mint: key(1), amount: 1_000_000, min_apy: 131 };
    let mut intent = create_lend_intent(&mut state, &mut user, owner(), params, NOW, 4).unwrap();
    assert_eq!(intent.selected_lending_protocol, Some(LendingProtocol::PortFinance));
    let reserve = port_reserve(1, 100, 900);
    assert_eq!(quote_lend_port(&intent, key(80), key(81), reserve, NOW), Ok(131));
    assert_eq!(
        quote_lend_solend(&intent, key(80), key(81), solend_reserve(1, 100, 900), NOW),
        Err(IntentError::WrongProtocol)
    );
    let receipt =
        execute_lend_intent_port(&mut intent, &mut state, &mut user, key(77), owner(), key(80), key(81), reserve, NOW + 3)
            .unwrap();
    assert_eq!(
        receipt,
        LendIntentExecuted {
            intent_id: key(77),
            user: owner(),
            mint: key(1),
            amount: 997_000,
            apy: 131,
            protocol: LendingProtocol::PortFinance,
            protocol_fee: 3_000,
        }
    );
    assert_eq!(intent.status, IntentStatus::Executed);
    assert_eq!(intent.execution_apy, Some(131));
    assert_eq!(state.total_fees_collected, 3_000);
    assert_eq!(user.total_volume, 1_000_000);
    assert_eq!(
        execute_lend_intent_port(&mut intent, &mut state, &mut user, key(77), owner(), key(80), key(81), reserve, NOW + 4),
        Err(IntentError::IntentNotPending)
    );
}

#[test]
fn a_swap_intent_has_no_lending_route() {
    let (mut state, mut user) = fresh();
    let intent = create_swap_intent(&mut state, &mut user, owner(), swap_params(0, 1, 100_000, 100), 95, NOW, 3).unwrap();
    assert_eq!(
        quote_lend_solend(&intent, key(80), key(81), solend_reserve(0, 100, 900), NOW),
        Err(IntentError::WrongProtocol)
    );
    assert_eq!(
        quote_lend_port(&intent, key(80), key(81), port_reserve(0, 100, 900), NOW),
        Err(IntentError::WrongProtocol)
    );
}

#[test]
fn settlement_needs_room_in_the_counters() {
    let (mut state, mut user) = fresh();
    let intent = create_swap_intent(&mut state, &mut user, owner(), swap_params(0, 3, 100_000, 100), 95, NOW, 3).unwrap();
    assert!(settlement_fits(&state, &user, &intent));
    let mut idle = user;
    idle.active_intents = 0;
    assert!(!settlement_fits(&state, &idle, &intent));
    let mut busy = user;
    busy.total_volume = u64::MAX - 99_999;
    assert!(!settlement_fits(&state, &busy, &intent));
    busy.total_volume = u64::MAX - 100_000;
    assert!(settlement_fits(&state, &busy, &intent));
    let mut full = state;
    full.total_fees_collected = u64::MAX - 299;
    assert!(!settlement_fits(&full, &user, &intent));
    full.total_fees_collected = u64::MAX - 300;
    assert!(settlement_fits(&full, &user, &intent));
    full.total_intents_executed = u64::MAX;
    assert!(!settlement_fits(&full, &user, &intent));
}

#[test]
fn active_intents_stay_between_zero_and_fifty() {
    let (mut state, mut user) = fresh();
    let mut intents = Vec::new();
    for _ in 0..60 {
        match create_swap_intent(&mut state, &mut user, owner(), swap_params(0, 3, 1_000, 0), 95, NOW, 3) {
            Ok(intent) => intents.push(intent),
            Err(e) => assert_eq!(e, IntentError::TooManyActiveIntents),
        }
        assert!(user.active_intents <= 50);
    }
    assert_eq!(intents.len(), 50);
    assert_eq!(user.active_intents, 50);
    for (i, intent) in intents.iter_mut().enumerate() {
        if i % 2 == 0 {
            assert_eq!(cancel_intent(intent, &mut user, &owner(), NOW + 1), Ok(()));
        } else {
            assert!(
                execute_swap_intent_jupiter(intent, &mut state, &mut user, key(77), owner(), quote(997, 900, 0), NOW + 1)
                    .is_ok()
            );
        }
        assert!(user.active_intents <= 50);
    }
    assert_eq!(user.active_intents, 0);
    assert_eq!(user.total_intents_created, 50);
    assert_eq!(user.total_volume, 25_000);
    assert_eq!(state.total_intents_executed, 25);
    assert_eq!(state.total_fees_collected, 75);
}
