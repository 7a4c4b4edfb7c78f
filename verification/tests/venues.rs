use intentfi::errors::IntentError;
use intentfi::integrations::jupiter::{
    execute_jupiter_swap, execute_jupiter_swap_simple, JupiterSwapData, JupiterSwapParams, RoutePlanStep, SwapInfo,
};
use intentfi::integrations::orca::get_orca_pools;
use intentfi::integrations::raydium::{
    execute_raydium_swap, execute_raydium_swap_simple, get_popular_pools, RaydiumPoolInfo, RaydiumSwapParams,
};
use intentfi::integrations::{ProtocolRouter, SwapProtocol};
use intentfi::lending_integrations::francium::get_francium_farms;
use intentfi::lending_integrations::port_finance::{
    calculate_port_apy, execute_port_lend, get_port_markets, port_apy_computable, PortCollateral, PortConfig,
    PortLendParams, PortLiquidity, PortReserve,
};
use intentfi::lending_integrations::solend::{
    calculate_lending_apy, execute_solend_lend, get_solend_markets, reserve_apy_computable, ReserveCollateral,
    ReserveConfig, ReserveFees, ReserveLiquidity, SolendLendParams, SolendReserve,
};
use intentfi::interest_curve::checked_utilization;
use intentfi::lending_integrations::{best_yield, yield_meets_minimum, LendingProtocol, LendingRouter};
use intentfi::pubkey::Pubkey;
use intentfi::state::{IntentAccount, IntentStatus, IntentType};

fn key(b: u8) -> Pubkey {
    Pubkey::new_from_array([b; 32])
}

fn lend_intent(mint: u8, min_apy: Option<u16>) -> IntentAccount {
    IntentAccount {
        authority: key(200),
        intent_type: IntentType::Lend,
        status: IntentStatus::Pending,
        from_mint: key(mint),
        to_mint: key(mint),
        amount: 1_000,
        protocol_fee: 3,
        max_slippage: 0,
        min_apy,
        target_price: None,
        max_price_impact: None,
        execution_price: None,
        execution_apy: None,
        rugproof_enabled: false,
        selected_swap_protocol: SwapProtocol::Jupiter,
        selected_lending_protocol: Some(LendingProtocol::Solend),
        created_at: 0,
        expires_at: 604_800,
        executed_at: None,
        cancelled_at: None,
        bump: 1,
    }
}

fn pool(coin_mint: u8, coin: u64, pc: u64) -> RaydiumPoolInfo {
    RaydiumPoolInfo {
        status: 1,
        nonce: 0,
        order_num: 0,
        depth: 0,
        coin_decimals: 9,
        pc_decimals: 6,
        state: 1,
        reset_flag: 0,
        min_size: 0,
        vol_max_cut_ratio: 0,
        amount_wave_ratio: 0,
        coin_lot_size: 1,
        pc_lot_size: 1,
        min_price_multiplier: 1,
        max_price_multiplier: 1,
        sys_decimal_value: 1,
        pool_coin_token_account: key(40),
        pool_pc_token_account: key(41),
        coin_mint_address: key(coin_mint),
        pc_mint_address: key(42),
        lp_mint_address: key(43),
        amm_open_orders: key(44),
        serum_market: key(45),
        serum_program_id: key(46),
        amm_target_orders: key(47),
        pool_withdraw_queue: key(48),
        pool_temp_lp_token_account: key(49),
        amm_owner: key(50),
        pool_coin_amount: coin,
        pool_pc_amount: pc,
    }
}

fn raydium_params(from: u8, amount_in: u64, minimum_amount_out: u64) -> RaydiumSwapParams {
    RaydiumSwapParams { pool_id: key(78), from_mint: key(from), to_mint: key(1), amount_in, minimum_amount_out }
}

fn solend_reserve(mint: u8, available: u64, borrowed: u128, rates: (u8, u8, u8), optimal: u8) -> SolendReserve {
    SolendReserve {
        version: 1,
        last_update: 0,
        lending_market: key(60),
        liquidity: ReserveLiquidity {
            mint_pubkey: key(mint),
            mint_decimals: 6,
            supply_pubkey: key(61),
            fee_receiver: key(62),
            oracle_pubkey: key(63),
            available_amount: available,
            borrowed_amount_wads: borrowed,
            cumulative_borrow_rate_wads: 0,
            market_price: 0,
        },
        collateral: ReserveCollateral { mint_pubkey: key(64), mint_total_supply: 0, supply_pubkey: key(65) },
        config: ReserveConfig {
            optimal_utilization_rate: optimal,
            loan_to_value_ratio: 75,
            liquidation_bonus: 5,
            liquidation_threshold: 80,
            min_borrow_rate: rates.0,
            optimal_borrow_rate: rates.1,
            max_borrow_rate: rates.2,
            fees: ReserveFees { borrow_fee_wad: 0, flash_loan_fee_wad: 0, host_fee_percentage: 0 },
        },
    }
}

fn port_reserve(mint: u8, available: u64, borrowed: u64, rates: (u8, u8, u8), optimal: u8) -> PortReserve {
    PortReserve {
        is_initialized: true,
        lending_market: key(70),
        liquidity: PortLiquidity {
            mint_pubkey: key(mint),
            supply_pubkey: key(71),
            fee_receiver: key(72),
            oracle_pubkey: key(73),
            available_amount: available,
            borrowed_amount: borrowed,
            cumulative_borrow_rate: 0,
            market_price: 0,
        },
        collateral: PortCollateral { mint_pubkey: key(74), supply_pubkey: key(75), total_supply: 0 },
        config: PortConfig {
            optimal_utilization_rate: optimal,
            max_borrow_rate: rates.2,
            loan_to_value_ratio: 75,
            liquidation_bonus: 5,
            liquidation_threshold: 80,
            min_borrow_rate: rates.0,
            optimal_borrow_rate: rates.1,
            borrow_fee_rate: 0,
        },
        last_update: 0,
    }
}

fn solend_params() -> SolendLendParams {
    SolendLendParams { reserve: key(80), lending_market: key(81), amount: 997, expected_apy: 0 }
}

fn port_params() -> PortLendParams {
    PortLendParams { reserve: key(80), staking_pool: key(81), amount: 997, expected_apy: 0 }
}

#[test]
fn keys_compare_byte_by_byte() {
    let mut bytes = [7u8; 32];
    assert!(Pubkey::new_from_array(bytes).same_as(&Pubkey::filled(7)));
    assert_eq!(Pubkey::filled(7).to_bytes(), bytes);
    bytes[31] = 8;
    assert!(!Pubkey::new_from_array(bytes).same_as(&Pubkey::filled(7)));
    assert_eq!(Pubkey::new_from_array(bytes).to_bytes()[31], 8);
    bytes[31] = 7;
    bytes[0] = 0;
    assert!(!Pubkey::new_from_array(bytes).same_as(&Pubkey::filled(7)));
}

#[test]
fn large_trades_go_to_the_aggregator() {
    assert_eq!(ProtocolRouter::choose_best_protocol(&key(0), &key(1), 1_000_000_001), SwapProtocol::Jupiter);
    assert_eq!(ProtocolRouter::choose_best_protocol(&key(0), &key(1), u64::MAX), SwapProtocol::Jupiter);
    assert_eq!(ProtocolRouter::choose_best_protocol(&key(9), &key(8), 1_000_000_001), SwapProtocol::Jupiter);
}

#[test]
fn small_trades_in_major_pairs_go_to_the_pool() {
    for (from, to) in [(0u8, 1u8), (1, 0), (0, 2), (2, 0), (1, 2), (2, 1)] {
        assert_eq!(ProtocolRouter::choose_best_protocol(&key(from), &key(to), 1_000_000_000), SwapProtocol::Raydium);
        assert_eq!(ProtocolRouter::choose_best_protocol(&key(from), &key(to), 0), SwapProtocol::Raydium);
    }
}

#[test]
fn small_trades_in_other_pairs_go_to_the_aggregator() {
    for (from, to) in [(0u8, 0u8), (1, 1), (2, 2), (0, 3), (3, 0), (3, 4)] {
        assert_eq!(ProtocolRouter::choose_best_protocol(&key(from), &key(to), 1_000), SwapProtocol::Jupiter);
    }
    let mut almost_sol = [0u8; 32];
    almost_sol[17] = 1;
    assert_eq!(
        ProtocolRouter::choose_best_protocol(&Pubkey::new_from_array(almost_sol), &key(1), 1_000),
        SwapProtocol::Jupiter
    );
}

#[test]
fn venue_choice_is_repeatable() {
    let first = ProtocolRouter::choose_best_protocol(&key(0), &key(2), 5);
    let second = ProtocolRouter::choose_best_protocol(&key(0), &key(2), 5);
    assert_eq!(first, second);
    assert_eq!(
        LendingRouter::choose_best_lending_protocol(&key(0), 5),
        LendingRouter::choose_best_lending_protocol(&key(0), 5)
    );
}

#[test]
fn deposits_are_routed_by_size() {
    assert_eq!(LendingRouter::choose_best_lending_protocol(&key(1), 10_000_000_001), LendingProtocol::Solend);
    assert_eq!(LendingRouter::choose_best_lending_protocol(&key(1), 10_000_000_000), LendingProtocol::PortFinance);
    assert_eq!(LendingRouter::choose_best_lending_protocol(&key(1), 0), LendingProtocol::PortFinance);
    assert_eq!(LendingRouter::choose_best_lending_protocol(&key(99), u64::MAX), LendingProtocol::Solend);
}

#[test]
fn best_yield_names_the_higher_venue_and_the_first_on_a_tie() {
    assert_eq!(LendingRouter::get_best_apy_for_token(&key(1)), Ok((LendingProtocol::Solend, 650)));
    assert_eq!(best_yield(650, 580), (LendingProtocol::Solend, 650));
    assert_eq!(best_yield(580, 650), (LendingProtocol::PortFinance, 650));
    assert_eq!(best_yield(600, 600), (LendingProtocol::Solend, 600));
    assert_eq!(best_yield(0, 0), (LendingProtocol::Solend, 0));
}

#[test]
fn aggregator_accepts_a_matching_quote() {
    let params =
        JupiterSwapParams { from_mint: key(0), to_mint: key(3), amount: 500, slippage_bps: 50, platform_fee_bps: 30 };
    let step = RoutePlanStep {
        swap_info: SwapInfo {
            amm_key: key(5),
            label: String::from("Pool"),
            input_mint: key(0),
            output_mint: key(3),
            in_amount: 500,
            out_amount: 480,
            fee_amount: 1,
            fee_mint: key(0),
        },
        percent: 100,
    };
    let data = JupiterSwapData {
        route_plan: vec![step],
        in_amount: 500,
        quoted_out_amount: 480,
        slippage_bps: 50,
        platform_fee_bps: 30,
    };
    assert_eq!(execute_jupiter_swap(params, &data), Ok(480));
    let other_input = JupiterSwapData { in_amount: 501, ..data.clone() };
    assert_eq!(execute_jupiter_swap(params, &other_input), Err(IntentError::InvalidAmount));
    let other_bound = JupiterSwapData { slippage_bps: 51, ..data.clone() };
    assert_eq!(execute_jupiter_swap(params, &other_bound), Err(IntentError::SlippageExceeded));
    let both = JupiterSwapData { in_amount: 0, slippage_bps: 0, ..data };
    assert_eq!(execute_jupiter_swap(params, &both), Err(IntentError::InvalidAmount));
}

#[test]
fn simulated_route_pays_ninety_five_percent() {
    let data =
        JupiterSwapData { route_plan: Vec::new(), in_amount: 0, quoted_out_amount: 0, slippage_bps: 0, platform_fee_bps: 0 };
    let mut params =
        JupiterSwapParams { from_mint: key(0), to_mint: key(3), amount: 1_000, slippage_bps: 50, platform_fee_bps: 0 };
    assert_eq!(execute_jupiter_swap_simple(params, &data), Ok(950));
    params.amount = 1;
    assert_eq!(execute_jupiter_swap_simple(params, &data), Ok(0));
    params.amount = 99_700;
    assert_eq!(execute_jupiter_swap_simple(params, &data), Ok(94_715));
    params.amount = u64::MAX;
    assert_eq!(execute_jupiter_swap_simple(params, &data), Ok(17_524_406_870_024_074_034));
}

#[test]
fn pool_swap_is_priced_in_the_direction_it_pays_in() {
    let p = pool(0, 1_000_000, 2_000_000);
    assert_eq!(execute_raydium_swap(raydium_params(0, 99_700, 0), p), Ok(180_909));
    assert_eq!(execute_raydium_swap(raydium_params(9, 99_700, 0), p), Ok(47_369));
    assert_eq!(execute_raydium_swap(raydium_params(0, 99_700, 180_909), p), Ok(180_909));
    assert_eq!(execute_raydium_swap(raydium_params(0, 99_700, 180_910), p), Err(IntentError::SlippageExceeded));
}

#[test]
fn simple_pool_swap_is_priced_in_the_direction_it_pays_in() {
    let p = pool(0, 1_000_000, 2_000_000);
    assert_eq!(execute_raydium_swap_simple(raydium_params(0, 99_700, 0), p), Ok(180_909));
    assert_eq!(execute_raydium_swap_simple(raydium_params(9, 99_700, 0), p), Ok(47_369));
    assert_eq!(execute_raydium_swap_simple(raydium_params(0, 10_000, 0), p), Ok(19_752));
    assert_eq!(execute_raydium_swap_simple(raydium_params(9, 10_000, 0), p), Ok(4_962));
    assert_eq!(execute_raydium_swap_simple(raydium_params(9, 10_000, 4_962), p), Ok(4_962));
    assert_eq!(execute_raydium_swap_simple(raydium_params(9, 10_000, 4_963), p), Err(IntentError::SlippageExceeded));
    assert_eq!(execute_raydium_swap_simple(raydium_params(0, 99_700, 180_910), p), Err(IntentError::SlippageExceeded));
}

#[test]
fn both_pool_swaps_agree() {
    let p = pool(0, 1_000_000, 2_000_000);
    for from in [0u8, 9] {
        for minimum in [0u64, 4_962, 4_963, 19_752, 19_753] {
            assert_eq!(
                execute_raydium_swap_simple(raydium_params(from, 10_000, minimum), p),
                execute_raydium_swap(raydium_params(from, 10_000, minimum), p)
            );
        }
    }
}

#[test]
fn listed_pools_and_markets() {
    let pools = get_popular_pools();
    assert_eq!(
        pools,
        vec![
            (String::from("SOL-USDC"), key(1)),
            (String::from("SOL-USDT"), key(2)),
            (String::from("RAY-SOL"), key(3)),
            (String::from("RAY-USDC"), key(4)),
        ]
    );
    assert_eq!(
        get_orca_pools(),
        vec![(String::from("SOL-USDC-0.3%"), key(6)), (String::from("SOL-USDT-0.3%"), key(7))]
    );
    assert_eq!(
        get_solend_markets(),
        vec![
            (String::from("SOL"), key(11), key(12)),
            (String::from("USDC"), key(13), key(14)),
            (String::from("USDT"), key(15), key(16)),
        ]
    );
    assert_eq!(
        get_port_markets(),
        vec![(String::from("SOL"), key(21), key(22)), (String::from("USDC"), key(23), key(24))]
    );
    assert_eq!(
        get_francium_farms(),
        vec![(String::from("SOL-USDC LP"), key(31)), (String::from("RAY-SOL LP"), key(32))]
    );
}

#[test]
fn solend_yield_is_seventy_percent_of_the_borrow_rate() {
    assert_eq!(calculate_lending_apy(&solend_reserve(1, 200, 800, (2, 10, 50), 80)), Ok(7));
    assert_eq!(calculate_lending_apy(&solend_reserve(1, 100, 900, (2, 10, 50), 80)), Ok(21));
    assert_eq!(calculate_lending_apy(&solend_reserve(1, 500, 500, (2, 10, 50), 80)), Ok(4));
    assert_eq!(calculate_lending_apy(&solend_reserve(1, 1_000, 0, (2, 10, 50), 80)), Ok(1));
    assert_eq!(calculate_lending_apy(&solend_reserve(1, 100, 900, (20, 100, 250), 80)), Ok(122));
}

#[test]
fn solend_reserve_with_nothing_available_is_fully_used() {
    assert_eq!(calculate_lending_apy(&solend_reserve(1, 0, 1_000, (2, 10, 50), 80)), Ok(35));
    assert_eq!(calculate_lending_apy(&solend_reserve(1, 0, 900, (20, 100, 250), 80)), Ok(175));
}

#[test]
fn only_an_empty_reserve_counts_as_unused() {
    assert_eq!(calculate_lending_apy(&solend_reserve(1, 0, 0, (20, 100, 250), 80)), Ok(14));
    assert_eq!(calculate_lending_apy(&solend_reserve(1, 0, 0, (2, 10, 50), 80)), Ok(1));
    assert_eq!(calculate_port_apy(&port_reserve(1, 0, 0, (2, 10, 50), 80)), Ok(1));
    assert_eq!(calculate_port_apy(&port_reserve(1, 0, 1_000, (2, 10, 50), 80)), Ok(37));
}

#[test]
fn utilization_is_the_borrowed_share_in_basis_points() {
    assert_eq!(checked_utilization(0, 0), Some(0));
    assert_eq!(checked_utilization(1_000, 0), Some(10_000));
    assert_eq!(checked_utilization(0, 1_000), Some(0));
    assert_eq!(checked_utilization(8_000, 2_000), Some(8_000));
    assert_eq!(checked_utilization(1, 2), Some(3_333));
    assert_eq!(checked_utilization(u128::MAX / 10_000, 0), Some(10_000));
    assert_eq!(checked_utilization(u128::MAX / 10_000 + 1, 0), None);
    assert_eq!(checked_utilization(1, u128::MAX), None);
    assert_eq!(checked_utilization(0, u128::MAX), Some(0));
}

#[test]
fn port_yield_is_seventy_five_percent_of_the_borrow_rate() {
    assert_eq!(calculate_port_apy(&port_reserve(1, 200, 800, (2, 10, 50), 80)), Ok(7));
    assert_eq!(calculate_port_apy(&port_reserve(1, 100, 900, (2, 10, 50), 80)), Ok(22));
    assert_eq!(calculate_port_apy(&port_reserve(1, 500, 500, (2, 10, 50), 80)), Ok(5));
    assert_eq!(calculate_port_apy(&port_reserve(1, 0, 0, (20, 100, 250), 80)), Ok(15));
    assert_eq!(calculate_port_apy(&port_reserve(1, 0, 1_000, (20, 100, 250), 80)), Ok(187));
}

#[test]
fn yield_is_computable_only_where_the_curve_is() {
    assert!(reserve_apy_computable(&solend_reserve(1, 100, 900, (2, 10, 50), 80)));
    assert!(!reserve_apy_computable(&solend_reserve(1, 100, 900, (2, 10, 5), 80)));
    assert!(reserve_apy_computable(&solend_reserve(1, 500, 500, (2, 10, 5), 80)));
    assert!(!reserve_apy_computable(&solend_reserve(1, 500, 500, (12, 10, 50), 80)));
    assert!(!reserve_apy_computable(&solend_reserve(1, 1_000, 0, (2, 10, 50), 0)));
    assert!(!reserve_apy_computable(&solend_reserve(1, 1, u128::MAX, (2, 10, 50), 80)));
    assert!(!reserve_apy_computable(&solend_reserve(1, 1, u128::MAX / 10_000 + 1, (2, 10, 50), 80)));
    assert!(reserve_apy_computable(&solend_reserve(1, 1, u128::MAX / 10_000, (2, 10, 50), 80)));
    assert!(port_apy_computable(&port_reserve(1, 100, 900, (2, 10, 50), 80)));
    assert!(!port_apy_computable(&port_reserve(1, 100, 900, (2, 10, 5), 80)));
    assert!(port_apy_computable(&port_reserve(1, u64::MAX, 1, (2, 10, 50), 80)));
    assert_eq!(calculate_port_apy(&port_reserve(1, u64::MAX, u64::MAX, (2, 10, 50), 80)), Ok(5));
    assert!(port_apy_computable(&port_reserve(1, u64::MAX - 1, 1, (2, 10, 50), 80)));
    assert!(!port_apy_computable(&port_reserve(1, 0, 0, (2, 10, 50), 0)));
    assert!(port_apy_computable(&port_reserve(1, 0, 900, (2, 10, 50), 200)));
}

#[test]
fn venue_holds_a_deposit_to_asset_and_minimum_yield() {
    let reserve = solend_reserve(1, 2_000, 8_000, (2, 10, 50), 80);
    assert_eq!(calculate_lending_apy(&reserve), Ok(7));
    assert_eq!(execute_solend_lend(&lend_intent(1, Some(500)), solend_params(), reserve), Ok(7));
    assert_eq!(execute_solend_lend(&lend_intent(1, Some(700)), solend_params(), reserve), Ok(7));
    assert_eq!(execute_solend_lend(&lend_intent(1, Some(701)), solend_params(), reserve), Err(IntentError::APYTooLow));
    assert_eq!(execute_solend_lend(&lend_intent(1, Some(7)), solend_params(), reserve), Ok(7));
    assert_eq!(execute_solend_lend(&lend_intent(1, None), solend_params(), reserve), Ok(7));
    assert_eq!(execute_solend_lend(&lend_intent(2, Some(1)), solend_params(), reserve), Err(IntentError::InvalidAmount));
    assert_eq!(execute_solend_lend(&lend_intent(2, Some(701)), solend_params(), reserve), Err(IntentError::InvalidAmount));
    let port = port_reserve(1, 100, 900, (2, 10, 50), 80);
    assert_eq!(calculate_port_apy(&port), Ok(22));
    assert_eq!(execute_port_lend(&lend_intent(1, Some(2_200)), port_params(), port), Ok(22));
    assert_eq!(execute_port_lend(&lend_intent(1, Some(2_201)), port_params(), port), Err(IntentError::APYTooLow));
    assert_eq!(execute_port_lend(&lend_intent(1, Some(10_000)), port_params(), port), Err(IntentError::APYTooLow));
    assert_eq!(execute_port_lend(&lend_intent(1, None), port_params(), port), Ok(22));
    assert_eq!(execute_port_lend(&lend_intent(3, None), port_params(), port), Err(IntentError::InvalidAmount));
}

#[test]
fn yield_in_percent_is_held_to_a_minimum_in_basis_points() {
    assert!(yield_meets_minimum(7, &lend_intent(1, Some(500))));
    assert!(yield_meets_minimum(7, &lend_intent(1, Some(700))));
    assert!(!yield_meets_minimum(7, &lend_intent(1, Some(701))));
    assert!(yield_meets_minimum(0, &lend_intent(1, None)));
    assert!(yield_meets_minimum(0, &lend_intent(1, Some(0))));
    assert!(!yield_meets_minimum(0, &lend_intent(1, Some(1))));
    assert!(yield_meets_minimum(u16::MAX, &lend_intent(1, Some(u16::MAX))));
    assert!(!yield_meets_minimum(655, &lend_intent(1, Some(u16::MAX))));
    assert!(yield_meets_minimum(656, &lend_intent(1, Some(u16::MAX))));
}
