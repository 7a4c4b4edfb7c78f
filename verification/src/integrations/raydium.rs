//! The direct constant-product venue: pricing of a swap against a pool's
//! reserves, with the venue's fee taken from the input side.

use vstd::prelude::*;
use vstd::arithmetic::div_mod::{lemma_div_is_ordered, lemma_div_is_ordered_by_denominator, lemma_div_pos_is_pos};
use vstd::arithmetic::mul::{lemma_mul_inequality, lemma_mul_is_commutative, lemma_mul_nonnegative};
use crate::errors::IntentError;
use crate::fixed_point::lemma_product_fits_u128;
use crate::pubkey::{filled_key, Pubkey};

verus! {

/// The venue's fee, in parts of `RAYDIUM_FEE_DENOMINATOR`.
pub const RAYDIUM_FEE_NUMERATOR: u64 = 25;

/// Denominator of the venue's fee.
pub const RAYDIUM_FEE_DENOMINATOR: u64 = 10000;

/// One swap against a pool.
#[derive(Clone, Copy, Debug, PartialEq, Eq)]
pub struct RaydiumSwapParams {
    pub pool_id: Pubkey,
    pub from_mint: Pubkey,
    pub to_mint: Pubkey,
    pub amount_in: u64,
    pub minimum_amount_out: u64,
}

/// A pool's state as the venue reports it.
#[derive(Clone, Copy, Debug, PartialEq, Eq)]
pub struct RaydiumPoolInfo {
    pub status: u64,
    pub nonce: u64,
    pub order_num: u64,
    pub depth: u64,
    pub coin_decimals: u64,
    pub pc_decimals: u64,
    pub state: u64,
    pub reset_flag: u64,
    pub min_size: u64,
    pub vol_max_cut_ratio: u64,
    pub amount_wave_ratio: u64,
    pub coin_lot_size: u64,
    pub pc_lot_size: u64,
    pub min_price_multiplier: u64,
    pub max_price_multiplier: u64,
    pub sys_decimal_value: u64,
    pub pool_coin_token_account: Pubkey,
    pub pool_pc_token_account: Pubkey,
    pub coin_mint_address: Pubkey,
    pub pc_mint_address: Pubkey,
    pub lp_mint_address: Pubkey,
    pub amm_open_orders: Pubkey,
    pub serum_market: Pubkey,
    pub serum_program_id: Pubkey,
    pub amm_target_orders: Pubkey,
    pub pool_withdraw_queue: Pubkey,
    pub pool_temp_lp_token_account: Pubkey,
    pub amm_owner: Pubkey,
    pub pool_coin_amount: u64,
    pub pool_pc_amount: u64,
}

/// The input that takes part in the trade once the fee is held back,
/// scaled by the fee's denominator.
pub open spec fn amount_in_with_fee(amount_in: int, fee_numerator: int, fee_denominator: int) -> int {
    amount_in * (fee_denominator - fee_numerator)
}

/// Dividend of the constant-product formula.
pub open spec fn swap_numerator(
    amount_in: int,
    reserve_out: int,
    fee_numerator: int,
    fee_denominator: int,
) -> int {
    amount_in_with_fee(amount_in, fee_numerator, fee_denominator) * reserve_out
}

/// Divisor of the constant-product formula.
pub open spec fn swap_denominator(
    amount_in: int,
    reserve_in: int,
    fee_numerator: int,
    fee_denominator: int,
) -> int {
    reserve_in * fee_denominator + amount_in_with_fee(amount_in, fee_numerator, fee_denominator)
}

/// Output of a constant-product swap:
/// `floor(amount_in * m * reserve_out / (reserve_in * fee_denominator + amount_in * m))`
/// with `m = fee_denominator - fee_numerator`. All products precede the one
/// division, which rounds down.
pub open spec fn swap_output(
    amount_in: int,
    reserve_in: int,
    reserve_out: int,
    fee_numerator: int,
    fee_denominator: int,
) -> int {
    swap_numerator(amount_in, reserve_out, fee_numerator, fee_denominator) / swap_denominator(
        amount_in,
        reserve_in,
        fee_numerator,
        fee_denominator,
    )
}

/// Whether the formula can be evaluated without a fault: the fee is at most
/// the whole, the divisor is not zero, and dividend and divisor fit in 128
/// bits.
pub open spec fn swap_output_defined(
    amount_in: int,
    reserve_in: int,
    reserve_out: int,
    fee_numerator: int,
    fee_denominator: int,
) -> bool {
    &&& fee_numerator <= fee_denominator
    &&& swap_numerator(amount_in, reserve_out, fee_numerator, fee_denominator) <= u128::MAX
    &&& swap_denominator(amount_in, reserve_in, fee_numerator, fee_denominator) <= u128::MAX
    &&& swap_denominator(amount_in, reserve_in, fee_numerator, fee_denominator) != 0
}

/// A swap never pays out more than the pool holds of the output asset, and
/// never a negative amount.
pub proof fn lemma_swap_output_at_most_reserve(
    amount_in: u64,
    reserve_in: u64,
    reserve_out: u64,
    fee_numerator: u64,
    fee_denominator: u64,
)
    requires
        fee_numerator <= fee_denominator,
        swap_denominator(amount_in as int, reserve_in as int, fee_numerator as int, fee_denominator as int) != 0,
    ensures
        0 <= swap_output(
            amount_in as int,
            reserve_in as int,
            reserve_out as int,
            fee_numerator as int,
            fee_denominator as int,
        ) <= reserve_out,
{
    let w = amount_in_with_fee(amount_in as int, fee_numerator as int, fee_denominator as int);
    let d = swap_denominator(amount_in as int, reserve_in as int, fee_numerator as int, fee_denominator as int);
    let r = reserve_out as int;
    lemma_mul_nonnegative(amount_in as int, fee_denominator - fee_numerator);
    lemma_mul_nonnegative(reserve_in as int, fee_denominator as int);
    lemma_mul_nonnegative(w, r);
    assert(0 <= w <= d);
    assert(0 < d);
    lemma_div_pos_is_pos(w * r, d);
    lemma_mul_inequality(w, d, r);
    lemma_div_is_ordered(w * r, d * r, d);
    assert((d * r) / d == r) by (nonlinear_arith)
        requires
            0 < d,
    ;
}

/// For a fixed input, a deeper output reserve never lowers the output.
pub proof fn lemma_swap_output_monotone_in_reserve_out(
    amount_in: u64,
    reserve_in: u64,
    reserve_out_low: u64,
    reserve_out_high: u64,
    fee_numerator: u64,
    fee_denominator: u64,
)
    requires
        fee_numerator <= fee_denominator,
        swap_denominator(amount_in as int, reserve_in as int, fee_numerator as int, fee_denominator as int) != 0,
        reserve_out_low <= reserve_out_high,
    ensures
        swap_output(
            amount_in as int,
            reserve_in as int,
            reserve_out_low as int,
            fee_numerator as int,
            fee_denominator as int,
        ) <= swap_output(
            amount_in as int,
            reserve_in as int,
            reserve_out_high as int,
            fee_numerator as int,
            fee_denominator as int,
        ),
{
    let w = amount_in_with_fee(amount_in as int, fee_numerator as int, fee_denominator as int);
    let d = swap_denominator(amount_in as int, reserve_in as int, fee_numerator as int, fee_denominator as int);
    lemma_mul_nonnegative(amount_in as int, fee_denominator - fee_numerator);
    lemma_mul_nonnegative(reserve_in as int, fee_denominator as int);
    assert(0 < d);
    lemma_mul_inequality(reserve_out_low as int, reserve_out_high as int, w);
    lemma_mul_is_commutative(w, reserve_out_low as int);
    lemma_mul_is_commutative(w, reserve_out_high as int);
    lemma_div_is_ordered(w * reserve_out_low, w * reserve_out_high, d);
}

/// For a fixed input, a deeper input reserve never raises the output.
pub proof fn lemma_swap_output_antitone_in_reserve_in(
    amount_in: u64,
    reserve_in_low: u64,
    reserve_in_high: u64,
    reserve_out: u64,
    fee_numerator: u64,
    fee_denominator: u64,
)
    requires
        fee_numerator <= fee_denominator,
        swap_denominator(amount_in as int, reserve_in_low as int, fee_numerator as int, fee_denominator as int)
            != 0,
        reserve_in_low <= reserve_in_high,
    ensures
        swap_output(
            amount_in as int,
            reserve_in_high as int,
            reserve_out as int,
            fee_numerator as int,
            fee_denominator as int,
        ) <= swap_output(
            amount_in as int,
            reserve_in_low as int,
            reserve_out as int,
            fee_numerator as int,
            fee_denominator as int,
        ),
{
    let w = amount_in_with_fee(amount_in as int, fee_numerator as int, fee_denominator as int);
    let d_low = swap_denominator(
        amount_in as int,
        reserve_in_low as int,
        fee_numerator as int,
        fee_denominator as int,
    );
    let d_high = swap_denominator(
        amount_in as int,
        reserve_in_high as int,
        fee_numerator as int,
        fee_denominator as int,
    );
    lemma_mul_nonnegative(amount_in as int, fee_denominator - fee_numerator);
    lemma_mul_nonnegative(reserve_in_low as int, fee_denominator as int);
    lemma_mul_nonnegative(w, reserve_out as int);
    lemma_mul_inequality(reserve_in_low as int, reserve_in_high as int, fee_denominator as int);
    assert(1 <= d_low <= d_high);
    lemma_div_is_ordered_by_denominator(w * reserve_out, d_low, d_high);
}

/// Evaluates the constant-product formula with checked 128-bit arithmetic,
/// or reports that it cannot be evaluated.
pub fn try_calculate_raydium_output(
    amount_in: u64,
    reserve_in: u64,
    reserve_out: u64,
    fee_numerator: u64,
    fee_denominator: u64,
) -> (amount_out: Option<u64>)
    ensures
        amount_out == if swap_output_defined(
            amount_in as int,
            reserve_in as int,
            reserve_out as int,
            fee_numerator as int,
            fee_denominator as int,
        ) {
            Some(
                swap_output(
                    amount_in as int,
                    reserve_in as int,
                    reserve_out as int,
                    fee_numerator as int,
                    fee_denominator as int,
                ) as u64,
            )
        } else {
            None::<u64>
        },
        amount_out is Some ==> amount_out->0 == swap_output(
            amount_in as int,
            reserve_in as int,
            reserve_out as int,
            fee_numerator as int,
            fee_denominator as int,
        ),
{
    let fee_multiplier: u64 = match fee_denominator.checked_sub(fee_numerator) {
        Some(m) => m,
        None => {
            return None;
        },
    };
    proof {
        lemma_product_fits_u128(amount_in, fee_multiplier);
        lemma_product_fits_u128(reserve_in, fee_denominator);
    }
    let amount_in_with_fee: u128 = (amount_in as u128) * (fee_multiplier as u128);
    let numerator: u128 = match amount_in_with_fee.checked_mul(reserve_out as u128) {
        Some(n) => n,
        None => {
            return None;
        },
    };
    let scaled_reserve: u128 = (reserve_in as u128) * (fee_denominator as u128);
    let denominator: u128 = match scaled_reserve.checked_add(amount_in_with_fee) {
        Some(d) => d,
        None => {
            return None;
        },
    };
    if denominator == 0 {
        return None;
    }
    proof {
        lemma_swap_output_at_most_reserve(amount_in, reserve_in, reserve_out, fee_numerator, fee_denominator);
    }
    let wide: u128 = numerator / denominator;
    Some(wide as u64)
}

/// Output of a swap of `amount_in` against the given reserves. The caller
/// shows that the formula can be evaluated; the result is exact.
pub fn calculate_raydium_output(
    amount_in: u64,
    reserve_in: u64,
    reserve_out: u64,
    fee_numerator: u64,
    fee_denominator: u64,
) -> (amount_out: Result<u64, IntentError>)
    requires
        swap_output_defined(
            amount_in as int,
            reserve_in as int,
            reserve_out as int,
            fee_numerator as int,
            fee_denominator as int,
        ),
    ensures
        amount_out is Ok,
        amount_out->Ok_0 == swap_output(
            amount_in as int,
            reserve_in as int,
            reserve_out as int,
            fee_numerator as int,
            fee_denominator as int,
        ),
        amount_out->Ok_0 <= reserve_out,
{
    proof {
        lemma_swap_output_at_most_reserve(amount_in, reserve_in, reserve_out, fee_numerator, fee_denominator);
    }
    let amount_out = try_calculate_raydium_output(
        amount_in,
        reserve_in,
        reserve_out,
        fee_numerator,
        fee_denominator,
    );
    Ok(amount_out.unwrap())
}

/// The pool's reserves as seen by a trade that pays in `from_mint`: the
/// reserve paid into, then the reserve paid out of. A trade that pays in
/// the pool's coin draws on the price-currency reserve; any other trade is
/// taken to pay in the price currency.
pub open spec fn directed_reserves(from_mint: Pubkey, pool: RaydiumPoolInfo) -> (u64, u64) {
    if from_mint@ == pool.coin_mint_address@ {
        (pool.pool_coin_amount, pool.pool_pc_amount)
    } else {
        (pool.pool_pc_amount, pool.pool_coin_amount)
    }
}

/// Output of a trade priced in the direction it pays in, at the venue's fee.
pub open spec fn directed_quote(amount_in: u64, from_mint: Pubkey, pool: RaydiumPoolInfo) -> int {
    let (reserve_in, reserve_out) = directed_reserves(from_mint, pool);
    swap_output(amount_in as int, reserve_in as int, reserve_out as int, 25, 10000)
}

/// Whether `directed_quote` can be evaluated.
pub open spec fn directed_quote_defined(amount_in: u64, from_mint: Pubkey, pool: RaydiumPoolInfo) -> bool {
    let (reserve_in, reserve_out) = directed_reserves(from_mint, pool);
    swap_output_defined(amount_in as int, reserve_in as int, reserve_out as int, 25, 10000)
}

/// What a swap returns once its output is known: the output where it
/// reaches the minimum, a refusal where it does not.
pub open spec fn slippage_checked(output: int, minimum_amount_out: u64) -> Result<u64, IntentError> {
    if output >= minimum_amount_out {
        Ok(output as u64)
    } else {
        Err(IntentError::SlippageExceeded)
    }
}

/// Prices a swap in the direction it pays in and holds the output to the
/// caller's minimum.
pub fn execute_raydium_swap(swap_params: RaydiumSwapParams, pool_info: RaydiumPoolInfo) -> (outcome: Result<
    u64,
    IntentError,
>)
    requires
        directed_quote_defined(swap_params.amount_in, swap_params.from_mint, pool_info),
    ensures
        outcome == slippage_checked(
            directed_quote(swap_params.amount_in, swap_params.from_mint, pool_info),
            swap_params.minimum_amount_out,
        ),
{
    let (reserve_in, reserve_out) = if swap_params.from_mint.same_as(&pool_info.coin_mint_address) {
        (pool_info.pool_coin_amount, pool_info.pool_pc_amount)
    } else {
        (pool_info.pool_pc_amount, pool_info.pool_coin_amount)
    };
    let estimated_output = match calculate_raydium_output(
        swap_params.amount_in,
        reserve_in,
        reserve_out,
        RAYDIUM_FEE_NUMERATOR,
        RAYDIUM_FEE_DENOMINATOR,
    ) {
        Ok(v) => v,
        Err(e) => {
            return Err(e);
        },
    };
    if estimated_output < swap_params.minimum_amount_out {
        return Err(IntentError::SlippageExceeded);
    }
    Ok(estimated_output)
}

/// Prices a swap as `execute_raydium_swap` does, for a caller that holds
/// the pool's figures and needs no further account of the venue: the
/// reserve of the asset paid in is the input reserve, and the output is
/// held to the caller's minimum.
pub fn execute_raydium_swap_simple(params: RaydiumSwapParams, pool_info: RaydiumPoolInfo) -> (outcome: Result<
    u64,
    IntentError,
>)
    requires
        directed_quote_defined(params.amount_in, params.from_mint, pool_info),
    ensures
        outcome == slippage_checked(
            directed_quote(params.amount_in, params.from_mint, pool_info),
            params.minimum_amount_out,
        ),
{
    let pays_coin: bool = params.from_mint.same_as(&pool_info.coin_mint_address);
    let reserve_in: u64 = if pays_coin {
        pool_info.pool_coin_amount
    } else {
        pool_info.pool_pc_amount
    };
    let reserve_out: u64 = if pays_coin {
        pool_info.pool_pc_amount
    } else {
        pool_info.pool_coin_amount
    };
    let output_amount = match calculate_raydium_output(
        params.amount_in,
        reserve_in,
        reserve_out,
        RAYDIUM_FEE_NUMERATOR,
        RAYDIUM_FEE_DENOMINATOR,
    ) {
        Ok(v) => v,
        Err(e) => {
            return Err(e);
        },
    };
    if output_amount < params.minimum_amount_out {
        return Err(IntentError::SlippageExceeded);
    }
    Ok(output_amount)
}

/// The most traded pools, each with its label and its key.
pub fn get_popular_pools() -> (pools: Vec<(String, Pubkey)>)
    ensures
        pools@.len() == 4,
        pools@[0].0@ == "SOL-USDC"@,
        pools@[0].1@ == filled_key(1),
        pools@[1].0@ == "SOL-USDT"@,
        pools@[1].1@ == filled_key(2),
        pools@[2].0@ == "RAY-SOL"@,
        pools@[2].1@ == filled_key(3),
        pools@[3].0@ == "RAY-USDC"@,
        pools@[3].1@ == filled_key(4),
{
    let mut pools: Vec<(String, Pubkey)> = Vec::new();
    pools.push(("SOL-USDC".to_string(), Pubkey::filled(1)));
    pools.push(("SOL-USDT".to_string(), Pubkey::filled(2)));
    pools.push(("RAY-SOL".to_string(), Pubkey::filled(3)));
    pools.push(("RAY-USDC".to_string(), Pubkey::filled(4)));
    pools
}

} // verus!
