use liquidity_pool::error::PoolError;
use liquidity_pool::liquidity::{
    add_liquidity, remove_liquidity, AddLiquidityRequest, AddLiquidityResult,
    RemoveLiquidityRequest, RemoveLiquidityResult,
};
use liquidity_pool::state::PoolState;
use liquidity_pool::swap::{
    quote_swap, swap, swap_with_direction, SwapDirection, SwapRequest, SwapResult,
};

fn pool(total_shares: u64) -> PoolState {
    PoolState { total_shares, fee_numerator: 3, fee_denominator: 1000 }
}

#[test]
fn bootstrap_mints_floor_average() {
    let mut p = pool(0);
    let r = add_liquidity(&mut p, 0, 0, 1000, 2000, AddLiquidityRequest { amount0: 1000, amount1: 2000 });
    assert_eq!(r, Ok(AddLiquidityResult { deposit0: 1000, deposit1: 2000, shares_minted: 1500 }));
    assert_eq!(p.total_shares, 1500);
}

#[test]
fn bootstrap_odd_sum_rounds_down() {
    let mut p = pool(0);
    let r = add_liquidity(&mut p, 0, 0, 10, 10, AddLiquidityRequest { amount0: 1, amount1: 2 });
    assert_eq!(r, Ok(AddLiquidityResult { deposit0: 1, deposit1: 2, shares_minted: 1 }));
    assert_eq!(p.total_shares, 1);
}

#[test]
fn steady_state_matches_ratio() {
    let mut p = pool(1500);
    let r = add_liquidity(&mut p, 1000, 2000, 100, 1000, AddLiquidityRequest { amount0: 100, amount1: 1000 });
    assert_eq!(r, Ok(AddLiquidityResult { deposit0: 100, deposit1: 200, shares_minted: 150 }));
    assert_eq!(p.total_shares, 1650);
}

#[test]
fn add_rejects_low_user_balance0() {
    let mut p = pool(0);
    let r = add_liquidity(&mut p, 0, 0, 10, 2000, AddLiquidityRequest { amount0: 100, amount1: 50 });
    assert_eq!(r, Err(PoolError::InsufficientBalance));
    assert_eq!(p.total_shares, 0);
}

#[test]
fn add_rejects_low_user_balance1() {
    let mut p = pool(0);
    let r = add_liquidity(&mut p, 0, 0, 1000, 40, AddLiquidityRequest { amount0: 100, amount1: 50 });
    assert_eq!(r, Err(PoolError::InsufficientBalance));
    assert_eq!(p.total_shares, 0);
}

#[test]
fn add_rejects_unmatched_ratio() {
    let mut p = pool(1500);
    let r = add_liquidity(&mut p, 1000, 2000, 100, 150, AddLiquidityRequest { amount0: 100, amount1: 150 });
    assert_eq!(r, Err(PoolError::InsufficientBalance));
    assert_eq!(p.total_shares, 1500);
}

#[test]
fn add_rejects_zero_mint_bootstrap() {
    let mut p = pool(0);
    let r = add_liquidity(&mut p, 0, 0, 10, 10, AddLiquidityRequest { amount0: 0, amount1: 1 });
    assert_eq!(r, Err(PoolError::ZeroMintAmount));
    assert_eq!(p.total_shares, 0);
}

#[test]
fn add_rejects_zero_mint_steady() {
    let mut p = pool(1500);
    let r = add_liquidity(&mut p, 1000, 2000, 100, 100, AddLiquidityRequest { amount0: 0, amount1: 100 });
    assert_eq!(r, Err(PoolError::ZeroMintAmount));
    assert_eq!(p.total_shares, 1500);
}

#[test]
fn add_rejects_deposit1_overflow() {
    let mut p = pool(1000);
    let r = add_liquidity(
        &mut p,
        1,
        u64::MAX,
        u64::MAX,
        u64::MAX,
        AddLiquidityRequest { amount0: 2, amount1: u64::MAX },
    );
    assert_eq!(r, Err(PoolError::ArithmeticOverflow));
    assert_eq!(p.total_shares, 1000);
}

#[test]
fn add_rejects_minted_overflow() {
    let mut p = pool(u64::MAX);
    let r = add_liquidity(&mut p, 1, 1, 10, 10, AddLiquidityRequest { amount0: 2, amount1: 2 });
    assert_eq!(r, Err(PoolError::ArithmeticOverflow));
    assert_eq!(p.total_shares, u64::MAX);
}

#[test]
fn add_rejects_supply_overflow() {
    let mut p = pool(u64::MAX);
    let r = add_liquidity(&mut p, 1, 1, 10, 10, AddLiquidityRequest { amount0: 1, amount1: 1 });
    assert_eq!(r, Err(PoolError::ArithmeticOverflow));
    assert_eq!(p.total_shares, u64::MAX);
}

#[test]
fn remove_pays_proportional_share() {
    let mut p = pool(1500);
    let r = remove_liquidity(&mut p, 1000, 2000, 150, RemoveLiquidityRequest { shares_burned: 150 });
    assert_eq!(r, Ok(RemoveLiquidityResult { amount0_out: 100, amount1_out: 200 }));
    assert_eq!(p.total_shares, 1350);
}

#[test]
fn remove_rounds_down() {
    let mut p = pool(1500);
    let r = remove_liquidity(&mut p, 1000, 2000, 10, RemoveLiquidityRequest { shares_burned: 1 });
    assert_eq!(r, Ok(RemoveLiquidityResult { amount0_out: 0, amount1_out: 1 }));
    assert_eq!(p.total_shares, 1499);
}

#[test]
fn remove_all_drains_reserves() {
    let mut p = pool(1500);
    let r = remove_liquidity(&mut p, 1000, 2000, 1500, RemoveLiquidityRequest { shares_burned: 1500 });
    assert_eq!(r, Ok(RemoveLiquidityResult { amount0_out: 1000, amount1_out: 2000 }));
    assert_eq!(p.total_shares, 0);
}

#[test]
fn remove_rejects_low_share_balance() {
    let mut p = pool(1500);
    let r = remove_liquidity(&mut p, 1000, 2000, 50, RemoveLiquidityRequest { shares_burned: 100 });
    assert_eq!(r, Err(PoolError::InsufficientBalance));
    assert_eq!(p.total_shares, 1500);
}

#[test]
fn remove_rejects_burn_exceeding_supply() {
    let mut p = pool(1500);
    let r = remove_liquidity(&mut p, 1000, 2000, 2000, RemoveLiquidityRequest { shares_burned: 2000 });
    assert_eq!(r, Err(PoolError::BurnExceedsSupply));
    assert_eq!(p.total_shares, 1500);
}

#[test]
fn swap_constant_product_example() {
    let p = pool(1500);
    let r = swap(&p, 1000, 2000, 100, 100, 0);
    assert_eq!(r, Ok(SwapResult { amount_out: 182 }));
}

#[test]
fn swap_charges_fee_on_input() {
    let with_fee = pool(1500);
    let free = PoolState { total_shares: 1500, fee_numerator: 0, fee_denominator: 1 };
    // 1000 in on a 1000/2000 pool: fee 3 leaves 997 effective, paying out 999
    // instead of the fee-free 1000.
    assert_eq!(swap(&with_fee, 1000, 2000, 1000, 1000, 0), Ok(SwapResult { amount_out: 999 }));
    assert_eq!(swap(&free, 1000, 2000, 1000, 1000, 0), Ok(SwapResult { amount_out: 1000 }));
}

#[test]
fn swap_rejects_low_balance() {
    let p = pool(1500);
    let r = swap(&p, 1000, 2000, 50, 100, 0);
    assert_eq!(r, Err(PoolError::InsufficientBalance));
}

#[test]
fn swap_rejects_slippage() {
    let p = pool(1500);
    let r = swap(&p, 1000, 2000, 100, 100, 183);
    assert_eq!(r, Err(PoolError::SlippageExceeded));
}

#[test]
fn quote_matches_swap() {
    let p = pool(1500);
    assert_eq!(quote_swap(&p, 1000, 2000, 100), 182);
}

#[test]
fn swap_direction_zero_to_one() {
    let p = pool(1500);
    let r = swap_with_direction(
        &p,
        1000,
        2000,
        100,
        SwapRequest { amount_in: 100, min_amount_out: 0, direction: SwapDirection::ZeroToOne },
    );
    assert_eq!(r, Ok(SwapResult { amount_out: 182 }));
}

#[test]
fn swap_direction_one_to_zero() {
    let p = pool(1500);
    let r = swap_with_direction(
        &p,
        1000,
        2000,
        100,
        SwapRequest { amount_in: 100, min_amount_out: 0, direction: SwapDirection::OneToZero },
    );
    assert_eq!(r, Ok(SwapResult { amount_out: 48 }));
}

#[test]
fn swap_into_empty_source_reserve_pays_whole_destination() {
    let p = pool(1500);
    let r = swap(&p, 0, 500, 100, 100, 0);
    assert_eq!(r, Ok(SwapResult { amount_out: 500 }));
}

#[test]
fn swap_can_drain_destination_reserve() {
    let heavy_fee = PoolState { total_shares: 1500, fee_numerator: 1, fee_denominator: 2 };
    // 1000 in against reserves of 1000/1: half is fee, the payout division
    // rounds the kept destination reserve to zero, and the single unit left
    // is paid out whole.
    let r = swap(&heavy_fee, 1000, 1, 1000, 1000, 0);
    assert_eq!(r, Ok(SwapResult { amount_out: 1 }));
}

#[test]
fn add_overflow_precedes_ratio_check() {
    let mut p = pool(1000);
    // The matched deposit overflows before it is ever compared against the
    // supplied asset-1 amount.
    let r = add_liquidity(
        &mut p,
        1,
        u64::MAX,
        u64::MAX,
        0,
        AddLiquidityRequest { amount0: 2, amount1: 0 },
    );
    assert_eq!(r, Err(PoolError::ArithmeticOverflow));
    assert_eq!(p.total_shares, 1000);
}

#[test]
fn round_trip_returns_no_more_than_deposited() {
    let mut p = pool(1500);
    let added = add_liquidity(&mut p, 1000, 2000, 100, 1000, AddLiquidityRequest { amount0: 100, amount1: 1000 })
        .unwrap();
    let removed = remove_liquidity(
        &mut p,
        1000 + added.deposit0,
        2000 + added.deposit1,
        added.shares_minted,
        RemoveLiquidityRequest { shares_burned: added.shares_minted },
    )
    .unwrap();
    assert!(removed.amount0_out <= added.deposit0);
    assert!(removed.amount1_out <= added.deposit1);
    assert_eq!(removed, RemoveLiquidityResult { amount0_out: 100, amount1_out: 200 });
    assert_eq!(p.total_shares, 1500);
}

#[test]
fn swap_with_fee_grows_product() {
    let p = pool(1500);
    let out = swap(&p, 1000, 2000, 1000, 1000, 0).unwrap().amount_out;
    let product_before = 1000u128 * 2000u128;
    let product_after = (1000u128 + 1000u128) * (2000u128 - out as u128);
    assert!(product_after >= product_before);
}

#[test]
fn swap_zero_fee_loses_less_than_one_unit() {
    let free = PoolState { total_shares: 1500, fee_numerator: 0, fee_denominator: 1 };
    let out = swap(&free, 1000, 2000, 100, 100, 0).unwrap().amount_out;
    let product_before = 1000u128 * 2000u128;
    let new_dst = 2000u128 - out as u128;
    // The rounded payout may dip just below the pre-trade product...
    assert!((1000u128 + 100u128) * new_dst < product_before);
    // ...but by less than one destination unit.
    assert!((1000u128 + 100u128) * (new_dst + 1) > product_before);
}
