use crate::error::PoolError;
use crate::math::{
    lemma_div_rounding_window, lemma_half_sum_fits_u64, lemma_mul_div_exact, lemma_mul_div_le,
    lemma_u64_mul_fits_u128,
};
use crate::state::PoolState;
use vstd::arithmetic::div_mod::{lemma_div_pos_is_pos, lemma_multiply_divide_le};
use vstd::arithmetic::mul::lemma_mul_nonnegative;
use vstd::prelude::*;

verus! {

/// A provider's request to deposit up to `amount0` of asset 0 and `amount1`
/// of asset 1.
#[derive(Clone, Copy, Debug, PartialEq, Eq, Structural)]
pub struct AddLiquidityRequest {
    pub amount0: u64,
    pub amount1: u64,
}

/// The fund movements owed after a successful deposit: transfer `deposit0`
/// and `deposit1` from the provider to the pool and mint `shares_minted`
/// shares to the provider.
#[derive(Clone, Copy, Debug, PartialEq, Eq, Structural)]
pub struct AddLiquidityResult {
    pub deposit0: u64,
    pub deposit1: u64,
    pub shares_minted: u64,
}

/// A provider's request to burn `shares_burned` of their liquidity shares.
#[derive(Clone, Copy, Debug, PartialEq, Eq, Structural)]
pub struct RemoveLiquidityRequest {
    pub shares_burned: u64,
}

/// The fund movements owed after a successful withdrawal: burn the shares and
/// transfer `amount0_out` and `amount1_out` from the pool to the provider.
#[derive(Clone, Copy, Debug, PartialEq, Eq, Structural)]
pub struct RemoveLiquidityResult {
    pub amount0_out: u64,
    pub amount1_out: u64,
}

/// An empty pool holds nothing of either asset; deposits into it set the
/// initial exchange rate rather than match an existing one.
pub open spec fn pool_is_empty(reserve0: u64, reserve1: u64) -> bool {
    reserve0 == 0 && reserve1 == 0
}

/// Shares minted by the first deposit: the floor average of the two amounts.
pub open spec fn bootstrap_shares(amount0: u64, amount1: u64) -> int {
    (amount0 + amount1) / 2
}

/// Exchange rate of a non-empty pool, as the floor of `reserve1 / reserve0`.
pub open spec fn steady_rate(reserve0: u64, reserve1: u64) -> int {
    reserve1 as int / reserve0 as int
}

/// Asset-1 amount that matches a deposit of `amount0` at the pool's rate.
pub open spec fn steady_deposit1(reserve0: u64, reserve1: u64, amount0: u64) -> int {
    amount0 * steady_rate(reserve0, reserve1)
}

/// Shares minted for a matched deposit: the deposit's share of reserve 1,
/// scaled to the outstanding supply, rounded down.
pub open spec fn steady_shares(reserve1: u64, total_shares: u64, deposit1: int) -> int {
    deposit1 * total_shares / (reserve1 as int)
}

/// The outcome `add_liquidity` owes for a given snapshot and request: either
/// the error, or `(deposit0, deposit1, shares_minted)` as unbounded integers.
/// Checks run in this order, and the first failure wins.
pub open spec fn add_liquidity_outcome(
    total_shares: u64,
    reserve0: u64,
    reserve1: u64,
    user_balance0: u64,
    user_balance1: u64,
    amount0: u64,
    amount1: u64,
) -> Result<(int, int, int), PoolError> {
    if amount0 > user_balance0 || amount1 > user_balance1 {
        Err(PoolError::InsufficientBalance)
    } else if pool_is_empty(reserve0, reserve1) {
        let minted = bootstrap_shares(amount0, amount1);
        if minted == 0 {
            Err(PoolError::ZeroMintAmount)
        } else if total_shares + minted > u64::MAX {
            Err(PoolError::ArithmeticOverflow)
        } else {
            Ok((amount0 as int, amount1 as int, minted))
        }
    } else {
        let deposit1 = steady_deposit1(reserve0, reserve1, amount0);
        if deposit1 > u64::MAX {
            Err(PoolError::ArithmeticOverflow)
        } else if deposit1 > amount1 {
            Err(PoolError::InsufficientBalance)
        } else {
            let minted = steady_shares(reserve1, total_shares, deposit1);
            if minted > u64::MAX {
                Err(PoolError::ArithmeticOverflow)
            } else if minted == 0 {
                Err(PoolError::ZeroMintAmount)
            } else if total_shares + minted > u64::MAX {
                Err(PoolError::ArithmeticOverflow)
            } else {
                Ok((amount0 as int, deposit1, minted))
            }
        }
    }
}

/// The outcome `remove_liquidity` owes: either the error, or
/// `(amount0_out, amount1_out)` as unbounded integers.
pub open spec fn remove_liquidity_outcome(
    total_shares: u64,
    reserve0: u64,
    reserve1: u64,
    user_share_balance: u64,
    shares_to_burn: u64,
) -> Result<(int, int), PoolError> {
    if shares_to_burn > user_share_balance {
        Err(PoolError::InsufficientBalance)
    } else if shares_to_burn > total_shares {
        Err(PoolError::BurnExceedsSupply)
    } else {
        Ok(
            (
                shares_to_burn * reserve0 / (total_shares as int),
                shares_to_burn * reserve1 / (total_shares as int),
            ),
        )
    }
}

/// Computes the deposit and the shares to mint for a liquidity deposit, and
/// books the minted shares into the pool's supply.
///
/// On an empty pool both requested amounts are accepted in full and the
/// minted shares are their floor average. On a non-empty pool the deposit
/// must match the pool's rate: `deposit1` is `amount0` times the floor of
/// `reserve1 / reserve0`, and the minted shares are `deposit1`'s share of
/// reserve 1 scaled to the outstanding supply. On any error the pool is
/// left unchanged.
pub fn add_liquidity(
    pool: &mut PoolState,
    reserve0: u64,
    reserve1: u64,
    user_balance0: u64,
    user_balance1: u64,
    request: AddLiquidityRequest,
) -> (r: Result<AddLiquidityResult, PoolError>)
    requires
        old(pool).wf(),
        (reserve0 == 0) == (reserve1 == 0),
    ensures
        final(pool).wf(),
        final(pool).fee_numerator == old(pool).fee_numerator,
        final(pool).fee_denominator == old(pool).fee_denominator,
        match r {
            Ok(res) => add_liquidity_outcome(
                old(pool).total_shares,
                reserve0,
                reserve1,
                user_balance0,
                user_balance1,
                request.amount0,
                request.amount1,
            ) == Ok::<(int, int, int), PoolError>(
                (res.deposit0 as int, res.deposit1 as int, res.shares_minted as int),
            ) && final(pool).total_shares == old(pool).total_shares + res.shares_minted,
            Err(e) => add_liquidity_outcome(
                old(pool).total_shares,
                reserve0,
                reserve1,
                user_balance0,
                user_balance1,
                request.amount0,
                request.amount1,
            ) == Err::<(int, int, int), PoolError>(e) && final(pool).total_shares == old(
                pool,
            ).total_shares,
        },
{
    let amount0 = request.amount0;
    let amount1 = request.amount1;
    if amount0 > user_balance0 || amount1 > user_balance1 {
        return Err(PoolError::InsufficientBalance);
    }
    let deposit0 = amount0;
    let deposit1: u64;
    let shares_minted: u64;
    if reserve0 == 0 && reserve1 == 0 {
        deposit1 = amount1;
        let sum_wide: u128 = amount0 as u128 + amount1 as u128;
        let minted_wide: u128 = sum_wide / 2;
        proof {
            lemma_half_sum_fits_u64(amount0, amount1);
        }
        shares_minted = minted_wide as u64;
    } else {
        let rate: u64 = reserve1 / reserve0;
        proof {
            lemma_u64_mul_fits_u128(amount0, rate);
        }
        let deposit1_wide: u128 = (amount0 as u128) * (rate as u128);
        if deposit1_wide > u64::MAX as u128 {
            return Err(PoolError::ArithmeticOverflow);
        }
        deposit1 = deposit1_wide as u64;
        if deposit1 > amount1 {
            return Err(PoolError::InsufficientBalance);
        }
        proof {
            lemma_u64_mul_fits_u128(deposit1, pool.total_shares);
        }
        let minted_wide: u128 = (deposit1 as u128) * (pool.total_shares as u128)
            / (reserve1 as u128);
        if minted_wide > u64::MAX as u128 {
            return Err(PoolError::ArithmeticOverflow);
        }
        shares_minted = minted_wide as u64;
    }
    if shares_minted == 0 {
        return Err(PoolError::ZeroMintAmount);
    }
    if shares_minted > u64::MAX - pool.total_shares {
        return Err(PoolError::ArithmeticOverflow);
    }
    pool.total_shares = pool.total_shares + shares_minted;
    Ok(AddLiquidityResult { deposit0, deposit1, shares_minted })
}

/// Computes the withdrawal owed for burning `shares_burned` shares, and books
/// the burn out of the pool's supply.
///
/// Each asset is paid out as the burned shares' proportional slice of its
/// reserve, rounded down. On any error the pool is left unchanged.
pub fn remove_liquidity(
    pool: &mut PoolState,
    reserve0: u64,
    reserve1: u64,
    user_share_balance: u64,
    request: RemoveLiquidityRequest,
) -> (r: Result<RemoveLiquidityResult, PoolError>)
    requires
        old(pool).wf(),
        old(pool).total_shares > 0 || request.shares_burned > 0,
    ensures
        final(pool).wf(),
        final(pool).fee_numerator == old(pool).fee_numerator,
        final(pool).fee_denominator == old(pool).fee_denominator,
        match r {
            Ok(res) => remove_liquidity_outcome(
                old(pool).total_shares,
                reserve0,
                reserve1,
                user_share_balance,
                request.shares_burned,
            ) == Ok::<(int, int), PoolError>((res.amount0_out as int, res.amount1_out as int))
                && final(pool).total_shares == old(pool).total_shares - request.shares_burned,
            Err(e) => remove_liquidity_outcome(
                old(pool).total_shares,
                reserve0,
                reserve1,
                user_share_balance,
                request.shares_burned,
            ) == Err::<(int, int), PoolError>(e) && final(pool).total_shares == old(
                pool,
            ).total_shares,
        },
{
    let shares_to_burn = request.shares_burned;
    if shares_to_burn > user_share_balance {
        return Err(PoolError::InsufficientBalance);
    }
    if shares_to_burn > pool.total_shares {
        return Err(PoolError::BurnExceedsSupply);
    }
    let total_shares = pool.total_shares;
    proof {
        lemma_u64_mul_fits_u128(shares_to_burn, reserve0);
        lemma_u64_mul_fits_u128(shares_to_burn, reserve1);
        lemma_mul_div_le(shares_to_burn as int, reserve0 as int, total_shares as int);
        lemma_mul_div_le(shares_to_burn as int, reserve1 as int, total_shares as int);
    }
    let amount0_wide: u128 = (shares_to_burn as u128) * (reserve0 as u128)
        / (total_shares as u128);
    let amount1_wide: u128 = (shares_to_burn as u128) * (reserve1 as u128)
        / (total_shares as u128);
    let amount0_out = amount0_wide as u64;
    let amount1_out = amount1_wide as u64;
    pool.total_shares = total_shares - shares_to_burn;
    Ok(RemoveLiquidityResult { amount0_out, amount1_out })
}

/// Law: burning the entire outstanding supply drains the pool exactly; the
/// withdrawal is the full reserve of each asset, with nothing rounded away.
pub proof fn lemma_remove_all_shares_returns_reserves(
    total_shares: u64,
    reserve0: u64,
    reserve1: u64,
    user_share_balance: u64,
)
    requires
        total_shares > 0,
        user_share_balance >= total_shares,
    ensures
        remove_liquidity_outcome(total_shares, reserve0, reserve1, user_share_balance, total_shares)
            == Ok::<(int, int), PoolError>((reserve0 as int, reserve1 as int)),
{
    lemma_mul_div_exact(reserve0 as int, total_shares as int);
    lemma_mul_div_exact(reserve1 as int, total_shares as int);
}

/// Law: on a non-empty pool, depositing and then at once burning exactly the
/// shares just minted returns at most what was deposited; the rounding of
/// both the mint and the withdrawal favors the pool.
///
/// The two reserve-sum bounds only keep the post-deposit snapshot
/// representable in 64 bits, as any snapshot the custody layer can hold is.
pub proof fn lemma_add_then_remove_returns_no_more(
    total_shares: u64,
    reserve0: u64,
    reserve1: u64,
    user_balance0: u64,
    user_balance1: u64,
    amount0: u64,
    amount1: u64,
)
    requires
        reserve0 > 0,
        reserve1 > 0,
        add_liquidity_outcome(
            total_shares,
            reserve0,
            reserve1,
            user_balance0,
            user_balance1,
            amount0,
            amount1,
        ) is Ok,
        reserve0 + amount0 <= u64::MAX,
        reserve1 + steady_deposit1(reserve0, reserve1, amount0) <= u64::MAX,
    ensures
        ({
            let deposit = add_liquidity_outcome(
                total_shares,
                reserve0,
                reserve1,
                user_balance0,
                user_balance1,
                amount0,
                amount1,
            )->Ok_0;
            let after = remove_liquidity_outcome(
                (total_shares + deposit.2) as u64,
                (reserve0 + deposit.0) as u64,
                (reserve1 + deposit.1) as u64,
                deposit.2 as u64,
                deposit.2 as u64,
            );
            &&& after is Ok
            &&& after->Ok_0.0 <= deposit.0
            &&& after->Ok_0.1 <= deposit.1
        }),
{
    let ts = total_shares as int;
    let r0 = reserve0 as int;
    let r1 = reserve1 as int;
    let a0 = amount0 as int;
    let rate = steady_rate(reserve0, reserve1);
    let d1 = steady_deposit1(reserve0, reserve1, amount0);
    let minted = steady_shares(reserve1, total_shares, d1);
    let nts = ts + minted;
    let nr0 = r0 + a0;
    let nr1 = r1 + d1;
    lemma_div_pos_is_pos(r1, r0);
    lemma_mul_nonnegative(a0, rate);
    lemma_mul_nonnegative(d1, ts);
    lemma_div_pos_is_pos(d1 * ts, r1);
    lemma_div_rounding_window(r1, r0);
    lemma_div_rounding_window(d1 * ts, r1);
    assert(minted * r0 <= a0 * ts) by (nonlinear_arith)
        requires
            r0 > 0,
            r1 > 0,
            a0 >= 0,
            rate >= 0,
            ts >= 0,
            minted >= 0,
            r0 * rate <= r1,
            r1 * minted <= d1 * ts,
            d1 == a0 * rate,
    ;
    assert(minted * nr0 <= nts * a0) by (nonlinear_arith)
        requires
            minted * r0 <= a0 * ts,
            nr0 == r0 + a0,
            nts == ts + minted,
            a0 >= 0,
            minted >= 0,
    ;
    assert(minted * nr1 <= nts * d1) by (nonlinear_arith)
        requires
            r1 * minted <= d1 * ts,
            nr1 == r1 + d1,
            nts == ts + minted,
            d1 >= 0,
            minted >= 0,
    ;
    lemma_mul_nonnegative(minted, nr0);
    lemma_mul_nonnegative(minted, nr1);
    lemma_multiply_divide_le(minted * nr0, nts, a0);
    lemma_multiply_divide_le(minted * nr1, nts, d1);
}

} // verus!
