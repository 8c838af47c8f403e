use crate::error::PoolError;
use crate::math::{lemma_div_rounding_window, lemma_mul_div_le, lemma_u64_mul_fits_u128};
use crate::state::PoolState;
use vstd::arithmetic::div_mod::{
    lemma_div_is_ordered_by_denominator, lemma_div_multiples_vanish, lemma_div_of0,
    lemma_div_pos_is_pos,
};
use vstd::arithmetic::mul::{
    lemma_mul_by_zero_is_zero, lemma_mul_inequality, lemma_mul_is_commutative,
    lemma_mul_is_distributive_add, lemma_mul_is_distributive_add_other_way, lemma_mul_nonnegative,
};
use vstd::prelude::*;

verus! {

/// Which of the two pooled assets a trader pays in.
#[derive(Clone, Copy, Debug, PartialEq, Eq, Structural)]
pub enum SwapDirection {
    /// Pay asset 0 in, receive asset 1.
    ZeroToOne,
    /// Pay asset 1 in, receive asset 0.
    OneToZero,
}

/// A trader's request: pay `amount_in` of the source asset, insisting on at
/// least `min_amount_out` of the destination asset.
#[derive(Clone, Copy, Debug, PartialEq, Eq, Structural)]
pub struct SwapRequest {
    pub amount_in: u64,
    pub min_amount_out: u64,
    pub direction: SwapDirection,
}

/// The fund movements owed after a successful swap: transfer the full input
/// (fee included) from the trader to the source reserve and `amount_out`
/// from the destination reserve to the trader.
#[derive(Clone, Copy, Debug, PartialEq, Eq, Structural)]
pub struct SwapResult {
    pub amount_out: u64,
}

/// Fee charged on a swap input: `amount_in * fee_numerator / fee_denominator`,
/// rounded down.
pub open spec fn swap_fee_amount(fee_numerator: u64, fee_denominator: u64, amount_in: u64) -> int {
    amount_in * fee_numerator / (fee_denominator as int)
}

/// Input amount that actually trades, once the fee is withheld.
pub open spec fn swap_effective_in(fee_numerator: u64, fee_denominator: u64, amount_in: u64) -> int {
    amount_in - swap_fee_amount(fee_numerator, fee_denominator, amount_in)
}

/// The source reserve the constant product is sized against after the trade.
pub open spec fn swap_new_reserve_src(
    reserve_src: u64,
    fee_numerator: u64,
    fee_denominator: u64,
    amount_in: u64,
) -> int {
    reserve_src + swap_effective_in(fee_numerator, fee_denominator, amount_in)
}

/// Destination reserve after the trade: the pre-trade product
/// `reserve_src * reserve_dst`, divided by the grown source reserve,
/// rounded down.
pub open spec fn swap_new_reserve_dst(
    reserve_src: u64,
    reserve_dst: u64,
    fee_numerator: u64,
    fee_denominator: u64,
    amount_in: u64,
) -> int {
    (reserve_src * reserve_dst) / swap_new_reserve_src(
        reserve_src,
        fee_numerator,
        fee_denominator,
        amount_in,
    )
}

/// Output owed to the trader: what the destination reserve gives up.
pub open spec fn swap_amount_out(
    reserve_src: u64,
    reserve_dst: u64,
    fee_numerator: u64,
    fee_denominator: u64,
    amount_in: u64,
) -> int {
    reserve_dst - swap_new_reserve_dst(
        reserve_src,
        reserve_dst,
        fee_numerator,
        fee_denominator,
        amount_in,
    )
}

/// The outcome `swap` owes for a given snapshot and request: either the
/// error, or the output amount as an unbounded integer.
pub open spec fn swap_outcome(
    reserve_src: u64,
    reserve_dst: u64,
    fee_numerator: u64,
    fee_denominator: u64,
    user_src_balance: u64,
    amount_in: u64,
    min_amount_out: u64,
) -> Result<int, PoolError> {
    if amount_in > user_src_balance {
        Err(PoolError::InsufficientBalance)
    } else if swap_amount_out(reserve_src, reserve_dst, fee_numerator, fee_denominator, amount_in)
        < min_amount_out {
        Err(PoolError::SlippageExceeded)
    } else {
        Ok(swap_amount_out(reserve_src, reserve_dst, fee_numerator, fee_denominator, amount_in))
    }
}

/// Read-only estimate of a trade: the constant-product output for `amount_in`
/// against the given reserves, net of the pool's fee, with no balance or
/// slippage check and no state change.
pub fn quote_swap(pool: &PoolState, reserve_src: u64, reserve_dst: u64, amount_in: u64) -> (r: u64)
    requires
        pool.wf(),
        swap_new_reserve_src(reserve_src, pool.fee_numerator, pool.fee_denominator, amount_in)
            > 0,
    ensures
        r == swap_amount_out(
            reserve_src,
            reserve_dst,
            pool.fee_numerator,
            pool.fee_denominator,
            amount_in,
        ),
        r <= reserve_dst,
{
    proof {
        lemma_u64_mul_fits_u128(amount_in, pool.fee_numerator);
        lemma_mul_div_le(
            pool.fee_numerator as int,
            amount_in as int,
            pool.fee_denominator as int,
        );
        lemma_mul_is_commutative(amount_in as int, pool.fee_numerator as int);
    }
    let fee_wide: u128 = (amount_in as u128) * (pool.fee_numerator as u128)
        / (pool.fee_denominator as u128);
    let effective_in: u128 = amount_in as u128 - fee_wide;
    proof {
        lemma_u64_mul_fits_u128(reserve_src, reserve_dst);
    }
    let product: u128 = (reserve_src as u128) * (reserve_dst as u128);
    let new_reserve_src: u128 = reserve_src as u128 + effective_in;
    let new_reserve_dst: u128 = product / new_reserve_src;
    proof {
        lemma_div_pos_is_pos(product as int, new_reserve_src as int);
        if reserve_src > 0 {
            lemma_div_is_ordered_by_denominator(
                product as int,
                reserve_src as int,
                new_reserve_src as int,
            );
            lemma_div_multiples_vanish(reserve_dst as int, reserve_src as int);
        } else {
            lemma_mul_by_zero_is_zero(reserve_dst as int);
            assert(product == 0);
            lemma_div_of0(new_reserve_src as int);
        }
    }
    let amount_out_wide: u128 = reserve_dst as u128 - new_reserve_dst;
    amount_out_wide as u64
}

/// Computes the constant-product output for a single-direction trade with the
/// fee withheld from the input, rejecting it if the output falls short of the
/// trader's minimum. Touches no pool state; the full input (fee included)
/// belongs to the source reserve once the custody layer settles the trade.
pub fn swap(
    pool: &PoolState,
    reserve_src: u64,
    reserve_dst: u64,
    user_src_balance: u64,
    amount_in: u64,
    min_amount_out: u64,
) -> (r: Result<SwapResult, PoolError>)
    requires
        pool.wf(),
        swap_new_reserve_src(reserve_src, pool.fee_numerator, pool.fee_denominator, amount_in)
            > 0,
    ensures
        match r {
            Ok(res) => swap_outcome(
                reserve_src,
                reserve_dst,
                pool.fee_numerator,
                pool.fee_denominator,
                user_src_balance,
                amount_in,
                min_amount_out,
            ) == Ok::<int, PoolError>(res.amount_out as int),
            Err(e) => swap_outcome(
                reserve_src,
                reserve_dst,
                pool.fee_numerator,
                pool.fee_denominator,
                user_src_balance,
                amount_in,
                min_amount_out,
            ) == Err::<int, PoolError>(e),
        },
{
    if amount_in > user_src_balance {
        return Err(PoolError::InsufficientBalance);
    }
    let amount_out = quote_swap(pool, reserve_src, reserve_dst, amount_in);
    if amount_out < min_amount_out {
        return Err(PoolError::SlippageExceeded);
    }
    Ok(SwapResult { amount_out })
}

/// The outcome of a swap request once its direction has picked which reserve
/// is the source and which the destination.
pub open spec fn swap_request_outcome(
    reserve0: u64,
    reserve1: u64,
    fee_numerator: u64,
    fee_denominator: u64,
    user_src_balance: u64,
    request: SwapRequest,
) -> Result<int, PoolError> {
    match request.direction {
        SwapDirection::ZeroToOne => swap_outcome(
            reserve0,
            reserve1,
            fee_numerator,
            fee_denominator,
            user_src_balance,
            request.amount_in,
            request.min_amount_out,
        ),
        SwapDirection::OneToZero => swap_outcome(
            reserve1,
            reserve0,
            fee_numerator,
            fee_denominator,
            user_src_balance,
            request.amount_in,
            request.min_amount_out,
        ),
    }
}

/// Resolves a swap request's direction against the pool's reserve pair and
/// performs the trade: the engine itself is symmetric, so the direction only
/// decides which reserve is the source and which the destination.
pub fn swap_with_direction(
    pool: &PoolState,
    reserve0: u64,
    reserve1: u64,
    user_src_balance: u64,
    request: SwapRequest,
) -> (r: Result<SwapResult, PoolError>)
    requires
        pool.wf(),
        request.direction is ZeroToOne ==> swap_new_reserve_src(
            reserve0,
            pool.fee_numerator,
            pool.fee_denominator,
            request.amount_in,
        ) > 0,
        request.direction is OneToZero ==> swap_new_reserve_src(
            reserve1,
            pool.fee_numerator,
            pool.fee_denominator,
            request.amount_in,
        ) > 0,
    ensures
        match r {
            Ok(res) => swap_request_outcome(
                reserve0,
                reserve1,
                pool.fee_numerator,
                pool.fee_denominator,
                user_src_balance,
                request,
            ) == Ok::<int, PoolError>(res.amount_out as int),
            Err(e) => swap_request_outcome(
                reserve0,
                reserve1,
                pool.fee_numerator,
                pool.fee_denominator,
                user_src_balance,
                request,
            ) == Err::<int, PoolError>(e),
        },
{
    match request.direction {
        SwapDirection::ZeroToOne => swap(
            pool,
            reserve0,
            reserve1,
            user_src_balance,
            request.amount_in,
            request.min_amount_out,
        ),
        SwapDirection::OneToZero => swap(
            pool,
            reserve1,
            reserve0,
            user_src_balance,
            request.amount_in,
            request.min_amount_out,
        ),
    }
}

/// Law: a swap destroys less than one destination unit's worth of the
/// constant product, whatever the fee rounds to. Once the custody layer
/// settles the trade the reserves are `reserve_src + amount_in` and the new
/// destination reserve; granting the destination side a single extra unit
/// already outweighs the pre-trade product.
pub proof fn lemma_swap_product_loss_bounded(
    reserve_src: u64,
    reserve_dst: u64,
    fee_numerator: u64,
    fee_denominator: u64,
    amount_in: u64,
)
    requires
        fee_denominator > 0,
        fee_numerator <= fee_denominator,
        reserve_src > 0,
    ensures
        ({
            let new_dst = swap_new_reserve_dst(
                reserve_src,
                reserve_dst,
                fee_numerator,
                fee_denominator,
                amount_in,
            );
            (reserve_src + amount_in) * (new_dst + 1) > reserve_src * reserve_dst
        }),
{
    let src = reserve_src as int;
    let dst = reserve_dst as int;
    let amt = amount_in as int;
    let fee = swap_fee_amount(fee_numerator, fee_denominator, amount_in);
    let new_src = swap_new_reserve_src(reserve_src, fee_numerator, fee_denominator, amount_in);
    let product = src * dst;
    let new_dst = swap_new_reserve_dst(
        reserve_src,
        reserve_dst,
        fee_numerator,
        fee_denominator,
        amount_in,
    );
    lemma_mul_is_commutative(amt, fee_numerator as int);
    lemma_mul_div_le(fee_numerator as int, amt, fee_denominator as int);
    lemma_mul_nonnegative(src, dst);
    lemma_div_pos_is_pos(product, new_src);
    lemma_div_rounding_window(product, new_src);
    lemma_mul_is_distributive_add(new_src, new_dst, 1);
    lemma_mul_inequality(new_src, src + amt, new_dst + 1);
}

/// Law: a swap whose retained fee makes up for the payout division's
/// rounding loss cannot shrink the constant product. The last premise states
/// exactly that: the fee, weighed in destination units, covers what the
/// floor division discards. A swap with a small reserve of the destination
/// asset can fall short of it, and then only the bound of
/// `lemma_swap_product_loss_bounded` holds.
pub proof fn lemma_swap_product_monotonic(
    reserve_src: u64,
    reserve_dst: u64,
    fee_numerator: u64,
    fee_denominator: u64,
    amount_in: u64,
)
    requires
        fee_denominator > 0,
        fee_numerator <= fee_denominator,
        fee_numerator > 0,
        reserve_src > 0,
        ({
            let fee = swap_fee_amount(fee_numerator, fee_denominator, amount_in);
            let new_src = swap_new_reserve_src(
                reserve_src,
                fee_numerator,
                fee_denominator,
                amount_in,
            );
            let new_dst = swap_new_reserve_dst(
                reserve_src,
                reserve_dst,
                fee_numerator,
                fee_denominator,
                amount_in,
            );
            fee * new_dst >= reserve_src * reserve_dst - new_src * new_dst
        }),
    ensures
        ({
            let new_dst = swap_new_reserve_dst(
                reserve_src,
                reserve_dst,
                fee_numerator,
                fee_denominator,
                amount_in,
            );
            (reserve_src + amount_in) * new_dst >= reserve_src * reserve_dst
        }),
{
    let src = reserve_src as int;
    let amt = amount_in as int;
    let fee = swap_fee_amount(fee_numerator, fee_denominator, amount_in);
    let new_src = swap_new_reserve_src(reserve_src, fee_numerator, fee_denominator, amount_in);
    let new_dst = swap_new_reserve_dst(
        reserve_src,
        reserve_dst,
        fee_numerator,
        fee_denominator,
        amount_in,
    );
    lemma_mul_is_commutative(amt, fee_numerator as int);
    lemma_mul_div_le(fee_numerator as int, amt, fee_denominator as int);
    assert(src + amt == new_src + fee);
    lemma_mul_is_distributive_add_other_way(new_dst, new_src, fee);
}

} // verus!
