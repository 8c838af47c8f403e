use vstd::arithmetic::div_mod::{
    lemma_div_is_ordered, lemma_div_multiples_vanish, lemma_div_pos_is_pos,
    lemma_fundamental_div_mod, lemma_mod_division_less_than_divisor, lemma_multiply_divide_le,
};
use vstd::arithmetic::mul::{lemma_mul_inequality, lemma_mul_upper_bound};
use vstd::prelude::*;

verus! {

/// The product of two 64-bit quantities always fits a 128-bit intermediate.
pub proof fn lemma_u64_mul_fits_u128(a: u64, b: u64)
    ensures
        0 <= (a as int) * (b as int) <= u128::MAX,
{
    lemma_mul_upper_bound(a as int, u64::MAX as int, b as int, u64::MAX as int);
}

/// Multiplying by `a` and then dividing by a larger `c` cannot increase `b`:
/// `a * b / c <= b`.
pub proof fn lemma_mul_div_le(a: int, b: int, c: int)
    requires
        0 <= a <= c,
        0 < c,
        0 <= b,
    ensures
        0 <= a * b / c <= b,
{
    lemma_mul_inequality(a, c, b);
    lemma_multiply_divide_le(a * b, c, b);
    lemma_div_pos_is_pos(a * b, c);
}

/// Scaling `b` by the exact fraction `c / c` gives `b` back: `c * b / c == b`.
pub proof fn lemma_mul_div_exact(b: int, c: int)
    requires
        0 < c,
        0 <= b,
    ensures
        c * b / c == b,
{
    lemma_div_multiples_vanish(b, c);
}

/// Floor division loses less than one unit of the divisor:
/// `c * (a / c) <= a < c * (a / c + 1)`.
pub proof fn lemma_div_rounding_window(a: int, c: int)
    requires
        0 <= a,
        0 < c,
    ensures
        c * (a / c) <= a,
        a < c * (a / c) + c,
{
    lemma_fundamental_div_mod(a, c);
    lemma_mod_division_less_than_divisor(a, c);
}

/// Halving a sum of two 64-bit quantities fits back into 64 bits.
pub proof fn lemma_half_sum_fits_u64(a: u64, b: u64)
    ensures
        0 <= (a + b) / 2 <= u64::MAX,
{
    lemma_div_is_ordered(a + b, 2 * (u64::MAX as int), 2);
}

} // verus!
