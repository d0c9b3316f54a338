//! Exact proportional arithmetic on 64-bit amounts.
//!
//! Every amount the ledgers hand out is a floor of `value * numerator /
//! denominator`. The product is formed in 128 bits, where it always fits, and
//! only the quotient is narrowed back to 64 bits.

use vstd::arithmetic::div_mod::{lemma_div_is_ordered, lemma_div_multiples_vanish};
use vstd::arithmetic::mul::{lemma_mul_inequality, lemma_mul_is_commutative, lemma_mul_nonnegative};
use vstd::prelude::*;

verus! {

/// `floor(value * numerator / denominator)` over the integers.
pub open spec fn proportion(value: int, numerator: int, denominator: int) -> int {
    (value * numerator) / denominator
}

/// What [`checked_proportion`] returns: the proportion when the denominator
/// is not zero and the quotient fits in 64 bits, nothing otherwise.
pub open spec fn spec_checked_proportion(value: u64, numerator: u64, denominator: u64) -> Option<
    u64,
> {
    if denominator == 0 {
        None
    } else if proportion(value as int, numerator as int, denominator as int) > u64::MAX {
        None
    } else {
        Some(proportion(value as int, numerator as int, denominator as int) as u64)
    }
}

/// The product of two 64-bit values fits in 128 bits.
pub proof fn lemma_product_fits(a: u64, b: u64)
    ensures
        0 <= a * b <= u128::MAX,
{
    assert(0 <= a * b <= 0xffff_ffff_ffff_ffff * 0xffff_ffff_ffff_ffff) by (nonlinear_arith)
        requires
            0 <= a <= 0xffff_ffff_ffff_ffff,
            0 <= b <= 0xffff_ffff_ffff_ffff,
    ;
}

/// A proportion grows with the value it is taken of.
pub proof fn lemma_proportion_monotonic(low: int, high: int, numerator: int, denominator: int)
    requires
        low <= high,
        0 <= numerator,
        0 < denominator,
    ensures
        proportion(low, numerator, denominator) <= proportion(high, numerator, denominator),
{
    lemma_mul_inequality(low, high, numerator);
    lemma_div_is_ordered(low * numerator, high * numerator, denominator);
}

/// A proportion of a non-negative value by a ratio of at most one lies
/// between zero and the value.
pub proof fn lemma_proportion_bounded(value: int, numerator: int, denominator: int)
    requires
        0 <= value,
        0 <= numerator <= denominator,
        0 < denominator,
    ensures
        0 <= proportion(value, numerator, denominator) <= value,
{
    lemma_mul_nonnegative(value, numerator);
    lemma_mul_is_commutative(value, numerator);
    lemma_mul_is_commutative(value, denominator);
    lemma_mul_inequality(numerator, denominator, value);
    lemma_div_is_ordered(0, value * numerator, denominator);
    lemma_div_is_ordered(value * numerator, value * denominator, denominator);
    lemma_div_multiples_vanish(value, denominator);
}

/// Computes `floor(value * numerator / denominator)` without losing any bit
/// of the product. Returns `None` when the denominator is zero or when the
/// quotient does not fit in 64 bits.
pub fn checked_proportion(value: u64, numerator: u64, denominator: u64) -> (result: Option<u64>)
    ensures
        result == spec_checked_proportion(value, numerator, denominator),
{
    if denominator == 0 {
        return None;
    }
    proof {
        lemma_product_fits(value, numerator);
    }
    let product: u128 = (value as u128) * (numerator as u128);
    let quotient: u128 = product / (denominator as u128);
    if quotient > u64::MAX as u128 {
        None
    } else {
        Some(quotient as u64)
    }
}

/// `floor(amount * percent / 100)` for a share of at most the whole. The
/// result is never more than `amount`.
pub fn percentage(amount: u64, percent: u8) -> (share: u64)
    requires
        percent <= 100,
    ensures
        share == proportion(amount as int, percent as int, 100),
        share <= amount,
{
    proof {
        lemma_product_fits(amount, percent as u64);
        lemma_proportion_bounded(amount as int, percent as int, 100);
    }
    let product: u128 = (amount as u128) * (percent as u128);
    (product / 100) as u64
}

} // verus!
