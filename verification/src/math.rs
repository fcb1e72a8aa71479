//! Ratio arithmetic, done by `cosmwasm_std::Uint128`.

use cosmwasm_std::Uint128;
use vstd::prelude::*;
use vstd::arithmetic::div_mod::{lemma_div_is_ordered, lemma_div_pos_is_pos};
use vstd::arithmetic::mul::{lemma_mul_inequality, lemma_mul_nonnegative};

verus! {

/// `a * numerator / denominator`, floored.
pub open spec fn ratio(a: int, numerator: int, denominator: int) -> int {
    a * numerator / denominator
}

/// `Uint128::multiply_ratio`: `a * numerator / denominator`, floored, computed
/// through a 256-bit intermediate product. It panics when the denominator is
/// zero or the floored quotient does not fit in 128 bits; `requires` leaves
/// both out.
#[verifier::external_body]
pub(crate) fn multiply_ratio(a: u128, numerator: u128, denominator: u128) -> (r: u128)
    requires
        denominator != 0,
        ratio(a as int, numerator as int, denominator as int) <= u128::MAX,
    ensures
        r == ratio(a as int, numerator as int, denominator as int),
{
    Uint128::new(a).multiply_ratio(numerator, denominator).u128()
}

/// `Uint128::checked_multiply_ratio`: the same quotient, or an error (mapped
/// to `None`) when it does not fit in 128 bits; with a nonzero denominator
/// that is its only error.
#[verifier::external_body]
pub(crate) fn checked_multiply_ratio(a: u128, numerator: u128, denominator: u128) -> (r: Option<u128>)
    requires
        denominator != 0,
    ensures
        r is Some <==> ratio(a as int, numerator as int, denominator as int) <= u128::MAX,
        r matches Some(v) ==> v == ratio(a as int, numerator as int, denominator as int),
{
    Uint128::new(a).checked_multiply_ratio(numerator, denominator).ok().map(|v| v.u128())
}

/// A ratio of nonnegative numbers over a positive denominator is nonnegative.
pub proof fn lemma_ratio_nonneg(a: int, numerator: int, denominator: int)
    requires
        0 <= a,
        0 <= numerator,
        0 < denominator,
    ensures
        0 <= ratio(a, numerator, denominator),
{
    lemma_mul_nonnegative(a, numerator);
    lemma_div_pos_is_pos(a * numerator, denominator);
}

/// A ratio grows with its numerator.
pub proof fn lemma_ratio_monotone(a: int, n1: int, n2: int, denominator: int)
    requires
        0 <= a,
        n1 <= n2,
        0 < denominator,
    ensures
        ratio(a, n1, denominator) <= ratio(a, n2, denominator),
{
    lemma_mul_inequality(n1, n2, a);
    assert(a * n1 <= a * n2) by (nonlinear_arith)
        requires
            n1 * a <= n2 * a,
    ;
    lemma_div_is_ordered(a * n1, a * n2, denominator);
}

/// A ratio with a zero factor is zero.
pub proof fn lemma_ratio_zero(a: int, numerator: int, denominator: int)
    requires
        a == 0 || numerator == 0,
        0 < denominator,
    ensures
        ratio(a, numerator, denominator) == 0,
{
    assert(a * numerator == 0) by (nonlinear_arith)
        requires
            a == 0 || numerator == 0,
    ;
}

} // verus!
