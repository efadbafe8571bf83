//! Fee calculator.
//!
//! Converts a basis-points fee rate and an amount into a floor-rounded fee,
//! and inversely computes the ceiling-rounded gross amount needed so that the
//! fee-reduced amount still covers a requested net amount.

use vstd::arithmetic::div_mod::{
    lemma_div_by_multiple, lemma_div_is_ordered, lemma_fundamental_div_mod,
};
use vstd::arithmetic::mul::{lemma_mul_inequality, lemma_mul_is_commutative};
use vstd::prelude::*;

use crate::state::Swap;

verus! {

/// The fee charged on `amounts` at `fee_rate` basis points: zero for a zero
/// rate, otherwise the floored product, or no result when the wide
/// multiplication overflows.
pub open spec fn calculation_fee_spec(amounts: u128, fee_rate: u128) -> Option<u128> {
    if fee_rate == 0 {
        Some(0u128)
    } else if amounts * fee_rate > u128::MAX {
        None
    } else {
        Some((amounts * fee_rate / (Swap::FEES_BASIS_POINTS as int)) as u128)
    }
}

/// The gross amount whose fee-reduced value still covers `amounts`:
/// `ceil(amounts * denominator / (denominator - fee_rate))`, the identity for
/// a zero rate, and no result when the rate reaches the denominator or a wide
/// step overflows.
pub open spec fn pre_trading_fee_amoun_spec(amounts: u128, fee_rate: u128) -> Option<u128> {
    let d = Swap::FEES_BASIS_POINTS as int;
    if fee_rate == 0 {
        Some(amounts)
    } else if amounts * d > u128::MAX {
        None
    } else if fee_rate > d {
        None
    } else if amounts * d + (d - fee_rate) > u128::MAX {
        None
    } else if amounts * d + (d - fee_rate) == 0 {
        None
    } else if fee_rate == d {
        None
    } else {
        Some(((amounts * d + (d - fee_rate) - 1) / (d - fee_rate)) as u128)
    }
}

/// Fee calculation: floor of `amounts * fee_amount / 10_000`, where a zero
/// rate charges nothing.  Fails only when the wide multiplication overflows.
pub fn calculation_fee(amounts: u128, fee_amount: u128) -> (r: Option<u128>)
    ensures
        r == calculation_fee_spec(amounts, fee_amount),
{
    if fee_amount == 0 {
        Some(0)
    } else {
        let numerator = amounts.checked_mul(fee_amount)?;
        Some(numerator / (Swap::FEES_BASIS_POINTS as u128))
    }
}

/// Inverse fee calculation: the smallest gross amount that still nets
/// `amounts` after its own fee is deducted, rounded up.  Returns the input
/// unchanged for a zero rate; fails when the rate reaches the denominator or
/// a wide step overflows.
pub fn pre_trading_fee_amoun(amounts: u128, fee_amount: u128) -> (r: Option<u128>)
    ensures
        r == pre_trading_fee_amoun_spec(amounts, fee_amount),
{
    if fee_amount == 0 {
        Some(amounts)
    } else {
        let fee_denominator = Swap::FEES_BASIS_POINTS as u128;
        let numerator = amounts.checked_mul(fee_denominator)?;
        let denominator = fee_denominator.checked_sub(fee_amount)?;
        numerator.checked_add(denominator)?.checked_sub(1)?.checked_div(denominator)
    }
}

/// Law: a fee never exceeds the amount it is charged on, and a zero rate
/// charges nothing, for every rate within the basis-points denominator.
pub proof fn lemma_fee_le_amount(amounts: u128, fee_rate: u128)
    requires
        fee_rate <= Swap::FEES_BASIS_POINTS,
    ensures
        calculation_fee_spec(amounts, 0) == Some(0u128),
        calculation_fee_spec(amounts, fee_rate) matches Some(fee) ==> fee <= amounts,
{
    let d = Swap::FEES_BASIS_POINTS as int;
    if fee_rate != 0 && amounts * fee_rate <= u128::MAX {
        lemma_mul_inequality(fee_rate as int, d, amounts as int);
        lemma_mul_is_commutative(fee_rate as int, amounts as int);
        lemma_mul_is_commutative(d, amounts as int);
        lemma_div_is_ordered(amounts * fee_rate, amounts * d, d);
        lemma_div_by_multiple(amounts as int, d);
    }
}

/// Law: the inverse fee formula never under-covers.  Deducting the fee from
/// the gross amount it returns still leaves at least the requested net
/// amount, whenever both computations succeed.
pub proof fn lemma_pre_trading_fee_covers(amounts: u128, fee_rate: u128)
    requires
        fee_rate < Swap::FEES_BASIS_POINTS,
    ensures
        pre_trading_fee_amoun_spec(amounts, fee_rate) matches Some(gross) ==> {
            &&& calculation_fee_spec(gross, fee_rate) matches Some(fee) ==> gross - fee
                >= amounts
        },
{
    let d = Swap::FEES_BASIS_POINTS as int;
    if fee_rate != 0 && pre_trading_fee_amoun_spec(amounts, fee_rate) is Some {
        let den = d - fee_rate;
        let numer = amounts * d + den - 1;
        let gross = numer / den;
        assert(pre_trading_fee_amoun_spec(amounts, fee_rate) == Some(gross as u128));
        // Ceiling property: gross * den >= amounts * d.
        lemma_fundamental_div_mod(numer, den);
        assert(numer == den * gross + numer % den);
        assert(numer % den < den) by {
            vstd::arithmetic::div_mod::lemma_mod_bound(numer, den);
        }
        assert(den * gross >= amounts * d);
        if calculation_fee_spec(gross as u128, fee_rate) is Some {
            let fee = gross * fee_rate / d;
            assert(calculation_fee_spec(gross as u128, fee_rate) == Some(fee as u128));
            // Floor property: fee * d <= gross * fee_rate.
            lemma_fundamental_div_mod(gross * fee_rate, d);
            assert(d * fee <= gross * fee_rate);
            // d * (gross - fee) >= d * gross - gross * fee_rate
            //                   == gross * den >= amounts * d.
            assert(d * gross - gross * fee_rate == gross * den) by (nonlinear_arith)
                requires
                    den == d - fee_rate,
            ;
            assert(den * gross == gross * den) by (nonlinear_arith);
            assert(d * (gross - fee) >= amounts * d) by {
                assert(d * (gross - fee) == d * gross - d * fee) by (nonlinear_arith);
            }
            assert(gross - fee >= amounts) by (nonlinear_arith)
                requires
                    d * (gross - fee) >= amounts * d,
                    d > 0,
            ;
        }
    }
}

} // verus!
