//! Checked ceiling division on wide unsigned integers.
//!
//! Dividing integers usually leaves a remainder.  The constant-product
//! exchange needs a division that never truncates value away from the pool:
//! the quotient is rounded up, and the divisor is then recomputed as the
//! smallest value consistent with that rounded quotient, so that the caller
//! can account for exactly how much of the dividend was consumed.

use vstd::arithmetic::div_mod::{
    lemma_div_is_ordered, lemma_div_is_ordered_by_denominator,
    lemma_fundamental_div_mod, lemma_mod_bound,
};
use vstd::prelude::*;

verus! {

/// Plain ceiling division: `ceil(lhs / rhs)`, or no result for a zero
/// divisor.
pub open spec fn divide_round_up_spec(lhs: u128, rhs: u128) -> Option<u128> {
    if rhs == 0 {
        None
    } else if lhs % rhs == 0 {
        Some(lhs / rhs)
    } else {
        Some(((lhs / rhs + 1) as u128))
    }
}

/// Ceiling division of two wide integers, computed from quotient and
/// remainder so that no intermediate sum can overflow.
pub fn divide_round_up(lhs: u128, rhs: u128) -> (r: Option<u128>)
    ensures
        r == divide_round_up_spec(lhs, rhs),
{
    if rhs == 0 {
        return None;
    }
    let quotient = lhs / rhs;
    if lhs % rhs == 0 {
        Some(quotient)
    } else {
        proof {
            // A nonzero remainder needs rhs >= 2, which bounds the quotient
            // away from overflow when rounding up.
            lemma_fundamental_div_mod(lhs as int, rhs as int);
            lemma_div_is_ordered_by_denominator(lhs as int, 2, rhs as int);
            lemma_div_is_ordered(lhs as int, u128::MAX as int, 2);
        }
        Some(quotient + 1)
    }
}

/// Ceiling division returning `(quotient, adjusted_divisor)`.
///
/// No result when the divisor is zero or larger than the dividend (a
/// quotient of zero is refused rather than rounded up to one).  When the
/// division is exact the divisor comes back unchanged; otherwise the
/// quotient is `ceil(lhs / rhs)` and the divisor is `ceil(lhs / quotient)`,
/// the smallest divisor that still yields the rounded-up quotient.
pub open spec fn checked_ceil_div_spec(lhs: u128, rhs: u128) -> Option<(u128, u128)> {
    if rhs == 0 {
        None
    } else if lhs / rhs == 0 {
        None
    } else if lhs % rhs == 0 {
        Some((lhs / rhs, rhs))
    } else {
        let q = (lhs / rhs + 1) as u128;
        if lhs % q == 0 {
            Some((q, lhs / q))
        } else {
            Some((q, (lhs / q + 1) as u128))
        }
    }
}

/// Checked ceiling division: see [`checked_ceil_div_spec`].
pub fn checked_ceil_div(lhs: u128, rhs: u128) -> (r: Option<(u128, u128)>)
    ensures
        r == checked_ceil_div_spec(lhs, rhs),
{
    if rhs == 0 {
        return None;
    }
    let quotient = lhs / rhs;
    // Avoid dividing a small number by a big one and returning 1; fail
    // instead.
    if quotient == 0 {
        return None;
    }
    let remainder = lhs % rhs;
    if remainder > 0 {
        // Round the quotient up, then recompute the smallest divisor that
        // does not truncate more of the dividend than needed.
        proof {
            // A nonzero remainder needs rhs >= 2, which bounds the quotient
            // away from overflow when rounding up.
            lemma_fundamental_div_mod(lhs as int, rhs as int);
            lemma_div_is_ordered_by_denominator(lhs as int, 2, rhs as int);
            lemma_div_is_ordered(lhs as int, u128::MAX as int, 2);
        }
        let q = quotient + 1;
        let new_rhs = lhs / q;
        let q_remainder = lhs % q;
        if q_remainder > 0 {
            proof {
                lemma_div_is_ordered_by_denominator(lhs as int, 2, q as int);
                lemma_div_is_ordered(lhs as int, u128::MAX as int, 2);
            }
            Some((q, new_rhs + 1))
        } else {
            Some((q, new_rhs))
        }
    } else {
        Some((quotient, rhs))
    }
}

/// Law: a successful ceiling division never under-represents the dividend:
/// the product of quotient and adjusted divisor is at least `lhs`, and the
/// adjusted divisor never exceeds the one given.
pub proof fn lemma_checked_ceil_div_covers(lhs: u128, rhs: u128)
    ensures
        checked_ceil_div_spec(lhs, rhs) matches Some((q, adj)) ==> {
            &&& q * adj >= lhs
            &&& q >= 1
            &&& adj <= rhs
        },
{
    if checked_ceil_div_spec(lhs, rhs) is Some {
        let l = lhs as int;
        let d = rhs as int;
        lemma_fundamental_div_mod(l, d);
        lemma_mod_bound(l, d);
        if lhs % rhs == 0 {
            // Exact: q * rhs == lhs.
            assert(d * (l / d) == (l / d) * d) by (nonlinear_arith);
        } else {
            let q = l / d + 1;
            // A nonzero remainder means d >= 2, so q stays in range.
            lemma_div_is_ordered_by_denominator(l, 2, d);
            lemma_div_is_ordered(l, u128::MAX as int, 2);
            assert(q <= u128::MAX);
            lemma_fundamental_div_mod(l, q);
            lemma_mod_bound(l, q);
            // q * ceil(lhs / q) >= lhs, and ceil(lhs / q) <= rhs because
            // q * rhs > lhs.
            assert(q * d > l) by (nonlinear_arith)
                requires
                    l == d * (l / d) + l % d,
                    0 < l % d < d,
                    q == l / d + 1,
            ;
            if lhs % (q as u128) == 0 {
                assert(l / q <= d) by (nonlinear_arith)
                    requires
                        l == q * (l / q),
                        q * d > l,
                        q >= 1,
                        d >= 1,
                ;
            } else {
                assert(q * (l / q + 1) >= l) by (nonlinear_arith)
                    requires
                        l == q * (l / q) + l % q,
                        0 <= l % q < q,
                ;
                assert(l / q + 1 <= d) by (nonlinear_arith)
                    requires
                        l == q * (l / q) + l % q,
                        0 < l % q < q,
                        q * d > l,
                        q >= 1,
                        d >= 1,
                ;
            }
        }
    }
}

} // verus!
