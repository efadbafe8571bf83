//! Constant-product curve calculations.
//!
//! The exchange formula applies the invariant `reserve_in * reserve_out`,
//! the proportional conversion turns pool shares into reserve amounts, and
//! the single-asset conversions solve the one-sided deposit and withdrawal
//! problems through an implicit half-swap and the fixed-point square root.
//! All rounding favors the pool.

use vstd::arithmetic::div_mod::{lemma_fundamental_div_mod, lemma_mod_bound};
use vstd::arithmetic::mul::{lemma_mul_inequality, lemma_mul_is_commutative};
use vstd::prelude::*;

use crate::arith::{checked_ceil_div, checked_ceil_div_spec, lemma_checked_ceil_div_covers};
use crate::error::SwapError;
use crate::fees::{calculation_fee, calculation_fee_spec, pre_trading_fee_amoun,
    pre_trading_fee_amoun_spec};
use crate::precise::{PreciseNumber, ONE};

verus! {

/// Narrowing to the caller's 64-bit token width; the only failure is a value
/// that does not fit.
pub open spec fn to_u64_spec(val: u128) -> Result<u64, SwapError> {
    if val > u64::MAX {
        Err(SwapError::ConversionFailure)
    } else {
        Ok(val as u64)
    }
}

/// Converts a wide intermediate result to a 64-bit amount.
pub fn to_u64(val: u128) -> (r: Result<u64, SwapError>)
    ensures
        r == to_u64_spec(val),
{
    if val > u64::MAX as u128 {
        Err(SwapError::ConversionFailure)
    } else {
        Ok(val as u64)
    }
}

/// Converts `pool_tokens` shares into amounts of each reserve asset:
/// `floor(pool_tokens * reserve / pool_token_supply)` per asset, each
/// independently bumped by one when `ceiling` is requested, the division was
/// inexact and the floored amount is nonzero.  No result on an empty pool or
/// on wide-multiplication overflow.
pub open spec fn pool_tokens_to_trading_tokens_spec(
    ceiling: bool,
    pool_tokens: u128,
    pool_token_supply: u128,
    swap_token_a_amount: u128,
    swap_token_b_amount: u128,
) -> Option<(u128, u128)> {
    if pool_tokens * swap_token_a_amount > u128::MAX {
        None
    } else if pool_token_supply == 0 {
        None
    } else if pool_tokens * swap_token_b_amount > u128::MAX {
        None
    } else {
        let prod_a = pool_tokens * swap_token_a_amount;
        let prod_b = pool_tokens * swap_token_b_amount;
        let ta = prod_a / (pool_token_supply as int);
        let tb = prod_b / (pool_token_supply as int);
        let ta_adj = if ceiling && prod_a % (pool_token_supply as int) > 0 && ta > 0 {
            ta + 1
        } else {
            ta
        };
        let tb_adj = if ceiling && prod_b % (pool_token_supply as int) > 0 && tb > 0 {
            tb + 1
        } else {
            tb
        };
        Some(((ta_adj as u128, tb_adj as u128)))
    }
}

/// Computes the trading-token amounts corresponding to a pool-share amount;
/// see [`pool_tokens_to_trading_tokens_spec`].  `ceiling` is requested by
/// deposits, where rounding must favor the pool against the depositor.
pub fn pool_tokens_to_trading_tokens(
    ceiling: bool,
    pool_tokens: u128,
    pool_token_supply: u128,
    swap_token_a_amount: u128,
    swap_token_b_amount: u128,
) -> (r: Option<(u128, u128)>)
    ensures
        r == pool_tokens_to_trading_tokens_spec(
            ceiling,
            pool_tokens,
            pool_token_supply,
            swap_token_a_amount,
            swap_token_b_amount,
        ),
{
    let prod_a = pool_tokens.checked_mul(swap_token_a_amount)?;
    let mut token_a_amount = prod_a.checked_div(pool_token_supply)?;
    let prod_b = pool_tokens.checked_mul(swap_token_b_amount)?;
    let mut token_b_amount = prod_b.checked_div(pool_token_supply)?;

    if ceiling {
        proof {
            lemma_fundamental_div_mod(prod_a as int, pool_token_supply as int);
            lemma_mod_bound(prod_a as int, pool_token_supply as int);
            lemma_mul_inequality(1, pool_token_supply as int, token_a_amount as int);
            lemma_mul_is_commutative(pool_token_supply as int, token_a_amount as int);
            lemma_fundamental_div_mod(prod_b as int, pool_token_supply as int);
            lemma_mod_bound(prod_b as int, pool_token_supply as int);
            lemma_mul_inequality(1, pool_token_supply as int, token_b_amount as int);
            lemma_mul_is_commutative(pool_token_supply as int, token_b_amount as int);
        }
        let token_a_remainder = prod_a % pool_token_supply;
        if token_a_remainder > 0 && token_a_amount > 0 {
            token_a_amount = token_a_amount + 1;
        }
        let token_b_remainder = prod_b % pool_token_supply;
        if token_b_remainder > 0 && token_b_amount > 0 {
            token_b_amount = token_b_amount + 1;
        }
    }
    Some((token_a_amount, token_b_amount))
}

/// The exchange: charges the trade fee on the source amount, applies the
/// constant-product invariant through the adjusted ceiling division, and
/// returns `(source consumed including fee, destination paid out)`.  No
/// result on any overflow, and on trades too small for the curve.
pub open spec fn calculate_exchange_amount_spec(
    trade_fee_amount: u128,
    source_amount: u128,
    swap_source_amount: u128,
    swap_destination_amount: u128,
) -> Option<(u128, u128)> {
    match calculation_fee_spec(source_amount, trade_fee_amount) {
        None => None,
        Some(trade_fee) => {
            if source_amount < trade_fee {
                None
            } else {
                let less_fee = (source_amount - trade_fee) as u128;
                if swap_source_amount * swap_destination_amount > u128::MAX {
                    None
                } else if swap_source_amount + less_fee > u128::MAX {
                    None
                } else {
                    let product = (swap_source_amount * swap_destination_amount) as u128;
                    let new_source = (swap_source_amount + less_fee) as u128;
                    match checked_ceil_div_spec(product, new_source) {
                        None => None,
                        Some((new_destination, adjusted_source)) => {
                            if adjusted_source < swap_source_amount {
                                None
                            } else if swap_destination_amount < new_destination {
                                None
                            } else if (adjusted_source - swap_source_amount) + trade_fee
                                > u128::MAX {
                                None
                            } else {
                                Some(
                                    ((
                                        ((adjusted_source - swap_source_amount) + trade_fee)
                                            as u128,
                                        (swap_destination_amount - new_destination) as u128,
                                    )),
                                )
                            }
                        },
                    }
                }
            }
        },
    }
}

/// Computes how much source the user pays (fee included) and how much
/// destination the pool pays out; see [`calculate_exchange_amount_spec`].
pub fn calculate_exchange_amount(
    trade_fee_amount: u128,
    source_amount: u128,
    swap_source_amount: u128,
    swap_destination_amount: u128,
) -> (r: Option<(u128, u128)>)
    ensures
        r == calculate_exchange_amount_spec(
            trade_fee_amount,
            source_amount,
            swap_source_amount,
            swap_destination_amount,
        ),
{
    let trade_fee = calculation_fee(source_amount, trade_fee_amount)?;
    let source_amount_less_fee = source_amount.checked_sub(trade_fee)?;

    let product = swap_source_amount.checked_mul(swap_destination_amount)?;
    let new_swap_source_amount = swap_source_amount.checked_add(source_amount_less_fee)?;
    let (new_swap_destination_amount, new_swap_source_amount) = checked_ceil_div(
        product,
        new_swap_source_amount,
    )?;

    let source_amount_swapped = new_swap_source_amount.checked_sub(swap_source_amount)?;
    let destination_amount_swapped = swap_destination_amount.checked_sub(
        new_swap_destination_amount,
    )?;
    let source_amount_swapped = source_amount_swapped.checked_add(trade_fee)?;

    Some((source_amount_swapped, destination_amount_swapped))
}

/// Law: the rounding direction of the proportional conversion is monotonic.
/// For the same inputs, the amounts computed without the ceiling request
/// never exceed the amounts computed with it.
pub proof fn lemma_pool_tokens_rounding_monotone(
    pool_tokens: u128,
    pool_token_supply: u128,
    swap_token_a_amount: u128,
    swap_token_b_amount: u128,
)
    ensures
        pool_tokens_to_trading_tokens_spec(
            false,
            pool_tokens,
            pool_token_supply,
            swap_token_a_amount,
            swap_token_b_amount,
        ) matches Some(lo) ==> (pool_tokens_to_trading_tokens_spec(
            true,
            pool_tokens,
            pool_token_supply,
            swap_token_a_amount,
            swap_token_b_amount,
        ) matches Some(hi) ==> lo.0 <= hi.0 && lo.1 <= hi.1),
{
    let s = pool_token_supply as int;
    if pool_tokens_to_trading_tokens_spec(
        false,
        pool_tokens,
        pool_token_supply,
        swap_token_a_amount,
        swap_token_b_amount,
    ) is Some {
        let prod_a = pool_tokens * swap_token_a_amount;
        let prod_b = pool_tokens * swap_token_b_amount;
        // A nonzero remainder keeps the bumped quotient within range.
        lemma_fundamental_div_mod(prod_a, s);
        lemma_mod_bound(prod_a, s);
        vstd::arithmetic::div_mod::lemma_div_pos_is_pos(prod_a, s);
        lemma_mul_inequality(1, s, prod_a / s);
        lemma_mul_is_commutative(s, prod_a / s);
        lemma_fundamental_div_mod(prod_b, s);
        lemma_mod_bound(prod_b, s);
        vstd::arithmetic::div_mod::lemma_div_pos_is_pos(prod_b, s);
        lemma_mul_inequality(1, s, prod_b / s);
        lemma_mul_is_commutative(s, prod_b / s);
    }
}

/// Law: a successful exchange never decreases the invariant product.  After
/// moving the settled amounts, the product of the new reserves is at least
/// the product of the old ones, so rounding can only favor the pool; in
/// particular the destination reserve is never fully drained.
pub proof fn lemma_exchange_preserves_invariant(
    trade_fee_amount: u128,
    source_amount: u128,
    swap_source_amount: u128,
    swap_destination_amount: u128,
)
    ensures
        calculate_exchange_amount_spec(
            trade_fee_amount,
            source_amount,
            swap_source_amount,
            swap_destination_amount,
        ) matches Some((source_swapped, destination_swapped)) ==> {
            &&& destination_swapped < swap_destination_amount
            &&& (swap_source_amount + source_swapped) * (swap_destination_amount
                - destination_swapped) >= swap_source_amount * swap_destination_amount
        },
{
    let r = calculate_exchange_amount_spec(
        trade_fee_amount,
        source_amount,
        swap_source_amount,
        swap_destination_amount,
    );
    if r is Some {
        let trade_fee = calculation_fee_spec(source_amount, trade_fee_amount).unwrap();
        let less_fee = (source_amount - trade_fee) as u128;
        let product = (swap_source_amount * swap_destination_amount) as u128;
        let new_source = (swap_source_amount + less_fee) as u128;
        let (new_destination, adjusted_source) = checked_ceil_div_spec(
            product,
            new_source,
        ).unwrap();
        lemma_checked_ceil_div_covers(product, new_source);
        let source_swapped = ((adjusted_source - swap_source_amount) + trade_fee) as u128;
        let destination_swapped = (swap_destination_amount - new_destination) as u128;
        // The new reserves are exactly (adjusted_source + fee, new_destination).
        assert(swap_source_amount + source_swapped == adjusted_source + trade_fee);
        assert(swap_destination_amount - destination_swapped == new_destination);
        lemma_mul_is_commutative(new_destination as int, adjusted_source as int);
        lemma_mul_inequality(
            adjusted_source as int,
            adjusted_source + trade_fee,
            new_destination as int,
        );
        lemma_mul_is_commutative(adjusted_source + trade_fee, new_destination as int);
    }
}

/// One-sided deposit: the trade fee of the implicit half-swap is deducted,
/// the effective deposit is set in ratio to the reserve of that asset, and
/// the minted shares are `floor(pool_supply * (sqrt(1 + ratio) - 1))`,
/// computed in fixed point.  No result on overflow or an empty reserve.
pub open spec fn deposit_single_token_type_spec(
    trade_fee_amount: u128,
    source_amount: u128,
    swap_token_amount: u128,
    pool_supply: u128,
) -> Option<u128> {
    let half = if source_amount / 2 == 0 {
        1u128
    } else {
        (source_amount / 2) as u128
    };
    match calculation_fee_spec(half, trade_fee_amount) {
        None => None,
        Some(fee) => {
            if source_amount < fee {
                None
            } else {
                let effective = (source_amount - fee) as u128;
                match (
                    PreciseNumber::spec_new(swap_token_amount),
                    PreciseNumber::spec_new(effective),
                ) {
                    (Some(reserve), Some(deposit)) => match deposit.spec_div(reserve) {
                        None => None,
                        Some(ratio) => {
                            let one = PreciseNumber { value: ONE };
                            match one.spec_add(ratio) {
                                None => None,
                                Some(base) => match base.spec_sqrt() {
                                    None => None,
                                    Some(root) => match root.spec_sub(one) {
                                        None => None,
                                        Some(frac) => match PreciseNumber::spec_new(
                                            pool_supply,
                                        ) {
                                            None => None,
                                            Some(supply) => match supply.spec_mul(frac) {
                                                None => None,
                                                Some(pt) => pt.spec_floor().spec_to_imprecise(),
                                            },
                                        },
                                    },
                                },
                            }
                        },
                    },
                    _ => None,
                }
            }
        },
    }
}

/// Computes the pool shares minted for a one-sided deposit; see
/// [`deposit_single_token_type_spec`].
pub fn deposit_single_token_type(
    trade_fee_amount: u128,
    source_amount: u128,
    swap_token_amount: u128,
    pool_supply: u128,
) -> (r: Option<u128>)
    ensures
        r == deposit_single_token_type_spec(
            trade_fee_amount,
            source_amount,
            swap_token_amount,
            pool_supply,
        ),
{
    // The fee is charged on the half that is conceptually swapped, with a
    // floor of one unit.
    let half = source_amount.checked_div(2)?;
    let half_source_amount = if half == 0 {
        1
    } else {
        half
    };
    let trade_fee = calculation_fee(half_source_amount, trade_fee_amount)?;
    let effective_source_amount = source_amount.checked_sub(trade_fee)?;

    let swap_source_amount = PreciseNumber::new(swap_token_amount)?;
    let deposit_amount = PreciseNumber::new(effective_source_amount)?;
    let ratio = deposit_amount.checked_div(&swap_source_amount)?;
    let one = PreciseNumber::new(1)?;
    let base = one.checked_add(&ratio)?;
    let root = base.sqrt()?.checked_sub(&one)?;
    let pool_tokens = PreciseNumber::new(pool_supply)?.checked_mul(&root)?;

    let floored = pool_tokens.floor()?;
    floored.to_imprecise()
}

/// Exact-out one-sided withdrawal: computes the shares to burn so that an
/// exact amount of one asset can be paid out.  Half the amount is grossed up
/// by the inverse fee formula for the implicit half-swap, the total is set
/// in ratio to the reserve, and the burned shares are
/// `ceil(pool_supply * (1 - sqrt(1 - ratio)))`, the ratio clamped to one.
/// No result on overflow or an empty reserve.
pub open spec fn withdraw_single_token_type_exact_out_spec(
    trade_fee_amount: u128,
    source_amount: u128,
    swap_token_amount: u128,
    pool_supply: u128,
) -> Option<u128> {
    if source_amount + 1 > u128::MAX {
        None
    } else {
        let half = (((source_amount + 1) as u128) / 2) as u128;
        match pre_trading_fee_amoun_spec(half, trade_fee_amount) {
            None => None,
            Some(gross_half) => {
                if (source_amount - half) + gross_half > u128::MAX {
                    None
                } else {
                    let total = ((source_amount - half) + gross_half) as u128;
                    match (
                        PreciseNumber::spec_new(swap_token_amount),
                        PreciseNumber::spec_new(total),
                    ) {
                        (Some(reserve), Some(withdrawal)) => match withdrawal.spec_div(
                            reserve,
                        ) {
                            None => None,
                            Some(ratio) => {
                                let one = PreciseNumber { value: ONE };
                                let base = match one.spec_sub(ratio) {
                                    None => PreciseNumber { value: 0 },
                                    Some(b) => b,
                                };
                                match base.spec_sqrt() {
                                    None => None,
                                    Some(root) => match one.spec_sub(root) {
                                        None => None,
                                        Some(frac) => match PreciseNumber::spec_new(
                                            pool_supply,
                                        ) {
                                            None => None,
                                            Some(supply) => match supply.spec_mul(frac) {
                                                None => None,
                                                Some(pt) => match pt.spec_ceiling() {
                                                    None => None,
                                                    Some(lifted) => lifted.spec_to_imprecise(),
                                                },
                                            },
                                        },
                                    },
                                }
                            },
                        },
                        _ => None,
                    }
                }
            },
        }
    }
}

/// Computes the pool shares burned for an exact-out one-sided withdrawal;
/// see [`withdraw_single_token_type_exact_out_spec`].
pub fn withdraw_single_token_type_exact_out(
    trade_fee_amount: u128,
    source_amount: u128,
    swap_token_amount: u128,
    pool_supply: u128,
) -> (r: Option<u128>)
    ensures
        r == withdraw_single_token_type_exact_out_spec(
            trade_fee_amount,
            source_amount,
            swap_token_amount,
            pool_supply,
        ),
{
    // Half of the exact output, rounded up, is conceptually bought back with
    // the other asset, so it is grossed up by the inverse fee formula.
    let half_source_amount = source_amount.checked_add(1)?.checked_div(2)?;
    let trade_fee_source_amount = pre_trading_fee_amoun(half_source_amount, trade_fee_amount)?;
    proof {
        lemma_fundamental_div_mod(source_amount + 1, 2);
        lemma_mod_bound(source_amount + 1, 2);
    }
    let total_source_amount = source_amount.checked_sub(half_source_amount)?.checked_add(
        trade_fee_source_amount,
    )?;

    let swap_source_amount = PreciseNumber::new(swap_token_amount)?;
    let withdrawal_amount = PreciseNumber::new(total_source_amount)?;
    let ratio = withdrawal_amount.checked_div(&swap_source_amount)?;
    let one = PreciseNumber::new(1)?;
    // A withdrawal larger than the reserve clamps the base to zero instead
    // of failing: the square root term then burns the whole ratio's worth.
    let base = match one.checked_sub(&ratio) {
        Some(b) => b,
        None => PreciseNumber { value: 0 },
    };

    let root = one.checked_sub(&base.sqrt()?)?;
    let pool_tokens = PreciseNumber::new(pool_supply)?.checked_mul(&root)?;

    let lifted = pool_tokens.ceiling()?;
    lifted.to_imprecise()
}

} // verus!
