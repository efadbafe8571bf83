//! Tests of the constant-product curve calculations.

use easy_amm::curve::{
    calculate_exchange_amount, deposit_single_token_type, pool_tokens_to_trading_tokens, to_u64,
    withdraw_single_token_type_exact_out,
};
use easy_amm::error::SwapError;

#[test]
fn to_u64_narrows_or_fails() {
    assert_eq!(to_u64(0), Ok(0));
    assert_eq!(to_u64(u64::MAX as u128), Ok(u64::MAX));
    assert_eq!(to_u64(u64::MAX as u128 + 1), Err(SwapError::ConversionFailure));
}

#[test]
fn exchange_scenario_balanced_pool() {
    // Reserves (1_000_000, 1_000_000), 30 bps, 10_000 in: the fee is 30,
    // 9_970 enters the curve, and the payout derived from the formula is
    // exactly 9_871 (the user pays the full 10_000, fee included).
    let r = calculate_exchange_amount(30, 10_000, 1_000_000, 1_000_000).unwrap();
    assert_eq!(r, (10_000, 9_871));
}

#[test]
fn exchange_scenario_preserves_invariant() {
    let (source, destination) = calculate_exchange_amount(30, 10_000, 1_000_000, 1_000_000)
        .unwrap();
    let old_product: u128 = 1_000_000u128 * 1_000_000u128;
    let new_product: u128 = (1_000_000u128 + source) * (1_000_000u128 - destination);
    assert!(new_product >= old_product);
}

#[test]
fn exchange_scenario_tiny_pool() {
    // One-unit reserves and a one-unit trade collapse to nothing: reported
    // as a degenerate trade, never as a wrap-around.
    assert_eq!(calculate_exchange_amount(0, 1, 1, 1), None);
}

#[test]
fn exchange_zero_rate_charges_no_fee() {
    let (source, destination) = calculate_exchange_amount(0, 10_000, 1_000_000, 1_000_000)
        .unwrap();
    // The payout is 1e6 - ceil(1e12 / 1_010_000) = 9_900, and the adjusted
    // divisor tightens what the user is charged down to 9_999.
    assert_eq!(source, 9_999);
    assert_eq!(destination, 9_900);
}

#[test]
fn exchange_is_deterministic() {
    let a = calculate_exchange_amount(30, 12_345, 777_777, 555_555);
    let b = calculate_exchange_amount(30, 12_345, 777_777, 555_555);
    assert_eq!(a, b);
}

#[test]
fn pool_tokens_proportional_share() {
    // 1% of the supply converts to 1% of each reserve, exactly.
    assert_eq!(
        pool_tokens_to_trading_tokens(true, 10_000_000, 1_000_000_000, 1_000_000, 1_000_000),
        Some((10_000, 10_000))
    );
    assert_eq!(
        pool_tokens_to_trading_tokens(false, 10_000_000, 1_000_000_000, 1_000_000, 1_000_000),
        Some((10_000, 10_000))
    );
}

#[test]
fn pool_tokens_ceiling_bumps_inexact_amounts() {
    // 7 * 5 / 9 = 3 remainder 8: the ceiling request adds one per asset.
    assert_eq!(pool_tokens_to_trading_tokens(false, 7, 9, 5, 5), Some((3, 3)));
    assert_eq!(pool_tokens_to_trading_tokens(true, 7, 9, 5, 5), Some((4, 4)));
}

#[test]
fn pool_tokens_ceiling_never_bumps_zero() {
    // A floored amount of zero stays zero even when inexact.
    assert_eq!(
        pool_tokens_to_trading_tokens(true, 3, 1_000_000_000, 1_000_000, 1_000_000),
        Some((0, 0))
    );
}

#[test]
fn pool_tokens_rounding_is_monotonic() {
    let cases = [
        (7u128, 9u128, 5u128, 5u128),
        (3, 1_000_000_000, 1_000_000, 1_000_000),
        (123_456, 999_999, 777_777, 111),
        (1, 3, 1, 2),
    ];
    for (p, s, a, b) in cases {
        let lo = pool_tokens_to_trading_tokens(false, p, s, a, b).unwrap();
        let hi = pool_tokens_to_trading_tokens(true, p, s, a, b).unwrap();
        assert!(lo.0 <= hi.0);
        assert!(lo.1 <= hi.1);
    }
}

#[test]
fn pool_tokens_empty_pool_fails() {
    assert_eq!(pool_tokens_to_trading_tokens(false, 5, 0, 10, 10), None);
}

#[test]
fn deposit_single_scenario_dust() {
    // A one-unit deposit against a million-unit reserve mints nothing.
    assert_eq!(deposit_single_token_type(0, 1, 1_000_000, 1_000_000_000), Some(0));
}

#[test]
fn deposit_single_scenario_regular() {
    // 10_000 in, 30 bps on the implicit half-swap: ratio 9_985 / 1_000_000,
    // sqrt(1.009985) = 1.004980 at six decimals, minting floor(1e9 * 0.004980).
    assert_eq!(
        deposit_single_token_type(30, 10_000, 1_000_000, 1_000_000_000),
        Some(4_980_000)
    );
}

#[test]
fn deposit_single_empty_reserve_fails() {
    assert_eq!(deposit_single_token_type(0, 10, 0, 1_000_000_000), None);
}

#[test]
fn deposit_single_is_deterministic() {
    let a = deposit_single_token_type(25, 98_765, 1_234_567, 1_000_000_000);
    let b = deposit_single_token_type(25, 98_765, 1_234_567, 1_000_000_000);
    assert_eq!(a, b);
}

#[test]
fn withdraw_single_scenario_regular() {
    // Withdrawing 10_000 exactly: half is grossed up to 5_016, the total
    // 10_016 is set against the reserve, and ceil(1e9 * (1 - sqrt(0.989984)))
    // shares are burned.
    assert_eq!(
        withdraw_single_token_type_exact_out(30, 10_000, 1_000_000, 1_000_000_000),
        Some(5_021_000)
    );
}

#[test]
fn withdraw_single_beyond_reserve_burns_everything() {
    // A withdrawal of more than the reserve clamps the square-root base to
    // zero and asks for the whole supply.
    assert_eq!(
        withdraw_single_token_type_exact_out(0, 2_000_000, 1_000_000, 1_000_000_000),
        Some(1_000_000_000)
    );
}

#[test]
fn withdraw_single_empty_reserve_fails() {
    assert_eq!(withdraw_single_token_type_exact_out(0, 10, 0, 1_000_000_000), None);
}

#[test]
fn withdraw_single_is_deterministic() {
    let a = withdraw_single_token_type_exact_out(30, 4_321, 999_999, 888_888_888);
    let b = withdraw_single_token_type_exact_out(30, 4_321, 999_999, 888_888_888);
    assert_eq!(a, b);
}
