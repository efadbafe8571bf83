//! Tests of the arithmetic primitives: fees, ceiling division and the
//! fixed-point precision number.

use easy_amm::arith::{checked_ceil_div, divide_round_up};
use easy_amm::fees::{calculation_fee, pre_trading_fee_amoun};
use easy_amm::precise::{isqrt_u128, PreciseNumber, ONE};

#[test]
fn fee_is_floored_product() {
    assert_eq!(calculation_fee(10_000, 30), Some(30));
    assert_eq!(calculation_fee(333, 30), Some(0));
    assert_eq!(calculation_fee(3, 30), Some(0));
    assert_eq!(calculation_fee(1_000_000, 25), Some(2_500));
    assert_eq!(calculation_fee(5, 10_000), Some(5));
}

#[test]
fn fee_of_zero_rate_is_zero() {
    assert_eq!(calculation_fee(u128::MAX, 0), Some(0));
    assert_eq!(calculation_fee(12_345, 0), Some(0));
    assert_eq!(calculation_fee(0, 0), Some(0));
}

#[test]
fn fee_never_exceeds_amount() {
    for amount in [0u128, 1, 2, 9_999, 10_000, 10_001, u64::MAX as u128] {
        for rate in [0u128, 1, 30, 5_000, 9_999, 10_000] {
            let fee = calculation_fee(amount, rate).unwrap();
            assert!(fee <= amount);
        }
    }
}

#[test]
fn fee_overflow_is_reported() {
    assert_eq!(calculation_fee(u128::MAX, 2), None);
}

#[test]
fn pre_trading_fee_amoun_rounds_up() {
    assert_eq!(pre_trading_fee_amoun(9_970, 30), Some(10_000));
    assert_eq!(pre_trading_fee_amoun(1, 9_999), Some(10_000));
    assert_eq!(pre_trading_fee_amoun(0, 30), Some(0));
    assert_eq!(pre_trading_fee_amoun(5, 0), Some(5));
}

#[test]
fn pre_trading_fee_amoun_rejects_full_rate() {
    assert_eq!(pre_trading_fee_amoun(5, 10_000), None);
    assert_eq!(pre_trading_fee_amoun(0, 10_000), None);
    assert_eq!(pre_trading_fee_amoun(5, 10_001), None);
}

#[test]
fn fee_round_trip_covers_net_amount() {
    for amount in [1u128, 9_970, 123_456, 1_000_000_000] {
        for rate in [1u128, 30, 2_500, 5_000, 9_999] {
            let gross = pre_trading_fee_amoun(amount, rate).unwrap();
            let fee = calculation_fee(gross, rate).unwrap();
            assert!(gross - fee >= amount);
        }
    }
}

#[test]
fn ceil_div_adjusts_both_sides() {
    // 400 / 32 rounds up to 13, and the divisor is tightened to 31.
    assert_eq!(checked_ceil_div(400, 32), Some((13, 31)));
    assert_eq!(checked_ceil_div(100, 10), Some((10, 10)));
    assert_eq!(checked_ceil_div(7, 3), Some((3, 3)));
}

#[test]
fn ceil_div_refuses_zero_quotient() {
    assert_eq!(checked_ceil_div(1, 2), None);
    assert_eq!(checked_ceil_div(0, 5), None);
    assert_eq!(checked_ceil_div(5, 0), None);
}

#[test]
fn ceil_div_product_covers_dividend() {
    for lhs in [10u128, 99, 400, 1_000_000_000_000, u64::MAX as u128] {
        for rhs in [1u128, 3, 32, 999, 1_000_000] {
            if let Some((q, adj)) = checked_ceil_div(lhs, rhs) {
                assert!(q * adj >= lhs);
                assert!(adj <= rhs);
            }
        }
    }
}

#[test]
fn isqrt_small_values() {
    assert_eq!(isqrt_u128(0), 0);
    assert_eq!(isqrt_u128(1), 1);
    assert_eq!(isqrt_u128(2), 1);
    assert_eq!(isqrt_u128(3), 1);
    assert_eq!(isqrt_u128(4), 2);
    assert_eq!(isqrt_u128(99), 9);
    assert_eq!(isqrt_u128(100), 10);
}

#[test]
fn isqrt_extreme_values() {
    assert_eq!(isqrt_u128(u128::MAX), (1u128 << 64) - 1);
    assert_eq!(isqrt_u128(1u128 << 64), 1u128 << 32);
    assert_eq!(isqrt_u128((1u128 << 64) - 1), (1u128 << 32) - 1);
}

#[test]
fn isqrt_brackets_the_input() {
    for n in [0u128, 1, 5, 17, 1_000_003, u64::MAX as u128, u128::MAX / 7] {
        let r = isqrt_u128(n);
        assert!(r * r <= n);
        assert!((r + 1).checked_mul(r + 1).map(|sq| sq > n).unwrap_or(true));
    }
}

#[test]
fn isqrt_is_monotonic() {
    let samples = [0u128, 1, 2, 3, 4, 10, 1_000, 999_999, 1_000_000, u64::MAX as u128];
    for w in samples.windows(2) {
        assert!(isqrt_u128(w[0]) <= isqrt_u128(w[1]));
    }
}

#[test]
fn precise_new_is_exact() {
    assert_eq!(PreciseNumber::new(5).unwrap().value, 5 * ONE);
    assert_eq!(PreciseNumber::new(0).unwrap().value, 0);
    // A magnitude whose scaling overflows is refused.
    assert_eq!(PreciseNumber::new(u128::MAX / ONE + 1), None);
}

#[test]
fn precise_round_trip() {
    for v in [0u128, 1, 7, 1_000_000, u64::MAX as u128] {
        let p = PreciseNumber::new(v).unwrap();
        assert_eq!(p.to_imprecise(), Some(v));
    }
}

#[test]
fn precise_add_sub() {
    let a = PreciseNumber::new(7).unwrap();
    let b = PreciseNumber::new(3).unwrap();
    assert_eq!(a.checked_add(&b).unwrap().value, 10 * ONE);
    assert_eq!(a.checked_sub(&b).unwrap().value, 4 * ONE);
    // Subtraction below zero fails instead of wrapping.
    assert_eq!(b.checked_sub(&a), None);
}

#[test]
fn precise_mul_div() {
    let a = PreciseNumber::new(3).unwrap();
    assert_eq!(a.checked_mul(&a).unwrap().value, 9 * ONE);
    let one = PreciseNumber::new(1).unwrap();
    let third = one.checked_div(&a).unwrap();
    assert_eq!(third.value, 333_333);
    // Division by zero fails.
    let zero = PreciseNumber::new(0).unwrap();
    assert_eq!(one.checked_div(&zero), None);
}

#[test]
fn precise_floor_ceiling() {
    let one = PreciseNumber::new(1).unwrap();
    let three = PreciseNumber::new(3).unwrap();
    let third = one.checked_div(&three).unwrap();
    assert_eq!(third.floor().unwrap().value, 0);
    assert_eq!(third.ceiling().unwrap().value, ONE);
    assert_eq!(three.floor().unwrap().value, 3 * ONE);
    assert_eq!(three.ceiling().unwrap().value, 3 * ONE);
}

#[test]
fn precise_sqrt_is_exact_floor_root() {
    let four = PreciseNumber::new(4).unwrap();
    assert_eq!(four.sqrt().unwrap().value, 2 * ONE);
    let two = PreciseNumber::new(2).unwrap();
    // sqrt(2) = 1.414213..., floored at six decimals.
    assert_eq!(two.sqrt().unwrap().value, 1_414_213);
    let zero = PreciseNumber::new(0).unwrap();
    assert_eq!(zero.sqrt().unwrap().value, 0);
}

#[test]
fn precise_sqrt_is_deterministic() {
    let n = PreciseNumber::new(987_654_321).unwrap();
    assert_eq!(n.sqrt(), n.sqrt());
}

#[test]
fn divide_round_up_rounds_toward_infinity() {
    assert_eq!(divide_round_up(400, 32), Some(13));
    assert_eq!(divide_round_up(400, 40), Some(10));
    assert_eq!(divide_round_up(1, 2), Some(1));
    assert_eq!(divide_round_up(0, 7), Some(0));
    assert_eq!(divide_round_up(u128::MAX, 1), Some(u128::MAX));
    assert_eq!(divide_round_up(5, 0), None);
}
