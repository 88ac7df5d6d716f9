use liquidity_manager::errors::LiquidityManagerError;
use liquidity_manager::liquidity::{
    adjust_for_decimals, calculate_liquidity, calculate_liquidity_a, calculate_liquidity_b,
};
use liquidity_manager::tick_math::tick_to_sqrt_price;

// Q64.64 sqrt-prices of the ticks used below, as `tick_to_sqrt_price`
// produces them.
const PRICE_NEG_100: u128 = 18354745142194483451; // tick -100
const PRICE_ZERO: u128 = 18446744073709551616; // tick 0, exactly 2^64
const PRICE_POS_100: u128 = 18539204128674405672; // tick 100

#[test]
fn adjust_scales_by_powers_of_ten() {
    assert_eq!(adjust_for_decimals(1000, 6), Ok(1_000_000_000));
    assert_eq!(adjust_for_decimals(0, 0), Ok(0));
    assert_eq!(adjust_for_decimals(7, 0), Ok(7));
}

#[test]
fn adjust_overflow_is_reported() {
    assert_eq!(
        adjust_for_decimals(1, 39),
        Err(LiquidityManagerError::CalculationOverflow)
    );
    assert_eq!(
        adjust_for_decimals(u64::MAX, 30),
        Err(LiquidityManagerError::CalculationOverflow)
    );
    // A zero amount never overflows, whatever the decimal count.
    assert_eq!(adjust_for_decimals(0, 255), Ok(0));
}

#[test]
fn single_sided_a_exact_value() {
    assert_eq!(
        calculate_liquidity_a(1_000_000_000, PRICE_ZERO, PRICE_POS_100),
        Ok(200510416479)
    );
}

#[test]
fn single_sided_b_exact_value() {
    assert_eq!(
        calculate_liquidity_b(1_000_000_000, PRICE_NEG_100, PRICE_ZERO),
        Ok(200510416479)
    );
}

#[test]
fn single_sided_reject_empty_or_inverted_range() {
    assert_eq!(
        calculate_liquidity_a(1, PRICE_POS_100, PRICE_NEG_100),
        Err(LiquidityManagerError::InvalidTickRange)
    );
    assert_eq!(
        calculate_liquidity_a(1, PRICE_ZERO, PRICE_ZERO),
        Err(LiquidityManagerError::InvalidTickRange)
    );
    assert_eq!(
        calculate_liquidity_b(1, PRICE_POS_100, PRICE_NEG_100),
        Err(LiquidityManagerError::InvalidTickRange)
    );
    assert_eq!(
        calculate_liquidity_b(1, PRICE_ZERO, PRICE_ZERO),
        Err(LiquidityManagerError::InvalidTickRange)
    );
}

#[test]
fn single_sided_overflow_is_reported() {
    // The first product overflows: the amount alone fills 122 bits.
    assert_eq!(
        calculate_liquidity_a(1u128 << 122, PRICE_ZERO, PRICE_POS_100),
        Err(LiquidityManagerError::CalculationOverflow)
    );
    // The second product overflows: a one-unit-wide range blows up the
    // intermediate quotient before the rescaling step.
    assert_eq!(
        calculate_liquidity_a(1000, 18446744073709551616, 18446744073709551617),
        Err(LiquidityManagerError::CalculationOverflow)
    );
    assert_eq!(
        calculate_liquidity_b(18446744073709551616, 1, 2),
        Err(LiquidityManagerError::CalculationOverflow)
    );
}

#[test]
fn below_range_result_ignores_amount_a() {
    let with_small_a = calculate_liquidity(100, 300, 7, 1000, 0, 6, 6);
    let with_large_a = calculate_liquidity(100, 300, 9999, 1000, 0, 6, 6);
    assert_eq!(with_small_a, Ok(99009570544));
    assert_eq!(with_large_a, Ok(99009570544));
    assert_eq!(with_small_a, with_large_a);
}

#[test]
fn in_range_result_is_min_with_asset_a_binding() {
    let result = calculate_liquidity(-100, 100, 5, 1000, 0, 6, 6);
    let side_a = calculate_liquidity_a(5_000_000, PRICE_ZERO, PRICE_POS_100).unwrap();
    let side_b = calculate_liquidity_b(1_000_000_000, PRICE_NEG_100, PRICE_ZERO).unwrap();
    assert!(side_a < side_b);
    assert_eq!(result, Ok(side_a));
    assert_eq!(result, Ok(1002552082));
}

#[test]
fn in_range_result_is_min_with_asset_b_binding() {
    let result = calculate_liquidity(-100, 100, 1000, 5, 0, 6, 6);
    let side_a = calculate_liquidity_a(1_000_000_000, PRICE_ZERO, PRICE_POS_100).unwrap();
    let side_b = calculate_liquidity_b(5_000_000, PRICE_NEG_100, PRICE_ZERO).unwrap();
    assert!(side_b < side_a);
    assert_eq!(result, Ok(side_b));
    assert_eq!(result, Ok(1002552082));
}

#[test]
fn in_range_result_is_positive_and_reproducible() {
    let first = calculate_liquidity(-100, 100, 1000, 1000, 0, 6, 6);
    let second = calculate_liquidity(-100, 100, 1000, 1000, 0, 6, 6);
    assert_eq!(first, Ok(200510416479));
    assert_eq!(first, second);
    assert!(first.unwrap() > 0);
}

#[test]
fn at_or_above_range_uses_asset_a_only() {
    assert_eq!(
        calculate_liquidity(-300, -200, 50, 123, -150, 6, 6),
        Ok(9876267670)
    );
}

#[test]
fn scaling_overflow_is_reported_through_the_calculator() {
    assert_eq!(
        calculate_liquidity(-100, 100, 1, 1, 0, 39, 6),
        Err(LiquidityManagerError::CalculationOverflow)
    );
}

#[test]
fn empty_range_is_rejected_through_the_calculator() {
    assert_eq!(
        calculate_liquidity(5, 5, 10, 10, 5, 0, 0),
        Err(LiquidityManagerError::InvalidTickRange)
    );
    assert_eq!(
        calculate_liquidity(10, -10, 10, 10, 20, 0, 0),
        Err(LiquidityManagerError::InvalidTickRange)
    );
}

#[test]
fn calculator_prices_match_tick_math() {
    assert_eq!(tick_to_sqrt_price(-100), Ok(PRICE_NEG_100));
    assert_eq!(tick_to_sqrt_price(0), Ok(PRICE_ZERO));
    assert_eq!(tick_to_sqrt_price(100), Ok(PRICE_POS_100));
}
