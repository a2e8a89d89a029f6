use lending_pool::errors::ErrorCode;
use lending_pool::math::{
    calculate_health_factor, calculate_liquidation_amount, calculate_usd_value, get_asset_price,
    pow10_u64, LIQUIDATION_BONUS, PRECISION,
};

const SCALE: u64 = 1_000_000_000_000_000_000;

#[test]
fn health_factor_is_max_without_borrow() {
    assert_eq!(calculate_health_factor(0, 0, 0), Ok(u64::MAX));
    assert_eq!(calculate_health_factor(1_000, 0, 950_000_000_000_000_000), Ok(u64::MAX));
    assert_eq!(calculate_health_factor(u64::MAX, 0, u64::MAX), Ok(u64::MAX));
}

#[test]
fn health_factor_literal_example() {
    // c = 1000, b = 500, t = 0.95 => 1.9 on the fixed-point scale.
    assert_eq!(
        calculate_health_factor(1_000, 500, 950_000_000_000_000_000),
        Ok(1_900_000_000_000_000_000)
    );
}

#[test]
fn health_factor_formula_truncates() {
    // c = 3, b = 7, t = 1.0: (3 * SCALE / SCALE) * SCALE / 7, integer-truncated.
    assert_eq!(calculate_health_factor(3, 7, SCALE), Ok(3 * SCALE / 7));
}

#[test]
fn health_factor_overflow_is_invalid_amount() {
    assert_eq!(calculate_health_factor(u64::MAX, 1, 2), Err(ErrorCode::InvalidAmount));
}

#[test]
fn usd_value_scales_by_decimals() {
    // 2.5 tokens with 6 decimals at price 4: 2_500_000 * 4 / 10^6 = 10.
    assert_eq!(calculate_usd_value(2_500_000, 4, 6), Ok(10));
    assert_eq!(calculate_usd_value(1_000, 3, 0), Ok(3_000));
}

#[test]
fn usd_value_overflow_is_invalid_amount() {
    assert_eq!(calculate_usd_value(u64::MAX, 2, 0), Err(ErrorCode::InvalidAmount));
}

#[test]
fn liquidation_amount_literal_example() {
    // debt 100 at price 1, collateral price 2, 5% bonus: 100 * 1.05 / 2 = 52.
    assert_eq!(calculate_liquidation_amount(100, 1, 2, LIQUIDATION_BONUS), Ok(52));
}

#[test]
fn liquidation_amount_zero_collateral_price_fails() {
    assert_eq!(
        calculate_liquidation_amount(100, 1, 0, LIQUIDATION_BONUS),
        Err(ErrorCode::InvalidAmount)
    );
}

#[test]
fn asset_price_rejects_non_positive_answers() {
    assert_eq!(get_asset_price(42), Ok(42));
    assert_eq!(get_asset_price(0), Err(ErrorCode::InvalidPriceData));
    assert_eq!(get_asset_price(-5), Err(ErrorCode::InvalidPriceData));
}

#[test]
fn pow10_values() {
    assert_eq!(pow10_u64(0), 1);
    assert_eq!(pow10_u64(6), 1_000_000);
    assert_eq!(pow10_u64(18), PRECISION);
    assert_eq!(pow10_u64(19), 10_000_000_000_000_000_000);
}
