//! Pricing and fixed-point math: USD valuation of raw token amounts, the
//! health factor of a position, and the bonus-adjusted collateral seizure of a
//! liquidation. All ratios are integer fixed-point with `PRECISION` = 10^18
//! standing for 1.0; every multiplication is checked for overflow before the
//! division that follows it.

use vstd::prelude::*;

use vstd::arithmetic::div_mod::lemma_fundamental_div_mod;
use vstd::arithmetic::mul::lemma_mul_upper_bound;

use crate::errors::ErrorCode;

verus! {

/// The fixed-point scale: this value represents the ratio 1.0.
pub const PRECISION: u64 = 1_000_000_000_000_000_000;

/// The lowest health factor (1.0) at which borrows and withdrawals are
/// still allowed.
pub const MIN_HEALTH_FACTOR: u64 = 1_000_000_000_000_000_000;

/// Below this health factor (0.95) a position may be liquidated; the same
/// ratio weights collateral in the health-factor recomputation of deposit,
/// repay, withdraw and liquidate.
pub const LIQUIDATION_THRESHOLD: u64 = 950_000_000_000_000_000;

/// The extra fraction of the repaid debt value (0.05) granted to a
/// liquidator when sizing the collateral to seize.
pub const LIQUIDATION_BONUS: u64 = 50_000_000_000_000_000;

/// The largest loan-to-value ratio (0.75) an asset is expected to be
/// registered with.
pub const MAX_LTV: u64 = 750_000_000_000_000_000;

/// 10^n.
pub open spec fn pow10(n: nat) -> int
    decreases n,
{
    if n == 0 {
        1
    } else {
        10 * pow10((n - 1) as nat)
    }
}

pub proof fn lemma_pow10_pos(n: nat)
    ensures
        pow10(n) >= 1,
    decreases n,
{
    if n > 0 {
        lemma_pow10_pos((n - 1) as nat);
    }
}

pub proof fn lemma_pow10_increases(a: nat, b: nat)
    requires
        a <= b,
    ensures
        pow10(a) <= pow10(b),
    decreases b,
{
    if a < b {
        lemma_pow10_increases(a, (b - 1) as nat);
        lemma_pow10_pos((b - 1) as nat);
    }
}

/// 10^decimals as a machine integer; `decimals <= 19` is forced by `u64`
/// (10^20 does not fit).
pub fn pow10_u64(decimals: u8) -> (r: u64)
    requires
        decimals <= 19,
    ensures
        r == pow10(decimals as nat),
{
    proof {
        assert(pow10(19) == 10_000_000_000_000_000_000) by {
            reveal_with_fuel(pow10, 20);
        }
    }
    let mut r: u64 = 1;
    let mut i: u8 = 0;
    while i < decimals
        invariant
            i <= decimals <= 19,
            r == pow10(i as nat),
            pow10(19) == 10_000_000_000_000_000_000,
        decreases decimals - i,
    {
        proof {
            lemma_pow10_increases(i as nat + 1, 19);
        }
        r = r * 10;
        i = i + 1;
    }
    r
}

/// The USD value of `amount` raw units of an asset with `decimals` fractional
/// digits at unit price `price`: `amount * price / 10^decimals`.
pub open spec fn spec_usd_value(amount: int, price: int, decimals: int) -> int {
    amount * price / pow10(decimals as nat)
}

/// Converts a raw token amount and an oracle unit price into a USD value.
/// Fails with `InvalidAmount` exactly when `amount * price` does not fit
/// in a `u64`.
pub fn calculate_usd_value(amount: u64, price: u64, decimals: u8) -> (r: Result<u64, ErrorCode>)
    requires
        decimals <= 19,
    ensures
        match r {
            Ok(v) => amount * price <= u64::MAX && v == spec_usd_value(
                amount as int,
                price as int,
                decimals as int,
            ),
            Err(e) => e == ErrorCode::InvalidAmount && amount * price > u64::MAX,
        },
{
    match amount.checked_mul(price) {
        Some(product) => {
            let divisor = pow10_u64(decimals);
            proof {
                lemma_pow10_pos(decimals as nat);
            }
            Ok(product / divisor)
        },
        None => Err(ErrorCode::InvalidAmount),
    }
}

/// The health factor of a position: risk-weighted collateral value over
/// borrow value, on the fixed-point scale. A position with no borrow has the
/// maximum representable factor.
pub open spec fn spec_health_factor(collateral_usd: int, borrow_usd: int, threshold: int) -> int {
    if borrow_usd == 0 {
        u64::MAX as int
    } else {
        ((collateral_usd * threshold / (PRECISION as int)) * (PRECISION as int)) / borrow_usd
    }
}

/// With no borrow value there is no risk: the health factor is the maximum
/// representable value, whatever the collateral value and the threshold, and
/// its computation cannot overflow.
pub proof fn lemma_health_factor_no_borrow(collateral_usd: int, threshold: int)
    ensures
        spec_health_factor(collateral_usd, 0, threshold) == u64::MAX,
        !health_factor_overflows(collateral_usd, 0, threshold),
{
}

/// The product of two values that each fit a `u64` fits a `u128`.
pub proof fn lemma_u64_mul_fits_u128(x: int, y: int)
    requires
        0 <= x <= u64::MAX,
        0 <= y <= u64::MAX,
    ensures
        0 <= x * y <= u128::MAX,
{
    lemma_mul_upper_bound(x, u64::MAX as int, y, u64::MAX as int);
    assert(0 <= x * y && (u64::MAX as int) * (u64::MAX as int) <= u128::MAX as int)
        by (nonlinear_arith)
        requires
            0 <= x <= u64::MAX,
            0 <= y <= u64::MAX,
    ;
}

/// The health factor does not fit a `u64` on these inputs (and only these);
/// the computation is then rejected with `InvalidAmount`.
pub open spec fn health_factor_overflows(
    collateral_usd: int,
    borrow_usd: int,
    threshold: int,
) -> bool {
    borrow_usd != 0 && ((collateral_usd * threshold / (PRECISION as int)) * (PRECISION as int))
        / borrow_usd > u64::MAX
}

/// Computes the health factor `(collateral * threshold / PRECISION) *
/// PRECISION / borrow`, or the maximum representable value when nothing is
/// borrowed.
pub fn calculate_health_factor(
    total_collateral_value_usd: u64,
    total_borrow_value_usd: u64,
    liquidation_threshold: u64,
) -> (r: Result<u64, ErrorCode>)
    ensures
        match r {
            Ok(h) => !health_factor_overflows(
                total_collateral_value_usd as int,
                total_borrow_value_usd as int,
                liquidation_threshold as int,
            ) && h == spec_health_factor(
                total_collateral_value_usd as int,
                total_borrow_value_usd as int,
                liquidation_threshold as int,
            ),
            Err(e) => e == ErrorCode::InvalidAmount && health_factor_overflows(
                total_collateral_value_usd as int,
                total_borrow_value_usd as int,
                liquidation_threshold as int,
            ),
        },
{
    if total_borrow_value_usd == 0 {
        return Ok(u64::MAX);
    }
    proof {
        lemma_u64_mul_fits_u128(
            total_collateral_value_usd as int,
            liquidation_threshold as int,
        );
        lemma_fundamental_div_mod(
            (total_collateral_value_usd as int) * (liquidation_threshold as int),
            PRECISION as int,
        );
    }
    let weighted_collateral = ((total_collateral_value_usd as u128) * (liquidation_threshold
        as u128)) / (PRECISION as u128);
    let scaled = weighted_collateral * (PRECISION as u128);
    let health = scaled / (total_borrow_value_usd as u128);
    if health > u64::MAX as u128 {
        Err(ErrorCode::InvalidAmount)
    } else {
        Ok(health as u64)
    }
}

/// The collateral a liquidator may seize for repaying `debt_amount` of debt:
/// the debt value plus the liquidation bonus, converted into collateral
/// units: `(debt_amount * debt_price * (PRECISION + bonus) / PRECISION) /
/// collateral_price`.
pub open spec fn spec_seizure(
    debt_amount: int,
    debt_price: int,
    collateral_price: int,
    bonus: int,
) -> int {
    (debt_amount * debt_price * ((PRECISION as int) + bonus) / (PRECISION as int))
        / collateral_price
}

/// The seizure computation fails on these inputs (and only these): a
/// bonus-adjusted debt value beyond even the wide intermediate range, a zero
/// collateral price, or a seizure that does not fit a `u64`.
pub open spec fn seizure_fails(
    debt_amount: int,
    debt_price: int,
    collateral_price: int,
    bonus: int,
) -> bool {
    ||| (debt_amount * debt_price) * ((PRECISION as int) + bonus) > u128::MAX
    ||| collateral_price == 0
    ||| spec_seizure(debt_amount, debt_price, collateral_price, bonus) > u64::MAX
}

/// Computes the bonus-adjusted collateral seizure of a liquidation; fails
/// with `InvalidAmount` exactly on the inputs `seizure_fails` describes.
pub fn calculate_liquidation_amount(
    debt_amount: u64,
    debt_price: u64,
    collateral_price: u64,
    liquidation_bonus: u64,
) -> (r: Result<u64, ErrorCode>)
    requires
        liquidation_bonus <= u64::MAX - PRECISION,
    ensures
        match r {
            Ok(v) => !seizure_fails(
                debt_amount as int,
                debt_price as int,
                collateral_price as int,
                liquidation_bonus as int,
            ) && v == spec_seizure(
                debt_amount as int,
                debt_price as int,
                collateral_price as int,
                liquidation_bonus as int,
            ),
            Err(e) => e == ErrorCode::InvalidAmount && seizure_fails(
                debt_amount as int,
                debt_price as int,
                collateral_price as int,
                liquidation_bonus as int,
            ),
        },
{
    proof {
        lemma_u64_mul_fits_u128(debt_amount as int, debt_price as int);
    }
    let debt_value = (debt_amount as u128) * (debt_price as u128);
    let bonus_factor = (PRECISION + liquidation_bonus) as u128;
    let collateral_value_needed = match debt_value.checked_mul(bonus_factor) {
        Some(v) => v / (PRECISION as u128),
        None => {
            return Err(ErrorCode::InvalidAmount);
        },
    };
    if collateral_price == 0 {
        return Err(ErrorCode::InvalidAmount);
    }
    let seize = collateral_value_needed / (collateral_price as u128);
    if seize > u64::MAX as u128 {
        return Err(ErrorCode::InvalidAmount);
    }
    Ok(seize as u64)
}

/// Validates the answer of an oracle price round. Reading the feed itself is
/// the oracle collaborator's work; the engine accepts only a positive answer
/// and fails with `InvalidPriceData` otherwise.
pub fn get_asset_price(answer: i64) -> (r: Result<u64, ErrorCode>)
    ensures
        match r {
            Ok(p) => answer > 0 && p == answer,
            Err(e) => e == ErrorCode::InvalidPriceData && answer <= 0,
        },
{
    if answer > 0 {
        Ok(answer as u64)
    } else {
        Err(ErrorCode::InvalidPriceData)
    }
}

} // verus!
