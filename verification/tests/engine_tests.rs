use lending_pool::engine::{borrow_cross_chain, deposit, liquidate, repay, withdraw, COOLDOWN};
use lending_pool::errors::ErrorCode;
use lending_pool::math::PRECISION;
use lending_pool::state::{
    add_supported_asset, initialize, pause, unpause, AssetConfig, AssetInfo, Pool, UserPosition,
};

const ADMIN: [u8; 32] = [7u8; 32];
const BRIDGE: [u8; 32] = [8u8; 32];
const USER: [u8; 32] = [1u8; 32];
const MINT: [u8; 32] = [2u8; 32];
const FEED: [u8; 32] = [3u8; 32];
const LIQUIDATOR: [u8; 32] = [4u8; 32];
const RECEIVER: [u8; 32] = [9u8; 32];

fn active_pool() -> Pool {
    initialize(ADMIN, BRIDGE)
}

fn asset() -> AssetInfo {
    AssetInfo {
        mint: MINT,
        price_feed: FEED,
        ltv: 750_000_000_000_000_000,
        liquidation_threshold: 950_000_000_000_000_000,
        is_active: true,
        can_be_collateral: true,
        can_be_borrowed: true,
        total_deposits: 0,
        total_borrows: 0,
    }
}

fn fresh_position() -> UserPosition {
    UserPosition {
        user: [0u8; 32],
        collateral_balance: 0,
        borrow_balance: 0,
        total_collateral_value_usd: 0,
        total_borrow_value_usd: 0,
        health_factor: 0,
        last_action_timestamp: 0,
    }
}

fn active_position() -> UserPosition {
    UserPosition { user: USER, ..fresh_position() }
}

#[test]
fn initialize_sets_pool_fields() {
    let pool = initialize(ADMIN, BRIDGE);
    assert_eq!(pool.admin, ADMIN);
    assert_eq!(pool.ccip_program, BRIDGE);
    assert!(!pool.is_paused);
    assert_eq!(pool.total_assets, 0);
}

#[test]
fn add_supported_asset_registers_and_counts() {
    let mut pool = active_pool();
    let config = AssetConfig {
        price_feed: FEED,
        ltv: 750_000_000_000_000_000,
        liquidation_threshold: 950_000_000_000_000_000,
        can_be_collateral: true,
        can_be_borrowed: false,
    };
    let (info, ev) = add_supported_asset(&mut pool, &ADMIN, &MINT, &config).unwrap();
    assert_eq!(info.mint, MINT);
    assert_eq!(info.ltv, config.ltv);
    assert_eq!(info.liquidation_threshold, config.liquidation_threshold);
    assert!(info.is_active);
    assert!(info.can_be_collateral);
    assert!(!info.can_be_borrowed);
    assert_eq!(info.total_deposits, 0);
    assert_eq!(info.total_borrows, 0);
    assert_eq!(pool.total_assets, 1);
    assert_eq!(ev.mint, MINT);
    assert_eq!(ev.ltv, config.ltv);
}

#[test]
fn add_supported_asset_rejects_non_admin_and_paused() {
    let mut pool = active_pool();
    let config = AssetConfig {
        price_feed: FEED,
        ltv: 0,
        liquidation_threshold: 0,
        can_be_collateral: true,
        can_be_borrowed: true,
    };
    assert_eq!(
        add_supported_asset(&mut pool, &USER, &MINT, &config).unwrap_err(),
        ErrorCode::NotAuthorized
    );
    pool.is_paused = true;
    assert_eq!(
        add_supported_asset(&mut pool, &ADMIN, &MINT, &config).unwrap_err(),
        ErrorCode::NotAuthorized
    );
    assert_eq!(pool.total_assets, 0);
}

#[test]
fn pause_and_unpause_are_admin_only() {
    let mut pool = active_pool();
    assert_eq!(pause(&mut pool, &USER).unwrap_err(), ErrorCode::NotAuthorized);
    assert!(!pool.is_paused);
    let ev = pause(&mut pool, &ADMIN).unwrap();
    assert_eq!(ev.admin, ADMIN);
    assert!(pool.is_paused);
    // Still callable while paused.
    let ev = unpause(&mut pool, &ADMIN).unwrap();
    assert_eq!(ev.admin, ADMIN);
    assert!(!pool.is_paused);
}

#[test]
fn first_deposit_claims_position() {
    let pool = active_pool();
    let mut a = asset();
    let mut p = fresh_position();
    let ev = deposit(&pool, &mut a, &mut p, &USER, &MINT, 1_000, 500).unwrap();
    assert_eq!(p.user, USER);
    assert_eq!(p.collateral_balance, 500);
    assert_eq!(p.last_action_timestamp, 1_000);
    assert_eq!(p.health_factor, u64::MAX);
    assert_eq!(a.total_deposits, 500);
    assert_eq!(ev.user, USER);
    assert_eq!(ev.mint, MINT);
    assert_eq!(ev.amount, 500);
    assert_eq!(ev.chain_selector, 0);
}

#[test]
fn deposit_rejects_zero_amount_and_ineligible_asset() {
    let pool = active_pool();
    let mut a = asset();
    let mut p = fresh_position();
    assert_eq!(
        deposit(&pool, &mut a, &mut p, &USER, &MINT, 1_000, 0).unwrap_err(),
        ErrorCode::InvalidAmount
    );
    a.is_active = false;
    assert_eq!(
        deposit(&pool, &mut a, &mut p, &USER, &MINT, 1_000, 5).unwrap_err(),
        ErrorCode::AssetNotSupported
    );
    a.is_active = true;
    a.can_be_collateral = false;
    assert_eq!(
        deposit(&pool, &mut a, &mut p, &USER, &MINT, 1_000, 5).unwrap_err(),
        ErrorCode::AssetNotSupported
    );
    assert_eq!(p.collateral_balance, 0);
    assert_eq!(a.total_deposits, 0);
}

#[test]
fn second_action_within_cooldown_is_rate_limited() {
    let pool = active_pool();
    let mut a = asset();
    let mut p = fresh_position();
    deposit(&pool, &mut a, &mut p, &USER, &MINT, 1_000, 100).unwrap();
    // Exactly COOLDOWN units later: still limited.
    assert_eq!(
        deposit(&pool, &mut a, &mut p, &USER, &MINT, 1_000 + COOLDOWN, 100).unwrap_err(),
        ErrorCode::RateLimited
    );
    assert_eq!(p.collateral_balance, 100);
    assert_eq!(a.total_deposits, 100);
    // One more unit: allowed.
    deposit(&pool, &mut a, &mut p, &USER, &MINT, 1_000 + COOLDOWN + 1, 100).unwrap();
    assert_eq!(p.collateral_balance, 200);
    assert_eq!(a.total_deposits, 200);
}

#[test]
fn borrow_beyond_ltv_is_rejected_without_state_change() {
    let pool = active_pool();
    let mut a = asset();
    let mut p = active_position();
    p.total_collateral_value_usd = 1_000;
    let before = p;
    // 800 USD requested against 1000 USD collateral at LTV 0.75: over the
    // 750 USD bound.
    let err = borrow_cross_chain(&pool, &mut a, &mut p, &MINT, 0, 1, 2_000, 800, 0, RECEIVER)
        .unwrap_err();
    assert_eq!(err, ErrorCode::InsufficientCollateral);
    assert_eq!(p.collateral_balance, before.collateral_balance);
    assert_eq!(p.borrow_balance, before.borrow_balance);
    assert_eq!(p.total_borrow_value_usd, before.total_borrow_value_usd);
    assert_eq!(p.last_action_timestamp, before.last_action_timestamp);
    assert_eq!(a.total_borrows, 0);
}

#[test]
fn borrow_within_ltv_updates_position_and_emits() {
    let pool = active_pool();
    let mut a = asset();
    let mut p = active_position();
    p.total_collateral_value_usd = 1_000;
    let (ev, outbound) =
        borrow_cross_chain(&pool, &mut a, &mut p, &MINT, 0, 1, 2_000, 700, 0, RECEIVER).unwrap();
    assert_eq!(p.borrow_balance, 700);
    assert_eq!(p.total_borrow_value_usd, 700);
    assert_eq!(p.last_action_timestamp, 2_000);
    // (1000 * 0.95) * SCALE / 700 = 950 * SCALE / 700
    assert_eq!(p.health_factor, (950u128 * PRECISION as u128 / 700) as u64);
    assert_eq!(a.total_borrows, 700);
    assert_eq!(ev.user, USER);
    assert_eq!(ev.amount, 700);
    assert_eq!(ev.dest_chain, 0);
    assert_eq!(ev.health_factor, p.health_factor);
    assert!(outbound.is_none());
}

#[test]
fn cross_chain_borrow_produces_outbound_message() {
    let pool = active_pool();
    let mut a = asset();
    let mut p = active_position();
    p.total_collateral_value_usd = 1_000;
    let (ev, outbound) =
        borrow_cross_chain(&pool, &mut a, &mut p, &MINT, 0, 1, 2_000, 100, 42, RECEIVER).unwrap();
    assert_eq!(ev.dest_chain, 42);
    let out = outbound.expect("a remote settlement must dispatch a message");
    assert_eq!(out.message.user, USER);
    assert_eq!(out.message.action, b"borrow".to_vec());
    assert_eq!(out.message.asset, MINT);
    assert_eq!(out.message.amount, 100);
    assert_eq!(out.message.source_chain, 0);
    assert_eq!(out.message.dest_chain, 42);
    assert_eq!(out.receiver, RECEIVER);
}

#[test]
fn borrow_requires_existing_position() {
    let pool = active_pool();
    let mut a = asset();
    let mut p = fresh_position();
    assert_eq!(
        borrow_cross_chain(&pool, &mut a, &mut p, &MINT, 0, 1, 2_000, 10, 0, RECEIVER)
            .unwrap_err(),
        ErrorCode::PositionNotFound
    );
}

#[test]
fn borrow_rejects_non_positive_price() {
    let pool = active_pool();
    let mut a = asset();
    let mut p = active_position();
    p.total_collateral_value_usd = 1_000;
    assert_eq!(
        borrow_cross_chain(&pool, &mut a, &mut p, &MINT, 0, 0, 2_000, 10, 0, RECEIVER)
            .unwrap_err(),
        ErrorCode::InvalidPriceData
    );
}

#[test]
fn borrow_with_unrepresentable_usd_value_is_invalid() {
    let pool = active_pool();
    let mut a = asset();
    let mut p = active_position();
    p.total_collateral_value_usd = 1_000;
    // u64::MAX tokens at price 2: the USD value does not fit.
    assert_eq!(
        borrow_cross_chain(&pool, &mut a, &mut p, &MINT, 0, 2, 2_000, u64::MAX, 0, RECEIVER)
            .unwrap_err(),
        ErrorCode::InvalidAmount
    );
    assert_eq!(p.borrow_balance, 0);
}

#[test]
fn cooldown_spans_action_kinds_on_one_position() {
    let pool = active_pool();
    let mut a = asset();
    let mut p = fresh_position();
    deposit(&pool, &mut a, &mut p, &USER, &MINT, 1_000, 100).unwrap();
    p.total_collateral_value_usd = 100;
    // A borrow right after a deposit on the same position is limited too.
    assert_eq!(
        borrow_cross_chain(&pool, &mut a, &mut p, &MINT, 0, 1, 1_100, 10, 0, RECEIVER)
            .unwrap_err(),
        ErrorCode::RateLimited
    );
    borrow_cross_chain(&pool, &mut a, &mut p, &MINT, 0, 1, 1_000 + COOLDOWN + 1, 10, 0, RECEIVER)
        .unwrap();
    assert_eq!(p.borrow_balance, 10);
}

#[test]
fn repay_is_capped_at_outstanding_balance() {
    let pool = active_pool();
    let mut a = asset();
    a.total_borrows = 50;
    let mut p = active_position();
    p.borrow_balance = 50;
    let ev = repay(&pool, &mut a, &mut p, &MINT, 100).unwrap();
    assert_eq!(ev.amount, 50);
    assert_eq!(p.borrow_balance, 0);
    assert_eq!(a.total_borrows, 0);
}

#[test]
fn repay_with_nothing_owed_is_invalid() {
    let pool = active_pool();
    let mut a = asset();
    let mut p = active_position();
    assert_eq!(repay(&pool, &mut a, &mut p, &MINT, 10).unwrap_err(), ErrorCode::InvalidAmount);
}

#[test]
fn withdraw_leaving_unhealthy_debt_rolls_back() {
    let pool = active_pool();
    let mut a = asset();
    a.total_deposits = 1_000;
    let mut p = active_position();
    p.collateral_balance = 1_000;
    p.total_collateral_value_usd = 1_000;
    p.total_borrow_value_usd = 1_000;
    // Health factor 0.95 < 1.0 while debt is outstanding: rolled back.
    let before = p;
    assert_eq!(
        withdraw(&pool, &mut a, &mut p, &MINT, 100).unwrap_err(),
        ErrorCode::HealthFactorTooLow
    );
    assert_eq!(p.collateral_balance, before.collateral_balance);
    assert_eq!(p.borrow_balance, before.borrow_balance);
    assert_eq!(p.health_factor, before.health_factor);
    assert_eq!(a.total_deposits, 1_000);
}

#[test]
fn withdraw_without_debt_succeeds() {
    let pool = active_pool();
    let mut a = asset();
    a.total_deposits = 1_000;
    let mut p = active_position();
    p.collateral_balance = 1_000;
    p.total_collateral_value_usd = 1_000;
    let ev = withdraw(&pool, &mut a, &mut p, &MINT, 400).unwrap();
    assert_eq!(ev.amount, 400);
    assert_eq!(p.collateral_balance, 600);
    assert_eq!(p.health_factor, u64::MAX);
    assert_eq!(a.total_deposits, 600);
}

#[test]
fn withdraw_more_than_collateral_is_invalid() {
    let pool = active_pool();
    let mut a = asset();
    a.total_deposits = 10;
    let mut p = active_position();
    p.collateral_balance = 10;
    assert_eq!(withdraw(&pool, &mut a, &mut p, &MINT, 11).unwrap_err(), ErrorCode::InvalidAmount);
    assert_eq!(p.collateral_balance, 10);
}

#[test]
fn liquidate_healthy_position_is_not_allowed() {
    let pool = active_pool();
    let mut p = active_position();
    p.collateral_balance = 1_000;
    p.borrow_balance = 100;
    // Health factor (200 * 0.95) * SCALE / 100 = 1.9: comfortably solvent.
    p.total_collateral_value_usd = 200;
    p.total_borrow_value_usd = 100;
    assert_eq!(
        liquidate(&pool, &mut p, &LIQUIDATOR, 1, 2, 100).unwrap_err(),
        ErrorCode::LiquidationNotAllowed
    );
    assert_eq!(p.borrow_balance, 100);
    assert_eq!(p.collateral_balance, 1_000);
}

#[test]
fn liquidate_seizes_bonus_adjusted_collateral() {
    let pool = active_pool();
    let mut p = active_position();
    p.collateral_balance = 1_000;
    p.borrow_balance = 100;
    // Health factor (1000 * 0.95) * SCALE / 1001 < 0.95: liquidatable.
    p.total_collateral_value_usd = 1_000;
    p.total_borrow_value_usd = 1_001;
    let ev = liquidate(&pool, &mut p, &LIQUIDATOR, 1, 2, 100).unwrap();
    assert_eq!(ev.liquidator, LIQUIDATOR);
    assert_eq!(ev.borrower, USER);
    assert_eq!(ev.debt_amount, 100);
    // 100 * 1 * 1.05 / 2 = 52, integer-truncated.
    assert_eq!(ev.collateral_seized, 52);
    assert_eq!(p.borrow_balance, 0);
    assert_eq!(p.collateral_balance, 948);
    assert_eq!(ev.health_factor, p.health_factor);
}

#[test]
fn liquidate_debt_is_capped_at_borrow_balance() {
    let pool = active_pool();
    let mut p = active_position();
    p.collateral_balance = 1_000;
    p.borrow_balance = 40;
    p.total_collateral_value_usd = 1_000;
    p.total_borrow_value_usd = 1_001;
    let ev = liquidate(&pool, &mut p, &LIQUIDATOR, 1, 2, 100).unwrap();
    assert_eq!(ev.debt_amount, 40);
    // 40 * 1.05 / 2 = 21.
    assert_eq!(ev.collateral_seized, 21);
    assert_eq!(p.borrow_balance, 0);
    assert_eq!(p.collateral_balance, 979);
}

#[test]
fn liquidate_rejects_seizure_beyond_collateral() {
    let pool = active_pool();
    let mut p = active_position();
    p.collateral_balance = 10;
    p.borrow_balance = 100;
    p.total_collateral_value_usd = 1_000;
    p.total_borrow_value_usd = 1_001;
    assert_eq!(
        liquidate(&pool, &mut p, &LIQUIDATOR, 1, 2, 100).unwrap_err(),
        ErrorCode::InsufficientCollateral
    );
    assert_eq!(p.collateral_balance, 10);
    assert_eq!(p.borrow_balance, 100);
}

#[test]
fn every_mutating_operation_fails_while_paused() {
    let mut pool = active_pool();
    pause(&mut pool, &ADMIN).unwrap();
    let mut a = asset();
    a.total_deposits = 100;
    a.total_borrows = 100;
    let mut p = active_position();
    p.collateral_balance = 100;
    p.borrow_balance = 100;
    p.total_collateral_value_usd = 100;
    p.total_borrow_value_usd = 100;
    let (a_before, p_before) = (a, p);

    assert_eq!(
        deposit(&pool, &mut a, &mut p, &USER, &MINT, 10_000, 10).unwrap_err(),
        ErrorCode::NotAuthorized
    );
    assert_eq!(
        borrow_cross_chain(&pool, &mut a, &mut p, &MINT, 0, 1, 10_000, 10, 0, RECEIVER)
            .unwrap_err(),
        ErrorCode::NotAuthorized
    );
    assert_eq!(repay(&pool, &mut a, &mut p, &MINT, 10).unwrap_err(), ErrorCode::NotAuthorized);
    assert_eq!(withdraw(&pool, &mut a, &mut p, &MINT, 10).unwrap_err(), ErrorCode::NotAuthorized);
    assert_eq!(
        liquidate(&pool, &mut p, &LIQUIDATOR, 1, 2, 10).unwrap_err(),
        ErrorCode::NotAuthorized
    );

    assert_eq!(a.total_deposits, a_before.total_deposits);
    assert_eq!(a.total_borrows, a_before.total_borrows);
    assert_eq!(p.collateral_balance, p_before.collateral_balance);
    assert_eq!(p.borrow_balance, p_before.borrow_balance);
    assert_eq!(p.health_factor, p_before.health_factor);

    // Pause and unpause themselves still succeed.
    unpause(&mut pool, &ADMIN).unwrap();
    assert!(!pool.is_paused);
    pause(&mut pool, &ADMIN).unwrap();
    assert!(pool.is_paused);
}
