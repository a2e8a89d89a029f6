//! The position engine and the liquidation engine. Each operation runs its
//! eligibility, pause, cooldown and solvency checks, and either commits one
//! atomic state change and reports the produced record, or fails with the
//! exact error its outcome function states — and then changes nothing.
//!
//! Token transfers themselves are the custody collaborator's work: a caller
//! performs them in the same atomic unit as the state change the engine
//! committed, moving exactly the amounts of the returned record.

use vstd::prelude::*;

use vstd::arithmetic::div_mod::{lemma_div_is_ordered, lemma_div_multiples_vanish};
use vstd::arithmetic::mul::lemma_mul_inequality;

use crate::errors::ErrorCode;
use crate::events;
use crate::math::{
    calculate_health_factor, calculate_liquidation_amount, calculate_usd_value, get_asset_price,
    health_factor_overflows, lemma_u64_mul_fits_u128, seizure_fails, spec_health_factor,
    spec_seizure, spec_usd_value, LIQUIDATION_BONUS, LIQUIDATION_THRESHOLD, MIN_HEALTH_FACTOR,
    PRECISION,
};
use crate::message::{send_ccip_message, MessageModel, OutboundMessage, action_borrow};
use crate::state::{
    id_is_zero, is_zero_id, position_wf, update_health_factor, AccountId, AssetInfo, Pool,
    UserPosition,
};

verus! {

/// The minimum separation between two rate-limited actions on one position.
pub const COOLDOWN: i64 = 900;

/// The checks a deposit runs before it touches any balance, in order.
pub open spec fn deposit_gate(
    pool: Pool,
    asset: AssetInfo,
    position: UserPosition,
    now: int,
    amount: int,
) -> bool {
    &&& amount > 0
    &&& !pool.is_paused
    &&& asset.is_active
    &&& asset.can_be_collateral
    &&& now - position.last_action_timestamp as int > COOLDOWN as int
}

/// How a deposit ends: the error it fails with, or `None` for success.
pub open spec fn deposit_outcome(
    pool: Pool,
    asset: AssetInfo,
    position: UserPosition,
    now: int,
    amount: int,
) -> Option<ErrorCode> {
    if amount <= 0 {
        Some(ErrorCode::InvalidAmount)
    } else if pool.is_paused {
        Some(ErrorCode::NotAuthorized)
    } else if !asset.is_active {
        Some(ErrorCode::AssetNotSupported)
    } else if !asset.can_be_collateral {
        Some(ErrorCode::AssetNotSupported)
    } else if now - position.last_action_timestamp as int <= COOLDOWN as int {
        Some(ErrorCode::RateLimited)
    } else if health_factor_overflows(
        position.total_collateral_value_usd as int,
        position.total_borrow_value_usd as int,
        LIQUIDATION_THRESHOLD as int,
    ) {
        Some(ErrorCode::InvalidAmount)
    } else {
        None
    }
}

/// Deposits `amount` of collateral. A first successful deposit claims the
/// position for `user`; every success raises the collateral balance and the
/// asset's total deposits, refreshes the health factor and stamps the
/// cooldown clock. A deposit that passes its checks cannot fail a health
/// check. On failure nothing changes.
pub fn deposit(
    pool: &Pool,
    asset: &mut AssetInfo,
    user_position: &mut UserPosition,
    user: &AccountId,
    mint: &AccountId,
    now: i64,
    amount: u64,
) -> (r: Result<events::Deposit, ErrorCode>)
    requires
        now >= 0,
        position_wf(*old(user_position)),
        is_zero_id(old(user_position).user) || old(user_position).user@ == user@,
        deposit_gate(*pool, *old(asset), *old(user_position), now as int, amount as int) ==> {
            &&& old(user_position).collateral_balance + amount <= u64::MAX
            &&& old(asset).total_deposits + amount <= u64::MAX
        },
    ensures
        match r {
            Ok(ev) => {
                &&& deposit_outcome(
                    *pool,
                    *old(asset),
                    *old(user_position),
                    now as int,
                    amount as int,
                ) is None
                &&& final(user_position).user@ == user@
                &&& final(user_position).collateral_balance == old(user_position).collateral_balance
                    + amount
                &&& final(user_position).borrow_balance == old(user_position).borrow_balance
                &&& final(user_position).total_collateral_value_usd == old(
                    user_position,
                ).total_collateral_value_usd
                &&& final(user_position).total_borrow_value_usd == old(
                    user_position,
                ).total_borrow_value_usd
                &&& final(user_position).health_factor == spec_health_factor(
                    old(user_position).total_collateral_value_usd as int,
                    old(user_position).total_borrow_value_usd as int,
                    LIQUIDATION_THRESHOLD as int,
                )
                &&& final(user_position).last_action_timestamp == now
                &&& *final(asset) == (AssetInfo {
                    total_deposits: (old(asset).total_deposits + amount) as u64,
                    ..*old(asset)
                })
                &&& ev == (events::Deposit {
                    user: *user,
                    mint: *mint,
                    amount,
                    chain_selector: 0,
                })
            },
            Err(e) => {
                &&& deposit_outcome(
                    *pool,
                    *old(asset),
                    *old(user_position),
                    now as int,
                    amount as int,
                ) == Some(e)
                &&& *final(user_position) == *old(user_position)
                &&& *final(asset) == *old(asset)
            },
        },
{
    if amount == 0 {
        return Err(ErrorCode::InvalidAmount);
    }
    if pool.is_paused {
        return Err(ErrorCode::NotAuthorized);
    }
    if !asset.is_active {
        return Err(ErrorCode::AssetNotSupported);
    }
    if !asset.can_be_collateral {
        return Err(ErrorCode::AssetNotSupported);
    }
    if now - user_position.last_action_timestamp <= COOLDOWN {
        return Err(ErrorCode::RateLimited);
    }
    // Tentative post-state; committed only once the health refresh succeeds.
    let mut updated = *user_position;
    if id_is_zero(&updated.user) {
        updated.user = *user;
    }
    updated.collateral_balance = updated.collateral_balance + amount;
    updated.last_action_timestamp = now;
    match update_health_factor(&mut updated) {
        Ok(()) => {},
        Err(e) => {
            return Err(e);
        },
    }
    *user_position = updated;
    asset.total_deposits = asset.total_deposits + amount;
    Ok(events::Deposit { user: *user, mint: *mint, amount, chain_selector: 0 })
}

/// The checks a borrow runs before the oracle price enters, in order.
pub open spec fn borrow_gate(
    pool: Pool,
    asset: AssetInfo,
    position: UserPosition,
    now: int,
    amount: int,
) -> bool {
    &&& amount > 0
    &&& !pool.is_paused
    &&& asset.is_active
    &&& asset.can_be_borrowed
    &&& !is_zero_id(position.user)
    &&& now - position.last_action_timestamp as int > COOLDOWN as int
}

/// The borrow passed its gate and the requested amount has a representable
/// USD value at the oracle's answer.
pub open spec fn borrow_priced(
    pool: Pool,
    asset: AssetInfo,
    position: UserPosition,
    decimals: int,
    price_answer: int,
    now: int,
    amount: int,
) -> bool {
    &&& borrow_gate(pool, asset, position, now, amount)
    &&& price_answer > 0
    &&& amount * price_answer <= u64::MAX
}

/// The borrow is priced and the new total borrow value stays within the
/// asset's loan-to-value bound on the position's collateral value.
pub open spec fn borrow_within_ltv(
    pool: Pool,
    asset: AssetInfo,
    position: UserPosition,
    decimals: int,
    price_answer: int,
    now: int,
    amount: int,
) -> bool {
    &&& borrow_priced(pool, asset, position, decimals, price_answer, now, amount)
    &&& position.total_borrow_value_usd + spec_usd_value(amount, price_answer, decimals)
        <= position.total_collateral_value_usd * asset.ltv / (PRECISION as int)
}

/// How a borrow ends: the error it fails with, or `None` for success.
pub open spec fn borrow_outcome(
    pool: Pool,
    asset: AssetInfo,
    position: UserPosition,
    decimals: int,
    price_answer: int,
    now: int,
    amount: int,
) -> Option<ErrorCode> {
    let new_borrow_usd = position.total_borrow_value_usd + spec_usd_value(
        amount,
        price_answer,
        decimals,
    );
    if amount <= 0 {
        Some(ErrorCode::InvalidAmount)
    } else if pool.is_paused {
        Some(ErrorCode::NotAuthorized)
    } else if !asset.is_active {
        Some(ErrorCode::AssetNotSupported)
    } else if !asset.can_be_borrowed {
        Some(ErrorCode::AssetNotSupported)
    } else if is_zero_id(position.user) {
        Some(ErrorCode::PositionNotFound)
    } else if now - position.last_action_timestamp as int <= COOLDOWN as int {
        Some(ErrorCode::RateLimited)
    } else if price_answer <= 0 {
        Some(ErrorCode::InvalidPriceData)
    } else if amount * price_answer > u64::MAX {
        Some(ErrorCode::InvalidAmount)
    } else if !borrow_within_ltv(pool, asset, position, decimals, price_answer, now, amount) {
        Some(ErrorCode::InsufficientCollateral)
    } else if health_factor_overflows(
        position.total_collateral_value_usd as int,
        new_borrow_usd,
        asset.liquidation_threshold as int,
    ) {
        Some(ErrorCode::InvalidAmount)
    } else if spec_health_factor(
        position.total_collateral_value_usd as int,
        new_borrow_usd,
        asset.liquidation_threshold as int,
    ) < MIN_HEALTH_FACTOR {
        Some(ErrorCode::HealthFactorTooLow)
    } else {
        None
    }
}

/// Borrows `amount` against the position's collateral. The USD value of the
/// request, at the oracle's answer, must keep the total borrow value within
/// the asset's LTV bound, and the recomputed health factor (weighted by the
/// asset's own liquidation threshold) must stay at or above
/// `MIN_HEALTH_FACTOR`. With `dest_chain != 0` the borrow settles remotely
/// and a borrow-settlement dispatch for the transport is produced; with
/// `dest_chain == 0` it settles locally and none is. On failure nothing
/// changes and no dispatch is produced.
pub fn borrow_cross_chain(
    pool: &Pool,
    asset: &mut AssetInfo,
    user_position: &mut UserPosition,
    mint: &AccountId,
    mint_decimals: u8,
    price_answer: i64,
    now: i64,
    amount: u64,
    dest_chain: u64,
    receiver: [u8; 32],
) -> (r: Result<(events::Borrow, Option<OutboundMessage>), ErrorCode>)
    requires
        mint_decimals <= 19,
        now >= 0,
        position_wf(*old(user_position)),
        old(asset).ltv <= PRECISION,
        borrow_within_ltv(
            *pool,
            *old(asset),
            *old(user_position),
            mint_decimals as int,
            price_answer as int,
            now as int,
            amount as int,
        ) ==> old(user_position).borrow_balance + amount <= u64::MAX,
        borrow_outcome(
            *pool,
            *old(asset),
            *old(user_position),
            mint_decimals as int,
            price_answer as int,
            now as int,
            amount as int,
        ) is None ==> old(asset).total_borrows + amount <= u64::MAX,
    ensures
        match r {
            Ok(pair) => {
                &&& borrow_outcome(
                    *pool,
                    *old(asset),
                    *old(user_position),
                    mint_decimals as int,
                    price_answer as int,
                    now as int,
                    amount as int,
                ) is None
                &&& final(user_position).user == old(user_position).user
                &&& final(user_position).collateral_balance == old(
                    user_position,
                ).collateral_balance
                &&& final(user_position).borrow_balance == old(user_position).borrow_balance
                    + amount
                &&& final(user_position).total_collateral_value_usd == old(
                    user_position,
                ).total_collateral_value_usd
                &&& final(user_position).total_borrow_value_usd == old(
                    user_position,
                ).total_borrow_value_usd + spec_usd_value(
                    amount as int,
                    price_answer as int,
                    mint_decimals as int,
                )
                &&& final(user_position).health_factor == spec_health_factor(
                    old(user_position).total_collateral_value_usd as int,
                    old(user_position).total_borrow_value_usd + spec_usd_value(
                        amount as int,
                        price_answer as int,
                        mint_decimals as int,
                    ),
                    old(asset).liquidation_threshold as int,
                )
                &&& final(user_position).last_action_timestamp == now
                &&& *final(asset) == (AssetInfo {
                    total_borrows: (old(asset).total_borrows + amount) as u64,
                    ..*old(asset)
                })
                &&& pair.0 == (events::Borrow {
                    user: old(user_position).user,
                    mint: *mint,
                    amount,
                    dest_chain,
                    health_factor: final(user_position).health_factor,
                })
                &&& dest_chain != 0 ==> (pair.1 matches Some(out) && out.message@
                    == (MessageModel {
                    user: old(user_position).user@,
                    action: action_borrow(),
                    asset: mint@,
                    amount,
                    source_chain: 0,
                    dest_chain,
                }) && out.receiver == receiver)
                &&& dest_chain == 0 ==> pair.1 is None
            },
            Err(e) => {
                &&& borrow_outcome(
                    *pool,
                    *old(asset),
                    *old(user_position),
                    mint_decimals as int,
                    price_answer as int,
                    now as int,
                    amount as int,
                ) == Some(e)
                &&& *final(user_position) == *old(user_position)
                &&& *final(asset) == *old(asset)
            },
        },
{
    if amount == 0 {
        return Err(ErrorCode::InvalidAmount);
    }
    if pool.is_paused {
        return Err(ErrorCode::NotAuthorized);
    }
    if !asset.is_active {
        return Err(ErrorCode::AssetNotSupported);
    }
    if !asset.can_be_borrowed {
        return Err(ErrorCode::AssetNotSupported);
    }
    if id_is_zero(&user_position.user) {
        return Err(ErrorCode::PositionNotFound);
    }
    if now - user_position.last_action_timestamp <= COOLDOWN {
        return Err(ErrorCode::RateLimited);
    }
    let price = match get_asset_price(price_answer) {
        Ok(p) => p,
        Err(e) => {
            return Err(e);
        },
    };
    let borrow_value_usd = match calculate_usd_value(amount, price, mint_decimals) {
        Ok(v) => v,
        Err(e) => {
            return Err(e);
        },
    };
    let new_total_wide = user_position.total_borrow_value_usd as u128 + borrow_value_usd as u128;
    proof {
        lemma_u64_mul_fits_u128(
            user_position.total_collateral_value_usd as int,
            asset.ltv as int,
        );
    }
    let max_borrow_value = ((user_position.total_collateral_value_usd as u128) * (asset.ltv
        as u128)) / (PRECISION as u128);
    if new_total_wide > max_borrow_value {
        return Err(ErrorCode::InsufficientCollateral);
    }
    proof {
        // With the LTV at or below 1.0, the bound — and so the new total —
        // stays within the collateral value, which fits a u64.
        lemma_mul_inequality(
            asset.ltv as int,
            PRECISION as int,
            user_position.total_collateral_value_usd as int,
        );
        lemma_div_is_ordered(
            (user_position.total_collateral_value_usd as int) * (asset.ltv as int),
            (user_position.total_collateral_value_usd as int) * (PRECISION as int),
            PRECISION as int,
        );
        lemma_div_multiples_vanish(
            user_position.total_collateral_value_usd as int,
            PRECISION as int,
        );
        assert(new_total_wide <= u64::MAX);
    }
    let new_total_borrow_value = new_total_wide as u64;
    let new_health_factor = match calculate_health_factor(
        user_position.total_collateral_value_usd,
        new_total_borrow_value,
        asset.liquidation_threshold,
    ) {
        Ok(h) => h,
        Err(e) => {
            return Err(e);
        },
    };
    if new_health_factor < MIN_HEALTH_FACTOR {
        return Err(ErrorCode::HealthFactorTooLow);
    }
    user_position.borrow_balance = user_position.borrow_balance + amount;
    user_position.total_borrow_value_usd = new_total_borrow_value;
    user_position.last_action_timestamp = now;
    user_position.health_factor = new_health_factor;
    asset.total_borrows = asset.total_borrows + amount;
    let outbound = if dest_chain != 0 {
        Some(send_ccip_message(&user_position.user, mint, amount, dest_chain, receiver))
    } else {
        None
    };
    let ev = events::Borrow {
        user: user_position.user,
        mint: *mint,
        amount,
        dest_chain,
        health_factor: new_health_factor,
    };
    Ok((ev, outbound))
}

/// The repayment actually applied: the requested amount, capped at the
/// outstanding borrow balance.
pub open spec fn spec_applied_repay(position: UserPosition, amount: int) -> int {
    if amount <= position.borrow_balance {
        amount
    } else {
        position.borrow_balance as int
    }
}

/// How a repayment ends: the error it fails with, or `None` for success.
pub open spec fn repay_outcome(pool: Pool, position: UserPosition, amount: int) -> Option<
    ErrorCode,
> {
    if amount <= 0 {
        Some(ErrorCode::InvalidAmount)
    } else if pool.is_paused {
        Some(ErrorCode::NotAuthorized)
    } else if is_zero_id(position.user) {
        Some(ErrorCode::PositionNotFound)
    } else if position.borrow_balance == 0 {
        Some(ErrorCode::InvalidAmount)
    } else if health_factor_overflows(
        position.total_collateral_value_usd as int,
        position.total_borrow_value_usd as int,
        LIQUIDATION_THRESHOLD as int,
    ) {
        Some(ErrorCode::InvalidAmount)
    } else {
        None
    }
}

/// Repays borrowed funds. The applied amount is the requested amount capped
/// at the outstanding borrow balance, so repaying more than owed never drives
/// the balance below zero; the cap is reported in the record. On failure
/// nothing changes.
pub fn repay(
    pool: &Pool,
    asset: &mut AssetInfo,
    user_position: &mut UserPosition,
    mint: &AccountId,
    amount: u64,
) -> (r: Result<events::Repay, ErrorCode>)
    requires
        old(user_position).borrow_balance <= old(asset).total_borrows,
    ensures
        match r {
            Ok(ev) => {
                &&& repay_outcome(*pool, *old(user_position), amount as int) is None
                &&& final(user_position).user == old(user_position).user
                &&& final(user_position).collateral_balance == old(
                    user_position,
                ).collateral_balance
                &&& final(user_position).borrow_balance == old(user_position).borrow_balance
                    - spec_applied_repay(*old(user_position), amount as int)
                &&& final(user_position).total_collateral_value_usd == old(
                    user_position,
                ).total_collateral_value_usd
                &&& final(user_position).total_borrow_value_usd == old(
                    user_position,
                ).total_borrow_value_usd
                &&& final(user_position).health_factor == spec_health_factor(
                    old(user_position).total_collateral_value_usd as int,
                    old(user_position).total_borrow_value_usd as int,
                    LIQUIDATION_THRESHOLD as int,
                )
                &&& final(user_position).last_action_timestamp == old(
                    user_position,
                ).last_action_timestamp
                &&& *final(asset) == (AssetInfo {
                    total_borrows: (old(asset).total_borrows - spec_applied_repay(
                        *old(user_position),
                        amount as int,
                    )) as u64,
                    ..*old(asset)
                })
                &&& ev == (events::Repay {
                    user: old(user_position).user,
                    mint: *mint,
                    amount: spec_applied_repay(*old(user_position), amount as int) as u64,
                })
            },
            Err(e) => {
                &&& repay_outcome(*pool, *old(user_position), amount as int) == Some(e)
                &&& *final(user_position) == *old(user_position)
                &&& *final(asset) == *old(asset)
            },
        },
{
    if amount == 0 {
        return Err(ErrorCode::InvalidAmount);
    }
    if pool.is_paused {
        return Err(ErrorCode::NotAuthorized);
    }
    if id_is_zero(&user_position.user) {
        return Err(ErrorCode::PositionNotFound);
    }
    let repay_amount = if amount < user_position.borrow_balance {
        amount
    } else {
        user_position.borrow_balance
    };
    if repay_amount == 0 {
        return Err(ErrorCode::InvalidAmount);
    }
    // Tentative post-state; committed only once the health refresh succeeds.
    let mut updated = *user_position;
    updated.borrow_balance = updated.borrow_balance - repay_amount;
    match update_health_factor(&mut updated) {
        Ok(()) => {},
        Err(e) => {
            return Err(e);
        },
    }
    *user_position = updated;
    asset.total_borrows = asset.total_borrows - repay_amount;
    Ok(events::Repay { user: user_position.user, mint: *mint, amount: repay_amount })
}

/// How a withdrawal ends: the error it fails with, or `None` for success.
pub open spec fn withdraw_outcome(pool: Pool, position: UserPosition, amount: int) -> Option<
    ErrorCode,
> {
    if amount <= 0 {
        Some(ErrorCode::InvalidAmount)
    } else if pool.is_paused {
        Some(ErrorCode::NotAuthorized)
    } else if is_zero_id(position.user) {
        Some(ErrorCode::PositionNotFound)
    } else if amount > position.collateral_balance {
        Some(ErrorCode::InvalidAmount)
    } else if health_factor_overflows(
        position.total_collateral_value_usd as int,
        position.total_borrow_value_usd as int,
        LIQUIDATION_THRESHOLD as int,
    ) {
        Some(ErrorCode::InvalidAmount)
    } else if position.total_borrow_value_usd > 0 && spec_health_factor(
        position.total_collateral_value_usd as int,
        position.total_borrow_value_usd as int,
        LIQUIDATION_THRESHOLD as int,
    ) < MIN_HEALTH_FACTOR {
        Some(ErrorCode::HealthFactorTooLow)
    } else {
        None
    }
}

/// Withdraws collateral. The decrement is speculative: the health factor is
/// recomputed first, and while the position carries debt a factor below
/// `MIN_HEALTH_FACTOR` rolls the decrement back — a failed withdrawal leaves
/// the collateral balance, and everything else, exactly as it was.
pub fn withdraw(
    pool: &Pool,
    asset: &mut AssetInfo,
    user_position: &mut UserPosition,
    mint: &AccountId,
    amount: u64,
) -> (r: Result<events::Withdraw, ErrorCode>)
    requires
        old(user_position).collateral_balance <= old(asset).total_deposits,
    ensures
        match r {
            Ok(ev) => {
                &&& withdraw_outcome(*pool, *old(user_position), amount as int) is None
                &&& final(user_position).user == old(user_position).user
                &&& final(user_position).collateral_balance == old(
                    user_position,
                ).collateral_balance - amount
                &&& final(user_position).borrow_balance == old(user_position).borrow_balance
                &&& final(user_position).total_collateral_value_usd == old(
                    user_position,
                ).total_collateral_value_usd
                &&& final(user_position).total_borrow_value_usd == old(
                    user_position,
                ).total_borrow_value_usd
                &&& final(user_position).health_factor == spec_health_factor(
                    old(user_position).total_collateral_value_usd as int,
                    old(user_position).total_borrow_value_usd as int,
                    LIQUIDATION_THRESHOLD as int,
                )
                &&& final(user_position).last_action_timestamp == old(
                    user_position,
                ).last_action_timestamp
                &&& *final(asset) == (AssetInfo {
                    total_deposits: (old(asset).total_deposits - amount) as u64,
                    ..*old(asset)
                })
                &&& ev == (events::Withdraw {
                    user: old(user_position).user,
                    mint: *mint,
                    amount,
                })
            },
            Err(e) => {
                &&& withdraw_outcome(*pool, *old(user_position), amount as int) == Some(e)
                &&& *final(user_position) == *old(user_position)
                &&& *final(asset) == *old(asset)
            },
        },
{
    if amount == 0 {
        return Err(ErrorCode::InvalidAmount);
    }
    if pool.is_paused {
        return Err(ErrorCode::NotAuthorized);
    }
    if id_is_zero(&user_position.user) {
        return Err(ErrorCode::PositionNotFound);
    }
    if amount > user_position.collateral_balance {
        return Err(ErrorCode::InvalidAmount);
    }
    // Speculative decrement on a copy; the authoritative position changes
    // only after the solvency check passes.
    let mut updated = *user_position;
    updated.collateral_balance = updated.collateral_balance - amount;
    match update_health_factor(&mut updated) {
        Ok(()) => {},
        Err(e) => {
            return Err(e);
        },
    }
    if updated.total_borrow_value_usd > 0 && updated.health_factor < MIN_HEALTH_FACTOR {
        return Err(ErrorCode::HealthFactorTooLow);
    }
    *user_position = updated;
    asset.total_deposits = asset.total_deposits - amount;
    Ok(events::Withdraw { user: user_position.user, mint: *mint, amount })
}

/// The debt actually repaid by a liquidation: the requested amount, capped at
/// the borrower's outstanding borrow balance.
pub open spec fn spec_actual_debt(position: UserPosition, debt_amount: int) -> int {
    if debt_amount <= position.borrow_balance {
        debt_amount
    } else {
        position.borrow_balance as int
    }
}

/// How a liquidation ends: the error it fails with, or `None` for success.
pub open spec fn liquidate_outcome(
    pool: Pool,
    position: UserPosition,
    debt_price_answer: int,
    collateral_price_answer: int,
    debt_amount: int,
) -> Option<ErrorCode> {
    let c = position.total_collateral_value_usd as int;
    let b = position.total_borrow_value_usd as int;
    let actual = spec_actual_debt(position, debt_amount);
    if debt_amount <= 0 {
        Some(ErrorCode::InvalidAmount)
    } else if pool.is_paused {
        Some(ErrorCode::NotAuthorized)
    } else if is_zero_id(position.user) {
        Some(ErrorCode::PositionNotFound)
    } else if health_factor_overflows(c, b, LIQUIDATION_THRESHOLD as int) {
        Some(ErrorCode::InvalidAmount)
    } else if spec_health_factor(c, b, LIQUIDATION_THRESHOLD as int) >= LIQUIDATION_THRESHOLD {
        Some(ErrorCode::LiquidationNotAllowed)
    } else if collateral_price_answer <= 0 {
        Some(ErrorCode::InvalidPriceData)
    } else if debt_price_answer <= 0 {
        Some(ErrorCode::InvalidPriceData)
    } else if seizure_fails(
        actual,
        debt_price_answer,
        collateral_price_answer,
        LIQUIDATION_BONUS as int,
    ) {
        Some(ErrorCode::InvalidAmount)
    } else if spec_seizure(
        actual,
        debt_price_answer,
        collateral_price_answer,
        LIQUIDATION_BONUS as int,
    ) > position.collateral_balance {
        Some(ErrorCode::InsufficientCollateral)
    } else {
        None
    }
}

/// Liquidates an under-collateralized position. Allowed only while the
/// borrower's health factor lies below the global `LIQUIDATION_THRESHOLD`
/// trigger. The debt repaid is capped at the outstanding borrow balance, the
/// seized collateral is the bonus-adjusted equivalent of that debt at the two
/// oracle answers, and a seizure beyond the borrower's collateral balance
/// fails the whole call. On failure nothing changes.
pub fn liquidate(
    pool: &Pool,
    borrower_position: &mut UserPosition,
    liquidator: &AccountId,
    debt_price_answer: i64,
    collateral_price_answer: i64,
    debt_amount: u64,
) -> (r: Result<events::Liquidation, ErrorCode>)
    ensures
        match r {
            Ok(ev) => {
                &&& liquidate_outcome(
                    *pool,
                    *old(borrower_position),
                    debt_price_answer as int,
                    collateral_price_answer as int,
                    debt_amount as int,
                ) is None
                &&& final(borrower_position).user == old(borrower_position).user
                &&& final(borrower_position).collateral_balance == old(
                    borrower_position,
                ).collateral_balance - spec_seizure(
                    spec_actual_debt(*old(borrower_position), debt_amount as int),
                    debt_price_answer as int,
                    collateral_price_answer as int,
                    LIQUIDATION_BONUS as int,
                )
                &&& final(borrower_position).borrow_balance == old(
                    borrower_position,
                ).borrow_balance - spec_actual_debt(*old(borrower_position), debt_amount as int)
                &&& final(borrower_position).total_collateral_value_usd == old(
                    borrower_position,
                ).total_collateral_value_usd
                &&& final(borrower_position).total_borrow_value_usd == old(
                    borrower_position,
                ).total_borrow_value_usd
                &&& final(borrower_position).health_factor == spec_health_factor(
                    old(borrower_position).total_collateral_value_usd as int,
                    old(borrower_position).total_borrow_value_usd as int,
                    LIQUIDATION_THRESHOLD as int,
                )
                &&& final(borrower_position).last_action_timestamp == old(
                    borrower_position,
                ).last_action_timestamp
                &&& ev == (events::Liquidation {
                    liquidator: *liquidator,
                    borrower: old(borrower_position).user,
                    debt_amount: spec_actual_debt(*old(borrower_position), debt_amount as int)
                        as u64,
                    collateral_seized: spec_seizure(
                        spec_actual_debt(*old(borrower_position), debt_amount as int),
                        debt_price_answer as int,
                        collateral_price_answer as int,
                        LIQUIDATION_BONUS as int,
                    ) as u64,
                    health_factor: final(borrower_position).health_factor,
                })
            },
            Err(e) => {
                &&& liquidate_outcome(
                    *pool,
                    *old(borrower_position),
                    debt_price_answer as int,
                    collateral_price_answer as int,
                    debt_amount as int,
                ) == Some(e)
                &&& *final(borrower_position) == *old(borrower_position)
            },
        },
{
    if debt_amount == 0 {
        return Err(ErrorCode::InvalidAmount);
    }
    if pool.is_paused {
        return Err(ErrorCode::NotAuthorized);
    }
    if id_is_zero(&borrower_position.user) {
        return Err(ErrorCode::PositionNotFound);
    }
    // Tentative post-state; committed only if the whole liquidation goes
    // through.
    let mut updated = *borrower_position;
    match update_health_factor(&mut updated) {
        Ok(()) => {},
        Err(e) => {
            return Err(e);
        },
    }
    if updated.health_factor >= LIQUIDATION_THRESHOLD {
        return Err(ErrorCode::LiquidationNotAllowed);
    }
    let actual_debt_amount = if debt_amount < updated.borrow_balance {
        debt_amount
    } else {
        updated.borrow_balance
    };
    let collateral_price = match get_asset_price(collateral_price_answer) {
        Ok(p) => p,
        Err(e) => {
            return Err(e);
        },
    };
    let debt_price = match get_asset_price(debt_price_answer) {
        Ok(p) => p,
        Err(e) => {
            return Err(e);
        },
    };
    let collateral_to_seize = match calculate_liquidation_amount(
        actual_debt_amount,
        debt_price,
        collateral_price,
        LIQUIDATION_BONUS,
    ) {
        Ok(v) => v,
        Err(e) => {
            return Err(e);
        },
    };
    if collateral_to_seize > updated.collateral_balance {
        return Err(ErrorCode::InsufficientCollateral);
    }
    updated.borrow_balance = updated.borrow_balance - actual_debt_amount;
    updated.collateral_balance = updated.collateral_balance - collateral_to_seize;
    match update_health_factor(&mut updated) {
        Ok(()) => {},
        Err(e) => {
            return Err(e);
        },
    }
    *borrower_position = updated;
    Ok(
        events::Liquidation {
            liquidator: *liquidator,
            borrower: borrower_position.user,
            debt_amount: actual_debt_amount,
            collateral_seized: collateral_to_seize,
            health_factor: borrower_position.health_factor,
        },
    )
}

} // verus!
