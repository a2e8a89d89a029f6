//! The ledger's entities — the pool singleton, the per-asset registry entry
//! and the per-(user, asset) position — together with pool administration:
//! initialization, asset registration, pause and unpause, and the
//! health-factor refresh that every position mutation runs.

use vstd::prelude::*;

use crate::errors::ErrorCode;
use crate::events::{AssetAdded, ProtocolPaused, ProtocolUnpaused};
use crate::math::{
    calculate_health_factor, health_factor_overflows, spec_health_factor, LIQUIDATION_THRESHOLD,
    PRECISION,
};

verus! {

/// An account identity: 32 opaque bytes. The all-zero identity marks a
/// position slot that no first deposit has claimed yet.
pub type AccountId = [u8; 32];

/// Whether `id` is the all-zero identity.
pub open spec fn is_zero_id(id: AccountId) -> bool {
    forall|i: int| 0 <= i < 32 ==> id@[i] == 0
}

/// Compares two account identities byte for byte.
pub fn id_eq(a: &AccountId, b: &AccountId) -> (r: bool)
    ensures
        r == (a@ == b@),
{
    let mut i: usize = 0;
    while i < 32
        invariant
            i <= 32,
            forall|j: int| 0 <= j < i ==> a@[j] == b@[j],
        decreases 32 - i,
    {
        if a[i] != b[i] {
            return false;
        }
        i = i + 1;
    }
    proof {
        assert(a@ =~= b@);
    }
    true
}

/// Tests for the all-zero identity.
pub fn id_is_zero(a: &AccountId) -> (r: bool)
    ensures
        r == is_zero_id(*a),
{
    let mut i: usize = 0;
    while i < 32
        invariant
            i <= 32,
            forall|j: int| 0 <= j < i ==> a@[j] == 0,
        decreases 32 - i,
    {
        if a[i] != 0 {
            return false;
        }
        i = i + 1;
    }
    true
}

/// The pool singleton: the admin and bridge identities, the global circuit
/// breaker, and the count of registered assets.
#[derive(Clone, Copy, Debug)]
pub struct Pool {
    pub admin: AccountId,
    pub ccip_program: AccountId,
    pub is_paused: bool,
    pub total_assets: u32,
}

/// One registry entry per supported asset: its oracle feed, risk parameters,
/// eligibility flags and running aggregate totals.
#[derive(Clone, Copy, Debug)]
pub struct AssetInfo {
    pub mint: AccountId,
    pub price_feed: AccountId,
    pub ltv: u64,
    pub liquidation_threshold: u64,
    pub is_active: bool,
    pub can_be_collateral: bool,
    pub can_be_borrowed: bool,
    pub total_deposits: u64,
    pub total_borrows: u64,
}

/// The risk parameters and eligibility flags an asset is registered with.
#[derive(Clone, Copy, Debug)]
pub struct AssetConfig {
    pub price_feed: AccountId,
    pub ltv: u64,
    pub liquidation_threshold: u64,
    pub can_be_collateral: bool,
    pub can_be_borrowed: bool,
}

/// One position per user and asset: raw balances, the USD totals the health
/// factor is computed from, the factor itself, and the timestamp of the last
/// rate-limited action.
#[derive(Clone, Copy, Debug)]
pub struct UserPosition {
    pub user: AccountId,
    pub collateral_balance: u64,
    pub borrow_balance: u64,
    pub total_collateral_value_usd: u64,
    pub total_borrow_value_usd: u64,
    pub health_factor: u64,
    pub last_action_timestamp: i64,
}

/// A registration config keeps the documented ordering of the risk
/// parameters: LTV at or below the liquidation threshold, both at or below
/// 1.0 on the fixed-point scale.
pub open spec fn valid_asset_config(config: AssetConfig) -> bool {
    config.ltv <= config.liquidation_threshold <= PRECISION
}

/// A position's timestamp never lies before the epoch; the clock values the
/// caller supplies do not either.
pub open spec fn position_wf(position: UserPosition) -> bool {
    position.last_action_timestamp >= 0
}

/// Creates the pool: the given admin and bridge identities, not paused, no
/// assets registered.
pub fn initialize(admin: AccountId, ccip_program: AccountId) -> (pool: Pool)
    ensures
        pool.admin == admin,
        pool.ccip_program == ccip_program,
        !pool.is_paused,
        pool.total_assets == 0,
{
    Pool { admin, ccip_program, is_paused: false, total_assets: 0 }
}

/// Registers an asset: admin-only and only while the pool is active. On
/// success the new registry entry carries the config's parameters with zero
/// aggregate totals, and the pool's asset counter grows by one.
pub fn add_supported_asset(
    pool: &mut Pool,
    caller: &AccountId,
    mint: &AccountId,
    asset_config: &AssetConfig,
) -> (r: Result<(AssetInfo, AssetAdded), ErrorCode>)
    requires
        valid_asset_config(*asset_config),
        old(pool).total_assets < u32::MAX,
    ensures
        match r {
            Ok(pair) => {
                &&& !old(pool).is_paused
                &&& caller@ == old(pool).admin@
                &&& pair.0 == (AssetInfo {
                    mint: *mint,
                    price_feed: asset_config.price_feed,
                    ltv: asset_config.ltv,
                    liquidation_threshold: asset_config.liquidation_threshold,
                    is_active: true,
                    can_be_collateral: asset_config.can_be_collateral,
                    can_be_borrowed: asset_config.can_be_borrowed,
                    total_deposits: 0,
                    total_borrows: 0,
                })
                &&& pair.1 == (AssetAdded {
                    mint: *mint,
                    ltv: asset_config.ltv,
                    liquidation_threshold: asset_config.liquidation_threshold,
                })
                &&& *final(pool) == (Pool { total_assets: (old(pool).total_assets + 1) as u32, ..*old(pool) })
            },
            Err(e) => {
                &&& e == ErrorCode::NotAuthorized
                &&& (old(pool).is_paused || caller@ != old(pool).admin@)
                &&& *final(pool) == *old(pool)
            },
        },
{
    if !id_eq(caller, &pool.admin) {
        return Err(ErrorCode::NotAuthorized);
    }
    if pool.is_paused {
        return Err(ErrorCode::NotAuthorized);
    }
    let asset_info = AssetInfo {
        mint: *mint,
        price_feed: asset_config.price_feed,
        ltv: asset_config.ltv,
        liquidation_threshold: asset_config.liquidation_threshold,
        is_active: true,
        can_be_collateral: asset_config.can_be_collateral,
        can_be_borrowed: asset_config.can_be_borrowed,
        total_deposits: 0,
        total_borrows: 0,
    };
    pool.total_assets = pool.total_assets + 1;
    let event = AssetAdded {
        mint: *mint,
        ltv: asset_config.ltv,
        liquidation_threshold: asset_config.liquidation_threshold,
    };
    Ok((asset_info, event))
}

/// Recomputes a position's health factor from its two stored USD totals,
/// weighting collateral by the global `LIQUIDATION_THRESHOLD`. Nothing else
/// changes; on overflow the position is left untouched.
pub fn update_health_factor(user_position: &mut UserPosition) -> (r: Result<(), ErrorCode>)
    ensures
        match r {
            Ok(()) => {
                &&& !health_factor_overflows(
                    old(user_position).total_collateral_value_usd as int,
                    old(user_position).total_borrow_value_usd as int,
                    LIQUIDATION_THRESHOLD as int,
                )
                &&& *final(user_position) == (UserPosition {
                    health_factor: spec_health_factor(
                        old(user_position).total_collateral_value_usd as int,
                        old(user_position).total_borrow_value_usd as int,
                        LIQUIDATION_THRESHOLD as int,
                    ) as u64,
                    ..*old(user_position)
                })
            },
            Err(e) => {
                &&& e == ErrorCode::InvalidAmount
                &&& health_factor_overflows(
                    old(user_position).total_collateral_value_usd as int,
                    old(user_position).total_borrow_value_usd as int,
                    LIQUIDATION_THRESHOLD as int,
                )
                &&& *final(user_position) == *old(user_position)
            },
        },
{
    let health_factor = match calculate_health_factor(
        user_position.total_collateral_value_usd,
        user_position.total_borrow_value_usd,
        LIQUIDATION_THRESHOLD,
    ) {
        Ok(h) => h,
        Err(e) => {
            return Err(e);
        },
    };
    user_position.health_factor = health_factor;
    Ok(())
}

/// Pauses the protocol: admin-only, allowed in any state, and idempotent.
pub fn pause(pool: &mut Pool, caller: &AccountId) -> (r: Result<ProtocolPaused, ErrorCode>)
    ensures
        match r {
            Ok(ev) => {
                &&& caller@ == old(pool).admin@
                &&& *final(pool) == (Pool { is_paused: true, ..*old(pool) })
                &&& ev.admin == *caller
            },
            Err(e) => {
                &&& e == ErrorCode::NotAuthorized
                &&& caller@ != old(pool).admin@
                &&& *final(pool) == *old(pool)
            },
        },
{
    if !id_eq(caller, &pool.admin) {
        return Err(ErrorCode::NotAuthorized);
    }
    pool.is_paused = true;
    Ok(ProtocolPaused { admin: *caller })
}

/// Unpauses the protocol: admin-only, allowed in any state, and idempotent.
pub fn unpause(pool: &mut Pool, caller: &AccountId) -> (r: Result<ProtocolUnpaused, ErrorCode>)
    ensures
        match r {
            Ok(ev) => {
                &&& caller@ == old(pool).admin@
                &&& *final(pool) == (Pool { is_paused: false, ..*old(pool) })
                &&& ev.admin == *caller
            },
            Err(e) => {
                &&& e == ErrorCode::NotAuthorized
                &&& caller@ != old(pool).admin@
                &&& *final(pool) == *old(pool)
            },
        },
{
    if !id_eq(caller, &pool.admin) {
        return Err(ErrorCode::NotAuthorized);
    }
    pool.is_paused = false;
    Ok(ProtocolUnpaused { admin: *caller })
}

} // verus!
