//! The records that successful operations produce. The caller publishes them;
//! the engine's contracts pin every field.

use vstd::prelude::*;

use crate::state::AccountId;

verus! {

/// Produced by a successful asset registration.
#[derive(Clone, Copy, Debug)]
pub struct AssetAdded {
    pub mint: AccountId,
    pub ltv: u64,
    pub liquidation_threshold: u64,
}

/// Produced by a successful deposit; `chain_selector` is always 0 (a deposit
/// settles on the local chain).
#[derive(Clone, Copy, Debug)]
pub struct Deposit {
    pub user: AccountId,
    pub mint: AccountId,
    pub amount: u64,
    pub chain_selector: u64,
}

/// Produced by a successful borrow, with the recomputed health factor.
#[derive(Clone, Copy, Debug)]
pub struct Borrow {
    pub user: AccountId,
    pub mint: AccountId,
    pub amount: u64,
    pub dest_chain: u64,
    pub health_factor: u64,
}

/// Produced by a successful repayment; `amount` is the amount actually
/// applied, never more than the outstanding borrow balance.
#[derive(Clone, Copy, Debug)]
pub struct Repay {
    pub user: AccountId,
    pub mint: AccountId,
    pub amount: u64,
}

/// Produced by a successful withdrawal.
#[derive(Clone, Copy, Debug)]
pub struct Withdraw {
    pub user: AccountId,
    pub mint: AccountId,
    pub amount: u64,
}

/// Produced by a successful liquidation: the debt actually repaid, the
/// collateral seized, and the borrower's health factor afterwards.
#[derive(Clone, Copy, Debug)]
pub struct Liquidation {
    pub liquidator: AccountId,
    pub borrower: AccountId,
    pub debt_amount: u64,
    pub collateral_seized: u64,
    pub health_factor: u64,
}

/// Produced by a successfully processed inbound cross-chain message.
#[derive(Debug)]
pub struct CrossChainMessageReceived {
    pub user: AccountId,
    pub action: Vec<u8>,
    pub amount: u64,
    pub source_chain: u64,
}

/// Produced when the admin pauses the protocol.
#[derive(Clone, Copy, Debug)]
pub struct ProtocolPaused {
    pub admin: AccountId,
}

/// Produced when the admin unpauses the protocol.
#[derive(Clone, Copy, Debug)]
pub struct ProtocolUnpaused {
    pub admin: AccountId,
}

} // verus!
