//! A collateralized lending ledger: deposits of collateral, borrows against it
//! (locally or settled on a remote chain), repayments, withdrawals and
//! liquidation of under-collateralized positions.
//!
//! The crate is the accounting and risk-control engine alone. Token custody,
//! the price oracle, durable account storage and the cross-chain transport are
//! external collaborators: callers read prices, clocks and payloads at the
//! edge and hand this library plain values, and the library answers with the
//! exact state change to commit, or with the error that aborts the operation
//! with no change at all.

pub mod errors;
pub mod math;
pub mod state;
pub mod engine;
pub mod message;
pub mod events;
