//! The error kinds with which an operation can be rejected. Every rejection
//! aborts the whole operation: no balance or aggregate changes.

use vstd::prelude::*;

verus! {

/// Why an operation was refused. Each variant is produced on exactly the
/// inputs that the contracts of the engine functions state; `ChainNotSupported`
/// is reserved for a future destination-chain allow-list and is never produced.
#[derive(Clone, Copy, Debug, PartialEq, Eq, Structural)]
pub enum ErrorCode {
    /// A loan-to-value or seizure bound was violated.
    InsufficientCollateral,
    /// The asset is inactive or not eligible for the requested role.
    AssetNotSupported,
    /// The operation would leave the position below the minimum health factor.
    HealthFactorTooLow,
    /// A zero amount, or an overflow or underflow in the fixed-point math.
    InvalidAmount,
    /// The per-position cooldown has not elapsed.
    RateLimited,
    /// The pool is paused, or the caller is not the admin.
    NotAuthorized,
    /// An inbound cross-chain payload could not be decoded, or its action
    /// is not recognized.
    CrossChainFailed,
    /// The oracle reported a non-positive price.
    InvalidPriceData,
    /// The position is still healthy, so it cannot be liquidated.
    LiquidationNotAllowed,
    /// No position exists for this user and asset.
    PositionNotFound,
    /// Reserved for destination-chain allow-listing; never produced.
    ChainNotSupported,
}

} // verus!
