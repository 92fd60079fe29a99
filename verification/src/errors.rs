use vstd::prelude::*;

verus! {

/// Errors surfaced by the trading core. Every error is fatal to the
/// current transaction: no state mutation of that transaction survives.
#[derive(Clone, Copy, Debug, PartialEq, Eq, Structural)]
pub enum CoreError {
    /// A checked addition or multiplication would exceed the 64-bit range.
    ArithmeticOverflow,
    /// A checked subtraction would go below zero.
    ArithmeticUnderflow,
    /// The pool's curve parameters are degenerate (zero base price).
    InvalidCurveParameters,
    /// A sell asked for more units than the pool has issued.
    InsufficientPoolBalance,
    /// The ledger backend declined a custody movement for lack of balance.
    InsufficientUserBalance,
    /// The ledger backend declined a custody movement for another reason.
    CustodyTransferFailed,
    /// A secondary NFT sale was attempted on an immutable NFT.
    NftNotMutable,
    /// The NFT was not found in the seller's owned list: a consistency bug.
    NftPositionNotFound,
    /// The secondary-sale markup computation would exceed the 64-bit range.
    MathOverflow,
}

/// Errors reported by a ledger backend when it declines a custody movement.
#[derive(Clone, Copy, Debug, PartialEq, Eq, Structural)]
pub enum BackendError {
    /// The paying or burning account lacks the required balance.
    InsufficientBalance,
    /// The backend could not perform the movement for another reason.
    Unavailable,
}

} // verus!
