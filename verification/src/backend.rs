use vstd::prelude::*;
use crate::account::Address;
use crate::errors::{BackendError, CoreError};

verus! {

/// The custody layer the core calls into. It owns the actual asset
/// balances; the core instructs it to move, mint or burn units and aborts
/// the whole transaction, with no core-side state change, whenever a call
/// is declined. Nothing is assumed of an implementation beyond its result:
/// the core's contracts hold whatever a backend does.
pub trait LedgerBackend {
    /// Move `amount` units of `asset` from `from`'s custody to `to`'s.
    fn transfer(&mut self, asset: Address, from: Address, to: Address, amount: u64) -> Result<
        (),
        BackendError,
    >;

    /// Mint `amount` new units of `asset` into `to`'s custody.
    fn mint(&mut self, asset: Address, to: Address, amount: u64) -> Result<(), BackendError>;

    /// Burn `amount` units of `asset` out of `from`'s custody.
    fn burn(&mut self, asset: Address, from: Address, amount: u64) -> Result<(), BackendError>;
}

/// How a backend refusal surfaces in the core's error taxonomy.
pub open spec fn backend_error_to_core(e: BackendError) -> CoreError {
    match e {
        BackendError::InsufficientBalance => CoreError::InsufficientUserBalance,
        BackendError::Unavailable => CoreError::CustodyTransferFailed,
    }
}

/// Maps a backend refusal onto the core's error taxonomy.
pub fn map_backend_error(e: BackendError) -> (r: CoreError)
    ensures
        r == backend_error_to_core(e),
{
    match e {
        BackendError::InsufficientBalance => CoreError::InsufficientUserBalance,
        BackendError::Unavailable => CoreError::CustodyTransferFailed,
    }
}

/// A backend with a scripted outcome: every custody call succeeds while
/// `failure` is `None` and is declined with the given error otherwise. It
/// moves no balances of its own; callers that need real custody bring
/// their own `LedgerBackend` implementation.
pub struct ScriptedBackend {
    pub failure: Option<BackendError>,
}

impl LedgerBackend for ScriptedBackend {
    fn transfer(&mut self, _asset: Address, _from: Address, _to: Address, _amount: u64) -> Result<
        (),
        BackendError,
    > {
        match self.failure {
            None => Ok(()),
            Some(e) => Err(e),
        }
    }

    fn mint(&mut self, _asset: Address, _to: Address, _amount: u64) -> Result<(), BackendError> {
        match self.failure {
            None => Ok(()),
            Some(e) => Err(e),
        }
    }

    fn burn(&mut self, _asset: Address, _from: Address, _amount: u64) -> Result<(), BackendError> {
        match self.failure {
            None => Ok(()),
            Some(e) => Err(e),
        }
    }
}

} // verus!
