//! The outcome of a dispatchable operation.

use vstd::prelude::*;

use crate::posts::Error;

verus! {

/// Why a dispatchable operation was rejected. A rejected operation leaves
/// every piece of state exactly as it was.
#[derive(Clone, Copy, PartialEq, Eq, Structural, Debug)]
pub enum DispatchError {
    /// The caller lacks the privilege the operation requires.
    BadOrigin,
    /// The reservation gateway could not hold the requested stake.
    InsufficientBalance,
    /// A rejection raised by the posts component itself.
    Module(Error),
}

/// The result of a dispatchable operation: applied in full, or rejected
/// with the reason and no state change.
pub type DispatchResult = Result<(), DispatchError>;

} // verus!
