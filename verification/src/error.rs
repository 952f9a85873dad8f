//! Why a call was refused.

use vstd::prelude::*;

verus! {

/// The four ways a call can fail. A failure ends the call; the caller decides
/// whether to try again.
#[derive(Clone, Copy, Debug, PartialEq, Eq, Structural, Hash)]
pub enum SubscriptionError {
    /// The caller lacks the role the operation needs.
    Unauthorized,
    /// An argument is out of policy, the ledger is already set up, a payment is
    /// not yet due, or a value transfer failed and was rolled back.
    InvalidInput,
    /// The balance is below the amount required.
    InsufficientFunds,
    /// The plan referred to does not exist.
    NotFound,
}

} // verus!
