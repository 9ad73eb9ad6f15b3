//! Typed errors of the split state machine.
//!
//! Every error is a pre-transition validation failure: the operation that
//! reports one leaves the record untouched.

use vstd::prelude::*;

verus! {

/// The reasons an operation on a split record can be rejected.
#[derive(Clone, Copy, Debug, PartialEq, Eq, Structural)]
pub enum SplitError {
    /// Split not found.
    SplitNotFound,
    /// Split name exceeds the maximum allowed length.
    NameTooLong,
    /// Split name must contain at least one character.
    InvalidName,
    /// Math overflow occurred.
    ArithmeticOverflow,
    /// Target amount not yet reached.
    TargetNotReached,
    /// Missing or invalid bump.
    InvalidBump,
    /// Contributor count mismatch.
    ContributorCountMismatch,
    /// Invalid contributor account.
    InvalidContributorAccount,
    /// Contributor count must stay below the limit.
    TooManyContributors,
    /// Unauthorized action.
    Unauthorized,
    /// Invalid receiver account.
    InvalidReceiver,
    /// Insufficient funds.
    InsufficientFunds,
    /// Caller is not a contributor.
    NotAContributor,
    /// Contribution already settled.
    AlreadyCleared,
    /// Contributors list cannot be empty.
    NoContributors,
    /// Total contribution percentage must equal 100.
    InvalidTotalPercentage,
    /// Duplicate contributor detected.
    DuplicateContributor,
    /// Contributor percentage must be greater than zero.
    ZeroPercentage,
}

} // verus!
