//! The reasons for which the ledger refuses an operation.

use vstd::prelude::*;

verus! {

/// Why an operation was refused. Every refusal leaves the ledger as it was.
#[derive(Clone, Copy, Debug, PartialEq, Eq)]
pub enum DonateErrors {
    /// A campaign needs a target above zero.
    InvalidTarget,
    /// A contribution needs an amount above zero.
    ZeroAmount,
    /// The requested id is beyond the next id that the campaign would assign.
    IdAheadOfCounter,
    /// The campaign has already collected its target.
    TargetReached,
    /// The funds could not be moved.
    TransferFailed,
    /// A total or the id counter would leave the range of `u64`.
    Overflow,
    /// Only the owner of a campaign may withdraw from it.
    Unauthorized,
    /// Nothing has been collected since the last withdrawal.
    NothingToWithdraw,
    /// The campaign's balance is below the reserve that it must keep.
    InsufficientBalance,
}

} // verus!
