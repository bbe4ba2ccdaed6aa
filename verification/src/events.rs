//! What an operation reports to the outside, and what the outside reports
//! back about a movement of funds.

use vstd::prelude::*;
use crate::identity::Identity;

verus! {

/// How the movement of funds that an operation asked for has ended. A failed
/// movement has changed no balance.
#[derive(Clone, Copy, Debug, PartialEq, Eq)]
pub enum TransferOutcome {
    Completed,
    Failed,
}

/// Reported for each contribution that was recorded.
#[derive(Clone, Copy, Debug, PartialEq, Eq)]
pub struct DonationEvent {
    /// When it happened, as the environment's clock told it.
    pub at: i64,
    /// What was contributed.
    pub amount: u64,
    /// What the campaign has collected, this contribution included.
    pub platform_after: u64,
    /// Who contributed.
    pub from: Identity,
}

/// Reported for each withdrawal that was made.
#[derive(Clone, Copy, Debug, PartialEq, Eq)]
pub struct WithdrawEvent {
    /// When it happened, as the environment's clock told it.
    pub at: i64,
    /// What left the campaign's balance.
    pub amount: u64,
}

/// What a recorded contribution hands back to its caller.
#[derive(Clone, Copy, Debug, PartialEq, Eq)]
pub struct Receipt {
    /// The id of the record that took the contribution.
    pub id: u64,
    /// What the campaign has collected, this contribution included.
    pub collected: u64,
    /// The event to publish.
    pub event: DonationEvent,
}

} // verus!
