//! The records of the ledger, and what the environment presents to each
//! operation.

use vstd::prelude::*;
use crate::identity::Identity;

verus! {

/// A campaign: who owns it, what it aims for, what it holds, and how many
/// contributor records it has handed out.
#[derive(Clone, Copy, Debug, PartialEq, Eq)]
pub struct Donates {
    /// The only principal that may withdraw. Never changes.
    pub authority: Identity,
    /// The funding goal. Never changes.
    pub target: u64,
    /// What has been contributed since the campaign began or was last
    /// withdrawn from.
    pub collected: u64,
    /// The id that the next new contributor record gets, which is also the
    /// number of records created so far.
    pub id_counter: u64,
}

impl Donates {
    /// Bytes that a stored campaign takes: a tag, the owner, three integers.
    pub const SIZE: usize = 8 + 32 + 8 * 3;

    /// A campaign has a goal above zero.
    pub open spec fn wf(self) -> bool {
        self.target > 0
    }

    /// Whether the campaign still takes contributions.
    pub open spec fn open_for_contributions(self) -> bool {
        self.collected < self.target
    }
}

/// A contributor record: everything given under one id of one campaign.
#[derive(Clone, Copy, Debug, PartialEq, Eq)]
pub struct Donator {
    /// Whoever first contributed under this id. Never changes.
    pub address: Identity,
    /// The sum of all contributions under this id. Never decreases.
    pub amount: u64,
}

impl Donator {
    /// Bytes that a stored record takes: a tag, the contributor, one integer.
    pub const SIZE: usize = 8 + 32 + 8;

    /// A copy of this record to hand out.
    pub fn snapshot(&self) -> (copy: DonatorStruct)
        ensures
            copy == (DonatorStruct { address: self.address, amount: self.amount }),
    {
        DonatorStruct { address: self.address, amount: self.amount }
    }
}

/// What a contributor record held at some moment.
#[derive(Clone, Copy, Debug, PartialEq, Eq)]
pub struct DonatorStruct {
    pub address: Identity,
    pub amount: u64,
}

/// What the environment presents when a campaign is created: the blank
/// campaign record and the caller, who becomes its owner.
#[derive(Clone, Copy, Debug, PartialEq, Eq)]
pub struct Initialize {
    pub donate_platform: Donates,
    pub authority: Identity,
}

/// What the environment presents for one contribution: the contributor record
/// stored under the effective id (its content is of no concern where that
/// record is new), the campaign, and the caller.
#[derive(Clone, Copy, Debug, PartialEq, Eq)]
pub struct Send {
    pub donator_acc: Donator,
    pub donate_platform: Donates,
    pub donator: Identity,
}

/// What the environment presents for a withdrawal: the campaign and the
/// caller.
#[derive(Clone, Copy, Debug, PartialEq, Eq)]
pub struct Withdraw {
    pub donate_platform: Donates,
    pub authority: Identity,
}

} // verus!
