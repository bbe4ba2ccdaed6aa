//! What holds of the ledger over any number of operations.
//!
//! Each law is a proof about the functions that the contracts of the
//! operations are written in, so it holds of every run of the operations
//! themselves.

use vstd::prelude::*;
use crate::errors::DonateErrors;
use crate::events::TransferOutcome;
use crate::identity::Identity;
use crate::instructions::{
    record_choice,
    send_error,
    send_outcome,
    withdraw_error,
    withdraw_outcome,
    RecordChoice,
};
use crate::ledger::LedgerView;
use crate::state::{Send, Withdraw};

verus! {

/// One call of a contribution: what was asked, by whom, and how the movement
/// of funds ended.
pub struct Attempt {
    pub id: u64,
    pub amount: u64,
    pub donator: Identity,
    pub transfer: TransferOutcome,
}

impl LedgerView {
    /// Why the attempt fails on this ledger, if it does.
    pub open spec fn error_of(self, a: Attempt) -> Option<DonateErrors> {
        self.contribute_error(a.id, a.amount, a.donator, a.transfer)
    }

    /// The record that the attempt goes to on this ledger.
    pub open spec fn choice_of(self, a: Attempt) -> RecordChoice {
        record_choice(self.platform.id_counter, a.id)
    }

    /// The ledger after the attempt: changed where it succeeds, the same
    /// where it fails.
    pub open spec fn step(self, a: Attempt) -> LedgerView {
        self.contribute_outcome(a.id, a.amount, a.donator, a.transfer)
    }

    /// The ledger after all the attempts, made in order.
    pub open spec fn run(self, attempts: Seq<Attempt>) -> LedgerView
        decreases attempts.len(),
    {
        if attempts.len() == 0 {
            self
        } else {
            self.step(attempts[0]).run(attempts.drop_first())
        }
    }

    /// Whether every one of the attempts, made in order, succeeds.
    pub open spec fn records_all(self, attempts: Seq<Attempt>) -> bool
        decreases attempts.len(),
    {
        attempts.len() == 0 || (self.error_of(attempts[0]) is None && self.step(
            attempts[0],
        ).records_all(attempts.drop_first()))
    }

    /// How many of the attempts, made in order, succeed and create a record.
    pub open spec fn records_created(self, attempts: Seq<Attempt>) -> int
        decreases attempts.len(),
    {
        if attempts.len() == 0 {
            0
        } else {
            let first = attempts[0];
            let one: int = if self.error_of(first) is None && self.choice_of(first) is NewRecord {
                1
            } else {
                0
            };
            one + self.step(first).records_created(attempts.drop_first())
        }
    }

    /// The sum of the amounts of those attempts that, made in order, succeed
    /// and go to the record `id`.
    pub open spec fn recorded_under(self, attempts: Seq<Attempt>, id: u64) -> int
        decreases attempts.len(),
    {
        if attempts.len() == 0 {
            0
        } else {
            let first = attempts[0];
            let share: int = if self.error_of(first) is None && self.choice_of(first).id() == id {
                first.amount as int
            } else {
                0
            };
            share + self.step(first).recorded_under(attempts.drop_first(), id)
        }
    }

    /// What the record `id` holds, and zero where there is no such record.
    pub open spec fn held_under(self, id: u64) -> int {
        if id < self.donators.len() {
            self.donators[id as int].amount as int
        } else {
            0
        }
    }
}

/// The sum of the amounts of the attempts.
pub open spec fn total(attempts: Seq<Attempt>) -> int
    decreases attempts.len(),
{
    if attempts.len() == 0 {
        0
    } else {
        attempts[0].amount + total(attempts.drop_first())
    }
}

/// One attempt leaves the counter as it was or raises it by one; it raises
/// it exactly when the attempt succeeds and creates a record. A ledger whose
/// counter is the number of its records stays so.
pub proof fn law_counter_step(l: LedgerView, a: Attempt)
    ensures
        l.step(a).platform.id_counter == l.platform.id_counter + l.records_created(seq![a]),
        l.step(a).platform.id_counter >= l.platform.id_counter,
        l.wf() ==> l.step(a).wf(),
{
    assert(seq![a].drop_first().len() == 0);
    assert(l.step(a).records_created(seq![a].drop_first()) == 0);
}

/// Over any attempts the counter never decreases: it grows by one for each
/// record created and by nothing else, so it stays the number of records.
pub proof fn law_monotonic_counter(l: LedgerView, attempts: Seq<Attempt>)
    ensures
        l.run(attempts).platform.id_counter == l.platform.id_counter + l.records_created(attempts),
        l.run(attempts).platform.id_counter >= l.platform.id_counter,
        l.records_created(attempts) >= 0,
        l.wf() ==> l.run(attempts).wf(),
    decreases attempts.len(),
{
    if attempts.len() > 0 {
        law_monotonic_counter(l.step(attempts[0]), attempts.drop_first());
    }
}

/// The owner and the goal of a campaign never change, whatever is attempted.
pub proof fn law_owner_and_target_fixed(l: LedgerView, attempts: Seq<Attempt>)
    ensures
        l.run(attempts).platform.authority == l.platform.authority,
        l.run(attempts).platform.target == l.platform.target,
    decreases attempts.len(),
{
    if attempts.len() > 0 {
        law_owner_and_target_fixed(l.step(attempts[0]), attempts.drop_first());
    }
}

/// After contributions that all succeed, the campaign has collected what it
/// had before and the sum of their amounts, exactly.
pub proof fn law_collected_conservation(l: LedgerView, attempts: Seq<Attempt>)
    requires
        l.records_all(attempts),
    ensures
        l.run(attempts).platform.collected == l.platform.collected + total(attempts),
    decreases attempts.len(),
{
    if attempts.len() > 0 {
        law_collected_conservation(l.step(attempts[0]), attempts.drop_first());
    }
}

/// Once a campaign has collected its target, a contribution with an amount
/// above zero and an id within the counter fails with `TargetReached`,
/// however the movement of funds ended.
pub proof fn law_target_gate(ctx: Send, id: u64, amount: u64, transfer: TransferOutcome)
    requires
        ctx.donate_platform.collected >= ctx.donate_platform.target,
        amount > 0,
        id <= ctx.donate_platform.id_counter,
    ensures
        send_error(ctx, id, amount, transfer) == Some(DonateErrors::TargetReached),
        send_outcome(ctx, id, amount, transfer) == ctx,
{
}

/// Once a campaign has collected its target, no contribution succeeds any
/// more: whatever is attempted, the ledger stays as it is.
pub proof fn law_target_gate_stays_shut(l: LedgerView, attempts: Seq<Attempt>)
    requires
        l.platform.collected >= l.platform.target,
    ensures
        l.run(attempts) == l,
        forall|i: int| 0 <= i < attempts.len() ==> l.error_of(#[trigger] attempts[i]) is Some,
        forall|i: int|
            0 <= i < attempts.len() && attempts[i].amount > 0 && attempts[i].id
                <= l.platform.id_counter ==> l.error_of(#[trigger] attempts[i]) == Some(
                DonateErrors::TargetReached,
            ),
    decreases attempts.len(),
{
    if attempts.len() > 0 {
        law_target_gate_stays_shut(l, attempts.drop_first());
    }
}

/// After contributions that all succeed, each record holds what it held
/// before and the sum of the amounts that went to its id, and a record that
/// was there before still has its owner.
pub proof fn law_record_merge(l: LedgerView, attempts: Seq<Attempt>, id: u64)
    requires
        l.wf(),
        l.records_all(attempts),
    ensures
        l.run(attempts).held_under(id) == l.held_under(id) + l.recorded_under(attempts, id),
        id < l.platform.id_counter ==> l.run(attempts).donators[id as int].address
            == l.donators[id as int].address,
    decreases attempts.len(),
{
    if attempts.len() > 0 {
        let next = l.step(attempts[0]);
        law_counter_step(l, attempts[0]);
        law_record_merge(next, attempts.drop_first(), id);
    }
}

/// Two contributions under one effective id, both successful, leave the
/// record with what it held before and both amounts.
pub proof fn law_two_merge(l: LedgerView, first: Attempt, second: Attempt)
    requires
        l.wf(),
        l.error_of(first) is None,
        l.step(first).error_of(second) is None,
        l.choice_of(first).id() == l.step(first).choice_of(second).id(),
    ensures
        l.step(first).step(second).held_under(l.choice_of(first).id()) == l.held_under(
            l.choice_of(first).id(),
        ) + first.amount + second.amount,
{
}

/// A withdrawal that succeeds leaves nothing collected, and a second one by
/// the same caller right after it fails with `NothingToWithdraw`, whatever
/// the balance, the reserve and the outcome of a movement of funds.
pub proof fn law_withdraw_resets(
    ctx: Withdraw,
    balance: u64,
    reserve: u64,
    transfer: TransferOutcome,
    later_balance: u64,
    later_reserve: u64,
    later_transfer: TransferOutcome,
)
    requires
        withdraw_error(ctx, balance, reserve, transfer) is None,
    ensures
        withdraw_outcome(ctx, balance, reserve, transfer).donate_platform.collected == 0,
        withdraw_error(
            withdraw_outcome(ctx, balance, reserve, transfer),
            later_balance,
            later_reserve,
            later_transfer,
        ) == Some(DonateErrors::NothingToWithdraw),
        withdraw_outcome(
            withdraw_outcome(ctx, balance, reserve, transfer),
            later_balance,
            later_reserve,
            later_transfer,
        ) == withdraw_outcome(ctx, balance, reserve, transfer),
{
}

/// A withdrawal touches no record, and leaves the counter, the owner and the
/// goal of the campaign as they were.
pub proof fn law_withdraw_keeps_records(l: LedgerView)
    ensures
        l.withdraw().donators == l.donators,
        l.withdraw().platform.id_counter == l.platform.id_counter,
        l.withdraw().platform.authority == l.platform.authority,
        l.withdraw().platform.target == l.platform.target,
        l.wf() ==> l.withdraw().wf(),
{
}

/// A withdrawal by anyone but the owner fails with `Unauthorized` and changes
/// nothing, whatever the campaign holds and however a movement of funds
/// ended.
pub proof fn law_authorization(
    ctx: Withdraw,
    balance: u64,
    reserve: u64,
    transfer: TransferOutcome,
)
    requires
        ctx.authority != ctx.donate_platform.authority,
    ensures
        withdraw_error(ctx, balance, reserve, transfer) == Some(DonateErrors::Unauthorized),
        withdraw_outcome(ctx, balance, reserve, transfer) == ctx,
{
}

} // verus!
