//! The three operations of the ledger.
//!
//! The ledger moves no funds itself. An operation that needs funds moved is
//! made in two calls. The first, `check_send` or `check_withdraw`, changes
//! nothing: it says whether the request is in order, and if so what is to be
//! moved. The caller then has the funds moved and calls `send` or `withdraw`
//! with the outcome, which decides the whole operation once more and does the
//! bookkeeping. A request that is refused changes nothing.

use vstd::prelude::*;
use crate::errors::DonateErrors;
use crate::events::{DonationEvent, Receipt, TransferOutcome, WithdrawEvent};
use crate::identity::Identity;
use crate::state::{Donates, Donator, Initialize, Send, Withdraw};

verus! {

/// Which contributor record a contribution goes to.
#[derive(Clone, Copy, Debug, PartialEq, Eq)]
pub enum RecordChoice {
    /// A record that does not exist yet, to be created under `id`.
    NewRecord { id: u64 },
    /// The record that already exists under `id`.
    ExistingRecord { id: u64 },
}

impl RecordChoice {
    /// The id of the chosen record.
    pub open spec fn id(self) -> u64 {
        match self {
            RecordChoice::NewRecord { id } => id,
            RecordChoice::ExistingRecord { id } => id,
        }
    }
}

/// The id that a request for `id` means while the campaign's counter stands at
/// `id_counter`. Zero is no id of its own: it always asks for the next one, so
/// once record 0 exists no request can name it again.
pub open spec fn spec_effective_id(id_counter: u64, id: u64) -> u64 {
    if id == 0 {
        id_counter
    } else {
        id
    }
}

/// The id that a request for `id` means while the campaign's counter stands at
/// `id_counter`: the id under which the environment is to look the record up.
#[verifier::when_used_as_spec(spec_effective_id)]
pub fn effective_id(id_counter: u64, id: u64) -> (effective: u64)
    ensures
        effective == spec_effective_id(id_counter, id),
{
    if id == 0 {
        id_counter
    } else {
        id
    }
}

/// The record that a request for `id` goes to, where `id <= id_counter`: a new
/// one when the effective id is the counter itself, else the existing one.
pub open spec fn record_choice(id_counter: u64, id: u64) -> RecordChoice {
    if effective_id(id_counter, id) == id_counter {
        RecordChoice::NewRecord { id: id_counter }
    } else {
        RecordChoice::ExistingRecord { id }
    }
}

/// Why a contribution of `amount` under `id` is refused before any funds
/// move, if it is. The checks are made in this order.
pub open spec fn send_refusal(platform: Donates, id: u64, amount: u64) -> Option<DonateErrors> {
    if amount == 0 {
        Some(DonateErrors::ZeroAmount)
    } else if id > platform.id_counter {
        Some(DonateErrors::IdAheadOfCounter)
    } else if platform.collected >= platform.target {
        Some(DonateErrors::TargetReached)
    } else {
        None
    }
}

/// What `check_send` answers: the refusal, or the record that the
/// contribution goes to.
pub open spec fn check_send_result(platform: Donates, id: u64, amount: u64) -> Result<
    RecordChoice,
    DonateErrors,
> {
    match send_refusal(platform, id, amount) {
        Some(e) => Err(e),
        None => Ok(record_choice(platform.id_counter, id)),
    }
}

/// Whether recording `amount` under `id` would take the chosen record's
/// total, the campaign's total or the id counter out of the range of `u64`.
pub open spec fn send_overflows(ctx: Send, id: u64, amount: u64) -> bool {
    let platform = ctx.donate_platform;
    ||| platform.collected + amount > u64::MAX
    ||| match record_choice(platform.id_counter, id) {
        RecordChoice::NewRecord { .. } => platform.id_counter == u64::MAX,
        RecordChoice::ExistingRecord { .. } => ctx.donator_acc.amount + amount > u64::MAX,
    }
}

/// Why a contribution fails, if it does: a refusal comes first, then a failed
/// movement of funds, then an overflow in the bookkeeping.
pub open spec fn send_error(ctx: Send, id: u64, amount: u64, transfer: TransferOutcome) -> Option<
    DonateErrors,
> {
    if send_refusal(ctx.donate_platform, id, amount) is Some {
        send_refusal(ctx.donate_platform, id, amount)
    } else if transfer is Failed {
        Some(DonateErrors::TransferFailed)
    } else if send_overflows(ctx, id, amount) {
        Some(DonateErrors::Overflow)
    } else {
        None
    }
}

/// What a contribution that does not fail leaves behind. A new record is
/// owned by the caller and holds `amount`; an existing record keeps its owner,
/// whoever the caller is, and grows by `amount`. The campaign's total grows by
/// `amount`, and its counter by one where the record is new.
pub open spec fn send_effect(ctx: Send, id: u64, amount: u64) -> Send {
    let platform = ctx.donate_platform;
    match record_choice(platform.id_counter, id) {
        RecordChoice::NewRecord { .. } => Send {
            donator_acc: Donator { address: ctx.donator, amount },
            donate_platform: Donates {
                collected: (platform.collected + amount) as u64,
                id_counter: (platform.id_counter + 1) as u64,
                ..platform
            },
            donator: ctx.donator,
        },
        RecordChoice::ExistingRecord { .. } => Send {
            donator_acc: Donator {
                address: ctx.donator_acc.address,
                amount: (ctx.donator_acc.amount + amount) as u64,
            },
            donate_platform: Donates {
                collected: (platform.collected + amount) as u64,
                ..platform
            },
            donator: ctx.donator,
        },
    }
}

/// What a contribution leaves behind, whether it fails or not: a failed one
/// changes nothing.
pub open spec fn send_outcome(ctx: Send, id: u64, amount: u64, transfer: TransferOutcome) -> Send {
    if send_error(ctx, id, amount, transfer) is None {
        send_effect(ctx, id, amount)
    } else {
        ctx
    }
}

/// What a contribution that does not fail hands back: the id of the record
/// that took it, the campaign's new total, and the event that tells of it.
pub open spec fn send_receipt(ctx: Send, id: u64, amount: u64, at: i64) -> Receipt {
    let collected = (ctx.donate_platform.collected + amount) as u64;
    Receipt {
        id: record_choice(ctx.donate_platform.id_counter, id).id(),
        collected,
        event: DonationEvent { at, amount, platform_after: collected, from: ctx.donator },
    }
}

/// Why a withdrawal is refused before any funds move, if it is, where the
/// campaign's account holds `balance` and must keep `reserve`. The checks are
/// made in this order.
pub open spec fn withdraw_refusal(ctx: Withdraw, balance: u64, reserve: u64) -> Option<
    DonateErrors,
> {
    if ctx.authority != ctx.donate_platform.authority {
        Some(DonateErrors::Unauthorized)
    } else if ctx.donate_platform.collected == 0 {
        Some(DonateErrors::NothingToWithdraw)
    } else if balance < reserve {
        Some(DonateErrors::InsufficientBalance)
    } else {
        None
    }
}

/// Why a withdrawal fails, if it does: a refusal comes first, then a failed
/// movement of funds.
pub open spec fn withdraw_error(
    ctx: Withdraw,
    balance: u64,
    reserve: u64,
    transfer: TransferOutcome,
) -> Option<DonateErrors> {
    if withdraw_refusal(ctx, balance, reserve) is Some {
        withdraw_refusal(ctx, balance, reserve)
    } else if transfer is Failed {
        Some(DonateErrors::TransferFailed)
    } else {
        None
    }
}

/// What a withdrawal that does not fail leaves behind: the campaign with
/// nothing collected, and nothing else changed.
pub open spec fn withdraw_effect(ctx: Withdraw) -> Withdraw {
    Withdraw {
        donate_platform: Donates { collected: 0, ..ctx.donate_platform },
        authority: ctx.authority,
    }
}

/// What a withdrawal leaves behind, whether it fails or not: a failed one
/// changes nothing.
pub open spec fn withdraw_outcome(
    ctx: Withdraw,
    balance: u64,
    reserve: u64,
    transfer: TransferOutcome,
) -> Withdraw {
    if withdraw_error(ctx, balance, reserve, transfer) is None {
        withdraw_effect(ctx)
    } else {
        ctx
    }
}

/// The campaign that `owner` creates with the goal `target`: nothing
/// collected, no id handed out.
pub open spec fn created(owner: Identity, target: u64) -> Donates {
    Donates { authority: owner, target, collected: 0, id_counter: 0 }
}

/// Creates the campaign of `ctx` for its caller, with the goal `target`.
///
/// A goal of zero is refused with `InvalidTarget`. Any other goal gives a
/// campaign owned by the caller that has collected nothing and handed out no
/// id.
pub fn initialize(ctx: &mut Initialize, target: u64) -> (r: Result<(), DonateErrors>)
    ensures
        target == 0 ==> {
            &&& r == Err::<(), DonateErrors>(DonateErrors::InvalidTarget)
            &&& *final(ctx) == *old(ctx)
        },
        target > 0 ==> {
            &&& r is Ok
            &&& final(ctx).authority == old(ctx).authority
            &&& final(ctx).donate_platform == created(old(ctx).authority, target)
            &&& final(ctx).donate_platform.wf()
        },
{
    if target == 0 {
        return Err(DonateErrors::InvalidTarget);
    }
    ctx.donate_platform.authority = ctx.authority;
    ctx.donate_platform.target = target;
    ctx.donate_platform.collected = 0;
    ctx.donate_platform.id_counter = 0;
    Ok(())
}

/// Decides which record a request for `id` goes to. An `id` beyond the
/// counter is refused with `IdAheadOfCounter`.
pub fn resolve_id(id_counter: u64, id: u64) -> (r: Result<RecordChoice, DonateErrors>)
    ensures
        id > id_counter ==> r == Err::<RecordChoice, DonateErrors>(DonateErrors::IdAheadOfCounter),
        id <= id_counter ==> r == Ok::<RecordChoice, DonateErrors>(record_choice(id_counter, id)),
{
    if id > id_counter {
        return Err(DonateErrors::IdAheadOfCounter);
    }
    let effective: u64 = effective_id(id_counter, id);
    if effective == id_counter {
        Ok(RecordChoice::NewRecord { id: effective })
    } else {
        Ok(RecordChoice::ExistingRecord { id: effective })
    }
}

/// Says whether a contribution of `amount` under `id` is in order, before any
/// funds move. If it is, the caller is to move `amount` from the contributor
/// to the campaign, and to present the chosen record to `send`.
pub fn check_send(platform: &Donates, id: u64, amount: u64) -> (r: Result<
    RecordChoice,
    DonateErrors,
>)
    ensures
        r == check_send_result(*platform, id, amount),
{
    if amount == 0 {
        return Err(DonateErrors::ZeroAmount);
    }
    let choice = match resolve_id(platform.id_counter, id) {
        Ok(choice) => choice,
        Err(e) => {
            return Err(e);
        },
    };
    if platform.collected >= platform.target {
        return Err(DonateErrors::TargetReached);
    }
    Ok(choice)
}

/// Records a contribution of `amount` under `id` by the caller of `ctx`, once
/// the movement of funds that `check_send` asked for has ended in `transfer`.
/// `at` is the time to report.
///
/// The request fails with the error that `send_error` names, and then `ctx`
/// is left as it was. Otherwise `ctx` becomes what `send_effect` describes,
/// and the receipt is the one that `send_receipt` describes.
pub fn send(ctx: &mut Send, id: u64, amount: u64, transfer: TransferOutcome, at: i64) -> (r:
    Result<Receipt, DonateErrors>)
    ensures
        *final(ctx) == send_outcome(*old(ctx), id, amount, transfer),
        match r {
            Ok(receipt) => {
                &&& send_error(*old(ctx), id, amount, transfer) is None
                &&& *final(ctx) == send_effect(*old(ctx), id, amount)
                &&& receipt == send_receipt(*old(ctx), id, amount, at)
            },
            Err(e) => {
                &&& send_error(*old(ctx), id, amount, transfer) == Some(e)
                &&& *final(ctx) == *old(ctx)
            },
        },
{
    let choice = match check_send(&ctx.donate_platform, id, amount) {
        Ok(choice) => choice,
        Err(e) => {
            return Err(e);
        },
    };
    match transfer {
        TransferOutcome::Failed => {
            return Err(DonateErrors::TransferFailed);
        },
        TransferOutcome::Completed => {},
    }
    let collected: u64 = match ctx.donate_platform.collected.checked_add(amount) {
        Some(sum) => sum,
        None => {
            return Err(DonateErrors::Overflow);
        },
    };
    match choice {
        RecordChoice::NewRecord { id: new_id } => {
            let next: u64 = match ctx.donate_platform.id_counter.checked_add(1) {
                Some(next) => next,
                None => {
                    return Err(DonateErrors::Overflow);
                },
            };
            ctx.donator_acc.address = ctx.donator;
            ctx.donator_acc.amount = amount;
            ctx.donate_platform.id_counter = next;
            ctx.donate_platform.collected = collected;
            Ok(
                Receipt {
                    id: new_id,
                    collected,
                    event: DonationEvent { at, amount, platform_after: collected, from: ctx.donator },
                },
            )
        },
        RecordChoice::ExistingRecord { id: old_id } => {
            let total: u64 = match ctx.donator_acc.amount.checked_add(amount) {
                Some(sum) => sum,
                None => {
                    return Err(DonateErrors::Overflow);
                },
            };
            ctx.donator_acc.amount = total;
            ctx.donate_platform.collected = collected;
            Ok(
                Receipt {
                    id: old_id,
                    collected,
                    event: DonationEvent { at, amount, platform_after: collected, from: ctx.donator },
                },
            )
        },
    }
}

/// Says whether the caller of `ctx` may withdraw, before any funds move, where
/// the campaign's account holds `balance` and must keep `reserve`. If so, the
/// result is what the caller is to move from the campaign to its owner: all
/// of the balance above the reserve, whatever the campaign has collected.
pub fn check_withdraw(ctx: &Withdraw, balance: u64, reserve: u64) -> (r: Result<u64, DonateErrors>)
    ensures
        match r {
            Ok(amount) => withdraw_refusal(*ctx, balance, reserve) is None && amount == balance
                - reserve,
            Err(e) => withdraw_refusal(*ctx, balance, reserve) == Some(e),
        },
{
    if !ctx.authority.same(&ctx.donate_platform.authority) {
        return Err(DonateErrors::Unauthorized);
    }
    if ctx.donate_platform.collected == 0 {
        return Err(DonateErrors::NothingToWithdraw);
    }
    match balance.checked_sub(reserve) {
        Some(amount) => Ok(amount),
        None => Err(DonateErrors::InsufficientBalance),
    }
}

/// Records a withdrawal by the caller of `ctx`, once the movement of funds
/// that `check_withdraw` asked for has ended in `transfer`. `balance` and
/// `reserve` are what they were for `check_withdraw`; `at` is the time to
/// report.
///
/// The request fails with the error that `withdraw_error` names, and then
/// `ctx` is left as it was. Otherwise the campaign has collected nothing any
/// more, and the event tells of `balance - reserve`.
pub fn withdraw(
    ctx: &mut Withdraw,
    balance: u64,
    reserve: u64,
    transfer: TransferOutcome,
    at: i64,
) -> (r: Result<WithdrawEvent, DonateErrors>)
    ensures
        *final(ctx) == withdraw_outcome(*old(ctx), balance, reserve, transfer),
        match r {
            Ok(event) => {
                &&& withdraw_error(*old(ctx), balance, reserve, transfer) is None
                &&& *final(ctx) == withdraw_effect(*old(ctx))
                &&& event == (WithdrawEvent { at, amount: (balance - reserve) as u64 })
            },
            Err(e) => {
                &&& withdraw_error(*old(ctx), balance, reserve, transfer) == Some(e)
                &&& *final(ctx) == *old(ctx)
            },
        },
{
    let amount = match check_withdraw(ctx, balance, reserve) {
        Ok(amount) => amount,
        Err(e) => {
            return Err(e);
        },
    };
    match transfer {
        TransferOutcome::Failed => {
            return Err(DonateErrors::TransferFailed);
        },
        TransferOutcome::Completed => {},
    }
    ctx.donate_platform.collected = 0;
    Ok(WithdrawEvent { at, amount })
}

} // verus!
