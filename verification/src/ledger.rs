//! A campaign together with its contributor records, kept in memory.
//!
//! `Ledger` stands where the environment stands for the operations of
//! `instructions`: it finds the record that a contribution goes to, presents
//! it, and stores what comes back. Record `i` is the one with id `i`.

use vstd::prelude::*;
use crate::errors::DonateErrors;
use crate::events::{Receipt, TransferOutcome, WithdrawEvent};
use crate::identity::Identity;
use crate::instructions::{
    check_send,
    check_send_result,
    check_withdraw,
    created,
    initialize,
    record_choice,
    send,
    send_effect,
    send_error,
    send_receipt,
    withdraw,
    withdraw_error,
    RecordChoice,
};
use crate::state::{Donates, Donator, DonatorStruct, Initialize, Send, Withdraw};

verus! {

/// A ledger as a mathematical value: the campaign, and its contributor
/// records in the order of their ids.
pub struct LedgerView {
    pub platform: Donates,
    pub donators: Seq<Donator>,
}

impl LedgerView {
    /// The campaign's counter is the number of its records.
    pub open spec fn wf(self) -> bool {
        self.donators.len() == self.platform.id_counter
    }

    /// What the ledger presents for a contribution under `id` by `donator`:
    /// the record stored under the effective id, or a blank one where that
    /// record is new.
    pub open spec fn send_ctx(self, id: u64, donator: Identity) -> Send {
        Send {
            donator_acc: match record_choice(self.platform.id_counter, id) {
                RecordChoice::NewRecord { .. } => Donator { address: donator, amount: 0 },
                RecordChoice::ExistingRecord { id } => self.donators[id as int],
            },
            donate_platform: self.platform,
            donator,
        }
    }

    /// Why a contribution to this ledger fails, if it does.
    pub open spec fn contribute_error(
        self,
        id: u64,
        amount: u64,
        donator: Identity,
        transfer: TransferOutcome,
    ) -> Option<DonateErrors> {
        send_error(self.send_ctx(id, donator), id, amount, transfer)
    }

    /// The ledger after a contribution that does not fail: the campaign as
    /// `send_effect` leaves it, the chosen record appended where it is new and
    /// replaced where it existed, every other record untouched.
    pub open spec fn contribute(self, id: u64, amount: u64, donator: Identity) -> LedgerView {
        let done = send_effect(self.send_ctx(id, donator), id, amount);
        LedgerView {
            platform: done.donate_platform,
            donators: match record_choice(self.platform.id_counter, id) {
                RecordChoice::NewRecord { .. } => self.donators.push(done.donator_acc),
                RecordChoice::ExistingRecord { id } => self.donators.update(
                    id as int,
                    done.donator_acc,
                ),
            },
        }
    }

    /// The ledger after a contribution, whether it fails or not: a failed one
    /// changes nothing.
    pub open spec fn contribute_outcome(
        self,
        id: u64,
        amount: u64,
        donator: Identity,
        transfer: TransferOutcome,
    ) -> LedgerView {
        if self.contribute_error(id, amount, donator, transfer) is None {
            self.contribute(id, amount, donator)
        } else {
            self
        }
    }

    /// What the ledger presents for a withdrawal by `caller`.
    pub open spec fn withdraw_ctx(self, caller: Identity) -> Withdraw {
        Withdraw { donate_platform: self.platform, authority: caller }
    }

    /// Why a withdrawal from this ledger fails, if it does.
    pub open spec fn withdraw_error(
        self,
        caller: Identity,
        balance: u64,
        reserve: u64,
        transfer: TransferOutcome,
    ) -> Option<DonateErrors> {
        withdraw_error(self.withdraw_ctx(caller), balance, reserve, transfer)
    }

    /// The ledger after a withdrawal that does not fail: nothing collected,
    /// every record untouched.
    pub open spec fn withdraw(self) -> LedgerView {
        LedgerView { platform: Donates { collected: 0, ..self.platform }, donators: self.donators }
    }

    /// The ledger after a withdrawal, whether it fails or not: a failed one
    /// changes nothing.
    pub open spec fn withdraw_outcome(
        self,
        caller: Identity,
        balance: u64,
        reserve: u64,
        transfer: TransferOutcome,
    ) -> LedgerView {
        if self.withdraw_error(caller, balance, reserve, transfer) is None {
            self.withdraw()
        } else {
            self
        }
    }
}

/// A campaign and its contributor records.
pub struct Ledger {
    authority: Identity,
    target: u64,
    collected: u64,
    donators: Vec<Donator>,
}

impl Ledger {
    /// The ledger as a mathematical value.
    pub closed spec fn view(&self) -> LedgerView {
        LedgerView {
            platform: Donates {
                authority: self.authority,
                target: self.target,
                collected: self.collected,
                id_counter: self.donators.len() as u64,
            },
            donators: self.donators@,
        }
    }

    /// In every ledger the campaign's counter is the number of records.
    pub proof fn lemma_counter_is_len(&self)
        ensures
            self@.wf(),
    {
    }

    /// Creates a campaign for `owner` with the goal `target` and no records.
    /// A goal of zero is refused with `InvalidTarget`.
    pub fn create_campaign(owner: Identity, target: u64) -> (r: Result<Ledger, DonateErrors>)
        ensures
            match r {
                Ok(ledger) => target > 0 && ledger@ == (LedgerView {
                    platform: created(owner, target),
                    donators: Seq::empty(),
                }),
                Err(e) => target == 0 && e == DonateErrors::InvalidTarget,
            },
    {
        let blank = Donates { authority: owner, target: 0, collected: 0, id_counter: 0 };
        let mut ctx = Initialize { donate_platform: blank, authority: owner };
        match initialize(&mut ctx, target) {
            Err(e) => Err(e),
            Ok(()) => {
                let ledger = Ledger {
                    authority: ctx.donate_platform.authority,
                    target: ctx.donate_platform.target,
                    collected: ctx.donate_platform.collected,
                    donators: Vec::new(),
                };
                assert(ledger@.donators =~= Seq::empty());
                Ok(ledger)
            },
        }
    }

    /// The campaign as it stands.
    pub fn platform(&self) -> (platform: Donates)
        ensures
            platform == self@.platform,
    {
        Donates {
            authority: self.authority,
            target: self.target,
            collected: self.collected,
            id_counter: self.donators.len() as u64,
        }
    }

    /// What the record under `id` holds, if there is one.
    pub fn donator(&self, id: u64) -> (found: Option<DonatorStruct>)
        ensures
            id < self@.platform.id_counter ==> found == Some(
                DonatorStruct {
                    address: self@.donators[id as int].address,
                    amount: self@.donators[id as int].amount,
                },
            ),
            id >= self@.platform.id_counter ==> found is None,
    {
        if id < self.donators.len() as u64 {
            Some(self.donators[id as usize].snapshot())
        } else {
            None
        }
    }

    /// Says whether a contribution of `amount` under `id` is in order, before
    /// any funds move, and which record it would go to.
    pub fn check_contribute(&self, id: u64, amount: u64) -> (r: Result<RecordChoice, DonateErrors>)
        ensures
            r == check_send_result(self@.platform, id, amount),
    {
        let platform = self.platform();
        check_send(&platform, id, amount)
    }

    /// Records a contribution of `amount` under `id` by `donator`, once the
    /// movement of funds has ended in `transfer`. `at` is the time to report.
    ///
    /// On failure the ledger is left as it was.
    pub fn contribute(
        &mut self,
        id: u64,
        amount: u64,
        donator: Identity,
        transfer: TransferOutcome,
        at: i64,
    ) -> (r: Result<Receipt, DonateErrors>)
        ensures
            final(self)@ == old(self)@.contribute_outcome(id, amount, donator, transfer),
            match r {
                Ok(receipt) => {
                    &&& old(self)@.contribute_error(id, amount, donator, transfer) is None
                    &&& final(self)@ == old(self)@.contribute(id, amount, donator)
                    &&& receipt == send_receipt(old(self)@.send_ctx(id, donator), id, amount, at)
                },
                Err(e) => {
                    &&& old(self)@.contribute_error(id, amount, donator, transfer) == Some(e)
                    &&& final(self)@ == old(self)@
                },
            },
    {
        let platform = self.platform();
        let choice = match check_send(&platform, id, amount) {
            Ok(choice) => choice,
            Err(e) => {
                return Err(e);
            },
        };
        let record = match choice {
            RecordChoice::NewRecord { .. } => Donator { address: donator, amount: 0 },
            RecordChoice::ExistingRecord { id: at_id } => self.donators[at_id as usize],
        };
        let mut ctx = Send { donator_acc: record, donate_platform: platform, donator };
        match send(&mut ctx, id, amount, transfer, at) {
            Err(e) => Err(e),
            Ok(receipt) => {
                match choice {
                    RecordChoice::NewRecord { .. } => {
                        self.donators.push(ctx.donator_acc);
                    },
                    RecordChoice::ExistingRecord { id: at_id } => {
                        self.donators[at_id as usize] = ctx.donator_acc;
                    },
                }
                self.collected = ctx.donate_platform.collected;
                assert(self@.donators =~= old(self)@.contribute(id, amount, donator).donators);
                Ok(receipt)
            },
        }
    }

    /// Says whether `caller` may withdraw, before any funds move, where the
    /// campaign's account holds `balance` and must keep `reserve`; and if so,
    /// what is to be moved to the owner.
    pub fn check_withdraw(&self, caller: Identity, balance: u64, reserve: u64) -> (r: Result<
        u64,
        DonateErrors,
    >)
        ensures
            match r {
                Ok(amount) => self@.withdraw_error(
                    caller,
                    balance,
                    reserve,
                    TransferOutcome::Completed,
                ) is None && amount == balance - reserve,
                Err(e) => self@.withdraw_error(caller, balance, reserve, TransferOutcome::Completed)
                    == Some(e),
            },
    {
        let ctx = Withdraw { donate_platform: self.platform(), authority: caller };
        check_withdraw(&ctx, balance, reserve)
    }

    /// Records a withdrawal by `caller`, once the movement of funds has ended
    /// in `transfer`. `at` is the time to report.
    ///
    /// On failure the ledger is left as it was.
    pub fn withdraw(
        &mut self,
        caller: Identity,
        balance: u64,
        reserve: u64,
        transfer: TransferOutcome,
        at: i64,
    ) -> (r: Result<WithdrawEvent, DonateErrors>)
        ensures
            final(self)@ == old(self)@.withdraw_outcome(caller, balance, reserve, transfer),
            match r {
                Ok(event) => {
                    &&& old(self)@.withdraw_error(caller, balance, reserve, transfer) is None
                    &&& final(self)@ == old(self)@.withdraw()
                    &&& event == (WithdrawEvent { at, amount: (balance - reserve) as u64 })
                },
                Err(e) => {
                    &&& old(self)@.withdraw_error(caller, balance, reserve, transfer) == Some(e)
                    &&& final(self)@ == old(self)@
                },
            },
    {
        let mut ctx = Withdraw { donate_platform: self.platform(), authority: caller };
        match withdraw(&mut ctx, balance, reserve, transfer, at) {
            Err(e) => Err(e),
            Ok(event) => {
                self.collected = ctx.donate_platform.collected;
                Ok(event)
            },
        }
    }
}

} // verus!
