use solana_donation::{
    check_send, effective_id, resolve_id, send, DonateErrors, DonationEvent, Donates, Donator, Identity, Ledger,
    Receipt, RecordChoice, Send, TransferOutcome,
};

fn key(tag: u8) -> Identity {
    Identity::new([tag; 32])
}

fn campaign(target: u64, collected: u64, id_counter: u64) -> Donates {
    Donates { authority: key(1), target, collected, id_counter }
}

const DONE: TransferOutcome = TransferOutcome::Completed;
const FAILED: TransferOutcome = TransferOutcome::Failed;

#[test]
fn id_zero_means_the_next_id() {
    assert_eq!(effective_id(0, 0), 0);
    assert_eq!(effective_id(7, 0), 7);
    assert_eq!(effective_id(7, 7), 7);
    assert_eq!(effective_id(7, 3), 3);
    assert_eq!(effective_id(7, 9), 9);
    assert_eq!(effective_id(u64::MAX, 0), u64::MAX);
}

#[test]
fn resolve_id_tells_new_from_existing() {
    assert_eq!(resolve_id(0, 0), Ok(RecordChoice::NewRecord { id: 0 }));
    assert_eq!(resolve_id(5, 0), Ok(RecordChoice::NewRecord { id: 5 }));
    assert_eq!(resolve_id(5, 5), Ok(RecordChoice::NewRecord { id: 5 }));
    assert_eq!(resolve_id(5, 4), Ok(RecordChoice::ExistingRecord { id: 4 }));
    assert_eq!(resolve_id(5, 1), Ok(RecordChoice::ExistingRecord { id: 1 }));
    assert_eq!(resolve_id(5, 6), Err(DonateErrors::IdAheadOfCounter));
    assert_eq!(resolve_id(0, 1), Err(DonateErrors::IdAheadOfCounter));
    assert_eq!(resolve_id(u64::MAX, u64::MAX), Ok(RecordChoice::NewRecord { id: u64::MAX }));
}

#[test]
fn check_send_refuses_in_order() {
    let open = campaign(100, 99, 3);
    let full = campaign(100, 100, 3);
    assert_eq!(check_send(&open, 0, 1), Ok(RecordChoice::NewRecord { id: 3 }));
    assert_eq!(check_send(&open, 2, 1), Ok(RecordChoice::ExistingRecord { id: 2 }));
    assert_eq!(check_send(&open, 3, 1), Ok(RecordChoice::NewRecord { id: 3 }));
    assert_eq!(check_send(&open, 0, 0), Err(DonateErrors::ZeroAmount));
    assert_eq!(check_send(&open, 4, 1), Err(DonateErrors::IdAheadOfCounter));
    assert_eq!(check_send(&full, 0, 1), Err(DonateErrors::TargetReached));
    // An amount of zero is named before an id that is ahead, and both before
    // a target that is reached.
    assert_eq!(check_send(&full, 4, 0), Err(DonateErrors::ZeroAmount));
    assert_eq!(check_send(&full, 4, 1), Err(DonateErrors::IdAheadOfCounter));
}

#[test]
fn send_creates_a_record_for_the_caller() {
    let stale = Donator { address: key(8), amount: 77 };
    let mut ctx = Send { donator_acc: stale, donate_platform: campaign(1000, 40, 2), donator: key(5) };
    let receipt = send(&mut ctx, 0, 60, DONE, 1234).unwrap();
    assert_eq!(
        receipt,
        Receipt {
            id: 2,
            collected: 100,
            event: DonationEvent { at: 1234, amount: 60, platform_after: 100, from: key(5) },
        }
    );
    assert_eq!(ctx.donator_acc, Donator { address: key(5), amount: 60 });
    assert_eq!(ctx.donate_platform, campaign(1000, 100, 3));
    assert_eq!(ctx.donator, key(5));
}

#[test]
fn send_adds_to_an_existing_record() {
    let record = Donator { address: key(8), amount: 77 };
    let mut ctx = Send { donator_acc: record, donate_platform: campaign(1000, 40, 2), donator: key(5) };
    let receipt = send(&mut ctx, 1, 60, DONE, -3).unwrap();
    assert_eq!(receipt.id, 1);
    assert_eq!(receipt.collected, 100);
    assert_eq!(receipt.event, DonationEvent { at: -3, amount: 60, platform_after: 100, from: key(5) });
    assert_eq!(ctx.donator_acc, Donator { address: key(8), amount: 137 });
    assert_eq!(ctx.donate_platform, campaign(1000, 100, 2));
}

#[test]
fn send_that_fails_changes_nothing() {
    let record = Donator { address: key(8), amount: 77 };
    let before = Send { donator_acc: record, donate_platform: campaign(1000, 40, 2), donator: key(5) };
    let cases = [
        (0u64, 0u64, DONE, DonateErrors::ZeroAmount),
        (3, 10, DONE, DonateErrors::IdAheadOfCounter),
        (0, 10, FAILED, DonateErrors::TransferFailed),
        (1, 10, FAILED, DonateErrors::TransferFailed),
        (1, u64::MAX, DONE, DonateErrors::Overflow),
        (0, u64::MAX - 39, DONE, DonateErrors::Overflow),
        // What is refused is refused whether or not funds could have moved.
        (0, 0, FAILED, DonateErrors::ZeroAmount),
        (3, 10, FAILED, DonateErrors::IdAheadOfCounter),
    ];
    for (id, amount, transfer, expected) in cases {
        let mut ctx = before;
        assert_eq!(send(&mut ctx, id, amount, transfer, 0), Err(expected));
        assert_eq!(ctx, before);
    }
}

#[test]
fn send_takes_the_largest_amount_that_fits() {
    let mut ctx = Send {
        donator_acc: Donator { address: key(8), amount: 0 },
        donate_platform: campaign(u64::MAX, 39, 2),
        donator: key(5),
    };
    let receipt = send(&mut ctx, 0, u64::MAX - 39, DONE, 0).unwrap();
    assert_eq!(receipt.collected, u64::MAX);
    assert_eq!(ctx.donate_platform.collected, u64::MAX);
    assert_eq!(ctx.donator_acc.amount, u64::MAX - 39);
}

#[test]
fn record_total_that_would_overflow_is_refused() {
    let record = Donator { address: key(8), amount: u64::MAX - 5 };
    let before = Send { donator_acc: record, donate_platform: campaign(1000, 0, 2), donator: key(5) };
    let mut ctx = before;
    assert_eq!(send(&mut ctx, 1, 6, DONE, 0), Err(DonateErrors::Overflow));
    assert_eq!(ctx, before);
    assert_eq!(send(&mut ctx, 1, 5, DONE, 0).unwrap().collected, 5);
    assert_eq!(ctx.donator_acc.amount, u64::MAX);
    // A new record starts from nothing, whatever stood in its place.
    let mut fresh = before;
    assert_eq!(send(&mut fresh, 2, 6, DONE, 0).unwrap().id, 2);
    assert_eq!(fresh.donator_acc, Donator { address: key(5), amount: 6 });
}

#[test]
fn counter_at_its_limit_takes_no_new_record() {
    let record = Donator { address: key(8), amount: 1 };
    let before = Send {
        donator_acc: record,
        donate_platform: campaign(1000, 0, u64::MAX),
        donator: key(5),
    };
    let mut ctx = before;
    assert_eq!(send(&mut ctx, 0, 6, DONE, 0), Err(DonateErrors::Overflow));
    assert_eq!(send(&mut ctx, u64::MAX, 6, DONE, 0), Err(DonateErrors::Overflow));
    assert_eq!(ctx, before);
    assert_eq!(send(&mut ctx, 9, 6, DONE, 0).unwrap().id, 9);
    assert_eq!(ctx.donate_platform.id_counter, u64::MAX);
}

#[test]
fn target_gate_shuts_once_the_target_is_met() {
    let mut ledger = Ledger::create_campaign(key(1), 500).unwrap();
    ledger.contribute(0, 499, key(2), DONE, 0).unwrap();
    ledger.contribute(0, 1, key(2), DONE, 0).unwrap();
    assert_eq!(ledger.platform().collected, 500);
    for amount in [1u64, 2, 500, u64::MAX] {
        for id in [0u64, 1, 2] {
            for transfer in [DONE, FAILED] {
                assert_eq!(
                    ledger.contribute(id, amount, key(3), transfer, 0),
                    Err(DonateErrors::TargetReached)
                );
            }
        }
    }
    assert_eq!(ledger.platform().collected, 500);
    assert_eq!(ledger.platform().id_counter, 2);
    assert_eq!(ledger.check_contribute(0, 1), Err(DonateErrors::TargetReached));
}

#[test]
fn ledger_refuses_what_check_send_refuses() {
    let mut ledger = Ledger::create_campaign(key(1), 500).unwrap();
    assert_eq!(ledger.check_contribute(0, 5), Ok(RecordChoice::NewRecord { id: 0 }));
    assert_eq!(ledger.check_contribute(1, 5), Err(DonateErrors::IdAheadOfCounter));
    assert_eq!(ledger.contribute(1, 5, key(2), DONE, 0), Err(DonateErrors::IdAheadOfCounter));
    assert_eq!(ledger.contribute(0, 0, key(2), DONE, 0), Err(DonateErrors::ZeroAmount));
    assert_eq!(ledger.contribute(0, 5, key(2), FAILED, 0), Err(DonateErrors::TransferFailed));
    assert_eq!(ledger.platform().id_counter, 0);
    assert_eq!(ledger.donator(0), None);
    ledger.contribute(0, 5, key(2), DONE, 0).unwrap();
    ledger.contribute(0, 5, key(2), DONE, 0).unwrap();
    assert_eq!(ledger.check_contribute(1, 5), Ok(RecordChoice::ExistingRecord { id: 1 }));
    assert_eq!(ledger.check_contribute(2, 5), Ok(RecordChoice::NewRecord { id: 2 }));
    assert_eq!(ledger.check_contribute(3, 5), Err(DonateErrors::IdAheadOfCounter));
}

#[test]
fn ledger_refuses_a_record_total_that_would_overflow() {
    let owner = key(1);
    let mut ledger = Ledger::create_campaign(owner, u64::MAX).unwrap();
    ledger.contribute(0, 1, key(2), DONE, 0).unwrap();
    ledger.contribute(1, u64::MAX - 10, key(2), DONE, 0).unwrap();
    assert_eq!(ledger.contribute(1, 10, key(2), DONE, 0), Err(DonateErrors::Overflow));
    ledger.withdraw(owner, 10, 0, DONE, 0).unwrap();
    // The campaign starts again from nothing; the record does not.
    assert_eq!(ledger.contribute(1, 11, key(2), DONE, 0), Err(DonateErrors::Overflow));
    assert_eq!(ledger.contribute(1, 10, key(2), DONE, 0).unwrap().collected, 10);
    assert_eq!(ledger.donator(1).unwrap().amount, u64::MAX);
}
