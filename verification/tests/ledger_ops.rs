use token_ledger::Error;
use token_ledger::Event;
use token_ledger::Pallet;

const A: u64 = 1;
const B: u64 = 2;
const C: u64 = 3;

#[test]
fn fresh_ledger_reads_zero() {
    let ledger = Pallet::new();
    assert_eq!(ledger.balance_of(A), 0);
    assert_eq!(ledger.balance_of(B), 0);
    assert_eq!(ledger.balance_of(u64::MAX), 0);
    assert_eq!(ledger.total_supply(), 0);
    assert_eq!(ledger.get_balance_of(A), None);
    assert_eq!(ledger.get_total_supply(), None);
    assert_eq!(ledger.get_allowance(A, B), None);
}

#[test]
fn set_balance_then_balance_of() {
    let mut ledger = Pallet::new();
    ledger.set_balance(A, 0);
    assert_eq!(ledger.balance_of(A), 0);
    ledger.set_balance(A, 1);
    assert_eq!(ledger.balance_of(A), 1);
    ledger.set_balance(A, 12345);
    assert_eq!(ledger.balance_of(A), 12345);
    ledger.set_balance(A, u64::MAX);
    assert_eq!(ledger.balance_of(A), u64::MAX);
}

#[test]
fn set_balance_returns_event_and_creates_entry() {
    let mut ledger = Pallet::new();
    let ev = ledger.set_balance(B, 0);
    assert_eq!(ev, Event::BalanceSet { who: B, balance: 0 });
    assert_eq!(ledger.get_balance_of(B), Some(0));
}

#[test]
fn transfer_moves_and_conserves() {
    let mut ledger = Pallet::new();
    ledger.set_balance(A, 1000);
    ledger.set_balance(B, 5);
    let r = ledger.transfer(A, B, 300);
    assert_eq!(r, Ok(Event::Transfer { from: A, to: B, value: 300 }));
    assert_eq!(ledger.balance_of(A), 700);
    assert_eq!(ledger.balance_of(B), 305);
    assert_eq!(ledger.balance_of(A) + ledger.balance_of(B), 1005);
}

#[test]
fn transfer_of_zero_from_zero_entry_succeeds() {
    let mut ledger = Pallet::new();
    ledger.set_balance(A, 0);
    let r = ledger.transfer(A, B, 0);
    assert_eq!(r, Ok(Event::Transfer { from: A, to: B, value: 0 }));
    assert_eq!(ledger.get_balance_of(B), Some(0));
}

#[test]
fn transfer_insufficient_funds_keeps_source_and_zero_touches_destination() {
    let mut ledger = Pallet::new();
    ledger.set_balance(A, 10);
    let r = ledger.transfer(A, B, 11);
    assert_eq!(r, Err(Error::InsufficientFunds));
    assert_eq!(ledger.balance_of(A), 10);
    // The destination entry was created with value zero even though the
    // transfer failed afterwards.
    assert_eq!(ledger.get_balance_of(B), Some(0));
}

#[test]
fn transfer_missing_source_mutates_nothing() {
    let mut ledger = Pallet::new();
    let r = ledger.transfer(A, B, 5);
    assert_eq!(r, Err(Error::InsufficientFunds));
    assert_eq!(ledger.get_balance_of(A), None);
    assert_eq!(ledger.get_balance_of(B), None);
}

#[test]
fn transfer_overflow_is_rejected() {
    let mut ledger = Pallet::new();
    ledger.set_balance(A, 10);
    ledger.set_balance(B, u64::MAX);
    let r = ledger.transfer(A, B, 5);
    assert_eq!(r, Err(Error::StorageOverflow));
    assert_eq!(ledger.balance_of(A), 10);
    assert_eq!(ledger.balance_of(B), u64::MAX);
}

#[test]
fn transfer_to_self_conserves() {
    let mut ledger = Pallet::new();
    ledger.set_balance(A, 100);
    let r = ledger.transfer(A, A, 30);
    assert_eq!(r, Ok(Event::Transfer { from: A, to: A, value: 30 }));
    // The credit is computed after the debit, so a self-transfer nets out.
    assert_eq!(ledger.balance_of(A), 100);
}

#[test]
fn approve_to_self_conserves_and_records_allowance() {
    let mut ledger = Pallet::new();
    ledger.set_balance(A, 100);
    let r = ledger.approve(A, A, 40);
    assert_eq!(r, Ok(Event::Approval { from: A, to: A, value: 40 }));
    assert_eq!(ledger.balance_of(A), 100);
    assert_eq!(ledger.get_allowance(A, A), Some(40));
}

#[test]
fn transfer_from_self_pair_conserves_and_spends_allowance() {
    let mut ledger = Pallet::new();
    ledger.set_balance(A, 100);
    ledger.approve(A, A, 40).unwrap();
    let r = ledger.transfer_from(A, A, 25);
    assert_eq!(r, Ok(Event::TransferFrom { from: A, to: A, value: 25 }));
    assert_eq!(ledger.balance_of(A), 100);
    assert_eq!(ledger.get_allowance(A, A), Some(15));
}

#[test]
fn approve_moves_funds_and_records_allowance() {
    let mut ledger = Pallet::new();
    ledger.set_balance(A, 500);
    let r = ledger.approve(A, B, 200);
    assert_eq!(r, Ok(Event::Approval { from: A, to: B, value: 200 }));
    assert_eq!(ledger.balance_of(A), 300);
    assert_eq!(ledger.balance_of(B), 200);
    assert_eq!(ledger.get_allowance(A, B), Some(200));
    // The pair is ordered: nothing was granted in the other direction.
    assert_eq!(ledger.get_allowance(B, A), None);
}

#[test]
fn approve_insufficient_funds_records_nothing() {
    let mut ledger = Pallet::new();
    ledger.set_balance(A, 100);
    let r = ledger.approve(A, B, 101);
    assert_eq!(r, Err(Error::InsufficientFunds));
    assert_eq!(ledger.balance_of(A), 100);
    assert_eq!(ledger.get_allowance(A, B), None);
    assert_eq!(ledger.get_balance_of(B), Some(0));
}

#[test]
fn approve_missing_source_is_rejected() {
    let mut ledger = Pallet::new();
    let r = ledger.approve(A, B, 1);
    assert_eq!(r, Err(Error::InsufficientFunds));
    assert_eq!(ledger.get_balance_of(A), None);
}

#[test]
fn approve_overwrites_prior_allowance() {
    let mut ledger = Pallet::new();
    ledger.set_balance(A, 1000);
    ledger.approve(A, B, 200).unwrap();
    ledger.approve(A, B, 30).unwrap();
    // The second grant replaces the first; the two grants do not accumulate.
    assert_eq!(ledger.get_allowance(A, B), Some(30));
}

#[test]
fn approve_overflow_is_rejected() {
    let mut ledger = Pallet::new();
    ledger.set_balance(A, 10);
    ledger.set_balance(B, u64::MAX);
    let r = ledger.approve(A, B, 5);
    assert_eq!(r, Err(Error::StorageOverflow));
    assert_eq!(ledger.balance_of(A), 10);
    assert_eq!(ledger.balance_of(B), u64::MAX);
    assert_eq!(ledger.get_allowance(A, B), None);
}

#[test]
fn transfer_from_spends_allowance() {
    let mut ledger = Pallet::new();
    ledger.set_balance(A, 1000);
    ledger.approve(A, B, 100).unwrap();
    let r = ledger.transfer_from(A, B, 60);
    assert_eq!(r, Ok(Event::TransferFrom { from: A, to: B, value: 60 }));
    assert_eq!(ledger.balance_of(A), 840);
    assert_eq!(ledger.balance_of(B), 160);
    assert_eq!(ledger.get_allowance(A, B), Some(40));
}

#[test]
fn transfer_from_missing_source_is_rejected() {
    let mut ledger = Pallet::new();
    let r = ledger.transfer_from(A, B, 1);
    assert_eq!(r, Err(Error::InsufficientFunds));
    assert_eq!(ledger.get_balance_of(A), None);
}

#[test]
fn transfer_from_insufficient_funds_wins_over_allowance() {
    let mut ledger = Pallet::new();
    ledger.set_balance(A, 200);
    ledger.approve(A, B, 150).unwrap();
    // A now holds 50: the funds check fails before the allowance is read.
    let r = ledger.transfer_from(A, B, 60);
    assert_eq!(r, Err(Error::InsufficientFunds));
    assert_eq!(ledger.balance_of(A), 50);
    assert_eq!(ledger.get_allowance(A, B), Some(150));
}

#[test]
fn transfer_from_without_allowance_is_rejected() {
    let mut ledger = Pallet::new();
    ledger.set_balance(A, 100);
    ledger.set_balance(B, 0);
    let r = ledger.transfer_from(A, B, 10);
    assert_eq!(r, Err(Error::ApprovalNotGranted));
    assert_eq!(ledger.balance_of(A), 100);
    assert_eq!(ledger.balance_of(B), 0);
}

#[test]
fn transfer_from_exhausted_allowance_mutates_nothing() {
    let mut ledger = Pallet::new();
    ledger.set_balance(A, 1000);
    ledger.approve(A, B, 50).unwrap();
    let r = ledger.transfer_from(A, B, 60);
    assert_eq!(r, Err(Error::ApprovalNotGranted));
    assert_eq!(ledger.balance_of(A), 950);
    assert_eq!(ledger.balance_of(B), 50);
    assert_eq!(ledger.get_allowance(A, B), Some(50));
}

#[test]
fn transfer_from_zero_touches_both_ends() {
    let mut ledger = Pallet::new();
    ledger.set_balance(A, 10);
    // No allowance exists, so the call fails, but C was touched first.
    let r = ledger.transfer_from(A, C, 5);
    assert_eq!(r, Err(Error::ApprovalNotGranted));
    assert_eq!(ledger.get_balance_of(C), Some(0));
}

#[test]
fn transfer_from_keeps_exhausted_allowance_entry() {
    let mut ledger = Pallet::new();
    ledger.set_balance(A, 1000);
    ledger.approve(A, B, 100).unwrap();
    ledger.transfer_from(A, B, 100).unwrap();
    // Consuming the whole allowance leaves a zero entry, not an absent one.
    assert_eq!(ledger.get_allowance(A, B), Some(0));
}

#[test]
fn transfer_from_overflow_is_rejected() {
    let mut ledger = Pallet::new();
    ledger.set_balance(A, 1000);
    ledger.approve(A, B, 50).unwrap();
    // Push the destination to the top of the range after the grant.
    ledger.set_balance(B, u64::MAX);
    let r = ledger.transfer_from(A, B, 10);
    assert_eq!(r, Err(Error::StorageOverflow));
    assert_eq!(ledger.balance_of(A), 950);
    assert_eq!(ledger.balance_of(B), u64::MAX);
    assert_eq!(ledger.get_allowance(A, B), Some(50));
}

#[test]
fn queries_are_idempotent() {
    let mut ledger = Pallet::new();
    ledger.set_balance(A, 77);
    let first = ledger.balance_of(A);
    let second = ledger.balance_of(A);
    let third = ledger.balance_of(A);
    assert_eq!(first, 77);
    assert_eq!(first, second);
    assert_eq!(second, third);
    assert_eq!(ledger.total_supply(), ledger.total_supply());
    assert_eq!(ledger.get_balance_of(B), ledger.get_balance_of(B));
}
