use fundraiser::escrow::{EscrowAccount, PurseAccessError};
use fundraiser::identity::{AccountId, DonorKey};
use fundraiser::ledger::{count_or_default, incremented_count, CounterLedger};

fn account(tag: u64) -> AccountId {
    AccountId { w0: tag, w1: 1, w2: 2, w3: 3 }
}

#[test]
fn ledger_defaults_to_zero_and_counts_up() {
    let mut l = CounterLedger::create();
    let a = account(1);
    let b = account(2);
    assert_eq!(l.get(a), 0);
    assert_eq!(l.lookup(a), None);
    l.increment(a);
    l.increment(a);
    l.increment(b);
    assert_eq!(l.get(a), 2);
    assert_eq!(l.lookup(a), Some(2));
    assert_eq!(l.get(b), 1);
    assert_eq!(l.get(account(3)), 0);
}

#[test]
fn default_zero_reading_lives_in_one_place() {
    assert_eq!(count_or_default(None), 0);
    assert_eq!(count_or_default(Some(41)), 41);
    assert_eq!(incremented_count(None), 1);
    assert_eq!(incremented_count(Some(41)), 42);
}

#[test]
fn identity_validation_accepts_only_accounts() {
    let a = account(5);
    assert_eq!(DonorKey::Account(a).validate(), Ok(a));
    assert!(DonorKey::Other.validate().is_err());
}

#[test]
fn escrow_capability_restricts_every_other_operation() {
    let mut e = EscrowAccount::create(77);
    let cap = e.issue_deposit_capability();
    assert_eq!(cap.addr(), 77);
    assert!(cap.is_addable());
    assert!(!cap.is_writeable());
    assert!(!cap.is_readable());

    assert_eq!(e.deposit_via(&cap, 30), Ok(()));
    assert_eq!(e.balance(), 30);
    assert_eq!(
        e.withdraw_via(&cap, 10),
        Err(PurseAccessError::ForgedReference)
    );
    assert_eq!(
        e.balance_via(&cap),
        Err(PurseAccessError::ForgedReference)
    );
    assert_eq!(e.balance(), 30);
}

#[test]
fn capability_is_bound_to_its_own_purse() {
    let mut first = EscrowAccount::create(1);
    let second = EscrowAccount::create(2);
    let foreign = second.issue_deposit_capability();
    assert_eq!(
        first.deposit_via(&foreign, 5),
        Err(PurseAccessError::ForgedReference)
    );
    assert_eq!(first.balance(), 0);
}

#[test]
fn restricting_a_reference_keeps_its_address() {
    let e = EscrowAccount::create(9);
    let cap = e.issue_deposit_capability();
    let again = cap.into_add();
    assert_eq!(again.addr(), 9);
    assert!(again.is_addable());
    assert!(!again.is_writeable());
}
