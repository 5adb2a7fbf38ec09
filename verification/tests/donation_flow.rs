use fundraiser::error::FundRaisingError;
use fundraiser::escrow::PurseAccessError;
use fundraiser::identity::{AccountId, DonorKey};
use fundraiser::service::DonationContract;

fn account(tag: u64) -> AccountId {
    AccountId { w0: tag, w1: 0xfeed, w2: 0xbeef, w3: tag.wrapping_mul(31) }
}

#[test]
fn never_donated_reads_zero() {
    let mut c = DonationContract::new();
    c.init();
    let b = DonorKey::Account(account(2));
    assert_eq!(c.get_donation_count(b), Ok(0));
}

#[test]
fn repeated_donations_accumulate() {
    let mut c = DonationContract::new();
    c.init();
    let a = DonorKey::Account(account(1));
    for expected in 1..=5u64 {
        assert!(c.donate(a).is_ok());
        assert_eq!(c.get_donation_count(a), Ok(expected));
    }
}

#[test]
fn donations_of_distinct_donors_are_independent() {
    let mut c = DonationContract::new();
    c.init();
    let a = DonorKey::Account(account(1));
    let b = DonorKey::Account(account(2));
    assert!(c.donate(a).is_ok());
    assert!(c.donate(a).is_ok());
    assert!(c.donate(b).is_ok());
    assert_eq!(c.get_donation_count(a), Ok(2));
    assert_eq!(c.get_donation_count(b), Ok(1));
}

#[test]
fn funds_raised_is_nondecreasing_across_deposits() {
    let mut c = DonationContract::new();
    c.init();
    let a = DonorKey::Account(account(7));
    let cap = c.donate(a).unwrap();
    let mut last: u128 = c.get_funds_raised().unwrap();
    for amount in [0u64, 13, 5, 100] {
        assert!(c.deposit(&cap, amount).is_ok());
        let now = c.get_funds_raised().unwrap();
        assert!(now >= last);
        assert_eq!(now, last + amount as u128);
        last = now;
    }
    assert_eq!(last, 118);
}

#[test]
fn capability_is_deposit_only() {
    let mut c = DonationContract::new();
    c.init();
    let a = DonorKey::Account(account(9));
    let cap = c.donate(a).unwrap();
    assert!(cap.is_addable());
    assert!(!cap.is_writeable());
    assert!(!cap.is_readable());

    assert_eq!(c.deposit(&cap, 40), Ok(()));
    assert_eq!(c.withdraw(&cap, 10), Err(PurseAccessError::ForgedReference));
    assert_eq!(c.balance_through(&cap), Err(PurseAccessError::ForgedReference));
    assert_eq!(c.get_funds_raised(), Ok(40));
}

#[test]
fn invalid_identity_is_rejected_and_mutates_nothing() {
    let mut c = DonationContract::new();
    c.init();
    let a = DonorKey::Account(account(4));
    assert!(c.donate(a).is_ok());
    assert_eq!(c.donate(DonorKey::Other), Err(FundRaisingError::InvalidKeyVariant));
    assert_eq!(
        c.get_donation_count(DonorKey::Other),
        Err(FundRaisingError::InvalidKeyVariant)
    );
    assert_eq!(c.get_donation_count(a), Ok(1));
    assert_eq!(c.get_funds_raised(), Ok(0));
}

#[test]
fn operations_before_init_fail_with_missing_resource() {
    let mut c = DonationContract::new();
    let a = DonorKey::Account(account(3));
    assert_eq!(c.donate(a), Err(FundRaisingError::MissingLedgerSeedURef));
    assert_eq!(
        c.get_donation_count(a),
        Err(FundRaisingError::MissingLedgerSeedURef)
    );
    assert_eq!(
        c.get_funds_raised(),
        Err(FundRaisingError::MissingFundRaisingPurseURef)
    );
}

#[test]
fn full_donation_scenario() {
    let mut c = DonationContract::new();
    c.init();
    let a = DonorKey::Account(account(10));
    let b = DonorKey::Account(account(11));

    let cap = c.donate(a).unwrap();
    assert_eq!(c.get_donation_count(a), Ok(1));

    assert_eq!(c.deposit(&cap, 100), Ok(()));
    assert_eq!(c.get_funds_raised(), Ok(100));

    assert!(c.donate(a).is_ok());
    assert_eq!(c.get_donation_count(a), Ok(2));

    assert_eq!(c.get_funds_raised(), Ok(100));
    assert_eq!(c.get_donation_count(b), Ok(0));
}

#[test]
fn reinitialization_orphans_old_capabilities() {
    let mut c = DonationContract::new();
    c.init();
    let a = DonorKey::Account(account(12));
    let old_cap = c.donate(a).unwrap();

    c.init();
    assert_eq!(c.get_donation_count(a), Ok(0));
    assert_eq!(
        c.deposit(&old_cap, 50),
        Err(PurseAccessError::ForgedReference)
    );
    assert_eq!(c.get_funds_raised(), Ok(0));

    let new_cap = c.donate(a).unwrap();
    assert_eq!(c.deposit(&new_cap, 50), Ok(()));
    assert_eq!(c.get_funds_raised(), Ok(50));
}

#[test]
fn deposit_without_escrow_is_refused() {
    let mut c = DonationContract::new();
    c.init();
    let a = DonorKey::Account(account(13));
    let cap = c.donate(a).unwrap();
    let mut fresh = DonationContract::new();
    assert_eq!(
        fresh.deposit(&cap, 5),
        Err(PurseAccessError::ForgedReference)
    );
}
