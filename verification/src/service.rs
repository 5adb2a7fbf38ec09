//! The donation service: the four host-facing operations over one counter
//! ledger and one escrow account.
//!
//! The service starts uninitialized. `init` installs a fresh escrow account
//! and a fresh, empty ledger; every other operation demands both and aborts
//! with a missing-resource error otherwise. `donate` records the donor's
//! intent in the ledger and hands back a deposit-only capability; the value
//! transfer itself happens later, through that capability.

use vstd::prelude::*;

verus! {

use crate::error::FundRaisingError;
use crate::escrow::{EscrowAccount, PurseAccessError, PurseRef};
use crate::identity::{AccountId, DonorKey};
use crate::ledger::CounterLedger;

/// Process-wide state of the donation system: the two named resources the
/// host keeps between calls, plus the supply of fresh purse addresses.
pub struct DonationContract {
    next_purse_id: u64,
    fundraising_purse: Option<EscrowAccount>,
    ledger: Option<CounterLedger>,
}

impl DonationContract {
    /// Structural well-formedness: the ledger's keys are distinct, and the
    /// installed purse's address was drawn from the fresh supply, so no
    /// address is ever issued twice.
    pub closed spec fn wf(self) -> bool {
        &&& (self.ledger matches Some(l) ==> l.wf())
        &&& (self.fundraising_purse matches Some(e) ==> e.spec_purse_id() < self.next_purse_id)
    }

    /// Whether `init` has installed both named resources.
    pub closed spec fn spec_initialized(self) -> bool {
        self.fundraising_purse is Some && self.ledger is Some
    }

    /// Whether the escrow account is installed.
    pub closed spec fn spec_has_purse(self) -> bool {
        self.fundraising_purse is Some
    }

    /// Whether the counter ledger is installed.
    pub closed spec fn spec_has_ledger(self) -> bool {
        self.ledger is Some
    }

    /// The donation count recorded for `id` (zero while no ledger exists or
    /// while `id` was never recorded).
    pub closed spec fn spec_count(self, id: AccountId) -> u64 {
        match self.ledger {
            Some(l) => l.spec_count(id),
            None => 0u64,
        }
    }

    /// Whether a ledger entry for `id` has ever been materialized.
    pub closed spec fn spec_has_donor(self, id: AccountId) -> bool {
        match self.ledger {
            Some(l) => l.spec_has(id),
            None => false,
        }
    }

    /// The funds the escrow account holds (zero while none exists).
    pub closed spec fn spec_funds(self) -> u128 {
        match self.fundraising_purse {
            Some(e) => e.spec_balance(),
            None => 0u128,
        }
    }

    /// The address of the installed escrow purse.
    pub closed spec fn spec_purse_id(self) -> u64
        recommends
            self.spec_has_purse(),
    {
        self.fundraising_purse->Some_0.spec_purse_id()
    }

    /// Whether `cap` is a capability usable to deposit into the currently
    /// installed escrow account.
    pub open spec fn spec_accepts_deposit(self, cap: PurseRef) -> bool {
        self.spec_has_purse() && cap.spec_purse_id() == self.spec_purse_id()
            && cap.spec_rights().add
    }

    /// Whether `cap` could lower the installed escrow account's balance.
    pub open spec fn spec_accepts_withdraw(self, cap: PurseRef) -> bool {
        self.spec_has_purse() && cap.spec_purse_id() == self.spec_purse_id()
            && cap.spec_rights().write
    }

    /// Whether `cap` could read the installed escrow account's balance.
    pub open spec fn spec_accepts_read(self, cap: PurseRef) -> bool {
        self.spec_has_purse() && cap.spec_purse_id() == self.spec_purse_id()
            && cap.spec_rights().read
    }

    /// A system on which no operation has run yet: uninitialized, nothing
    /// recorded, nothing held.
    pub fn new() -> (r: Self)
        ensures
            r.wf(),
            !r.spec_initialized(),
            !r.spec_has_purse(),
            !r.spec_has_ledger(),
            forall|id: AccountId| r.spec_count(id) == 0,
            forall|id: AccountId| !r.spec_has_donor(id),
            r.spec_funds() == 0,
            r.spec_next_purse_id() == 0,
    {
        DonationContract { next_purse_id: 0, fundraising_purse: None, ledger: None }
    }

    /// Installs the donation system: a fresh, empty escrow account under a
    /// fresh purse address, and a fresh, empty ledger. A repeated call is
    /// not refused; it installs fresh resources and orphans the old ones,
    /// so capabilities issued before it no longer reach the escrow.
    pub fn init(&mut self)
        requires
            old(self).wf(),
            old(self).spec_next_purse_id() < u64::MAX,
        ensures
            final(self).wf(),
            final(self).spec_initialized(),
            final(self).spec_funds() == 0,
            forall|id: AccountId| final(self).spec_count(id) == 0,
            forall|id: AccountId| !final(self).spec_has_donor(id),
            old(self).spec_has_purse() ==> final(self).spec_purse_id() != old(
                self,
            ).spec_purse_id(),
            final(self).spec_next_purse_id() == old(self).spec_next_purse_id() + 1,
    {
        let purse_id = self.next_purse_id;
        self.next_purse_id = self.next_purse_id + 1;
        self.fundraising_purse = Some(EscrowAccount::create(purse_id));
        self.ledger = Some(CounterLedger::create());
    }

    /// The next fresh purse address.
    pub closed spec fn spec_next_purse_id(self) -> u64 {
        self.next_purse_id
    }

    /// Records one donation by the account behind `donating_account_key`
    /// and issues a deposit-only capability for the escrow account.
    ///
    /// Fails with `InvalidKeyVariant` when the reference is not of the
    /// account kind, with `MissingLedgerSeedURef` when no ledger is
    /// installed, and with `MissingFundRaisingPurseURef` when no escrow
    /// account is installed. A failed call changes nothing; a successful
    /// call raises the donor's count by exactly one, touches no other
    /// donor's record, and moves no funds.
    pub fn donate(&mut self, donating_account_key: DonorKey) -> (r: Result<
        PurseRef,
        FundRaisingError,
    >)
        requires
            old(self).wf(),
            donating_account_key.is_account() && old(self).spec_initialized() ==> old(
                self,
            ).spec_count(donating_account_key.spec_account_id()) < u64::MAX,
        ensures
            final(self).wf(),
            r is Ok <==> donating_account_key.is_account() && old(self).spec_initialized(),
            !donating_account_key.is_account() ==> r == Err::<PurseRef, FundRaisingError>(
                FundRaisingError::InvalidKeyVariant,
            ),
            donating_account_key.is_account() && !old(self).spec_has_ledger() ==> r == Err::<
                PurseRef,
                FundRaisingError,
            >(FundRaisingError::MissingLedgerSeedURef),
            donating_account_key.is_account() && old(self).spec_has_ledger() && !old(
                self,
            ).spec_has_purse() ==> r == Err::<PurseRef, FundRaisingError>(
                FundRaisingError::MissingFundRaisingPurseURef,
            ),
            r is Err ==> *final(self) == *old(self),
            final(self).spec_next_purse_id() == old(self).spec_next_purse_id(),
            r is Ok ==> final(self).spec_has_purse() && final(self).spec_purse_id() == old(
                self,
            ).spec_purse_id() && final(self).spec_has_ledger(),
            r matches Ok(cap) ==> {
                &&& cap.is_deposit_only()
                &&& cap.spec_purse_id() == old(self).spec_purse_id()
                &&& final(self).spec_count(donating_account_key.spec_account_id()) == old(
                    self,
                ).spec_count(donating_account_key.spec_account_id()) + 1
                &&& final(self).spec_has_donor(donating_account_key.spec_account_id())
                &&& donate_step(*old(self), *final(self), donating_account_key.spec_account_id())
            },
    {
        let id = match donating_account_key.validate() {
            Ok(id) => id,
            Err(e) => {
                return Err(e);
            },
        };
        if self.ledger.is_none() {
            return Err(FundRaisingError::MissingLedgerSeedURef);
        }
        if self.fundraising_purse.is_none() {
            return Err(FundRaisingError::MissingFundRaisingPurseURef);
        }
        match &mut self.ledger {
            Some(l) => l.increment(id),
            None => (),
        }
        match &self.fundraising_purse {
            Some(e) => Ok(e.issue_deposit_capability()),
            None => Err(FundRaisingError::MissingFundRaisingPurseURef),
        }
    }

    /// The donation count recorded for the account behind
    /// `donating_account_key`: zero for a donor that never donated.
    ///
    /// Fails with `InvalidKeyVariant` when the reference is not of the
    /// account kind and with `MissingLedgerSeedURef` when no ledger is
    /// installed. Read-only.
    pub fn get_donation_count(&self, donating_account_key: DonorKey) -> (r: Result<
        u64,
        FundRaisingError,
    >)
        ensures
            r is Ok <==> donating_account_key.is_account() && self.spec_has_ledger(),
            !donating_account_key.is_account() ==> r == Err::<u64, FundRaisingError>(
                FundRaisingError::InvalidKeyVariant,
            ),
            donating_account_key.is_account() && !self.spec_has_ledger() ==> r == Err::<
                u64,
                FundRaisingError,
            >(FundRaisingError::MissingLedgerSeedURef),
            r matches Ok(c) ==> c == self.spec_count(donating_account_key.spec_account_id()),
    {
        let id = match donating_account_key.validate() {
            Ok(id) => id,
            Err(e) => {
                return Err(e);
            },
        };
        match &self.ledger {
            Some(l) => Ok(l.get(id)),
            None => Err(FundRaisingError::MissingLedgerSeedURef),
        }
    }

    /// The total funds the escrow account holds.
    ///
    /// Fails with `MissingFundRaisingPurseURef` when no escrow account is
    /// installed. Read-only.
    pub fn get_funds_raised(&self) -> (r: Result<u128, FundRaisingError>)
        ensures
            r is Ok <==> self.spec_has_purse(),
            self.spec_has_purse() ==> r == Ok::<u128, FundRaisingError>(self.spec_funds()),
            !self.spec_has_purse() ==> r == Err::<u128, FundRaisingError>(
                FundRaisingError::MissingFundRaisingPurseURef,
            ),
    {
        match &self.fundraising_purse {
            Some(e) => Ok(e.balance()),
            None => Err(FundRaisingError::MissingFundRaisingPurseURef),
        }
    }

    /// Deposits `amount` into the escrow account through `cap`: the value
    /// transfer a capability holder performs after `donate`. Succeeds
    /// exactly when an escrow account is installed and `cap` is bound to it
    /// with the add right; a refused attempt changes nothing. The recorded
    /// funds never decrease, and no donation count moves.
    pub fn deposit(&mut self, cap: &PurseRef, amount: u64) -> (r: Result<(), PurseAccessError>)
        requires
            old(self).wf(),
            old(self).spec_accepts_deposit(*cap) ==> old(self).spec_funds() + amount
                <= u128::MAX,
        ensures
            final(self).wf(),
            final(self).spec_has_purse() == old(self).spec_has_purse(),
            old(self).spec_has_purse() ==> final(self).spec_purse_id() == old(
                self,
            ).spec_purse_id(),
            final(self).spec_has_ledger() == old(self).spec_has_ledger(),
            final(self).spec_next_purse_id() == old(self).spec_next_purse_id(),
            r is Ok <==> old(self).spec_accepts_deposit(*cap),
            old(self).spec_accepts_deposit(*cap) ==> final(self).spec_funds() == old(
                self,
            ).spec_funds() + amount && deposit_step(*old(self), *final(self), amount),
            !old(self).spec_accepts_deposit(*cap) ==> r == Err::<(), PurseAccessError>(
                PurseAccessError::ForgedReference,
            ) && *final(self) == *old(self),
            final(self).spec_funds() >= old(self).spec_funds(),
            forall|id: AccountId| final(self).spec_count(id) == old(self).spec_count(id),
    {
        match &mut self.fundraising_purse {
            Some(e) => e.deposit_via(cap, amount),
            None => Err(PurseAccessError::ForgedReference),
        }
    }

    /// Attempts to take `amount` back out of the escrow account through
    /// `cap`. Refused, with nothing changed, unless `cap` grants the write
    /// right on the installed purse; no capability this service issues ever
    /// does.
    pub fn withdraw(&mut self, cap: &PurseRef, amount: u64) -> (r: Result<(), PurseAccessError>)
        requires
            old(self).wf(),
        ensures
            final(self).wf(),
            final(self).spec_has_purse() == old(self).spec_has_purse(),
            old(self).spec_has_purse() ==> final(self).spec_purse_id() == old(
                self,
            ).spec_purse_id(),
            final(self).spec_has_ledger() == old(self).spec_has_ledger(),
            final(self).spec_next_purse_id() == old(self).spec_next_purse_id(),
            !old(self).spec_accepts_withdraw(*cap) ==> r == Err::<(), PurseAccessError>(
                PurseAccessError::ForgedReference,
            ) && *final(self) == *old(self),
            !cap.spec_rights().write ==> r is Err && *final(self) == *old(self),
            old(self).spec_accepts_withdraw(*cap) ==> final(self).spec_funds() == (if amount
                <= old(self).spec_funds() {
                old(self).spec_funds() - amount
            } else {
                old(self).spec_funds() as int
            }),
            forall|id: AccountId| final(self).spec_count(id) == old(self).spec_count(id),
    {
        match &mut self.fundraising_purse {
            Some(e) => e.withdraw_via(cap, amount),
            None => Err(PurseAccessError::ForgedReference),
        }
    }

    /// Attempts to read the escrow balance through `cap`. Refused unless
    /// `cap` grants the read right on the installed purse; no capability
    /// this service issues ever does.
    pub fn balance_through(&self, cap: &PurseRef) -> (r: Result<u128, PurseAccessError>)
        ensures
            r is Ok <==> self.spec_accepts_read(*cap),
            !self.spec_accepts_read(*cap) ==> r == Err::<u128, PurseAccessError>(
                PurseAccessError::ForgedReference,
            ),
            r matches Ok(b) ==> b == self.spec_funds(),
    {
        match &self.fundraising_purse {
            Some(e) => e.balance_via(cap),
            None => Err(PurseAccessError::ForgedReference),
        }
    }
}

/// One successful donation by `id`: the system stays initialized, `id`'s
/// count grows by exactly one, no other donor's count moves, and no funds
/// move.
pub open spec fn donate_step(pre: DonationContract, post: DonationContract, id: AccountId) -> bool {
    &&& pre.spec_initialized()
    &&& post.spec_initialized()
    &&& post.spec_count(id) == pre.spec_count(id) + 1
    &&& forall|o: AccountId| o != id ==> post.spec_count(o) == pre.spec_count(o)
    &&& post.spec_funds() == pre.spec_funds()
}

/// One successful deposit of `amount` through an issued capability: the
/// escrow balance grows by exactly `amount` and no donation count moves.
pub open spec fn deposit_step(pre: DonationContract, post: DonationContract, amount: u64) -> bool {
    &&& post.spec_funds() == pre.spec_funds() + amount
    &&& forall|id: AccountId| post.spec_count(id) == pre.spec_count(id)
}

/// A capability as issued by `donate` — bound to the installed purse and
/// carrying the add right alone — can deposit into the escrow account, and
/// every attempt to lower or to read its balance through that capability is
/// refused.
pub proof fn lemma_donated_capability_is_deposit_only(c: DonationContract, cap: PurseRef)
    requires
        c.spec_has_purse(),
        cap.spec_purse_id() == c.spec_purse_id(),
        cap.is_deposit_only(),
    ensures
        c.spec_accepts_deposit(cap),
        !c.spec_accepts_withdraw(cap),
        !c.spec_accepts_read(cap),
{
}

/// A donor that never donated reads as count zero.
pub proof fn lemma_never_donated_count_is_zero(c: DonationContract, id: AccountId)
    requires
        !c.spec_has_donor(id),
    ensures
        c.spec_count(id) == 0,
{
    match c.ledger {
        Some(l) => {
            crate::ledger::lemma_absent_count_zero(l, id);
        },
        None => (),
    }
}

/// After `n` consecutive successful donations by the same donor, the
/// donor's count has grown by exactly `n`: `chain` is the run of states,
/// each consecutive pair one donation.
pub proof fn lemma_donation_count_after_repeats(chain: Seq<DonationContract>, id: AccountId)
    requires
        chain.len() >= 1,
        forall|k: int| 0 <= k < chain.len() - 1 ==> donate_step(#[trigger] chain[k], chain[k + 1], id),
    ensures
        chain.last().spec_count(id) == chain.first().spec_count(id) + chain.len() - 1,
    decreases chain.len(),
{
    if chain.len() > 1 {
        let prefix = chain.drop_last();
        assert(forall|k: int|
            0 <= k < prefix.len() - 1 ==> donate_step(#[trigger] prefix[k], prefix[k + 1], id));
        lemma_donation_count_after_repeats(prefix, id);
        assert(donate_step(chain[chain.len() - 2], chain[chain.len() - 1], id));
    }
}

/// A donor's first donations count exactly: across a run of successful
/// donations with no reinitialization, starting from a state in which the
/// donor never donated, the donor's count reads exactly the number of
/// donations made.
pub proof fn lemma_first_donations_count_exactly(chain: Seq<DonationContract>, id: AccountId)
    requires
        chain.len() >= 1,
        !chain.first().spec_has_donor(id),
        forall|k: int| 0 <= k < chain.len() - 1 ==> donate_step(#[trigger] chain[k], chain[k + 1], id),
    ensures
        chain.last().spec_count(id) == chain.len() - 1,
{
    lemma_never_donated_count_is_zero(chain.first(), id);
    lemma_donation_count_after_repeats(chain, id);
}

/// Across any run of successful deposits, the reported funds are
/// non-negative and non-decreasing: `chain` is the run of states, each
/// consecutive pair one deposit of the matching amount.
pub proof fn lemma_funds_raised_monotonic(chain: Seq<DonationContract>, amounts: Seq<u64>)
    requires
        chain.len() == amounts.len() + 1,
        forall|k: int| 0 <= k < amounts.len() ==> deposit_step(#[trigger] chain[k], chain[k + 1], amounts[k]),
    ensures
        chain.last().spec_funds() >= chain.first().spec_funds(),
        chain.last().spec_funds() >= 0,
    decreases amounts.len(),
{
    if amounts.len() > 0 {
        let prefix = chain.drop_last();
        let pre_amounts = amounts.drop_last();
        assert(forall|k: int|
            0 <= k < pre_amounts.len() ==> deposit_step(#[trigger] prefix[k], prefix[k + 1], pre_amounts[k]));
        lemma_funds_raised_monotonic(prefix, pre_amounts);
        assert(deposit_step(chain[chain.len() - 2], chain[chain.len() - 1], amounts[
            amounts.len() - 1
        ]));
    }
}

} // verus!
