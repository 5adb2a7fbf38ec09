//! The escrow account: a single balance-holding resource created once, plus
//! the capability-restricted references through which third parties touch it.
//!
//! The account itself is never handed out. Callers receive a [`PurseRef`],
//! a reference bound to the account's address carrying a set of access
//! rights; the only reference this component ever issues grants the add
//! right alone, so holders can raise the balance but can neither read nor
//! lower it.

use vstd::prelude::*;

verus! {

/// The rights a purse reference grants on the account it is bound to.
#[derive(Clone, Copy, Debug, PartialEq, Eq, Structural)]
pub struct AccessRights {
    pub read: bool,
    pub write: bool,
    pub add: bool,
}

impl AccessRights {
    /// The rights of a deposit-only capability: add, and nothing else.
    pub open spec fn spec_add_only() -> AccessRights {
        AccessRights { read: false, write: false, add: true }
    }

}

/// A reference to a purse: the purse's address together with the rights the
/// holder may exercise on it. References cannot be forged by callers; they
/// are only obtained from the component owning the account.
#[derive(Clone, Copy, Debug, PartialEq, Eq, Structural)]
pub struct PurseRef {
    purse_id: u64,
    rights: AccessRights,
}

impl PurseRef {
    /// The address of the purse this reference is bound to.
    pub closed spec fn spec_purse_id(self) -> u64 {
        self.purse_id
    }

    /// The rights this reference grants.
    pub closed spec fn spec_rights(self) -> AccessRights {
        self.rights
    }

    /// Whether this reference is a deposit-only capability: it can add to
    /// the purse and do nothing else.
    pub open spec fn is_deposit_only(self) -> bool {
        self.spec_rights() == AccessRights::spec_add_only()
    }

    pub(crate) fn make(purse_id: u64, rights: AccessRights) -> (r: PurseRef)
        ensures
            r.spec_purse_id() == purse_id,
            r.spec_rights() == rights,
    {
        PurseRef { purse_id, rights }
    }

    /// The same reference restricted to the add right alone: the derivation
    /// the account holder applies before handing a reference to a depositor.
    pub fn into_add(self) -> (r: PurseRef)
        ensures
            r.spec_purse_id() == self.spec_purse_id(),
            r.is_deposit_only(),
    {
        PurseRef { purse_id: self.purse_id, rights: AccessRights { read: false, write: false, add: true } }
    }

    /// The address of the purse this reference is bound to.
    pub fn addr(&self) -> (r: u64)
        ensures
            r == self.spec_purse_id(),
    {
        self.purse_id
    }

    /// Whether the reference grants the read right.
    pub fn is_readable(&self) -> (r: bool)
        ensures
            r == self.spec_rights().read,
    {
        self.rights.read
    }

    /// Whether the reference grants the write right.
    pub fn is_writeable(&self) -> (r: bool)
        ensures
            r == self.spec_rights().write,
    {
        self.rights.write
    }

    /// Whether the reference grants the add right.
    pub fn is_addable(&self) -> (r: bool)
        ensures
            r == self.spec_rights().add,
    {
        self.rights.add
    }
}

/// Why an operation attempted through a purse reference was refused.
///
/// `ForgedReference`: the reference is bound to a different purse, or does
/// not grant the right the operation needs. `InsufficientBalance`: a
/// withdrawal asked for more than the purse holds.
#[derive(Clone, Copy, Debug, PartialEq, Eq, Structural)]
pub enum PurseAccessError {
    ForgedReference,
    InsufficientBalance,
}

/// The escrow account: one purse, identified by its address, holding the
/// donated funds. The full-access reference stays inside this component.
pub struct EscrowAccount {
    purse_id: u64,
    balance: u128,
}

impl EscrowAccount {
    /// The address of the account's purse.
    pub closed spec fn spec_purse_id(self) -> u64 {
        self.purse_id
    }

    /// The funds the account currently holds.
    pub closed spec fn spec_balance(self) -> u128 {
        self.balance
    }

    /// Whether `cap` may add to this account: it is bound to this purse and
    /// grants the add right.
    pub open spec fn can_add(self, cap: PurseRef) -> bool {
        cap.spec_purse_id() == self.spec_purse_id() && cap.spec_rights().add
    }

    /// Whether `cap` may lower this account's balance.
    pub open spec fn can_write(self, cap: PurseRef) -> bool {
        cap.spec_purse_id() == self.spec_purse_id() && cap.spec_rights().write
    }

    /// Whether `cap` may read this account's balance.
    pub open spec fn can_read(self, cap: PurseRef) -> bool {
        cap.spec_purse_id() == self.spec_purse_id() && cap.spec_rights().read
    }

    /// Allocates a fresh, empty account at address `purse_id`. Each call
    /// yields an independent account; creating it once per system lifetime
    /// is the caller's responsibility.
    pub fn create(purse_id: u64) -> (r: Self)
        ensures
            r.spec_purse_id() == purse_id,
            r.spec_balance() == 0,
    {
        EscrowAccount { purse_id, balance: 0 }
    }

    /// Issues a deposit-only capability for this account: a reference bound
    /// to its purse that grants the add right and nothing else. Pure
    /// derivation, no side effect.
    pub fn issue_deposit_capability(&self) -> (r: PurseRef)
        ensures
            r.spec_purse_id() == self.spec_purse_id(),
            r.is_deposit_only(),
    {
        PurseRef::make(
            self.purse_id,
            AccessRights { read: true, write: true, add: true },
        ).into_add()
    }

    /// The current balance, read through the component's own full access.
    pub fn balance(&self) -> (r: u128)
        ensures
            r == self.spec_balance(),
    {
        self.balance
    }

    /// Adds `amount` to the account through `cap`. Succeeds exactly when
    /// `cap` is bound to this purse and grants the add right; a refused
    /// attempt changes nothing. The balance never decreases.
    pub fn deposit_via(&mut self, cap: &PurseRef, amount: u64) -> (r: Result<
        (),
        PurseAccessError,
    >)
        requires
            old(self).can_add(*cap) ==> old(self).spec_balance() + amount <= u128::MAX,
        ensures
            final(self).spec_purse_id() == old(self).spec_purse_id(),
            r is Ok <==> old(self).can_add(*cap),
            old(self).can_add(*cap) ==> final(self).spec_balance() == old(self).spec_balance()
                + amount,
            !old(self).can_add(*cap) ==> r == Err::<(), PurseAccessError>(
                PurseAccessError::ForgedReference,
            ) && *final(self) == *old(self),
            final(self).spec_balance() >= old(self).spec_balance(),
    {
        if cap.addr() == self.purse_id && cap.is_addable() {
            self.balance = self.balance + (amount as u128);
            Ok(())
        } else {
            Err(PurseAccessError::ForgedReference)
        }
    }

    /// Takes `amount` out of the account through `cap`. Refused, with
    /// nothing changed, unless `cap` is bound to this purse and grants the
    /// write right; no reference this component issues ever does.
    pub fn withdraw_via(&mut self, cap: &PurseRef, amount: u64) -> (r: Result<
        (),
        PurseAccessError,
    >)
        ensures
            final(self).spec_purse_id() == old(self).spec_purse_id(),
            !old(self).can_write(*cap) ==> r == Err::<(), PurseAccessError>(
                PurseAccessError::ForgedReference,
            ) && *final(self) == *old(self),
            old(self).can_write(*cap) && amount > old(self).spec_balance() ==> r == Err::<
                (),
                PurseAccessError,
            >(PurseAccessError::InsufficientBalance) && *final(self) == *old(self),
            old(self).can_write(*cap) && amount <= old(self).spec_balance() ==> r is Ok
                && final(self).spec_balance() == old(self).spec_balance() - amount,
    {
        if !(cap.addr() == self.purse_id && cap.is_writeable()) {
            Err(PurseAccessError::ForgedReference)
        } else if (amount as u128) > self.balance {
            Err(PurseAccessError::InsufficientBalance)
        } else {
            self.balance = self.balance - (amount as u128);
            Ok(())
        }
    }

    /// Reads the balance through `cap`. Refused unless `cap` is bound to
    /// this purse and grants the read right; no reference this component
    /// issues ever does.
    pub fn balance_via(&self, cap: &PurseRef) -> (r: Result<u128, PurseAccessError>)
        ensures
            r is Ok <==> self.can_read(*cap),
            self.can_read(*cap) ==> r == Ok::<u128, PurseAccessError>(self.spec_balance()),
            !self.can_read(*cap) ==> r == Err::<u128, PurseAccessError>(
                PurseAccessError::ForgedReference,
            ),
    {
        if cap.addr() == self.purse_id && cap.is_readable() {
            Ok(self.balance)
        } else {
            Err(PurseAccessError::ForgedReference)
        }
    }
}

} // verus!
