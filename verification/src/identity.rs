//! Donor identities.
//!
//! A donor is named by an opaque 256-bit account hash, carried here as four
//! 64-bit limbs. The host hands the service an identity *reference* that may
//! or may not be of the account kind; only account references are accepted
//! as donors.

use vstd::prelude::*;

verus! {

/// An opaque, uniquely-comparable donor identifier: a 256-bit account hash
/// split into four 64-bit limbs (`w0` holds the lowest-order bytes).
#[derive(Clone, Copy, Debug, PartialEq, Eq, Structural)]
pub struct AccountId {
    pub w0: u64,
    pub w1: u64,
    pub w2: u64,
    pub w3: u64,
}

/// An identity reference as dispatched by the host: either an account
/// reference (a valid donor identity) or a reference of some other kind,
/// which the service rejects.
#[derive(Clone, Copy, Debug, PartialEq, Eq, Structural)]
pub enum DonorKey {
    Account(AccountId),
    Other,
}

impl DonorKey {
    /// Whether this reference is of the account kind.
    pub open spec fn is_account(self) -> bool {
        self is Account
    }

    /// The account hash behind an account reference.
    pub open spec fn spec_account_id(self) -> AccountId
        recommends
            self.is_account(),
    {
        self->Account_0
    }

    /// Accepts an account reference and hands back its account hash;
    /// rejects every other kind.
    pub fn validate(self) -> (r: Result<AccountId, crate::error::FundRaisingError>)
        ensures
            self.is_account() <==> r is Ok,
            self.is_account() ==> r == Ok::<AccountId, crate::error::FundRaisingError>(
                self.spec_account_id(),
            ),
            !self.is_account() ==> r == Err::<AccountId, crate::error::FundRaisingError>(
                crate::error::FundRaisingError::InvalidKeyVariant,
            ),
    {
        match self {
            DonorKey::Account(id) => Ok(id),
            DonorKey::Other => Err(crate::error::FundRaisingError::InvalidKeyVariant),
        }
    }
}

} // verus!
