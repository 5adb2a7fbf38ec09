//! Failure codes surfaced by the donation service.

use vstd::prelude::*;

verus! {

/// Every failure a donation-service operation can abort with.
///
/// `InvalidKeyVariant`: the caller handed an identity reference that is not
/// of the account kind. `MissingFundRaisingPurseURef`: the escrow account has
/// not been installed (the service was used before initialization, or its
/// named reference is gone). `MissingLedgerSeedURef`: the counter ledger has
/// not been installed.
#[derive(Clone, Copy, Debug, PartialEq, Eq, Structural)]
pub enum FundRaisingError {
    InvalidKeyVariant,
    MissingFundRaisingPurseURef,
    MissingLedgerSeedURef,
}

} // verus!
