//! The failures of a deposit.

use vstd::prelude::*;

verus! {

/// Why a deposit was refused. Every failure aborts the whole operation.
#[derive(Clone, Copy, Debug, PartialEq, Eq, Structural)]
pub enum StakeError {
    /// An account has the wrong type or owning program, is not writable where
    /// it must be, sits at the wrong derived address, or the caller did not
    /// sign.
    ConstraintViolation,
    /// The issuing authority supplied is not the address derived from the
    /// label and the nonce.
    InvalidSeeds,
    /// The source account holds less than the amount.
    InsufficientFunds,
    /// The transfer authority is not the owner of the source account.
    Unauthorized,
    /// The authority configured in the mint is not the derived address.
    MintAuthorityMismatch,
    /// The ledger could not be created on first use.
    AllocationFailure,
    /// A balance, the supply or the ledger total would pass the largest
    /// 64-bit value.
    Overflow,
}

} // verus!
