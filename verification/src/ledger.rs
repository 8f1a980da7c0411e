//! The ledger: the running total of all deposits.

use crate::accounts::{LedgerAccount, LiabilityAccount, Signer};
use crate::error::StakeError;
use vstd::prelude::*;

verus! {

/// The nonce that a ledger holds. A record that does not exist holds none,
/// and a zero byte is a nonce that was never written.
pub open spec fn stored_nonce(state: Option<LiabilityAccount>) -> Option<u8> {
    match state {
        Some(record) => if record.bump != 0 {
            Some(record.bump)
        } else {
            None
        },
        None => None,
    }
}

/// The total that a ledger holds: nothing before the first deposit.
pub open spec fn total_of(state: Option<LiabilityAccount>) -> nat {
    match state {
        Some(record) => record.total_staked as nat,
        None => 0,
    }
}

/// The error of recording a deposit, if it has one. A ledger that does not
/// exist yet is created at the payer's cost; one that exists grows.
pub open spec fn record_error(
    state: Option<LiabilityAccount>,
    payer: Signer,
    rent: u64,
    amount: u64,
) -> Option<StakeError> {
    match state {
        None => if payer.lamports < rent {
            Some(StakeError::AllocationFailure)
        } else {
            None
        },
        Some(record) => if record.total_staked + amount > u64::MAX {
            Some(StakeError::Overflow)
        } else {
            None
        },
    }
}

/// The record after a deposit of `amount` at the time `now`, made under the
/// nonce `nonce`. A nonce that was written stays.
pub open spec fn recorded(
    state: Option<LiabilityAccount>,
    nonce: u8,
    amount: u64,
    now: i64,
) -> LiabilityAccount {
    LiabilityAccount {
        total_staked: (total_of(state) + amount) as u64,
        last_updated: now,
        bump: match stored_nonce(state) {
            Some(kept) => kept,
            None => nonce,
        },
    }
}

/// The payer after the deposit: it paid `rent` if the ledger had to be
/// created.
pub open spec fn charged(payer: Signer, state: Option<LiabilityAccount>, rent: u64) -> Signer {
    match state {
        None => Signer { lamports: (payer.lamports - rent) as u64, ..payer },
        Some(_) => payer,
    }
}

impl LiabilityAccount {
    /// The number of bytes that a stored record takes.
    pub const SPACE: usize = 8 + 8 + 8 + 1;

    /// The record of a ledger that has seen no deposit.
    pub fn new() -> (r: LiabilityAccount)
        ensures
            r == (LiabilityAccount { total_staked: 0, last_updated: 0, bump: 0 }),
    {
        LiabilityAccount { total_staked: 0, last_updated: 0, bump: 0 }
    }
}

impl LedgerAccount {
    /// Records a deposit of `amount` made at `now` under `nonce`. On the first
    /// deposit the record is created, paid for by `payer`. The ledger and the
    /// payer change together or not at all.
    pub fn record(
        &mut self,
        payer: &mut Signer,
        rent: u64,
        nonce: u8,
        amount: u64,
        now: i64,
    ) -> (r: Result<(), StakeError>)
        ensures
            final(self).key == old(self).key,
            final(self).is_writable == old(self).is_writable,
            match record_error(old(self).state, *old(payer), rent, amount) {
                Some(e) => {
                    &&& r == Err::<(), StakeError>(e)
                    &&& *final(self) == *old(self)
                    &&& *final(payer) == *old(payer)
                },
                None => {
                    &&& r is Ok
                    &&& final(self).state == Some(recorded(old(self).state, nonce, amount, now))
                    &&& *final(payer) == charged(*old(payer), old(self).state, rent)
                },
            },
    {
        let mut record = match self.state {
            Some(existing) => existing,
            None => {
                if payer.lamports < rent {
                    return Err(StakeError::AllocationFailure);
                }
                LiabilityAccount::new()
            },
        };
        let total = match record.total_staked.checked_add(amount) {
            Some(sum) => sum,
            None => {
                return Err(StakeError::Overflow);
            },
        };
        record.total_staked = total;
        record.last_updated = now;
        if record.bump == 0 {
            record.bump = nonce;
        }
        if self.state.is_none() {
            payer.lamports = payer.lamports - rent;
        }
        self.state = Some(record);
        Ok(())
    }
}

} // verus!
