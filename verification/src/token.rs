//! Custody transfer and liability issuance: the two movements of tokens.

use crate::accounts::{Mint, Signer, TokenAccount};
use crate::address::Address;
use crate::error::StakeError;
use vstd::prelude::*;

verus! {

/// Whether `authority` may move the balance of `from`.
pub open spec fn may_move(from: TokenAccount, authority: Signer) -> bool {
    authority.is_signer && authority.key == from.owner
}

/// The error of a transfer, if it has one.
pub open spec fn transfer_error(
    from: TokenAccount,
    to: TokenAccount,
    authority: Signer,
    amount: u64,
) -> Option<StakeError> {
    if from.amount < amount {
        Some(StakeError::InsufficientFunds)
    } else if !may_move(from, authority) {
        Some(StakeError::Unauthorized)
    } else if to.amount + amount > u64::MAX {
        Some(StakeError::Overflow)
    } else {
        None
    }
}

/// `account` with `amount` more in it.
pub open spec fn credited(account: TokenAccount, amount: u64) -> TokenAccount {
    TokenAccount { amount: (account.amount + amount) as u64, ..account }
}

/// `account` with `amount` less in it.
pub open spec fn debited(account: TokenAccount, amount: u64) -> TokenAccount {
    TokenAccount { amount: (account.amount - amount) as u64, ..account }
}

/// `mint` with `amount` more issued.
pub open spec fn expanded(mint: Mint, amount: u64) -> Mint {
    Mint { supply: (mint.supply + amount) as u64, ..mint }
}

/// Moves `amount` from `from` to `to` on the word of `authority`. Both
/// accounts change together or not at all.
pub fn transfer(
    from: &mut TokenAccount,
    to: &mut TokenAccount,
    authority: &Signer,
    amount: u64,
) -> (r: Result<(), StakeError>)
    ensures
        match transfer_error(*old(from), *old(to), *authority, amount) {
            Some(e) => {
                &&& r == Err::<(), StakeError>(e)
                &&& *final(from) == *old(from)
                &&& *final(to) == *old(to)
            },
            None => {
                &&& r is Ok
                &&& *final(from) == debited(*old(from), amount)
                &&& *final(to) == credited(*old(to), amount)
            },
        },
{
    if from.amount < amount {
        return Err(StakeError::InsufficientFunds);
    }
    if !authority.is_signer || authority.key != from.owner {
        return Err(StakeError::Unauthorized);
    }
    match to.amount.checked_add(amount) {
        Some(sum) => {
            from.amount = from.amount - amount;
            to.amount = sum;
            Ok(())
        },
        None => Err(StakeError::Overflow),
    }
}

/// The liability issued for a deposit: one unit for each unit in custody.
pub fn liability_amount(amount: u64) -> (r: u64)
    ensures
        r == amount,
{
    amount
}

/// The error of an issuance, if it has one.
pub open spec fn issue_error(
    mint: Mint,
    to: TokenAccount,
    authority: Address,
    amount: u64,
) -> Option<StakeError> {
    if mint.mint_authority != Some(authority) {
        Some(StakeError::MintAuthorityMismatch)
    } else if to.amount + amount > u64::MAX || mint.supply + amount > u64::MAX {
        Some(StakeError::Overflow)
    } else {
        None
    }
}

/// Issues `amount` new units of `mint` into `to` on the word of `authority`:
/// one unit of liability for each unit in custody. The mint and the account
/// change together or not at all.
pub fn issue(
    mint: &mut Mint,
    to: &mut TokenAccount,
    authority: &Address,
    amount: u64,
) -> (r: Result<(), StakeError>)
    ensures
        match issue_error(*old(mint), *old(to), *authority, amount) {
            Some(e) => {
                &&& r == Err::<(), StakeError>(e)
                &&& *final(mint) == *old(mint)
                &&& *final(to) == *old(to)
            },
            None => {
                &&& r is Ok
                &&& *final(mint) == expanded(*old(mint), amount)
                &&& *final(to) == credited(*old(to), amount)
            },
        },
{
    match mint.mint_authority {
        Some(configured) => {
            if configured != *authority {
                return Err(StakeError::MintAuthorityMismatch);
            }
        },
        None => {
            return Err(StakeError::MintAuthorityMismatch);
        },
    }
    let balance = match to.amount.checked_add(amount) {
        Some(sum) => sum,
        None => {
            return Err(StakeError::Overflow);
        },
    };
    let supply = match mint.supply.checked_add(amount) {
        Some(sum) => sum,
        None => {
            return Err(StakeError::Overflow);
        },
    };
    to.amount = balance;
    mint.supply = supply;
    Ok(())
}

} // verus!
