//! Access control: what must hold of the participants before anything moves.

use crate::accounts::{Context, Mint, TokenAccount};
use crate::address::{
    is_system_program, is_token_program, lemma_address_by_view, Address, SYSTEM_PROGRAM_ID,
    TOKEN_PROGRAM_ID,
};
use crate::derivation::found_view;
use crate::error::StakeError;
use vstd::prelude::*;

verus! {

/// A holding account that the token program keeps and that may be written.
pub open spec fn is_open_holding(account: TokenAccount) -> bool {
    account.program.bytes == TOKEN_PROGRAM_ID && account.is_writable
}

/// A mint that the token program keeps and that may be written.
pub open spec fn is_open_mint(mint: Mint) -> bool {
    mint.program.bytes == TOKEN_PROGRAM_ID && mint.is_writable
}

/// Whether the participants are what a deposit expects:
/// - the caller authenticated the transaction and, as the one who pays for
///   the ledger, may be written;
/// - the three holding accounts and the mint are kept by the token program
///   and may be written;
/// - the caller's account and the vault hold the same token, and the caller's
///   liability account holds the token of the liability mint;
/// - the three holding accounts are three different accounts;
/// - the ledger may be written and sits at the address that the host found
///   for the label;
/// - the two subsystems named are the token program and the system program.
///
/// Who owns the vault and the caller's liability account is not examined;
/// that the caller owns the account to take from is for the transfer to say.
pub open spec fn access_granted(ctx: Context, found: Option<(Seq<u8>, u8)>) -> bool {
    let a = ctx.accounts;
    &&& a.user.is_signer
    &&& a.user.is_writable
    &&& is_open_holding(a.user_token_account)
    &&& is_open_holding(a.staking_token_account)
    &&& is_open_holding(a.user_liability_account)
    &&& is_open_mint(a.liability_mint)
    &&& a.user_token_account.mint == a.staking_token_account.mint
    &&& a.user_liability_account.mint == a.liability_mint.key
    &&& a.user_token_account.key != a.staking_token_account.key
    &&& a.user_token_account.key != a.user_liability_account.key
    &&& a.staking_token_account.key != a.user_liability_account.key
    &&& a.liability_account.is_writable
    &&& found matches Some((address, _)) && a.liability_account.key@ == address
    &&& a.token_program.bytes == TOKEN_PROGRAM_ID
    &&& a.system_program.bytes == SYSTEM_PROGRAM_ID
}

fn holding_is_open(account: &TokenAccount) -> (r: bool)
    ensures
        r == is_open_holding(*account),
{
    account.is_writable && is_token_program(&account.program)
}

fn mint_is_open(mint: &Mint) -> (r: bool)
    ensures
        r == is_open_mint(*mint),
{
    mint.is_writable && is_token_program(&mint.program)
}

fn ledger_is_placed(key: &Address, found: &Option<(Address, u8)>) -> (r: bool)
    ensures
        r == (found_view(*found) matches Some((address, _)) && key@ == address),
{
    match found {
        Some((address, _)) => {
            proof {
                lemma_address_by_view(*key, *address);
            }
            *key == *address
        },
        None => false,
    }
}

/// Grants or refuses access: refusal is always `ConstraintViolation`.
pub fn check_access(ctx: &Context, found: &Option<(Address, u8)>) -> (r: Result<(), StakeError>)
    ensures
        r == if access_granted(*ctx, found_view(*found)) {
            Ok::<(), StakeError>(())
        } else {
            Err(StakeError::ConstraintViolation)
        },
{
    let a = &ctx.accounts;
    let kept = holding_is_open(&a.user_token_account)
        && holding_is_open(&a.staking_token_account)
        && holding_is_open(&a.user_liability_account)
        && mint_is_open(&a.liability_mint);
    let matched = a.user_token_account.mint == a.staking_token_account.mint
        && a.user_liability_account.mint == a.liability_mint.key;
    let apart = a.user_token_account.key != a.staking_token_account.key
        && a.user_token_account.key != a.user_liability_account.key
        && a.staking_token_account.key != a.user_liability_account.key;
    let placed = a.liability_account.is_writable
        && ledger_is_placed(&a.liability_account.key, found);
    let served = is_token_program(&a.token_program) && is_system_program(&a.system_program);
    let caller = a.user.is_signer && a.user.is_writable;
    if caller && kept && matched && apart && placed && served {
        Ok(())
    } else {
        Err(StakeError::ConstraintViolation)
    }
}

} // verus!
