//! The deposit: validation, custody transfer, liability issuance and the
//! ledger update as one unit that happens wholly or not at all.

use crate::access::{access_granted, check_access};
use crate::accounts::{Context, LedgerAccount, LiabilityAccount, StakeTokens};
use crate::address::{lemma_address_by_view, Address};
use crate::derivation::{
    address_view, check_authority, create_program_address, derived_address, found_address,
    found_view, try_find_program_address, LABEL,
};
use crate::error::StakeError;
use crate::ledger::{charged, record_error, recorded, stored_nonce};
use crate::report::StakeReport;
use crate::token::{
    credited, debited, expanded, issue, issue_error, liability_amount, transfer, transfer_error,
};
use vstd::prelude::*;

verus! {

/// The address that may issue in this call. A ledger that holds a nonce is
/// bound to the address re-derived from it; before that, the address that
/// the host found stands.
pub open spec fn issuing_authority(
    state: Option<LiabilityAccount>,
    found: Option<(Seq<u8>, u8)>,
    rederived: Option<Seq<u8>>,
) -> Option<Seq<u8>> {
    if stored_nonce(state) is Some {
        rederived
    } else {
        match found {
            Some((address, _)) => Some(address),
            None => None,
        }
    }
}

/// The nonce that the host found, or zero where it found none.
pub open spec fn found_nonce(found: Option<(Seq<u8>, u8)>) -> u8 {
    match found {
        Some((_, nonce)) => nonce,
        None => 0,
    }
}

/// The error of a deposit, if it has one: the first stage that refuses
/// decides. `found` is what the host found for the label, `rederived` what
/// the ledger's own nonce derives.
pub open spec fn stake_error(
    ctx: Context,
    amount: u64,
    found: Option<(Seq<u8>, u8)>,
    rederived: Option<Seq<u8>>,
) -> Option<StakeError> {
    let a = ctx.accounts;
    if !access_granted(ctx, found) {
        Some(StakeError::ConstraintViolation)
    } else if issuing_authority(a.liability_account.state, found, rederived) != Some(
        a.mint_authority@,
    ) {
        Some(StakeError::InvalidSeeds)
    } else {
        match transfer_error(a.user_token_account, a.staking_token_account, a.user, amount) {
            Some(e) => Some(e),
            None => match issue_error(
                a.liability_mint,
                a.user_liability_account,
                a.mint_authority,
                amount,
            ) {
                Some(e) => Some(e),
                None => record_error(a.liability_account.state, a.user, ctx.rent, amount),
            },
        }
    }
}

/// The state after a deposit of `amount` that went through under `nonce`.
pub open spec fn staked(ctx: Context, amount: u64, nonce: u8) -> Context {
    let a = ctx.accounts;
    Context {
        accounts: StakeTokens {
            user: charged(a.user, a.liability_account.state, ctx.rent),
            user_token_account: debited(a.user_token_account, amount),
            staking_token_account: credited(a.staking_token_account, amount),
            liability_account: LedgerAccount {
                state: Some(recorded(a.liability_account.state, nonce, amount, ctx.unix_timestamp)),
                ..a.liability_account
            },
            liability_mint: expanded(a.liability_mint, amount),
            user_liability_account: credited(a.user_liability_account, amount),
            ..a
        },
        ..ctx
    }
}

/// How a deposit relates the state before it to its result and the state
/// after it: every effect or none.
pub open spec fn stake_effect(
    before: Context,
    amount: u64,
    found: Option<(Seq<u8>, u8)>,
    rederived: Option<Seq<u8>>,
    result: Result<StakeReport, StakeError>,
    after: Context,
) -> bool {
    match stake_error(before, amount, found, rederived) {
        Some(e) => result == Err::<StakeReport, StakeError>(e) && after == before,
        None => result == Ok::<StakeReport, StakeError>(StakeReport::of(amount)) && after
            == staked(before, amount, found_nonce(found)),
    }
}

/// What the ledger's own nonce derives, where it holds one.
pub open spec fn rederived_address(ctx: Context) -> Option<Seq<u8>> {
    match stored_nonce(ctx.accounts.liability_account.state) {
        Some(nonce) => derived_address(LABEL@, nonce, ctx.program_id@),
        None => None,
    }
}

/// Whether the ledger holds a nonce from which, with the label, the issuing
/// authority named in the call derives.
pub open spec fn nonce_binds_authority(ctx: Context) -> bool {
    match stored_nonce(ctx.accounts.liability_account.state) {
        Some(nonce) => derived_address(LABEL@, nonce, ctx.program_id@) == Some(
            ctx.accounts.mint_authority@,
        ),
        None => false,
    }
}

/// The deposit, given what the two derivations returned.
pub fn stake_with_derivation(
    ctx: &mut Context,
    amount: u64,
    found: Option<(Address, u8)>,
    rederived: Option<Address>,
) -> (r: Result<StakeReport, StakeError>)
    ensures
        stake_effect(*old(ctx), amount, found_view(found), address_view(rederived), r, *final(ctx)),
{
    check_access(ctx, &found)?;
    let nonce = match found {
        Some((_, nonce)) => nonce,
        None => 0,
    };
    let holds_nonce = match ctx.accounts.liability_account.state {
        Some(record) => record.bump != 0,
        None => false,
    };
    let authority = if holds_nonce {
        rederived
    } else {
        match found {
            Some((address, _)) => Some(address),
            None => None,
        }
    };
    proof {
        if authority is Some {
            lemma_address_by_view(authority->0, ctx.accounts.mint_authority);
        }
    }
    check_authority(&ctx.accounts.mint_authority, &authority)?;
    let mut accounts = ctx.accounts;
    transfer(
        &mut accounts.user_token_account,
        &mut accounts.staking_token_account,
        &accounts.user,
        amount,
    )?;
    let minted = liability_amount(amount);
    issue(
        &mut accounts.liability_mint,
        &mut accounts.user_liability_account,
        &accounts.mint_authority,
        minted,
    )?;
    accounts.liability_account.record(
        &mut accounts.user,
        ctx.rent,
        nonce,
        amount,
        ctx.unix_timestamp,
    )?;
    ctx.accounts = accounts;
    Ok(StakeReport { staked: amount, minted })
}

/// Deposits `amount`: moves it from the caller's account into the vault,
/// issues the same quantity of the liability token to the caller, and adds it
/// to the ledger. On success it reports both quantities; on any failure
/// nothing changes. An amount of zero is a deposit like any other: it moves
/// nothing, and it creates and stamps the ledger.
pub fn stake_tokens(ctx: &mut Context, amount: u64) -> (r: Result<StakeReport, StakeError>)
    ensures
        stake_effect(
            *old(ctx),
            amount,
            found_address(LABEL@, old(ctx).program_id@),
            rederived_address(*old(ctx)),
            r,
            *final(ctx),
        ),
        r is Ok ==> nonce_binds_authority(*final(ctx)),
{
    let found = try_find_program_address(LABEL.as_slice(), &ctx.program_id);
    let rederived = match ctx.accounts.liability_account.state {
        Some(record) => {
            if record.bump != 0 {
                create_program_address(LABEL.as_slice(), record.bump, &ctx.program_id)
            } else {
                None
            }
        },
        None => None,
    };
    stake_with_derivation(ctx, amount, found, rederived)
}

} // verus!
