//! What holds of every deposit.

use crate::access::access_granted;
use crate::accounts::Context;
use crate::error::StakeError;
use crate::ledger::{stored_nonce, total_of};
use crate::report::StakeReport;
use crate::stake::{found_nonce, issuing_authority, stake_effect, stake_error};
use crate::token::may_move;
use vstd::prelude::*;

verus! {

/// Whether the liability token in issue equals the ledger's total.
pub open spec fn conserved(ctx: Context) -> bool {
    ctx.accounts.liability_mint.supply == total_of(ctx.accounts.liability_account.state)
}

/// When a deposit is owed success: access is granted, the authority named
/// is the derived one and is the one configured in the mint, the caller owns
/// the source account and it holds the amount, no balance would pass the
/// largest value, and a ledger that must be created can be paid for.
pub open spec fn deposit_is_due(
    ctx: Context,
    amount: u64,
    found: Option<(Seq<u8>, u8)>,
    rederived: Option<Seq<u8>>,
) -> bool {
    let a = ctx.accounts;
    &&& access_granted(ctx, found)
    &&& issuing_authority(a.liability_account.state, found, rederived) == Some(a.mint_authority@)
    &&& a.user_token_account.amount >= amount
    &&& may_move(a.user_token_account, a.user)
    &&& a.liability_mint.mint_authority == Some(a.mint_authority)
    &&& a.staking_token_account.amount + amount <= u64::MAX
    &&& a.user_liability_account.amount + amount <= u64::MAX
    &&& a.liability_mint.supply + amount <= u64::MAX
    &&& total_of(a.liability_account.state) + amount <= u64::MAX
    &&& a.liability_account.state is None ==> a.user.lamports >= ctx.rent
}

/// A deposit goes through exactly when it is due.
pub proof fn lemma_success_exactly_when_due(
    ctx: Context,
    amount: u64,
    found: Option<(Seq<u8>, u8)>,
    rederived: Option<Seq<u8>>,
)
    ensures
        stake_error(ctx, amount, found, rederived) is None <==> deposit_is_due(
            ctx,
            amount,
            found,
            rederived,
        ),
{
}

/// A deposit that goes through takes `amount` from the caller's account, adds
/// it to the vault, to the caller's liability account, to the liability in
/// issue and to the ledger's total, stamps the ledger with the time of the
/// call, and reports `amount` as staked and as minted.
pub proof fn lemma_deposit_moves_amount(
    before: Context,
    amount: u64,
    found: Option<(Seq<u8>, u8)>,
    rederived: Option<Seq<u8>>,
    result: Result<StakeReport, StakeError>,
    after: Context,
)
    requires
        stake_effect(before, amount, found, rederived, result, after),
        result is Ok,
    ensures
        result == Ok::<StakeReport, StakeError>(StakeReport { staked: amount, minted: amount }),
        after.accounts.user_token_account.amount == before.accounts.user_token_account.amount
            - amount,
        after.accounts.staking_token_account.amount
            == before.accounts.staking_token_account.amount + amount,
        after.accounts.user_liability_account.amount
            == before.accounts.user_liability_account.amount + amount,
        after.accounts.liability_mint.supply == before.accounts.liability_mint.supply + amount,
        total_of(after.accounts.liability_account.state) == total_of(
            before.accounts.liability_account.state,
        ) + amount,
        after.accounts.liability_account.state is Some,
        after.accounts.liability_account.state->0.last_updated == before.unix_timestamp,
{
}

/// What leaves the caller's account is in the vault, and the caller holds
/// one more unit of liability for each unit that the vault took in: a
/// deposit neither makes nor loses deposit tokens, whether it goes through
/// or not.
pub proof fn lemma_custody_matches_receipt(
    before: Context,
    amount: u64,
    found: Option<(Seq<u8>, u8)>,
    rederived: Option<Seq<u8>>,
    result: Result<StakeReport, StakeError>,
    after: Context,
)
    requires
        stake_effect(before, amount, found, rederived, result, after),
    ensures
        after.accounts.user_token_account.amount + after.accounts.staking_token_account.amount
            == before.accounts.user_token_account.amount
            + before.accounts.staking_token_account.amount,
        after.accounts.user_liability_account.amount
            - before.accounts.user_liability_account.amount
            == after.accounts.staking_token_account.amount
            - before.accounts.staking_token_account.amount,
{
}

/// A deposit that is refused changes nothing.
pub proof fn lemma_refusal_changes_nothing(
    before: Context,
    amount: u64,
    found: Option<(Seq<u8>, u8)>,
    rederived: Option<Seq<u8>>,
    error: StakeError,
    after: Context,
)
    requires
        stake_effect(before, amount, found, rederived, Err(error), after),
    ensures
        after == before,
        stake_error(before, amount, found, rederived) == Some(error),
{
}

/// The ledger comes into being with the first deposit that goes through and
/// never ceases to be; a refused deposit does not create it.
pub proof fn lemma_ledger_opens_once(
    before: Context,
    amount: u64,
    found: Option<(Seq<u8>, u8)>,
    rederived: Option<Seq<u8>>,
    result: Result<StakeReport, StakeError>,
    after: Context,
)
    requires
        stake_effect(before, amount, found, rederived, result, after),
    ensures
        before.accounts.liability_account.state is Some
            ==> after.accounts.liability_account.state is Some,
        before.accounts.liability_account.state is None ==> (result is Ok
            <==> after.accounts.liability_account.state is Some),
{
}

/// A nonce that the ledger holds never changes, and a ledger that held none
/// holds, after a deposit that went through, the nonce that the host found
/// for the issuing authority.
pub proof fn lemma_nonce_is_fixed(
    before: Context,
    amount: u64,
    found: Option<(Seq<u8>, u8)>,
    rederived: Option<Seq<u8>>,
    result: Result<StakeReport, StakeError>,
    after: Context,
)
    requires
        stake_effect(before, amount, found, rederived, result, after),
    ensures
        stored_nonce(before.accounts.liability_account.state) is Some ==> stored_nonce(
            after.accounts.liability_account.state,
        ) == stored_nonce(before.accounts.liability_account.state),
        stored_nonce(before.accounts.liability_account.state) is None && result is Ok ==> {
            &&& after.accounts.liability_account.state is Some
            &&& after.accounts.liability_account.state->0.bump == found_nonce(found)
            &&& found matches Some((address, _)) && address == before.accounts.mint_authority@
        },
{
}

/// Conservation: if the liability in issue equals the ledger's total before
/// a deposit, it does so after it, whether the deposit went through or not.
pub proof fn lemma_conservation(
    before: Context,
    amount: u64,
    found: Option<(Seq<u8>, u8)>,
    rederived: Option<Seq<u8>>,
    result: Result<StakeReport, StakeError>,
    after: Context,
)
    requires
        stake_effect(before, amount, found, rederived, result, after),
        conserved(before),
    ensures
        conserved(after),
{
}

/// Neither the ledger's total nor the liability in issue nor the vault ever
/// shrinks.
pub proof fn lemma_never_shrinks(
    before: Context,
    amount: u64,
    found: Option<(Seq<u8>, u8)>,
    rederived: Option<Seq<u8>>,
    result: Result<StakeReport, StakeError>,
    after: Context,
)
    requires
        stake_effect(before, amount, found, rederived, result, after),
    ensures
        total_of(after.accounts.liability_account.state) >= total_of(
            before.accounts.liability_account.state,
        ),
        after.accounts.liability_mint.supply >= before.accounts.liability_mint.supply,
        after.accounts.staking_token_account.amount
            >= before.accounts.staking_token_account.amount,
{
}

} // verus!
