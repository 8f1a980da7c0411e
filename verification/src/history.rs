//! Deposits one after another: what the callers share and what adds up.

use crate::accounts::{Context, LedgerAccount, Mint, StakeTokens, TokenAccount};
use crate::derivation::{found_address, LABEL};
use crate::error::StakeError;
use crate::laws::conserved;
use crate::ledger::{stored_nonce, total_of};
use crate::report::StakeReport;
use crate::stake::{rederived_address, stake_effect};
use vstd::prelude::*;

verus! {

/// How `stake_tokens` relates the state before a call to its result and the
/// state after it.
pub open spec fn deposit_effect(
    before: Context,
    amount: u64,
    result: Result<StakeReport, StakeError>,
    after: Context,
) -> bool {
    stake_effect(
        before,
        amount,
        found_address(LABEL@, before.program_id@),
        rederived_address(before),
        result,
        after,
    )
}

/// A deposit is decided by the state it starts from and by the amount: the
/// derivation is reproducible, so the same call has the same result and
/// leaves the same state behind.
pub proof fn lemma_deposit_is_determined(
    before: Context,
    amount: u64,
    first: Result<StakeReport, StakeError>,
    after_first: Context,
    second: Result<StakeReport, StakeError>,
    after_second: Context,
)
    requires
        deposit_effect(before, amount, first, after_first),
        deposit_effect(before, amount, second, after_second),
    ensures
        first == second,
        after_first == after_second,
{
}

/// What all callers share: the vault, the liability mint and the ledger.
pub open spec fn pool_of(ctx: Context) -> (TokenAccount, Mint, LedgerAccount) {
    (ctx.accounts.staking_token_account, ctx.accounts.liability_mint, ctx.accounts.liability_account)
}

/// `ctx` as the host hands it to a caller who comes after `earlier`: the
/// shared accounts are as `earlier` left them.
pub open spec fn following(earlier: Context, ctx: Context) -> Context {
    Context {
        accounts: StakeTokens {
            staking_token_account: earlier.accounts.staking_token_account,
            liability_mint: earlier.accounts.liability_mint,
            liability_account: earlier.accounts.liability_account,
            ..ctx.accounts
        },
        ..ctx
    }
}

/// Hands `ctx` to a caller who comes after `earlier`.
pub fn follow(earlier: &Context, ctx: Context) -> (r: Context)
    ensures
        r == following(*earlier, ctx),
{
    let mut next = ctx;
    next.accounts.staking_token_account = earlier.accounts.staking_token_account;
    next.accounts.liability_mint = earlier.accounts.liability_mint;
    next.accounts.liability_account = earlier.accounts.liability_account;
    next
}

/// One call of `stake_tokens` as it happened.
pub struct Step {
    pub before: Context,
    pub amount: u64,
    pub result: Result<StakeReport, StakeError>,
    pub after: Context,
}

/// Whether `steps` is a run of the module: each step is a deposit, and each
/// deposit but the first starts from the shared accounts as the one before it
/// left them.
pub open spec fn is_run(steps: Seq<Step>) -> bool {
    &&& forall|i: int|
        0 <= i < steps.len() ==> deposit_effect(
            #[trigger] steps[i].before,
            steps[i].amount,
            steps[i].result,
            steps[i].after,
        )
    &&& forall|i: int|
        0 < i < steps.len() ==> pool_of(#[trigger] steps[i].before) == pool_of(steps[i - 1].after)
}

/// The sum of the amounts of the deposits of `steps` that went through.
pub open spec fn deposited(steps: Seq<Step>) -> nat
    decreases steps.len(),
{
    if steps.len() == 0 {
        0
    } else {
        deposited(steps.drop_last()) + if steps.last().result is Ok {
            steps.last().amount as nat
        } else {
            0
        }
    }
}

/// The ledger's total is what it was at the start plus every amount that was
/// deposited since: no deposit is lost and none counts twice.
pub proof fn lemma_total_is_sum_of_deposits(steps: Seq<Step>)
    requires
        is_run(steps),
        steps.len() > 0,
    ensures
        total_of(steps.last().after.accounts.liability_account.state) == total_of(
            steps[0].before.accounts.liability_account.state,
        ) + deposited(steps),
    decreases steps.len(),
{
    let head = steps.drop_last();
    let last = steps.last();
    assert(deposit_effect(last.before, last.amount, last.result, last.after));
    if head.len() == 0 {
        assert(deposited(head) == 0);
        assert(last == steps[0]);
    } else {
        assert forall|i: int| 0 <= i < head.len() implies deposit_effect(
            #[trigger] head[i].before,
            head[i].amount,
            head[i].result,
            head[i].after,
        ) by {
            assert(head[i] == steps[i]);
        }
        assert forall|i: int| 0 < i < head.len() implies pool_of(#[trigger] head[i].before)
            == pool_of(head[i - 1].after) by {
            assert(head[i] == steps[i]);
            assert(head[i - 1] == steps[i - 1]);
        }
        lemma_total_is_sum_of_deposits(head);
        assert(head.last() == steps[steps.len() - 2]);
        assert(head[0] == steps[0]);
        assert(pool_of(steps[steps.len() - 1].before) == pool_of(steps[steps.len() - 2].after));
    }
}

/// Conservation at every point in time: in a run that starts with the
/// liability in issue equal to the ledger's total, they are equal before and
/// after every step.
pub proof fn lemma_conserved_throughout(steps: Seq<Step>, i: int)
    requires
        is_run(steps),
        0 <= i < steps.len(),
        conserved(steps[0].before),
    ensures
        conserved(steps[i].before),
        conserved(steps[i].after),
    decreases i,
{
    assert(deposit_effect(steps[i].before, steps[i].amount, steps[i].result, steps[i].after));
    if i > 0 {
        lemma_conserved_throughout(steps, i - 1);
        assert(pool_of(steps[i].before) == pool_of(steps[i - 1].after));
    }
}

/// In a run, the ledger comes into being at most once: where it exists
/// before some step, it exists after every later one.
pub proof fn lemma_ledger_stays_throughout(steps: Seq<Step>, i: int, j: int)
    requires
        is_run(steps),
        0 <= i <= j < steps.len(),
        steps[i].before.accounts.liability_account.state is Some,
    ensures
        steps[j].before.accounts.liability_account.state is Some,
        steps[j].after.accounts.liability_account.state is Some,
    decreases j - i,
{
    assert(deposit_effect(steps[j].before, steps[j].amount, steps[j].result, steps[j].after));
    if i < j {
        lemma_ledger_stays_throughout(steps, i, j - 1);
        assert(pool_of(steps[j].before) == pool_of(steps[j - 1].after));
    }
}

/// In a run, a nonce that the ledger holds at some point is the nonce it
/// holds at every later point.
pub proof fn lemma_nonce_kept_throughout(steps: Seq<Step>, i: int, j: int)
    requires
        is_run(steps),
        0 <= i <= j < steps.len(),
        stored_nonce(steps[i].before.accounts.liability_account.state) is Some,
    ensures
        stored_nonce(steps[j].after.accounts.liability_account.state) == stored_nonce(
            steps[i].before.accounts.liability_account.state,
        ),
    decreases j - i,
{
    assert(deposit_effect(steps[j].before, steps[j].amount, steps[j].result, steps[j].after));
    if i < j {
        lemma_nonce_kept_throughout(steps, i, j - 1);
        assert(pool_of(steps[j].before) == pool_of(steps[j - 1].after));
    }
}

/// Two callers who start from the same shared accounts leave the same total,
/// the same liability in issue and the same vault balance behind, whoever
/// goes first: what both deposited is added to what was there.
pub proof fn lemma_order_is_immaterial(
    a: Context,
    x: u64,
    b: Context,
    y: u64,
    a_first: Context,
    b_second: Context,
    b_first: Context,
    a_second: Context,
)
    requires
        pool_of(a) == pool_of(b),
        deposit_effect(a, x, Ok(StakeReport::of(x)), a_first),
        deposit_effect(following(a_first, b), y, Ok(StakeReport::of(y)), b_second),
        deposit_effect(b, y, Ok(StakeReport::of(y)), b_first),
        deposit_effect(following(b_first, a), x, Ok(StakeReport::of(x)), a_second),
    ensures
        total_of(b_second.accounts.liability_account.state) == total_of(
            a.accounts.liability_account.state,
        ) + x + y,
        total_of(a_second.accounts.liability_account.state) == total_of(
            b_second.accounts.liability_account.state,
        ),
        a_second.accounts.liability_mint.supply == b_second.accounts.liability_mint.supply,
        a_second.accounts.staking_token_account.amount
            == b_second.accounts.staking_token_account.amount,
{
}

} // verus!
