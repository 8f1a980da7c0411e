use anchor_lang::prelude::Pubkey;
use stake_to_mint::access::check_access;
use stake_to_mint::address::{SYSTEM_PROGRAM_ID, TOKEN_PROGRAM_ID};
use stake_to_mint::{
    stake_tokens, stake_with_derivation, Address, Context, LedgerAccount, LiabilityAccount, Mint,
    Signer, StakeError, StakeReport, StakeTokens, TokenAccount,
};

/// The result of a deposit of `amount` that went through.
fn went_through(amount: u64) -> Result<StakeReport, StakeError> {
    Ok(StakeReport { staked: amount, minted: amount })
}

fn place(n: u8) -> Address {
    Address { bytes: [n; 32] }
}

fn found_for(module: &Address) -> (Address, u8) {
    let (key, bump) =
        Pubkey::find_program_address(&[b"liability"], &Pubkey::new_from_array(module.bytes));
    (Address { bytes: key.to_bytes() }, bump)
}

fn token_account(k: u8, mint: u8, owner: u8, amount: u64) -> TokenAccount {
    TokenAccount {
        key: place(k),
        program: Address { bytes: TOKEN_PROGRAM_ID },
        is_writable: true,
        mint: place(mint),
        owner: place(owner),
        amount,
    }
}

/// A deposit that would go through.
fn sound() -> Context {
    let module = place(42);
    let (authority, _) = found_for(&module);
    Context {
        program_id: module,
        unix_timestamp: 1_000,
        rent: 900,
        accounts: StakeTokens {
            user: Signer { key: place(1), is_signer: true, is_writable: true, lamports: 1_000 },
            user_token_account: token_account(2, 100, 1, 500),
            staking_token_account: token_account(3, 100, 9, 0),
            liability_account: LedgerAccount { key: authority, is_writable: true, state: None },
            liability_mint: Mint {
                key: place(101),
                program: Address { bytes: TOKEN_PROGRAM_ID },
                is_writable: true,
                mint_authority: Some(authority),
                supply: 0,
            },
            user_liability_account: token_account(4, 101, 1, 0),
            mint_authority: authority,
            token_program: Address { bytes: TOKEN_PROGRAM_ID },
            system_program: Address { bytes: SYSTEM_PROGRAM_ID },
        },
    }
}

fn refused(mut ctx: Context, amount: u64, error: StakeError) {
    let before = ctx;
    assert_eq!(stake_tokens(&mut ctx, amount), Err(error));
    assert_eq!(ctx, before);
}

#[test]
fn sound_deposit_goes_through() {
    let mut ctx = sound();
    assert_eq!(stake_tokens(&mut ctx, 500), went_through(500));
    assert_eq!(ctx.accounts.user.lamports, 100);
}

#[test]
fn caller_must_have_signed() {
    let mut ctx = sound();
    ctx.accounts.user.is_signer = false;
    refused(ctx, 10, StakeError::ConstraintViolation);
}

#[test]
fn caller_must_be_writable() {
    let mut ctx = sound();
    ctx.accounts.user.is_writable = false;
    refused(ctx, 10, StakeError::ConstraintViolation);
}

#[test]
fn holding_accounts_must_be_kept_by_the_token_program() {
    let mut ctx = sound();
    ctx.accounts.user_token_account.program = place(8);
    refused(ctx, 10, StakeError::ConstraintViolation);
    let mut ctx = sound();
    ctx.accounts.staking_token_account.program = Address { bytes: SYSTEM_PROGRAM_ID };
    refused(ctx, 10, StakeError::ConstraintViolation);
    let mut ctx = sound();
    ctx.accounts.user_liability_account.program = ctx.program_id;
    refused(ctx, 10, StakeError::ConstraintViolation);
    let mut ctx = sound();
    ctx.accounts.liability_mint.program = place(8);
    refused(ctx, 10, StakeError::ConstraintViolation);
}

#[test]
fn vault_and_mint_must_be_writable() {
    let mut ctx = sound();
    ctx.accounts.staking_token_account.is_writable = false;
    refused(ctx, 10, StakeError::ConstraintViolation);
    let mut ctx = sound();
    ctx.accounts.liability_mint.is_writable = false;
    refused(ctx, 10, StakeError::ConstraintViolation);
}

#[test]
fn callers_accounts_and_ledger_must_be_writable() {
    let mut ctx = sound();
    ctx.accounts.user_token_account.is_writable = false;
    refused(ctx, 10, StakeError::ConstraintViolation);
    let mut ctx = sound();
    ctx.accounts.user_liability_account.is_writable = false;
    refused(ctx, 10, StakeError::ConstraintViolation);
    let mut ctx = sound();
    ctx.accounts.liability_account.is_writable = false;
    refused(ctx, 10, StakeError::ConstraintViolation);
}

#[test]
fn holding_accounts_must_hold_the_expected_token() {
    let mut ctx = sound();
    ctx.accounts.staking_token_account.mint = place(55);
    refused(ctx, 10, StakeError::ConstraintViolation);
    let mut ctx = sound();
    ctx.accounts.user_liability_account.mint = place(100);
    refused(ctx, 10, StakeError::ConstraintViolation);
}

#[test]
fn holding_accounts_must_be_three_accounts() {
    let mut ctx = sound();
    ctx.accounts.staking_token_account.key = ctx.accounts.user_token_account.key;
    refused(ctx, 10, StakeError::ConstraintViolation);
    // A module whose deposit token is its own liability token.
    let mut ctx = sound();
    ctx.accounts.user_token_account.mint = place(101);
    ctx.accounts.staking_token_account.mint = place(101);
    let mut fine = ctx;
    assert_eq!(stake_tokens(&mut fine, 10), went_through(10));
    let mut same = ctx;
    same.accounts.user_liability_account.key = same.accounts.user_token_account.key;
    refused(same, 10, StakeError::ConstraintViolation);
    let mut same = ctx;
    same.accounts.user_liability_account.key = same.accounts.staking_token_account.key;
    refused(same, 10, StakeError::ConstraintViolation);
}

#[test]
fn ledger_must_sit_at_the_derived_address() {
    let mut ctx = sound();
    ctx.accounts.liability_account.key = place(66);
    refused(ctx, 10, StakeError::ConstraintViolation);
}

#[test]
fn subsystems_must_be_the_token_and_system_programs() {
    let mut ctx = sound();
    ctx.accounts.token_program = place(5);
    refused(ctx, 10, StakeError::ConstraintViolation);
    let mut ctx = sound();
    ctx.accounts.system_program = Address { bytes: TOKEN_PROGRAM_ID };
    refused(ctx, 10, StakeError::ConstraintViolation);
}

#[test]
fn authority_must_be_the_derived_address() {
    let mut ctx = sound();
    ctx.accounts.mint_authority = place(66);
    refused(ctx, 10, StakeError::InvalidSeeds);
    // Also where the mint is configured with the address named.
    ctx.accounts.liability_mint.mint_authority = Some(place(66));
    refused(ctx, 10, StakeError::InvalidSeeds);
}

#[test]
fn balance_must_cover_the_amount() {
    refused(sound(), 501, StakeError::InsufficientFunds);
    refused(sound(), u64::MAX, StakeError::InsufficientFunds);
}

#[test]
fn caller_must_own_the_source_account() {
    let mut ctx = sound();
    ctx.accounts.user_token_account.owner = place(30);
    refused(ctx, 10, StakeError::Unauthorized);
}

#[test]
fn mint_must_be_configured_with_the_derived_authority() {
    let mut ctx = sound();
    ctx.accounts.liability_mint.mint_authority = Some(place(30));
    refused(ctx, 10, StakeError::MintAuthorityMismatch);
    ctx.accounts.liability_mint.mint_authority = None;
    refused(ctx, 10, StakeError::MintAuthorityMismatch);
}

#[test]
fn ledger_must_be_paid_for_on_first_use() {
    let mut ctx = sound();
    ctx.accounts.user.lamports = 899;
    refused(ctx, 10, StakeError::AllocationFailure);
    // With exactly the price it goes through.
    ctx.accounts.user.lamports = 900;
    assert_eq!(stake_tokens(&mut ctx, 10), went_through(10));
    assert_eq!(ctx.accounts.user.lamports, 0);
    // A ledger that exists costs nothing more.
    ctx.accounts.user.lamports = 0;
    assert_eq!(stake_tokens(&mut ctx, 10), went_through(10));
    assert_eq!(ctx.accounts.liability_account.state.unwrap().total_staked, 20);
}

#[test]
fn balances_must_not_pass_the_largest_value() {
    let (_, bump) = found_for(&place(42));
    // The vault.
    let mut ctx = sound();
    ctx.accounts.staking_token_account.amount = u64::MAX;
    refused(ctx, 1, StakeError::Overflow);
    // The caller's liability account.
    let mut ctx = sound();
    ctx.accounts.user_liability_account.amount = u64::MAX - 5;
    refused(ctx, 6, StakeError::Overflow);
    // The liability in issue.
    let mut ctx = sound();
    ctx.accounts.liability_mint.supply = u64::MAX - 5;
    refused(ctx, 6, StakeError::Overflow);
    // The ledger's total.
    let mut ctx = sound();
    ctx.accounts.liability_account.state =
        Some(LiabilityAccount { total_staked: u64::MAX - 5, last_updated: 0, bump });
    refused(ctx, 6, StakeError::Overflow);
    // Up to the largest value it goes through.
    assert_eq!(stake_tokens(&mut ctx, 5), went_through(5));
    assert_eq!(ctx.accounts.liability_account.state.unwrap().total_staked, u64::MAX);
    assert_eq!(ctx.accounts.liability_mint.supply, 5);
}

#[test]
fn first_refusing_stage_decides() {
    // Everything is wrong at once: access control speaks first.
    let mut ctx = sound();
    ctx.accounts.user.is_signer = false;
    ctx.accounts.mint_authority = place(66);
    ctx.accounts.user_token_account.owner = place(30);
    ctx.accounts.liability_mint.mint_authority = None;
    ctx.accounts.user.lamports = 0;
    refused(ctx, 501, StakeError::ConstraintViolation);
    // Then the derivation.
    ctx.accounts.user.is_signer = true;
    refused(ctx, 501, StakeError::InvalidSeeds);
    // Then the transfer: the balance before the owner.
    ctx.accounts.mint_authority = sound().accounts.mint_authority;
    refused(ctx, 501, StakeError::InsufficientFunds);
    refused(ctx, 500, StakeError::Unauthorized);
    // Then the issuance.
    ctx.accounts.user_token_account.owner = place(1);
    refused(ctx, 500, StakeError::MintAuthorityMismatch);
    // Then the ledger.
    ctx.accounts.liability_mint.mint_authority = Some(ctx.accounts.mint_authority);
    refused(ctx, 500, StakeError::AllocationFailure);
    ctx.accounts.user.lamports = 900;
    assert_eq!(stake_tokens(&mut ctx, 500), went_through(500));
}

#[test]
fn access_is_checked_against_what_the_host_found() {
    let ctx = sound();
    let found = found_for(&ctx.program_id);
    assert_eq!(check_access(&ctx, &Some(found)), Ok(()));
    assert_eq!(check_access(&ctx, &None), Err(StakeError::ConstraintViolation));
    assert_eq!(
        check_access(&ctx, &Some((place(66), found.1))),
        Err(StakeError::ConstraintViolation)
    );
    // The nonce plays no part in access.
    assert_eq!(check_access(&ctx, &Some((found.0, 0))), Ok(()));
}

#[test]
fn deposit_follows_the_derivations_it_is_given() {
    // A made-up derivation: the ledger sits at 70, found under nonce 200.
    let mut ctx = sound();
    ctx.accounts.liability_account.key = place(70);
    ctx.accounts.mint_authority = place(70);
    ctx.accounts.liability_mint.mint_authority = Some(place(70));
    let before = ctx;

    let mut first = ctx;
    assert_eq!(stake_with_derivation(&mut first, 20, Some((place(70), 200)), None), went_through(20));
    assert_eq!(
        first.accounts.liability_account.state,
        Some(LiabilityAccount { total_staked: 20, last_updated: 1_000, bump: 200 })
    );
    assert_eq!(first.accounts.user_token_account.amount, 480);
    assert_eq!(first.accounts.staking_token_account.amount, 20);
    assert_eq!(first.accounts.user_liability_account.amount, 20);
    assert_eq!(first.accounts.liability_mint.supply, 20);
    assert_eq!(first.accounts.user.lamports, 100);

    // Nothing found: no access.
    let mut none = ctx;
    assert_eq!(
        stake_with_derivation(&mut none, 20, None, Some(place(70))),
        Err(StakeError::ConstraintViolation)
    );
    assert_eq!(none, before);

    // Without a stored nonce the re-derived address is not consulted.
    let mut ignored = ctx;
    assert_eq!(
        stake_with_derivation(&mut ignored, 20, Some((place(70), 200)), Some(place(71))),
        went_through(20)
    );

    // With a stored nonce it is what counts.
    let mut second = first;
    assert_eq!(
        stake_with_derivation(&mut second, 5, Some((place(70), 200)), Some(place(70))),
        went_through(5)
    );
    assert_eq!(
        second.accounts.liability_account.state,
        Some(LiabilityAccount { total_staked: 25, last_updated: 1_000, bump: 200 })
    );
    let mut astray = first;
    assert_eq!(
        stake_with_derivation(&mut astray, 5, Some((place(70), 200)), Some(place(71))),
        Err(StakeError::InvalidSeeds)
    );
    assert_eq!(astray, first);
    let mut underived = first;
    assert_eq!(
        stake_with_derivation(&mut underived, 5, Some((place(70), 200)), None),
        Err(StakeError::InvalidSeeds)
    );
    // A stored nonce stays, whatever the host finds later.
    let mut later = first;
    assert_eq!(
        stake_with_derivation(&mut later, 5, Some((place(70), 199)), Some(place(70))),
        went_through(5)
    );
    assert_eq!(later.accounts.liability_account.state.unwrap().bump, 200);
}
