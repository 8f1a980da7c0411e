//! The accounts that take part in a deposit, as plain values.

use crate::address::Address;
use vstd::prelude::*;

verus! {

/// The caller: an identity outside the module, which pays for the ledger's
/// storage on first use.
#[derive(Clone, Copy, Debug, PartialEq, Eq)]
pub struct Signer {
    pub key: Address,
    /// Whether this identity authenticated the transaction.
    pub is_signer: bool,
    pub is_writable: bool,
    /// The funds from which storage is paid.
    pub lamports: u64,
}

/// A holding account for one kind of token.
#[derive(Clone, Copy, Debug, PartialEq, Eq)]
pub struct TokenAccount {
    pub key: Address,
    /// The program that keeps this account.
    pub program: Address,
    pub is_writable: bool,
    /// The token that the account holds.
    pub mint: Address,
    /// The identity that may move the balance.
    pub owner: Address,
    pub amount: u64,
}

/// The registry of a token: who may issue it and how much is issued.
#[derive(Clone, Copy, Debug, PartialEq, Eq)]
pub struct Mint {
    pub key: Address,
    /// The program that keeps this account.
    pub program: Address,
    pub is_writable: bool,
    /// The identity that may issue new units, if any.
    pub mint_authority: Option<Address>,
    pub supply: u64,
}

/// The ledger's record: the sum of all deposits, the time of the latest one,
/// and the nonce of the issuing authority.
#[derive(Clone, Copy, Debug, PartialEq, Eq)]
pub struct LiabilityAccount {
    pub total_staked: u64,
    pub last_updated: i64,
    pub bump: u8,
}

/// The place of the singleton ledger. `state` is `None` until the first
/// deposit creates the record.
#[derive(Clone, Copy, Debug, PartialEq, Eq)]
pub struct LedgerAccount {
    pub key: Address,
    pub is_writable: bool,
    pub state: Option<LiabilityAccount>,
}

/// The participants of one deposit.
#[derive(Clone, Copy, Debug, PartialEq, Eq)]
pub struct StakeTokens {
    pub user: Signer,
    /// The caller's holding account for the deposit token.
    pub user_token_account: TokenAccount,
    /// The vault.
    pub staking_token_account: TokenAccount,
    pub liability_account: LedgerAccount,
    pub liability_mint: Mint,
    /// The caller's holding account for the liability token.
    pub user_liability_account: TokenAccount,
    /// The issuing authority that the caller names.
    pub mint_authority: Address,
    pub token_program: Address,
    pub system_program: Address,
}

/// What the host hands to a deposit: the module's identity, the accounts,
/// the time and the price of the ledger's storage.
#[derive(Clone, Copy, Debug, PartialEq, Eq)]
pub struct Context {
    pub program_id: Address,
    pub accounts: StakeTokens,
    /// The time of the call.
    pub unix_timestamp: i64,
    /// What creating the ledger costs its payer.
    pub rent: u64,
}

} // verus!
