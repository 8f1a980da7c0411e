//! A value-custody module: a user deposits units of a fungible token into a
//! shared vault and receives the same quantity of a liability token as a
//! receipt, while a singleton ledger accumulates the total deposited.
//!
//! The one operation is [`stake_tokens`]. It validates the participants,
//! moves the deposit into the vault, issues the liability under an authority
//! that is derived rather than signed, and updates the ledger: all of it, or
//! on any failure none of it.

pub mod access;
pub mod accounts;
pub mod address;
pub mod derivation;
pub mod error;
pub mod history;
pub mod laws;
pub mod layout;
pub mod ledger;
pub mod report;
pub mod stake;
pub mod token;

pub use accounts::{
    Context, LedgerAccount, LiabilityAccount, Mint, Signer, StakeTokens, TokenAccount,
};
pub use address::Address;
pub use error::StakeError;
pub use report::StakeReport;
pub use stake::{stake_tokens, stake_with_derivation};
