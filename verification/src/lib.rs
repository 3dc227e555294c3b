//! A custodial ledger: a named bank holds a balance that anyone may fund and
//! that only its owner may draw on.
//!
//! The balance of a bank is never trusted as stored. Each deposit and each
//! withdrawal derives it anew from the funds that back the bank, less the
//! reserve that keeps the bank's record alive.

pub mod account;
pub mod error;
pub mod identity;
pub mod laws;
pub mod ledger;

pub use account::{Bank, BankAccount, BANK_SIZE};
pub use error::BankError;
pub use identity::Signer;
pub use anchor_lang::prelude::Pubkey;
pub use ledger::{create, deposit, withdraw, Create, Deposit, Withdraw};
