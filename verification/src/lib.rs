//! Validation and amount scaling for a fungible-token program.
//!
//! The on-chain program exposes four instructions (create, mint, transfer,
//! burn). Each one validates a fixed set of account relationships and then
//! forwards a single call to the host token ledger, with the requested amount
//! scaled from whole tokens to base units by the mint's decimal count. This
//! crate holds that decision logic: given a plain-data picture of the accounts
//! and the requested amount, it either produces the exact call to forward or
//! reports which check failed.

pub mod accounts;
pub mod address;
pub mod amounts;
pub mod ata;
pub mod burn;
pub mod create;
pub mod mint;
pub mod transfer;

pub use crate::burn::{burn_tokens, BurnTokens};
pub use crate::create::{create_token, CreateToken};
pub use crate::mint::{mint_token, MintToken};
pub use crate::transfer::{transfer_tokens, TransferTokens};
