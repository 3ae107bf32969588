//! Plain-data pictures of the accounts a handler reads, the errors it can
//! report, and the single call it forwards to the host token ledger.

use vstd::prelude::*;

use crate::address::Address;

verus! {

/// The mint fields that the handlers read: its address and decimal count.
#[derive(Clone, Copy, Debug)]
pub struct MintInfo {
    pub address: Address,
    pub decimals: u8,
}

/// The token-account fields that the handlers read: its own address, the
/// mint it belongs to, and the wallet that owns it.
#[derive(Clone, Copy, Debug)]
pub struct TokenAccountInfo {
    pub address: Address,
    pub mint: Address,
    pub owner: Address,
}

/// Why a handler refused to forward a call.
#[derive(Clone, Copy, Debug, PartialEq, Eq, Structural)]
pub enum TokenError {
    /// The account that must authorize the call has not signed it.
    MissingSignature,
    /// A token account does not sit at the associated address derived from
    /// its owner and the mint.
    AssociatedTokenMismatch,
    /// A token account does not belong to the given mint.
    MintMismatch,
    /// A token account is not owned by the wallet the instruction names.
    OwnerMismatch,
    /// The requested amount, scaled to base units, does not fit in a `u64`.
    AmountTooLarge,
}

/// The single call a handler forwards to the host token ledger.
#[derive(Clone, Debug, PartialEq, Eq)]
pub enum TokenCpi {
    /// Create the metadata record of a new mint.
    CreateMetadata { mint: Address, payer: Address, name: String, symbol: String, uri: String },
    /// Mint `base_amount` base units to `to`, authorized by `authority`.
    MintTo { mint: Address, to: Address, authority: Address, base_amount: u64 },
    /// Move `base_amount` base units from `from` to `to`, authorized by `authority`.
    Transfer { from: Address, to: Address, authority: Address, base_amount: u64 },
    /// Burn `base_amount` base units held by `from`, authorized by `authority`.
    Burn { mint: Address, from: Address, authority: Address, base_amount: u64 },
}

} // verus!
