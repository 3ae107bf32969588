//! The burn instruction: destroy tokens held by the owner's associated
//! token account.

use vstd::prelude::*;

use crate::accounts::{MintInfo, TokenAccountInfo, TokenCpi, TokenError};
use crate::address::{addr_eq, Address};
use crate::amounts::{pow10_spec, scale_to_base_units};
use crate::ata::{ata_of, derive_associated_token_address};

verus! {

/// The accounts a burn instruction names.
#[derive(Clone, Copy, Debug)]
pub struct BurnTokens {
    /// The wallet whose tokens are burned.
    pub owner: Address,
    /// Whether the owner signed the instruction.
    pub owner_is_signer: bool,
    /// The mint of the token being burned.
    pub mint_account: MintInfo,
    /// The owner's associated token account holding the tokens.
    pub token_account: TokenAccountInfo,
}

/// The declared account relationships of a burn instruction: the owner signs,
/// and the token account is the owner's associated account for the mint.
pub open spec fn burn_accounts_ok(a: BurnTokens) -> bool {
    &&& a.owner_is_signer
    &&& a.token_account.address@ == ata_of(a.owner@, a.mint_account.address@)
    &&& a.token_account.mint@ == a.mint_account.address@
    &&& a.token_account.owner@ == a.owner@
}

/// What a burn instruction does for the given accounts and whole-token
/// amount: the exact call forwarded to the ledger, or the first failed check.
pub open spec fn burn_outcome(a: BurnTokens, amount: u64) -> Result<TokenCpi, TokenError> {
    if !a.owner_is_signer {
        Err(TokenError::MissingSignature)
    } else if a.token_account.address@ != ata_of(a.owner@, a.mint_account.address@) {
        Err(TokenError::AssociatedTokenMismatch)
    } else if a.token_account.mint@ != a.mint_account.address@ {
        Err(TokenError::MintMismatch)
    } else if a.token_account.owner@ != a.owner@ {
        Err(TokenError::OwnerMismatch)
    } else if amount * pow10_spec(a.mint_account.decimals as nat) > u64::MAX {
        Err(TokenError::AmountTooLarge)
    } else {
        Ok(
            TokenCpi::Burn {
                mint: a.mint_account.address,
                from: a.token_account.address,
                authority: a.owner,
                base_amount: (amount * pow10_spec(a.mint_account.decimals as nat)) as u64,
            },
        )
    }
}

/// Validates the accounts and scales the amount to base units; returns the
/// burn call to forward to the token ledger, or the first failed check.
pub fn burn_tokens(a: &BurnTokens, amount: u64) -> (r: Result<TokenCpi, TokenError>)
    ensures
        r == burn_outcome(*a, amount),
        r is Ok <==> burn_accounts_ok(*a) && amount * pow10_spec(
            a.mint_account.decimals as nat,
        ) <= u64::MAX,
{
    if !a.owner_is_signer {
        return Err(TokenError::MissingSignature);
    }
    let expected = derive_associated_token_address(&a.owner, &a.mint_account.address);
    if !addr_eq(&a.token_account.address, &expected) {
        return Err(TokenError::AssociatedTokenMismatch);
    }
    if !addr_eq(&a.token_account.mint, &a.mint_account.address) {
        return Err(TokenError::MintMismatch);
    }
    if !addr_eq(&a.token_account.owner, &a.owner) {
        return Err(TokenError::OwnerMismatch);
    }
    match scale_to_base_units(amount, a.mint_account.decimals) {
        Some(base_amount) => Ok(
            TokenCpi::Burn {
                mint: a.mint_account.address,
                from: a.token_account.address,
                authority: a.owner,
                base_amount,
            },
        ),
        None => Err(TokenError::AmountTooLarge),
    }
}

} // verus!
