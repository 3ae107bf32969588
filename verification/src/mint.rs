//! The mint instruction: issue new tokens to a recipient's associated
//! token account.

use vstd::prelude::*;

use crate::accounts::{MintInfo, TokenAccountInfo, TokenCpi, TokenError};
use crate::address::{addr_eq, Address};
use crate::amounts::{pow10_spec, scale_to_base_units};
use crate::ata::{ata_of, derive_associated_token_address};

verus! {

/// The accounts a mint instruction names.
#[derive(Clone, Copy, Debug)]
pub struct MintToken {
    /// The mint authority; it must sign.
    pub mint_authority: Address,
    /// Whether the mint authority signed the instruction.
    pub mint_authority_is_signer: bool,
    /// The wallet that receives the new tokens.
    pub recipient: Address,
    /// The mint of the token being issued.
    pub mint_account: MintInfo,
    /// The recipient's associated token account, created first if missing.
    pub associated_token_account: TokenAccountInfo,
}

/// The declared account relationships of a mint instruction: the authority
/// signs, and the target account is the recipient's associated account for
/// the mint.
pub open spec fn mint_accounts_ok(a: MintToken) -> bool {
    &&& a.mint_authority_is_signer
    &&& a.associated_token_account.address@ == ata_of(a.recipient@, a.mint_account.address@)
    &&& a.associated_token_account.mint@ == a.mint_account.address@
    &&& a.associated_token_account.owner@ == a.recipient@
}

/// What a mint instruction does for the given accounts and whole-token
/// amount: the exact call forwarded to the ledger, or the first failed check.
pub open spec fn mint_outcome(a: MintToken, amount: u64) -> Result<TokenCpi, TokenError> {
    if !a.mint_authority_is_signer {
        Err(TokenError::MissingSignature)
    } else if a.associated_token_account.address@ != ata_of(
        a.recipient@,
        a.mint_account.address@,
    ) {
        Err(TokenError::AssociatedTokenMismatch)
    } else if a.associated_token_account.mint@ != a.mint_account.address@ {
        Err(TokenError::MintMismatch)
    } else if a.associated_token_account.owner@ != a.recipient@ {
        Err(TokenError::OwnerMismatch)
    } else if amount * pow10_spec(a.mint_account.decimals as nat) > u64::MAX {
        Err(TokenError::AmountTooLarge)
    } else {
        Ok(
            TokenCpi::MintTo {
                mint: a.mint_account.address,
                to: a.associated_token_account.address,
                authority: a.mint_authority,
                base_amount: (amount * pow10_spec(a.mint_account.decimals as nat)) as u64,
            },
        )
    }
}

/// Validates the accounts and scales the amount to base units; returns the
/// mint call to forward to the token ledger, or the first failed check.
pub fn mint_token(a: &MintToken, amount: u64) -> (r: Result<TokenCpi, TokenError>)
    ensures
        r == mint_outcome(*a, amount),
        r is Ok <==> mint_accounts_ok(*a) && amount * pow10_spec(
            a.mint_account.decimals as nat,
        ) <= u64::MAX,
{
    if !a.mint_authority_is_signer {
        return Err(TokenError::MissingSignature);
    }
    let expected = derive_associated_token_address(&a.recipient, &a.mint_account.address);
    if !addr_eq(&a.associated_token_account.address, &expected) {
        return Err(TokenError::AssociatedTokenMismatch);
    }
    if !addr_eq(&a.associated_token_account.mint, &a.mint_account.address) {
        return Err(TokenError::MintMismatch);
    }
    if !addr_eq(&a.associated_token_account.owner, &a.recipient) {
        return Err(TokenError::OwnerMismatch);
    }
    match scale_to_base_units(amount, a.mint_account.decimals) {
        Some(base_amount) => Ok(
            TokenCpi::MintTo {
                mint: a.mint_account.address,
                to: a.associated_token_account.address,
                authority: a.mint_authority,
                base_amount,
            },
        ),
        None => Err(TokenError::AmountTooLarge),
    }
}

} // verus!
