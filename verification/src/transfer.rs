//! The transfer instruction: move tokens from the sender's associated token
//! account to the recipient's.

use vstd::prelude::*;

use crate::accounts::{MintInfo, TokenAccountInfo, TokenCpi, TokenError};
use crate::address::{addr_eq, Address};
use crate::amounts::{pow10_spec, scale_to_base_units};
use crate::ata::{ata_of, derive_associated_token_address};

verus! {

/// The accounts a transfer instruction names.
#[derive(Clone, Copy, Debug)]
pub struct TransferTokens {
    /// The wallet sending tokens; it must sign.
    pub sender: Address,
    /// Whether the sender signed the instruction.
    pub sender_is_signer: bool,
    /// The wallet receiving tokens.
    pub recipient: Address,
    /// The mint of the token being moved.
    pub mint_account: MintInfo,
    /// The sender's associated token account.
    pub sender_token_account: TokenAccountInfo,
    /// The recipient's associated token account, created first if missing.
    pub recipient_token_account: TokenAccountInfo,
}

/// The declared account relationships of a transfer instruction: the sender
/// signs, and each token account is its wallet's associated account for the
/// mint.
pub open spec fn transfer_accounts_ok(a: TransferTokens) -> bool {
    &&& a.sender_is_signer
    &&& a.sender_token_account.address@ == ata_of(a.sender@, a.mint_account.address@)
    &&& a.sender_token_account.mint@ == a.mint_account.address@
    &&& a.sender_token_account.owner@ == a.sender@
    &&& a.recipient_token_account.address@ == ata_of(a.recipient@, a.mint_account.address@)
    &&& a.recipient_token_account.mint@ == a.mint_account.address@
    &&& a.recipient_token_account.owner@ == a.recipient@
}

/// What a transfer instruction does for the given accounts and whole-token
/// amount: the exact call forwarded to the ledger, or the first failed
/// check. The sender's account is checked before the recipient's.
pub open spec fn transfer_outcome(a: TransferTokens, amount: u64) -> Result<
    TokenCpi,
    TokenError,
> {
    if !a.sender_is_signer {
        Err(TokenError::MissingSignature)
    } else if a.sender_token_account.address@ != ata_of(a.sender@, a.mint_account.address@) {
        Err(TokenError::AssociatedTokenMismatch)
    } else if a.sender_token_account.mint@ != a.mint_account.address@ {
        Err(TokenError::MintMismatch)
    } else if a.sender_token_account.owner@ != a.sender@ {
        Err(TokenError::OwnerMismatch)
    } else if a.recipient_token_account.address@ != ata_of(
        a.recipient@,
        a.mint_account.address@,
    ) {
        Err(TokenError::AssociatedTokenMismatch)
    } else if a.recipient_token_account.mint@ != a.mint_account.address@ {
        Err(TokenError::MintMismatch)
    } else if a.recipient_token_account.owner@ != a.recipient@ {
        Err(TokenError::OwnerMismatch)
    } else if amount * pow10_spec(a.mint_account.decimals as nat) > u64::MAX {
        Err(TokenError::AmountTooLarge)
    } else {
        Ok(
            TokenCpi::Transfer {
                from: a.sender_token_account.address,
                to: a.recipient_token_account.address,
                authority: a.sender,
                base_amount: (amount * pow10_spec(a.mint_account.decimals as nat)) as u64,
            },
        )
    }
}

/// Validates the accounts and scales the amount to base units; returns the
/// transfer call to forward to the token ledger, or the first failed check.
pub fn transfer_tokens(a: &TransferTokens, amount: u64) -> (r: Result<TokenCpi, TokenError>)
    ensures
        r == transfer_outcome(*a, amount),
        r is Ok <==> transfer_accounts_ok(*a) && amount * pow10_spec(
            a.mint_account.decimals as nat,
        ) <= u64::MAX,
{
    if !a.sender_is_signer {
        return Err(TokenError::MissingSignature);
    }
    let sender_expected = derive_associated_token_address(&a.sender, &a.mint_account.address);
    if !addr_eq(&a.sender_token_account.address, &sender_expected) {
        return Err(TokenError::AssociatedTokenMismatch);
    }
    if !addr_eq(&a.sender_token_account.mint, &a.mint_account.address) {
        return Err(TokenError::MintMismatch);
    }
    if !addr_eq(&a.sender_token_account.owner, &a.sender) {
        return Err(TokenError::OwnerMismatch);
    }
    let recipient_expected = derive_associated_token_address(
        &a.recipient,
        &a.mint_account.address,
    );
    if !addr_eq(&a.recipient_token_account.address, &recipient_expected) {
        return Err(TokenError::AssociatedTokenMismatch);
    }
    if !addr_eq(&a.recipient_token_account.mint, &a.mint_account.address) {
        return Err(TokenError::MintMismatch);
    }
    if !addr_eq(&a.recipient_token_account.owner, &a.recipient) {
        return Err(TokenError::OwnerMismatch);
    }
    match scale_to_base_units(amount, a.mint_account.decimals) {
        Some(base_amount) => Ok(
            TokenCpi::Transfer {
                from: a.sender_token_account.address,
                to: a.recipient_token_account.address,
                authority: a.sender,
                base_amount,
            },
        ),
        None => Err(TokenError::AmountTooLarge),
    }
}

} // verus!
