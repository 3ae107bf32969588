//! The create instruction: record the title, symbol and URI of a new mint
//! in its metadata account.

use vstd::prelude::*;

use crate::accounts::{TokenCpi, TokenError};
use crate::address::Address;

verus! {

/// The accounts a create instruction names.
#[derive(Clone, Copy, Debug)]
pub struct CreateToken {
    /// The wallet paying for the new accounts; it must sign.
    pub payer: Address,
    /// Whether the payer signed the instruction.
    pub payer_is_signer: bool,
    /// The address of the newly initialized mint.
    pub mint_account: Address,
}

/// What a create instruction does for the given accounts and metadata: the
/// exact call forwarded to the metadata program, or the failed check.
pub open spec fn create_outcome(
    a: CreateToken,
    token_title: String,
    token_symbol: String,
    token_uri: String,
) -> Result<TokenCpi, TokenError> {
    if !a.payer_is_signer {
        Err(TokenError::MissingSignature)
    } else {
        Ok(
            TokenCpi::CreateMetadata {
                mint: a.mint_account,
                payer: a.payer,
                name: token_title,
                symbol: token_symbol,
                uri: token_uri,
            },
        )
    }
}

/// Validates the accounts; returns the metadata call to forward, carrying
/// the new token's title, symbol and URI, or the failed check.
pub fn create_token(
    a: &CreateToken,
    token_title: String,
    token_symbol: String,
    token_uri: String,
) -> (r: Result<TokenCpi, TokenError>)
    ensures
        r == create_outcome(*a, token_title, token_symbol, token_uri),
        r is Ok <==> a.payer_is_signer,
{
    if !a.payer_is_signer {
        return Err(TokenError::MissingSignature);
    }
    Ok(
        TokenCpi::CreateMetadata {
            mint: a.mint_account,
            payer: a.payer,
            name: token_title,
            symbol: token_symbol,
            uri: token_uri,
        },
    )
}

} // verus!
