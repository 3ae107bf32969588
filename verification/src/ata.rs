//! The deterministic address of an associated token account.

use vstd::prelude::*;

use crate::address::Address;
use solana_program::pubkey::Pubkey;
use spl_associated_token_account::get_associated_token_address;

verus! {

/// The associated token address the host derives for a wallet and a mint.
pub uninterp spec fn ata_of(wallet: Seq<u8>, mint: Seq<u8>) -> Seq<u8>;

/// Relies on `spl_associated_token_account::get_associated_token_address`:
/// the derived address is a function of the wallet and mint addresses alone.
#[verifier::external_body]
pub(crate) fn derive_associated_token_address(wallet: &Address, mint: &Address) -> (r: Address)
    ensures
        r@ == ata_of(wallet@, mint@),
{
    let w = Pubkey::new_from_array(wallet.bytes);
    let m = Pubkey::new_from_array(mint.bytes);
    Address { bytes: get_associated_token_address(&w, &m).to_bytes() }
}

} // verus!
