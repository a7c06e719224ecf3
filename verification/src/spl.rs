//! Addresses of associated token accounts.

use crate::address::Address;
use solana_sdk::pubkey::Pubkey;
use vstd::prelude::*;

verus! {

/// The address that `spl_associated_token_account::get_associated_token_address`
/// derives for the wallet and the mint with the given bytes.
pub uninterp spec fn associated_token_address(wallet: Seq<u8>, mint: Seq<u8>) -> [u8; 32];

/// Calls `get_associated_token_address` of `spl_associated_token_account` on
/// the two keys and hands back the bytes of the derived key. Trusted: the
/// result is the named address of these two inputs. That function has no
/// failing result; its search over the 255 bump seeds gives up only where
/// every candidate lies on the curve, which its own documentation calls
/// statistically improbable.
#[verifier::external_body]
#[allow(deprecated)]
fn derive_associated_token_address(wallet: &[u8; 32], mint: &[u8; 32]) -> (derived: [u8; 32])
    ensures
        derived == associated_token_address(wallet@, mint@),
{
    spl_associated_token_account::get_associated_token_address(
        &Pubkey::new_from_array(*wallet),
        &Pubkey::new_from_array(*mint),
    ).to_bytes()
}

/// The address of the token account that a wallet holds for a mint.
///
/// The address is a function of the two inputs alone: the same wallet and
/// mint always give the same account.
pub fn get_ata(wallet_address: &Address, token_mint_address: &Address) -> (ata: Address)
    ensures
        ata.bytes == associated_token_address(wallet_address@, token_mint_address@),
{
    Address { bytes: derive_associated_token_address(&wallet_address.bytes, &token_mint_address.bytes) }
}

} // verus!
