//! Helpers for reading addresses from text.

use crate::address::{decode_pubkey, parse_address, Address};
use crate::error::ClientError;
use vstd::prelude::*;

verus! {

/// Parses the base58 text of an address.
///
/// Succeeds exactly on the texts that decode to thirty-two bytes; any other
/// text is a format error that carries the reason.
pub fn pubkey_from_str(pubkey_str: &str) -> (result: Result<Address, ClientError>)
    ensures
        result == parse_address(pubkey_str@),
{
    Address::from_parse(decode_pubkey(pubkey_str))
}

} // verus!
