//! Account addresses: thirty-two bytes with a canonical base58 text form.

use crate::error::ClientError;
use solana_sdk::pubkey::{ParsePubkeyError, Pubkey};
use std::str::FromStr;
use vstd::prelude::*;

verus! {

/// The address of an account or program: a fixed block of thirty-two bytes.
#[derive(Clone, Copy, Debug, PartialEq, Eq, Hash)]
pub struct Address {
    pub bytes: [u8; 32],
}

/// Why a text is not the encoding of an address.
#[derive(Clone, Copy, Debug, PartialEq, Eq, Structural)]
pub enum ParseAddressError {
    /// The text is too long, or does not stand for exactly thirty-two bytes.
    WrongSize,
    /// The text holds a character outside the base58 alphabet.
    Invalid,
}

impl View for Address {
    type V = Seq<u8>;

    open spec fn view(&self) -> Seq<u8> {
        self.bytes@
    }
}

/// What `solana_sdk::pubkey::Pubkey::from_str` makes of a text: the bytes of
/// the address it decodes to, or the reason it rejects the text.
pub uninterp spec fn pubkey_parse(text: Seq<char>) -> Result<[u8; 32], ParseAddressError>;

/// The text that `solana_sdk::pubkey::Pubkey` displays for an address with
/// the given bytes.
pub uninterp spec fn pubkey_text(bytes: Seq<u8>) -> Seq<char>;

/// What parsing a text as an address yields.
pub open spec fn parse_address(text: Seq<char>) -> Result<Address, ClientError> {
    address_from_parse(pubkey_parse(text))
}

/// The address, or the format error, that the outcome of a base58 decoding
/// stands for.
pub open spec fn address_from_parse(outcome: Result<[u8; 32], ParseAddressError>) -> Result<
    Address,
    ClientError,
> {
    match outcome {
        Ok(bytes) => Ok(Address { bytes }),
        Err(reason) => Err(ClientError::InvalidAddress(reason)),
    }
}

/// Calls `Pubkey::from_str` of `solana_sdk` on the text and hands back the
/// bytes of the decoded key, or which of its two errors the text met.
/// Trusted: the result is the named outcome of that call on this text.
#[verifier::external_body]
pub(crate) fn decode_pubkey(text: &str) -> (outcome: Result<[u8; 32], ParseAddressError>)
    ensures
        outcome == pubkey_parse(text@),
{
    match Pubkey::from_str(text) {
        Ok(key) => Ok(key.to_bytes()),
        Err(ParsePubkeyError::WrongSize) => Err(ParseAddressError::WrongSize),
        Err(ParsePubkeyError::Invalid) => Err(ParseAddressError::Invalid),
    }
}

/// Formats a `solana_sdk` `Pubkey` made of the bytes with its `Display`
/// impl. Trusted: the result is the named text of these bytes, and
/// `Pubkey::from_str` decodes that text to the same bytes again.
#[verifier::external_body]
fn encode_pubkey(bytes: &[u8; 32]) -> (text: String)
    ensures
        text@ == pubkey_text(bytes@),
        pubkey_parse(text@) === Ok(*bytes),
{
    Pubkey::new_from_array(*bytes).to_string()
}

impl Address {
    /// Wraps thirty-two bytes as an address.
    pub fn new_from_array(bytes: [u8; 32]) -> (address: Address)
        ensures
            address == (Address { bytes }),
    {
        Address { bytes }
    }

    /// The thirty-two bytes of the address.
    pub fn to_bytes(&self) -> (bytes: [u8; 32])
        ensures
            bytes == self.bytes,
    {
        self.bytes
    }

    /// The canonical base58 text of the address. Parsing it gives the
    /// address back.
    pub fn to_base58(&self) -> (text: String)
        ensures
            text@ == pubkey_text(self@),
            parse_address(text@) === Ok(*self),
    {
        encode_pubkey(&self.bytes)
    }

    /// Turns the outcome of a base58 decoding into an address, or into the
    /// format error that reports why the text was rejected.
    pub fn from_parse(outcome: Result<[u8; 32], ParseAddressError>) -> (result: Result<
        Address,
        ClientError,
    >)
        ensures
            result == address_from_parse(outcome),
    {
        match outcome {
            Ok(bytes) => Ok(Address { bytes }),
            Err(reason) => Err(ClientError::InvalidAddress(reason)),
        }
    }
}

/// Two addresses with the same bytes are the same address.
pub proof fn lemma_address_determined_by_view(a: Address, b: Address)
    requires
        a@ == b@,
    ensures
        a == b,
{
    assert(a.bytes =~= b.bytes);
}

} // verus!
