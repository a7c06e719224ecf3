//! The signing key of a client: an Ed25519 secret key with its public key.

use crate::address::Address;
use crate::error::ClientError;
use solana_sdk::signature::Signer;
use vstd::prelude::*;

verus! {

/// The two halves of a keypair as plain bytes.
#[derive(Clone, Copy, Debug, PartialEq, Eq)]
pub struct KeypairBytes {
    /// The secret key.
    pub secret: [u8; 32],
    /// The public key that belongs to the secret key.
    pub public: [u8; 32],
}

/// A signing key together with its public key.
///
/// A keypair that was decoded from its base58 text holds the public key that
/// the signing library derived for the secret; nothing here derives one.
#[derive(Debug)]
pub struct Keypair {
    secret: [u8; 32],
    public: [u8; 32],
}

impl View for Keypair {
    type V = KeypairBytes;

    closed spec fn view(&self) -> KeypairBytes {
        KeypairBytes { secret: self.secret, public: self.public }
    }
}

/// The keypair that `solana_sdk::signature::Keypair::try_from_base58_string`
/// recovers from a text, as its secret and public key, or `None` where it
/// rejects the text.
pub uninterp spec fn keypair_parse(text: Seq<char>) -> Option<KeypairBytes>;

/// What decoding a text as a signing key yields.
pub open spec fn keypair_from_parse(outcome: Option<KeypairBytes>) -> Result<
    KeypairBytes,
    ClientError,
> {
    match outcome {
        Some(parts) => Ok(parts),
        None => Err(ClientError::InvalidPayerKey),
    }
}

/// Calls `Keypair::try_from_base58_string` of `solana_sdk` on the text and
/// hands back the secret key and the public key of the keypair it recovers.
/// Trusted: the result is the named outcome of that call on this text, with
/// `None` for every error.
#[verifier::external_body]
fn decode_keypair(text: &str) -> (outcome: Option<KeypairBytes>)
    ensures
        outcome == keypair_parse(text@),
{
    match solana_sdk::signature::Keypair::try_from_base58_string(text) {
        Ok(pair) => Some(
            KeypairBytes { secret: *pair.secret_bytes(), public: pair.pubkey().to_bytes() },
        ),
        Err(_) => None,
    }
}

impl Keypair {
    /// Builds the keypair that the outcome of a decoding stands for, or the
    /// configuration error that reports an unusable key text.
    pub fn from_parse(outcome: Option<KeypairBytes>) -> (result: Result<Keypair, ClientError>)
        ensures
            match keypair_from_parse(outcome) {
                Ok(parts) => result matches Ok(pair) && pair@ == parts,
                Err(error) => result === Err(error),
            },
    {
        match outcome {
            Some(parts) => Ok(Keypair { secret: parts.secret, public: parts.public }),
            None => Err(ClientError::InvalidPayerKey),
        }
    }

    /// Recovers a keypair from its base58 text, or reports that the text is
    /// no keypair.
    pub fn try_from_base58_string(s: &str) -> (result: Result<Keypair, ClientError>)
        ensures
            match keypair_from_parse(keypair_parse(s@)) {
                Ok(parts) => result matches Ok(pair) && pair@ == parts,
                Err(error) => result === Err(error),
            },
    {
        Keypair::from_parse(decode_keypair(s))
    }

    /// Recovers a keypair from a text that is known to be one.
    pub fn from_base58_string(s: &str) -> (pair: Keypair)
        requires
            keypair_parse(s@) is Some,
        ensures
            Some(pair@) == keypair_parse(s@),
    {
        match Keypair::try_from_base58_string(s) {
            Ok(pair) => pair,
            Err(_) => {
                proof {
                    assert(false);
                }
                vstd::pervasive::unreached()
            },
        }
    }

    /// The address of the public key.
    pub fn pubkey(&self) -> (address: Address)
        ensures
            address.bytes == self@.public,
    {
        Address { bytes: self.public }
    }

    /// The secret key.
    pub fn secret_bytes(&self) -> (secret: [u8; 32])
        ensures
            secret == self@.secret,
    {
        self.secret
    }
}

/// Two keypairs with the same halves are the same keypair.
pub proof fn lemma_keypair_determined_by_view(a: Keypair, b: Keypair)
    requires
        a@ == b@,
    ensures
        a == b,
{
}

} // verus!
