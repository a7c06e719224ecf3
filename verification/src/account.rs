//! Account records, and the shape in which a node reports them.

use crate::address::Address;
use crate::commitment::CommitmentConfig;
use vstd::prelude::*;

verus! {

/// Number of bytes of the discriminator that precedes the payload of a typed
/// account.
pub const DISCRIMINATOR_LEN: usize = 8;

/// An account as the ledger holds it.
#[derive(Clone, Debug, PartialEq, Eq)]
pub struct Account {
    /// Balance of the account, in lamports.
    pub lamports: u64,
    /// The data that the account stores.
    pub data: Vec<u8>,
    /// The program that owns the account.
    pub owner: Address,
    /// Whether the account holds a program.
    pub executable: bool,
    /// The epoch at which the account next owes rent.
    pub rent_epoch: u64,
}

/// A value as a node observed it at some slot.
#[derive(Clone, Debug, PartialEq, Eq)]
pub struct Observed<T> {
    /// The slot at which the node read the value.
    pub slot: u64,
    /// What the node found.
    pub value: T,
}

/// The answer to a lookup, tagged with the confirmation level it was made at.
#[derive(Clone, Debug, PartialEq, Eq)]
pub struct Response<T> {
    /// The confirmation level that the lookup asked for.
    pub commitment: CommitmentConfig,
    /// The slot at which the node read the value.
    pub slot: u64,
    /// What the node found.
    pub value: T,
}

/// The payload of a typed account: what follows the discriminator. Data
/// shorter than the discriminator has no payload.
pub open spec fn account_payload(data: Seq<u8>) -> Option<Seq<u8>> {
    if data.len() >= DISCRIMINATOR_LEN {
        Some(data.skip(DISCRIMINATOR_LEN as int))
    } else {
        None
    }
}

/// Whatever discriminator is put in front of a payload, the payload of the
/// result is that payload again.
pub proof fn lemma_payload_of_prefixed(discriminator: Seq<u8>, payload: Seq<u8>)
    requires
        discriminator.len() == DISCRIMINATOR_LEN,
    ensures
        account_payload(discriminator + payload) == Some(payload),
{
    assert((discriminator + payload).skip(DISCRIMINATOR_LEN as int) =~= payload);
}

/// Data has a payload exactly when it is at least as long as the
/// discriminator, and the payload is then shorter by that length.
pub proof fn lemma_payload_length(data: Seq<u8>)
    ensures
        account_payload(data) is Some <==> data.len() >= DISCRIMINATOR_LEN,
        account_payload(data) matches Some(payload) ==> payload.len() + DISCRIMINATOR_LEN
            == data.len(),
{
}

} // verus!
