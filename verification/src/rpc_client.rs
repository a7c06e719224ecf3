//! The client: what it is set up with, and how it reads the node's replies.
//!
//! The client itself never talks to a node. For a lookup the caller asks the
//! node and hands the reply to the method of the same name, which decides
//! what the reply means; a submission is driven step by step through
//! [`RpcClient::send_tx`].

use crate::account::{account_payload, Account, Observed, Response, DISCRIMINATOR_LEN};
use crate::address::Address;
use crate::commitment::{CommitmentConfig, CommitmentLevel};
use crate::error::{ClientError, ErrorKind};
use crate::keypair::{keypair_parse, Keypair, KeypairBytes};
use crate::transaction::{next_send_step, send_step, SendAction, SendEvent, SendState};
use vstd::prelude::*;

verus! {

/// A client for one node, with the key it signs with, if it has one.
#[derive(Debug)]
pub struct RpcClient {
    node_url: String,
    commitment: CommitmentConfig,
    payer: Option<Keypair>,
}

/// What a client is made of.
pub struct RpcClientView {
    /// The address of the node.
    pub node_url: Seq<char>,
    /// The confirmation level that plain lookups ask for.
    pub commitment: CommitmentConfig,
    /// The signing key, if the client has one.
    pub payer: Option<KeypairBytes>,
}

impl RpcClientView {
    /// The address that pays for the transactions of the client.
    pub open spec fn payer_key(self) -> Option<Address> {
        match self.payer {
            Some(pair) => Some(Address { bytes: pair.public }),
            None => None,
        }
    }
}

impl View for RpcClient {
    type V = RpcClientView;

    closed spec fn view(&self) -> RpcClientView {
        RpcClientView {
            node_url: self.node_url@,
            commitment: self.commitment,
            payer: match self.payer {
                Some(pair) => Some(pair@),
                None => None,
            },
        }
    }
}

/// The text of a key, where one is given.
pub open spec fn key_text(key: Option<String>) -> Option<Seq<char>> {
    match key {
        Some(text) => Some(text@),
        None => None,
    }
}

/// Whether a client can be made with this key: no key will do, and so will a
/// text that decodes to a keypair.
pub open spec fn usable_key(key: Option<Seq<char>>) -> bool {
    key matches Some(text) ==> keypair_parse(text) is Some
}

/// The client that a node address and a key text make: it asks for confirmed
/// state, and signs with the keypair that the text decodes to.
pub open spec fn client_for(node_url: Seq<char>, key: Option<Seq<char>>) -> RpcClientView {
    RpcClientView {
        node_url,
        commitment: CommitmentConfig { commitment: CommitmentLevel::Confirmed },
        payer: match key {
            Some(text) => keypair_parse(text),
            None => None,
        },
    }
}

/// The client that [`client_for`] describes where the key is usable, and the
/// configuration error that reports a key text that is no keypair where it
/// is not.
pub open spec fn try_client_for(node_url: Seq<char>, key: Option<Seq<char>>) -> Result<
    RpcClientView,
    ClientError,
> {
    if usable_key(key) {
        Ok(client_for(node_url, key))
    } else {
        Err(ClientError::InvalidPayerKey)
    }
}

/// What a reply to the lookup of one account means: the account, that there
/// is none at the address, or that the node could not be asked.
pub open spec fn account_from_reply(
    address: Address,
    reply: Result<Observed<Option<Account>>, String>,
) -> Result<Account, ClientError> {
    match reply {
        Ok(observed) => match observed.value {
            Some(account) => Ok(account),
            None => Err(ClientError::AccountNotFound(address)),
        },
        Err(report) => Err(ClientError::Transport(report)),
    }
}

/// What a reply to the lookup of `count` accounts means: its slots, if there
/// are `count` of them.
pub open spec fn accounts_from_reply(
    count: nat,
    reply: Result<Vec<Option<Account>>, String>,
) -> Result<Vec<Option<Account>>, ClientError> {
    match reply {
        Ok(slots) => if slots@.len() == count {
            Ok(slots)
        } else {
            Err(
                ClientError::ReplyLengthMismatch {
                    expected: count as usize,
                    received: slots@.len() as usize,
                },
            )
        },
        Err(report) => Err(ClientError::Transport(report)),
    }
}

/// What a reply to a lookup at a confirmation level means: what the node
/// found, tagged with that level.
pub open spec fn response_from_reply(
    commitment: CommitmentConfig,
    reply: Result<Observed<Option<Account>>, String>,
) -> Result<Response<Option<Account>>, ClientError> {
    match reply {
        Ok(observed) => Ok(Response { commitment, slot: observed.slot, value: observed.value }),
        Err(report) => Err(ClientError::Transport(report)),
    }
}

/// Whether a reply shows an account: only a failed request is an error.
pub open spec fn exists_from_reply(reply: Result<Observed<Option<Account>>, String>) -> Result<
    bool,
    ClientError,
> {
    match reply {
        Ok(observed) => Ok(observed.value is Some),
        Err(report) => Err(ClientError::Transport(report)),
    }
}

/// What a decoder's answer means for the caller: its value, or that the
/// payload does not match the schema.
pub open spec fn decoded<T, E>(outcome: Result<T, E>) -> Result<T, ClientError> {
    match outcome {
        Ok(value) => Ok(value),
        Err(_) => Err(ClientError::InvalidAccountData),
    }
}

/// Whether `result` is what decoding `data` with `decode` may return: data
/// without a payload is too short, and otherwise the decoder was given
/// exactly the payload and `result` is what its answer means.
pub open spec fn decodes_as<T, E, F: FnOnce(Vec<u8>) -> Result<T, E>>(
    data: Seq<u8>,
    decode: F,
    result: Result<T, ClientError>,
) -> bool {
    match account_payload(data) {
        None => result === Err(ClientError::AccountDataTooShort { len: data.len() as usize }),
        Some(payload) => exists|given: Vec<u8>, outcome: Result<T, E>|
            given@ == payload && #[trigger] decode.ensures((given,), outcome) && result == decoded(
                outcome,
            ),
    }
}

/// Whether `decode` accepts the payload of `data`, if it has one.
pub open spec fn accepts_payload<T, E, F: FnOnce(Vec<u8>) -> Result<T, E>>(
    data: Seq<u8>,
    decode: F,
) -> bool {
    account_payload(data) matches Some(payload) ==> forall|given: Vec<u8>|
        given@ == payload ==> #[trigger] decode.requires((given,))
}

/// A client made without a key has no payer address. Whatever it is asked
/// to send, every step ends the submission with the missing-payer error,
/// which is a configuration error, and asks nothing of the node.
pub proof fn lemma_client_without_key_cannot_send(
    node_url: Seq<char>,
    state: SendState,
    event: SendEvent,
)
    ensures
        usable_key(None),
        client_for(node_url, None).payer_key() is None,
        !send_step(client_for(node_url, None).payer_key(), state, event).1.spec_contacts_node(),
        send_step(client_for(node_url, None).payer_key(), state, event) == (
            SendState::Finished,
            SendAction::Finish(Err(ClientError::MissingPayer)),
        ),
        ClientError::MissingPayer.spec_kind() == ErrorKind::Configuration,
{
}

/// A lookup fails as not found exactly when the node answered that there is
/// no account, and as a transport error exactly when the node could not be
/// asked; it fails in no other way.
pub proof fn lemma_lookup_failures(
    address: Address,
    reply: Result<Observed<Option<Account>>, String>,
)
    ensures
        match account_from_reply(address, reply) {
            Ok(account) => reply matches Ok(observed) && observed.value == Some(account),
            Err(error) => {
                &&& error.spec_kind() == ErrorKind::NotFound || error.spec_kind()
                    == ErrorKind::Transport
                &&& error.spec_kind() == ErrorKind::NotFound <==> (reply matches Ok(observed)
                    && observed.value is None)
                &&& error.spec_kind() == ErrorKind::Transport <==> reply is Err
            },
        },
{
}

/// The reply to a lookup of several accounts is accepted exactly when it
/// has one slot for each address, and is then handed on slot by slot.
pub proof fn lemma_one_slot_per_address(count: nat, reply: Result<Vec<Option<Account>>, String>)
    ensures
        accounts_from_reply(count, reply) is Ok <==> (reply matches Ok(slots) && slots@.len()
            == count),
        accounts_from_reply(count, reply) matches Ok(slots) ==> slots@.len() == count
            && reply === Ok(slots),
{
}

/// Asking whether an account exists fails only where the node could not be
/// asked. Every answer of the node is a result: `true` for an account that
/// was found, `false` for an address without one.
pub proof fn lemma_existence_is_an_answer(reply: Result<Observed<Option<Account>>, String>)
    ensures
        exists_from_reply(reply) is Err <==> reply is Err,
        reply matches Ok(observed) ==> exists_from_reply(reply) === Ok(observed.value is Some),
        reply matches Err(report) ==> exists_from_reply(reply) === Err(
            ClientError::Transport(report),
        ),
{
}

/// Data shorter than the discriminator is refused as a decode error,
/// whatever the decoder.
pub proof fn lemma_short_data_is_refused<T, E, F: FnOnce(Vec<u8>) -> Result<T, E>>(
    data: Seq<u8>,
    decode: F,
    result: Result<T, ClientError>,
)
    requires
        data.len() < DISCRIMINATOR_LEN,
        decodes_as(data, decode, result),
    ensures
        result === Err(ClientError::AccountDataTooShort { len: data.len() as usize }),
        result matches Err(error) && error.spec_kind() == ErrorKind::Decode,
{
}

/// Decoding a payload behind any discriminator hands the decoder that
/// payload and nothing else, and returns what its answer means.
pub proof fn lemma_decodes_prefixed<T, E, F: FnOnce(Vec<u8>) -> Result<T, E>>(
    discriminator: Seq<u8>,
    payload: Seq<u8>,
    decode: F,
    result: Result<T, ClientError>,
)
    requires
        discriminator.len() == DISCRIMINATOR_LEN,
        decodes_as(discriminator + payload, decode, result),
    ensures
        exists|given: Vec<u8>, outcome: Result<T, E>|
            given@ == payload && #[trigger] decode.ensures((given,), outcome) && result == decoded(
                outcome,
            ),
{
    crate::account::lemma_payload_of_prefixed(discriminator, payload);
}

/// Where the decoder gives `value` back from its encoding, decoding that
/// encoding behind any discriminator gives `value` back too.
pub proof fn lemma_prefixed_encoding_round_trips<T, E, F: FnOnce(Vec<u8>) -> Result<T, E>>(
    discriminator: Seq<u8>,
    encoding: Seq<u8>,
    value: T,
    decode: F,
    result: Result<T, ClientError>,
)
    requires
        discriminator.len() == DISCRIMINATOR_LEN,
        forall|given: Vec<u8>, outcome: Result<T, E>|
            given@ == encoding && #[trigger] decode.ensures((given,), outcome) ==> outcome
                === Ok(value),
        decodes_as(discriminator + encoding, decode, result),
    ensures
        result === Ok(value),
{
    lemma_decodes_prefixed(discriminator, encoding, decode, result);
}

impl RpcClient {
    /// Makes a client for the node at `solana_rpc` that signs with the
    /// keypair in `operator_priv_key`, if one is given.
    pub fn new(solana_rpc: String, operator_priv_key: Option<String>) -> (client: RpcClient)
        requires
            usable_key(key_text(operator_priv_key)),
        ensures
            client@ == client_for(solana_rpc@, key_text(operator_priv_key)),
    {
        let payer = match operator_priv_key {
            Some(key) => Some(Keypair::from_base58_string(key.as_str())),
            None => None,
        };
        RpcClient { node_url: solana_rpc, commitment: CommitmentConfig::confirmed(), payer }
    }

    /// Makes a client as [`RpcClient::new`] does, or reports a key text that
    /// is no keypair as a configuration error.
    pub fn try_new(solana_rpc: String, operator_priv_key: Option<String>) -> (result: Result<
        RpcClient,
        ClientError,
    >)
        ensures
            match try_client_for(solana_rpc@, key_text(operator_priv_key)) {
                Ok(made) => result matches Ok(client) && client@ == made,
                Err(error) => result === Err(error),
            },
    {
        match &operator_priv_key {
            Some(key) => match Keypair::try_from_base58_string(key.as_str()) {
                Ok(_) => {},
                Err(error) => {
                    return Err(error);
                },
            },
            None => {},
        }
        Ok(RpcClient::new(solana_rpc, operator_priv_key))
    }

    /// The address of the node.
    pub fn node_url(&self) -> (url: &str)
        ensures
            url@ == self@.node_url,
    {
        self.node_url.as_str()
    }

    /// The confirmation level that plain lookups ask for.
    pub fn commitment(&self) -> (commitment: CommitmentConfig)
        ensures
            commitment == self@.commitment,
    {
        self.commitment
    }

    /// The signing key, if the client has one.
    pub fn payer(&self) -> (payer: Option<&Keypair>)
        ensures
            match payer {
                Some(pair) => self@.payer == Some(pair@),
                None => self@.payer is None,
            },
    {
        self.payer.as_ref()
    }

    /// The address that pays for the transactions of the client, or `None`
    /// for a client without a signing key.
    pub fn payer_key(&self) -> (key: Option<Address>)
        ensures
            key == self@.payer_key(),
    {
        match &self.payer {
            Some(pair) => Some(pair.pubkey()),
            None => None,
        }
    }

    /// Decides the next step of sending one instruction as a transaction.
    ///
    /// The caller starts with [`SendState::Idle`] and [`SendEvent::Start`],
    /// carries out each action and reports what came of it, until the action
    /// is [`SendAction::Finish`]. Without a signing key every step ends the
    /// submission with [`ClientError::MissingPayer`], before anything is
    /// asked of the node.
    pub fn send_tx(&self, state: SendState, event: SendEvent) -> (next: (SendState, SendAction))
        ensures
            next == send_step(self@.payer_key(), state, event),
            self@.payer is None ==> next == (
                SendState::Finished,
                SendAction::Finish(Err(ClientError::MissingPayer)),
            ),
    {
        next_send_step(self.payer_key(), state, event)
    }

    /// Reads the reply to a lookup of the accounts at `pubkeys`.
    ///
    /// The result has one slot for each address, in the order of the
    /// addresses and as the node filled them; an empty slot stands for an
    /// account that does not exist. A reply with another number of slots is
    /// refused.
    pub fn get_multiple_accounts(
        &self,
        pubkeys: &[Address],
        reply: Result<Vec<Option<Account>>, String>,
    ) -> (result: Result<Vec<Option<Account>>, ClientError>)
        ensures
            result == accounts_from_reply(pubkeys@.len(), reply),
            result matches Ok(slots) ==> slots@.len() == pubkeys@.len(),
            result matches Ok(slots) ==> reply === Ok(slots),
    {
        match reply {
            Ok(slots) => {
                if slots.len() == pubkeys.len() {
                    Ok(slots)
                } else {
                    Err(
                        ClientError::ReplyLengthMismatch {
                            expected: pubkeys.len(),
                            received: slots.len(),
                        },
                    )
                }
            },
            Err(report) => Err(ClientError::Transport(report)),
        }
    }

    /// Reads the reply to a lookup of the account at `pubkey`, made at the
    /// confirmation level of the client.
    ///
    /// An account that does not exist is reported as not found, which is
    /// another error than a failed request.
    pub fn get_account(
        &self,
        pubkey: &Address,
        reply: Result<Observed<Option<Account>>, String>,
    ) -> (result: Result<Account, ClientError>)
        ensures
            result == account_from_reply(*pubkey, reply),
    {
        match reply {
            Ok(observed) => match observed.value {
                Some(account) => Ok(account),
                None => Err(ClientError::AccountNotFound(*pubkey)),
            },
            Err(report) => Err(ClientError::Transport(report)),
        }
    }

    /// Separates the payload of a typed account from its discriminator and
    /// hands it to `decode`.
    ///
    /// Data shorter than the discriminator is refused before `decode` is
    /// called. Otherwise `decode` is given the bytes after the discriminator
    /// and nothing else; its value is returned, and its error is reported as
    /// account data that does not match the schema.
    pub fn deser_anchor_account_data<T, E, F: FnOnce(Vec<u8>) -> Result<T, E>>(
        data: Vec<u8>,
        decode: F,
    ) -> (result: Result<T, ClientError>)
        requires
            accepts_payload(data@, decode),
        ensures
            decodes_as(data@, decode, result),
    {
        let mut head = data;
        if head.len() < DISCRIMINATOR_LEN {
            return Err(ClientError::AccountDataTooShort { len: head.len() });
        }
        let payload = head.split_off(DISCRIMINATOR_LEN);
        assert(payload@ == data@.skip(DISCRIMINATOR_LEN as int));
        match decode(payload) {
            Ok(value) => Ok(value),
            Err(_) => Err(ClientError::InvalidAccountData),
        }
    }

    /// Reads the reply to a lookup of the account at `account` and decodes
    /// the payload of its data with `decode`.
    ///
    /// Fails as [`RpcClient::get_account`] does where there is no account to
    /// decode, and as [`RpcClient::deser_anchor_account_data`] does where
    /// its data cannot be decoded.
    pub fn get_anchor_account_data<T, E, F: FnOnce(Vec<u8>) -> Result<T, E>>(
        &self,
        account: &Address,
        reply: Result<Observed<Option<Account>>, String>,
        decode: F,
    ) -> (result: Result<T, ClientError>)
        requires
            account_from_reply(*account, reply) matches Ok(found) ==> accepts_payload(
                found.data@,
                decode,
            ),
        ensures
            match account_from_reply(*account, reply) {
                Ok(found) => decodes_as(found.data@, decode, result),
                Err(error) => result === Err(error),
            },
    {
        match self.get_account(account, reply) {
            Ok(found) => RpcClient::deser_anchor_account_data(found.data, decode),
            Err(error) => Err(error),
        }
    }

    /// Reads the reply to a lookup made at the confirmation level
    /// `commitment`: what the node found at its slot, tagged with that level.
    pub fn get_account_with_commitment(
        &self,
        commitment: CommitmentConfig,
        reply: Result<Observed<Option<Account>>, String>,
    ) -> (result: Result<Response<Option<Account>>, ClientError>)
        ensures
            result == response_from_reply(commitment, reply),
    {
        match reply {
            Ok(observed) => Ok(Response { commitment, slot: observed.slot, value: observed.value }),
            Err(report) => Err(ClientError::Transport(report)),
        }
    }

    /// Whether the reply to a lookup made at the confirmation level
    /// `commitment` shows an account.
    ///
    /// An address without an account gives `false`, not an error.
    pub fn account_exists(
        &self,
        commitment: CommitmentConfig,
        reply: Result<Observed<Option<Account>>, String>,
    ) -> (result: Result<bool, ClientError>)
        ensures
            result == exists_from_reply(reply),
    {
        match self.get_account_with_commitment(commitment, reply) {
            Ok(response) => Ok(response.value.is_some()),
            Err(error) => Err(error),
        }
    }
}

} // verus!
