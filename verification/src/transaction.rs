//! The steps by which one instruction is sent as a transaction.
//!
//! Sending is a short conversation with the node: ask for the latest
//! blockhash, sign a message with the payer as fee payer and that blockhash,
//! submit it and wait for confirmation. The functions here decide what comes
//! next at every point of it; the caller does what they say and reports what
//! came of it.

use crate::address::Address;
use crate::error::ClientError;
use vstd::prelude::*;

verus! {

/// A blockhash: the thirty-two bytes that tie a transaction to a recent block.
#[derive(Clone, Copy, Debug, PartialEq, Eq, Hash)]
pub struct Blockhash {
    pub bytes: [u8; 32],
}

/// The signature that identifies a submitted transaction.
#[derive(Clone, Copy, Debug, PartialEq, Eq, Hash)]
pub struct Signature {
    pub bytes: [u8; 64],
}

/// Where a submission stands.
#[derive(Clone, Copy, Debug, PartialEq, Eq, Structural)]
pub enum SendState {
    /// Nothing has been asked of the node yet.
    Idle,
    /// The latest blockhash has been asked for.
    AwaitingBlockhash,
    /// The signed transaction has been submitted.
    AwaitingConfirmation,
    /// The submission has ended, well or badly.
    Finished,
}

/// What the caller reports to the submission.
#[derive(Debug, PartialEq, Eq)]
pub enum SendEvent {
    /// The caller wants the instruction sent.
    Start,
    /// The node answered the request for the latest blockhash.
    Blockhash(Result<Blockhash, String>),
    /// The node answered the submission of the signed transaction.
    Confirmation(Result<Signature, String>),
}

/// What the caller has to do next.
#[derive(Debug, PartialEq, Eq)]
pub enum SendAction {
    /// Ask the node for the latest blockhash.
    FetchLatestBlockhash,
    /// Build a message from the instruction with `fee_payer` as fee payer,
    /// sign it with the payer's key and `recent_blockhash`, submit it and
    /// wait for its confirmation.
    SignAndSubmit { fee_payer: Address, recent_blockhash: Blockhash },
    /// Stop, and hand this result to whoever asked for the submission.
    Finish(Result<Signature, ClientError>),
}

impl SendAction {
    /// Whether the action asks anything of the node.
    pub open spec fn spec_contacts_node(self) -> bool {
        !(self is Finish)
    }

    /// Whether the action asks anything of the node.
    pub fn contacts_node(&self) -> (contacts: bool)
        ensures
            contacts == self.spec_contacts_node(),
    {
        match self {
            SendAction::Finish(_) => false,
            _ => true,
        }
    }
}

/// The next state and the next action of a submission, for a client whose
/// payer has the given address, or has none.
///
/// - Without a payer every step ends the submission with the missing-payer
///   error.
/// - A start asks for the latest blockhash.
/// - The blockhash that arrives is the one the transaction is signed with.
/// - A failed request ends the submission with the transport's report.
/// - A confirmation ends it with the signature.
/// - A report that the state was not waiting for ends it as unexpected.
pub open spec fn send_step(payer: Option<Address>, state: SendState, event: SendEvent) -> (
    SendState,
    SendAction,
) {
    match payer {
        None => (SendState::Finished, SendAction::Finish(Err(ClientError::MissingPayer))),
        Some(fee_payer) => match (state, event) {
            (SendState::Idle, SendEvent::Start) => (
                SendState::AwaitingBlockhash,
                SendAction::FetchLatestBlockhash,
            ),
            (SendState::AwaitingBlockhash, SendEvent::Blockhash(Ok(recent_blockhash))) => (
                SendState::AwaitingConfirmation,
                SendAction::SignAndSubmit { fee_payer, recent_blockhash },
            ),
            (SendState::AwaitingBlockhash, SendEvent::Blockhash(Err(report))) => (
                SendState::Finished,
                SendAction::Finish(Err(ClientError::Transport(report))),
            ),
            (SendState::AwaitingConfirmation, SendEvent::Confirmation(Ok(signature))) => (
                SendState::Finished,
                SendAction::Finish(Ok(signature)),
            ),
            (SendState::AwaitingConfirmation, SendEvent::Confirmation(Err(report))) => (
                SendState::Finished,
                SendAction::Finish(Err(ClientError::Transport(report))),
            ),
            _ => (SendState::Finished, SendAction::Finish(Err(ClientError::UnexpectedReply))),
        },
    }
}

/// Computes one step of a submission.
pub fn next_send_step(payer: Option<Address>, state: SendState, event: SendEvent) -> (next: (
    SendState,
    SendAction,
))
    ensures
        next == send_step(payer, state, event),
{
    let fee_payer = match payer {
        Some(address) => address,
        None => {
            return (SendState::Finished, SendAction::Finish(Err(ClientError::MissingPayer)));
        },
    };
    match state {
        SendState::Idle => match event {
            SendEvent::Start => (SendState::AwaitingBlockhash, SendAction::FetchLatestBlockhash),
            _ => (SendState::Finished, SendAction::Finish(Err(ClientError::UnexpectedReply))),
        },
        SendState::AwaitingBlockhash => match event {
            SendEvent::Blockhash(Ok(recent_blockhash)) => (
                SendState::AwaitingConfirmation,
                SendAction::SignAndSubmit { fee_payer, recent_blockhash },
            ),
            SendEvent::Blockhash(Err(report)) => (
                SendState::Finished,
                SendAction::Finish(Err(ClientError::Transport(report))),
            ),
            _ => (SendState::Finished, SendAction::Finish(Err(ClientError::UnexpectedReply))),
        },
        SendState::AwaitingConfirmation => match event {
            SendEvent::Confirmation(Ok(signature)) => (
                SendState::Finished,
                SendAction::Finish(Ok(signature)),
            ),
            SendEvent::Confirmation(Err(report)) => (
                SendState::Finished,
                SendAction::Finish(Err(ClientError::Transport(report))),
            ),
            _ => (SendState::Finished, SendAction::Finish(Err(ClientError::UnexpectedReply))),
        },
        SendState::Finished => (
            SendState::Finished,
            SendAction::Finish(Err(ClientError::UnexpectedReply)),
        ),
    }
}

/// Without a payer every step ends the submission with the missing-payer
/// error, and so asks nothing of the node.
pub proof fn lemma_no_payer_no_request(state: SendState, event: SendEvent)
    ensures
        send_step(None, state, event) == (
            SendState::Finished,
            SendAction::Finish(Err(ClientError::MissingPayer)),
        ),
        !send_step(None, state, event).1.spec_contacts_node(),
{
}

/// A step stops the submission exactly when it leaves nothing to ask of the
/// node, and a finished submission stays finished.
pub proof fn lemma_finished_is_final(payer: Option<Address>, state: SendState, event: SendEvent)
    ensures
        send_step(payer, state, event).0 == SendState::Finished <==> !send_step(
            payer,
            state,
            event,
        ).1.spec_contacts_node(),
        state == SendState::Finished ==> send_step(payer, state, event).0 == SendState::Finished,
{
}

/// The transaction is signed with the blockhash that the node has just
/// reported and with the payer as fee payer: no other step asks for a
/// signature, and none keeps a blockhash for later.
pub proof fn lemma_signs_with_fetched_blockhash(
    payer: Option<Address>,
    state: SendState,
    event: SendEvent,
)
    ensures
        send_step(payer, state, event).1 matches SendAction::SignAndSubmit {
            fee_payer,
            recent_blockhash,
        } ==> state == SendState::AwaitingBlockhash && event == SendEvent::Blockhash(
            Ok(recent_blockhash),
        ) && payer == Some(fee_payer),
{
}

/// With a payer and a node that answers both requests, the three steps of a
/// submission end with the signature that the node confirmed.
pub proof fn lemma_send_succeeds(fee_payer: Address, blockhash: Blockhash, signature: Signature)
    ensures
        ({
            let first = send_step(Some(fee_payer), SendState::Idle, SendEvent::Start);
            let second = send_step(Some(fee_payer), first.0, SendEvent::Blockhash(Ok(blockhash)));
            let third = send_step(
                Some(fee_payer),
                second.0,
                SendEvent::Confirmation(Ok(signature)),
            );
            &&& first.1 == SendAction::FetchLatestBlockhash
            &&& second.1 == SendAction::SignAndSubmit { fee_payer, recent_blockhash: blockhash }
            &&& third == (SendState::Finished, SendAction::Finish(Ok(signature)))
        }),
{
}

} // verus!
