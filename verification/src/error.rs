//! The errors a client reports, and the kinds they fall into.

use crate::address::{Address, ParseAddressError};
use vstd::prelude::*;

verus! {

/// The five kinds of failure a caller can tell apart.
#[derive(Clone, Copy, Debug, PartialEq, Eq, Structural)]
pub enum ErrorKind {
    /// The client was not set up for the operation asked of it.
    Configuration,
    /// The node could not be reached, or did not answer as the protocol demands.
    Transport,
    /// The account asked for does not exist.
    NotFound,
    /// Account data could not be read as the expected structure.
    Decode,
    /// A text is not the encoding of an address.
    Format,
}

/// Why an operation of the client failed.
#[derive(Clone, Debug, PartialEq, Eq)]
pub enum ClientError {
    /// A transaction was to be signed, but the client holds no signing key.
    MissingPayer,
    /// The text given as signing key is not a base58 keypair.
    InvalidPayerKey,
    /// The request to the node failed; the text is the transport's report.
    Transport(String),
    /// The node answered a lookup of several accounts with another number of slots.
    ReplyLengthMismatch { expected: usize, received: usize },
    /// A reply arrived that the submission in progress was not waiting for.
    UnexpectedReply,
    /// No account exists at the address.
    AccountNotFound(Address),
    /// The account data is shorter than the discriminator that precedes the payload.
    AccountDataTooShort { len: usize },
    /// The payload of the account does not match the expected schema.
    InvalidAccountData,
    /// The text is not a valid address.
    InvalidAddress(ParseAddressError),
}

impl ClientError {
    /// The kind of this error.
    pub open spec fn spec_kind(self) -> ErrorKind {
        match self {
            ClientError::MissingPayer => ErrorKind::Configuration,
            ClientError::InvalidPayerKey => ErrorKind::Configuration,
            ClientError::Transport(_) => ErrorKind::Transport,
            ClientError::ReplyLengthMismatch { .. } => ErrorKind::Transport,
            ClientError::UnexpectedReply => ErrorKind::Transport,
            ClientError::AccountNotFound(_) => ErrorKind::NotFound,
            ClientError::AccountDataTooShort { .. } => ErrorKind::Decode,
            ClientError::InvalidAccountData => ErrorKind::Decode,
            ClientError::InvalidAddress(_) => ErrorKind::Format,
        }
    }

    /// The kind of this error.
    pub fn kind(&self) -> (kind: ErrorKind)
        ensures
            kind == self.spec_kind(),
    {
        match self {
            ClientError::MissingPayer => ErrorKind::Configuration,
            ClientError::InvalidPayerKey => ErrorKind::Configuration,
            ClientError::Transport(_) => ErrorKind::Transport,
            ClientError::ReplyLengthMismatch { .. } => ErrorKind::Transport,
            ClientError::UnexpectedReply => ErrorKind::Transport,
            ClientError::AccountNotFound(_) => ErrorKind::NotFound,
            ClientError::AccountDataTooShort { .. } => ErrorKind::Decode,
            ClientError::InvalidAccountData => ErrorKind::Decode,
            ClientError::InvalidAddress(_) => ErrorKind::Format,
        }
    }
}

} // verus!
