//! Verified core of a small Solana client toolkit.
//!
//! The crate holds the decisions of a thin RPC client: how account lookups
//! are interpreted, how a transaction submission proceeds step by step, how
//! the payload of an account is separated from its discriminator, and how
//! addresses and signing keys are parsed. Talking to a node is left to the
//! caller, who hands each reply to the function that interprets it.

pub mod account;
pub mod address;
pub mod commitment;
pub mod error;
pub mod keypair;
pub mod rpc_client;
pub mod spl;
pub mod transaction;
pub mod utils;
