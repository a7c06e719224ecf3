//! How settled a state of the ledger must be before it is reported.

use vstd::prelude::*;

verus! {

/// The three levels of confirmation a node distinguishes, from the least to
/// the most settled.
#[derive(Clone, Copy, Debug, PartialEq, Eq, Hash, Structural)]
pub enum CommitmentLevel {
    /// The node's most recent block, which may still be dropped.
    Processed,
    /// A block that a supermajority of the cluster has voted on.
    Confirmed,
    /// A block that the cluster has finalized.
    Finalized,
}

/// The confirmation level that a request asks for.
#[derive(Clone, Copy, Debug, PartialEq, Eq, Hash, Structural)]
pub struct CommitmentConfig {
    pub commitment: CommitmentLevel,
}

impl CommitmentConfig {
    /// Asks for the most recent block.
    pub fn processed() -> (config: CommitmentConfig)
        ensures
            config.commitment == CommitmentLevel::Processed,
    {
        CommitmentConfig { commitment: CommitmentLevel::Processed }
    }

    /// Asks for a block that a supermajority has voted on.
    pub fn confirmed() -> (config: CommitmentConfig)
        ensures
            config.commitment == CommitmentLevel::Confirmed,
    {
        CommitmentConfig { commitment: CommitmentLevel::Confirmed }
    }

    /// Asks for a finalized block.
    pub fn finalized() -> (config: CommitmentConfig)
        ensures
            config.commitment == CommitmentLevel::Finalized,
    {
        CommitmentConfig { commitment: CommitmentLevel::Finalized }
    }
}

} // verus!
