pub mod error;
pub mod laws;
pub mod safety_rules;
pub mod storage;
pub mod types;

pub use error::Error;
pub use safety_rules::{SafetyRules, ValidatorSigner};
pub use storage::PersistentSafetyStorage;
pub use types::{
    AccountAddress, AccumulatorSummary, Block, BlockInfo, ConsensusState, EpochState, HashValue,
    LedgerInfo, QuorumCert, Timeout, ValidatorConsensusInfo, ValidatorVerifier, Vote, VoteData,
    VoteProposal, Waypoint,
};
