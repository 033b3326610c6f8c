use vstd::prelude::*;

verus! {

/// Why the kernel refused an operation.
#[derive(Debug, PartialEq, Eq)]
pub enum Error {
    /// No validator set is known yet: `initialize` has not succeeded.
    NotInitialized,
    /// The message's epoch (first) differs from the stored epoch (second).
    IncorrectEpoch(u64, u64),
    /// Voting would not raise the last voted round.
    OldProposal { proposal_round: u64, last_voted_round: u64 },
    /// The proposal's quorum certificate certifies a round below the preferred round.
    ProposalRoundLowerThanPreferredBlock { preferred_round: u64 },
    /// The quorum certificate's signatures are invalid, or it regresses the preferred round.
    InvalidQuorumCertificate(String),
    /// The accumulator extension proof of a vote proposal does not check out.
    InvalidAccumulatorExtension { error: String },
    /// An epoch-ending ledger info carries no next epoch state.
    InvalidLedgerInfo,
    /// An epoch-change proof does not chain from the stored waypoint.
    WaypointMismatch(String),
    /// The timeout round (first) is not above the preferred round (second).
    BadTimeoutPreferredRound(u64, u64),
    /// The timeout round (first) is below the last voted round (second).
    BadTimeoutLastVotedRound(u64, u64),
    /// The persistent store failed to complete a read or a write.
    InternalStorage(String),
}

} // verus!
