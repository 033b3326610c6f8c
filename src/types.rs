use std::sync::Arc;
use vstd::prelude::*;

verus! {

/// A 32-byte cryptographic digest, carried through the kernel without being inspected.
#[derive(Clone, Copy, Debug, PartialEq, Eq)]
pub struct HashValue {
    pub bytes: [u8; 32],
}

impl HashValue {
    pub open spec fn is_zero(&self) -> bool {
        self.bytes@ == Seq::new(32, |_i: int| 0u8)
    }

    pub fn same(&self, other: &HashValue) -> (r: bool)
        ensures
            r == (self.bytes@ == other.bytes@),
    {
        let mut i: usize = 0;
        while i < 32
            invariant
                0 <= i <= 32,
                forall|j: int| 0 <= j < i ==> self.bytes@[j] == other.bytes@[j],
            decreases 32 - i,
        {
            if self.bytes[i] != other.bytes[i] {
                return false;
            }
            i = i + 1;
        }
        assert(self.bytes@ =~= other.bytes@);
        true
    }

    /// The all-zero digest.
    pub fn zero() -> (r: HashValue)
        ensures
            r.is_zero(),
    {
        let r = HashValue { bytes: [0u8; 32] };
        assert(r.bytes@ =~= Seq::new(32, |_i: int| 0u8));
        r
    }
}

/// The account address of a validator.
#[derive(Clone, Copy, Debug, PartialEq, Eq)]
pub struct AccountAddress {
    pub bytes: [u8; 16],
}

/// One member of a validator set: who it is, its public key and its voting power.
#[derive(Clone, Copy, Debug, PartialEq, Eq)]
pub struct ValidatorConsensusInfo {
    pub address: AccountAddress,
    pub public_key: [u8; 32],
    pub voting_power: u64,
}

/// The validator set of one epoch together with the voting power a quorum needs.
#[derive(Debug, PartialEq, Eq)]
pub struct ValidatorVerifier {
    pub validators: Vec<ValidatorConsensusInfo>,
    pub quorum_voting_power: u64,
}

/// The epoch that follows an epoch-ending ledger info, and its validator set.
/// The set is shared and never changed in place.
#[derive(Debug, PartialEq, Eq)]
pub struct EpochState {
    pub epoch: u64,
    pub verifier: Arc<ValidatorVerifier>,
}

impl EpochState {
    pub fn duplicate(&self) -> (r: EpochState)
        ensures
            r == *self,
    {
        EpochState { epoch: self.epoch, verifier: self.verifier.clone() }
    }
}

pub fn duplicate_epoch_state(s: &Option<EpochState>) -> (r: Option<EpochState>)
    ensures
        r == *s,
{
    match s {
        Some(e) => Some(e.duplicate()),
        None => None,
    }
}

/// What a vote or a ledger info says about one block.
#[derive(Debug, PartialEq, Eq)]
pub struct BlockInfo {
    pub epoch: u64,
    pub round: u64,
    pub id: HashValue,
    pub executed_state_id: HashValue,
    pub version: u64,
    pub timestamp_usecs: u64,
    pub next_epoch_state: Option<EpochState>,
}

impl BlockInfo {
    /// The block info that commits nothing.
    pub open spec fn is_empty(&self) -> bool {
        &&& self.epoch == 0
        &&& self.round == 0
        &&& self.id.is_zero()
        &&& self.executed_state_id.is_zero()
        &&& self.version == 0
        &&& self.timestamp_usecs == 0
        &&& self.next_epoch_state.is_none()
    }

    pub fn empty() -> (r: BlockInfo)
        ensures
            r.is_empty(),
    {
        BlockInfo {
            epoch: 0,
            round: 0,
            id: HashValue::zero(),
            executed_state_id: HashValue::zero(),
            version: 0,
            timestamp_usecs: 0,
            next_epoch_state: None,
        }
    }

    pub fn duplicate(&self) -> (r: BlockInfo)
        ensures
            r == *self,
    {
        BlockInfo {
            epoch: self.epoch,
            round: self.round,
            id: self.id,
            executed_state_id: self.executed_state_id,
            version: self.version,
            timestamp_usecs: self.timestamp_usecs,
            next_epoch_state: duplicate_epoch_state(&self.next_epoch_state),
        }
    }
}

/// A commitment over a block info; the consensus data hash is filled in by execution.
#[derive(Debug, PartialEq, Eq)]
pub struct LedgerInfo {
    pub commit_info: BlockInfo,
    pub consensus_data_hash: HashValue,
}

impl LedgerInfo {
    pub open spec fn spec_ends_epoch(&self) -> bool {
        self.commit_info.next_epoch_state.is_some()
    }

    pub fn ends_epoch(&self) -> (r: bool)
        ensures
            r == self.spec_ends_epoch(),
    {
        self.commit_info.next_epoch_state.is_some()
    }
}

/// The block a vote certifies and that block's parent.
#[derive(Debug, PartialEq, Eq)]
pub struct VoteData {
    pub proposed: BlockInfo,
    pub parent: BlockInfo,
}

/// A quorum certificate, as far as the kernel reads it: its vote data and the ledger info
/// its signatures cover. The signatures themselves are checked by the caller's verifier.
#[derive(Debug, PartialEq, Eq)]
pub struct QuorumCert {
    pub vote_data: VoteData,
    pub ledger_info: LedgerInfo,
}

impl QuorumCert {
    pub open spec fn certified_round(&self) -> u64 {
        self.vote_data.proposed.round
    }

    pub open spec fn parent_round(&self) -> u64 {
        self.vote_data.parent.round
    }

    pub open spec fn spec_ends_epoch(&self) -> bool {
        self.ledger_info.spec_ends_epoch()
    }
}

/// A proposed block. Its payload plays no part in the safety rules and is not held here.
#[derive(Debug, PartialEq, Eq)]
pub struct Block {
    pub id: HashValue,
    pub epoch: u64,
    pub round: u64,
    pub timestamp_usecs: u64,
    pub author: Option<AccountAddress>,
    pub quorum_cert: QuorumCert,
}

impl Block {
    /// The block info of this block after execution reached `root_hash` at `version`.
    pub open spec fn spec_block_info(
        &self,
        root_hash: HashValue,
        version: u64,
        next_epoch_state: Option<EpochState>,
    ) -> BlockInfo {
        BlockInfo {
            epoch: self.epoch,
            round: self.round,
            id: self.id,
            executed_state_id: root_hash,
            version,
            timestamp_usecs: self.timestamp_usecs,
            next_epoch_state,
        }
    }

    pub fn gen_block_info(
        &self,
        root_hash: HashValue,
        version: u64,
        next_epoch_state: Option<EpochState>,
    ) -> (r: BlockInfo)
        ensures
            r == self.spec_block_info(root_hash, version, next_epoch_state),
    {
        BlockInfo {
            epoch: self.epoch,
            round: self.round,
            id: self.id,
            executed_state_id: root_hash,
            version,
            timestamp_usecs: self.timestamp_usecs,
            next_epoch_state,
        }
    }
}

/// A block to vote on, with the epoch state its execution produced, if it ends the epoch.
#[derive(Debug, PartialEq, Eq)]
pub struct VoteProposal {
    pub block: Block,
    pub next_epoch_state: Option<EpochState>,
}

/// The new accumulator root and version obtained by checking a vote proposal's extension
/// proof against the executed state of the certified block.
#[derive(Clone, Copy, Debug, PartialEq, Eq)]
pub struct AccumulatorSummary {
    pub root_hash: HashValue,
    pub version: u64,
}

/// A vote, as built by the kernel and handed to the signer.
#[derive(Debug, PartialEq, Eq)]
pub struct Vote {
    pub vote_data: VoteData,
    pub author: AccountAddress,
    pub ledger_info: LedgerInfo,
}

/// A request to time out a round.
#[derive(Clone, Copy, Debug, PartialEq, Eq)]
pub struct Timeout {
    pub epoch: u64,
    pub round: u64,
}

/// A trusted commitment to the ledger at an epoch boundary.
#[derive(Clone, Copy, Debug, PartialEq, Eq)]
pub struct Waypoint {
    pub epoch: u64,
    pub version: u64,
    pub value: HashValue,
}

impl Waypoint {
    /// Both waypoints commit to the same epoch, version and digest.
    pub open spec fn same_as(&self, other: Waypoint) -> bool {
        &&& self.epoch == other.epoch
        &&& self.version == other.version
        &&& self.value.bytes@ == other.value.bytes@
    }

    pub fn same(&self, other: &Waypoint) -> (r: bool)
        ensures
            r == self.same_as(*other),
    {
        self.epoch == other.epoch && self.version == other.version && self.value.same(
            &other.value,
        )
    }
}

/// A snapshot of the persistent safety data.
#[derive(Clone, Copy, Debug, PartialEq, Eq)]
pub struct ConsensusState {
    pub epoch: u64,
    pub last_voted_round: u64,
    pub preferred_round: u64,
    pub waypoint: Waypoint,
}

} // verus!
