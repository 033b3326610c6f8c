use crate::error::Error;
use crate::storage::{
    accepts_write, apply_write, is_storage_failure, write_outcome, PersistentSafetyStorage, SafetyData, StorageWrite,
};
use crate::types::{
    AccountAddress, AccumulatorSummary, Block, BlockInfo, ConsensusState, HashValue, LedgerInfo,
    QuorumCert, Timeout, ValidatorVerifier, Vote, VoteData, VoteProposal, Waypoint,
};
use std::sync::Arc;
use vstd::prelude::*;

verus! {

/// The identity and consensus private key the validator signs with.
pub struct ValidatorSigner {
    pub author: AccountAddress,
    pub private_key: [u8; 32],
}

/// The 3-chain commit rule: the parent of the quorum certificate, its certified block and
/// the proposed block have consecutive rounds.
pub open spec fn commits(b: Block) -> bool {
    &&& b.quorum_cert.parent_round() + 1 == b.quorum_cert.certified_round()
    &&& b.quorum_cert.certified_round() + 1 == b.round
}

/// `li` is the ledger info a vote on `b` carries: it commits the parent of `b`'s quorum
/// certificate when the 3-chain commit rule holds, and nothing otherwise.
pub open spec fn is_ledger_info_for(b: Block, li: LedgerInfo) -> bool {
    &&& li.consensus_data_hash.is_zero()
    &&& if commits(b) {
        li.commit_info == b.quorum_cert.vote_data.parent
    } else {
        li.commit_info.is_empty()
    }
}

/// The waypoint pinning the epoch-ending ledger info `li`, whose digest is `digest`.
pub open spec fn boundary_waypoint(li: LedgerInfo, digest: HashValue) -> Waypoint {
    Waypoint { epoch: li.commit_info.epoch, version: li.commit_info.version, value: digest }
}

/// The writes of an epoch transition to `epoch`, in the order they are made.
pub open spec fn epoch_writes(li: LedgerInfo, digest: HashValue, epoch: u64) -> Seq<
    StorageWrite,
> {
    seq![
        StorageWrite::Waypoint(boundary_waypoint(li, digest)),
        StorageWrite::LastVotedRound(0),
        StorageWrite::PreferredRound(0),
        StorageWrite::Epoch(epoch),
    ]
}

/// The writes of an epoch transition that remain after each of them in turn.
pub proof fn lemma_epoch_writes_tails(li: LedgerInfo, digest: HashValue, epoch: u64)
    ensures
        epoch_writes(li, digest, epoch).drop_first() == seq![
            StorageWrite::LastVotedRound(0),
            StorageWrite::PreferredRound(0),
            StorageWrite::Epoch(epoch),
        ],
        epoch_writes(li, digest, epoch).drop_first().drop_first() == seq![
            StorageWrite::PreferredRound(0),
            StorageWrite::Epoch(epoch),
        ],
        epoch_writes(li, digest, epoch).drop_first().drop_first().drop_first() == seq![
            StorageWrite::Epoch(epoch),
        ],
        epoch_writes(li, digest, epoch).drop_first().drop_first().drop_first().drop_first()
            == Seq::<StorageWrite>::empty(),
{
    let ws = epoch_writes(li, digest, epoch);
    assert(ws.drop_first() =~= seq![
        StorageWrite::LastVotedRound(0),
        StorageWrite::PreferredRound(0),
        StorageWrite::Epoch(epoch),
    ]);
    assert(ws.drop_first().drop_first() =~= seq![
        StorageWrite::PreferredRound(0),
        StorageWrite::Epoch(epoch),
    ]);
    assert(ws.drop_first().drop_first().drop_first() =~= seq![StorageWrite::Epoch(epoch)]);
    assert(ws.drop_first().drop_first().drop_first().drop_first() =~= Seq::empty());
}

/// The outcome of making the writes `ws` one after the other, stopping at the first that
/// the store refuses.
pub open spec fn writes_outcome(
    before: SafetyData,
    ws: Seq<StorageWrite>,
    r: Result<(), Error>,
    after: SafetyData,
) -> bool
    decreases ws.len(),
{
    if ws.len() == 0 {
        r is Ok && after == before
    } else if !accepts_write(before) {
        is_storage_failure(r) && after == before
    } else {
        writes_outcome(apply_write(before, ws[0]), ws.drop_first(), r, after)
    }
}

/// The outcome, on the store, of starting the epoch that the ledger info `li` announces.
pub open spec fn epoch_change_outcome(
    before: SafetyData,
    li: LedgerInfo,
    digest: HashValue,
    r: Result<(), Error>,
    after: SafetyData,
) -> bool {
    match li.commit_info.next_epoch_state {
        None => r == Err::<(), Error>(Error::InvalidLedgerInfo) && after == before,
        Some(es) => if before.reads_fail {
            is_storage_failure(r) && after == before
        } else if before.epoch < es.epoch {
            writes_outcome(before, epoch_writes(li, digest, es.epoch), r, after)
        } else {
            r is Ok && after == before
        },
    }
}

/// The outcome, on the store, of `initialize` with the result of checking the
/// epoch-change proof against the waypoint `checked_against`.
pub open spec fn initialize_outcome(
    before: SafetyData,
    checked_against: Waypoint,
    verified: Result<LedgerInfo, String>,
    digest: HashValue,
    r: Result<(), Error>,
    after: SafetyData,
) -> bool {
    if before.reads_fail {
        is_storage_failure(r) && after == before
    } else if !checked_against.same_as(before.waypoint) {
        (r matches Err(Error::WaypointMismatch(m)) && m@
            == "the proof was checked against another waypoint"@) && after == before
    } else {
        match verified {
            Err(e) => r == Err::<(), Error>(Error::WaypointMismatch(e)) && after == before,
            Ok(li) => epoch_change_outcome(before, li, digest, r, after),
        }
    }
}

/// The outcome, on the store, of `update` with a quorum certificate whose signatures
/// checked out as `signatures` says.
pub open spec fn update_outcome(
    before: SafetyData,
    initialized: bool,
    qc: QuorumCert,
    signatures: Result<(), String>,
    digest: HashValue,
    r: Result<(), Error>,
    after: SafetyData,
) -> bool {
    if !initialized {
        r == Err::<(), Error>(Error::NotInitialized) && after == before
    } else {
        match signatures {
            Err(e) => r == Err::<(), Error>(Error::InvalidQuorumCertificate(e)) && after == before,
            Ok(_) => if before.reads_fail {
                is_storage_failure(r) && after == before
            } else if qc.parent_round() < before.preferred_round {
                (r matches Err(Error::InvalidQuorumCertificate(m)) && m@
                    == "Preferred round too early"@) && after == before
            } else if qc.spec_ends_epoch() {
                epoch_change_outcome(before, qc.ledger_info, digest, r, after)
            } else if qc.parent_round() == before.preferred_round {
                r is Ok && after == before
            } else {
                write_outcome(before, StorageWrite::PreferredRound(qc.parent_round()), r, after)
            },
        }
    }
}

/// `v` is the vote of `author` on the proposal `vp`, whose extension proof gave `s`.
pub open spec fn is_vote_for(
    v: Vote,
    author: AccountAddress,
    vp: VoteProposal,
    s: AccumulatorSummary,
) -> bool {
    &&& v.vote_data.proposed == vp.block.spec_block_info(
        s.root_hash,
        s.version,
        vp.next_epoch_state,
    )
    &&& v.vote_data.parent == vp.block.quorum_cert.vote_data.proposed
    &&& v.author == author
    &&& is_ledger_info_for(vp.block, v.ledger_info)
}

/// The outcome of `construct_and_sign_vote` on the proposal `vp`, whose extension proof
/// checked out as `extension` says.
pub open spec fn vote_outcome(
    before: SafetyData,
    author: AccountAddress,
    vp: VoteProposal,
    extension: Result<AccumulatorSummary, String>,
    r: Result<Vote, Error>,
    after: SafetyData,
) -> bool {
    let b = vp.block;
    if before.reads_fail {
        is_storage_failure(r) && after == before
    } else if b.epoch != before.epoch {
        r == Err::<Vote, Error>(Error::IncorrectEpoch(b.epoch, before.epoch)) && after == before
    } else if b.round <= before.last_voted_round {
        r == Err::<Vote, Error>(
            Error::OldProposal {
                proposal_round: b.round,
                last_voted_round: before.last_voted_round,
            },
        ) && after == before
    } else if b.quorum_cert.certified_round() < before.preferred_round {
        r == Err::<Vote, Error>(
            Error::ProposalRoundLowerThanPreferredBlock {
                preferred_round: before.preferred_round,
            },
        ) && after == before
    } else {
        match extension {
            Err(e) => r == Err::<Vote, Error>(Error::InvalidAccumulatorExtension { error: e })
                && after == before,
            Ok(s) => if accepts_write(before) {
                (r matches Ok(v) && is_vote_for(v, author, vp, s)) && after == apply_write(
                    before,
                    StorageWrite::LastVotedRound(b.round),
                )
            } else {
                is_storage_failure(r) && after == before
            },
        }
    }
}

/// The outcome of `sign_timeout` on `t`: on success the timeout is cleared for signing.
pub open spec fn timeout_outcome(
    before: SafetyData,
    t: Timeout,
    r: Result<Timeout, Error>,
    after: SafetyData,
) -> bool {
    if before.reads_fail {
        is_storage_failure(r) && after == before
    } else if t.epoch != before.epoch {
        r == Err::<Timeout, Error>(Error::IncorrectEpoch(t.epoch, before.epoch)) && after
            == before
    } else if t.round <= before.preferred_round {
        r == Err::<Timeout, Error>(Error::BadTimeoutPreferredRound(t.round, before.preferred_round))
            && after == before
    } else if t.round < before.last_voted_round {
        r == Err::<Timeout, Error>(Error::BadTimeoutLastVotedRound(t.round, before.last_voted_round))
            && after == before
    } else if t.round == before.last_voted_round {
        r == Ok::<Timeout, Error>(t) && after == before
    } else if accepts_write(before) {
        r == Ok::<Timeout, Error>(t) && after == apply_write(
            before,
            StorageWrite::LastVotedRound(t.round),
        )
    } else {
        is_storage_failure(r) && after == before
    }
}

/// The safety kernel of the validator: it decides every vote and timeout the validator may
/// sign, and keeps the voting history that makes those decisions safe across restarts.
///
/// Cryptographic checks (quorum-certificate signatures, epoch-change proofs, accumulator
/// extension proofs, ledger-info digests) are made by the caller with the kernel's current
/// validator set, and their results are handed to the operation that needs them.
pub struct SafetyRules {
    persistent_storage: PersistentSafetyStorage,
    validator_signer: ValidatorSigner,
    validator_verifier: Option<Arc<ValidatorVerifier>>,
}

impl SafetyRules {
    /// The abstract contents of the persistent store.
    pub closed spec fn storage(&self) -> SafetyData {
        self.persistent_storage@
    }

    /// The validator set of the current epoch, once known.
    pub closed spec fn current_verifier(&self) -> Option<Arc<ValidatorVerifier>> {
        self.validator_verifier
    }

    pub open spec fn author(&self) -> AccountAddress {
        self.spec_signer().author
    }

    pub closed spec fn spec_signer(&self) -> ValidatorSigner {
        self.validator_signer
    }

    /// A kernel over `persistent_storage`, signing as `author` with the stored consensus key.
    /// No validator set is known until `initialize` succeeds.
    pub fn new(author: AccountAddress, persistent_storage: PersistentSafetyStorage) -> (r: Self)
        ensures
            r.storage() == persistent_storage@,
            r.current_verifier().is_none(),
            r.author() == author,
            r.spec_signer().author == author,
            r.spec_signer().private_key == persistent_storage.spec_consensus_key(),
    {
        let consensus_key = persistent_storage.consensus_key();
        let validator_signer = ValidatorSigner { author, private_key: consensus_key };
        SafetyRules { persistent_storage, validator_signer, validator_verifier: None }
    }

    pub fn signer(&self) -> (r: &ValidatorSigner)
        ensures
            *r == self.spec_signer(),
    {
        &self.validator_signer
    }

    pub fn validator_verifier(&self) -> (r: Option<Arc<ValidatorVerifier>>)
        ensures
            r == self.current_verifier(),
    {
        match &self.validator_verifier {
            Some(v) => Some(v.clone()),
            None => None,
        }
    }

    pub fn persistent_storage(&self) -> (r: &PersistentSafetyStorage)
        ensures
            r@ == self.storage(),
    {
        &self.persistent_storage
    }

    /// Gives the store back, as on shutdown.
    pub fn into_persistent_storage(self) -> (r: PersistentSafetyStorage)
        ensures
            r@ == self.storage(),
    {
        self.persistent_storage
    }

    /// Produces a ledger info that commits the parent of the proposed block's quorum
    /// certificate under the 3-chain commit rule, or an empty ledger info for no commit.
    pub fn construct_ledger_info(&self, proposed_block: &Block) -> (r: LedgerInfo)
        ensures
            is_ledger_info_for(*proposed_block, r),
    {
        let block2 = proposed_block.round;
        let block1 = proposed_block.quorum_cert.vote_data.proposed.round;
        let block0 = proposed_block.quorum_cert.vote_data.parent.round;

        let commit = block0 < block1 && block1 - block0 == 1 && block1 < block2 && block2
            - block1 == 1;
        if commit {
            LedgerInfo {
                commit_info: proposed_block.quorum_cert.vote_data.parent.duplicate(),
                consensus_data_hash: HashValue::zero(),
            }
        } else {
            LedgerInfo { commit_info: BlockInfo::empty(), consensus_data_hash: HashValue::zero() }
        }
    }
}

impl SafetyRules {
    /// Starts the epoch that `ledger_info` announces: installs its validator set and, if
    /// that epoch is newer than the stored one, durably records the boundary waypoint,
    /// resets both rounds and only then records the new epoch, so that a failure part way
    /// leaves the old epoch in force and a second attempt completes the transition.
    /// `digest` is the digest of `ledger_info` that its waypoint commits to.
    fn start_new_epoch(&mut self, ledger_info: &LedgerInfo, digest: HashValue) -> (r: Result<
        (),
        Error,
    >)
        ensures
            epoch_change_outcome(old(self).storage(), *ledger_info, digest, r, final(self).storage()),
            final(self).current_verifier() == match ledger_info.commit_info.next_epoch_state {
                Some(es) => Some(es.verifier),
                None => old(self).current_verifier(),
            },
            final(self).spec_signer() == old(self).spec_signer(),
    {
        let epoch_state = match &ledger_info.commit_info.next_epoch_state {
            Some(es) => es,
            None => {
                return Err(Error::InvalidLedgerInfo);
            },
        };
        self.validator_verifier = Some(epoch_state.verifier.clone());
        let current_epoch = self.persistent_storage.epoch()?;

        if current_epoch < epoch_state.epoch {
            let ghost s0 = self.persistent_storage@;
            let ghost ws = epoch_writes(*ledger_info, digest, epoch_state.epoch);
            let waypoint = Waypoint {
                epoch: ledger_info.commit_info.epoch,
                version: ledger_info.commit_info.version,
                value: digest,
            };
            proof {
                lemma_epoch_writes_tails(*ledger_info, digest, epoch_state.epoch);
            }
            let r1 = self.persistent_storage.set_waypoint(waypoint);
            if r1.is_err() {
                return r1;
            }
            let ghost s1 = self.persistent_storage@;
            let r2 = self.persistent_storage.set_last_voted_round(0);
            if r2.is_err() {
                assert(writes_outcome(s1, ws.drop_first(), r2, self.persistent_storage@));
                return r2;
            }
            let ghost s2 = self.persistent_storage@;
            let r3 = self.persistent_storage.set_preferred_round(0);
            if r3.is_err() {
                assert(writes_outcome(s2, ws.drop_first().drop_first(), r3, self.persistent_storage@));
                assert(writes_outcome(s1, ws.drop_first(), r3, self.persistent_storage@));
                return r3;
            }
            let ghost s3 = self.persistent_storage@;
            let r4 = self.persistent_storage.set_epoch(epoch_state.epoch);
            let ghost w3 = ws.drop_first().drop_first().drop_first();
            proof {
                if accepts_write(s3) {
                    assert(writes_outcome(
                        apply_write(s3, w3[0]),
                        w3.drop_first(),
                        r4,
                        self.persistent_storage@,
                    ));
                }
            }
            assert(writes_outcome(s3, w3, r4, self.persistent_storage@));
            assert(writes_outcome(s2, ws.drop_first().drop_first(), r4, self.persistent_storage@));
            assert(writes_outcome(s1, ws.drop_first(), r4, self.persistent_storage@));
            return r4;
        }
        Ok(())
    }

    /// Checks a message's epoch against the stored epoch.
    fn verify_epoch(&self, epoch: u64) -> (r: Result<(), Error>)
        ensures
            self.storage().reads_fail ==> is_storage_failure(r),
            !self.storage().reads_fail && epoch == self.storage().epoch ==> r is Ok,
            !self.storage().reads_fail && epoch != self.storage().epoch ==> r == Err::<(), Error>(
                Error::IncorrectEpoch(epoch, self.storage().epoch),
            ),
    {
        let expected_epoch = self.persistent_storage.epoch()?;
        if epoch != expected_epoch {
            Err(Error::IncorrectEpoch(epoch, expected_epoch))
        } else {
            Ok(())
        }
    }

    /// Checks that a quorum certificate may be admitted: a validator set is known, its
    /// signatures verified against that set (`signatures`), and it does not build on a
    /// round below the preferred round.
    fn verify_qc(&self, qc: &QuorumCert, signatures: Result<(), String>) -> (r: Result<
        (),
        Error,
    >)
        ensures
            self.current_verifier().is_none() ==> r == Err::<(), Error>(Error::NotInitialized),
            self.current_verifier().is_some() ==> match signatures {
                Err(e) => r == Err::<(), Error>(Error::InvalidQuorumCertificate(e)),
                Ok(_) => if self.storage().reads_fail {
                    is_storage_failure(r)
                } else if qc.parent_round() < self.storage().preferred_round {
                    r matches Err(Error::InvalidQuorumCertificate(m)) && m@
                        == "Preferred round too early"@
                } else {
                    r is Ok
                },
            },
    {
        if self.validator_verifier.is_none() {
            return Err(Error::NotInitialized);
        }
        if let Err(e) = signatures {
            return Err(Error::InvalidQuorumCertificate(e));
        }
        if qc.vote_data.parent.round < self.persistent_storage.preferred_round()? {
            Err(Error::InvalidQuorumCertificate("Preferred round too early".to_owned()))
        } else {
            Ok(())
        }
    }

    /// A snapshot of the persistent safety data.
    pub fn consensus_state(&self) -> (r: Result<ConsensusState, Error>)
        ensures
            self.storage().reads_fail ==> is_storage_failure(r),
            !self.storage().reads_fail ==> (r matches Ok(cs) && cs.epoch == self.storage().epoch
                && cs.last_voted_round == self.storage().last_voted_round && cs.preferred_round
                == self.storage().preferred_round && cs.waypoint == self.storage().waypoint),
    {
        Ok(
            ConsensusState {
                epoch: self.persistent_storage.epoch()?,
                last_voted_round: self.persistent_storage.last_voted_round()?,
                preferred_round: self.persistent_storage.preferred_round()?,
                waypoint: self.persistent_storage.waypoint()?,
            },
        )
    }

    /// Starts the kernel from an epoch-change proof. `verified` is the outcome of checking
    /// the proof against the waypoint `checked_against`, which must be the stored one: the
    /// proof's last ledger info, or why it does not chain from the waypoint. `digest` is the
    /// digest of that ledger info.
    pub fn initialize(
        &mut self,
        checked_against: Waypoint,
        verified: Result<LedgerInfo, String>,
        digest: HashValue,
    ) -> (r: Result<(), Error>)
        ensures
            initialize_outcome(
                old(self).storage(),
                checked_against,
                verified,
                digest,
                r,
                final(self).storage(),
            ),
            final(self).current_verifier() == if !old(self).storage().reads_fail
                && checked_against.same_as(old(self).storage().waypoint) {
                match verified {
                    Ok(li) => match li.commit_info.next_epoch_state {
                        Some(es) => Some(es.verifier),
                        None => old(self).current_verifier(),
                    },
                    Err(_) => old(self).current_verifier(),
                }
            } else {
                old(self).current_verifier()
            },
            final(self).spec_signer() == old(self).spec_signer(),
    {
        let waypoint = self.persistent_storage.waypoint()?;
        if !checked_against.same(&waypoint) {
            return Err(
                Error::WaypointMismatch("the proof was checked against another waypoint".to_owned()),
            );
        }
        match verified {
            Err(e) => Err(Error::WaypointMismatch(e)),
            Ok(li) => self.start_new_epoch(&li, digest),
        }
    }

    /// Admits a quorum certificate: one that ends the epoch starts the next, any other
    /// raises the preferred round to its parent's round. `signatures` is the outcome of
    /// checking its signatures against the current validator set, and `digest` the digest
    /// of its ledger info.
    pub fn update(&mut self, qc: &QuorumCert, signatures: Result<(), String>, digest: HashValue) -> (r:
        Result<(), Error>)
        ensures
            update_outcome(
                old(self).storage(),
                old(self).current_verifier().is_some(),
                *qc,
                signatures,
                digest,
                r,
                final(self).storage(),
            ),
            final(self).current_verifier() == if old(self).current_verifier().is_some()
                && signatures is Ok && !old(self).storage().reads_fail && qc.parent_round() >= old(self).storage().preferred_round
                && qc.spec_ends_epoch() {
                Some(qc.ledger_info.commit_info.next_epoch_state.unwrap().verifier)
            } else {
                old(self).current_verifier()
            },
            final(self).spec_signer() == old(self).spec_signer(),
    {
        self.verify_qc(qc, signatures)?;
        if qc.ledger_info.ends_epoch() {
            self.start_new_epoch(&qc.ledger_info, digest)
        } else if qc.vote_data.parent.round == self.persistent_storage.preferred_round()? {
            Ok(())
        } else {
            self.persistent_storage.set_preferred_round(qc.vote_data.parent.round)
        }
    }
}

impl SafetyRules {
    /// Decides whether the validator may vote for `vote_proposal` and, if so, durably
    /// records its round as the last voted round and builds the vote for the signer. The
    /// round is recorded before the vote leaves the kernel, so no signature can escape for
    /// a round the store does not cover. `extension` is the outcome of checking the
    /// proposal's accumulator extension proof against the executed state of the block its
    /// quorum certificate certifies.
    pub fn construct_and_sign_vote(
        &mut self,
        vote_proposal: &VoteProposal,
        extension: Result<AccumulatorSummary, String>,
    ) -> (r: Result<Vote, Error>)
        ensures
            vote_outcome(
                old(self).storage(),
                old(self).author(),
                *vote_proposal,
                extension,
                r,
                final(self).storage(),
            ),
            final(self).current_verifier() == old(self).current_verifier(),
            final(self).spec_signer() == old(self).spec_signer(),
    {
        let proposed_block = &vote_proposal.block;

        self.verify_epoch(proposed_block.epoch)?;

        let last_voted_round = self.persistent_storage.last_voted_round()?;
        if proposed_block.round <= last_voted_round {
            return Err(
                Error::OldProposal { proposal_round: proposed_block.round, last_voted_round },
            );
        }

        let preferred_round = self.persistent_storage.preferred_round()?;
        if proposed_block.quorum_cert.vote_data.proposed.round < preferred_round {
            return Err(Error::ProposalRoundLowerThanPreferredBlock { preferred_round });
        }

        let new_tree = match extension {
            Ok(s) => s,
            Err(e) => {
                return Err(Error::InvalidAccumulatorExtension { error: e });
            },
        };

        self.persistent_storage.set_last_voted_round(proposed_block.round)?;

        let proposed = proposed_block.gen_block_info(
            new_tree.root_hash,
            new_tree.version,
            crate::types::duplicate_epoch_state(&vote_proposal.next_epoch_state),
        );
        let parent = proposed_block.quorum_cert.vote_data.proposed.duplicate();
        let ledger_info = self.construct_ledger_info(proposed_block);
        Ok(
            Vote {
                vote_data: VoteData { proposed, parent },
                author: self.validator_signer.author,
                ledger_info,
            },
        )
    }

    /// Clears `timeout` for signing when its round is above the preferred round and not
    /// below the last voted round, first raising the last voted round to it. Clearing the
    /// last voted round again writes nothing, and the deterministic signer then gives the
    /// same signature, which is no equivocation.
    pub fn sign_timeout(&mut self, timeout: &Timeout) -> (r: Result<Timeout, Error>)
        ensures
            timeout_outcome(old(self).storage(), *timeout, r, final(self).storage()),
            final(self).current_verifier() == old(self).current_verifier(),
            final(self).spec_signer() == old(self).spec_signer(),
    {
        self.verify_epoch(timeout.epoch)?;

        let preferred_round = self.persistent_storage.preferred_round()?;
        if timeout.round <= preferred_round {
            return Err(Error::BadTimeoutPreferredRound(timeout.round, preferred_round));
        }

        let last_voted_round = self.persistent_storage.last_voted_round()?;
        if timeout.round < last_voted_round {
            return Err(Error::BadTimeoutLastVotedRound(timeout.round, last_voted_round));
        }
        if timeout.round > last_voted_round {
            self.persistent_storage.set_last_voted_round(timeout.round)?;
        }
        Ok(*timeout)
    }
}

} // verus!
