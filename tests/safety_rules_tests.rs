use safety_rules::{
    AccountAddress, AccumulatorSummary, Block, BlockInfo, EpochState, Error, HashValue,
    LedgerInfo, PersistentSafetyStorage, QuorumCert, SafetyRules, Timeout,
    ValidatorConsensusInfo, ValidatorVerifier, VoteData, VoteProposal, Waypoint,
};
use std::sync::Arc;

fn hash(b: u8) -> HashValue {
    HashValue { bytes: [b; 32] }
}

fn author() -> AccountAddress {
    AccountAddress { bytes: [7; 16] }
}

fn validator_set(power: u64) -> Arc<ValidatorVerifier> {
    Arc::new(ValidatorVerifier {
        validators: vec![ValidatorConsensusInfo {
            address: author(),
            public_key: [9; 32],
            voting_power: power,
        }],
        quorum_voting_power: power,
    })
}

fn block_info(epoch: u64, round: u64, id: u8) -> BlockInfo {
    BlockInfo {
        epoch,
        round,
        id: hash(id),
        executed_state_id: hash(id + 100),
        version: round * 10,
        timestamp_usecs: round * 1000,
        next_epoch_state: None,
    }
}

fn epoch_ending_li(epoch: u64, next_epoch: u64, power: u64) -> LedgerInfo {
    let mut info = block_info(epoch, 50, 50);
    info.next_epoch_state = Some(EpochState { epoch: next_epoch, verifier: validator_set(power) });
    LedgerInfo { commit_info: info, consensus_data_hash: hash(0) }
}

fn qc(epoch: u64, parent_round: u64, certified_round: u64) -> QuorumCert {
    QuorumCert {
        vote_data: VoteData {
            proposed: block_info(epoch, certified_round, certified_round as u8),
            parent: block_info(epoch, parent_round, parent_round as u8),
        },
        ledger_info: LedgerInfo { commit_info: BlockInfo::empty(), consensus_data_hash: hash(0) },
    }
}

fn block(epoch: u64, round: u64, quorum_cert: QuorumCert) -> Block {
    Block {
        id: hash(round as u8 + 200),
        epoch,
        round,
        timestamp_usecs: round * 1000,
        author: Some(author()),
        quorum_cert,
    }
}

fn proposal(epoch: u64, round: u64, parent_round: u64, certified_round: u64) -> VoteProposal {
    VoteProposal {
        block: block(epoch, round, qc(epoch, parent_round, certified_round)),
        next_epoch_state: None,
    }
}

fn summary() -> Result<AccumulatorSummary, String> {
    Ok(AccumulatorSummary { root_hash: hash(42), version: 4242 })
}

fn waypoint() -> Waypoint {
    Waypoint { epoch: 0, version: 0, value: hash(1) }
}

fn storage(epoch: u64, last_voted_round: u64, preferred_round: u64) -> PersistentSafetyStorage {
    PersistentSafetyStorage::new([3; 32], epoch, last_voted_round, preferred_round, waypoint())
}

/// A kernel whose store holds the given records and that knows the validator set.
fn rules(epoch: u64, last_voted_round: u64, preferred_round: u64) -> SafetyRules {
    let mut r = SafetyRules::new(author(), storage(epoch, last_voted_round, preferred_round));
    r.initialize(stored_waypoint(&r), Ok(epoch_ending_li(epoch.saturating_sub(1), epoch, 10)), hash(5)).unwrap();
    r
}

fn stored_waypoint(r: &SafetyRules) -> Waypoint {
    r.consensus_state().unwrap().waypoint
}

fn state(r: &SafetyRules) -> (u64, u64, u64) {
    let s = r.consensus_state().unwrap();
    (s.epoch, s.last_voted_round, s.preferred_round)
}

#[test]
fn commit_rule_commits_parent_on_consecutive_rounds() {
    let r = rules(1, 0, 0);
    let b = block(1, 12, qc(1, 10, 11));
    let li = r.construct_ledger_info(&b);
    assert_eq!(li.commit_info, block_info(1, 10, 10));
    assert_eq!(li.consensus_data_hash, HashValue::zero());
}

#[test]
fn commit_rule_commits_nothing_on_gap() {
    let r = rules(1, 0, 0);
    let b = block(1, 12, qc(1, 9, 11));
    let li = r.construct_ledger_info(&b);
    assert_eq!(li.commit_info, BlockInfo::empty());
    assert_eq!(li.commit_info.round, 0);
    let b = block(1, 13, qc(1, 10, 11));
    assert_eq!(r.construct_ledger_info(&b).commit_info, BlockInfo::empty());
}

#[test]
fn commit_rule_near_largest_round() {
    let r = rules(1, 0, 0);
    let b = block(1, u64::MAX, qc(1, u64::MAX - 2, u64::MAX - 1));
    assert_eq!(r.construct_ledger_info(&b).commit_info.round, u64::MAX - 2);
}

#[test]
fn update_rejects_qc_below_preferred_round() {
    let mut r = rules(1, 0, 7);
    let res = r.update(&qc(1, 6, 8), Ok(()), hash(0));
    assert_eq!(res, Err(Error::InvalidQuorumCertificate("Preferred round too early".to_string())));
    assert_eq!(state(&r), (1, 0, 7));
}

#[test]
fn vote_rejects_old_proposal() {
    let mut r = rules(1, 5, 0);
    let res = r.construct_and_sign_vote(&proposal(1, 5, 3, 4), summary());
    assert_eq!(res, Err(Error::OldProposal { proposal_round: 5, last_voted_round: 5 }));
    assert_eq!(state(&r), (1, 5, 0));
}

#[test]
fn epoch_transition_resumes_after_failed_write() {
    let mut s = storage(1, 8, 6);
    s.set_write_limit(Some(1));
    let mut r = SafetyRules::new(author(), s);
    let li = epoch_ending_li(1, 2, 10);
    let res = r.initialize(stored_waypoint(&r), Ok(epoch_ending_li(1, 2, 10)), hash(77));
    assert!(matches!(res, Err(Error::InternalStorage(_))));
    let cs = r.consensus_state().unwrap();
    assert_eq!(cs.epoch, 1);
    assert_eq!(cs.waypoint, Waypoint { epoch: 1, version: li.commit_info.version, value: hash(77) });

    let mut s = r.into_persistent_storage();
    s.set_write_limit(None);
    let mut r = SafetyRules::new(author(), s);
    assert_eq!(r.initialize(stored_waypoint(&r), Ok(li), hash(77)), Ok(()));
    assert_eq!(state(&r), (2, 0, 0));
}

#[test]
fn epoch_transition_failure_at_each_write_keeps_old_epoch() {
    for limit in 0..4u64 {
        let mut s = storage(1, 8, 6);
        s.set_write_limit(Some(limit));
        let mut r = SafetyRules::new(author(), s);
        let res = r.initialize(stored_waypoint(&r), Ok(epoch_ending_li(1, 2, 10)), hash(77));
        assert!(matches!(res, Err(Error::InternalStorage(_))));
        assert_eq!(r.consensus_state().unwrap().epoch, 1);
        let mut s = r.into_persistent_storage();
        s.set_write_limit(None);
        let mut r = SafetyRules::new(author(), s);
        assert_eq!(r.initialize(stored_waypoint(&r), Ok(epoch_ending_li(1, 2, 10)), hash(77)), Ok(()));
        assert_eq!(state(&r), (2, 0, 0));
    }
}

#[test]
fn timeout_at_last_voted_round_is_repeatable() {
    let mut r = rules(1, 9, 3);
    let mut s = r.into_persistent_storage();
    s.set_write_limit(Some(0));
    let mut r = SafetyRules::new(author(), s);
    let t = Timeout { epoch: 1, round: 9 };
    let first = r.sign_timeout(&t);
    assert_eq!(first, Ok(t));
    let second = r.sign_timeout(&t);
    assert_eq!(second, first);
    assert_eq!(state(&r), (1, 9, 3));
}

#[test]
fn vote_rejects_epoch_mismatch() {
    let mut r = rules(4, 0, 0);
    let res = r.construct_and_sign_vote(&proposal(5, 3, 1, 2), summary());
    assert_eq!(res, Err(Error::IncorrectEpoch(5, 4)));
}

#[test]
fn vote_records_round_and_builds_vote() {
    let mut r = rules(1, 3, 2);
    let vp = proposal(1, 5, 3, 4);
    let vote = r.construct_and_sign_vote(&vp, summary()).unwrap();
    assert_eq!(state(&r), (1, 5, 2));
    assert_eq!(vote.author, author());
    assert_eq!(vote.vote_data.proposed.round, 5);
    assert_eq!(vote.vote_data.proposed.epoch, 1);
    assert_eq!(vote.vote_data.proposed.id, vp.block.id);
    assert_eq!(vote.vote_data.proposed.executed_state_id, hash(42));
    assert_eq!(vote.vote_data.proposed.version, 4242);
    assert_eq!(vote.vote_data.parent, block_info(1, 4, 4));
    assert_eq!(vote.ledger_info.commit_info, block_info(1, 3, 3));
}

#[test]
fn second_vote_at_same_round_is_old() {
    let mut r = rules(1, 3, 2);
    assert!(r.construct_and_sign_vote(&proposal(1, 5, 3, 4), summary()).is_ok());
    let mut other = proposal(1, 5, 2, 4);
    other.block.id = hash(99);
    let res = r.construct_and_sign_vote(&other, summary());
    assert_eq!(res, Err(Error::OldProposal { proposal_round: 5, last_voted_round: 5 }));
}

#[test]
fn vote_rejects_certified_round_below_preferred() {
    let mut r = rules(1, 3, 6);
    let res = r.construct_and_sign_vote(&proposal(1, 7, 4, 5), summary());
    assert_eq!(res, Err(Error::ProposalRoundLowerThanPreferredBlock { preferred_round: 6 }));
    assert_eq!(state(&r), (1, 3, 6));
}

#[test]
fn vote_rejects_bad_extension_proof() {
    let mut r = rules(1, 3, 2);
    let res = r.construct_and_sign_vote(&proposal(1, 5, 3, 4), Err("root mismatch".to_string()));
    assert_eq!(res, Err(Error::InvalidAccumulatorExtension { error: "root mismatch".to_string() }));
    assert_eq!(state(&r), (1, 3, 2));
}

#[test]
fn vote_fails_when_store_refuses_write() {
    let r = rules(1, 3, 2);
    let mut s = r.into_persistent_storage();
    s.set_write_limit(Some(0));
    let mut r = SafetyRules::new(author(), s);
    let res = r.construct_and_sign_vote(&proposal(1, 5, 3, 4), summary());
    assert!(matches!(res, Err(Error::InternalStorage(_))));
    assert_eq!(state(&r), (1, 3, 2));
}

#[test]
fn timeout_rejections() {
    let mut r = rules(2, 6, 5);
    assert_eq!(r.sign_timeout(&Timeout { epoch: 1, round: 9 }), Err(Error::IncorrectEpoch(1, 2)));
    assert_eq!(
        r.sign_timeout(&Timeout { epoch: 2, round: 5 }),
        Err(Error::BadTimeoutPreferredRound(5, 5))
    );
    let mut r = rules(2, 8, 5);
    assert_eq!(
        r.sign_timeout(&Timeout { epoch: 2, round: 6 }),
        Err(Error::BadTimeoutLastVotedRound(6, 8))
    );
    assert_eq!(state(&r), (2, 8, 5));
}

#[test]
fn timeout_raises_last_voted_round() {
    let mut r = rules(1, 3, 2);
    let t = Timeout { epoch: 1, round: 7 };
    assert_eq!(r.sign_timeout(&t), Ok(t));
    assert_eq!(state(&r), (1, 7, 2));
    let res = r.construct_and_sign_vote(&proposal(1, 7, 3, 4), summary());
    assert_eq!(res, Err(Error::OldProposal { proposal_round: 7, last_voted_round: 7 }));
}

#[test]
fn update_before_initialize_fails() {
    let mut r = SafetyRules::new(author(), storage(1, 0, 0));
    assert!(r.validator_verifier().is_none());
    assert_eq!(r.update(&qc(1, 2, 3), Ok(()), hash(0)), Err(Error::NotInitialized));
}

#[test]
fn update_raises_preferred_round() {
    let mut r = rules(1, 0, 2);
    assert_eq!(r.update(&qc(1, 4, 5), Ok(()), hash(0)), Ok(()));
    assert_eq!(state(&r), (1, 0, 4));
    assert_eq!(r.update(&qc(1, 4, 6), Ok(()), hash(0)), Ok(()));
    assert_eq!(state(&r), (1, 0, 4));
}

#[test]
fn update_with_equal_round_writes_nothing() {
    let r = rules(1, 0, 4);
    let mut s = r.into_persistent_storage();
    s.set_write_limit(Some(0));
    let mut r = SafetyRules::new(author(), s);
    r.initialize(stored_waypoint(&r), Ok(epoch_ending_li(0, 1, 10)), hash(5)).unwrap();
    assert_eq!(r.update(&qc(1, 4, 5), Ok(()), hash(0)), Ok(()));
    assert_eq!(state(&r), (1, 0, 4));
}

#[test]
fn update_rejects_bad_signatures() {
    let mut r = rules(1, 0, 2);
    let res = r.update(&qc(1, 4, 5), Err("not enough voting power".to_string()), hash(0));
    assert_eq!(res, Err(Error::InvalidQuorumCertificate("not enough voting power".to_string())));
    assert_eq!(state(&r), (1, 0, 2));
}

#[test]
fn update_with_epoch_ending_qc_starts_next_epoch() {
    let mut r = rules(1, 9, 7);
    let mut q = qc(1, 8, 9);
    q.ledger_info = epoch_ending_li(1, 2, 33);
    assert_eq!(r.update(&q, Ok(()), hash(61)), Ok(()));
    let cs = r.consensus_state().unwrap();
    assert_eq!((cs.epoch, cs.last_voted_round, cs.preferred_round), (2, 0, 0));
    assert_eq!(cs.waypoint, Waypoint { epoch: 1, version: 500, value: hash(61) });
    assert_eq!(r.validator_verifier(), Some(validator_set(33)));
}

#[test]
fn initialize_rejects_unchained_proof() {
    let mut r = SafetyRules::new(author(), storage(1, 0, 0));
    let res = r.initialize(stored_waypoint(&r), Err("wrong waypoint".to_string()), hash(0));
    assert_eq!(res, Err(Error::WaypointMismatch("wrong waypoint".to_string())));
    assert!(r.validator_verifier().is_none());
}

#[test]
fn initialize_rejects_ledger_info_without_next_epoch() {
    let mut r = SafetyRules::new(author(), storage(1, 0, 0));
    let li = LedgerInfo { commit_info: block_info(1, 4, 4), consensus_data_hash: hash(0) };
    assert_eq!(r.initialize(stored_waypoint(&r), Ok(li), hash(0)), Err(Error::InvalidLedgerInfo));
    assert!(r.validator_verifier().is_none());
}

#[test]
fn initialize_twice_changes_nothing() {
    let mut r = SafetyRules::new(author(), storage(1, 4, 3));
    assert_eq!(r.initialize(stored_waypoint(&r), Ok(epoch_ending_li(1, 2, 10)), hash(8)), Ok(()));
    let first = r.consensus_state().unwrap();
    assert_eq!(r.initialize(stored_waypoint(&r), Ok(epoch_ending_li(1, 2, 10)), hash(8)), Ok(()));
    assert_eq!(r.consensus_state().unwrap(), first);
    assert_eq!((first.epoch, first.last_voted_round, first.preferred_round), (2, 0, 0));
}

#[test]
fn older_epoch_proof_keeps_epoch() {
    let mut r = SafetyRules::new(author(), storage(5, 4, 3));
    assert_eq!(r.initialize(stored_waypoint(&r), Ok(epoch_ending_li(2, 3, 10)), hash(8)), Ok(()));
    assert_eq!(state(&r), (5, 4, 3));
    assert_eq!(r.validator_verifier(), Some(validator_set(10)));
}

#[test]
fn signer_holds_stored_key() {
    let r = SafetyRules::new(author(), storage(1, 0, 0));
    assert_eq!(r.signer().author, author());
    assert_eq!(r.signer().private_key, [3; 32]);
}

#[test]
fn zero_hash_and_empty_block_info() {
    assert_eq!(HashValue::zero().bytes, [0; 32]);
    let e = BlockInfo::empty();
    assert_eq!((e.epoch, e.round, e.version, e.timestamp_usecs), (0, 0, 0, 0));
    assert!(e.next_epoch_state.is_none());
}

#[test]
fn new_signs_as_given_author() {
    let r = SafetyRules::new(author(), storage(1, 0, 0));
    assert_eq!(r.signer().author, author());
    let mut r = rules(1, 3, 2);
    let vote = r.construct_and_sign_vote(&proposal(1, 5, 3, 4), summary()).unwrap();
    assert_eq!(vote.author, r.signer().author);
}

fn failing_reads(r: SafetyRules) -> SafetyRules {
    let mut s = r.into_persistent_storage();
    s.set_read_failure(true);
    let mut r = SafetyRules::new(author(), s);
    r.initialize(waypoint(), Ok(epoch_ending_li(0, 1, 10)), hash(5)).unwrap_err();
    r
}

#[test]
fn read_failure_surfaces_as_storage_error() {
    let mut r = failing_reads(rules(1, 3, 2));
    assert!(matches!(r.consensus_state(), Err(Error::InternalStorage(_))));
    assert!(matches!(
        r.initialize(waypoint(), Ok(epoch_ending_li(1, 2, 10)), hash(5)),
        Err(Error::InternalStorage(_))
    ));
    assert!(r.validator_verifier().is_none());
    assert!(matches!(
        r.construct_and_sign_vote(&proposal(1, 5, 3, 4), summary()),
        Err(Error::InternalStorage(_))
    ));
    assert!(matches!(
        r.sign_timeout(&Timeout { epoch: 1, round: 7 }),
        Err(Error::InternalStorage(_))
    ));
    let mut s = r.into_persistent_storage();
    s.set_read_failure(false);
    let r = SafetyRules::new(author(), s);
    assert_eq!(state(&r), (1, 3, 2));
}

#[test]
fn initialize_rejects_proof_checked_against_other_waypoint() {
    let mut r = SafetyRules::new(author(), storage(1, 0, 0));
    let other = Waypoint { epoch: 0, version: 0, value: hash(2) };
    let res = r.initialize(other, Ok(epoch_ending_li(1, 2, 10)), hash(5));
    assert_eq!(
        res,
        Err(Error::WaypointMismatch("the proof was checked against another waypoint".to_string()))
    );
    assert!(r.validator_verifier().is_none());
    assert_eq!(state(&r), (1, 0, 0));
}
