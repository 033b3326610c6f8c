use crate::error::Error;
use crate::safety_rules::{
    boundary_waypoint, epoch_change_outcome, epoch_writes, initialize_outcome,
    lemma_epoch_writes_tails, timeout_outcome,
    update_outcome, vote_outcome, writes_outcome,
};
use crate::storage::{accepts_write, apply_write, is_storage_failure, SafetyData, StorageWrite};
use crate::types::{
    Waypoint, AccountAddress, AccumulatorSummary, HashValue, LedgerInfo, QuorumCert, Timeout, Vote,
    VoteProposal,
};
use vstd::prelude::*;

verus! {

/// The store accepts at least `n` more writes.
pub open spec fn accepts_writes(d: SafetyData, n: u64) -> bool {
    d.writes_left matches Some(k) ==> k >= n
}

/// `after` is what one operation of the kernel can leave in the store that held `before`.
pub open spec fn is_kernel_step(before: SafetyData, after: SafetyData) -> bool {
    ||| exists|
        checked_against: Waypoint,
        verified: Result<LedgerInfo, String>,
        digest: HashValue,
        r: Result<(), Error>,
    | #[trigger] initialize_outcome(before, checked_against, verified, digest, r, after)
    ||| exists|
        initialized: bool,
        qc: QuorumCert,
        signatures: Result<(), String>,
        digest: HashValue,
        r: Result<(), Error>,
    | #[trigger] update_outcome(before, initialized, qc, signatures, digest, r, after)
    ||| exists|
        author: AccountAddress,
        vp: VoteProposal,
        extension: Result<AccumulatorSummary, String>,
        r: Result<Vote, Error>,
    | #[trigger] vote_outcome(before, author, vp, extension, r, after)
    ||| exists|t: Timeout, r: Result<Timeout, Error>| #[trigger] timeout_outcome(before, t, r, after)
}

/// An epoch transition makes, in order, a prefix of its four writes: waypoint, last voted
/// round 0, preferred round 0, epoch. The epoch changes only when all four were made.
pub proof fn lemma_epoch_change_write_order(
    before: SafetyData,
    li: LedgerInfo,
    digest: HashValue,
    r: Result<(), Error>,
    after: SafetyData,
)
    requires
        epoch_change_outcome(before, li, digest, r, after),
    ensures
        exists|k: int|
            0 <= k <= 4 && after.log == before.log + epoch_writes(
                li,
                digest,
                li.commit_info.next_epoch_state.unwrap().epoch,
            ).take(k),
        after.epoch != before.epoch ==> after.log == before.log + epoch_writes(
            li,
            digest,
            after.epoch,
        ),
        after.epoch >= before.epoch,
        after.epoch == before.epoch || r is Ok,
        r is Ok ==> after.epoch >= li.commit_info.next_epoch_state.unwrap().epoch,
        after.epoch == before.epoch || after.epoch == li.commit_info.next_epoch_state.unwrap().epoch,
        after == before || after.epoch > before.epoch || is_storage_failure(r),
        accepts_writes(before, 4) ==> after == before || after.epoch > before.epoch,
{
    let e = li.commit_info.next_epoch_state.unwrap().epoch;
    let ws = epoch_writes(li, digest, e);
    if li.commit_info.next_epoch_state.is_none() || before.reads_fail || before.epoch >= e {
        assert(after.log =~= before.log + ws.take(0));
        return;
    }
    lemma_epoch_writes_tails(li, digest, e);
    let s1 = apply_write(before, ws[0]);
    let s2 = apply_write(s1, ws[1]);
    let s3 = apply_write(s2, ws[2]);
    let s4 = apply_write(s3, ws[3]);
    if !accepts_write(before) {
        assert(after.log =~= before.log + ws.take(0));
    } else if !accepts_write(s1) {
        assert(writes_outcome(s1, ws.drop_first(), r, after));
        assert(after.log =~= before.log + ws.take(1));
    } else if !accepts_write(s2) {
        assert(writes_outcome(s1, ws.drop_first(), r, after));
        assert(writes_outcome(s2, ws.drop_first().drop_first(), r, after));
        assert(after.log =~= before.log + ws.take(2));
    } else if !accepts_write(s3) {
        assert(writes_outcome(s1, ws.drop_first(), r, after));
        assert(writes_outcome(s2, ws.drop_first().drop_first(), r, after));
        assert(writes_outcome(s3, ws.drop_first().drop_first().drop_first(), r, after));
        assert(after.log =~= before.log + ws.take(3));
    } else {
        assert(writes_outcome(s1, ws.drop_first(), r, after));
        assert(writes_outcome(s2, ws.drop_first().drop_first(), r, after));
        assert(writes_outcome(s3, ws.drop_first().drop_first().drop_first(), r, after));
        assert(writes_outcome(
            s4,
            ws.drop_first().drop_first().drop_first().drop_first(),
            r,
            after,
        ));
        assert(after == s4);
        assert(after.log =~= before.log + ws.take(4));
        assert(ws.take(4) =~= ws);
    }
}

/// A vote is only ever issued for a round above the last voted round stored before it, in
/// the stored epoch, and that round becomes the last voted round.
pub proof fn lemma_vote_round_above_last_voted(
    before: SafetyData,
    author: AccountAddress,
    vp: VoteProposal,
    extension: Result<AccumulatorSummary, String>,
    v: Vote,
    after: SafetyData,
)
    requires
        vote_outcome(before, author, vp, extension, Ok(v), after),
    ensures
        v.vote_data.proposed.round > before.last_voted_round,
        v.vote_data.proposed.epoch == before.epoch,
        after.epoch == before.epoch,
        after.last_voted_round == v.vote_data.proposed.round,
{
}

/// A timeout is only cleared for a round not below the stored last voted round, and the
/// last voted round afterwards is not below the timeout's round.
pub proof fn lemma_timeout_round_covered(
    before: SafetyData,
    t: Timeout,
    cleared: Timeout,
    after: SafetyData,
)
    requires
        timeout_outcome(before, t, Ok(cleared), after),
    ensures
        t.round >= before.last_voted_round,
        after.last_voted_round >= t.round,
        cleared == t,
{
}

/// Within an epoch, no operation lowers the preferred round or the last voted round, as
/// long as the store accepts the writes the operation makes.
pub proof fn lemma_rounds_never_decrease_within_epoch(before: SafetyData, after: SafetyData)
    requires
        is_kernel_step(before, after),
        accepts_writes(before, 4),
        after.epoch == before.epoch,
    ensures
        after.preferred_round >= before.preferred_round,
        after.last_voted_round >= before.last_voted_round,
{
    lemma_step_cases(before, after);
}

/// No operation lowers the stored epoch.
pub proof fn lemma_epoch_never_decreases(before: SafetyData, after: SafetyData)
    requires
        is_kernel_step(before, after),
    ensures
        after.epoch >= before.epoch,
{
    lemma_step_cases(before, after);
}

/// On every epoch change, the waypoint, the last voted round 0 and the preferred round 0
/// are written, in this order, right before the new epoch.
pub proof fn lemma_epoch_change_writes_epoch_last(before: SafetyData, after: SafetyData)
    requires
        is_kernel_step(before, after),
        after.epoch != before.epoch,
    ensures
        exists|li: LedgerInfo, digest: HashValue|
            after.log == before.log + #[trigger] epoch_writes(li, digest, after.epoch),
{
    lemma_step_cases(before, after);
}

/// What one operation can do to the store: nothing; raise the preferred round or the last
/// voted round within the epoch; or make part or all of an epoch transition.
proof fn lemma_step_cases(before: SafetyData, after: SafetyData)
    requires
        is_kernel_step(before, after),
    ensures
        after.epoch >= before.epoch,
        after.epoch == before.epoch && !(after.preferred_round >= before.preferred_round
            && after.last_voted_round >= before.last_voted_round) ==> !accepts_writes(before, 4),
        after.epoch != before.epoch ==> exists|li: LedgerInfo, digest: HashValue|
            after.log == before.log + #[trigger] epoch_writes(li, digest, after.epoch),
{
    if exists|
        checked_against: Waypoint,
        verified: Result<LedgerInfo, String>,
        digest: HashValue,
        r: Result<(), Error>,
    | #[trigger] initialize_outcome(before, checked_against, verified, digest, r, after) {
        let (checked_against, verified, digest, r) = choose|
            checked_against: Waypoint,
            verified: Result<LedgerInfo, String>,
            digest: HashValue,
            r: Result<(), Error>,
        | #[trigger] initialize_outcome(before, checked_against, verified, digest, r, after);
        if !before.reads_fail && checked_against.same_as(before.waypoint) && verified is Ok {
            lemma_epoch_change_write_order(before, verified.unwrap(), digest, r, after);
        }
    } else if exists|
        initialized: bool,
        qc: QuorumCert,
        signatures: Result<(), String>,
        digest: HashValue,
        r: Result<(), Error>,
    | #[trigger] update_outcome(before, initialized, qc, signatures, digest, r, after) {
        let (initialized, qc, signatures, digest, r) = choose|
            initialized: bool,
            qc: QuorumCert,
            signatures: Result<(), String>,
            digest: HashValue,
            r: Result<(), Error>,
        | #[trigger] update_outcome(before, initialized, qc, signatures, digest, r, after);
        if initialized && signatures is Ok && qc.parent_round() >= before.preferred_round
            && qc.spec_ends_epoch() {
            lemma_epoch_change_write_order(before, qc.ledger_info, digest, r, after);
        }
    }
}

/// Clearing the same timeout a second time succeeds again, gives the same timeout to the
/// signer and leaves the store as it was.
pub proof fn lemma_timeout_repeatable(
    before: SafetyData,
    t: Timeout,
    r1: Result<Timeout, Error>,
    mid: SafetyData,
    r2: Result<Timeout, Error>,
    after: SafetyData,
)
    requires
        timeout_outcome(before, t, r1, mid),
        r1 is Ok,
        timeout_outcome(mid, t, r2, after),
    ensures
        r2 == r1,
        after == mid,
{
}

/// Once a vote was issued for a round of an epoch, a vote on another proposal for the
/// same epoch and round is refused as old and changes nothing.
pub proof fn lemma_one_vote_per_round(
    before: SafetyData,
    author: AccountAddress,
    vp1: VoteProposal,
    extension1: Result<AccumulatorSummary, String>,
    v1: Vote,
    mid: SafetyData,
    vp2: VoteProposal,
    extension2: Result<AccumulatorSummary, String>,
    r2: Result<Vote, Error>,
    after: SafetyData,
)
    requires
        vote_outcome(before, author, vp1, extension1, Ok(v1), mid),
        vote_outcome(mid, author, vp2, extension2, r2, after),
        vp2.block.epoch == vp1.block.epoch,
        vp2.block.round == vp1.block.round,
    ensures
        r2 == Err::<Vote, Error>(
            Error::OldProposal {
                proposal_round: vp1.block.round,
                last_voted_round: vp1.block.round,
            },
        ),
        after == mid,
{
}

/// Initializing a second time from the same proof, still verified against the stored
/// waypoint, succeeds and changes nothing.
pub proof fn lemma_initialize_idempotent(
    before: SafetyData,
    checked1: Waypoint,
    li: LedgerInfo,
    digest: HashValue,
    mid: SafetyData,
    checked2: Waypoint,
    r2: Result<(), Error>,
    after: SafetyData,
)
    requires
        initialize_outcome(before, checked1, Ok(li), digest, Ok(()), mid),
        initialize_outcome(mid, checked2, Ok(li), digest, r2, after),
        checked2.same_as(mid.waypoint),
        !mid.reads_fail,
    ensures
        r2 is Ok,
        after == mid,
{
    lemma_epoch_change_write_order(before, li, digest, Ok(()), mid);
}

/// A quorum certificate that does not end the epoch and whose parent round is not above
/// the preferred round leaves the store unchanged; it is admitted exactly when a validator
/// set is known, its signatures verified and its parent round equals the preferred round.
pub proof fn lemma_stale_update_changes_nothing(
    before: SafetyData,
    initialized: bool,
    qc: QuorumCert,
    signatures: Result<(), String>,
    digest: HashValue,
    r: Result<(), Error>,
    after: SafetyData,
)
    requires
        update_outcome(before, initialized, qc, signatures, digest, r, after),
        qc.parent_round() <= before.preferred_round,
        !qc.spec_ends_epoch(),
    ensures
        after == before,
        r is Ok <==> (initialized && signatures is Ok && !before.reads_fail && qc.parent_round()
            == before.preferred_round),
{
}

/// Along a run of operations within one epoch whose writes the store all accepted, the
/// last voted round and the preferred round never go down.
pub proof fn lemma_run_rounds_never_decrease(trace: Seq<SafetyData>, i: int, j: int)
    requires
        forall|k: int|
            #![trigger trace[k]]
            0 <= k < trace.len() - 1 ==> is_kernel_step(trace[k], trace[k + 1])
                && accepts_writes(trace[k], 4) && trace[k + 1].epoch == trace[k].epoch,
        0 <= i <= j < trace.len(),
    ensures
        trace[i].last_voted_round <= trace[j].last_voted_round,
        trace[i].preferred_round <= trace[j].preferred_round,
    decreases j - i,
{
    if i < j {
        let _ = trace[j - 1];
        lemma_run_rounds_never_decrease(trace, i, j - 1);
        lemma_rounds_never_decrease_within_epoch(trace[j - 1], trace[j]);
    }
}

/// A vote issued at the end of such a run is for a round above every last voted round
/// stored along it.
pub proof fn lemma_vote_above_every_earlier_round(
    trace: Seq<SafetyData>,
    author: AccountAddress,
    vp: VoteProposal,
    extension: Result<AccumulatorSummary, String>,
    v: Vote,
    after: SafetyData,
)
    requires
        trace.len() > 0,
        forall|k: int|
            #![trigger trace[k]]
            0 <= k < trace.len() - 1 ==> is_kernel_step(trace[k], trace[k + 1])
                && accepts_writes(trace[k], 4) && trace[k + 1].epoch == trace[k].epoch,
        vote_outcome(trace.last(), author, vp, extension, Ok(v), after),
    ensures
        forall|k: int|
            0 <= k < trace.len() ==> v.vote_data.proposed.round > #[trigger] trace[k].last_voted_round,
{
    assert forall|k: int| 0 <= k < trace.len() implies v.vote_data.proposed.round
        > #[trigger] trace[k].last_voted_round by {
        lemma_run_rounds_never_decrease(trace, k, trace.len() - 1);
        lemma_vote_round_above_last_voted(trace.last(), author, vp, extension, v, after);
    }
}

/// An epoch transition that failed after its waypoint was stored leaves the old epoch in
/// force with the new waypoint; initializing again from the same proof, now verified
/// against that waypoint, completes the transition once the store accepts writes again.
pub proof fn lemma_interrupted_transition_completes(
    before: SafetyData,
    checked1: Waypoint,
    li: LedgerInfo,
    digest: HashValue,
    r1: Result<(), Error>,
    mid: SafetyData,
    restarted: SafetyData,
    checked2: Waypoint,
    r2: Result<(), Error>,
    after: SafetyData,
)
    requires
        initialize_outcome(before, checked1, Ok(li), digest, r1, mid),
        r1 is Err,
        mid.log.len() > before.log.len(),
        restarted == (SafetyData { reads_fail: false, writes_left: None, ..mid }),
        initialize_outcome(restarted, checked2, Ok(li), digest, r2, after),
        checked2.same_as(mid.waypoint),
    ensures
        mid.epoch == before.epoch,
        mid.waypoint == boundary_waypoint(li, digest),
        r2 is Ok,
        after.epoch == li.commit_info.next_epoch_state.unwrap().epoch,
        after.last_voted_round == 0,
        after.preferred_round == 0,
        after.waypoint == boundary_waypoint(li, digest),
{
    let e = li.commit_info.next_epoch_state.unwrap().epoch;
    assert(!before.reads_fail && checked1.same_as(before.waypoint));
    lemma_epoch_change_write_order(before, li, digest, r1, mid);
    assert(li.commit_info.next_epoch_state.is_some() && before.epoch < e);
    let k = choose|k: int|
        0 <= k <= 4 && mid.log == before.log + epoch_writes(li, digest, e).take(k);
    assert(mid.log.len() == before.log.len() + k);
    lemma_epoch_writes_tails(li, digest, e);
    let ws = epoch_writes(li, digest, e);
    let s1 = apply_write(before, ws[0]);
    let s2 = apply_write(s1, ws[1]);
    let s3 = apply_write(s2, ws[2]);
    assert(writes_outcome(before, ws, r1, mid));
    assert(ws[0] == StorageWrite::Waypoint(boundary_waypoint(li, digest)));
    assert(accepts_write(before));
    assert(s1.waypoint == boundary_waypoint(li, digest));
    assert(ws.drop_first()[0] == ws[1]);
    assert(ws.drop_first().drop_first()[0] == ws[2]);
    assert(ws.drop_first().drop_first().drop_first()[0] == ws[3]);
    assert(writes_outcome(s1, ws.drop_first(), r1, mid));
    if !accepts_write(s1) {
        assert(mid == s1);
    } else {
        assert(writes_outcome(s2, ws.drop_first().drop_first(), r1, mid));
        if !accepts_write(s2) {
            assert(mid == s2);
        } else {
            assert(writes_outcome(s3, ws.drop_first().drop_first().drop_first(), r1, mid));
            if !accepts_write(s3) {
                assert(mid == s3);
            } else {
                assert(writes_outcome(s3, ws.drop_first().drop_first().drop_first(), r1, mid));
                assert(writes_outcome(
                    apply_write(s3, ws[3]),
                    ws.drop_first().drop_first().drop_first().drop_first(),
                    r1,
                    mid,
                ));
                assert(false);
            }
        }
    }
    assert(mid.epoch == before.epoch);
    assert(restarted.epoch < e);
    lemma_epoch_change_write_order(restarted, li, digest, r2, after);
    let ws2 = epoch_writes(li, digest, e);
    let t1 = apply_write(restarted, ws2[0]);
    let t2 = apply_write(t1, ws2[1]);
    let t3 = apply_write(t2, ws2[2]);
    assert(!restarted.reads_fail && checked2.same_as(restarted.waypoint));
    assert(ws2.drop_first()[0] == ws2[1]);
    assert(ws2.drop_first().drop_first()[0] == ws2[2]);
    assert(ws2.drop_first().drop_first().drop_first()[0] == ws2[3]);
    assert(writes_outcome(restarted, ws2, r2, after));
    assert(accepts_write(restarted) && accepts_write(t1) && accepts_write(t2) && accepts_write(t3));
    assert(accepts_write(apply_write(t3, ws2[3])));
    assert(writes_outcome(t1, ws2.drop_first(), r2, after));
    assert(writes_outcome(t2, ws2.drop_first().drop_first(), r2, after));
    assert(writes_outcome(t3, ws2.drop_first().drop_first().drop_first(), r2, after));
    assert(writes_outcome(
        apply_write(t3, ws2[3]),
        ws2.drop_first().drop_first().drop_first().drop_first(),
        r2,
        after,
    ));
}

} // verus!
