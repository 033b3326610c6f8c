use crate::error::Error;
use crate::types::Waypoint;
use vstd::prelude::*;

verus! {

/// One durable write to the safety store.
pub enum StorageWrite {
    Waypoint(Waypoint),
    LastVotedRound(u64),
    PreferredRound(u64),
    Epoch(u64),
}

/// The abstract contents of the safety store: its four mutable records, whether reading
/// them fails, how many more writes it will accept (`None`: no limit), and every write it
/// has accepted, in order.
pub struct SafetyData {
    pub epoch: u64,
    pub last_voted_round: u64,
    pub preferred_round: u64,
    pub waypoint: Waypoint,
    pub reads_fail: bool,
    pub writes_left: Option<u64>,
    pub log: Seq<StorageWrite>,
}

/// A failure reported by the persistent store.
pub open spec fn is_storage_failure<T>(r: Result<T, Error>) -> bool {
    r matches Err(Error::InternalStorage(_))
}

/// Whether the store accepts its next write.
pub open spec fn accepts_write(d: SafetyData) -> bool {
    d.writes_left != Some(0u64)
}

/// The store after it accepted the write `w`.
pub open spec fn apply_write(d: SafetyData, w: StorageWrite) -> SafetyData {
    let left = match d.writes_left {
        Some(n) => Some((n - 1) as u64),
        None => None,
    };
    let d1 = SafetyData { writes_left: left, log: d.log.push(w), ..d };
    match w {
        StorageWrite::Waypoint(wp) => SafetyData { waypoint: wp, ..d1 },
        StorageWrite::LastVotedRound(r) => SafetyData { last_voted_round: r, ..d1 },
        StorageWrite::PreferredRound(r) => SafetyData { preferred_round: r, ..d1 },
        StorageWrite::Epoch(e) => SafetyData { epoch: e, ..d1 },
    }
}

/// The outcome of a write: accepted and applied, or refused with the store unchanged.
pub open spec fn write_outcome(
    before: SafetyData,
    w: StorageWrite,
    r: Result<(), Error>,
    after: SafetyData,
) -> bool {
    if accepts_write(before) {
        r is Ok && after == apply_write(before, w)
    } else {
        is_storage_failure(r) && after == before
    }
}

/// The validator's persistent safety data: the consensus key, the epoch, the last voted
/// round, the preferred round and the waypoint. The kernel is its only writer. A limit on
/// the number of further writes can be set, after which every write fails as a failing
/// device would; reads of the four mutable records can be made to fail in the same way.
pub struct PersistentSafetyStorage {
    consensus_key: [u8; 32],
    epoch: u64,
    last_voted_round: u64,
    preferred_round: u64,
    waypoint: Waypoint,
    reads_fail: bool,
    writes_left: Option<u64>,
    log: Ghost<Seq<StorageWrite>>,
}

impl View for PersistentSafetyStorage {
    type V = SafetyData;

    closed spec fn view(&self) -> SafetyData {
        SafetyData {
            epoch: self.epoch,
            last_voted_round: self.last_voted_round,
            preferred_round: self.preferred_round,
            waypoint: self.waypoint,
            reads_fail: self.reads_fail,
            writes_left: self.writes_left,
            log: self.log@,
        }
    }
}

impl PersistentSafetyStorage {
    pub closed spec fn spec_consensus_key(&self) -> [u8; 32] {
        self.consensus_key
    }

    /// A store holding the given records, with no limit on writes and no write made yet.
    pub fn new(
        consensus_key: [u8; 32],
        epoch: u64,
        last_voted_round: u64,
        preferred_round: u64,
        waypoint: Waypoint,
    ) -> (r: PersistentSafetyStorage)
        ensures
            r.spec_consensus_key() == consensus_key,
            r@ == (SafetyData {
                epoch,
                last_voted_round,
                preferred_round,
                waypoint,
                reads_fail: false,
                writes_left: None,
                log: Seq::empty(),
            }),
    {
        PersistentSafetyStorage {
            consensus_key,
            epoch,
            last_voted_round,
            preferred_round,
            waypoint,
            reads_fail: false,
            writes_left: None,
            log: Ghost(Seq::empty()),
        }
    }

    /// Lets the store accept `limit` more writes and fail every later one
    /// (`None`: accept all).
    pub fn set_write_limit(&mut self, limit: Option<u64>)
        ensures
            final(self)@ == (SafetyData { writes_left: limit, ..old(self)@ }),
            final(self).spec_consensus_key() == old(self).spec_consensus_key(),
    {
        self.writes_left = limit;
    }

    /// Makes every read of the four mutable records fail (`true`) or succeed (`false`).
    pub fn set_read_failure(&mut self, fail: bool)
        ensures
            final(self)@ == (SafetyData { reads_fail: fail, ..old(self)@ }),
            final(self).spec_consensus_key() == old(self).spec_consensus_key(),
    {
        self.reads_fail = fail;
    }

    pub fn consensus_key(&self) -> (r: [u8; 32])
        ensures
            r == self.spec_consensus_key(),
    {
        self.consensus_key
    }

    pub fn epoch(&self) -> (r: Result<u64, Error>)
        ensures
            !self@.reads_fail ==> r == Ok::<u64, Error>(self@.epoch),
            self@.reads_fail ==> is_storage_failure(r),
    {
        if self.reads_fail {
            Err(Error::InternalStorage("the store failed to read".to_owned()))
        } else {
            Ok(self.epoch)
        }
    }

    pub fn last_voted_round(&self) -> (r: Result<u64, Error>)
        ensures
            !self@.reads_fail ==> r == Ok::<u64, Error>(self@.last_voted_round),
            self@.reads_fail ==> is_storage_failure(r),
    {
        if self.reads_fail {
            Err(Error::InternalStorage("the store failed to read".to_owned()))
        } else {
            Ok(self.last_voted_round)
        }
    }

    pub fn preferred_round(&self) -> (r: Result<u64, Error>)
        ensures
            !self@.reads_fail ==> r == Ok::<u64, Error>(self@.preferred_round),
            self@.reads_fail ==> is_storage_failure(r),
    {
        if self.reads_fail {
            Err(Error::InternalStorage("the store failed to read".to_owned()))
        } else {
            Ok(self.preferred_round)
        }
    }

    pub fn waypoint(&self) -> (r: Result<Waypoint, Error>)
        ensures
            !self@.reads_fail ==> r == Ok::<Waypoint, Error>(self@.waypoint),
            self@.reads_fail ==> is_storage_failure(r),
    {
        if self.reads_fail {
            Err(Error::InternalStorage("the store failed to read".to_owned()))
        } else {
            Ok(self.waypoint)
        }
    }

    /// Takes one write off the remaining allowance; fails when none is left.
    fn begin_write(&mut self, Ghost(w): Ghost<StorageWrite>) -> (r: Result<(), Error>)
        ensures
            accepts_write(old(self)@) ==> r is Ok && final(self)@ == (SafetyData {
                writes_left: apply_write(old(self)@, w).writes_left,
                log: apply_write(old(self)@, w).log,
                ..old(self)@
            }),
            !accepts_write(old(self)@) ==> (r matches Err(Error::InternalStorage(_)))
                && final(self)@ == old(self)@,
            final(self).spec_consensus_key() == old(self).spec_consensus_key(),
    {
        match self.writes_left {
            Some(0) => Err(Error::InternalStorage("the store refused the write".to_owned())),
            Some(n) => {
                self.writes_left = Some(n - 1);
                self.log = Ghost(self.log@.push(w));
                Ok(())
            },
            None => {
                self.log = Ghost(self.log@.push(w));
                Ok(())
            },
        }
    }

    pub fn set_epoch(&mut self, epoch: u64) -> (r: Result<(), Error>)
        ensures
            write_outcome(old(self)@, StorageWrite::Epoch(epoch), r, final(self)@),
            final(self).spec_consensus_key() == old(self).spec_consensus_key(),
    {
        self.begin_write(Ghost(StorageWrite::Epoch(epoch)))?;
        self.epoch = epoch;
        Ok(())
    }

    pub fn set_last_voted_round(&mut self, round: u64) -> (r: Result<(), Error>)
        ensures
            write_outcome(old(self)@, StorageWrite::LastVotedRound(round), r, final(self)@),
            final(self).spec_consensus_key() == old(self).spec_consensus_key(),
    {
        self.begin_write(Ghost(StorageWrite::LastVotedRound(round)))?;
        self.last_voted_round = round;
        Ok(())
    }

    pub fn set_preferred_round(&mut self, round: u64) -> (r: Result<(), Error>)
        ensures
            write_outcome(old(self)@, StorageWrite::PreferredRound(round), r, final(self)@),
            final(self).spec_consensus_key() == old(self).spec_consensus_key(),
    {
        self.begin_write(Ghost(StorageWrite::PreferredRound(round)))?;
        self.preferred_round = round;
        Ok(())
    }

    pub fn set_waypoint(&mut self, waypoint: Waypoint) -> (r: Result<(), Error>)
        ensures
            write_outcome(old(self)@, StorageWrite::Waypoint(waypoint), r, final(self)@),
            final(self).spec_consensus_key() == old(self).spec_consensus_key(),
    {
        self.begin_write(Ghost(StorageWrite::Waypoint(waypoint)))?;
        self.waypoint = waypoint;
        Ok(())
    }
}

} // verus!
