use vstd::prelude::*;
use crate::params::{Fingerprint, FingerprintView};

verus! {

/// Lifecycle of a job: `Pending` and `Running` are in flight, `Completed` and
/// `Failed` are terminal.
#[derive(PartialEq, Eq, Structural, Clone, Copy, Debug)]
pub enum JobState {
    Pending,
    Running,
    Completed,
    Failed,
}

impl JobState {
    pub open spec fn in_flight(self) -> bool {
        self is Pending || self is Running
    }
}

/// The result of one build-and-compare run.
pub struct Outcome {
    pub is_verified: bool,
    pub on_chain_hash: String,
    pub executable_hash: String,
    pub repo_url: String,
}

pub ghost struct OutcomeView {
    pub is_verified: bool,
    pub on_chain_hash: Seq<char>,
    pub executable_hash: Seq<char>,
    pub repo_url: Seq<char>,
}

impl View for Outcome {
    type V = OutcomeView;

    open spec fn view(&self) -> OutcomeView {
        OutcomeView {
            is_verified: self.is_verified,
            on_chain_hash: self.on_chain_hash@,
            executable_hash: self.executable_hash@,
            repo_url: self.repo_url@,
        }
    }
}

impl Outcome {
    pub fn clone_outcome(&self) -> (r: Outcome)
        ensures
            r@ == self@,
    {
        Outcome {
            is_verified: self.is_verified,
            on_chain_hash: self.on_chain_hash.clone(),
            executable_hash: self.executable_hash.clone(),
            repo_url: self.repo_url.clone(),
        }
    }
}

pub open spec fn opt_outcome_view(o: Option<Outcome>) -> Option<OutcomeView> {
    match o {
        Some(x) => Some(x@),
        None => None,
    }
}

/// One submitted job. `seq` is the store's own ticket for it; `id` is the
/// audit identifier handed in by the caller.
pub struct JobRecord {
    pub seq: u64,
    pub id: String,
    pub fingerprint: Fingerprint,
    pub repo_url: String,
    pub created_at: i64,
    pub state: JobState,
    pub outcome: Option<Outcome>,
    pub completed_at: i64,
}

pub ghost struct RecordView {
    pub seq: u64,
    pub id: Seq<char>,
    pub fingerprint: FingerprintView,
    pub repo_url: Seq<char>,
    pub created_at: i64,
    pub state: JobState,
    pub outcome: Option<OutcomeView>,
    pub completed_at: i64,
}

impl View for JobRecord {
    type V = RecordView;

    open spec fn view(&self) -> RecordView {
        RecordView {
            seq: self.seq,
            id: self.id@,
            fingerprint: self.fingerprint@,
            repo_url: self.repo_url@,
            created_at: self.created_at,
            state: self.state,
            outcome: opt_outcome_view(self.outcome),
            completed_at: self.completed_at,
        }
    }
}

/// What a claim finds: the claim won (with the new job's ticket), a job with
/// the same fingerprint is still in flight, or one has already completed.
pub enum Claim {
    Claimed(u64),
    InFlight,
    Resolved(Outcome),
}

/// The store ran out of tickets.
#[derive(PartialEq, Eq, Structural, Clone, Copy, Debug)]
pub enum StoreError {
    Exhausted,
}

/// Whether a completion at `completed_at` is still fresh at `now`.
pub open spec fn is_fresh(completed_at: i64, now: i64, window: u64) -> bool {
    now < completed_at + window
}

/// A record that answers a status query for `pid` at `now`.
pub open spec fn answers(r: RecordView, pid: Seq<char>, now: i64, window: u64) -> bool {
    &&& r.fingerprint.program_id == pid
    &&& r.state is Completed
    &&& is_fresh(r.completed_at, now, window)
}

/// Whether record `i` of `recs` answers a status query for `pid` at `now`,
/// and no other record that does was completed later.
pub open spec fn latest_answer_at(
    recs: Seq<RecordView>,
    i: int,
    pid: Seq<char>,
    now: i64,
    window: u64,
) -> bool {
    &&& 0 <= i < recs.len()
    &&& answers(recs[i], pid, now, window)
    &&& forall|j: int|
        0 <= j < recs.len() && answers(recs[j], pid, now, window) ==> recs[j].completed_at
            <= recs[i].completed_at
}

/// The record that a new claim creates.
pub open spec fn fresh_record(
    seq: u64,
    id: Seq<char>,
    fp: FingerprintView,
    repo_url: Seq<char>,
    created_at: i64,
) -> RecordView {
    RecordView {
        seq,
        id,
        fingerprint: fp,
        repo_url,
        created_at,
        state: JobState::Pending,
        outcome: None,
        completed_at: created_at,
    }
}

/// The set of job records, at most one per fingerprint.
pub struct RecordStore {
    pub records: Vec<JobRecord>,
    pub next_seq: u64,
}

impl RecordStore {
    /// The records, in the order of their slots.
    pub open spec fn recs(&self) -> Seq<RecordView> {
        self.records@.map_values(|r: JobRecord| r@)
    }

    /// Fingerprints are unique, tickets are unique and below `next_seq`, and a
    /// record has an outcome exactly when it is completed.
    pub open spec fn wf(&self) -> bool {
        &&& forall|i: int, j: int|
            0 <= i < j < self.recs().len() ==> self.recs()[i].fingerprint
                != self.recs()[j].fingerprint
        &&& forall|i: int, j: int|
            0 <= i < j < self.recs().len() ==> self.recs()[i].seq != self.recs()[j].seq
        &&& forall|i: int| 0 <= i < self.recs().len() ==> self.recs()[i].seq < self.next_seq
        &&& forall|i: int|
            0 <= i < self.recs().len() ==> (self.recs()[i].state is Completed
                <==> self.recs()[i].outcome is Some)
    }

    /// Whether some record holds fingerprint `fp`.
    pub open spec fn has_fp(&self, fp: FingerprintView) -> bool {
        exists|i: int| 0 <= i < self.recs().len() && self.recs()[i].fingerprint == fp
    }

    /// The index of the record that holds `fp`, where `has_fp(fp)`.
    pub open spec fn slot_of(&self, fp: FingerprintView) -> int {
        choose|i: int| 0 <= i < self.recs().len() && self.recs()[i].fingerprint == fp
    }

    /// Whether some record has ticket `seq`.
    pub open spec fn has_seq(&self, seq: u64) -> bool {
        exists|i: int| 0 <= i < self.recs().len() && self.recs()[i].seq == seq
    }

    /// The index of the record with ticket `seq`, where `has_seq(seq)`.
    pub open spec fn slot_of_seq(&self, seq: u64) -> int {
        choose|i: int| 0 <= i < self.recs().len() && self.recs()[i].seq == seq
    }

    /// Whether a claim on `fp` would win: no record holds it, or the one that
    /// does has failed (a failed job may be retried).
    pub open spec fn claimable(&self, fp: FingerprintView) -> bool {
        !self.has_fp(fp) || self.recs()[self.slot_of(fp)].state is Failed
    }

    /// The records after a winning claim: the new record takes the place of a
    /// failed one with the same fingerprint, or is appended.
    pub open spec fn after_claim(&self, rec: RecordView) -> Seq<RecordView> {
        if self.has_fp(rec.fingerprint) {
            self.recs().update(self.slot_of(rec.fingerprint), rec)
        } else {
            self.recs().push(rec)
        }
    }

    pub fn new() -> (r: RecordStore)
        ensures
            r.wf(),
            r.recs() == Seq::<RecordView>::empty(),
            r.next_seq == 0,
    {
        let r = RecordStore { records: Vec::new(), next_seq: 0 };
        assert(r.recs() =~= Seq::<RecordView>::empty());
        r
    }

    /// Finds the record that holds `fp`.
    pub fn find_fp(&self, fp: &Fingerprint) -> (r: Option<usize>)
        requires
            self.wf(),
        ensures
            r is None <==> !self.has_fp(fp@),
            r matches Some(i) ==> i == self.slot_of(fp@) && i < self.recs().len()
                && self.recs()[i as int].fingerprint == fp@,
    {
        let mut i: usize = 0;
        while i < self.records.len()
            invariant
                self.wf(),
                i <= self.records.len(),
                forall|j: int| 0 <= j < i ==> self.recs()[j].fingerprint != fp@,
            decreases self.records.len() - i,
        {
            if self.records[i].fingerprint.same(fp) {
                assert(self.recs()[i as int].fingerprint == fp@);
                return Some(i);
            }
            i = i + 1;
        }
        None
    }

    /// Finds the record with ticket `seq`.
    pub fn find_seq(&self, seq: u64) -> (r: Option<usize>)
        requires
            self.wf(),
        ensures
            r is None <==> !self.has_seq(seq),
            r matches Some(i) ==> i == self.slot_of_seq(seq) && i < self.recs().len()
                && self.recs()[i as int].seq == seq,
    {
        let mut i: usize = 0;
        while i < self.records.len()
            invariant
                self.wf(),
                i <= self.records.len(),
                forall|j: int| 0 <= j < i ==> self.recs()[j].seq != seq,
            decreases self.records.len() - i,
        {
            if self.records[i].seq == seq {
                assert(self.recs()[i as int].seq == seq);
                return Some(i);
            }
            i = i + 1;
        }
        None
    }
    /// Puts `rec` at index `i` in place of the record there.
    fn put_at(&mut self, i: usize, rec: JobRecord)
        requires
            i < old(self).records.len(),
        ensures
            final(self).recs() == old(self).recs().update(i as int, rec@),
            final(self).next_seq == old(self).next_seq,
    {
        let _gone = self.records.remove(i);
        self.records.insert(i, rec);
        assert(self.recs() =~= old(self).recs().update(i as int, rec@));
    }

    /// Claims fingerprint `fp` for a new job in one step, or reports the job
    /// that already holds it. A record in flight or completed blocks the
    /// claim; a failed one is replaced, so that a failed job can be retried.
    pub fn claim_or_get(
        &mut self,
        fp: Fingerprint,
        id: String,
        repo_url: String,
        created_at: i64,
    ) -> (r: Result<Claim, StoreError>)
        requires
            old(self).wf(),
        ensures
            final(self).wf(),
            !old(self).claimable(fp@) && old(self).recs()[old(self).slot_of(
                fp@,
            )].state.in_flight() ==> {
                &&& r matches Ok(Claim::InFlight)
                &&& final(self).recs() == old(self).recs()
                &&& final(self).next_seq == old(self).next_seq
            },
            !old(self).claimable(fp@) && old(self).recs()[old(self).slot_of(fp@)].state is Completed
                ==> {
                &&& r matches Ok(Claim::Resolved(o))
                &&& old(self).recs()[old(self).slot_of(fp@)].outcome == Some(o@)
                &&& final(self).recs() == old(self).recs()
                &&& final(self).next_seq == old(self).next_seq
            },
            old(self).claimable(fp@) && old(self).next_seq == u64::MAX ==> {
                &&& r matches Err(StoreError::Exhausted)
                &&& final(self).recs() == old(self).recs()
                &&& final(self).next_seq == old(self).next_seq
            },
            old(self).claimable(fp@) && old(self).next_seq < u64::MAX ==> {
                &&& r matches Ok(Claim::Claimed(s))
                &&& s == old(self).next_seq
                &&& final(self).recs() == old(self).after_claim(
                    fresh_record(s, id@, fp@, repo_url@, created_at),
                )
                &&& final(self).next_seq == s + 1
            },
    {
        let found = self.find_fp(&fp);
        if let Some(i) = found {
            let st = self.records[i].state;
            if st == JobState::Pending || st == JobState::Running {
                return Ok(Claim::InFlight);
            }
            if st == JobState::Completed {
                assert(self.recs()[i as int].outcome is Some);
                if let Some(o) = &self.records[i].outcome {
                    return Ok(Claim::Resolved(o.clone_outcome()));
                }
                return Ok(Claim::InFlight);
            }
        }
        if self.next_seq == u64::MAX {
            return Err(StoreError::Exhausted);
        }
        let seq = self.next_seq;
        let rec = JobRecord {
            seq,
            id,
            fingerprint: fp,
            repo_url,
            created_at,
            state: JobState::Pending,
            outcome: None,
            completed_at: created_at,
        };
        let ghost new_rec = rec@;
        let ghost before = self.recs();
        match found {
            Some(i) => {
                self.put_at(i, rec);
            },
            None => {
                self.records.push(rec);
                assert(self.recs() =~= before.push(new_rec));
            },
        }
        self.next_seq = seq + 1;
        proof {
            assert forall|i: int, j: int| 0 <= i < j < self.recs().len() implies
                self.recs()[i].fingerprint != self.recs()[j].fingerprint by {
                if i < before.len() && j < before.len() {
                    if found is Some {
                        let k = found->0 as int;
                        if i != k && j != k {
                            assert(before[i].fingerprint != before[j].fingerprint);
                        }
                    }
                }
            }
        }
        Ok(Claim::Claimed(seq))
    }

    /// Marks the pending job with ticket `seq` as running.
    pub fn mark_running(&mut self, seq: u64) -> (r: bool)
        requires
            old(self).wf(),
        ensures
            final(self).wf(),
            final(self).next_seq == old(self).next_seq,
            r == (old(self).has_seq(seq) && old(self).recs()[old(self).slot_of_seq(
                seq,
            )].state is Pending),
            r ==> final(self).recs() == old(self).recs().update(
                old(self).slot_of_seq(seq),
                RecordView {
                    state: JobState::Running,
                    ..old(self).recs()[old(self).slot_of_seq(seq)]
                },
            ),
            !r ==> final(self).recs() == old(self).recs(),
    {
        match self.find_seq(seq) {
            Some(i) => {
                if self.records[i].state != JobState::Pending {
                    return false;
                }
                let mut rec = self.records.remove(i);
                rec.state = JobState::Running;
                self.records.insert(i, rec);
                proof {
                    let k = i as int;
                    assert(self.recs() =~= old(self).recs().update(
                        k,
                        RecordView { state: JobState::Running, ..old(self).recs()[k] },
                    ));
                }
                true
            },
            None => false,
        }
    }

    /// Ends the job in flight with ticket `seq` with the outcome of its run,
    /// completed at `now`; the outcome carries the job's repository URL.
    pub fn complete(
        &mut self,
        seq: u64,
        is_verified: bool,
        on_chain_hash: String,
        executable_hash: String,
        now: i64,
    ) -> (r: bool)
        requires
            old(self).wf(),
        ensures
            final(self).wf(),
            final(self).next_seq == old(self).next_seq,
            r == (old(self).has_seq(seq) && old(self).recs()[old(self).slot_of_seq(
                seq,
            )].state.in_flight()),
            r ==> final(self).recs() == old(self).recs().update(
                old(self).slot_of_seq(seq),
                RecordView {
                    state: JobState::Completed,
                    outcome: Some(
                        OutcomeView {
                            is_verified,
                            on_chain_hash: on_chain_hash@,
                            executable_hash: executable_hash@,
                            repo_url: old(self).recs()[old(self).slot_of_seq(seq)].repo_url,
                        },
                    ),
                    completed_at: now,
                    ..old(self).recs()[old(self).slot_of_seq(seq)]
                },
            ),
            !r ==> final(self).recs() == old(self).recs(),
    {
        match self.find_seq(seq) {
            Some(i) => {
                let st = self.records[i].state;
                if st != JobState::Pending && st != JobState::Running {
                    return false;
                }
                let mut rec = self.records.remove(i);
                let repo_url = rec.repo_url.clone();
                rec.outcome = Some(Outcome { is_verified, on_chain_hash, executable_hash, repo_url });
                rec.state = JobState::Completed;
                rec.completed_at = now;
                self.records.insert(i, rec);
                proof {
                    let k = i as int;
                    let o = old(self).recs()[k];
                    assert(self.recs() =~= old(self).recs().update(
                        k,
                        RecordView {
                            state: JobState::Completed,
                            outcome: Some(
                                OutcomeView {
                                    is_verified,
                                    on_chain_hash: on_chain_hash@,
                                    executable_hash: executable_hash@,
                                    repo_url: o.repo_url,
                                },
                            ),
                            completed_at: now,
                            ..o
                        },
                    ));
                }
                true
            },
            None => false,
        }
    }

    /// Ends the job in flight with ticket `seq` as failed; no outcome is kept.
    pub fn fail(&mut self, seq: u64) -> (r: bool)
        requires
            old(self).wf(),
        ensures
            final(self).wf(),
            final(self).next_seq == old(self).next_seq,
            r == (old(self).has_seq(seq) && old(self).recs()[old(self).slot_of_seq(
                seq,
            )].state.in_flight()),
            r ==> final(self).recs() == old(self).recs().update(
                old(self).slot_of_seq(seq),
                RecordView {
                    state: JobState::Failed,
                    ..old(self).recs()[old(self).slot_of_seq(seq)]
                },
            ),
            !r ==> final(self).recs() == old(self).recs(),
    {
        match self.find_seq(seq) {
            Some(i) => {
                let st = self.records[i].state;
                if st != JobState::Pending && st != JobState::Running {
                    return false;
                }
                let mut rec = self.records.remove(i);
                rec.state = JobState::Failed;
                self.records.insert(i, rec);
                proof {
                    let k = i as int;
                    assert(self.recs() =~= old(self).recs().update(
                        k,
                        RecordView { state: JobState::Failed, ..old(self).recs()[k] },
                    ));
                }
                true
            },
            None => false,
        }
    }
    /// The index of the latest-completed record that answers a status query
    /// for `pid` at `now`, if any.
    pub fn latest_answer(&self, pid: &String, now: i64, window: u64) -> (r: Option<usize>)
        ensures
            r is None <==> !(exists|i: int|
                0 <= i < self.recs().len() && answers(self.recs()[i], pid@, now, window)),
            r matches Some(b) ==> latest_answer_at(self.recs(), b as int, pid@, now, window),
    {
        let mut best: Option<usize> = None;
        let mut i: usize = 0;
        while i < self.records.len()
            invariant
                i <= self.records.len(),
                best is None <==> !(exists|j: int|
                    0 <= j < i && answers(self.recs()[j], pid@, now, window)),
                best matches Some(b) ==> {
                    &&& b < i
                    &&& answers(self.recs()[b as int], pid@, now, window)
                    &&& forall|j: int|
                        0 <= j < i && answers(self.recs()[j], pid@, now, window)
                            ==> self.recs()[j].completed_at <= self.recs()[b as int].completed_at
                },
            decreases self.records.len() - i,
        {
            let rec = &self.records[i];
            let ghost rv = self.recs()[i as int];
            assert(rec@ == rv);
            let fresh = (now as i128) < (rec.completed_at as i128) + (window as i128);
            let ok = rec.state == JobState::Completed && fresh && rec.fingerprint.program_id
                == *pid;
            assert(ok == answers(rv, pid@, now, window));
            if ok {
                let better = match best {
                    Some(b) => self.records[b].completed_at <= rec.completed_at,
                    None => true,
                };
                if better {
                    best = Some(i);
                }
            }
            i = i + 1;
        }
        best
    }

    /// The outcome of the most recently completed job for program `pid` that
    /// is still fresh at `now`, if any.
    pub fn read_recent(&self, pid: &String, now: i64, window: u64) -> (r: Option<Outcome>)
        requires
            self.wf(),
        ensures
            r is None <==> !(exists|i: int|
                0 <= i < self.recs().len() && answers(self.recs()[i], pid@, now, window)),
            r matches Some(o) ==> exists|i: int|
                latest_answer_at(self.recs(), i, pid@, now, window) && #[trigger] self.recs()[i].outcome
                    == Some(o@),
    {
        match self.latest_answer(pid, now, window) {
            Some(b) => {
                assert(self.recs()[b as int].outcome is Some);
                match &self.records[b].outcome {
                    Some(o) => {
                        let r = o.clone_outcome();
                        assert(self.recs()[b as int].outcome == Some(r@));
                        Some(r)
                    },
                    None => None,
                }
            },
            None => None,
        }
    }
}

} // verus!
