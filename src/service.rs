use vstd::prelude::*;
use crate::params::{fingerprint_spec, Fingerprint, JobParams};
use crate::response::{
    ack, error_response, error_view, generic_error_text, in_progress_text, invalid_text,
    not_found_status, not_found_view, started_text, status_of, verdict_view, ApiResponse, ApiView,
    Status, HTTP_BAD_REQUEST, HTTP_CONFLICT, HTTP_INTERNAL_ERROR, HTTP_OK,
};
use crate::store::{
    answers, fresh_record, latest_answer_at, Claim, JobState, OutcomeView, RecordStore,
    RecordView,
};

verus! {

/// How long, in milliseconds, a completed verification answers status
/// queries. Every time in the store is in milliseconds since the Unix epoch.
pub const FRESHNESS_WINDOW_MS: u64 = 86_400_000;

/// Relies on `uuid::Uuid::new_v4`, written out by its `Display`: a random
/// identifier, of which nothing is promised.
#[verifier::external_body]
fn new_job_id() -> (r: String) {
    uuid::Uuid::new_v4().to_string()
}

/// Relies on `chrono::Utc::now` and `DateTime::timestamp_millis`: the time
/// now in milliseconds since the Unix epoch, of which nothing is promised.
#[verifier::external_body]
pub(crate) fn clock_millis() -> (r: i64) {
    chrono::Utc::now().timestamp_millis()
}

/// What the Verifier reports of a finished build-and-compare run.
pub struct VerifierReport {
    pub is_verified: bool,
    pub on_chain_hash: String,
    pub executable_hash: String,
}

/// What to do with a submission: run the Verifier for the job with this
/// ticket, or answer at once.
pub enum Admission {
    Dispatch(u64),
    Reply(u16, ApiResponse),
}

/// The repository URL that responses report: the repository, followed by
/// `/commit/<hash>` where a commit was named.
pub open spec fn canonical_url(repository: Seq<char>, commit: Option<Seq<char>>) -> Seq<char> {
    match commit {
        Some(h) => repository + "/commit/"@ + h,
        None => repository,
    }
}

/// Builds the repository URL that responses report for a request.
pub fn canonical_repo_url(repository: &String, commit_hash: &Option<String>) -> (r: String)
    ensures
        r@ == canonical_url(repository@, crate::params::opt_str_view(*commit_hash)),
{
    let mut r = repository.clone();
    if let Some(h) = commit_hash {
        r.append("/commit/");
        r.append(h.as_str());
    }
    r
}

/// A submission names a repository and a program.
pub open spec fn valid_params(p: JobParams) -> bool {
    p.repository@.len() > 0 && p.program_id@.len() > 0
}

/// The immediate answer owed to a submission of `p` against `st`; `None` where
/// the submission wins its claim and the Verifier is to run.
pub open spec fn expected_reply(st: RecordStore, p: JobParams) -> Option<(u16, ApiView)> {
    if !valid_params(p) {
        Some((HTTP_BAD_REQUEST, error_view(invalid_text())))
    } else if !st.claimable(fingerprint_spec(p)) {
        match st.recs()[st.slot_of(fingerprint_spec(p))].outcome {
            Some(o) => Some((HTTP_CONFLICT, ApiView::Verdict(verdict_view(o)))),
            None => Some(
                (HTTP_CONFLICT, ApiView::Ack { status: Status::Error, message: in_progress_text() }),
            ),
        }
    } else if st.next_seq == u64::MAX {
        Some((HTTP_INTERNAL_ERROR, error_view(generic_error_text())))
    } else {
        None
    }
}

/// The record of a job that has just won its claim and been dispatched.
pub open spec fn dispatched_record(
    seq: u64,
    id: Seq<char>,
    p: JobParams,
    now: i64,
) -> RecordView {
    RecordView {
        state: JobState::Running,
        ..fresh_record(
            seq,
            id,
            fingerprint_spec(p),
            canonical_url(p.repository@, crate::params::opt_str_view(p.commit_hash)),
            now,
        )
    }
}

/// What a submission of `p` with job id `id` at `now` does: against store
/// `before` it answers `r` and leaves `after`.
pub open spec fn submitted(
    before: RecordStore,
    after: RecordStore,
    p: JobParams,
    id: Seq<char>,
    now: i64,
    r: Admission,
) -> bool {
    &&& after.wf()
    &&& match expected_reply(before, p) {
        Some(e) => {
            &&& r matches Admission::Reply(code, resp)
            &&& code == e.0
            &&& resp@ == e.1
            &&& after.recs() == before.recs()
            &&& after.next_seq == before.next_seq
        },
        None => {
            &&& r matches Admission::Dispatch(s)
            &&& s == before.next_seq
            &&& after.recs() == before.after_claim(dispatched_record(s, id, p, now))
            &&& after.next_seq == s + 1
        },
    }
}

/// Validates a submission, then claims its fingerprint in one step. A winning
/// claim leaves a running record and asks for the Verifier to run; otherwise
/// the answer is given at once and the store is left as it was.
pub fn begin_submission(store: &mut RecordStore, params: &JobParams, id: String, now: i64) -> (r:
    Admission)
    requires
        old(store).wf(),
    ensures
        submitted(*old(store), *final(store), *params, id@, now, r),
{
    if params.repository.as_str().is_empty() || params.program_id.as_str().is_empty() {
        return Admission::Reply(
            HTTP_BAD_REQUEST,
            error_response("repository and program_id are required"),
        );
    }
    let fp = Fingerprint::of(params);
    let repo_url = canonical_repo_url(&params.repository, &params.commit_hash);
    let ghost fpv = fp@;
    match store.claim_or_get(fp, id, repo_url, now) {
        Ok(Claim::InFlight) => Admission::Reply(
            HTTP_CONFLICT,
            ack(Status::Error, "This request is already being processed"),
        ),
        Ok(Claim::Resolved(o)) => Admission::Reply(HTTP_CONFLICT, ApiResponse::Status(status_of(&o))),
        Err(_) => Admission::Reply(HTTP_INTERNAL_ERROR, error_response("unexpected error occurred")),
        Ok(Claim::Claimed(seq)) => {
            let ghost claimed = store.recs();
            let ghost k = if old(store).has_fp(fpv) {
                old(store).slot_of(fpv)
            } else {
                old(store).recs().len() as int
            };
            assert(claimed[k].seq == seq);
            assert(store.has_seq(seq));
            assert(store.slot_of_seq(seq) == k) by {
                let c = choose|i: int| 0 <= i < claimed.len() && claimed[i].seq == seq;
                if c != k {
                    if c < k {
                        assert(claimed[c].seq != claimed[k].seq);
                    } else {
                        assert(claimed[k].seq != claimed[c].seq);
                    }
                }
            }
            let running = store.mark_running(seq);
            assert(running);
            assert(store.recs() =~= old(store).after_claim(dispatched_record(seq, id@, *params, now)));
            Admission::Dispatch(seq)
        },
    }
}

/// What recording the Verifier's `report` for ticket `seq` at `now` does:
/// against store `before` it answers `r` and leaves `after`.
pub open spec fn finished(
    before: RecordStore,
    after: RecordStore,
    seq: u64,
    report: Option<VerifierReport>,
    now: i64,
    r: (u16, ApiResponse),
) -> bool {
    &&& after.wf()
    &&& after.next_seq == before.next_seq
    &&& if !(before.has_seq(seq) && before.recs()[before.slot_of_seq(seq)].state.in_flight()) {
        &&& after.recs() == before.recs()
        &&& r.0 == HTTP_INTERNAL_ERROR
        &&& r.1@ == error_view(generic_error_text())
    } else {
        let k = before.slot_of_seq(seq);
        match report {
            Some(rep) => {
                let o = OutcomeView {
                    is_verified: rep.is_verified,
                    on_chain_hash: rep.on_chain_hash@,
                    executable_hash: rep.executable_hash@,
                    repo_url: before.recs()[k].repo_url,
                };
                &&& after.recs() == before.recs().update(
                    k,
                    RecordView {
                        state: JobState::Completed,
                        outcome: Some(o),
                        completed_at: now,
                        ..before.recs()[k]
                    },
                )
                &&& r.0 == HTTP_OK
                &&& r.1@ == ApiView::Verdict(verdict_view(o))
            },
            None => {
                &&& after.recs() == before.recs().update(
                    k,
                    RecordView { state: JobState::Failed, ..before.recs()[k] },
                )
                &&& r.0 == HTTP_OK
                &&& r.1@ == error_view(generic_error_text())
            },
        }
    }
}

/// Records what the Verifier did for the job with ticket `seq` and builds the
/// answer: a report completes the job and is answered with its status; a
/// failed run (`None`) marks the job failed and is answered with a generic
/// error. A ticket that is not in flight is answered with a generic error and
/// changes nothing.
pub fn finish_submission(
    store: &mut RecordStore,
    seq: u64,
    report: Option<VerifierReport>,
    now: i64,
) -> (r: (u16, ApiResponse))
    requires
        old(store).wf(),
    ensures
        finished(*old(store), *final(store), seq, report, now, r),
{
    match report {
        Some(rep) => {
            let ghost k = old(store).slot_of_seq(seq);
            let done = store.complete(seq, rep.is_verified, rep.on_chain_hash, rep.executable_hash, now);
            if !done {
                return (HTTP_INTERNAL_ERROR, error_response("unexpected error occurred"));
            }
            let i = store.find_seq(seq);
            match i {
                Some(i) => {
                    assert(store.recs()[k].seq == seq);
                    assert(i as int == k) by {
                        if i as int != k {
                            if (i as int) < k {
                                assert(store.recs()[i as int].seq != store.recs()[k].seq);
                            } else {
                                assert(store.recs()[k].seq != store.recs()[i as int].seq);
                            }
                        }
                    }
                    match &store.records[i].outcome {
                        Some(o) => (HTTP_OK, ApiResponse::Status(status_of(o))),
                        None => (HTTP_INTERNAL_ERROR, error_response("unexpected error occurred")),
                    }
                },
                None => (HTTP_INTERNAL_ERROR, error_response("unexpected error occurred")),
            }
        },
        None => {
            if store.fail(seq) {
                (HTTP_OK, error_response("unexpected error occurred"))
            } else {
                (HTTP_INTERNAL_ERROR, error_response("unexpected error occurred"))
            }
        },
    }
}

/// The answer `r` owed to a status query for `pid` at `now` against `st`.
pub open spec fn status_answer(
    st: RecordStore,
    pid: Seq<char>,
    now: i64,
    r: (u16, ApiResponse),
) -> bool {
    &&& r.0 == HTTP_OK
    &&& if exists|i: int|
        0 <= i < st.recs().len() && answers(st.recs()[i], pid, now, FRESHNESS_WINDOW_MS) {
        exists|i: int|
            latest_answer_at(st.recs(), i, pid, now, FRESHNESS_WINDOW_MS) && (
            #[trigger] st.recs()[i].outcome matches Some(o) && r.1@ == ApiView::Verdict(
                verdict_view(o),
            ))
    } else {
        r.1@ == ApiView::Verdict(not_found_view())
    }
}

/// Answers a status query for program `pid` at `now`: the outcome of the
/// latest completion still within the freshness window, or a distinct
/// "no recent verification" status where there is none.
pub fn get_status(store: &RecordStore, pid: &String, now: i64) -> (r: (u16, ApiResponse))
    requires
        store.wf(),
    ensures
        status_answer(*store, pid@, now, r),
{
    match store.read_recent(pid, now, FRESHNESS_WINDOW_MS) {
        Some(o) => (HTTP_OK, ApiResponse::Status(status_of(&o))),
        None => (HTTP_OK, ApiResponse::Status(not_found_status())),
    }
}

/// The acknowledgment of an asynchronous submission that was dispatched.
pub fn started() -> (r: (u16, ApiResponse))
    ensures
        r.0 == HTTP_OK,
        r.1@ == (ApiView::Ack { status: Status::Success, message: started_text() }),
{
    (HTTP_OK, ack(Status::Success, "Build verification started"))
}

/// Submits `params` under a fresh job id at the current time; the id and
/// the time are whatever the generator and the clock gave.
pub fn submit_now(store: &mut RecordStore, params: &JobParams) -> (r: Admission)
    requires
        old(store).wf(),
    ensures
        exists|id: Seq<char>, now: i64| submitted(*old(store), *final(store), *params, id, now, r),
{
    let id = new_job_id();
    let now = clock_millis();
    let ghost idv = id@;
    let r = begin_submission(store, params, id, now);
    assert(submitted(*old(store), *store, *params, idv, now, r));
    r
}

/// Records the Verifier's `report` for ticket `seq` at the current time.
pub fn finish_now(store: &mut RecordStore, seq: u64, report: Option<VerifierReport>) -> (r: (
    u16,
    ApiResponse,
))
    requires
        old(store).wf(),
    ensures
        exists|now: i64| finished(*old(store), *final(store), seq, report, now, r),
{
    let now = clock_millis();
    let r = finish_submission(store, seq, report, now);
    assert(finished(*old(store), *store, seq, report, now, r));
    r
}

/// Answers a status query for program `pid` at the current time.
pub fn status_now(store: &RecordStore, pid: &String) -> (r: (u16, ApiResponse))
    requires
        store.wf(),
    ensures
        exists|now: i64| status_answer(*store, pid@, now, r),
{
    let now = clock_millis();
    let r = get_status(store, pid, now);
    assert(status_answer(*store, pid@, now, r));
    r
}

} // verus!
