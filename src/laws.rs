use vstd::prelude::*;
use crate::admission::{client_allows, window_resets, Limiter};
use crate::params::{fingerprint_spec, JobParams};
use crate::response::{in_progress_text, verdict_view, ApiView, Status, HTTP_CONFLICT};
use crate::service::{dispatched_record, expected_reply, valid_params, FRESHNESS_WINDOW_MS};
use crate::store::{answers, RecordStore};

verus! {

/// Once a submission has won the claim on its fingerprint, every later
/// submission with the same normalized parameters, while the first is still
/// in flight, is answered with a conflict and never dispatched: at most one
/// Verifier run per fingerprint.
pub proof fn lemma_single_claim(
    st: RecordStore,
    st2: RecordStore,
    p: JobParams,
    q: JobParams,
    seq: u64,
    id: Seq<char>,
    now: i64,
)
    requires
        st.wf(),
        st2.wf(),
        expected_reply(st, p) is None,
        st2.recs() == st.after_claim(dispatched_record(seq, id, p, now)),
        valid_params(q),
        fingerprint_spec(q) == fingerprint_spec(p),
    ensures
        expected_reply(st2, q) == Some(
            (HTTP_CONFLICT, ApiView::Ack { status: Status::Error, message: in_progress_text() }),
        ),
{
    let fp = fingerprint_spec(p);
    let k: int = if st.has_fp(fp) {
        st.slot_of(fp)
    } else {
        st.recs().len() as int
    };
    assert(st2.recs()[k].fingerprint == fp);
    assert(st2.has_fp(fp));
    let j = st2.slot_of(fp);
    if j != k {
        if j < k {
            assert(st2.recs()[j].fingerprint != st2.recs()[k].fingerprint);
        } else {
            assert(st2.recs()[k].fingerprint != st2.recs()[j].fingerprint);
        }
    }
}

/// A submission whose fingerprint belongs to a completed job is answered
/// from the stored outcome, as a conflict, and is never dispatched again.
pub proof fn lemma_completed_is_answered_from_store(st: RecordStore, p: JobParams, i: int)
    requires
        st.wf(),
        valid_params(p),
        0 <= i < st.recs().len(),
        st.recs()[i].fingerprint == fingerprint_spec(p),
        st.recs()[i].state is Completed,
    ensures
        st.recs()[i].outcome is Some,
        expected_reply(st, p) == Some(
            (HTTP_CONFLICT, ApiView::Verdict(verdict_view(st.recs()[i].outcome->0))),
        ),
{
    let fp = fingerprint_spec(p);
    assert(st.has_fp(fp));
    let j = st.slot_of(fp);
    if j != i {
        if j < i {
            assert(st.recs()[j].fingerprint != st.recs()[i].fingerprint);
        } else {
            assert(st.recs()[i].fingerprint != st.recs()[j].fingerprint);
        }
    }
}

/// A job for `pid` completed at `T` answers status queries at every `now`
/// from `T` up to, not including, `T` plus the freshness window.
pub proof fn lemma_visible_within_window(st: RecordStore, pid: Seq<char>, i: int, now: i64)
    requires
        0 <= i < st.recs().len(),
        st.recs()[i].fingerprint.program_id == pid,
        st.recs()[i].state is Completed,
        now < st.recs()[i].completed_at + FRESHNESS_WINDOW_MS,
    ensures
        exists|j: int|
            0 <= j < st.recs().len() && answers(st.recs()[j], pid, now, FRESHNESS_WINDOW_MS),
{
    assert(answers(st.recs()[i], pid, now, FRESHNESS_WINDOW_MS));
}

/// Once the freshness window has passed for every completed job of `pid`,
/// no record answers a status query for it.
pub proof fn lemma_absent_after_window(st: RecordStore, pid: Seq<char>, now: i64)
    requires
        forall|i: int|
            0 <= i < st.recs().len() && st.recs()[i].fingerprint.program_id == pid
                && st.recs()[i].state is Completed ==> st.recs()[i].completed_at
                + FRESHNESS_WINDOW_MS <= now,
    ensures
        !(exists|j: int|
            0 <= j < st.recs().len() && answers(st.recs()[j], pid, now, FRESHNESS_WINDOW_MS)),
{
}

/// Within one global window, once the limit's worth of requests has been
/// admitted, every further request is refused.
pub proof fn lemma_global_excess_refused(l: Limiter, c: u128, now: u64)
    requires
        !window_resets(l.window_start, now, l.limits.window_ms),
        l.window_count >= l.limits.global_limit,
    ensures
        !l.admits(c, now),
{
}

/// A client that sends at one instant is admitted `burst` times in a row
/// from a full bucket (its arrival time `now + k * interval` after `k`
/// admissions), and refused after that while the interval is not zero.
pub proof fn lemma_client_burst(now: int, interval: int, burst: int, k: int)
    requires
        interval > 0,
        0 <= k,
        burst >= 0,
    ensures
        client_allows(now + k * interval, now, interval, burst) <==> k < burst,
{
    assert(k * interval <= interval * (burst - 1) <==> k < burst) by (nonlinear_arith)
        requires
            interval > 0,
            k >= 0,
    ;
    assert(k * interval >= 0) by (nonlinear_arith)
        requires
            interval > 0,
            k >= 0,
    ;
}

} // verus!
