use verify_service::params::{Fingerprint, JobParams};
use verify_service::response::{ApiResponse, Status, StatusResponse};
use verify_service::service::{
    begin_submission, canonical_repo_url, finish_now, finish_submission, get_status, started,
    status_now, submit_now, Admission, VerifierReport, FRESHNESS_WINDOW_MS,
};
use verify_service::store::{JobState, RecordStore};

fn params(repo: &str, pid: &str, commit: Option<&str>) -> JobParams {
    JobParams {
        repository: repo.to_string(),
        commit_hash: commit.map(|c| c.to_string()),
        program_id: pid.to_string(),
        lib_name: None,
        bpf_flag: None,
        base_image: None,
        mount_path: None,
        cargo_args: None,
    }
}

fn report(v: bool, on_chain: &str, exe: &str) -> VerifierReport {
    VerifierReport {
        is_verified: v,
        on_chain_hash: on_chain.to_string(),
        executable_hash: exe.to_string(),
    }
}

fn dispatched(a: Admission) -> u64 {
    match a {
        Admission::Dispatch(s) => s,
        Admission::Reply(code, _) => panic!("expected dispatch, got reply {}", code),
    }
}

fn as_status(r: &ApiResponse) -> &StatusResponse {
    match r {
        ApiResponse::Status(s) => s,
        _ => panic!("expected a status response"),
    }
}

#[test]
fn scenario_a_second_identical_submission_conflicts() {
    let mut store = RecordStore::new();
    let p = params("https://example.com/r.git", "Prog111", None);
    let first = begin_submission(&mut store, &p, "id-1".to_string(), 100);
    let seq = dispatched(first);
    let (code, body) = started();
    assert_eq!(code, 200);
    match body {
        ApiResponse::Verify(v) => {
            assert_eq!(v.status, Status::Success);
            assert_eq!(v.message, "Build verification started");
        }
        _ => panic!("expected an acknowledgment"),
    }
    let second = begin_submission(&mut store, &p, "id-2".to_string(), 100);
    match second {
        Admission::Reply(code, ApiResponse::Verify(v)) => {
            assert_eq!(code, 409);
            assert_eq!(v.status, Status::Error);
            assert_eq!(v.message, "This request is already being processed");
        }
        _ => panic!("expected an in-flight conflict"),
    }
    assert_eq!(store.records.len(), 1);
    assert_eq!(store.records[0].seq, seq);
    assert_eq!(store.records[0].state, JobState::Running);
}

#[test]
fn many_identical_submissions_dispatch_once() {
    let mut store = RecordStore::new();
    let mut dispatches = 0;
    for i in 0..10 {
        let repo = if i % 2 == 0 { "https://Example.com/r.git" } else { "  https://example.com/R.git " };
        let p = params(repo, "Prog111", Some("abc"));
        match begin_submission(&mut store, &p, format!("id-{}", i), 5) {
            Admission::Dispatch(_) => dispatches += 1,
            Admission::Reply(code, _) => assert_eq!(code, 409),
        }
    }
    assert_eq!(dispatches, 1);
    assert_eq!(store.records.len(), 1);
}

#[test]
fn scenario_b_sync_verified() {
    let mut store = RecordStore::new();
    let p = params("https://example.com/r.git", "Prog111", None);
    let seq = dispatched(begin_submission(&mut store, &p, "id".to_string(), 10));
    let (code, body) = finish_submission(&mut store, seq, Some(report(true, "abc", "abc")), 20);
    assert_eq!(code, 200);
    let s = as_status(&body);
    assert!(s.is_verified);
    assert_eq!(s.message, "On chain program verified");
    assert_eq!(s.on_chain_hash, "abc");
    assert_eq!(s.executable_hash, "abc");
    assert_eq!(s.repo_url, "https://example.com/r.git");
    assert_eq!(store.records[0].state, JobState::Completed);
}

#[test]
fn sync_not_verified_is_still_ok() {
    let mut store = RecordStore::new();
    let p = params("https://example.com/r.git", "P", Some("deadbeef"));
    let seq = dispatched(begin_submission(&mut store, &p, "id".to_string(), 10));
    let (code, body) = finish_submission(&mut store, seq, Some(report(false, "a", "b")), 20);
    assert_eq!(code, 200);
    let s = as_status(&body);
    assert!(!s.is_verified);
    assert_eq!(s.message, "On chain program not verified");
    assert_eq!(s.repo_url, "https://example.com/r.git/commit/deadbeef");
}

#[test]
fn scenario_c_status_without_record() {
    let store = RecordStore::new();
    let (code, body) = get_status(&store, &"Nothing".to_string(), 1000);
    assert_eq!(code, 200);
    let s = as_status(&body);
    assert!(!s.is_verified);
    assert_eq!(s.message, "No recent verification found for this program");
    assert_ne!(s.message, "On chain program not verified");
    assert_eq!(s.on_chain_hash, "");
    assert_eq!(s.repo_url, "");
}

#[test]
fn scenario_d_verifier_failure_allows_retry() {
    let mut store = RecordStore::new();
    let p = params("https://example.com/r.git", "Prog111", None);
    let seq = dispatched(begin_submission(&mut store, &p, "id-1".to_string(), 10));
    let (code, body) = finish_submission(&mut store, seq, None, 20);
    assert_eq!(code, 200);
    match body {
        ApiResponse::Error(e) => {
            assert_eq!(e.status, Status::Error);
            assert_eq!(e.error, "unexpected error occurred");
        }
        _ => panic!("expected a generic error"),
    }
    assert_eq!(store.records[0].state, JobState::Failed);
    assert!(store.records[0].outcome.is_none());
    let (_, status) = get_status(&store, &"Prog111".to_string(), 30);
    assert_eq!(as_status(&status).message, "No recent verification found for this program");
    let retry = dispatched(begin_submission(&mut store, &p, "id-2".to_string(), 40));
    assert!(retry > seq);
    assert_eq!(store.records.len(), 1);
    assert_eq!(store.records[0].state, JobState::Running);
}

#[test]
fn completed_resubmission_returns_stored_outcome() {
    let mut store = RecordStore::new();
    let p = params("https://example.com/r.git", "Prog111", Some("c1"));
    let seq = dispatched(begin_submission(&mut store, &p, "id".to_string(), 10));
    let (_, first) = finish_submission(&mut store, seq, Some(report(true, "h1", "h1")), 20);
    let first = as_status(&first);
    match begin_submission(&mut store, &p, "id-again".to_string(), 30) {
        Admission::Reply(code, body) => {
            assert_eq!(code, 409);
            let again = as_status(&body);
            assert_eq!(again.is_verified, first.is_verified);
            assert_eq!(again.on_chain_hash, first.on_chain_hash);
            assert_eq!(again.executable_hash, first.executable_hash);
            assert_eq!(again.repo_url, first.repo_url);
            assert_eq!(again.message, first.message);
        }
        Admission::Dispatch(_) => panic!("a completed job must not run again"),
    }
    assert_eq!(store.next_seq, 1);
}

#[test]
fn status_freshness_window() {
    let mut store = RecordStore::new();
    let p = params("https://example.com/r.git", "Prog111", None);
    let seq = dispatched(begin_submission(&mut store, &p, "id".to_string(), 0));
    let t: i64 = 1_000;
    finish_submission(&mut store, seq, Some(report(true, "x", "x")), t);
    let w = FRESHNESS_WINDOW_MS as i64;
    let pid = "Prog111".to_string();
    let (_, inside) = get_status(&store, &pid, t + w - 1);
    assert!(as_status(&inside).is_verified);
    assert_eq!(as_status(&inside).on_chain_hash, "x");
    let (_, outside) = get_status(&store, &pid, t + w + 1);
    assert!(!as_status(&outside).is_verified);
    assert_eq!(as_status(&outside).message, "No recent verification found for this program");
    let (_, edge) = get_status(&store, &pid, t + w);
    assert!(!as_status(&edge).is_verified);
}

#[test]
fn status_reports_latest_completion() {
    let mut store = RecordStore::new();
    let a = params("https://example.com/r.git", "P", Some("old"));
    let b = params("https://example.com/r.git", "P", Some("new"));
    let sa = dispatched(begin_submission(&mut store, &a, "a".to_string(), 0));
    let sb = dispatched(begin_submission(&mut store, &b, "b".to_string(), 0));
    finish_submission(&mut store, sb, Some(report(true, "nb", "nb")), 50);
    finish_submission(&mut store, sa, Some(report(false, "na", "xa")), 40);
    let (_, body) = get_status(&store, &"P".to_string(), 60);
    let s = as_status(&body);
    assert_eq!(s.on_chain_hash, "nb");
    assert_eq!(s.repo_url, "https://example.com/r.git/commit/new");
}

#[test]
fn missing_fields_are_rejected_before_the_store() {
    let mut store = RecordStore::new();
    let p = params("", "Prog", None);
    match begin_submission(&mut store, &p, "id".to_string(), 0) {
        Admission::Reply(code, ApiResponse::Error(e)) => {
            assert_eq!(code, 400);
            assert_eq!(e.error, "repository and program_id are required");
        }
        _ => panic!("expected a validation error"),
    }
    let q = params("https://example.com/r.git", "", None);
    assert!(matches!(begin_submission(&mut store, &q, "id".to_string(), 0), Admission::Reply(400, _)));
    assert_eq!(store.records.len(), 0);
}

#[test]
fn exhausted_store_answers_generic_error() {
    let mut store = RecordStore::new();
    store.next_seq = u64::MAX;
    let p = params("https://example.com/r.git", "Prog", None);
    match begin_submission(&mut store, &p, "id".to_string(), 0) {
        Admission::Reply(code, ApiResponse::Error(e)) => {
            assert_eq!(code, 500);
            assert_eq!(e.error, "unexpected error occurred");
        }
        _ => panic!("expected a generic error"),
    }
}

#[test]
fn finishing_an_unknown_ticket_changes_nothing() {
    let mut store = RecordStore::new();
    let (code, body) = finish_submission(&mut store, 7, Some(report(true, "a", "a")), 1);
    assert_eq!(code, 500);
    assert!(matches!(body, ApiResponse::Error(_)));
    assert_eq!(store.records.len(), 0);
}

#[test]
fn fingerprint_normalizes_the_url() {
    let a = Fingerprint::of(&params("  HTTPS://Example.COM/R.git\n", "P", None));
    let b = Fingerprint::of(&params("https://example.com/r.git", "P", None));
    assert_eq!(a.repository, "https://example.com/r.git");
    assert!(a.same(&b));
    let c = Fingerprint::of(&params("https://example.com/r.git", "Q", None));
    assert!(!a.same(&c));
}

#[test]
fn fingerprint_absent_is_not_empty() {
    let absent = Fingerprint::of(&params("https://e.com/r", "P", None));
    let empty = Fingerprint::of(&params("https://e.com/r", "P", Some("")));
    assert!(!absent.same(&empty));
    let mut p = params("https://e.com/r", "P", None);
    p.cargo_args = Some(vec![]);
    assert!(!Fingerprint::of(&p).same(&absent));
    let mut f = params("https://e.com/r", "P", None);
    f.bpf_flag = Some(false);
    assert!(Fingerprint::of(&f).same(&absent));
    f.bpf_flag = Some(true);
    assert!(!Fingerprint::of(&f).same(&absent));
}

#[test]
fn fingerprint_build_args_order_matters() {
    let mut p = params("https://e.com/r", "P", None);
    p.cargo_args = Some(vec!["--a".to_string(), "--b".to_string()]);
    let mut q = params("https://e.com/r", "P", None);
    q.cargo_args = Some(vec!["--b".to_string(), "--a".to_string()]);
    assert!(!Fingerprint::of(&p).same(&Fingerprint::of(&q)));
    let fp = Fingerprint::of(&p);
    assert!(fp.same(&fp.clone_fp()));
}

#[test]
fn canonical_url_appends_commit() {
    let r = canonical_repo_url(&"https://e.com/r".to_string(), &Some("abc".to_string()));
    assert_eq!(r, "https://e.com/r/commit/abc");
    let r = canonical_repo_url(&"https://e.com/r".to_string(), &None);
    assert_eq!(r, "https://e.com/r");
}

#[test]
fn current_time_round_trip() {
    let mut store = RecordStore::new();
    let p = params("https://example.com/live.git", "Live", None);
    let seq = dispatched(submit_now(&mut store, &p));
    assert_eq!(store.records[0].id.len(), 36);
    assert!(store.records[0].created_at > 0);
    assert!(matches!(submit_now(&mut store, &p), Admission::Reply(409, _)));
    let (code, _) = finish_now(&mut store, seq, Some(report(true, "h", "h")));
    assert_eq!(code, 200);
    let (_, body) = status_now(&store, &"Live".to_string());
    assert!(as_status(&body).is_verified);
    assert_eq!(as_status(&body).message, "On chain program verified");
}
