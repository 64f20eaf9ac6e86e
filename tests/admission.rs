use verify_service::admission::{AdmissionController, Endpoint, Limiter, Limits};
use verify_service::response::{throttled, ApiResponse};

fn limits(global: u32, window: u32, interval: u32, burst: u32) -> Limits {
    Limits { global_limit: global, window_ms: window, client_interval_ms: interval, client_burst: burst }
}

#[test]
fn global_limit_refuses_the_excess() {
    let mut l = Limiter::new(limits(3, 1000, 0, 100));
    let results: Vec<bool> = (0..5u128).map(|c| l.check(c, 10)).collect();
    assert_eq!(results, vec![true, true, true, false, false]);
    // a new window admits again
    assert!(l.check(9, 1010));
    assert_eq!(l.window_start, 1010);
    assert_eq!(l.window_count, 1);
}

#[test]
fn client_burst_then_refill() {
    let mut l = Limiter::new(limits(1000, 1000, 30_000, 2));
    assert!(l.check(1, 0));
    assert!(l.check(1, 0));
    assert!(!l.check(1, 0));
    // another client is not affected
    assert!(l.check(2, 0));
    // one token comes back after one interval
    assert!(l.check(1, 30_000));
    assert!(!l.check(1, 30_000));
}

#[test]
fn refused_client_keeps_its_state() {
    let mut l = Limiter::new(limits(1000, 1000, 100, 1));
    assert!(l.check(7, 0));
    let tat = l.clients[0].tat;
    assert!(!l.check(7, 50));
    assert_eq!(l.clients[0].tat, tat);
    assert!(l.check(7, 100));
}

#[test]
fn zero_burst_refuses_everything() {
    let mut l = Limiter::new(limits(10, 1000, 5, 0));
    assert!(!l.check(1, 0));
    assert!(!l.check(1, 1000));
}

#[test]
fn categories_are_independent() {
    let mut a = AdmissionController::new(limits(1, 1000, 30_000, 1), limits(10_000, 1000, 1000, 100));
    assert!(a.decide(Endpoint::Submit, 1, 0));
    assert!(!a.decide(Endpoint::Submit, 1, 1));
    assert!(!a.decide(Endpoint::Submit, 2, 2));
    for _ in 0..100 {
        assert!(a.decide(Endpoint::Query, 1, 3));
    }
    assert!(!a.decide(Endpoint::Query, 1, 3));
}

#[test]
fn throttled_response_shape() {
    let (code, body) = throttled();
    assert_eq!(code, 429);
    match body {
        ApiResponse::Error(e) => assert_eq!(e.error, "Too many requests, try again later"),
        _ => panic!("expected an error response"),
    }
}

#[test]
fn current_time_decisions() {
    let mut a = AdmissionController::new(limits(2, 60_000, 60_000, 1), limits(1, 60_000, 0, 1));
    assert!(a.decide_now(Endpoint::Submit, 5));
    assert!(!a.decide_now(Endpoint::Submit, 5));
    assert!(a.decide_now(Endpoint::Query, 5));
}
