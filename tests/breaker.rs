use std::cell::RefCell;
use std::rc::Rc;

use circuit_breaker::{
    default_is_successful, default_ready_to_trip, CircuitBreakerBuilder, Counts, Rejected, State,
    StateListener, SuccessRule, TripRule, DEFAULT_INTERVAL, DEFAULT_TIMEOUT,
};

struct FailureRatio;

impl TripRule for FailureRatio {
    fn ready_to_trip(&self, counts: &Counts) -> bool {
        (counts.total_failures as f32 / counts.total_requests as f32) > 0.5
    }
}

#[derive(Clone, Default)]
struct Recorder {
    calls: Rc<RefCell<Vec<(String, State, State)>>>,
}

impl StateListener for Recorder {
    fn on_state_change(&self, name: &str, from: State, to: State) {
        self.calls.borrow_mut().push((name.to_string(), from, to));
    }
}

struct TimeoutsCount;

impl SuccessRule for TimeoutsCount {
    fn is_successful(&self, outcome: &Result<(), String>) -> bool {
        match outcome {
            Ok(()) => true,
            Err(e) => e == "timeout",
        }
    }
}

#[test]
fn cb_test() {
    let mut cb = CircuitBreakerBuilder::new()
        .timeout(1000)
        .ready_to_trip(FailureRatio)
        .threshold(1)
        .build();
    let p = cb.is_allow(0).expect("closed breaker admits");
    cb.report(p, false, 0);
    println!("{:?}", cb.counts());
    assert_eq!(cb.state(0), State::Open);
    match cb.is_allow(0) {
        Err(r) => assert_eq!(r.message(), "breaker open"),
        Ok(_) => panic!("open breaker admitted an attempt"),
    }
    let p = cb.is_allow(1001).expect("half-open breaker admits a probe");
    assert_eq!(cb.state(1001), State::HalfOpen);
    cb.report(p, true, 1001);
    assert_eq!(cb.state(1001), State::Close);
}

#[test]
fn builder_test() {
    let b = CircuitBreakerBuilder::new();
    let cb = b.build();
    assert_eq!(cb.name(), "default_circuit_breaker");
    assert_eq!(cb.timings().interval, DEFAULT_INTERVAL);
    assert_eq!(cb.timings().timeout, DEFAULT_TIMEOUT);
    assert_eq!(cb.timings().threshold, 1);
    let b = CircuitBreakerBuilder::new()
        .name("rpc_server")
        .interval(4000)
        .timeout(3000);
    let cb = b.build();
    println!("{} {:?}", cb.name(), cb.timings());
    assert_eq!(cb.name(), "rpc_server");
    assert_eq!(cb.timings().interval, 4000);
    assert_eq!(cb.timings().timeout, 3000);
}

#[test]
fn enum_works() {
    assert!(State::Close != State::HalfOpen);
    assert!(State::Close == State::Close);
    println!("stat {}", State::Close.label());
    assert_eq!(State::Close.label(), "Close");
    assert_eq!(State::Open.label(), "Open");
    assert_eq!(State::HalfOpen.label(), "HalfOpen");
}

#[test]
fn count_works() {
    let mut c = Counts::default();
    c.on_request();
    assert_eq!(c.total_requests, 1);
    c.on_success();
    assert_eq!(c.total_success, 1);
    c.on_failure();
    assert_eq!(c.consecutive_failures, 1);
    c.clear();
    assert_eq!(c.total_requests, 0);
}

#[test]
fn counts_stay_balanced_and_runs_reset() {
    let mut c = Counts::new();
    for i in 0..7u64 {
        c.on_request();
        if i % 3 == 0 {
            c.on_failure();
        } else {
            c.on_success();
        }
        assert_eq!(c.total_requests, c.total_success + c.total_failures);
    }
    assert_eq!(c.total_failures, 3);
    assert_eq!(c.total_success, 4);
    assert_eq!(c.consecutive_failures, 1);
    assert_eq!(c.consecutive_success, 0);
}

#[test]
fn clear_zeroes_every_counter() {
    let mut c = Counts {
        total_requests: 9,
        total_success: 4,
        total_failures: 5,
        consecutive_success: 0,
        consecutive_failures: 3,
    };
    c.clear();
    assert_eq!(c, Counts::new());
    assert_eq!(c.consecutive_failures, 0);
}

#[test]
fn counters_saturate() {
    let mut c = Counts {
        total_requests: u64::MAX,
        total_success: u64::MAX,
        total_failures: 0,
        consecutive_success: u64::MAX,
        consecutive_failures: 0,
    };
    c.on_request();
    c.on_success();
    assert_eq!(c.total_requests, u64::MAX);
    assert_eq!(c.total_success, u64::MAX);
    assert_eq!(c.consecutive_success, u64::MAX);
}

#[test]
fn fresh_breaker_is_closed() {
    let mut cb = CircuitBreakerBuilder::new().build();
    assert_eq!(cb.generation(), 0);
    assert_eq!(cb.counts(), Counts::new());
    assert_eq!(cb.expiry(), 0);
    assert_eq!(cb.state(0), State::Close);
}

#[test]
fn default_rule_trips_at_ten_failures() {
    let mut cb = CircuitBreakerBuilder::new().interval(0).build();
    for _ in 0..9 {
        let p = cb.is_allow(5).unwrap();
        cb.report(p, false, 5);
        assert_eq!(cb.state(5), State::Close);
    }
    assert_eq!(cb.counts().consecutive_failures, 9);
    let p = cb.is_allow(5).unwrap();
    cb.report(p, false, 5);
    assert_eq!(cb.state(5), State::Open);
    assert_eq!(cb.generation(), 1);
    assert_eq!(cb.counts(), Counts::new());
    assert_eq!(cb.expiry(), DEFAULT_TIMEOUT);
}

#[test]
fn successes_never_open_a_closed_breaker() {
    let mut cb = CircuitBreakerBuilder::new().ready_to_trip(FailureRatio).build();
    for t in 0..20u64 {
        let p = cb.is_allow(t * 300).unwrap();
        cb.report(p, true, t * 300);
        assert_eq!(cb.state(t * 300), State::Close);
    }
}

#[test]
fn open_rejects_until_expiry_passes() {
    let mut cb = CircuitBreakerBuilder::new()
        .timeout(1000)
        .ready_to_trip(FailureRatio)
        .build();
    let p = cb.is_allow(0).unwrap();
    cb.report(p, false, 0);
    assert_eq!(cb.expiry(), 1000);
    for now in [0u64, 1, 500, 999, 1000] {
        assert_eq!(cb.is_allow(now).unwrap_err(), Rejected::BreakerOpen);
        assert_eq!(cb.counts(), Counts::new());
    }
    assert!(cb.is_allow(1001).is_ok());
    assert_eq!(cb.state(1001), State::HalfOpen);
    assert_eq!(cb.expiry(), 0);
    assert_eq!(cb.generation(), 3);
}

#[test]
fn half_open_admits_threshold_probes() {
    let mut cb = CircuitBreakerBuilder::new()
        .timeout(1000)
        .threshold(2)
        .ready_to_trip(FailureRatio)
        .build();
    let p = cb.is_allow(0).unwrap();
    cb.report(p, false, 0);
    let a = cb.is_allow(2000).unwrap();
    let b = cb.is_allow(2000).unwrap();
    let r = cb.is_allow(2000).unwrap_err();
    assert_eq!(r, Rejected::TooManyRequests);
    assert_eq!(r.message(), "too many requests");
    cb.report(a, true, 2001);
    assert_eq!(cb.state(2001), State::HalfOpen);
    cb.report(b, true, 2002);
    assert_eq!(cb.state(2002), State::Close);
    assert_eq!(cb.expiry(), 2002 + DEFAULT_INTERVAL);
}

#[test]
fn half_open_failure_reopens() {
    let mut cb = CircuitBreakerBuilder::new()
        .timeout(1000)
        .threshold(2)
        .ready_to_trip(FailureRatio)
        .build();
    let p = cb.is_allow(0).unwrap();
    cb.report(p, false, 0);
    let a = cb.is_allow(1500).unwrap();
    let b = cb.is_allow(1500).unwrap();
    cb.report(a, true, 1600);
    assert_eq!(cb.state(1600), State::HalfOpen);
    assert_eq!(cb.counts().consecutive_success, 1);
    cb.report(b, false, 1700);
    assert_eq!(cb.current_state(), State::Open);
    // the half-open expiry is zero, so the new cooldown ends at 0 + timeout,
    // which has already passed: the next look at the time probes again
    assert_eq!(cb.expiry(), 1000);
    assert_eq!(cb.state(1700), State::HalfOpen);
}

#[test]
fn stale_report_changes_nothing() {
    let mut cb = CircuitBreakerBuilder::new().interval(1000).build();
    let p = cb.is_allow(1).unwrap();
    cb.report(p, true, 1);
    assert_eq!(cb.generation(), 1);
    assert_eq!(cb.expiry(), 1001);
    let old = cb.is_allow(2).unwrap();
    assert_eq!(old.generation(), 1);
    let fresh = cb.is_allow(2000).unwrap();
    assert_eq!(fresh.generation(), 2);
    let before = cb.counts();
    cb.report(old, false, 2000);
    assert_eq!(cb.counts(), before);
    assert_eq!(cb.counts().total_failures, 0);
    assert_eq!(cb.generation(), 2);
}

#[test]
fn zero_interval_window_ends_at_once() {
    let mut cb = CircuitBreakerBuilder::new().interval(0).build();
    let p = cb.is_allow(10).unwrap();
    cb.report(p, true, 10);
    assert_eq!(cb.generation(), 1);
    assert_eq!(cb.expiry(), 10);
    let p = cb.is_allow(20).unwrap();
    assert_eq!(cb.generation(), 2);
    cb.report(p, true, 20);
    assert_eq!(cb.counts().total_success, 1);
}

#[test]
fn listener_hears_each_transition_once() {
    let rec = Recorder::default();
    let mut cb = CircuitBreakerBuilder::new()
        .name("db")
        .timeout(1000)
        .ready_to_trip(FailureRatio)
        .on_state_change(rec.clone())
        .build();
    let p = cb.is_allow(0).unwrap();
    cb.report(p, false, 0);
    assert!(cb.is_allow(10).is_err());
    let p = cb.is_allow(1500).unwrap();
    cb.report(p, true, 1500);
    let calls = rec.calls.borrow().clone();
    assert_eq!(
        calls,
        vec![
            ("db".to_string(), State::Close, State::Open),
            ("db".to_string(), State::Open, State::HalfOpen),
            ("db".to_string(), State::HalfOpen, State::Close),
        ]
    );
}

#[test]
fn default_rules() {
    let mut c = Counts::new();
    for _ in 0..9 {
        c.on_failure();
    }
    assert!(!default_ready_to_trip(&c));
    c.on_failure();
    assert!(default_ready_to_trip(&c));
    assert!(default_is_successful(&Ok(())));
    assert!(!default_is_successful(&Err("timeout".to_string())));
}

#[test]
fn custom_success_rule_classifies() {
    let cb = CircuitBreakerBuilder::new().is_successful(TimeoutsCount).build();
    assert!(cb.is_successful(&Err("timeout".to_string())));
    assert!(!cb.is_successful(&Err("refused".to_string())));
    let cb = CircuitBreakerBuilder::new().build();
    assert!(!cb.is_successful(&Err("timeout".to_string())));
}

#[test]
fn record_failure_with_verdict() {
    let mut cb = CircuitBreakerBuilder::new().build();
    let _ = cb.is_allow(0).unwrap();
    cb.record_failure(0, false);
    assert_eq!(cb.state(0), State::Close);
    assert_eq!(cb.counts().total_failures, 1);
    cb.record_failure(0, true);
    assert_eq!(cb.state(0), State::Open);
}

#[test]
fn rollover_and_stale_reports_call_no_listener() {
    let rec = Recorder::default();
    let mut cb = CircuitBreakerBuilder::new()
        .interval(1000)
        .on_state_change(rec.clone())
        .build();
    let p = cb.is_allow(1).unwrap();
    cb.report(p, true, 1);
    let old = cb.is_allow(2).unwrap();
    assert!(cb.is_allow(5000).is_ok());
    assert_eq!(cb.generation(), 2);
    cb.report(old, false, 5000);
    assert_eq!(cb.counts().total_failures, 0);
    assert!(rec.calls.borrow().is_empty());
}

#[test]
fn trip_then_probe_failure_calls_listener_per_change() {
    let rec = Recorder::default();
    let mut cb = CircuitBreakerBuilder::new()
        .timeout(1000)
        .ready_to_trip(FailureRatio)
        .on_state_change(rec.clone())
        .build();
    let p = cb.is_allow(0).unwrap();
    cb.report(p, false, 0);
    assert_eq!(rec.calls.borrow().len(), 1);
    let p = cb.is_allow(1500).unwrap();
    assert_eq!(rec.calls.borrow().len(), 2);
    cb.report(p, false, 1500);
    let to: Vec<(State, State)> = rec.calls.borrow().iter().map(|c| (c.1, c.2)).collect();
    assert_eq!(
        to,
        vec![
            (State::Close, State::Open),
            (State::Open, State::HalfOpen),
            (State::HalfOpen, State::Open),
        ]
    );
}

#[test]
fn repeated_report_applies_again() {
    let mut cb = CircuitBreakerBuilder::new().build();
    let p = cb.is_allow(0).unwrap();
    let again = p;
    cb.report(p, false, 0);
    cb.report(again, false, 0);
    assert_eq!(cb.counts().total_requests, 1);
    assert_eq!(cb.counts().total_failures, 2);
    assert_eq!(cb.counts().consecutive_failures, 2);
}
