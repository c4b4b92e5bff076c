use pipeline_core::request::{ErrorKind, HttpResponse, Outcome, PollResult};
use pipeline_core::timeout::{race_decision, resolve_race, run_timed_call, RaceDecision, TimeoutCall};

fn ok(status: u16) -> Outcome {
    Outcome::Success(HttpResponse { status, body: Vec::new() })
}

#[test]
fn handler_faster_than_deadline_returns_its_outcome() {
    let (outcome, finish) = resolve_race(500, ok(200), 2000);
    assert_eq!(outcome, ok(200));
    assert_eq!(finish, 500);
}

#[test]
fn handler_failure_is_forwarded_unchanged() {
    let failure = Outcome::Failure(ErrorKind::Handler, String::from("boom"));
    let (outcome, finish) = resolve_race(10, failure.clone(), 2000);
    assert_eq!(outcome, failure);
    assert_eq!(finish, 10);
}

#[test]
fn handler_slower_than_deadline_times_out_at_the_deadline() {
    // Scenario: handler takes 3000 ticks, deadline 2000 -> failure at 2000.
    let (outcome, finish) = resolve_race(3000, ok(200), 2000);
    assert_eq!(
        outcome,
        Outcome::Failure(ErrorKind::DeadlineElapsed, String::from("deadline elapsed"))
    );
    assert_eq!(finish, 2000);
}

#[test]
fn tie_is_won_by_the_inner_call() {
    // Resolving exactly at the deadline is honored, not penalized.
    let (outcome, finish) = resolve_race(2000, ok(204), 2000);
    assert_eq!(outcome, ok(204));
    assert_eq!(finish, 2000);

    assert_eq!(race_decision(true, true), RaceDecision::InnerWins);
    assert_eq!(race_decision(true, false), RaceDecision::InnerWins);
    assert_eq!(race_decision(false, true), RaceDecision::TimerWins);
    assert_eq!(race_decision(false, false), RaceDecision::StillPending);
}

#[test]
fn poll_pending_before_deadline_stays_pending() {
    let mut call = TimeoutCall::start(0, 100);
    assert_eq!(call.poll(PollResult::Pending, 0), PollResult::Pending);
    assert_eq!(call.poll(PollResult::Pending, 99), PollResult::Pending);
    assert!(!call.resolved);
}

#[test]
fn poll_pending_at_deadline_resolves_with_timeout_failure() {
    let mut call = TimeoutCall::start(0, 100);
    let step = call.poll(PollResult::Pending, 100);
    assert_eq!(
        step,
        PollResult::Ready(Outcome::Failure(
            ErrorKind::DeadlineElapsed,
            String::from("deadline elapsed")
        ))
    );
    assert!(call.resolved);
}

#[test]
fn poll_ready_past_deadline_still_prefers_the_inner_result() {
    // The same scheduling pass sees both ready; the inner call wins.
    let mut call = TimeoutCall::start(0, 100);
    let step = call.poll(PollResult::Ready(ok(200)), 100);
    assert_eq!(step, PollResult::Ready(ok(200)));
    assert!(call.resolved);
}

#[test]
fn pending_passes_never_change_the_verdict() {
    for passes in [0usize, 1, 7, 100] {
        let (outcome, finish) = run_timed_call(500, ok(200), 2000, passes);
        assert_eq!(outcome, ok(200));
        assert_eq!(finish, 500);
        let (outcome, finish) = run_timed_call(3000, ok(200), 2000, passes);
        assert!(matches!(outcome, Outcome::Failure(ErrorKind::DeadlineElapsed, _)));
        assert_eq!(finish, 2000);
    }
}

#[test]
fn instant_handler_and_zero_deadline_edge_cases() {
    // A handler that resolves on the very first pass wins even a zero
    // deadline: ties favor the inner call.
    let (outcome, finish) = resolve_race(0, ok(200), 0);
    assert_eq!(outcome, ok(200));
    assert_eq!(finish, 0);
    // A zero deadline with any slower handler times out at once.
    let (outcome, finish) = resolve_race(1, ok(200), 0);
    assert!(matches!(outcome, Outcome::Failure(ErrorKind::DeadlineElapsed, _)));
    assert_eq!(finish, 0);
}

#[test]
fn timeout_failure_kind_is_distinct_from_handler_failure() {
    let late = resolve_race(2, ok(200), 1).0;
    match late {
        Outcome::Failure(kind, _) => assert_eq!(kind, ErrorKind::DeadlineElapsed),
        Outcome::Success(_) => panic!("expected a failure"),
    }
    assert_ne!(ErrorKind::DeadlineElapsed, ErrorKind::Handler);
}
