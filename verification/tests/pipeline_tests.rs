use pipeline_core::logging::RecordKind;
use pipeline_core::pipeline::{
    ConcurrencyLimitLayer, LayerEntry, LoggingLayer, PipelineBuilder, RateLimitLayer, TimeoutLayer,
};
use pipeline_core::request::{ErrorKind, Method, Outcome, ReadyState, RequestContext};
use pipeline_core::service::{HandlerModel, Service};

fn req(path: &str) -> RequestContext {
    RequestContext { method: Method::Get, path: String::from(path), body: Vec::new() }
}

fn handler(latency: u64, status: u16) -> HandlerModel {
    HandlerModel { latency, status, body: b"Hello World".to_vec() }
}

#[test]
fn fast_handler_call_succeeds_with_one_entry_exit_pair() {
    // Scenario: handler takes 500 ticks, deadline 2000 -> success, elapsed 500.
    let builder = PipelineBuilder::canonical(2000, 100, 1000, 1000);
    let mut p = builder.build(handler(500, 200));
    assert_eq!(p.ready(0), ReadyState::Ready);
    let (outcome, finish) = p.invoke(req("/hello"), 0);
    match outcome {
        Outcome::Success(resp) => {
            assert_eq!(resp.status, 200);
            assert_eq!(resp.body, b"Hello World".to_vec());
        }
        Outcome::Failure(_, _) => panic!("expected success"),
    }
    assert_eq!(finish, 500);
    assert_eq!(p.log.len(), 2);
    assert_eq!(p.log[0].kind, RecordKind::Entry);
    assert_eq!(p.log[0].path, String::from("/hello"));
    assert_eq!(p.log[1].kind, RecordKind::Exit { status: 200, elapsed: 500 });
}

#[test]
fn slow_handler_call_times_out_at_the_deadline() {
    // Scenario: handler takes 3000 ticks, deadline 2000 -> the distinct
    // timeout failure, returned at tick 2000, not 3000.
    let builder = PipelineBuilder::canonical(2000, 100, 1000, 1000);
    let mut p = builder.build(handler(3000, 200));
    let (outcome, finish) = p.invoke(req("/slow"), 0);
    assert_eq!(
        outcome,
        Outcome::Failure(ErrorKind::DeadlineElapsed, String::from("deadline elapsed"))
    );
    assert_eq!(finish, 2000);
    // The failure is logged like any outcome, classified as an error.
    assert_eq!(p.log[1].kind, RecordKind::Exit { status: 500, elapsed: 2000 });
}

#[test]
fn builder_records_the_canonical_order() {
    let builder = PipelineBuilder::canonical(2000, 100, 1000, 50);
    assert_eq!(
        builder.layers,
        vec![
            LayerEntry::Logging,
            LayerEntry::Timeout(2000),
            LayerEntry::RateLimit(100, 1000),
            LayerEntry::ConcurrencyLimit(50),
        ]
    );
    let p = builder.build(handler(1, 200));
    assert_eq!(p.inner.timeout, 2000);
    assert_eq!(p.inner.inner.rw.quota, 100);
    assert_eq!(p.inner.inner.rw.window, 1000);
    assert_eq!(p.inner.inner.inner.pool.capacity, 50);
    assert_eq!(p.inner.inner.inner.inner.latency, 1);
}

#[test]
fn layers_can_be_stacked_one_by_one() {
    let mut builder = PipelineBuilder::new();
    builder.layer(LayerEntry::Logging);
    builder.layer(LayerEntry::Timeout(10));
    builder.layer(LayerEntry::RateLimit(5, 100));
    builder.layer(LayerEntry::ConcurrencyLimit(2));
    let p = builder.build(handler(3, 204));
    assert_eq!(p.inner.timeout, 10);
    assert_eq!(p.inner.inner.rw.quota, 5);
}

#[test]
fn wrapping_is_pure_construction() {
    let base = handler(7, 200);
    let limited = ConcurrencyLimitLayer::new(3).layer(base);
    let rated = RateLimitLayer::new(2, 100).layer(limited);
    let timed = TimeoutLayer::new(50).layer(rated);
    let logged = LoggingLayer::new().layer(timed);
    assert_eq!(logged.log.len(), 0);
    assert_eq!(logged.inner.timeout, 50);
    assert_eq!(logged.inner.inner.rw.remaining, 2);
    assert_eq!(logged.inner.inner.inner.pool.in_flight, 0);
}

#[test]
fn deadline_outside_the_rate_limiter_counts_the_queue_wait() {
    // Quota 1 per window of 1000 ticks, deadline 600. The second call
    // arrives at tick 100 with the window exhausted, so its handling could
    // only start at tick 1000 — past its deadline of tick 700: it times out,
    // even though handling alone (50 ticks) would fit.
    let builder = PipelineBuilder::canonical(600, 1, 1000, 10);
    let mut p = builder.build(handler(50, 200));
    let (first, f1) = p.invoke(req("/a"), 0);
    assert!(matches!(first, Outcome::Success(_)));
    assert_eq!(f1, 50);
    let (second, f2) = p.invoke(req("/b"), 100);
    assert_eq!(
        second,
        Outcome::Failure(ErrorKind::DeadlineElapsed, String::from("deadline elapsed"))
    );
    assert_eq!(f2, 700);
}

#[test]
fn queued_call_succeeds_when_wait_and_handling_fit_the_deadline() {
    let builder = PipelineBuilder::canonical(2000, 1, 1000, 10);
    let mut p = builder.build(handler(50, 200));
    let (_first, _f1) = p.invoke(req("/a"), 0);
    // Second call waits from tick 100 to the boundary at 1000, then runs.
    let (second, f2) = p.invoke(req("/b"), 100);
    assert!(matches!(second, Outcome::Success(_)));
    assert_eq!(f2, 1050);
}

#[test]
fn readiness_propagates_through_the_stack() {
    let builder = PipelineBuilder::canonical(2000, 1, 1000, 10);
    let mut p = builder.build(handler(50, 200));
    assert_eq!(p.ready(0), ReadyState::Ready);
    let _ = p.invoke(req("/a"), 0);
    // Quota exhausted: the stack reports it is not ready at tick 100.
    assert!(p.ready(100) != ReadyState::Ready);
    // Next window: ready again.
    assert_eq!(p.ready(1000), ReadyState::Ready);
}
