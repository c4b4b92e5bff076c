use pipeline_core::limit::PermitPool;
use pipeline_core::request::{ReadyState, WaitReason};

#[test]
fn permits_in_flight_never_exceed_capacity() {
    let mut pool = PermitPool::new(2);
    assert!(pool.acquire(1));
    assert!(pool.acquire(2));
    assert_eq!(pool.in_flight, 2);
    // The third concurrent caller is refused a permit and queued.
    assert!(!pool.acquire(3));
    assert_eq!(pool.in_flight, 2);
    assert_eq!(pool.waiters, vec![3]);
}

#[test]
fn third_call_starts_only_after_a_release() {
    // Capacity 2, three calls arrive at tick 0, each taking 100 ticks: the
    // third begins only when one of the first two hands its permit back, so
    // it finishes around tick 200, not 100.
    let mut pool = PermitPool::new(2);
    assert!(pool.acquire(1)); // call 1 runs 0..100
    assert!(pool.acquire(2)); // call 2 runs 0..100
    assert!(!pool.acquire(3)); // call 3 queued at tick 0
    // Tick 100: call 1 exits; its permit passes straight to the front waiter.
    let woken = pool.release();
    assert_eq!(woken, Some(3)); // call 3 runs 100..200
    let call3_start = 100u64;
    let call3_finish = call3_start + 100;
    assert_eq!(call3_finish, 200);
    // Tick 100: call 2 exits; tick 200: call 3 exits.
    assert_eq!(pool.release(), None);
    assert_eq!(pool.release(), None);
    assert_eq!(pool.in_flight, 0);
}

#[test]
fn waiters_are_served_in_arrival_order() {
    let mut pool = PermitPool::new(1);
    assert!(pool.acquire(10));
    assert!(!pool.acquire(11));
    assert!(!pool.acquire(12));
    assert!(!pool.acquire(13));
    assert_eq!(pool.release(), Some(11));
    assert_eq!(pool.release(), Some(12));
    assert_eq!(pool.release(), Some(13));
    assert_eq!(pool.release(), None);
    assert_eq!(pool.in_flight, 0);
}

#[test]
fn no_permit_leaks_across_ten_thousand_sequential_calls() {
    let mut pool = PermitPool::new(5);
    for call in 0..10_000u64 {
        assert!(pool.acquire(call));
        assert!(pool.in_flight <= pool.capacity);
        assert_eq!(pool.release(), None);
        assert_eq!(pool.in_flight, 0);
    }
    assert_eq!(pool.in_flight, 0);
    assert!(pool.waiters.is_empty());
}

#[test]
fn ready_reports_why_a_caller_must_wait() {
    let mut pool = PermitPool::new(1);
    assert_eq!(pool.ready(), ReadyState::Ready);
    assert!(pool.acquire(1));
    assert_eq!(pool.ready(), ReadyState::NotReady(WaitReason::AtCapacity));
    assert!(!pool.acquire(2));
    assert_eq!(pool.ready(), ReadyState::NotReady(WaitReason::QueuedAhead));
}
