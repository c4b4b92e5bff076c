use pipeline_core::rate::{Admission, RateWindow};
use pipeline_core::request::{ReadyState, WaitReason};

#[test]
fn burst_of_150_against_quota_100_queues_the_overflow() {
    // Quota 100 per window of 1000 ticks; 150 calls arrive at tick 0: the
    // first 100 are admitted immediately, the other 50 wait for the rollover
    // at tick 1000, and none is dropped.
    let mut rw = RateWindow::new(100, 1000, 0);
    let mut granted = 0u64;
    let mut waiting: Vec<u64> = Vec::new();
    for caller in 0..150u64 {
        match rw.admission(caller, 0) {
            Admission::Granted => granted += 1,
            Admission::Wait(until) => {
                assert_eq!(until, 1000);
                waiting.push(caller);
            }
        }
    }
    assert_eq!(granted, 100);
    assert_eq!(waiting.len(), 50);
    assert_eq!(rw.granted_in_window, 100);
    // Window rollover: every queued caller is served, in arrival order.
    let served = rw.serve_waiters(1000);
    assert_eq!(served, waiting);
    assert!(rw.waiters.is_empty());
    assert_eq!(rw.remaining, 50);
}

#[test]
fn no_window_ever_grants_more_than_its_quota() {
    let mut rw = RateWindow::new(3, 10, 0);
    let mut now = 0u64;
    for caller in 0..100u64 {
        match rw.admission(caller, now) {
            Admission::Granted => {}
            Admission::Wait(until) => {
                assert!(rw.waiters.len() == 1);
                let served = rw.serve_waiters(until);
                assert_eq!(served, vec![caller]);
                now = until;
            }
        }
        assert!(rw.granted_in_window <= rw.quota);
        assert_eq!(rw.granted_in_window + rw.remaining, rw.quota);
    }
}

#[test]
fn counter_refills_only_after_a_full_window() {
    let mut rw = RateWindow::new(1, 100, 0);
    assert_eq!(rw.admission(1, 0), Admission::Granted);
    // Still inside the window: told to wait for the boundary.
    assert_eq!(rw.admission(2, 99), Admission::Wait(100));
    let served = rw.serve_waiters(100);
    assert_eq!(served, vec![2]);
    assert_eq!(rw.window_start, 100);
    // The refilled window again grants at most the quota.
    assert_eq!(rw.remaining, 0);
    assert_eq!(rw.granted_in_window, 1);
}

#[test]
fn late_first_call_opens_the_window_at_its_own_tick() {
    let mut rw = RateWindow::new(2, 50, 0);
    // A full window has elapsed before anyone arrives: the counter refills
    // and the window reopens at the caller's tick.
    assert_eq!(rw.admission(7, 120), Admission::Granted);
    assert_eq!(rw.window_start, 120);
    assert_eq!(rw.remaining, 1);
}

#[test]
fn ready_reports_why_admission_must_wait() {
    let mut rw = RateWindow::new(1, 100, 0);
    assert_eq!(rw.ready(0), ReadyState::Ready);
    assert_eq!(rw.admission(1, 0), Admission::Granted);
    assert_eq!(rw.ready(10), ReadyState::NotReady(WaitReason::QuotaExhausted));
    assert_eq!(rw.admission(2, 10), Admission::Wait(100));
    assert_eq!(rw.ready(10), ReadyState::NotReady(WaitReason::QueuedAhead));
    // Past the boundary the counter would refill, but the queued caller is
    // still ahead; a newcomer is queued behind it and can be served at once.
    assert_eq!(rw.ready(200), ReadyState::NotReady(WaitReason::QueuedAhead));
    assert_eq!(rw.admission(3, 200), Admission::Wait(200));
    assert_eq!(rw.serve_waiters(200), vec![2]);
    assert_eq!(rw.waiters, vec![3]);
}
