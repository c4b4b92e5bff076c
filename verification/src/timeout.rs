//! Deadline enforcement: one in-flight call raced against a timer.
//!
//! A poll-driven race consults the inner call first on every scheduling pass,
//! so a result that arrives on the same pass as the timer firing is honored
//! as the call's own outcome, never penalized as a timeout.

use vstd::prelude::*;

use crate::request::{is_timeout_failure, timeout_failure, Outcome, PollResult};

verus! {

/// The action one scheduling pass of the race selects.
#[derive(Clone, Copy, PartialEq, Eq, Structural, Debug)]
pub enum RaceDecision {
    /// The inner call resolved; its outcome is returned unchanged and the
    /// timer is discarded.
    InnerWins,
    /// The timer fired while the inner call was still pending; the call is
    /// canceled and the timeout failure is returned.
    TimerWins,
    /// Neither side is ready; the task suspends until woken again.
    StillPending,
}

/// The tie-break rule of the race, one scheduling pass at a time: the inner
/// call is consulted before the timer, so on simultaneous readiness the inner
/// call wins.
pub fn race_decision(inner_ready: bool, timer_fired: bool) -> (r: RaceDecision)
    ensures
        inner_ready ==> r == RaceDecision::InnerWins,
        !inner_ready && timer_fired ==> r == RaceDecision::TimerWins,
        !inner_ready && !timer_fired ==> r == RaceDecision::StillPending,
{
    if inner_ready {
        RaceDecision::InnerWins
    } else if timer_fired {
        RaceDecision::TimerWins
    } else {
        RaceDecision::StillPending
    }
}

/// One call raced against a fixed deadline. `deadline` is the tick at which
/// the timer fires; `resolved` is set once the race has produced a result, and
/// no further pass may be made after that, so the inner call's eventual
/// result, if any, can never be reported a second time.
pub struct TimeoutCall {
    pub deadline: u64,
    pub resolved: bool,
}

impl TimeoutCall {
    /// Start the race: the timer fires `duration` ticks after `now`.
    pub fn start(now: u64, duration: u64) -> (c: TimeoutCall)
        requires
            now + duration <= u64::MAX,
        ensures
            c.deadline == now + duration,
            !c.resolved,
    {
        TimeoutCall { deadline: now + duration, resolved: false }
    }

    /// One scheduling pass at tick `now`: the inner call is checked first, so
    /// an inner result is returned unchanged even when the timer has also
    /// fired; only an inner call still pending at or past the deadline is
    /// converted into the timeout failure.
    pub fn poll(&mut self, inner: PollResult, now: u64) -> (r: PollResult)
        requires
            !old(self).resolved,
        ensures
            final(self).deadline == old(self).deadline,
            match inner {
                PollResult::Ready(o) => r == PollResult::Ready(o) && final(self).resolved,
                PollResult::Pending => {
                    if now >= old(self).deadline {
                        &&& r matches PollResult::Ready(o) && is_timeout_failure(o)
                        &&& final(self).resolved
                    } else {
                        r == PollResult::Pending && !final(self).resolved
                    }
                },
            },
    {
        match inner {
            PollResult::Ready(o) => {
                self.resolved = true;
                PollResult::Ready(o)
            },
            PollResult::Pending => {
                if now >= self.deadline {
                    self.resolved = true;
                    PollResult::Ready(timeout_failure())
                } else {
                    PollResult::Pending
                }
            },
        }
    }
}

/// Resolve the whole race for a handler that, started at tick 0, resolves
/// after `handler_time` ticks with `handler_outcome`, against a deadline of
/// `duration` ticks. Wakeups occur when the handler resolves and when the
/// timer fires, so the race is decided at the earlier of the two ticks; on a
/// tie the handler wins. Returns the decorator's outcome and the tick at
/// which it was returned: a late handler is cut off at the deadline, not at
/// its own completion time.
pub fn resolve_race(handler_time: u64, handler_outcome: Outcome, duration: u64) -> (r: (
    Outcome,
    u64,
))
    ensures
        handler_time <= duration ==> r.0 == handler_outcome && r.1 == handler_time,
        handler_time > duration ==> is_timeout_failure(r.0) && r.1 == duration,
{
    run_timed_call(handler_time, handler_outcome, duration, 0)
}

/// Drive one race through `pending_passes` scheduling passes that find both
/// sides pending, then to its decision. However many such passes precede it,
/// the verdict is unchanged: the handler's own outcome when it resolves by
/// the deadline, the timeout failure exactly at the deadline otherwise — and
/// the race resolves exactly once.
pub fn run_timed_call(
    handler_time: u64,
    handler_outcome: Outcome,
    duration: u64,
    pending_passes: usize,
) -> (r: (Outcome, u64))
    ensures
        handler_time <= duration ==> r.0 == handler_outcome && r.1 == handler_time,
        handler_time > duration ==> is_timeout_failure(r.0) && r.1 == duration,
{
    let mut race = TimeoutCall::start(0, duration);
    if handler_time > 0 && duration > 0 {
        // Passes before either side is ready: the task merely suspends again.
        let mut pass: usize = 0;
        while pass < pending_passes
            invariant
                !race.resolved,
                race.deadline == duration,
                duration > 0,
            decreases pending_passes - pass,
        {
            let _step = race.poll(PollResult::Pending, 0);
            pass += 1;
        }
    }
    let first_wake: u64 = if handler_time <= duration {
        handler_time
    } else {
        duration
    };
    let inner: PollResult = if handler_time <= first_wake {
        PollResult::Ready(handler_outcome)
    } else {
        PollResult::Pending
    };
    match race.poll(inner, first_wake) {
        PollResult::Ready(o) => (o, first_wake),
        PollResult::Pending => {
            proof {
                assert(false);
            }
            vstd::pervasive::unreached()
        },
    }
}

} // verus!
