//! The service contract — a readiness probe plus invoke-and-await — and the
//! four decorators that wrap one service into another: logging, deadline
//! enforcement, bounded concurrency and rate-limited admission.
//!
//! Time is a tick counter carried explicitly: one pipeline instance serves
//! one call at a time, so a call's whole race is decided from its start tick,
//! its handler's completion tick and the limiter state. The shared limiter
//! resources themselves, with their concurrent grant-and-release behavior,
//! are specified in `limit` and `rate`.

use vstd::prelude::*;

use crate::limit::{PermitEvent, PermitPool};
use crate::logging::{status_of, LogRecord, LoggingCall, RecordKind, RecordView};
use crate::rate::{Admission, RateWindow};
use crate::request::{
    timeout_failure_view, Outcome, OutcomeView, PollResult, ReadyState, RequestContext,
    RequestView, ResponseView,
};
use crate::timeout::resolve_race;

verus! {

/// The unit of work of the pipeline: a non-blocking readiness probe and an
/// invocation that, started at tick `now`, produces exactly one outcome at
/// some tick no earlier than `now`. Each implementation pins its behavior
/// down with its own `outcome_spec` and `finish_spec`, so a stack of wrappers
/// composes their contracts.
pub trait Service: Sized {
    /// Well-formedness of the service's state, preserved by every call.
    spec fn inv(&self) -> bool;

    /// Whether a non-blocking probe at tick `now` would report readiness.
    spec fn ready_spec(&self, now: u64) -> bool;

    /// The room a call started at tick `now` needs: time ordering and
    /// arithmetic bounds, nothing about the request's content.
    spec fn fits(&self, req: RequestView, now: u64) -> bool;

    /// The outcome of a call started at tick `now`.
    spec fn outcome_spec(&self, req: RequestView, now: u64) -> OutcomeView;

    /// The tick at which that outcome is returned to the caller.
    spec fn finish_spec(&self, req: RequestView, now: u64) -> int;

    /// Non-blocking probe: a caller must not invoke the service after
    /// `NotReady`; a limiter that reported it queues late callers instead of
    /// rejecting them.
    fn ready(&self, now: u64) -> (r: ReadyState)
        requires
            self.inv(),
        ensures
            (r == ReadyState::Ready) == self.ready_spec(now),
    ;

    /// Perform the unit of work. The outcome and its tick are exactly the
    /// ones the service's own spec functions give, and time never runs
    /// backwards.
    fn invoke(&mut self, req: RequestContext, now: u64) -> (r: (Outcome, u64))
        requires
            old(self).inv(),
            old(self).fits(req@, now),
        ensures
            final(self).inv(),
            r.0@ == old(self).outcome_spec(req@, now),
            r.1 == old(self).finish_spec(req@, now),
            now <= r.1,
    ;
}

/// Byte-for-byte copy of a payload.
fn copy_bytes(src: &Vec<u8>) -> (r: Vec<u8>)
    ensures
        r@ == src@,
{
    let mut out: Vec<u8> = Vec::new();
    let mut i: usize = 0;
    while i < src.len()
        invariant
            i <= src@.len(),
            out@ == src@.take(i as int),
        decreases src@.len() - i,
    {
        out.push(src[i]);
        proof {
            assert(out@ =~= src@.take(i as int + 1));
        }
        i += 1;
    }
    proof {
        assert(src@.take(src@.len() as int) =~= src@);
    }
    out
}

/// The base handler at the center of the stack, modeled by what the pipeline
/// observes of it: it resolves `latency` ticks after it is invoked, with a
/// fixed status and payload.
pub struct HandlerModel {
    pub latency: u64,
    pub status: u16,
    pub body: Vec<u8>,
}

impl Service for HandlerModel {
    open spec fn inv(&self) -> bool {
        true
    }

    open spec fn ready_spec(&self, now: u64) -> bool {
        true
    }

    open spec fn fits(&self, req: RequestView, now: u64) -> bool {
        now + self.latency <= u64::MAX
    }

    open spec fn outcome_spec(&self, req: RequestView, now: u64) -> OutcomeView {
        OutcomeView::Success(ResponseView { status: self.status, body: self.body@ })
    }

    open spec fn finish_spec(&self, req: RequestView, now: u64) -> int {
        now + self.latency
    }

    fn ready(&self, now: u64) -> (r: ReadyState) {
        ReadyState::Ready
    }

    fn invoke(&mut self, req: RequestContext, now: u64) -> (r: (Outcome, u64)) {
        let response = crate::request::HttpResponse {
            status: self.status,
            body: copy_bytes(&self.body),
        };
        (Outcome::Success(response), now + self.latency)
    }
}

/// The logging decorator: records entry before delegating, observes the
/// outcome, and emits one exit record per resolved call — without altering
/// the outcome or the finish tick.
pub struct Logging<S> {
    pub inner: S,
    pub log: Vec<LogRecord>,
}

/// The records a log holds, at the model level.
pub open spec fn log_view(log: Seq<LogRecord>) -> Seq<RecordView> {
    log.map_values(|r: LogRecord| r@)
}

impl<S> Logging<S> {
    /// Wrap `inner`; the decorator's log starts empty.
    pub fn new(inner: S) -> (s: Logging<S>)
        ensures
            s.inner == inner,
            s.log@ == Seq::<LogRecord>::empty(),
    {
        Logging { inner, log: Vec::new() }
    }
}

impl<S: Service> Service for Logging<S> {
    open spec fn inv(&self) -> bool {
        self.inner.inv()
    }

    open spec fn ready_spec(&self, now: u64) -> bool {
        self.inner.ready_spec(now)
    }

    open spec fn fits(&self, req: RequestView, now: u64) -> bool {
        self.inner.fits(req, now)
    }

    open spec fn outcome_spec(&self, req: RequestView, now: u64) -> OutcomeView {
        self.inner.outcome_spec(req, now)
    }

    open spec fn finish_spec(&self, req: RequestView, now: u64) -> int {
        self.inner.finish_spec(req, now)
    }

    fn ready(&self, now: u64) -> (r: ReadyState) {
        self.inner.ready(now)
    }

    /// Exactly one entry record then exactly one exit record are appended per
    /// call, the exit carrying the outcome's status classification and the
    /// call's elapsed ticks; the outcome itself passes through unchanged.
    fn invoke(&mut self, req: RequestContext, now: u64) -> (r: (Outcome, u64))
        ensures
            log_view(final(self).log@) == log_view(old(self).log@).push(
                RecordView { method: req.method, path: req.path@, kind: RecordKind::Entry },
            ).push(
                RecordView {
                    method: req.method,
                    path: req.path@,
                    kind: RecordKind::Exit {
                        status: status_of(old(self).inner.outcome_spec(req@, now)),
                        elapsed: (old(self).inner.finish_spec(req@, now) - now) as u64,
                    },
                },
            ),
    {
        let ghost log0 = self.log@;
        let (mut call, entry) = LoggingCall::begin(&req, now);
        self.log.push(entry);
        let (outcome, finish) = self.inner.invoke(req, now);
        let (step, emitted) = call.observe(PollResult::Ready(outcome), finish);
        let exit = match emitted {
            Some(record) => record,
            None => {
                proof {
                    assert(false);
                }
                vstd::pervasive::unreached()
            },
        };
        self.log.push(exit);
        let out = match step {
            PollResult::Ready(o) => o,
            PollResult::Pending => {
                proof {
                    assert(false);
                }
                vstd::pervasive::unreached()
            },
        };
        proof {
            assert(log_view(self.log@) =~= log_view(log0).push(entry@).push(exit@));
        }
        (out, finish)
    }
}

/// The timeout decorator: races the wrapped call against a timer of
/// `timeout` ticks. The inner call's result, arriving by the deadline, is
/// forwarded unchanged — on a tie the inner call wins — and a call still
/// pending at the deadline is cut off there with the distinct timeout
/// failure, its eventual result discarded.
pub struct Timeout<S> {
    pub inner: S,
    pub timeout: u64,
}

impl<S> Timeout<S> {
    /// Wrap `inner` with a deadline of `timeout` ticks per call.
    pub fn new(inner: S, timeout: u64) -> (s: Timeout<S>)
        ensures
            s.inner == inner,
            s.timeout == timeout,
    {
        Timeout { inner, timeout }
    }
}

impl<S: Service> Service for Timeout<S> {
    open spec fn inv(&self) -> bool {
        self.inner.inv()
    }

    open spec fn ready_spec(&self, now: u64) -> bool {
        self.inner.ready_spec(now)
    }

    open spec fn fits(&self, req: RequestView, now: u64) -> bool {
        &&& now + self.timeout <= u64::MAX
        &&& self.inner.fits(req, now)
    }

    open spec fn outcome_spec(&self, req: RequestView, now: u64) -> OutcomeView {
        if self.inner.finish_spec(req, now) <= now + self.timeout {
            self.inner.outcome_spec(req, now)
        } else {
            timeout_failure_view()
        }
    }

    open spec fn finish_spec(&self, req: RequestView, now: u64) -> int {
        if self.inner.finish_spec(req, now) <= now + self.timeout {
            self.inner.finish_spec(req, now)
        } else {
            now + self.timeout
        }
    }

    fn ready(&self, now: u64) -> (r: ReadyState) {
        self.inner.ready(now)
    }

    fn invoke(&mut self, req: RequestContext, now: u64) -> (r: (Outcome, u64)) {
        let (outcome, finish) = self.inner.invoke(req, now);
        let handler_time = finish - now;
        let (raced, rel_finish) = resolve_race(handler_time, outcome, self.timeout);
        (raced, now + rel_finish)
    }
}

/// The concurrency limiter: reserves a permit from the shared pool before
/// delegating and hands it back on the call's exit, so the permits held never
/// exceed the pool's capacity.
pub struct ConcurrencyLimited<S> {
    pub pool: PermitPool,
    pub inner: S,
}

impl<S: Service> Service for ConcurrencyLimited<S> {
    /// Between calls the pipeline instance is idle: no permit of its pool is
    /// held and nobody is queued, so the single in-flight call of this
    /// instance is granted at once. The pool's behavior under contention is
    /// specified on `PermitPool` itself.
    open spec fn inv(&self) -> bool {
        &&& self.pool.wf()
        &&& self.pool.capacity >= 1
        &&& self.pool.in_flight == 0
        &&& self.pool.waiters@.len() == 0
        &&& self.inner.inv()
    }

    open spec fn ready_spec(&self, now: u64) -> bool {
        &&& self.pool.in_flight < self.pool.capacity
        &&& self.pool.waiters@.len() == 0
        &&& self.inner.ready_spec(now)
    }

    open spec fn fits(&self, req: RequestView, now: u64) -> bool {
        self.inner.fits(req, now)
    }

    open spec fn outcome_spec(&self, req: RequestView, now: u64) -> OutcomeView {
        self.inner.outcome_spec(req, now)
    }

    open spec fn finish_spec(&self, req: RequestView, now: u64) -> int {
        self.inner.finish_spec(req, now)
    }

    fn ready(&self, now: u64) -> (r: ReadyState) {
        match self.pool.ready() {
            ReadyState::Ready => self.inner.ready(now),
            ReadyState::NotReady(reason) => ReadyState::NotReady(reason),
        }
    }

    /// One permit is acquired before the inner call and released on its exit:
    /// the pool's history grows by exactly one grant and one return, and the
    /// pool is idle again when the outcome is handed outward.
    fn invoke(&mut self, req: RequestContext, now: u64) -> (r: (Outcome, u64))
        ensures
            final(self).pool.history@ == old(self).pool.history@.push(PermitEvent::Acquired).push(
                PermitEvent::Released,
            ),
            final(self).pool.in_flight == 0,
    {
        let granted = self.pool.acquire(0);
        let result = self.inner.invoke(req, now);
        let woken = self.pool.release();
        result
    }
}

/// The rate limiter: a call is admitted against the shared window's quota; a
/// call that finds the quota exhausted waits for the next window boundary and
/// is admitted there — queued, never dropped — before delegating.
pub struct RateLimited<S> {
    pub rw: RateWindow,
    pub inner: S,
}

impl<S: Service> RateLimited<S> {
    /// The tick at which this call's admission is granted: at once while the
    /// window has quota left, otherwise at the boundary where the next window
    /// opens.
    pub open spec fn start_tick(&self, now: u64) -> u64 {
        if self.rw.avail_at(now) > 0 {
            now
        } else {
            ((self.rw.window_start + self.rw.window) as u64)
        }
    }
}

impl<S: Service> Service for RateLimited<S> {
    /// Between calls nobody is queued: the single in-flight call of this
    /// pipeline instance is either admitted at once or queued alone until the
    /// boundary. The window's behavior under a burst of callers is specified
    /// on `RateWindow` itself.
    open spec fn inv(&self) -> bool {
        &&& self.rw.wf()
        &&& self.rw.waiters@.len() == 0
        &&& self.inner.inv()
    }

    open spec fn ready_spec(&self, now: u64) -> bool {
        &&& self.rw.avail_at(now) > 0
        &&& self.rw.waiters@.len() == 0
        &&& self.inner.ready_spec(now)
    }

    open spec fn fits(&self, req: RequestView, now: u64) -> bool {
        &&& now >= self.rw.window_start
        &&& now + self.rw.window + self.rw.window <= u64::MAX
        &&& self.inner.fits(req, self.start_tick(now))
    }

    open spec fn outcome_spec(&self, req: RequestView, now: u64) -> OutcomeView {
        self.inner.outcome_spec(req, self.start_tick(now))
    }

    open spec fn finish_spec(&self, req: RequestView, now: u64) -> int {
        self.inner.finish_spec(req, self.start_tick(now))
    }

    fn ready(&self, now: u64) -> (r: ReadyState) {
        match self.rw.ready(now) {
            ReadyState::Ready => self.inner.ready(now),
            ReadyState::NotReady(reason) => ReadyState::NotReady(reason),
        }
    }

    /// The wait for admission is latency, not an error: the inner call is
    /// made at the start tick the admission decides, and the window holds one
    /// fewer admission afterwards.
    fn invoke(&mut self, req: RequestContext, now: u64) -> (r: (Outcome, u64))
        ensures
            final(self).rw.quota == old(self).rw.quota,
            final(self).rw.window == old(self).rw.window,
            final(self).rw.remaining == (if old(self).rw.avail_at(now) > 0 {
                old(self).rw.avail_at(now) - 1
            } else {
                old(self).rw.quota - 1
            }),
    {
        let verdict = self.rw.admission(0, now);
        match verdict {
            Admission::Granted => self.inner.invoke(req, now),
            Admission::Wait(until) => {
                let served = self.rw.serve_waiters(until);
                self.inner.invoke(req, until)
            },
        }
    }
}

} // verus!
