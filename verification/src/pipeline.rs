//! Layer composition and the pipeline builder. A layer turns one service
//! into another — pure construction, no side effect beyond allocating the
//! wrapper's own state — and the builder assembles an ordered stack of layers
//! around a base handler. Order is meaningful: calls flow outermost to
//! innermost, results flow back, and a deadline applied outside the admission
//! layers bounds queue wait plus handling time, not handling time alone.

use vstd::prelude::*;

use crate::limit::PermitPool;
use crate::logging::LogRecord;
use crate::rate::RateWindow;
use crate::request::{timeout_failure_view, OutcomeView, RequestView, ResponseView};
use crate::service::{ConcurrencyLimited, HandlerModel, Logging, RateLimited, Service, Timeout};



verus! {

/// The layer that adds structured logging.
pub struct LoggingLayer;

impl LoggingLayer {
    pub fn new() -> (l: LoggingLayer) {
        LoggingLayer
    }

    /// Wrap `inner`; the decorator starts with an empty log.
    pub fn layer<S: Service>(&self, inner: S) -> (s: Logging<S>)
        ensures
            s.inner == inner,
            s.log@ == Seq::<LogRecord>::empty(),
    {
        Logging::new(inner)
    }
}

/// The layer that adds a per-call deadline.
pub struct TimeoutLayer {
    pub timeout: u64,
}

impl TimeoutLayer {
    pub fn new(timeout: u64) -> (l: TimeoutLayer)
        ensures
            l.timeout == timeout,
    {
        TimeoutLayer { timeout }
    }

    pub fn layer<S: Service>(&self, inner: S) -> (s: Timeout<S>)
        ensures
            s.inner == inner,
            s.timeout == self.timeout,
    {
        Timeout::new(inner, self.timeout)
    }
}

/// The layer that adds rate-limited admission: `quota` admissions per window
/// of `window` ticks, the first window opening at tick 0, when the pipeline
/// is constructed.
pub struct RateLimitLayer {
    pub quota: u64,
    pub window: u64,
}

impl RateLimitLayer {
    pub fn new(quota: u64, window: u64) -> (l: RateLimitLayer)
        requires
            quota >= 1,
            window >= 1,
        ensures
            l.quota == quota,
            l.window == window,
    {
        RateLimitLayer { quota, window }
    }

    pub fn layer<S: Service>(&self, inner: S) -> (s: RateLimited<S>)
        requires
            self.quota >= 1,
            self.window >= 1,
        ensures
            s.inner == inner,
            s.rw.quota == self.quota,
            s.rw.window == self.window,
            s.rw.window_start == 0,
            s.rw.remaining == self.quota,
            s.rw.wf(),
            s.rw.waiters@.len() == 0,
    {
        RateLimited { rw: RateWindow::new(self.quota, self.window, 0), inner }
    }
}

/// The layer that bounds how many calls may be in flight at once.
pub struct ConcurrencyLimitLayer {
    pub capacity: u64,
}

impl ConcurrencyLimitLayer {
    pub fn new(capacity: u64) -> (l: ConcurrencyLimitLayer)
        requires
            capacity >= 1,
        ensures
            l.capacity == capacity,
    {
        ConcurrencyLimitLayer { capacity }
    }

    pub fn layer<S: Service>(&self, inner: S) -> (s: ConcurrencyLimited<S>)
        requires
            self.capacity >= 1,
        ensures
            s.inner == inner,
            s.pool.capacity == self.capacity,
            s.pool.in_flight == 0,
            s.pool.waiters@.len() == 0,
            s.pool.wf(),
    {
        ConcurrencyLimited { pool: PermitPool::new(self.capacity), inner }
    }
}

/// One entry of an ordered layer stack.
#[derive(Clone, Copy, PartialEq, Eq, Structural, Debug)]
pub enum LayerEntry {
    Logging,
    Timeout(u64),
    RateLimit(u64, u64),
    ConcurrencyLimit(u64),
}

/// The canonical stack, outermost first: logging, then the deadline, then
/// rate-limited admission, then bounded concurrency, around the base handler.
pub type CanonicalPipeline = Logging<Timeout<RateLimited<ConcurrencyLimited<HandlerModel>>>>;

/// Assembles an ordered stack of layers around a base handler. All layers
/// share one contract, so every ordering is constructible; the builder
/// records the order so it is explicit and documented, and `build` realizes
/// the canonical one.
pub struct PipelineBuilder {
    pub layers: Vec<LayerEntry>,
}

impl PipelineBuilder {
    /// An empty stack.
    pub fn new() -> (b: PipelineBuilder)
        ensures
            b.layers@ == Seq::<LayerEntry>::empty(),
    {
        PipelineBuilder { layers: Vec::new() }
    }

    /// Append one layer; it wraps everything added after it.
    pub fn layer(&mut self, entry: LayerEntry)
        ensures
            final(self).layers@ == old(self).layers@.push(entry),
    {
        self.layers.push(entry);
    }

    /// The canonical order: logging outermost, then the deadline, then the
    /// admission layers, then the base handler at the center.
    pub open spec fn canonical_layers(timeout: u64, quota: u64, window: u64, capacity: u64) -> Seq<
        LayerEntry,
    > {
        seq![
            LayerEntry::Logging,
            LayerEntry::Timeout(timeout),
            LayerEntry::RateLimit(quota, window),
            LayerEntry::ConcurrencyLimit(capacity),
        ]
    }

    /// A builder holding the canonical order with the given parameters.
    pub fn canonical(timeout: u64, quota: u64, window: u64, capacity: u64) -> (b: PipelineBuilder)
        ensures
            b.layers@ == PipelineBuilder::canonical_layers(timeout, quota, window, capacity),
    {
        let mut b = PipelineBuilder::new();
        b.layer(LayerEntry::Logging);
        b.layer(LayerEntry::Timeout(timeout));
        b.layer(LayerEntry::RateLimit(quota, window));
        b.layer(LayerEntry::ConcurrencyLimit(capacity));
        proof {
            assert(b.layers@ =~= PipelineBuilder::canonical_layers(
                timeout,
                quota,
                window,
                capacity,
            ));
        }
        b
    }

    /// Whether the recorded stack is the canonical order, with a usable quota,
    /// window and capacity.
    pub open spec fn is_canonical(&self) -> bool {
        &&& self.layers@.len() == 4
        &&& self.layers@[0] == LayerEntry::Logging
        &&& self.layers@[1] matches LayerEntry::Timeout(_)
        &&& (self.layers@[2] matches LayerEntry::RateLimit(q, w) && q >= 1 && w >= 1)
        &&& (self.layers@[3] matches LayerEntry::ConcurrencyLimit(c) && c >= 1)
    }

    /// Realize the canonical stack around `handler`: construction is pure —
    /// only `invoke` has observable effects — and every recorded parameter
    /// ends up in the layer it names.
    pub fn build(&self, handler: HandlerModel) -> (p: CanonicalPipeline)
        requires
            self.is_canonical(),
        ensures
            p.inv(),
            p.log@ == Seq::<LogRecord>::empty(),
            self.layers@[1] == LayerEntry::Timeout(p.inner.timeout),
            self.layers@[2] == LayerEntry::RateLimit(
                p.inner.inner.rw.quota,
                p.inner.inner.rw.window,
            ),
            self.layers@[3] == LayerEntry::ConcurrencyLimit(p.inner.inner.inner.pool.capacity),
            p.inner.inner.inner.inner == handler,
            p.inner.inner.rw.window_start == 0,
            p.inner.inner.rw.remaining == p.inner.inner.rw.quota,
            p.inner.inner.inner.pool.in_flight == 0,
    {
        let timeout: u64 = match self.layers[1] {
            LayerEntry::Timeout(t) => t,
            _ => vstd::pervasive::unreached(),
        };
        let (quota, window): (u64, u64) = match self.layers[2] {
            LayerEntry::RateLimit(q, w) => (q, w),
            _ => vstd::pervasive::unreached(),
        };
        let capacity: u64 = match self.layers[3] {
            LayerEntry::ConcurrencyLimit(c) => c,
            _ => vstd::pervasive::unreached(),
        };
        let limited = ConcurrencyLimitLayer::new(capacity).layer(handler);
        let rated = RateLimitLayer::new(quota, window).layer(limited);
        let timed = TimeoutLayer::new(timeout).layer(rated);
        LoggingLayer::new().layer(timed)
    }
}

/// What one call through the canonical stack returns while an admission is
/// available on arrival: the handler's own response, unchanged, if it
/// resolves within the deadline — and the distinct timeout failure, returned
/// at exactly the deadline rather than at the handler's own completion,
/// otherwise.
pub proof fn lemma_canonical_verdict(p: CanonicalPipeline, req: RequestView, now: u64)
    requires
        p.inv(),
        p.inner.inner.rw.avail_at(now) > 0,
    ensures
        p.inner.inner.inner.inner.latency <= p.inner.timeout ==> {
            &&& p.outcome_spec(req, now) == OutcomeView::Success(
                ResponseView {
                    status: p.inner.inner.inner.inner.status,
                    body: p.inner.inner.inner.inner.body@,
                },
            )
            &&& p.finish_spec(req, now) == now + p.inner.inner.inner.inner.latency
        },
        p.inner.inner.inner.inner.latency > p.inner.timeout ==> {
            &&& p.outcome_spec(req, now) == timeout_failure_view()
            &&& p.finish_spec(req, now) == now + p.inner.timeout
        },
{
}

/// Layer order is observable: the deadline stands outside the admission
/// layers in the canonical stack, so it keeps counting while the call waits
/// for the next window — it bounds queue wait plus handling time. A call that
/// arrives with the window exhausted starts only at the boundary, and times
/// out unless its wait and its handling together fit in the deadline.
pub proof fn lemma_deadline_covers_queue_wait(p: CanonicalPipeline, req: RequestView, now: u64)
    requires
        p.inv(),
        p.inner.inner.rw.avail_at(now) == 0,
        p.inner.inner.rw.window_start + p.inner.inner.rw.window <= u64::MAX,
    ensures
        ({
            let boundary = p.inner.inner.rw.window_start + p.inner.inner.rw.window;
            let latency = p.inner.inner.inner.inner.latency;
            &&& (boundary + latency <= now + p.inner.timeout ==> p.finish_spec(req, now)
                == boundary + latency)
            &&& (boundary + latency > now + p.inner.timeout ==> {
                &&& p.outcome_spec(req, now) == timeout_failure_view()
                &&& p.finish_spec(req, now) == now + p.inner.timeout
            })
        }),
{
}

/// The converse ordering: the same deadline applied inside the rate limiter
/// bounds handling time alone. A call that waits out the window is handled
/// from the boundary on, and succeeds whenever handling by itself fits the
/// deadline — however long the wait before it was.
pub proof fn lemma_deadline_inside_ignores_queue_wait(
    p: RateLimited<Timeout<HandlerModel>>,
    req: RequestView,
    now: u64,
)
    requires
        p.inv(),
        p.rw.avail_at(now) == 0,
        p.rw.window_start + p.rw.window <= u64::MAX,
        p.inner.inner.latency <= p.inner.timeout,
    ensures
        p.outcome_spec(req, now) == OutcomeView::Success(
            ResponseView { status: p.inner.inner.status, body: p.inner.inner.body@ },
        ),
        p.finish_spec(req, now) == p.rw.window_start + p.rw.window + p.inner.inner.latency,
{
}

} // verus!
