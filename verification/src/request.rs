//! The values that flow through the pipeline: the request a call carries in,
//! the outcome it carries out, and the readiness states a service reports.

use vstd::prelude::*;
use vstd::string::StringExecFns;

verus! {

/// Request method; verbs beyond the common set are folded into `Other`.
#[derive(Clone, Copy, PartialEq, Eq, Structural, Debug)]
pub enum Method {
    Get,
    Post,
    Put,
    Delete,
    Head,
    Options,
    Patch,
    Other,
}

/// Mathematical model of a request: route metadata plus the raw payload.
pub ghost struct RequestView {
    pub method: Method,
    pub path: Seq<char>,
    pub body: Seq<u8>,
}

/// One call's input: method, path and an opaque payload. Immutable once
/// created; it is moved through the stack, and a decorator may only read its
/// metadata before delegating.
pub struct RequestContext {
    pub method: Method,
    pub path: String,
    pub body: Vec<u8>,
}

impl View for RequestContext {
    type V = RequestView;

    open spec fn view(&self) -> RequestView {
        RequestView { method: self.method, path: self.path@, body: self.body@ }
    }
}

/// Mathematical model of a successful response.
pub ghost struct ResponseView {
    pub status: u16,
    pub body: Seq<u8>,
}

/// What the handler produced on success.
#[derive(Clone, PartialEq, Eq, Debug)]
pub struct HttpResponse {
    pub status: u16,
    pub body: Vec<u8>,
}

impl View for HttpResponse {
    type V = ResponseView;

    open spec fn view(&self) -> ResponseView {
        ResponseView { status: self.status, body: self.body@ }
    }
}

/// Why a call failed: the base handler's own failure, forwarded unchanged, or
/// the deadline elapsing before the handler resolved. The two kinds are
/// distinct so a caller can separate "handler failed" from "handler too slow".
#[derive(Clone, Copy, PartialEq, Eq, Structural, Debug)]
pub enum ErrorKind {
    Handler,
    DeadlineElapsed,
}

/// Mathematical model of an outcome.
pub ghost enum OutcomeView {
    Success(ResponseView),
    Failure(ErrorKind, Seq<char>),
}

/// The result of one invocation: produced exactly once per call and handed
/// outward through the stack, observed but never altered by the decorators.
#[derive(Clone, PartialEq, Eq, Debug)]
pub enum Outcome {
    Success(HttpResponse),
    Failure(ErrorKind, String),
}

impl View for Outcome {
    type V = OutcomeView;

    open spec fn view(&self) -> OutcomeView {
        match self {
            Outcome::Success(resp) => OutcomeView::Success(resp@),
            Outcome::Failure(kind, detail) => OutcomeView::Failure(*kind, detail@),
        }
    }
}

/// The failure an elapsed deadline surfaces, at the model level.
pub open spec fn timeout_failure_view() -> OutcomeView {
    OutcomeView::Failure(ErrorKind::DeadlineElapsed, "deadline elapsed"@)
}

/// Whether an outcome is the timeout decorator's own failure.
pub open spec fn is_timeout_failure(o: Outcome) -> bool {
    o@ == timeout_failure_view()
}

/// The failure returned when the deadline elapses before the inner call.
pub fn timeout_failure() -> (o: Outcome)
    ensures
        is_timeout_failure(o),
{
    Outcome::Failure(ErrorKind::DeadlineElapsed, String::from_str("deadline elapsed"))
}

/// What a non-blocking readiness probe reports: a caller must not invoke a
/// service that reported `NotReady`, and a limiter that reported it queues the
/// caller rather than rejecting it.
#[derive(Clone, Copy, PartialEq, Eq, Structural, Debug)]
pub enum ReadyState {
    Ready,
    NotReady(WaitReason),
}

/// Why a service is not ready to accept the next call.
#[derive(Clone, Copy, PartialEq, Eq, Structural, Debug)]
pub enum WaitReason {
    /// Every permit of the concurrency limiter is held.
    AtCapacity,
    /// The admission counter of the current rate window is exhausted.
    QuotaExhausted,
    /// Earlier callers are queued ahead and are served first.
    QueuedAhead,
}

/// One scheduling pass's view of an in-flight inner call: resolved with its
/// outcome, or still pending.
#[derive(Clone, PartialEq, Eq, Debug)]
pub enum PollResult {
    Ready(Outcome),
    Pending,
}

} // verus!
