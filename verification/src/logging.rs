//! Structured logging: one decorator that observes the lifecycle of a call
//! without altering its outcome. Entry is recorded before delegation, the
//! exit record is emitted exactly when the inner call resolves, with the
//! call's method, path, elapsed time and a status classification.

use vstd::prelude::*;

use crate::request::{Method, Outcome, OutcomeView, PollResult, RequestContext};

verus! {

/// What one log record reports: the call entering the pipeline, or the call
/// resolving with a status and its elapsed handling time in ticks.
#[derive(Clone, Copy, PartialEq, Eq, Structural, Debug)]
pub enum RecordKind {
    Entry,
    Exit { status: u16, elapsed: u64 },
}

/// Mathematical model of one structured log record.
pub ghost struct RecordView {
    pub method: Method,
    pub path: Seq<char>,
    pub kind: RecordKind,
}

/// One structured log record.
#[derive(Clone, PartialEq, Eq, Debug)]
pub struct LogRecord {
    pub method: Method,
    pub path: String,
    pub kind: RecordKind,
}

impl View for LogRecord {
    type V = RecordView;

    open spec fn view(&self) -> RecordView {
        RecordView { method: self.method, path: self.path@, kind: self.kind }
    }
}

/// The status an exit record classifies an outcome under: a success reports
/// the response's own status, every failure maps to the fixed error status.
pub open spec fn status_of(o: OutcomeView) -> u16 {
    match o {
        OutcomeView::Success(resp) => resp.status,
        OutcomeView::Failure(_, _) => 500,
    }
}

/// The metadata one logged call carries across its suspension points: method,
/// path and start tick are captured before delegating, and `exited` records
/// whether the single exit record has been emitted. A call abandoned before
/// resolving emits no exit record at all: its entry record stands alone, so
/// the surrounding system can tell a canceled call from a resolved one.
pub struct LoggingCall {
    pub method: Method,
    pub path: String,
    pub start: u64,
    pub exited: bool,
}

impl LoggingCall {
    /// Capture the call's metadata and start tick and produce the entry
    /// record; the entry record always precedes the exit record because no
    /// observation can be made before `begin`.
    pub fn begin(req: &RequestContext, now: u64) -> (r: (LoggingCall, LogRecord))
        ensures
            r.0.method == req.method,
            r.0.path@ == req.path@,
            r.0.start == now,
            !r.0.exited,
            r.1@ == (RecordView { method: req.method, path: req.path@, kind: RecordKind::Entry }),
    {
        let call = LoggingCall {
            method: req.method,
            path: req.path.clone(),
            start: now,
            exited: false,
        };
        let record = LogRecord { method: req.method, path: req.path.clone(), kind: RecordKind::Entry };
        (call, record)
    }

    /// One scheduling pass at tick `now`: the inner result is forwarded
    /// unchanged, and the exit record — method, path, elapsed ticks and the
    /// status classification of the outcome — is emitted exactly when the
    /// inner call resolves. A resolved call may not be observed again, so at
    /// most one exit record exists per call.
    pub fn observe(&mut self, inner: PollResult, now: u64) -> (r: (PollResult, Option<LogRecord>))
        requires
            !old(self).exited,
            now >= old(self).start,
        ensures
            final(self).method == old(self).method,
            final(self).path@ == old(self).path@,
            final(self).start == old(self).start,
            r.0 == inner,
            match inner {
                PollResult::Ready(o) => {
                    &&& final(self).exited
                    &&& r.1 matches Some(rec) && rec@ == (RecordView {
                        method: old(self).method,
                        path: old(self).path@,
                        kind: RecordKind::Exit {
                            status: status_of(o@),
                            elapsed: (now - old(self).start) as u64,
                        },
                    })
                },
                PollResult::Pending => !final(self).exited && r.1 is None,
            },
    {
        match inner {
            PollResult::Ready(o) => {
                let status: u16 = match &o {
                    Outcome::Success(resp) => resp.status,
                    Outcome::Failure(_, _) => 500,
                };
                let elapsed: u64 = now - self.start;
                self.exited = true;
                let record = LogRecord {
                    method: self.method,
                    path: self.path.clone(),
                    kind: RecordKind::Exit { status, elapsed },
                };
                (PollResult::Ready(o), Some(record))
            },
            PollResult::Pending => (PollResult::Pending, None),
        }
    }
}

/// Drive one logged call to completion: `pending_passes` scheduling passes
/// find the inner call still pending, then it resolves at tick `end` with
/// `outcome`. However many passes the call takes, the records produced are
/// exactly one entry followed by exactly one exit, the entry precedes the
/// exit, and the outcome is returned unchanged.
pub fn run_logged_call(
    req: &RequestContext,
    start: u64,
    pending_passes: usize,
    end: u64,
    outcome: Outcome,
) -> (r: (Outcome, Vec<LogRecord>))
    requires
        start <= end,
    ensures
        r.0 == outcome,
        r.1@.len() == 2,
        r.1@[0]@ == (RecordView { method: req.method, path: req.path@, kind: RecordKind::Entry }),
        r.1@[1]@ == (RecordView {
            method: req.method,
            path: req.path@,
            kind: RecordKind::Exit {
                status: status_of(outcome@),
                elapsed: (end - start) as u64,
            },
        }),
{
    let mut records: Vec<LogRecord> = Vec::new();
    let (mut call, entry) = LoggingCall::begin(req, start);
    records.push(entry);
    let mut pass: usize = 0;
    while pass < pending_passes
        invariant
            !call.exited,
            call.method == req.method,
            call.path@ == req.path@,
            call.start == start,
            records@.len() == 1,
            records@[0]@ == (RecordView {
                method: req.method,
                path: req.path@,
                kind: RecordKind::Entry,
            }),
        decreases pending_passes - pass,
    {
        let (step, emitted) = call.observe(PollResult::Pending, start);
        pass += 1;
    }
    let (step, emitted) = call.observe(PollResult::Ready(outcome), end);
    let exit = match emitted {
        Some(rec) => rec,
        None => {
            proof {
                assert(false);
            }
            vstd::pervasive::unreached()
        },
    };
    records.push(exit);
    let out = match step {
        PollResult::Ready(o) => o,
        PollResult::Pending => {
            proof {
                assert(false);
            }
            vstd::pervasive::unreached()
        },
    };
    (out, records)
}

} // verus!
