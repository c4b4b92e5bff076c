//! Rate-limited admission: a replenishing counter of `quota` admissions per
//! fixed window of `window` ticks. A call that finds the counter exhausted
//! waits for the next window boundary; waiters are served in arrival order
//! and none is ever dropped.

use vstd::prelude::*;

use crate::request::{ReadyState, WaitReason};

verus! {

/// What the admission check decides: admitted now, or told the tick at which
/// the next window opens and the wait can end.
#[derive(Clone, Copy, PartialEq, Eq, Structural, Debug)]
pub enum Admission {
    Granted,
    Wait(u64),
}

/// The grant ticks that fall at or after `start`: the admissions a window
/// opened at `start` has granted.
pub open spec fn grants_since(grants: Seq<u64>, start: u64) -> Seq<u64> {
    grants.filter(|t: u64| t >= start)
}

/// An empty history holds no grant.
proof fn lemma_grants_since_empty(start: u64)
    ensures
        grants_since(Seq::<u64>::empty(), start).len() == 0,
{
    reveal(Seq::filter);
}

/// One more grant at tick `t` counts against the window opened at `start`
/// exactly when `t` falls at or after `start`.
proof fn lemma_grants_since_push(grants: Seq<u64>, start: u64, t: u64)
    ensures
        grants_since(grants.push(t), start) == (if t >= start {
            grants_since(grants, start).push(t)
        } else {
            grants_since(grants, start)
        }),
{
    reveal(Seq::filter);
    assert(grants.push(t).drop_last() =~= grants);
}

/// A history whose ticks all precede `start` holds no grant of the window
/// opened at `start`.
proof fn lemma_grants_since_none(grants: Seq<u64>, start: u64)
    requires
        forall|i: int| 0 <= i < grants.len() ==> grants[i] < start,
    ensures
        grants_since(grants, start).len() == 0,
    decreases grants.len(),
{
    reveal(Seq::filter);
    if grants.len() > 0 {
        lemma_grants_since_none(grants.drop_last(), start);
    }
}

/// The shared admission state of one rate limiter. `window_start` is the tick
/// at which the window currently open began; `remaining` is what is left of
/// its quota; `granted_in_window` counts the admissions it has granted;
/// `waiters` queues the callers told to wait, in arrival order; and `grants`
/// records the tick of every admission the limiter has ever granted.
pub struct RateWindow {
    pub quota: u64,
    pub window: u64,
    pub window_start: u64,
    pub remaining: u64,
    pub granted_in_window: u64,
    pub waiters: Vec<u64>,
    pub grants: Ghost<Seq<u64>>,
}

impl RateWindow {
    /// Well-formedness: a positive quota and window length, a counter that
    /// accounts for the open window's grants exactly, and a grant history
    /// confined to the windows seen so far — so the admissions granted within
    /// the window currently open never exceed the quota.
    pub open spec fn wf(&self) -> bool {
        &&& self.quota >= 1
        &&& self.window >= 1
        &&& self.remaining <= self.quota
        &&& self.granted_in_window + self.remaining == self.quota
        &&& forall|i: int|
            0 <= i < self.grants@.len() ==> (self.grants@[i] as int) < self.window_start
                + self.window
        &&& grants_since(self.grants@, self.window_start).len() == self.granted_in_window
    }

    /// Over the limiter's whole history, the admissions granted at ticks
    /// within the window currently open never number more than the quota, at
    /// every reachable state.
    pub proof fn lemma_grants_bounded(&self)
        requires
            self.wf(),
        ensures
            grants_since(self.grants@, self.window_start).len() <= self.quota,
    {
    }

    /// The tick at which the window currently open closes.
    pub open spec fn boundary(&self) -> int {
        self.window_start + self.window
    }

    /// Whether, at tick `now`, a full window has elapsed, so the counter
    /// refills. The counter never refills earlier.
    pub open spec fn rolled(&self, now: u64) -> bool {
        now >= self.boundary()
    }

    /// Admissions available at tick `now`, once a due refill is applied.
    pub open spec fn avail_at(&self, now: u64) -> u64 {
        if self.rolled(now) {
            self.quota
        } else {
            self.remaining
        }
    }

    /// In every reachable state, the window currently open has granted at
    /// most `quota` admissions: the bound the limiter exists to enforce. The
    /// counter refills only when a full window has elapsed (`rolled`), so the
    /// long-run admission rate never exceeds `quota` per `window` ticks.
    pub proof fn lemma_window_quota(&self)
        requires
            self.wf(),
        ensures
            self.granted_in_window <= self.quota,
    {
    }

    /// A fresh limiter: the first window opens at `now` with its full quota.
    pub fn new(quota: u64, window: u64, now: u64) -> (r: RateWindow)
        requires
            quota >= 1,
            window >= 1,
        ensures
            r.wf(),
            r.quota == quota,
            r.window == window,
            r.window_start == now,
            r.remaining == quota,
            r.granted_in_window == 0,
            r.waiters@ == Seq::<u64>::empty(),
            r.grants@ == Seq::<u64>::empty(),
    {
        proof {
            lemma_grants_since_empty(now);
        }
        RateWindow {
            quota,
            window,
            window_start: now,
            remaining: quota,
            granted_in_window: 0,
            waiters: Vec::new(),
            grants: Ghost(Seq::empty()),
        }
    }

    /// Non-blocking probe at tick `now`: ready exactly when an admission is
    /// available and no earlier caller is queued ahead.
    pub fn ready(&self, now: u64) -> (r: ReadyState)
        requires
            self.wf(),
        ensures
            r == ReadyState::Ready <==> (self.avail_at(now) > 0 && self.waiters@.len() == 0),
    {
        if self.waiters.len() > 0 {
            ReadyState::NotReady(WaitReason::QueuedAhead)
        } else if now >= self.window_start && self.window <= u64::MAX - self.window_start
            && now - self.window_start >= self.window {
            ReadyState::Ready
        } else if self.remaining > 0 {
            ReadyState::Ready
        } else {
            ReadyState::NotReady(WaitReason::QuotaExhausted)
        }
    }

    /// Admission check for `caller` at tick `now`. A due refill is applied
    /// first: the window reopens at `now` with its full quota, never before a
    /// full window has elapsed. The call is admitted exactly when an
    /// admission is available and nobody is queued ahead; otherwise it joins
    /// the back of the queue and is told the boundary tick at which the next
    /// window opens. No call is ever dropped.
    pub fn admission(&mut self, caller: u64, now: u64) -> (r: Admission)
        requires
            old(self).wf(),
            now >= old(self).window_start,
            now + old(self).window <= u64::MAX,
        ensures
            final(self).wf(),
            final(self).quota == old(self).quota,
            final(self).window == old(self).window,
            r == Admission::Granted <==> (old(self).avail_at(now) > 0 && old(self).waiters@.len()
                == 0),
            r == Admission::Granted ==> {
                &&& final(self).window_start == (if old(self).rolled(now) {
                    now
                } else {
                    old(self).window_start
                })
                &&& final(self).remaining == old(self).avail_at(now) - 1
                &&& final(self).granted_in_window == old(self).quota - old(self).avail_at(now) + 1
                &&& final(self).waiters@ == old(self).waiters@
                &&& final(self).grants@ == old(self).grants@.push(now)
            },
            r != Admission::Granted ==> {
                &&& r == Admission::Wait(
                    if old(self).rolled(now) {
                        now
                    } else {
                        ((old(self).window_start + old(self).window) as u64)
                    },
                )
                &&& final(self).window_start == old(self).window_start
                &&& final(self).remaining == old(self).remaining
                &&& final(self).granted_in_window == old(self).granted_in_window
                &&& final(self).waiters@ == old(self).waiters@.push(caller)
                &&& final(self).grants@ == old(self).grants@
            },
    {
        if self.waiters.len() > 0 {
            // Earlier callers are served first: join the queue. If the window
            // has already rolled, the queue can be served at once.
            let until: u64 = if self.window <= u64::MAX - self.window_start && now
                - self.window_start >= self.window {
                now
            } else {
                self.window_start + self.window
            };
            self.waiters.push(caller);
            Admission::Wait(until)
        } else {
            let ghost grants0 = self.grants@;
            if self.window <= u64::MAX - self.window_start && now - self.window_start
                >= self.window {
                self.window_start = now;
                self.remaining = self.quota;
                self.granted_in_window = 0;
                proof {
                    lemma_grants_since_none(grants0, now);
                }
            }
            if self.remaining > 0 {
                self.remaining = self.remaining - 1;
                self.granted_in_window = self.granted_in_window + 1;
                proof {
                    lemma_grants_since_push(self.grants@, self.window_start, now);
                    self.grants@ = self.grants@.push(now);
                }
                Admission::Granted
            } else {
                let until: u64 = self.window_start + self.window;
                self.waiters.push(caller);
                Admission::Wait(until)
            }
        }
    }

    /// Serve the queue at tick `now`, in arrival order: pops and grants
    /// waiters first-in first-out while admissions are available. Returns the
    /// callers admitted — a prefix of the queue, so no waiter is ever passed
    /// over — in the order they arrived.
    pub fn serve_waiters(&mut self, now: u64) -> (served: Vec<u64>)
        requires
            old(self).wf(),
            now >= old(self).window_start,
            now + old(self).window <= u64::MAX,
        ensures
            final(self).wf(),
            final(self).quota == old(self).quota,
            final(self).window == old(self).window,
            served@.len() == (if old(self).waiters@.len() <= old(self).avail_at(now) {
                old(self).waiters@.len() as int
            } else {
                old(self).avail_at(now) as int
            }),
            served@ == old(self).waiters@.take(served@.len() as int),
            final(self).waiters@ == old(self).waiters@.skip(served@.len() as int),
            final(self).remaining == old(self).avail_at(now) - served@.len(),
            final(self).window_start == (if old(self).rolled(now) {
                now
            } else {
                old(self).window_start
            }),
            final(self).grants@.len() == old(self).grants@.len() + served@.len(),
    {
        if self.window <= u64::MAX - self.window_start && now - self.window_start >= self.window {
            let ghost grants0 = self.grants@;
            self.window_start = now;
            self.remaining = self.quota;
            self.granted_in_window = 0;
            proof {
                lemma_grants_since_none(grants0, now);
            }
        }
        let mut served: Vec<u64> = Vec::new();
        let ghost orig = self.waiters@;
        let ghost rem0 = self.remaining;
        let ghost start0 = self.window_start;
        proof {
            assert(served@ =~= orig.take(0));
            assert(self.waiters@ =~= orig.skip(0));
        }
        while self.remaining > 0 && self.waiters.len() > 0
            invariant
                self.wf(),
                self.quota == old(self).quota,
                self.window == old(self).window,
                self.window_start == start0,
                served@.len() <= rem0,
                served@.len() <= orig.len(),
                served@ == orig.take(served@.len() as int),
                self.waiters@ == orig.skip(served@.len() as int),
                self.remaining == rem0 - served@.len(),
                start0 <= now,
                (now as int) < start0 + self.window,
                self.grants@.len() == old(self).grants@.len() + served@.len(),
            decreases self.waiters@.len(),
        {
            let id = self.waiters.remove(0);
            proof {
                assert(self.waiters@ =~= orig.skip(served@.len() as int + 1));
                assert(orig.take(served@.len() as int + 1) =~= orig.take(
                    served@.len() as int,
                ).push(id));
            }
            served.push(id);
            self.remaining = self.remaining - 1;
            self.granted_in_window = self.granted_in_window + 1;
            proof {
                lemma_grants_since_push(self.grants@, self.window_start, now);
                self.grants@ = self.grants@.push(now);
            }
        }
        served
    }
}

} // verus!
