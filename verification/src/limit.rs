//! Bounded concurrency: a counted pool of admission permits shared by every
//! call routed through one limiter. A permit is reserved before the protected
//! region is entered and handed back on every exit path; waiters are served
//! in arrival order.

use vstd::prelude::*;

use crate::request::{ReadyState, WaitReason};

verus! {

/// One movement of a permit: granted to a call, or handed back by it.
#[derive(Clone, Copy, PartialEq, Eq, Structural, Debug)]
pub enum PermitEvent {
    Acquired,
    Released,
}

/// How many permits are held after a sequence of permit movements.
pub open spec fn held_after(events: Seq<PermitEvent>) -> int
    decreases events.len(),
{
    if events.len() == 0 {
        0
    } else {
        held_after(events.drop_last()) + match events.last() {
            PermitEvent::Acquired => 1int,
            PermitEvent::Released => -1int,
        }
    }
}

/// A permit trace is valid for `capacity` when a permit is only granted while
/// one is free and only handed back while one is held — exactly what the
/// pool's two operations enforce.
pub open spec fn valid_trace(capacity: int, events: Seq<PermitEvent>) -> bool {
    forall|i: int|
        0 <= i < events.len() ==> match #[trigger] events[i] {
            PermitEvent::Acquired => held_after(events.take(i)) < capacity,
            PermitEvent::Released => held_after(events.take(i)) > 0,
        }
}

/// Along any valid permit trace the number of permits held never exceeds
/// `capacity` and never drops below zero — at every point of the history, not
/// only at its end.
pub proof fn lemma_held_bounded(capacity: int, events: Seq<PermitEvent>)
    requires
        capacity >= 0,
        valid_trace(capacity, events),
    ensures
        forall|i: int| 0 <= i <= events.len() ==> 0 <= #[trigger] held_after(events.take(i)) <= capacity,
    decreases events.len(),
{
    if events.len() == 0 {
        assert(events.take(0) =~= events);
    } else {
        let prefix = events.drop_last();
        assert(valid_trace(capacity, prefix)) by {
            assert forall|i: int| 0 <= i < prefix.len() implies match #[trigger] prefix[i] {
                PermitEvent::Acquired => held_after(prefix.take(i)) < capacity,
                PermitEvent::Released => held_after(prefix.take(i)) > 0,
            } by {
                assert(prefix.take(i) =~= events.take(i));
                assert(prefix[i] == events[i]);
            }
        }
        lemma_held_bounded(capacity, prefix);
        assert forall|i: int| 0 <= i <= events.len() implies 0 <= #[trigger] held_after(
            events.take(i),
        ) <= capacity by {
            if i < events.len() {
                assert(events.take(i) =~= prefix.take(i));
            } else {
                assert(events.take(i) =~= events);
                let j = events.len() - 1;
                assert(events.take(j) =~= prefix.take(j));
                assert(0 <= held_after(prefix.take(j)) <= capacity);
            }
        }
    }
}

/// A counted resource of `capacity` permits, shared by all calls through one
/// limiter. `in_flight` counts the permits currently held, `waiters` queues
/// the callers that found no permit free, in arrival order, and `history`
/// records every grant and return the pool has performed.
pub struct PermitPool {
    pub capacity: u64,
    pub in_flight: u64,
    pub waiters: Vec<u64>,
    pub history: Ghost<Seq<PermitEvent>>,
}

impl PermitPool {
    /// Well-formedness: the count of held permits is the one the history
    /// yields, the history is valid, and so — by `lemma_held_bounded` — the
    /// permits held have never exceeded the capacity.
    pub open spec fn wf(&self) -> bool {
        &&& self.in_flight as int == held_after(self.history@)
        &&& valid_trace(self.capacity as int, self.history@)
    }

    /// Outstanding permits never exceed the capacity — now, and at every
    /// earlier point of the pool's history.
    pub proof fn lemma_bounded(&self)
        requires
            self.wf(),
        ensures
            self.in_flight <= self.capacity,
            forall|i: int|
                0 <= i <= self.history@.len() ==> 0 <= #[trigger] held_after(
                    self.history@.take(i),
                ) <= self.capacity,
    {
        lemma_held_bounded(self.capacity as int, self.history@);
        assert(self.history@.take(self.history@.len() as int) =~= self.history@);
    }

    /// A fresh pool: every permit free, nobody waiting.
    pub fn new(capacity: u64) -> (p: PermitPool)
        ensures
            p.wf(),
            p.capacity == capacity,
            p.in_flight == 0,
            p.waiters@ == Seq::<u64>::empty(),
            p.history@ == Seq::<PermitEvent>::empty(),
    {
        PermitPool { capacity, in_flight: 0, waiters: Vec::new(), history: Ghost(Seq::empty()) }
    }

    /// Non-blocking probe: ready exactly when a permit is free and no earlier
    /// caller is queued ahead.
    pub fn ready(&self) -> (r: ReadyState)
        requires
            self.wf(),
        ensures
            r == ReadyState::Ready <==> (self.in_flight < self.capacity && self.waiters@.len()
                == 0),
    {
        if self.waiters.len() > 0 {
            ReadyState::NotReady(WaitReason::QueuedAhead)
        } else if self.in_flight < self.capacity {
            ReadyState::Ready
        } else {
            ReadyState::NotReady(WaitReason::AtCapacity)
        }
    }

    /// Reserve a permit for `caller`. The grant succeeds exactly when a permit
    /// is free and nobody arrived earlier; otherwise `caller` joins the back
    /// of the queue and is woken, in arrival order, by a later release.
    pub fn acquire(&mut self, caller: u64) -> (granted: bool)
        requires
            old(self).wf(),
        ensures
            final(self).wf(),
            final(self).capacity == old(self).capacity,
            granted <==> (old(self).in_flight < old(self).capacity && old(self).waiters@.len()
                == 0),
            granted ==> {
                &&& final(self).in_flight == old(self).in_flight + 1
                &&& final(self).waiters@ == old(self).waiters@
                &&& final(self).history@ == old(self).history@.push(PermitEvent::Acquired)
            },
            !granted ==> {
                &&& final(self).in_flight == old(self).in_flight
                &&& final(self).waiters@ == old(self).waiters@.push(caller)
                &&& final(self).history@ == old(self).history@
            },
    {
        if self.waiters.len() == 0 && self.in_flight < self.capacity {
            self.in_flight = self.in_flight + 1;
            proof {
                let h = self.history@;
                self.history@ = h.push(PermitEvent::Acquired);
                assert forall|i: int| 0 <= i < self.history@.len() implies match #[trigger] self
                    .history@[i] {
                    PermitEvent::Acquired => held_after(self.history@.take(i)) < self.capacity
                        as int,
                    PermitEvent::Released => held_after(self.history@.take(i)) > 0,
                } by {
                    if i < h.len() {
                        assert(self.history@.take(i) =~= h.take(i));
                        assert(self.history@[i] == h[i]);
                    } else {
                        assert(self.history@.take(i) =~= h);
                    }
                }
                assert(self.history@.drop_last() =~= h);
            }
            true
        } else {
            self.waiters.push(caller);
            false
        }
    }

    /// Hand a held permit back. If a caller is queued, the permit passes
    /// directly to the front waiter — first arrived, first served — who is
    /// dequeued and returned so the surrounding loop can wake it; otherwise
    /// the permit becomes free again.
    pub fn release(&mut self) -> (woken: Option<u64>)
        requires
            old(self).wf(),
            old(self).in_flight > 0,
        ensures
            final(self).wf(),
            final(self).capacity == old(self).capacity,
            old(self).waiters@.len() > 0 ==> {
                &&& woken == Some(old(self).waiters@[0])
                &&& final(self).in_flight == old(self).in_flight
                &&& final(self).waiters@ == old(self).waiters@.drop_first()
                &&& final(self).history@ == old(self).history@.push(PermitEvent::Released).push(
                    PermitEvent::Acquired,
                )
            },
            old(self).waiters@.len() == 0 ==> {
                &&& woken is None
                &&& final(self).in_flight == old(self).in_flight - 1
                &&& final(self).waiters@ == old(self).waiters@
                &&& final(self).history@ == old(self).history@.push(PermitEvent::Released)
            },
    {
        proof {
            self.lemma_bounded();
        }
        if self.waiters.len() > 0 {
            let woken = self.waiters.remove(0);
            proof {
                assert(self.waiters@ =~= old(self).waiters@.drop_first());
                let h = self.history@;
                let h1 = h.push(PermitEvent::Released);
                let h2 = h1.push(PermitEvent::Acquired);
                self.history@ = h2;
                assert(h1.drop_last() =~= h);
                assert(h2.drop_last() =~= h1);
                assert forall|i: int| 0 <= i < h2.len() implies match #[trigger] h2[i] {
                    PermitEvent::Acquired => held_after(h2.take(i)) < self.capacity as int,
                    PermitEvent::Released => held_after(h2.take(i)) > 0,
                } by {
                    if i < h.len() {
                        assert(h2.take(i) =~= h.take(i));
                        assert(h2[i] == h[i]);
                    } else if i == h.len() {
                        assert(h2.take(i) =~= h);
                    } else {
                        assert(h2.take(i) =~= h1);
                    }
                }
            }
            Some(woken)
        } else {
            self.in_flight = self.in_flight - 1;
            proof {
                let h = self.history@;
                self.history@ = h.push(PermitEvent::Released);
                assert(self.history@.drop_last() =~= h);
                assert forall|i: int| 0 <= i < self.history@.len() implies match #[trigger] self
                    .history@[i] {
                    PermitEvent::Acquired => held_after(self.history@.take(i)) < self.capacity
                        as int,
                    PermitEvent::Released => held_after(self.history@.take(i)) > 0,
                } by {
                    if i < h.len() {
                        assert(self.history@.take(i) =~= h.take(i));
                        assert(self.history@[i] == h[i]);
                    } else {
                        assert(self.history@.take(i) =~= h);
                    }
                }
            }
            None
        }
    }
}

} // verus!
