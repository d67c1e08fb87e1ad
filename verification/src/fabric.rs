//! The broadcast fabric: one bounded multi-subscriber event channel shared
//! by all connections. Publishing appends the event to every subscriber's
//! queue, and a subscriber that has fallen a full window behind loses its
//! oldest event instead of blocking the publisher or growing an unbounded
//! backlog. Delivery is therefore best-effort but order-preserving for
//! each subscriber.

use vstd::prelude::*;
use crate::protocol::{event_models, WebSocketEvent};

verus! {

/// The multi-subscriber channel. Each subscriber owns one slot; a slot
/// that was given back is `None` and receives nothing further.
pub struct BroadcastFabric {
    pub capacity: usize,
    pub queues: Vec<Option<Vec<WebSocketEvent>>>,
}

impl BroadcastFabric {
    /// Whether this subscriber handle is live.
    pub open spec fn is_subscribed(&self, id: int) -> bool {
        0 <= id < self.queues@.len() && self.queues@[id] is Some
    }

    /// The events waiting for one subscriber, oldest first.
    pub open spec fn queue(&self, id: int) -> Seq<WebSocketEvent> {
        self.queues@[id]->0@
    }

    /// Every queue respects the backlog bound, and the bound is positive.
    pub open spec fn wf(&self) -> bool {
        &&& self.capacity >= 1
        &&& forall|id: int|
            self.is_subscribed(id) ==> #[trigger] self.queue(id).len() <= self.capacity
    }

    /// A fabric with the given backlog bound and no subscribers yet.
    pub fn new(capacity: usize) -> (f: Self)
        requires
            capacity >= 1,
        ensures
            f.wf(),
            f.capacity == capacity,
            f.queues@.len() == 0,
    {
        BroadcastFabric { capacity, queues: Vec::new() }
    }

    /// Add a subscriber; its queue starts empty and nobody else's queue
    /// is touched.
    pub fn subscribe(&mut self) -> (id: usize)
        requires
            old(self).wf(),
        ensures
            final(self).wf(),
            final(self).capacity == old(self).capacity,
            id == old(self).queues@.len(),
            final(self).queues@.len() == old(self).queues@.len() + 1,
            final(self).is_subscribed(id as int),
            final(self).queue(id as int) == Seq::<WebSocketEvent>::empty(),
            forall|j: int|
                0 <= j < old(self).queues@.len() ==> final(self).queues@[j] == old(
                    self,
                ).queues@[j],
    {
        let id = self.queues.len();
        self.queues.push(Some(Vec::new()));
        proof {
            assert forall|j: int| self.is_subscribed(j) implies #[trigger] self.queue(j).len()
                <= self.capacity by {
                if j < id {
                    assert(self.queues@[j] == old(self).queues@[j]);
                    assert(old(self).queue(j).len() <= old(self).capacity);
                }
            }
        }
        id
    }

    /// Give a subscriber slot back; it receives nothing further.
    pub fn unsubscribe(&mut self, id: usize)
        requires
            old(self).wf(),
        ensures
            final(self).wf(),
            final(self).capacity == old(self).capacity,
            final(self).queues@.len() == old(self).queues@.len(),
            !final(self).is_subscribed(id as int),
            forall|j: int|
                0 <= j < old(self).queues@.len() && j != id ==> final(self).queues@[j] == old(
                    self,
                ).queues@[j],
    {
        if id < self.queues.len() {
            self.queues.remove(id);
            self.queues.insert(id, None);
            proof {
                assert(self.queues@ =~= old(self).queues@.update(id as int, None));
                assert forall|j: int| self.is_subscribed(j) implies #[trigger] self.queue(
                    j,
                ).len() <= self.capacity by {
                    assert(self.queues@[j] == old(self).queues@[j]);
                    assert(old(self).queue(j).len() <= old(self).capacity);
                }
            }
        }
    }

    /// What one subscriber's queue looks like after an event lands in it:
    /// a full queue first sheds its oldest event ("lag"), then the new
    /// event is appended.
    pub open spec fn lag_pushed(q: Seq<WebSocketEvent>, capacity: int) -> Seq<WebSocketEvent> {
        if q.len() >= capacity {
            q.drop_first()
        } else {
            q
        }
    }

    /// Everything one publish guarantees: no subscriber appears or
    /// disappears, an unsubscribed slot is untouched, and every live
    /// subscriber's queue keeps its waiting events in order (shedding the
    /// oldest only at the full bound) and gains the published event,
    /// record for record, at its tail.
    pub open spec fn published(pre: Self, post: Self, event: WebSocketEvent) -> bool {
        &&& post.capacity == pre.capacity
        &&& post.queues@.len() == pre.queues@.len()
        &&& (forall|id: int| pre.is_subscribed(id) <==> post.is_subscribed(id))
        &&& (forall|id: int|
            !pre.is_subscribed(id) && 0 <= id < pre.queues@.len() ==> post.queues@[id]
                == pre.queues@[id])
        &&& (forall|id: int|
            #![trigger post.queue(id)]
            pre.is_subscribed(id) ==> {
                let kept = Self::lag_pushed(pre.queue(id), pre.capacity as int);
                &&& post.queue(id).len() == kept.len() + 1
                &&& (forall|j: int| 0 <= j < kept.len() ==> post.queue(id)[j] == kept[j])
                &&& event_models(post.queue(id).last(), event)
            })
    }

    /// Publish one event: it lands at the tail of every live subscriber's
    /// queue, dropping the oldest event of any queue already at the
    /// bound. The publisher never blocks and no queue outgrows the bound.
    pub fn publish(&mut self, event: &WebSocketEvent)
        requires
            old(self).wf(),
        ensures
            final(self).wf(),
            Self::published(*old(self), *final(self), *event),
    {
        let n = self.queues.len();
        let mut i: usize = 0;
        while i < n
            invariant
                old(self).wf(),
                n == old(self).queues@.len(),
                self.capacity == old(self).capacity,
                self.queues@.len() == n,
                0 <= i <= n,
                forall|id: int|
                    old(self).is_subscribed(id) <==> self.is_subscribed(id),
                forall|id: int| i <= id < n ==> self.queues@[id] == old(self).queues@[id],
                forall|id: int|
                    !old(self).is_subscribed(id) && 0 <= id < n ==> self.queues@[id] == old(
                        self,
                    ).queues@[id],
                forall|id: int|
                    #![trigger old(self).queue(id)]
                    old(self).is_subscribed(id) && 0 <= id < i ==> {
                        let kept = Self::lag_pushed(
                            old(self).queue(id),
                            old(self).capacity as int,
                        );
                        &&& self.queue(id).len() == kept.len() + 1
                        &&& (forall|j: int| 0 <= j < kept.len() ==> self.queue(id)[j] == kept[j])
                        &&& event_models(self.queue(id).last(), *event)
                    },
            decreases n - i,
        {
            let ghost pre_loop_queues = self.queues@;
            let slot = self.queues.remove(i);
            match slot {
                Some(mut q) => {
                    let ghost q0 = q@;
                    if q.len() >= self.capacity {
                        q.remove(0);
                    }
                    q.push(event.clone());
                    proof {
                        let kept = Self::lag_pushed(q0, self.capacity as int);
                        assert(q@.len() == kept.len() + 1);
                        assert(forall|j: int| 0 <= j < kept.len() ==> q@[j] == kept[j]);
                        assert(event_models(q@.last(), *event));
                    }
                    self.queues.insert(i, Some(q));
                },
                None => {
                    self.queues.insert(i, None);
                },
            }
            proof {
                assert(self.queues@ =~= pre_loop_queues.update(
                    i as int,
                    self.queues@[i as int],
                ));
                assert(pre_loop_queues[i as int] == old(self).queues@[i as int]);
                assert forall|id: int|
                    old(self).is_subscribed(id) && 0 <= id < i + 1 implies {
                    let kept = Self::lag_pushed(old(self).queue(id), old(self).capacity as int);
                    &&& #[trigger] self.queue(id).len() == kept.len() + 1
                    &&& (forall|j: int| 0 <= j < kept.len() ==> self.queue(id)[j] == kept[j])
                    &&& event_models(self.queue(id).last(), *event)
                } by {
                    if id != i {
                        assert(self.queues@[id] == pre_loop_queues[id]);
                    }
                }
            }
            i = i + 1;
        }
        proof {
            assert forall|id: int| old(self).is_subscribed(id) implies {
                let kept = Self::lag_pushed(old(self).queue(id), old(self).capacity as int);
                &&& #[trigger] self.queue(id).len() == kept.len() + 1
                &&& (forall|j: int| 0 <= j < kept.len() ==> self.queue(id)[j] == kept[j])
                &&& event_models(self.queue(id).last(), *event)
            } by {
                assert(0 <= id < n);
            }
        }
    }

    /// Take the oldest waiting event for one subscriber, if any. Events
    /// come out exactly in the order they were queued.
    pub fn recv(&mut self, id: usize) -> (r: Option<WebSocketEvent>)
        requires
            old(self).wf(),
        ensures
            final(self).wf(),
            final(self).capacity == old(self).capacity,
            final(self).queues@.len() == old(self).queues@.len(),
            forall|j: int|
                0 <= j < old(self).queues@.len() && j != id ==> final(self).queues@[j] == old(
                    self,
                ).queues@[j],
            old(self).is_subscribed(id as int) && old(self).queue(id as int).len() > 0 ==> {
                &&& r == Some(old(self).queue(id as int).first())
                &&& final(self).is_subscribed(id as int)
                &&& final(self).queue(id as int) == old(self).queue(id as int).drop_first()
            },
            !(old(self).is_subscribed(id as int) && old(self).queue(id as int).len() > 0) ==> r
                is None && *final(self) == *old(self),
    {
        if id >= self.queues.len() {
            return None;
        }
        let nonempty = match &self.queues[id] {
            Some(q) => q.len() > 0,
            None => false,
        };
        if !nonempty {
            return None;
        }
        let slot = self.queues.remove(id);
        match slot {
            Some(mut q) => {
                let ev = q.remove(0);
                self.queues.insert(id, Some(q));
                proof {
                    assert(self.queues@ =~= old(self).queues@.update(
                        id as int,
                        self.queues@[id as int],
                    ));
                    assert forall|j: int| self.is_subscribed(j) implies #[trigger] self.queue(
                        j,
                    ).len() <= self.capacity by {
                        assert(old(self).queue(j).len() <= old(self).capacity);
                    }
                }
                Some(ev)
            },
            None => {
                self.queues.insert(id, None);
                None
            },
        }
    }

    /// How many subscribers are live.
    pub open spec fn spec_subscriber_count(q: Seq<Option<Vec<WebSocketEvent>>>) -> int
        decreases q.len(),
    {
        if q.len() == 0 {
            0
        } else {
            Self::spec_subscriber_count(q.drop_last()) + if q.last() is Some {
                1int
            } else {
                0int
            }
        }
    }

    /// Count the live subscribers.
    pub fn subscriber_count(&self) -> (n: usize)
        ensures
            n == Self::spec_subscriber_count(self.queues@),
    {
        let mut n: usize = 0;
        let mut i: usize = 0;
        while i < self.queues.len()
            invariant
                0 <= i <= self.queues@.len(),
                n <= i,
                n == Self::spec_subscriber_count(self.queues@.subrange(0, i as int)),
            decreases self.queues@.len() - i,
        {
            proof {
                assert(self.queues@.subrange(0, i as int + 1).drop_last() =~= self.queues@
                    .subrange(0, i as int));
                assert(self.queues@.subrange(0, i as int + 1).last() == self.queues@[i as int]);
            }
            match &self.queues[i] {
                Some(_) => {
                    n = n + 1;
                },
                None => {},
            }
            i = i + 1;
        }
        proof {
            assert(self.queues@.subrange(0, self.queues@.len() as int) =~= self.queues@);
        }
        n
    }
}

} // verus!
