//! The ingest channel: a bounded, ordered FIFO queue from the capture
//! context into the broadcaster.
//!
//! The producer side never blocks: when the queue is full a new event is
//! dropped, because the capture callback runs on the platform's own thread
//! and must never stall. Events that are accepted are handed to the consumer
//! in exactly the order they were enqueued: no reordering, no deduplication.
use vstd::prelude::*;

use crate::event::UiEvent;
use crate::event::UiEventModel;

verus! {

/// The queue capacity used when the operator configures none.
pub const DEFAULT_INGEST_CAPACITY: usize = 100;

/// A bounded FIFO queue of normalized events. The front of the sequence is
/// the oldest enqueued event, the one the consumer takes next.
pub struct IngestQueue {
    items: Vec<UiEvent>,
    capacity: usize,
}

/// What one non-blocking enqueue does to the queue's contents: appends when
/// there is room, drops the newcomer when there is none.
pub open spec fn spec_offer(s: Seq<UiEventModel>, cap: int, e: UiEventModel) -> Seq<UiEventModel> {
    if s.len() < cap {
        s.push(e)
    } else {
        s
    }
}

/// What a whole burst of enqueues does, first event first.
pub open spec fn spec_offer_all(s: Seq<UiEventModel>, cap: int, es: Seq<UiEventModel>) -> Seq<
    UiEventModel,
>
    decreases es.len(),
{
    if es.len() == 0 {
        s
    } else {
        spec_offer_all(spec_offer(s, cap, es[0]), cap, es.drop_first())
    }
}

impl IngestQueue {
    /// The events currently queued, oldest first.
    pub closed spec fn contents(&self) -> Seq<UiEventModel> {
        self.items@.map_values(|e: UiEvent| e@)
    }

    /// The fixed capacity the queue was created with.
    pub closed spec fn cap(&self) -> int {
        self.capacity as int
    }

    /// An empty queue of the given capacity.
    pub fn new(capacity: usize) -> (q: IngestQueue)
        requires
            capacity >= 1,
        ensures
            q.contents() == Seq::<UiEventModel>::empty(),
            q.cap() == capacity as int,
    {
        let q = IngestQueue { items: Vec::new(), capacity };
        proof {
            assert(q.contents() =~= Seq::<UiEventModel>::empty());
        }
        q
    }

    /// An empty queue of the default capacity.
    pub fn with_default_capacity() -> (q: IngestQueue)
        ensures
            q.contents() == Seq::<UiEventModel>::empty(),
            q.cap() == DEFAULT_INGEST_CAPACITY as int,
    {
        IngestQueue::new(DEFAULT_INGEST_CAPACITY)
    }

    /// How many events are queued right now.
    pub fn len(&self) -> (n: usize)
        ensures
            n as int == self.contents().len(),
    {
        self.items.len()
    }

    /// The capacity the queue was created with.
    pub fn capacity(&self) -> (c: usize)
        ensures
            c as int == self.cap(),
    {
        self.capacity
    }

    /// Non-blocking enqueue: appends the event when there is room and says
    /// so; when the queue is full the event is dropped — the queue is left
    /// exactly as it was — and the caller is told, so it can log the loss.
    pub fn offer(&mut self, e: UiEvent) -> (accepted: bool)
        ensures
            final(self).contents() == spec_offer(old(self).contents(), old(self).cap(), e@),
            accepted == (old(self).contents().len() < old(self).cap()),
            final(self).cap() == old(self).cap(),
    {
        if self.items.len() < self.capacity {
            self.items.push(e);
            proof {
                assert(final(self).contents() =~= old(self).contents().push(e@));
            }
            true
        } else {
            false
        }
    }

    /// Consumer-side dequeue: takes the oldest queued event, or nothing when
    /// the queue is empty.
    pub fn poll(&mut self) -> (r: Option<UiEvent>)
        ensures
            old(self).contents().len() == 0 ==> r is None && final(self).contents() == old(
                self,
            ).contents(),
            old(self).contents().len() > 0 ==> {
                &&& r matches Option::Some(e) && e@ == old(self).contents()[0]
                &&& final(self).contents() == old(self).contents().drop_first()
            },
            final(self).cap() == old(self).cap(),
    {
        if self.items.len() == 0 {
            Option::None
        } else {
            let e = self.items.remove(0);
            proof {
                assert(final(self).contents() =~= old(self).contents().drop_first());
            }
            Option::Some(e)
        }
    }
}

/// Enqueue order equals consumption order: a burst of events that all find
/// room lands behind the existing contents in exactly its own order, so the
/// consumer, which always takes the front, sees every accepted event in the
/// order it was enqueued.
pub proof fn lemma_enqueue_keeps_order(s: Seq<UiEventModel>, cap: int, es: Seq<UiEventModel>)
    requires
        s.len() + es.len() <= cap,
    ensures
        spec_offer_all(s, cap, es) == s + es,
    decreases es.len(),
{
    if es.len() == 0 {
        assert(spec_offer_all(s, cap, es) =~= s + es);
    } else {
        lemma_enqueue_keeps_order(s.push(es[0]), cap, es.drop_first());
        assert(s.push(es[0]) + es.drop_first() =~= s + es);
    }
}

/// A full queue drops every newcomer: however many events arrive while no
/// one drains, the retained contents are exactly what was already queued.
pub proof fn lemma_full_queue_drops(s: Seq<UiEventModel>, cap: int, es: Seq<UiEventModel>)
    requires
        s.len() >= cap,
    ensures
        spec_offer_all(s, cap, es) == s,
    decreases es.len(),
{
    if es.len() > 0 {
        lemma_full_queue_drops(s, cap, es.drop_first());
    }
}

} // verus!
