//! The fan-out bus: the multi-subscriber publish primitive between the
//! broadcaster and the connection sessions.
//!
//! Every presently-registered subscriber receives every published frame in
//! its own fixed-capacity ring, independently of the others. A slow
//! subscriber loses its oldest buffered frames, never the publisher's time:
//! publishing always completes, whatever any subscriber does, and
//! publishing to nobody is a no-op, not an error.
use vstd::prelude::*;

use crate::ring::FrameRing;
use crate::ring::spec_push_drop_oldest;

verus! {

/// Ghost model of one subscription: whether it is still registered, and its
/// buffered frames, oldest first.
pub struct SubscriberModel {
    pub active: bool,
    pub queue: Seq<Seq<char>>,
}

/// Ghost model of the bus: the shared per-subscriber capacity and every
/// subscription ever handed out, in the order they were handed out.
pub struct BusModel {
    pub cap: int,
    pub subs: Seq<SubscriberModel>,
}

/// The bounds every reachable bus state satisfies: a positive capacity that
/// no subscriber's buffer exceeds.
pub open spec fn bus_model_wf(b: BusModel) -> bool {
    &&& b.cap >= 1
    &&& forall|j: int| 0 <= j < b.subs.len() ==> #[trigger] b.subs[j].queue.len() <= b.cap
}

/// What publishing one frame does: every active subscriber's queue takes it
/// at the back, dropping that subscriber's oldest frame when its ring is
/// full; an inactive subscription is untouched. Nothing else changes, and
/// nothing can fail.
pub open spec fn spec_publish(b: BusModel, m: Seq<char>) -> BusModel {
    BusModel {
        cap: b.cap,
        subs: b.subs.map_values(
            |s: SubscriberModel|
                if s.active {
                    SubscriberModel { active: true, queue: spec_push_drop_oldest(s.queue, b.cap, m) }
                } else {
                    s
                },
        ),
    }
}

/// One subscription: its private ring and whether it is still registered.
struct Subscription {
    ring: FrameRing,
    active: bool,
}

/// The fan-out bus. Subscriptions are addressed by the index at which they
/// were handed out; tearing one down marks it inactive without renumbering
/// the others.
pub struct FanoutBus {
    capacity: usize,
    subs: Vec<Subscription>,
}

impl View for FanoutBus {
    type V = BusModel;

    closed spec fn view(&self) -> BusModel {
        BusModel {
            cap: self.capacity as int,
            subs: self.subs@.map_values(
                |s: Subscription| SubscriberModel { active: s.active, queue: s.ring.contents() },
            ),
        }
    }
}

impl FanoutBus {
    /// Every ring is as long as the bus promises and internally consistent.
    pub closed spec fn well_formed(&self) -> bool {
        &&& self.capacity >= 1
        &&& forall|j: int|
            0 <= j < self.subs@.len() ==> (#[trigger] self.subs@[j].ring).well_formed()
                && self.subs@[j].ring.cap() == self.capacity as int
    }

    /// A bus with no subscribers yet, whose future subscribers each buffer
    /// at most `capacity` frames.
    pub fn new(capacity: usize) -> (b: FanoutBus)
        requires
            capacity >= 1,
        ensures
            b.well_formed(),
            b@.cap == capacity as int,
            b@.subs.len() == 0,
            bus_model_wf(b@),
    {
        let b = FanoutBus { capacity, subs: Vec::new() };
        proof {
            assert(b@.subs =~= Seq::<SubscriberModel>::empty());
        }
        b
    }

    /// How many subscriptions have been handed out, including torn-down
    /// ones, which keep their index.
    pub fn subscriber_count(&self) -> (n: usize)
        ensures
            n as int == self@.subs.len(),
    {
        self.subs.len()
    }

    /// Registers a new subscriber and returns its handle. The new private
    /// queue starts empty: a subscriber only sees frames published after it
    /// subscribed, never a backfill.
    pub fn subscribe(&mut self) -> (id: usize)
        requires
            old(self).well_formed(),
        ensures
            final(self).well_formed(),
            id as int == old(self)@.subs.len(),
            final(self)@.cap == old(self)@.cap,
            final(self)@.subs.len() == old(self)@.subs.len() + 1,
            final(self)@.subs[id as int] == (SubscriberModel {
                active: true,
                queue: Seq::<Seq<char>>::empty(),
            }),
            forall|j: int|
                0 <= j < old(self)@.subs.len() ==> final(self)@.subs[j] == old(self)@.subs[j],
            bus_model_wf(old(self)@) ==> bus_model_wf(final(self)@),
    {
        let id = self.subs.len();
        let ring = FrameRing::new(self.capacity);
        self.subs.push(Subscription { ring, active: true });
        proof {
            assert forall|j: int| 0 <= j < old(self)@.subs.len() implies self@.subs[j] == old(
                self,
            )@.subs[j] by {
                assert(self.subs@[j] == old(self).subs@[j]);
            }
        }
        id
    }

    /// Publishes one frame to every active subscriber. Always completes
    /// promptly regardless of subscriber behavior: a full ring drops its
    /// oldest frame, and a bus without subscribers takes the frame nowhere
    /// without complaint.
    pub fn publish(&mut self, frame: &str)
        requires
            old(self).well_formed(),
        ensures
            final(self).well_formed(),
            final(self)@ == spec_publish(old(self)@, frame@),
            bus_model_wf(old(self)@) ==> bus_model_wf(final(self)@),
    {
        let ghost orig = self@;
        let n = self.subs.len();
        let mut i: usize = 0;
        while i < n
            invariant
                self.well_formed(),
                n == self.subs@.len(),
                i <= n,
                self@.cap == orig.cap,
                self@.subs.len() == orig.subs.len(),
                n == orig.subs.len(),
                forall|j: int| 0 <= j < i ==> self@.subs[j] == spec_publish(orig, frame@).subs[j],
                forall|j: int| i <= j < n ==> self@.subs[j] == orig.subs[j],
            decreases n - i,
        {
            let ghost pre = self@;
            let ghost pre_subs = self.subs@;
            if self.subs[i].active {
                let owned = frame.to_owned();
                self.subs[i].ring.push_drop_oldest(owned);
            }
            proof {
                assert forall|j: int| 0 <= j < i + 1 implies self@.subs[j] == spec_publish(
                    orig,
                    frame@,
                ).subs[j] by {
                    if j < i {
                        assert(self.subs@[j] == pre_subs[j]);
                        assert(pre.subs[j] == spec_publish(orig, frame@).subs[j]);
                    } else {
                        assert(pre.subs[i as int] == orig.subs[i as int]);
                    }
                }
                assert forall|j: int| i + 1 <= j < n implies self@.subs[j] == orig.subs[j] by {
                    assert(self.subs@[j] == pre_subs[j]);
                    assert(pre.subs[j] == orig.subs[j]);
                }
            }
            i = i + 1;
        }
        proof {
            assert(self@.subs =~= spec_publish(orig, frame@).subs);
        }
    }

    /// Hands the subscriber `id` its oldest buffered frame, or nothing when
    /// its queue is empty.
    pub fn recv(&mut self, id: usize) -> (r: Option<String>)
        requires
            old(self).well_formed(),
            id < old(self)@.subs.len(),
        ensures
            final(self).well_formed(),
            final(self)@.cap == old(self)@.cap,
            final(self)@.subs.len() == old(self)@.subs.len(),
            forall|j: int|
                0 <= j < old(self)@.subs.len() && j != id ==> final(self)@.subs[j] == old(
                    self,
                )@.subs[j],
            final(self)@.subs[id as int].active == old(self)@.subs[id as int].active,
            old(self)@.subs[id as int].queue.len() == 0 ==> r is None
                && final(self)@.subs[id as int].queue == old(self)@.subs[id as int].queue,
            old(self)@.subs[id as int].queue.len() > 0 ==> {
                &&& r matches Option::Some(m) && m@ == old(self)@.subs[id as int].queue[0]
                &&& final(self)@.subs[id as int].queue == old(
                    self,
                )@.subs[id as int].queue.drop_first()
            },
            bus_model_wf(old(self)@) ==> bus_model_wf(final(self)@),
    {
        let r = self.subs[id].ring.pop_front();
        proof {
            assert forall|j: int|
                0 <= j < old(self)@.subs.len() && j != id implies self@.subs[j] == old(
                self,
            )@.subs[j] by {
                assert(self.subs@[j] == old(self).subs@[j]);
            }
            if bus_model_wf(old(self)@) {
                assert forall|j: int|
                    0 <= j < self@.subs.len() implies #[trigger] self@.subs[j].queue.len()
                    <= self@.cap by {
                    assert(old(self)@.subs[j].queue.len() <= old(self)@.cap);
                }
            }
        }
        r
    }

    /// Tears a subscription down: the session is over, its buffered frames
    /// are discarded, and no frame published from now on reaches it. The
    /// other subscriptions keep their handles.
    pub fn unsubscribe(&mut self, id: usize)
        requires
            old(self).well_formed(),
            id < old(self)@.subs.len(),
        ensures
            final(self).well_formed(),
            final(self)@.cap == old(self)@.cap,
            final(self)@.subs.len() == old(self)@.subs.len(),
            forall|j: int|
                0 <= j < old(self)@.subs.len() && j != id ==> final(self)@.subs[j] == old(
                    self,
                )@.subs[j],
            final(self)@.subs[id as int] == (SubscriberModel {
                active: false,
                queue: Seq::<Seq<char>>::empty(),
            }),
            bus_model_wf(old(self)@) ==> bus_model_wf(final(self)@),
    {
        self.subs[id].ring.drain_all();
        self.subs[id].active = false;
        proof {
            assert forall|j: int|
                0 <= j < old(self)@.subs.len() && j != id implies self@.subs[j] == old(
                self,
            )@.subs[j] by {
                assert(self.subs@[j] == old(self).subs@[j]);
            }
        }
    }
}

/// Publishing to a bus with no subscribers changes nothing and cannot fail:
/// the frame simply goes nowhere.
pub proof fn lemma_publish_without_subscribers(b: BusModel, m: Seq<char>)
    requires
        b.subs.len() == 0,
    ensures
        spec_publish(b, m) == b,
{
    assert(spec_publish(b, m).subs =~= b.subs);
}

/// Every active subscriber receives every published frame: after a publish,
/// the frame sits at the back of each active subscriber's queue, whatever
/// each queue held before.
pub proof fn lemma_publish_reaches_every_active(b: BusModel, m: Seq<char>, i: int)
    requires
        bus_model_wf(b),
        0 <= i < b.subs.len(),
        b.subs[i].active,
    ensures
        spec_publish(b, m).subs[i].queue.len() > 0,
        spec_publish(b, m).subs[i].queue.last() == m,
{
}

/// A subscriber whose queue is full keeps receiving: the next publish drops
/// only that subscriber's oldest frame, the new frame still arrives, and
/// the publisher is never stalled. Only the frames that were already
/// buffered can be lost.
pub proof fn lemma_full_subscriber_keeps_receiving(b: BusModel, m: Seq<char>, i: int)
    requires
        bus_model_wf(b),
        0 <= i < b.subs.len(),
        b.subs[i].active,
        b.subs[i].queue.len() == b.cap,
    ensures
        spec_publish(b, m).subs[i].queue == b.subs[i].queue.drop_first().push(m),
        spec_publish(b, m).subs[i].queue.last() == m,
        spec_publish(b, m).subs[i].queue.len() == b.cap,
{
}

/// An inactive subscription is beyond the bus's reach: publishing delivers
/// nothing to it.
pub proof fn lemma_publish_skips_inactive(b: BusModel, m: Seq<char>, i: int)
    requires
        0 <= i < b.subs.len(),
        !b.subs[i].active,
    ensures
        spec_publish(b, m).subs[i] == b.subs[i],
{
}

} // verus!
