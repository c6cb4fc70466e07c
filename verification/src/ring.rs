//! A fixed-capacity, index-addressed ring of serialized frames: the private
//! buffer of one fan-out subscriber.
//!
//! The capacity bound and the drop-oldest policy are mechanically enforced:
//! the backing storage never grows, and writing into a full ring overwrites
//! the oldest frame in place. Pushing therefore always completes, whatever
//! the consumer does.
use vstd::prelude::*;

verus! {

/// The physical slot of the `i`-th oldest frame in a ring whose oldest frame
/// lives at `head`, for `head < cap` and `i < cap`.
pub open spec fn ring_index(head: int, i: int, cap: int) -> int {
    if head + i < cap {
        head + i
    } else {
        head + i - cap
    }
}

/// What pushing into a bounded drop-oldest buffer does to its contents:
/// appends when there is room; otherwise the oldest frame makes way and the
/// new one still lands at the back.
pub open spec fn spec_push_drop_oldest(s: Seq<Seq<char>>, cap: int, m: Seq<char>) -> Seq<
    Seq<char>,
> {
    if s.len() < cap {
        s.push(m)
    } else {
        s.drop_first().push(m)
    }
}

/// A bounded ring of text frames, oldest first. Storage is allocated once,
/// at construction, and addressed by index thereafter.
pub struct FrameRing {
    slots: Vec<String>,
    head: usize,
    count: usize,
}

impl FrameRing {
    /// The fixed capacity: the length of the backing storage.
    pub closed spec fn cap(&self) -> int {
        self.slots@.len() as int
    }

    /// The buffered frames, oldest first.
    pub closed spec fn contents(&self) -> Seq<Seq<char>> {
        Seq::new(
            self.count as nat,
            |i: int|
                self.slots@[ring_index(self.head as int, i, self.slots@.len() as int)]@,
        )
    }

    /// The head points into the storage and the ring never holds more than
    /// the storage can.
    pub closed spec fn well_formed(&self) -> bool {
        &&& self.slots@.len() >= 1
        &&& (self.head as int) < self.slots@.len()
        &&& self.count <= self.slots@.len()
    }

    /// An empty ring whose storage is allocated once, here.
    pub fn new(capacity: usize) -> (r: FrameRing)
        requires
            capacity >= 1,
        ensures
            r.well_formed(),
            r.cap() == capacity as int,
            r.contents() == Seq::<Seq<char>>::empty(),
    {
        let mut slots: Vec<String> = Vec::new();
        let mut i: usize = 0;
        while i < capacity
            invariant
                i <= capacity,
                slots@.len() == i,
            decreases capacity - i,
        {
            slots.push(String::new());
            i = i + 1;
        }
        let r = FrameRing { slots, head: 0, count: 0 };
        proof {
            assert(r.contents() =~= Seq::<Seq<char>>::empty());
        }
        r
    }

    /// How many frames are buffered right now.
    pub fn len(&self) -> (n: usize)
        ensures
            n as int == self.contents().len(),
    {
        self.count
    }

    /// Pushes one frame, dropping the oldest buffered frame when the ring is
    /// full. Always completes: a full ring never makes the caller wait.
    pub fn push_drop_oldest(&mut self, frame: String)
        requires
            old(self).well_formed(),
        ensures
            final(self).well_formed(),
            final(self).cap() == old(self).cap(),
            final(self).contents() == spec_push_drop_oldest(
                old(self).contents(),
                old(self).cap(),
                frame@,
            ),
    {
        let cap = self.slots.len();
        if self.count < cap {
            let idx = if self.count >= cap - self.head {
                self.count - (cap - self.head)
            } else {
                self.head + self.count
            };
            proof {
                assert(idx as int == ring_index(self.head as int, self.count as int, cap as int));
            }
            self.slots[idx] = frame;
            self.count = self.count + 1;
            proof {
                assert forall|i: int| 0 <= i < self.contents().len() implies self.contents()[i]
                    == spec_push_drop_oldest(old(self).contents(), old(self).cap(), frame@)[i] by {
                    assert(ring_index(self.head as int, i, cap as int) != ring_index(
                        self.head as int,
                        old(self).count as int,
                        cap as int,
                    ) || i == old(self).count as int);
                }
                assert(self.contents() =~= spec_push_drop_oldest(
                    old(self).contents(),
                    old(self).cap(),
                    frame@,
                ));
            }
        } else {
            let idx = self.head;
            self.slots[idx] = frame;
            self.head = if self.head + 1 == cap {
                0
            } else {
                self.head + 1
            };
            proof {
                assert forall|i: int| 0 <= i < self.contents().len() implies self.contents()[i]
                    == spec_push_drop_oldest(old(self).contents(), old(self).cap(), frame@)[i] by {
                    assert(ring_index(self.head as int, i, cap as int) == ring_index(
                        old(self).head as int,
                        i + 1,
                        cap as int,
                    ));
                }
                assert(self.contents() =~= spec_push_drop_oldest(
                    old(self).contents(),
                    old(self).cap(),
                    frame@,
                ));
            }
        }
    }

    /// Takes the oldest buffered frame, or nothing when the ring is empty.
    /// Only the indices move: the storage never changes size.
    pub fn pop_front(&mut self) -> (r: Option<String>)
        requires
            old(self).well_formed(),
        ensures
            final(self).well_formed(),
            final(self).cap() == old(self).cap(),
            old(self).contents().len() == 0 ==> r is None && final(self).contents() == old(
                self,
            ).contents(),
            old(self).contents().len() > 0 ==> {
                &&& r matches Option::Some(m) && m@ == old(self).contents()[0]
                &&& final(self).contents() == old(self).contents().drop_first()
            },
    {
        if self.count == 0 {
            proof {
                assert(self.contents() =~= old(self).contents());
            }
            return Option::None;
        }
        let cap = self.slots.len();
        let idx = self.head;
        let frame = self.slots[idx].clone();
        self.head = if self.head + 1 == cap {
            0
        } else {
            self.head + 1
        };
        self.count = self.count - 1;
        proof {
            assert forall|i: int| 0 <= i < self.contents().len() implies self.contents()[i] == old(
                self,
            ).contents().drop_first()[i] by {
                assert(ring_index(self.head as int, i, cap as int) == ring_index(
                    old(self).head as int,
                    i + 1,
                    cap as int,
                ));
            }
            assert(self.contents() =~= old(self).contents().drop_first());
        }
        Option::Some(frame)
    }

    /// Empties the ring, discarding every buffered frame. The storage stays
    /// allocated at its fixed capacity.
    pub fn drain_all(&mut self)
        requires
            old(self).well_formed(),
        ensures
            final(self).well_formed(),
            final(self).cap() == old(self).cap(),
            final(self).contents() == Seq::<Seq<char>>::empty(),
    {
        self.count = 0;
        proof {
            assert(self.contents() =~= Seq::<Seq<char>>::empty());
        }
    }
}

} // verus!
