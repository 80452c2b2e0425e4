//! The element queue: paddle presses made while an element is being sent.
//!
//! The queue is a ring buffer of the `ringbuffer` crate. That crate is not
//! verified here: this file states what its buffer does, and the rest of the
//! library is proved against those statements.

use crate::MorseSign;
use ringbuffer::AllocRingBuffer;
use ringbuffer::RingBuffer;
use vstd::prelude::*;

verus! {

/// `ringbuffer::AllocRingBuffer`, opaque to the verifier.
#[verifier::external_type_specification]
#[verifier::external_body]
#[verifier::reject_recursive_types(T)]
pub struct ExAllocRingBuffer<T>(AllocRingBuffer<T>);

/// What a ring buffer holds, oldest entry first.
pub uninterp spec fn ring_items(ring: AllocRingBuffer<MorseSign>) -> Seq<MorseSign>;

/// The capacity that a ring buffer was made with.
pub uninterp spec fn ring_capacity(ring: AllocRingBuffer<MorseSign>) -> nat;

/// How many entries a ring buffer has taken in since it was made. The crate
/// keeps this count in a `usize`, which every enqueue adds one to.
pub uninterp spec fn ring_written(ring: AllocRingBuffer<MorseSign>) -> nat;

/// `AllocRingBuffer::new`: an empty buffer of the given capacity. The crate
/// panics on a capacity of zero, which `requires` leaves out.
#[verifier::external_body]
pub(crate) fn ring_new(capacity: u8) -> (ring: AllocRingBuffer<MorseSign>)
    requires
        capacity >= 1,
    ensures
        ring_items(ring) == Seq::<MorseSign>::empty(),
        ring_capacity(ring) == capacity,
        ring_written(ring) == 0,
{
    AllocRingBuffer::new(usize::from(capacity))
}

/// `RingBuffer::enqueue`: appends an entry; a full buffer first drops its
/// oldest one. The crate's write counter goes up by one, and would overflow
/// at `usize::MAX`, which `requires` leaves out.
#[verifier::external_body]
pub(crate) fn ring_enqueue(ring: &mut AllocRingBuffer<MorseSign>, sign: MorseSign)
    requires
        ring_written(*old(ring)) < usize::MAX,
    ensures
        ring_items(*final(ring)) == if ring_items(*old(ring)).len() == ring_capacity(*old(ring)) {
            ring_items(*old(ring)).drop_first().push(sign)
        } else {
            ring_items(*old(ring)).push(sign)
        },
        ring_capacity(*final(ring)) == ring_capacity(*old(ring)),
        ring_written(*final(ring)) == ring_written(*old(ring)) + 1,
{
    let _ = ring.enqueue(sign);
}

/// `RingBuffer::dequeue`: takes the oldest entry out, if there is one.
#[verifier::external_body]
pub(crate) fn ring_dequeue(ring: &mut AllocRingBuffer<MorseSign>) -> (oldest: Option<MorseSign>)
    ensures
        ring_items(*old(ring)).len() == 0 ==> oldest.is_none(),
        ring_items(*old(ring)).len() == 0 ==> ring_items(*final(ring)) == ring_items(*old(ring)),
        ring_items(*old(ring)).len() > 0 ==> oldest == Some(ring_items(*old(ring))[0]),
        ring_items(*old(ring)).len() > 0 ==> ring_items(*final(ring)) == ring_items(
            *old(ring),
        ).drop_first(),
        ring_capacity(*final(ring)) == ring_capacity(*old(ring)),
        ring_written(*final(ring)) == ring_written(*old(ring)),
{
    ring.dequeue()
}

/// A queue's contents after one more press: the entry goes to the back, and a
/// queue that was full loses its oldest entry to make room.
pub open spec fn pushed(items: Seq<MorseSign>, capacity: nat, sign: MorseSign) -> Seq<MorseSign> {
    if items.len() >= capacity {
        items.drop_first().push(sign)
    } else {
        items.push(sign)
    }
}

/// A bounded first-in, first-out queue of paddle sides that overwrites its
/// oldest entry when full.
pub struct ElementQueue {
    ring: AllocRingBuffer<MorseSign>,
    capacity: u8,
    written: usize,
}

impl View for ElementQueue {
    type V = Seq<MorseSign>;

    /// The queued sides, oldest first.
    closed spec fn view(&self) -> Seq<MorseSign> {
        ring_items(self.ring)
    }
}

impl ElementQueue {
    /// The most entries the queue holds at once.
    pub closed spec fn limit(&self) -> nat {
        self.capacity as nat
    }

    /// The queue's invariant; it implies `1 <= limit()` and `len <= limit()`.
    pub closed spec fn wf(&self) -> bool {
        &&& self.capacity >= 1
        &&& ring_capacity(self.ring) == self.capacity
        &&& ring_items(self.ring).len() <= self.capacity
        &&& ring_written(self.ring) == self.written
    }

    /// A well-formed queue has room for at least one entry, at most 255, and
    /// never holds more than its limit.
    pub proof fn lemma_wf_bounds(&self)
        requires
            self.wf(),
        ensures
            1 <= self.limit() <= 255,
            self@.len() <= self.limit(),
    {
    }

    /// An empty queue that holds up to `capacity` entries.
    pub fn new(capacity: u8) -> (queue: Self)
        requires
            capacity >= 1,
        ensures
            queue.wf(),
            queue@ == Seq::<MorseSign>::empty(),
            queue.limit() == capacity,
    {
        ElementQueue { ring: ring_new(capacity), capacity, written: 0 }
    }

    /// The most entries the queue holds at once.
    pub fn capacity(&self) -> (capacity: u8)
        ensures
            capacity == self.limit(),
    {
        self.capacity
    }

    /// Moves the entries into a fresh ring buffer, in order, so that the
    /// buffer's write counter starts again from the number of entries held.
    fn renew(&mut self)
        requires
            old(self).wf(),
        ensures
            final(self).wf(),
            final(self)@ == old(self)@,
            final(self).limit() == old(self).limit(),
            final(self).written <= 255,
    {
        let ghost all = ring_items(self.ring);
        let mut fresh = ring_new(self.capacity);
        let mut moved: usize = 0;
        loop
            invariant
                ring_items(fresh) + ring_items(self.ring) == all,
                all.len() <= self.capacity,
                ring_capacity(fresh) == self.capacity,
                ring_capacity(self.ring) == self.capacity,
                ring_written(fresh) == moved,
                ring_items(fresh).len() == moved,
                self.capacity == old(self).capacity,
            ensures
                ring_items(fresh) == all,
            decreases ring_items(self.ring).len(),
        {
            let ghost rest = ring_items(self.ring);
            let ghost done = ring_items(fresh);
            match ring_dequeue(&mut self.ring) {
                None => {
                    assert(done + rest == done);
                    break;
                },
                Some(sign) => {
                    ring_enqueue(&mut fresh, sign);
                    moved = moved + 1;
                    assert(done.push(sign) + rest.drop_first() == done + rest);
                },
            }
        }
        self.ring = fresh;
        self.written = moved;
    }

    /// Queues a side. A full queue drops its oldest entry first.
    pub fn enqueue(&mut self, sign: MorseSign)
        requires
            old(self).wf(),
        ensures
            final(self).wf(),
            final(self)@ == pushed(old(self)@, old(self).limit(), sign),
            final(self).limit() == old(self).limit(),
    {
        if self.written == usize::MAX {
            // One more write would overflow the ring buffer's own counter.
            self.renew();
        }
        ring_enqueue(&mut self.ring, sign);
        self.written = self.written + 1;
    }

    /// Takes the oldest entry out, if there is one.
    pub fn dequeue(&mut self) -> (oldest: Option<MorseSign>)
        requires
            old(self).wf(),
        ensures
            final(self).wf(),
            final(self).limit() == old(self).limit(),
            old(self)@.len() == 0 ==> oldest.is_none() && final(self)@ == old(self)@,
            old(self)@.len() > 0 ==> oldest == Some(old(self)@[0]),
            old(self)@.len() > 0 ==> final(self)@ == old(self)@.drop_first(),
    {
        ring_dequeue(&mut self.ring)
    }
}

} // verus!
