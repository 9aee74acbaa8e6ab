use ringbuf::{HeapConsumer, HeapProducer, HeapRb};
use vstd::prelude::*;

verus! {

/// The sequence of `n` silent samples.
pub open spec fn silence(n: nat) -> Seq<u32> {
    Seq::new(n, |i: int| 0u32)
}

/// What a queue `q` of capacity `cap` holds after offering it the samples of
/// `s` one by one: each is appended while there is room, the rest are dropped.
pub open spec fn after_push(q: Seq<u32>, cap: nat, s: Seq<u32>) -> Seq<u32> {
    let room: int = cap - q.len();
    if s.len() <= room {
        q + s
    } else {
        q + s.take(room)
    }
}

/// The samples that `n` pops on the queue `q` hand out: the queue's head, and
/// silence in place of each pop that finds it empty.
pub open spec fn popped(q: Seq<u32>, n: nat) -> Seq<u32> {
    if n <= q.len() {
        q.take(n as int)
    } else {
        q + silence((n - q.len()) as nat)
    }
}

/// What the queue `q` holds after `n` pops.
pub open spec fn after_pop(q: Seq<u32>, n: nat) -> Seq<u32> {
    if n <= q.len() {
        q.skip(n as int)
    } else {
        Seq::empty()
    }
}

/// A fixed-capacity single-producer/single-consumer FIFO of samples, built on
/// ringbuf's heap ring buffer and holding both of its halves.
#[verifier::external_body]
pub struct SampleRing {
    producer: HeapProducer<u32>,
    consumer: HeapConsumer<u32>,
}

/// The samples that the ring holds, oldest first.
pub uninterp spec fn ring_contents(r: SampleRing) -> Seq<u32>;

/// The capacity that the ring was made with.
pub uninterp spec fn ring_capacity(r: SampleRing) -> nat;

impl SampleRing {
    /// The ring is well formed: it holds no more than its capacity.
    pub open spec fn wf(self) -> bool {
        &&& ring_capacity(self) > 0
        &&& ring_contents(self).len() <= ring_capacity(self)
    }

    /// Relies on ringbuf's `HeapRb::new` (an empty buffer of `capacity`
    /// slots, panicking on zero) and `SharedRb::split` (both halves of it).
    #[verifier::external_body]
    pub(crate) fn allocate(capacity: usize) -> (r: SampleRing)
        requires
            capacity > 0,
        ensures
            ring_contents(r) == Seq::<u32>::empty(),
            ring_capacity(r) == capacity as nat,
    {
        let (producer, consumer) = HeapRb::<u32>::new(capacity).split();
        SampleRing { producer, consumer }
    }

    /// Relies on ringbuf's `Producer::push`: appends the item unless the buffer
    /// is full, in which case the buffer is left as it was and `Err` comes back.
    #[verifier::external_body]
    pub(crate) fn try_push(&mut self, sample: u32) -> (r: bool)
        ensures
            ring_capacity(*final(self)) == ring_capacity(*old(self)),
            r == (ring_contents(*old(self)).len() < ring_capacity(*old(self))),
            r ==> ring_contents(*final(self)) == ring_contents(*old(self)).push(sample),
            !r ==> ring_contents(*final(self)) == ring_contents(*old(self)),
    {
        self.producer.push(sample).is_ok()
    }

    /// Relies on ringbuf's `Consumer::pop`: removes and returns the oldest item,
    /// or `None` when the buffer is empty.
    #[verifier::external_body]
    pub(crate) fn try_pop(&mut self) -> (r: Option<u32>)
        ensures
            ring_capacity(*final(self)) == ring_capacity(*old(self)),
            ring_contents(*old(self)).len() == 0 ==> r is None && ring_contents(*final(self))
                == ring_contents(*old(self)),
            ring_contents(*old(self)).len() > 0 ==> r == Some(ring_contents(*old(self))[0])
                && ring_contents(*final(self)) == ring_contents(*old(self)).drop_first(),
    {
        self.consumer.pop()
    }

    /// An empty ring of `capacity` slots; `None` for a zero capacity.
    pub fn new(capacity: usize) -> (r: Option<SampleRing>)
        ensures
            capacity == 0 <==> r is None,
            r matches Some(ring) ==> ring.wf() && ring_capacity(ring) == capacity as nat
                && ring_contents(ring) == Seq::<u32>::empty(),
    {
        if capacity == 0 {
            None
        } else {
            Some(SampleRing::allocate(capacity))
        }
    }

    /// Appends `sample` at the tail and returns `true`, or, when the ring is
    /// full, drops it, leaves the ring unchanged and returns `false`.
    pub fn push(&mut self, sample: u32) -> (r: bool)
        requires
            old(self).wf(),
        ensures
            final(self).wf(),
            ring_capacity(*final(self)) == ring_capacity(*old(self)),
            r == (ring_contents(*old(self)).len() < ring_capacity(*old(self))),
            ring_contents(*final(self)) == after_push(
                ring_contents(*old(self)),
                ring_capacity(*old(self)),
                seq![sample],
            ),
    {
        let r = self.try_push(sample);
        proof {
            let q = ring_contents(*old(self));
            if r {
                assert(q + seq![sample] =~= q.push(sample));
            } else {
                assert(q + seq![sample].take(0) =~= q);
            }
        }
        r
    }

    /// Removes and returns the sample at the head, or `None` when empty.
    pub fn pop(&mut self) -> (r: Option<u32>)
        requires
            old(self).wf(),
        ensures
            final(self).wf(),
            ring_capacity(*final(self)) == ring_capacity(*old(self)),
            ring_contents(*final(self)) == after_pop(ring_contents(*old(self)), 1),
            ring_contents(*old(self)).len() == 0 ==> r is None,
            ring_contents(*old(self)).len() > 0 ==> r == Some(ring_contents(*old(self))[0]),
    {
        let r = self.try_pop();
        proof {
            let q = ring_contents(*old(self));
            if q.len() > 0 {
                assert(q.skip(1) =~= q.drop_first());
            }
        }
        r
    }
}

} // verus!
