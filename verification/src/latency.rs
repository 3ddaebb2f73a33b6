//! The latency-compensation ring buffer.
//!
//! A fixed-capacity first-in-first-out buffer of audio samples, pre-filled
//! with silence so a consumer draining at the playback cadence is never
//! starved during warm-up. Samples are carried in integer form (silence is
//! 0); the capture side converts. The storage is the `ringbuf` crate's
//! single-producer single-consumer ring; both halves are owned together
//! here, so the view of the contents is exact.

use vstd::prelude::*;
use ringbuf::{Consumer, Producer, RingBuffer};

verus! {

/// Latency compensator over a fixed-capacity ring of integer samples.
#[verifier::external_body]
pub struct LatencyBuffer {
    producer: Producer<i32>,
    consumer: Consumer<i32>,
}

/// The samples a compensator holds, oldest first.
pub uninterp spec fn buffer_samples(b: LatencyBuffer) -> Seq<i32>;

/// The fixed capacity a compensator was created with.
pub uninterp spec fn buffer_capacity(b: LatencyBuffer) -> nat;

impl LatencyBuffer {
    /// Relies on ringbuf's `RingBuffer::new` and `split`: a fresh ring of the
    /// given capacity holds nothing. `new` allocates one slot more than the
    /// capacity, so the capacity must leave room for it.
    #[verifier::external_body]
    fn raw_new(capacity: usize) -> (b: LatencyBuffer)
        requires
            capacity < usize::MAX,
        ensures
            buffer_samples(b) == Seq::<i32>::empty(),
            buffer_capacity(b) == capacity as nat,
    {
        let (producer, consumer) = RingBuffer::new(capacity).split();
        LatencyBuffer { producer, consumer }
    }

    /// Relies on ringbuf's `Producer::push`: appends the sample at the newest
    /// end when a slot is free, and hands it back unchanged when the ring is
    /// full.
    #[verifier::external_body]
    fn raw_push(&mut self, sample: i32) -> (r: Result<(), i32>)
        ensures
            buffer_capacity(*final(self)) == buffer_capacity(*old(self)),
            buffer_samples(*old(self)).len() < buffer_capacity(*old(self)) ==> {
                &&& r == Ok::<(), i32>(())
                &&& buffer_samples(*final(self)) == buffer_samples(*old(self)).push(sample)
            },
            buffer_samples(*old(self)).len() >= buffer_capacity(*old(self)) ==> {
                &&& r == Err::<(), i32>(sample)
                &&& buffer_samples(*final(self)) == buffer_samples(*old(self))
            },
    {
        self.producer.push(sample)
    }

    /// Relies on ringbuf's `Consumer::pop`: removes and returns the oldest
    /// sample, or returns nothing when the ring is empty.
    #[verifier::external_body]
    fn raw_pop(&mut self) -> (r: Option<i32>)
        ensures
            buffer_capacity(*final(self)) == buffer_capacity(*old(self)),
            buffer_samples(*old(self)).len() > 0 ==> {
                &&& r == Some(buffer_samples(*old(self))[0])
                &&& buffer_samples(*final(self)) == buffer_samples(*old(self)).subrange(
                    1,
                    buffer_samples(*old(self)).len() as int,
                )
            },
            buffer_samples(*old(self)).len() == 0 ==> {
                &&& r == None::<i32>
                &&& buffer_samples(*final(self)) == buffer_samples(*old(self))
            },
    {
        self.consumer.pop()
    }

    /// Relies on ringbuf's `Producer::len`: the count of samples held. Exact
    /// here because no other holder of either half exists.
    #[verifier::external_body]
    fn raw_len(&self) -> (n: usize)
        ensures
            n as nat == buffer_samples(*self).len(),
    {
        self.producer.len()
    }

    /// Relies on ringbuf's `Producer::capacity`: the fixed capacity.
    #[verifier::external_body]
    fn raw_capacity(&self) -> (n: usize)
        ensures
            n as nat == buffer_capacity(*self),
    {
        self.producer.capacity()
    }

    /// A compensator pre-filled for the given latency: capacity twice the
    /// latency sample count, the first half occupied, every occupied slot
    /// silence. The double capacity is what lets the capture cadence write
    /// on top of the pre-fill without ever hitting a full ring.
    pub fn prefilled(latency_samples: usize) -> (b: LatencyBuffer)
        requires
            latency_samples <= usize::MAX / 2,
        ensures
            buffer_capacity(b) == 2 * latency_samples,
            buffer_samples(b).len() == latency_samples,
            forall|i: int| 0 <= i < latency_samples ==> buffer_samples(b)[i] == 0i32,
    {
        let mut b = LatencyBuffer::raw_new(2 * latency_samples);
        let mut i: usize = 0;
        while i < latency_samples
            invariant
                i <= latency_samples,
                buffer_capacity(b) == 2 * latency_samples,
                buffer_samples(b).len() == i,
                forall|j: int| 0 <= j < i ==> buffer_samples(b)[j] == 0i32,
            decreases latency_samples - i,
        {
            // The ring has twice the space the pre-fill needs, so the
            // write cannot fail.
            let r = b.raw_push(0);
            proof {
                assert(r == Ok::<(), i32>(()));
            }
            i = i + 1;
        }
        b
    }

    /// How many samples the compensator currently holds.
    pub fn occupied(&self) -> (n: usize)
        ensures
            n == buffer_samples(*self).len(),
    {
        self.raw_len()
    }

    /// The fixed capacity of the compensator.
    pub fn capacity(&self) -> (n: usize)
        ensures
            n == buffer_capacity(*self),
    {
        self.raw_capacity()
    }

    /// Write one sample at the newest end. Succeeds exactly when a slot is
    /// free; a full ring hands the sample back and is a design-invariant
    /// violation in this system, never an expected runtime condition.
    pub fn push_sample(&mut self, sample: i32) -> (r: Result<(), i32>)
        ensures
            buffer_capacity(*final(self)) == buffer_capacity(*old(self)),
            buffer_samples(*old(self)).len() < buffer_capacity(*old(self)) ==> {
                &&& r == Ok::<(), i32>(())
                &&& buffer_samples(*final(self)) == buffer_samples(*old(self)).push(sample)
            },
            buffer_samples(*old(self)).len() >= buffer_capacity(*old(self)) ==> {
                &&& r == Err::<(), i32>(sample)
                &&& buffer_samples(*final(self)) == buffer_samples(*old(self))
            },
    {
        self.raw_push(sample)
    }

    /// Drain the compensator: every held sample, oldest first, leaving it
    /// empty.
    pub fn drain_all(&mut self) -> (samples: Vec<i32>)
        ensures
            samples@ == buffer_samples(*old(self)),
            buffer_samples(*final(self)).len() == 0,
            buffer_capacity(*final(self)) == buffer_capacity(*old(self)),
    {
        let total = self.occupied();
        let mut samples: Vec<i32> = Vec::new();
        let mut i: usize = 0;
        while i < total
            invariant
                i <= total,
                total == buffer_samples(*old(self)).len(),
                samples@.len() == i,
                buffer_capacity(*self) == buffer_capacity(*old(self)),
                buffer_samples(*self).len() == total - i,
                samples@ + buffer_samples(*self) == buffer_samples(*old(self)),
            decreases total - i,
        {
            match self.raw_pop() {
                Some(s) => {
                    samples.push(s);
                    proof {
                        assert(samples@ + buffer_samples(*self) =~= buffer_samples(*old(self)));
                    }
                },
                None => {
                    proof {
                        assert(false);
                    }
                },
            }
            i = i + 1;
        }
        proof {
            assert(samples@ =~= buffer_samples(*old(self)));
        }
        samples
    }
}

} // verus!
