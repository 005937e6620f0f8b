//! Fixed-capacity FIFO of audio samples.
//!
//! A sample travels through the queue as the 32 bits of its IEEE-754
//! encoding; the queue never does arithmetic on it. Silence is the all-zero
//! pattern.

use ringbuf::HeapRb;
use ringbuf::Rb;
use vstd::prelude::*;

verus! {

/// One audio sample, as the bit pattern of a single-precision number.
pub type Sample = u32;

/// The sample that encodes zero amplitude.
pub const SILENCE: Sample = 0;

/// Largest capacity a ring may be created with: the storage of that many
/// samples still fits the address space of a 32-bit target.
pub const MAX_CAPACITY: usize = 0x1FFF_FFFF;

/// Storage of the queue: a heap-allocated ring of the `ringbuf` crate, used
/// without splitting it into its two ends. Opaque to the verifier; what it
/// holds is named by [`ring_contents`] and [`ring_capacity`].
#[verifier::external_body]
pub struct SampleRing {
    ring: HeapRb<Sample>,
}

/// The samples held by a ring, oldest first.
pub uninterp spec fn ring_contents(ring: SampleRing) -> Seq<Sample>;

/// The number of slots a ring was created with.
pub uninterp spec fn ring_capacity(ring: SampleRing) -> nat;

/// `HeapRb::new`: an empty ring with `capacity` slots. The outside function
/// panics on a capacity of zero and when the allocation fails, hence the
/// bounds.
#[verifier::external_body]
fn ring_new(capacity: usize) -> (ring: SampleRing)
    requires
        0 < capacity <= MAX_CAPACITY,
    ensures
        ring_contents(ring) == Seq::<Sample>::empty(),
        ring_capacity(ring) == capacity,
{
    SampleRing { ring: HeapRb::new(capacity) }
}

/// `Rb::capacity`: the number of slots, constant over the ring's life.
#[verifier::external_body]
fn ring_slots(ring: &SampleRing) -> (slots: usize)
    ensures
        slots == ring_capacity(*ring),
{
    ring.ring.capacity()
}

/// `Rb::len`: the number of samples stored.
#[verifier::external_body]
fn ring_len(ring: &SampleRing) -> (len: usize)
    ensures
        len == ring_contents(*ring).len(),
{
    ring.ring.len()
}

/// `Rb::push`: appends `sample` behind the stored ones when a slot is free,
/// leaves the ring as it is otherwise, and reports which happened.
#[verifier::external_body]
fn ring_push(ring: &mut SampleRing, sample: Sample) -> (accepted: bool)
    ensures
        ring_capacity(*final(ring)) == ring_capacity(*old(ring)),
        accepted == (ring_contents(*old(ring)).len() < ring_capacity(*old(ring))),
        accepted ==> ring_contents(*final(ring)) == ring_contents(*old(ring)).push(sample),
        !accepted ==> ring_contents(*final(ring)) == ring_contents(*old(ring)),
    no_unwind
{
    ring.ring.push(sample).is_ok()
}

/// `Rb::push_iter`: appends the samples of `samples` in order, one per free
/// slot, until the slots or the samples run out.
#[verifier::external_body]
fn ring_push_iter(ring: &mut SampleRing, samples: &[Sample])
    requires
        ring_contents(*old(ring)).len() <= ring_capacity(*old(ring)),
    ensures
        ring_capacity(*final(ring)) == ring_capacity(*old(ring)),
        ring_contents(*final(ring)) == ring_contents(*old(ring)) + samples@.take(
            fitting(ring_contents(*old(ring)).len(), ring_capacity(*old(ring)), samples@.len()) as int,
        ),
    no_unwind
{
    ring.ring.push_iter(&mut samples.iter().copied())
}

/// `Rb::pop`: removes and returns the oldest sample, if there is one.
#[verifier::external_body]
fn ring_pop(ring: &mut SampleRing) -> (sample: Option<Sample>)
    ensures
        ring_capacity(*final(ring)) == ring_capacity(*old(ring)),
        sample == front(ring_contents(*old(ring))),
        ring_contents(*final(ring)) == without_front(ring_contents(*old(ring))),
    no_unwind
{
    ring.ring.pop()
}

/// How many of `offered` samples a queue of `capacity` slots takes when it
/// already holds `len`.
pub open spec fn fitting(len: nat, capacity: nat, offered: nat) -> nat {
    if len >= capacity {
        0
    } else if offered <= capacity - len {
        offered
    } else {
        (capacity - len) as nat
    }
}

/// The oldest sample of a queue, if it has one.
pub open spec fn front(queue: Seq<Sample>) -> Option<Sample> {
    if queue.len() > 0 {
        Some(queue[0])
    } else {
        None
    }
}

/// A queue after its oldest sample has left it; an empty queue stays empty.
pub open spec fn without_front(queue: Seq<Sample>) -> Seq<Sample> {
    if queue.len() > 0 {
        queue.skip(1)
    } else {
        queue
    }
}

/// A queue after `sample` was offered to it: appended when a slot is free,
/// dropped otherwise.
pub open spec fn offered(queue: Seq<Sample>, capacity: nat, sample: Sample) -> Seq<Sample> {
    if queue.len() < capacity {
        queue.push(sample)
    } else {
        queue
    }
}

/// `count` samples of silence.
pub open spec fn silence(count: nat) -> Seq<Sample> {
    Seq::new(count, |i: int| SILENCE)
}

/// A counter after `events` more were counted; it stops at the largest
/// value it can hold.
pub open spec fn counted(counter: u64, events: nat) -> u64 {
    if counter + events <= u64::MAX {
        (counter + events) as u64
    } else {
        u64::MAX
    }
}

/// How many of `wanted` samples a queue holding `len` can hand out.
pub open spec fn available(len: nat, wanted: nat) -> nat {
    if wanted <= len {
        wanted
    } else {
        len
    }
}

/// Bounded queue of samples between the capture and the render side.
///
/// Its view is the sequence of stored samples, oldest first. No operation
/// waits: a push onto a full queue drops the sample and a pop from an empty
/// one reports that there is none. Both are expected under real-time load,
/// so they are counted rather than raised: every dropped sample is one
/// overrun, every pop that found the queue empty one underrun.
pub struct RingBuffer {
    ring: SampleRing,
    overruns: u64,
    underruns: u64,
}

impl View for RingBuffer {
    type V = Seq<Sample>;

    closed spec fn view(&self) -> Seq<Sample> {
        ring_contents(self.ring)
    }
}

impl RingBuffer {
    /// The number of slots the queue was created with.
    pub closed spec fn spec_capacity(&self) -> nat {
        ring_capacity(self.ring)
    }

    /// The samples dropped so far because the queue was full.
    pub closed spec fn spec_overruns(&self) -> u64 {
        self.overruns
    }

    /// The pops so far that found the queue empty.
    pub closed spec fn spec_underruns(&self) -> u64 {
        self.underruns
    }

    #[verifier::type_invariant]
    spec fn inv(&self) -> bool {
        &&& 0 < ring_capacity(self.ring) <= MAX_CAPACITY
        &&& ring_contents(self.ring).len() <= ring_capacity(self.ring)
    }

    /// An empty queue with `capacity` slots and both counters at zero.
    pub fn new(capacity: usize) -> (buffer: Self)
        requires
            0 < capacity <= MAX_CAPACITY,
        ensures
            buffer@ == Seq::<Sample>::empty(),
            buffer.spec_capacity() == capacity,
            buffer.spec_overruns() == 0,
            buffer.spec_underruns() == 0,
    {
        RingBuffer { ring: ring_new(capacity), overruns: 0, underruns: 0 }
    }

    /// The number of slots.
    pub fn capacity(&self) -> (slots: usize)
        ensures
            slots == self.spec_capacity(),
            0 < slots <= MAX_CAPACITY,
    {
        proof {
            use_type_invariant(self);
        }
        ring_slots(&self.ring)
    }

    /// The number of samples stored; never more than the capacity.
    pub fn len(&self) -> (len: usize)
        ensures
            len == self@.len(),
            len <= self.spec_capacity(),
    {
        proof {
            use_type_invariant(self);
        }
        ring_len(&self.ring)
    }

    /// The samples dropped so far because the queue was full.
    pub fn overruns(&self) -> (count: u64)
        ensures
            count == self.spec_overruns(),
    {
        self.overruns
    }

    /// The pops so far that found the queue empty.
    pub fn underruns(&self) -> (count: u64)
        ensures
            count == self.spec_underruns(),
    {
        self.underruns
    }

    /// Offers one sample. Returns `false`, with the sample dropped and
    /// counted as an overrun, exactly when the queue is full.
    pub fn push(&mut self, sample: Sample) -> (accepted: bool)
        ensures
            final(self).spec_capacity() == old(self).spec_capacity(),
            accepted == (old(self)@.len() < old(self).spec_capacity()),
            final(self)@ == offered(old(self)@, old(self).spec_capacity(), sample),
            final(self)@.len() <= final(self).spec_capacity(),
            final(self).spec_overruns() == counted(
                old(self).spec_overruns(),
                if accepted {
                    0
                } else {
                    1
                },
            ),
            final(self).spec_underruns() == old(self).spec_underruns(),
    {
        proof {
            use_type_invariant(&*self);
        }
        let accepted = ring_push(&mut self.ring, sample);
        if !accepted && self.overruns < u64::MAX {
            self.overruns = self.overruns + 1;
        }
        accepted
    }

    /// Offers a block of samples and stores as many of them as fit, from
    /// the front of the block. Returns how many were stored; a count below
    /// the block's length tells the caller that the rest was dropped. Each
    /// dropped sample is counted as an overrun.
    pub fn push_batch(&mut self, samples: &[Sample]) -> (written: usize)
        ensures
            final(self).spec_capacity() == old(self).spec_capacity(),
            written == fitting(old(self)@.len(), old(self).spec_capacity(), samples@.len()),
            final(self)@ == old(self)@ + samples@.take(written as int),
            final(self)@.len() <= final(self).spec_capacity(),
            final(self).spec_overruns() == counted(
                old(self).spec_overruns(),
                (samples@.len() - written) as nat,
            ),
            final(self).spec_underruns() == old(self).spec_underruns(),
    {
        proof {
            use_type_invariant(&*self);
        }
        let before = ring_len(&self.ring);
        ring_push_iter(&mut self.ring, samples);
        let after = ring_len(&self.ring);
        let written = after - before;
        let dropped = (samples.len() - written) as u64;
        if dropped <= u64::MAX - self.overruns {
            self.overruns = self.overruns + dropped;
        } else {
            self.overruns = u64::MAX;
        }
        written
    }

    /// Appends up to `count` samples of silence, as many as fit, and
    /// returns how many. Silence that does not fit is no overrun.
    pub fn fill_silence(&mut self, count: usize) -> (written: usize)
        ensures
            final(self).spec_capacity() == old(self).spec_capacity(),
            written == fitting(old(self)@.len(), old(self).spec_capacity(), count as nat),
            final(self)@ == old(self)@ + silence(written as nat),
            final(self)@.len() <= final(self).spec_capacity(),
            final(self).spec_overruns() == old(self).spec_overruns(),
            final(self).spec_underruns() == old(self).spec_underruns(),
    {
        proof {
            use_type_invariant(&*self);
        }
        let ghost start = self@;
        let free = ring_slots(&self.ring) - ring_len(&self.ring);
        let target = if count <= free {
            count
        } else {
            free
        };
        let mut written: usize = 0;
        while written < target
            invariant
                written <= target,
                start.len() + target <= ring_capacity(self.ring) <= MAX_CAPACITY,
                ring_capacity(self.ring) == ring_capacity(old(self).ring),
                ring_contents(self.ring) == start + silence(written as nat),
                self.overruns == old(self).overruns,
                self.underruns == old(self).underruns,
            decreases target - written,
        {
            let accepted = ring_push(&mut self.ring, SILENCE);
            assert(accepted);
            assert(start + silence((written + 1) as nat) =~= (start + silence(written as nat)).push(
                SILENCE,
            ));
            written = written + 1;
        }
        written
    }

    /// Takes the oldest sample out of the queue. `None`, with the queue
    /// unchanged and one underrun counted, exactly when it is empty.
    pub fn pop(&mut self) -> (sample: Option<Sample>)
        ensures
            final(self).spec_capacity() == old(self).spec_capacity(),
            sample == front(old(self)@),
            final(self)@ == without_front(old(self)@),
            final(self)@.len() <= final(self).spec_capacity(),
            final(self).spec_overruns() == old(self).spec_overruns(),
            final(self).spec_underruns() == counted(
                old(self).spec_underruns(),
                if old(self)@.len() == 0 {
                    1
                } else {
                    0
                },
            ),
    {
        proof {
            use_type_invariant(&*self);
        }
        let sample = ring_pop(&mut self.ring);
        if sample.is_none() && self.underruns < u64::MAX {
            self.underruns = self.underruns + 1;
        }
        sample
    }

    /// Takes the oldest sample out of the queue, or silence in its place
    /// when the queue is empty; the substitution is counted as an underrun.
    pub fn pop_or_silence(&mut self) -> (sample: Sample)
        ensures
            final(self).spec_capacity() == old(self).spec_capacity(),
            sample == if old(self)@.len() == 0 {
                SILENCE
            } else {
                old(self)@[0]
            },
            final(self)@ == without_front(old(self)@),
            final(self)@.len() <= final(self).spec_capacity(),
            final(self).spec_overruns() == old(self).spec_overruns(),
            final(self).spec_underruns() == counted(
                old(self).spec_underruns(),
                if old(self)@.len() == 0 {
                    1
                } else {
                    0
                },
            ),
    {
        match self.pop() {
            Some(sample) => sample,
            None => SILENCE,
        }
    }

    /// Fills every slot of `out` from the queue, oldest sample first, and
    /// with silence once the queue has run empty. Returns the number of
    /// slots that got silence in place of a sample; each is counted as an
    /// underrun.
    pub fn render(&mut self, out: &mut Vec<Sample>) -> (missing: usize)
        ensures
            final(self).spec_capacity() == old(self).spec_capacity(),
            final(out)@.len() == old(out)@.len(),
            missing == old(out)@.len() - available(old(self)@.len(), old(out)@.len()),
            final(out)@ == old(self)@.take(available(old(self)@.len(), old(out)@.len()) as int)
                + silence(missing as nat),
            final(self)@ == old(self)@.skip(available(old(self)@.len(), old(out)@.len()) as int),
            final(self)@.len() <= final(self).spec_capacity(),
            final(self).spec_overruns() == old(self).spec_overruns(),
            final(self).spec_underruns() == counted(old(self).spec_underruns(), missing as nat),
    {
        proof {
            use_type_invariant(&*self);
        }
        let ghost start = self@;
        let ghost misses = self.underruns;
        let wanted = out.len();
        let mut missing: usize = 0;
        let mut i: usize = 0;
        while i < wanted
            invariant
                i <= wanted,
                out@.len() == wanted,
                missing == i - available(start.len(), i as nat),
                ring_capacity(self.ring) == ring_capacity(old(self).ring),
                0 < ring_capacity(self.ring) <= MAX_CAPACITY,
                start.len() <= ring_capacity(self.ring),
                ring_contents(self.ring) == start.skip(available(start.len(), i as nat) as int),
                out@.take(i as int) == start.take(available(start.len(), i as nat) as int)
                    + silence(missing as nat),
                self.overruns == old(self).overruns,
                self.underruns == counted(misses, missing as nat),
            decreases wanted - i,
        {
            let ghost filled = out@.take(i as int);
            let sample = ring_pop(&mut self.ring);
            match sample {
                Some(value) => {
                    out[i] = value;
                    assert(out@.take(i + 1) =~= filled.push(value));
                    assert(start.take(i + 1) =~= start.take(i as int).push(start[i as int]));
                    assert(start.skip(i as int).skip(1) =~= start.skip(i + 1));
                },
                None => {
                    out[i] = SILENCE;
                    if self.underruns < u64::MAX {
                        self.underruns = self.underruns + 1;
                    }
                    missing = missing + 1;
                    assert(out@.take(i + 1) =~= filled.push(SILENCE));
                    assert(silence(missing as nat) =~= silence((missing - 1) as nat).push(SILENCE));
                    assert(start.skip(start.len() as int) =~= Seq::<Sample>::empty());
                },
            }
            i = i + 1;
        }
        assert(out@.take(wanted as int) =~= out@);
        missing
    }
}

/// One operation on a queue, as the laws below speak of it.
pub enum QueueOp {
    /// Offer one sample.
    Push(Sample),
    /// Offer a block of samples.
    PushBatch(Seq<Sample>),
    /// Take the oldest sample out.
    Pop,
}

/// The contents of a queue of `capacity` slots after `op`, as
/// [`RingBuffer::push`], [`RingBuffer::push_batch`] and
/// [`RingBuffer::pop`] leave them.
pub open spec fn after_op(queue: Seq<Sample>, capacity: nat, op: QueueOp) -> Seq<Sample> {
    match op {
        QueueOp::Push(sample) => offered(queue, capacity, sample),
        QueueOp::PushBatch(samples) => queue + samples.take(
            fitting(queue.len(), capacity, samples.len()) as int,
        ),
        QueueOp::Pop => without_front(queue),
    }
}

/// The contents of a queue after the operations of `ops`, first to last.
pub open spec fn after_ops(queue: Seq<Sample>, capacity: nat, ops: Seq<QueueOp>) -> Seq<Sample>
    decreases ops.len(),
{
    if ops.len() == 0 {
        queue
    } else {
        after_op(after_ops(queue, capacity, ops.drop_last()), capacity, ops.last())
    }
}

/// No operation takes a queue above its capacity.
pub proof fn lemma_op_keeps_capacity(queue: Seq<Sample>, capacity: nat, op: QueueOp)
    requires
        queue.len() <= capacity,
    ensures
        after_op(queue, capacity, op).len() <= capacity,
{
}

/// Whatever is pushed and popped, in whatever order, the queue never
/// holds more samples than its capacity: not at the end and not after any
/// operation on the way.
pub proof fn lemma_capacity_never_exceeded(queue: Seq<Sample>, capacity: nat, ops: Seq<QueueOp>)
    requires
        queue.len() <= capacity,
    ensures
        forall|done: int|
            0 <= done <= ops.len() ==> (#[trigger] after_ops(queue, capacity, ops.take(done))).len()
                <= capacity,
    decreases ops.len(),
{
    assert forall|done: int| 0 <= done <= ops.len() implies (#[trigger] after_ops(
        queue,
        capacity,
        ops.take(done),
    )).len() <= capacity by {
        if done == 0 {
            assert(ops.take(0).len() == 0);
        } else if done < ops.len() {
            lemma_capacity_never_exceeded(queue, capacity, ops.drop_last());
            assert(ops.drop_last().take(done) =~= ops.take(done));
        } else {
            lemma_capacity_never_exceeded(queue, capacity, ops.drop_last());
            let shorter = ops.drop_last();
            assert(shorter.take(shorter.len() as int) =~= shorter);
            assert(ops.take(done) =~= ops);
            lemma_op_keeps_capacity(after_ops(queue, capacity, shorter), capacity, ops.last());
        }
    }
}

/// The queue is first in, first out: what was pushed into an empty queue
/// and fitted comes out again in the order it went in.
pub proof fn lemma_first_in_first_out(samples: Seq<Sample>, capacity: nat, taken: int)
    requires
        samples.len() <= capacity,
        0 <= taken < samples.len(),
    ensures
        ({
            let filled = after_op(Seq::<Sample>::empty(), capacity, QueueOp::PushBatch(samples));
            let drained = after_ops(filled, capacity, Seq::new(taken as nat, |i: int| QueueOp::Pop));
            &&& filled == samples
            &&& drained == samples.skip(taken)
            &&& front(drained) == Some(samples[taken])
        }),
    decreases taken,
{
    let filled = after_op(Seq::<Sample>::empty(), capacity, QueueOp::PushBatch(samples));
    assert(filled =~= samples);
    let pops = Seq::new(taken as nat, |i: int| QueueOp::Pop);
    if taken == 0 {
        assert(samples.skip(0) =~= samples);
    } else {
        lemma_first_in_first_out(samples, capacity, taken - 1);
        let fewer = Seq::new((taken - 1) as nat, |i: int| QueueOp::Pop);
        assert(pops.drop_last() =~= fewer);
        assert(samples.skip(taken - 1).skip(1) =~= samples.skip(taken));
    }
}

} // verus!
