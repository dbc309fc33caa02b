//! The sample queue between the console and the host's audio callback: a
//! bounded ring buffer with one producer and one consumer, each on its own
//! thread, and the callback that drains it.
//!
//! A sample travels as a mixer code: the two indices into the nonlinear
//! mixer tables, which the host turns into an amplitude.

use ringbuf::{Consumer, Producer, RingBuffer};
use vstd::prelude::*;

verus! {

/// `ringbuf::RingBuffer`, a queue that has not been split into its ends
/// yet. Nothing of its inside is known here.
#[verifier::external_type_specification]
#[verifier::external_body]
#[verifier::reject_recursive_types(T)]
pub struct ExRingBuffer<T>(RingBuffer<T>);

/// `ringbuf::Producer`, the end of a queue that adds to it.
#[verifier::external_type_specification]
#[verifier::external_body]
#[verifier::reject_recursive_types(T)]
pub struct ExProducer<T>(Producer<T>);

/// `ringbuf::Consumer`, the end of a queue that takes from it.
#[verifier::external_type_specification]
#[verifier::external_body]
#[verifier::reject_recursive_types(T)]
pub struct ExConsumer<T>(Consumer<T>);

/// What the queue held, oldest sample first, when its producing end last
/// touched it. The consumer may have taken samples from the front since.
pub uninterp spec fn produced(p: Producer<u32>) -> Seq<u32>;

/// What the queue held, oldest sample first, when its consuming end last
/// touched it. The producer may have added samples at the back since.
pub uninterp spec fn pending(c: Consumer<u32>) -> Seq<u32>;

/// How many samples the queue of this producing end can hold.
pub uninterp spec fn room(p: Producer<u32>) -> nat;

/// What a queue holds that has not been split into its ends yet.
pub uninterp spec fn held(rb: RingBuffer<u32>) -> Seq<u32>;

/// How many samples a queue can hold that has not been split yet.
pub uninterp spec fn capacity_of(rb: RingBuffer<u32>) -> nat;

/// The capacity of the queue for a host callback that asks for
/// `buffer_len` samples at a time: four callbacks' worth, and at least 2048.
pub open spec fn queue_capacity(buffer_len: u16) -> nat {
    if 4 * buffer_len > 2048 {
        (4 * buffer_len) as nat
    } else {
        2048
    }
}

/// Whether `a` is the start of `b`.
pub open spec fn is_prefix(a: Seq<u32>, b: Seq<u32>) -> bool {
    a.len() <= b.len() && b.subrange(0, a.len() as int) == a
}

/// Whether `a` is the end of `b`.
pub open spec fn is_suffix(a: Seq<u32>, b: Seq<u32>) -> bool {
    a.len() <= b.len() && b.subrange(b.len() - a.len(), b.len() as int) == a
}

/// `RingBuffer::new`: an empty queue of the given capacity. The queue
/// allocates one slot more than its capacity.
#[verifier::external_body]
fn new_queue(capacity: usize) -> (rb: RingBuffer<u32>)
    requires
        capacity < usize::MAX,
    ensures
        held(rb).len() == 0,
        capacity_of(rb) == capacity,
{
    RingBuffer::<u32>::new(capacity)
}

/// `RingBuffer::split`: the two ends of the queue, which holds what it
/// held before.
#[verifier::external_body]
fn split_queue(rb: RingBuffer<u32>) -> (ends: (Producer<u32>, Consumer<u32>))
    ensures
        produced(ends.0) == held(rb),
        pending(ends.1) == held(rb),
        room(ends.0) == capacity_of(rb),
{
    rb.split()
}

/// `Producer::push`: the sample goes to the back of the queue if there is
/// room, and is handed back if there is none. Samples already in the queue
/// keep their order; the consumer may have taken some from the front. The
/// queue never holds more than its capacity.
#[verifier::external_body]
pub(crate) fn push_sample(p: &mut Producer<u32>, sample: u32) -> (accepted: bool)
    ensures
        room(*final(p)) == room(*old(p)),
        produced(*final(p)).len() <= room(*final(p)),
        accepted ==> produced(*final(p)).len() > 0 && produced(*final(p)).last() == sample
            && is_suffix(produced(*final(p)).drop_last(), produced(*old(p))),
        !accepted ==> is_suffix(produced(*final(p)), produced(*old(p))) && produced(
            *final(p),
        ).len() == room(*final(p)),
{
    p.push(sample).is_ok()
}

/// `Consumer::pop`: the oldest sample of the queue, or `None` for an empty
/// queue. What was in the queue leaves it in order; the producer may have
/// added samples at the back.
#[verifier::external_body]
pub(crate) fn pop_sample(c: &mut Consumer<u32>) -> (r: Option<u32>)
    ensures
        r is None ==> pending(*old(c)).len() == 0 && pending(*final(c)).len() == 0,
        r matches Some(v) ==> is_prefix(pending(*old(c)), seq![v] + pending(*final(c))),
{
    c.pop()
}

/// Makes the queue for a host callback that asks for `buffer_len` samples
/// at a time.
pub fn sample_queue(buffer_len: u16) -> (ends: (Producer<u32>, Consumer<u32>))
    ensures
        produced(ends.0).len() == 0,
        pending(ends.1).len() == 0,
        room(ends.0) == queue_capacity(buffer_len),
        room(ends.0) >= 4 * buffer_len,
{
    let wanted: usize = 4 * (buffer_len as usize);
    let capacity: usize = if wanted > 2048 {
        wanted
    } else {
        2048
    };
    split_queue(new_queue(capacity))
}

/// What the callback plays next: the sample taken from the queue, or, where
/// the queue had none, the sample before once more.
pub open spec fn next_sample(last: u32, taken: Option<u32>) -> u32 {
    match taken {
        Some(v) => v,
        None => last,
    }
}

/// Computes `next_sample`.
pub fn choose_sample(last: u32, taken: Option<u32>) -> (sample: u32)
    ensures
        sample == next_sample(last, taken),
{
    match taken {
        Some(v) => v,
        None => last,
    }
}

/// The consuming end of the sample queue, which the host's audio callback owns.
pub struct ApuOut {
    pub rb: Consumer<u32>,
}

/// The mixer code of silence.
pub const SILENCE: u32 = 0;

impl ApuOut {
    /// The callback's side of the queue whose consuming end is `rb`.
    pub fn new(rb: Consumer<u32>) -> (out: ApuOut)
        ensures
            out.rb == rb,
    {
        ApuOut { rb }
    }

    /// Fills the host's buffer. Every slot gets the next sample of the
    /// queue; a slot for which the queue has none repeats the slot before
    /// (the first slot: silence), which avoids the click of a gap.
    ///
    /// The samples that were in the queue at the call come out first and in
    /// order. If they fill the buffer, the rest stays queued in order.
    pub fn callback(&mut self, out: &mut Vec<u32>)
        ensures
            final(out).len() == old(out).len(),
            forall|i: int|
                0 <= i < final(out).len() && i < pending(old(self).rb).len() ==> final(out)@[i]
                    == pending(old(self).rb)[i],
            final(out).len() <= pending(old(self).rb).len() ==> is_prefix(
                pending(old(self).rb).skip(final(out).len() as int),
                pending(final(self).rb),
            ),
    {
        let ghost queued = pending(self.rb);
        let mut sample: u32 = SILENCE;
        let mut i: usize = 0;
        while i < out.len()
            invariant
                i <= out.len(),
                out.len() == old(out).len(),
                forall|j: int| 0 <= j < i && j < queued.len() ==> out@[j] == queued[j],
                i <= queued.len() ==> is_prefix(queued.skip(i as int), pending(self.rb)),
            decreases out.len() - i,
        {
            let ghost before = pending(self.rb);
            let taken = pop_sample(&mut self.rb);
            sample = choose_sample(sample, taken);
            out[i] = sample;
            proof {
                if i < queued.len() {
                    assert(before.len() > 0);
                    assert(queued.skip(i as int)[0] == queued[i as int]);
                    assert(before.subrange(0, queued.skip(i as int).len() as int)[0] == before[0]);
                    let v = taken->Some_0;
                    let after = seq![v] + pending(self.rb);
                    assert(after.subrange(0, before.len() as int)[0] == after[0]);
                    assert(v == queued[i as int]);
                    assert(is_prefix(queued.skip(i + 1), pending(self.rb))) by {
                        let rest = queued.skip(i + 1);
                        assert(rest.len() <= pending(self.rb).len());
                        assert forall|k: int| 0 <= k < rest.len() implies pending(self.rb)[k]
                            == rest[k] by {
                            assert(queued.skip(i as int)[k + 1] == rest[k]);
                            assert(before.subrange(0, queued.skip(i as int).len() as int)[k + 1]
                                == before[k + 1]);
                            assert(after.subrange(0, before.len() as int)[k + 1] == after[k + 1]);
                        }
                        assert(pending(self.rb).subrange(0, rest.len() as int) =~= rest);
                    }
                }
            }
            i = i + 1;
        }
    }
}

} // verus!
