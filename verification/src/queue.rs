//! Bounded FIFO sample queue with an oldest-first overflow policy.
//!
//! The capture thread appends batches at the tail; the stream adapter pops
//! single samples from the head. The queue never blocks the producer: once
//! the hard cap is exceeded, the oldest samples are evicted first.

use std::collections::VecDeque;
use vstd::prelude::*;

verus! {

/// Hard cap on how many samples the queue may hold (128Ki samples, about
/// 128KB of 32-bit audio).
pub const MAX_QUEUE_SAMPLES: usize = 131072;

/// How many of the oldest samples are evicted when `pushed` new samples
/// arrive while `len` samples are already queued.
pub open spec fn overflow_dropped(len: nat, pushed: nat) -> nat {
    if len + pushed > MAX_QUEUE_SAMPLES {
        (len + pushed - MAX_QUEUE_SAMPLES) as nat
    } else {
        0
    }
}

/// The queue contents after appending `pushed` to `q` and evicting the
/// oldest samples beyond the cap.
pub open spec fn queue_after_push(q: Seq<u32>, pushed: Seq<u32>) -> Seq<u32> {
    (q + pushed).skip(overflow_dropped(q.len(), pushed.len()) as int)
}

/// Bounded FIFO queue of samples. A sample is the 32-bit little-endian word
/// read from the capture connection; interpreting the word as a float is
/// left to the unverified shell around the crate.
pub struct SampleQueue {
    buf: VecDeque<u32>,
}

impl View for SampleQueue {
    type V = Seq<u32>;

    closed spec fn view(&self) -> Seq<u32> {
        self.buf@
    }
}

impl SampleQueue {
    #[verifier::type_invariant]
    spec fn bounded(self) -> bool {
        self.buf@.len() <= MAX_QUEUE_SAMPLES
    }

    /// An empty queue.
    pub fn new() -> (q: Self)
        ensures
            q@ == Seq::<u32>::empty(),
    {
        SampleQueue { buf: VecDeque::new() }
    }

    /// Number of queued samples.
    pub fn len(&self) -> (n: usize)
        ensures
            n == self@.len(),
    {
        self.buf.len()
    }

    /// Pop the oldest sample, if any.
    pub fn pop_front(&mut self) -> (r: Option<u32>)
        ensures
            old(self)@.len() == 0 ==> r is None && final(self)@ == old(self)@,
            old(self)@.len() > 0 ==> r == Some(old(self)@[0]) && final(self)@ == old(
                self,
            )@.drop_first(),
    {
        proof {
            use_type_invariant(&*self);
        }
        let mut buf = VecDeque::new();
        core::mem::swap(&mut buf, &mut self.buf);
        let r = buf.pop_front();
        self.buf = buf;
        r
    }

    /// Append `samples` in production order, then evict the oldest samples
    /// until the queue fits the cap again; returns how many were evicted.
    pub fn push_batch(&mut self, samples: &Vec<u32>) -> (dropped: usize)
        ensures
            final(self)@ == queue_after_push(old(self)@, samples@),
            dropped == overflow_dropped(old(self)@.len(), samples@.len()),
            final(self)@.len() <= MAX_QUEUE_SAMPLES,
    {
        proof {
            use_type_invariant(&*self);
        }
        let ghost pre = self@;
        let mut buf = VecDeque::new();
        core::mem::swap(&mut buf, &mut self.buf);

        let mut i: usize = 0;
        proof {
            assert(pre + samples@.take(0) =~= pre);
        }
        while i < samples.len()
            invariant
                i <= samples@.len(),
                buf@ == pre + samples@.take(i as int),
            decreases samples@.len() - i,
        {
            let ghost before = buf@;
            buf.push_back(samples[i]);
            proof {
                assert(before.push(samples@[i as int]) =~= pre + samples@.take(i as int + 1));
            }
            i += 1;
        }
        let ghost full = pre + samples@;
        proof {
            assert(samples@.take(samples@.len() as int) =~= samples@);
        }

        let mut dropped: usize = 0;
        proof {
            assert(full.skip(0) =~= full);
        }
        while buf.len() > MAX_QUEUE_SAMPLES
            invariant
                pre.len() <= MAX_QUEUE_SAMPLES,
                samples@.len() <= usize::MAX,
                full == pre + samples@,
                buf@ == full.skip(dropped as int),
                dropped <= overflow_dropped(pre.len(), samples@.len()),
            decreases buf@.len(),
        {
            buf.pop_front();
            proof {
                assert(full.skip(dropped as int).drop_first() =~= full.skip(dropped as int + 1));
                assert(dropped < overflow_dropped(pre.len(), samples@.len()));
                assert(overflow_dropped(pre.len(), samples@.len()) <= samples@.len());
            }
            dropped += 1;
        }
        self.buf = buf;
        dropped
    }
}

/// After any push the queue holds a contiguous suffix of the production
/// sequence: every surviving sample stands in production order, and only the
/// oldest `overflow_dropped` samples are missing.
pub proof fn lemma_push_preserves_production_order(q: Seq<u32>, pushed: Seq<u32>)
    requires
        q.len() <= MAX_QUEUE_SAMPLES,
    ensures
        queue_after_push(q, pushed).len() == q.len() + pushed.len() - overflow_dropped(
            q.len(),
            pushed.len(),
        ),
        forall|i: int|
            0 <= i < queue_after_push(q, pushed).len() ==> queue_after_push(q, pushed)[i] == (q
                + pushed)[i + overflow_dropped(q.len(), pushed.len())],
{
}

/// The queue contents after a whole sequence of pushes onto an empty queue,
/// oldest batch first.
pub open spec fn queue_after_pushes(batches: Seq<Seq<u32>>) -> Seq<u32>
    decreases batches.len(),
{
    if batches.len() == 0 {
        Seq::empty()
    } else {
        queue_after_push(queue_after_pushes(batches.drop_last()), batches.last())
    }
}

/// Everything produced by a sequence of pushes, in production order.
pub open spec fn produced(batches: Seq<Seq<u32>>) -> Seq<u32>
    decreases batches.len(),
{
    if batches.len() == 0 {
        Seq::empty()
    } else {
        produced(batches.drop_last()) + batches.last()
    }
}

/// After any sequence of pushes the queue is exactly a suffix of the
/// production sequence: the consumer observes samples in the order
/// produced, and only the oldest — the overflow-evicted — samples are
/// missing.
pub proof fn lemma_pushes_preserve_production_order(batches: Seq<Seq<u32>>)
    ensures
        queue_after_pushes(batches).len() <= produced(batches).len(),
        queue_after_pushes(batches) == produced(batches).skip(
            produced(batches).len() - queue_after_pushes(batches).len(),
        ),
    decreases batches.len(),
{
    if batches.len() == 0 {
        assert(produced(batches).skip(0) =~= produced(batches));
    } else {
        lemma_pushes_preserve_production_order(batches.drop_last());
        let rest = queue_after_pushes(batches.drop_last());
        let prod0 = produced(batches.drop_last());
        let last = batches.last();
        let d0 = prod0.len() - rest.len();
        let d1 = overflow_dropped(rest.len(), last.len());
        assert(rest + last =~= (prod0 + last).skip(d0));
        assert((prod0 + last).skip(d0).skip(d1 as int) =~= (prod0 + last).skip(d0 + d1));
        assert(queue_after_pushes(batches) == (rest + last).skip(d1 as int));
    }
}

/// The cap is never exceeded, nothing is evicted while the batch fits, and
/// the eviction count is exact once it does not.
pub proof fn lemma_push_bounds(q: Seq<u32>, pushed: Seq<u32>)
    requires
        q.len() <= MAX_QUEUE_SAMPLES,
    ensures
        queue_after_push(q, pushed).len() <= MAX_QUEUE_SAMPLES,
        q.len() + pushed.len() <= MAX_QUEUE_SAMPLES ==> overflow_dropped(q.len(), pushed.len()) == 0
            && queue_after_push(q, pushed) == q + pushed,
        q.len() + pushed.len() > MAX_QUEUE_SAMPLES ==> queue_after_push(q, pushed).len()
            == MAX_QUEUE_SAMPLES && overflow_dropped(q.len(), pushed.len()) == q.len()
            + pushed.len() - MAX_QUEUE_SAMPLES,
{
    assert((q + pushed).skip(0) =~= q + pushed);
}

} // verus!
