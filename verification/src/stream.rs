//! Wake/shutdown coordination between the capture thread and the polling
//! consumer.
//!
//! One value of [`StreamShared`] is shared across the thread boundary,
//! guarded by a single lock in the unverified shell. The functions here are
//! the complete check-and-update steps performed under that lock: one poll
//! by the consumer, one batch push by the producer, and the monotonic
//! shutdown signal. The waker is opaque to this crate: the shell
//! instantiates `W` with its scheduler's waker handle and invokes whatever
//! waker a step hands back, after releasing the lock.

use crate::errors::InitError;
use crate::queue::{overflow_dropped, queue_after_push, SampleQueue};
use vstd::prelude::*;

verus! {

/// The fixed capture sample rate, and the rate reported by a degraded
/// stream whose capture initialization failed.
pub const DEFAULT_SAMPLE_RATE: u32 = 44100;

/// Consumer wake record: the stored continuation of a suspended consumer,
/// whether samples arrived since the consumer last looked, and the
/// monotonic shutdown flag.
pub struct WakerState<W> {
    pub waker: Option<W>,
    pub has_data: bool,
    pub shutdown: bool,
}

/// The one composite shared between the capture thread and the stream
/// adapter: the bounded sample queue plus the wake record, updated together
/// so a push can never slip between "queue is empty" and "waker stored".
pub struct StreamShared<W> {
    pub queue: SampleQueue,
    pub state: WakerState<W>,
}

/// What one poll of the stream adapter steps to.
#[derive(Clone, Copy, Debug, PartialEq, Eq, Structural)]
pub enum PollStep {
    /// The oldest queued sample, popped.
    Sample(u32),
    /// The stream is exhausted permanently.
    Terminated,
    /// Nothing to deliver yet; the consumer's waker has been stored.
    Pending,
}

/// The poll contract: the oldest sample while any is queued; termination
/// only once the queue has drained after shutdown; suspension otherwise.
pub open spec fn poll_result(queue: Seq<u32>, shutdown: bool) -> PollStep {
    if queue.len() > 0 {
        PollStep::Sample(queue[0])
    } else if shutdown {
        PollStep::Terminated
    } else {
        PollStep::Pending
    }
}

/// Queue contents after one poll.
pub open spec fn queue_after_poll(queue: Seq<u32>) -> Seq<u32> {
    if queue.len() > 0 {
        queue.drop_first()
    } else {
        queue
    }
}

impl<W> StreamShared<W> {
    /// Fresh shared state: empty queue, no waker, no data, not shut down.
    pub fn new() -> (s: Self)
        ensures
            s.queue@ == Seq::<u32>::empty(),
            s.state.waker is None,
            !s.state.has_data,
            !s.state.shutdown,
    {
        StreamShared {
            queue: SampleQueue::new(),
            state: WakerState { waker: None, has_data: false, shutdown: false },
        }
    }

    /// One poll by the consumer: pop the oldest sample if any; otherwise
    /// report termination if shutdown was signaled; otherwise clear
    /// `has_data`, store `waker` and suspend. The shutdown flag is only
    /// consulted once the queue is empty, so queued samples are always
    /// drained first.
    pub fn poll_step(&mut self, waker: W) -> (r: PollStep)
        ensures
            r == poll_result(old(self).queue@, old(self).state.shutdown),
            final(self).queue@ == queue_after_poll(old(self).queue@),
            final(self).state.shutdown == old(self).state.shutdown,
            old(self).queue@.len() > 0 ==> final(self).state == old(self).state,
            old(self).queue@.len() == 0 && old(self).state.shutdown ==> final(self).state == old(
                self,
            ).state,
            old(self).queue@.len() == 0 && !old(self).state.shutdown ==> final(self).state == (
            WakerState { waker: Some(waker), has_data: false, shutdown: false }),
    {
        let popped = self.queue.pop_front();
        match popped {
            Some(sample) => PollStep::Sample(sample),
            None => {
                if self.state.shutdown {
                    PollStep::Terminated
                } else {
                    self.state.has_data = false;
                    self.state.waker = Some(waker);
                    PollStep::Pending
                }
            },
        }
    }

    /// One batch push by the producer: append the decoded samples under the
    /// overflow policy, mark data as available, and hand back the waker to
    /// invoke — only on the empty-to-data transition, so a consumer is woken
    /// at most once per time it suspends.
    pub fn push_samples(&mut self, samples: &Vec<u32>) -> (r: (usize, Option<W>))
        ensures
            samples@.len() == 0 ==> *final(self) == *old(self) && r.0 == 0 && r.1 is None,
            samples@.len() > 0 ==> {
                &&& final(self).queue@ == queue_after_push(old(self).queue@, samples@)
                &&& r.0 == overflow_dropped(old(self).queue@.len(), samples@.len())
                &&& final(self).state.shutdown == old(self).state.shutdown
                &&& final(self).state.has_data
                &&& (old(self).state.has_data ==> final(self).state.waker == old(self).state.waker
                    && r.1 is None)
                &&& (!old(self).state.has_data ==> final(self).state.waker is None && r.1 == old(
                    self,
                ).state.waker)
            },
    {
        if samples.len() == 0 {
            return (0, None);
        }
        let dropped = self.queue.push_batch(samples);
        let mut woken: Option<W> = None;
        if !self.state.has_data {
            self.state.has_data = true;
            woken = self.state.waker.take();
        }
        (dropped, woken)
    }

    /// Signal shutdown (monotonic: nothing ever clears it) and hand back a
    /// suspended consumer's waker so it observes termination.
    pub fn signal_shutdown(&mut self) -> (w: Option<W>)
        ensures
            final(self).state.shutdown,
            final(self).state.waker is None,
            final(self).state.has_data == old(self).state.has_data,
            final(self).queue == old(self).queue,
            w == old(self).state.waker,
    {
        self.state.shutdown = true;
        self.state.waker.take()
    }

    /// Whether shutdown has been signaled; the capture thread checks this at
    /// the top of every read cycle.
    pub fn is_shutdown(&self) -> (b: bool)
        ensures
            b == self.state.shutdown,
    {
        self.state.shutdown
    }
}

/// Sample rate and viability for a capture-thread init report: a missing or
/// failed report falls back to the default rate with a degraded stream that
/// is shut down before it is handed out.
pub open spec fn init_outcome(signal: Option<Result<u32, InitError>>) -> (u32, bool) {
    match signal {
        Some(Ok(rate)) => (rate, true),
        _ => (DEFAULT_SAMPLE_RATE, false),
    }
}

/// Decide the negotiated sample rate and whether capture is live from what
/// the capture thread reported over the one-shot init signal (`None`: the
/// thread exited without reporting).
pub fn resolve_init_outcome(signal: Option<Result<u32, InitError>>) -> (r: (u32, bool))
    ensures
        r == init_outcome(signal),
{
    match signal {
        Some(Ok(rate)) => (rate, true),
        _ => (DEFAULT_SAMPLE_RATE, false),
    }
}

/// Once shutdown is signaled, polling never suspends: each poll either
/// yields the next queued sample — the queue shrinks by one, so the drain
/// ends — or, once the queue is empty, the terminal result, which then
/// repeats on every later poll while nothing is pushed.
pub proof fn lemma_shutdown_drains_then_terminates(queue: Seq<u32>)
    ensures
        poll_result(queue, true) != PollStep::Pending,
        queue.len() == 0 ==> poll_result(queue, true) == PollStep::Terminated && queue_after_poll(
            queue,
        ) == queue,
        queue.len() > 0 ==> poll_result(queue, true) == PollStep::Sample(queue[0])
            && queue_after_poll(queue).len() == queue.len() - 1,
{
}

} // verus!
