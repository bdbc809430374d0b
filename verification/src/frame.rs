//! The handoff of decoded frames from the decode pump to the consumer.
//!
//! The slot holds the most recent sample and a flag that says whether the
//! consumer has yet to see it. The pump writes the sample and then raises the
//! flag; the consumer lowers the flag when it takes the sample up. There is no
//! queue: a sample that the consumer did not take up in time is replaced by
//! the next.

use crate::backend::PipelineState;
use vstd::prelude::*;

verus! {

/// How long the pump waits for a sample before it looks at the liveness flag
/// again, in milliseconds.
pub const PULL_TIMEOUT_MILLIS: u64 = 16;

/// Which sample the pump asks the sink for.
#[derive(Debug, Clone, Copy, PartialEq, Eq, Structural)]
pub enum Pull {
    /// The sample that a pipeline shows while it is not playing.
    Preroll,
    /// The next sample of the playing stream.
    Sample,
}

/// The pull of a pump iteration that finds the pipeline in `state`: the next
/// sample while the pipeline plays, the preroll sample otherwise.
pub open spec fn pull_in(state: PipelineState) -> Pull {
    if state == PipelineState::Playing {
        Pull::Sample
    } else {
        Pull::Preroll
    }
}

/// Chooses the pull of a pump iteration.
pub fn pull_for(state: PipelineState) -> (pull: Pull)
    ensures
        pull == pull_in(state),
{
    match state {
        PipelineState::Playing => Pull::Sample,
        _ => Pull::Preroll,
    }
}

/// What a [`FrameSlot`] stands for.
pub struct SlotView<S> {
    /// The most recent sample.
    pub sample: S,
    /// Whether the sample arrived after the consumer last lowered the flag.
    pub fresh: bool,
    /// When the sample arrived, in nanoseconds of the clock of the engine.
    pub arrived: u64,
}

/// The time from `arrived` to `now`; zero where the clock does not show
/// `now` to be later.
pub open spec fn elapsed(arrived: u64, now: u64) -> u64 {
    if now >= arrived {
        (now - arrived) as u64
    } else {
        0
    }
}

impl<S> SlotView<S> {
    /// The slot after the pump has written `sample` at the time `now`.
    pub open spec fn published(self, sample: S, now: u64) -> SlotView<S> {
        SlotView { sample, fresh: true, arrived: now }
    }

    /// The slot after a pump iteration whose pull gave `pulled`. A pull that
    /// timed out leaves the slot as it is.
    pub open spec fn offered(self, pulled: Option<S>, now: u64) -> SlotView<S> {
        match pulled {
            Some(sample) => self.published(sample, now),
            None => self,
        }
    }

    /// The slot after the consumer has lowered the flag.
    pub open spec fn cleared(self) -> SlotView<S> {
        SlotView { fresh: false, ..self }
    }

    /// What the consumer finds at the time `now`: the latency of the sample
    /// if it is new, and nothing otherwise.
    pub open spec fn taken(self, now: u64) -> Option<u64> {
        if self.fresh {
            Some(elapsed(self.arrived, now))
        } else {
            None
        }
    }

    /// The slot after the pump has written each of `samples` in turn, each
    /// with the time of its arrival.
    pub open spec fn published_all(self, samples: Seq<(S, u64)>) -> SlotView<S>
        decreases samples.len(),
    {
        if samples.len() == 0 {
            self
        } else {
            self.published_all(samples.drop_last()).published(samples.last().0, samples.last().1)
        }
    }
}

/// The single slot through which frames reach the consumer.
#[derive(Debug)]
pub struct FrameSlot<S> {
    sample: S,
    fresh: bool,
    arrived: u64,
}

impl<S> View for FrameSlot<S> {
    type V = SlotView<S>;

    closed spec fn view(&self) -> SlotView<S> {
        SlotView { sample: self.sample, fresh: self.fresh, arrived: self.arrived }
    }
}

impl<S> FrameSlot<S> {
    /// A slot that holds `initial` and has nothing new for the consumer.
    pub fn new(initial: S, now: u64) -> (slot: FrameSlot<S>)
        ensures
            slot@ == (SlotView { sample: initial, fresh: false, arrived: now }),
    {
        FrameSlot { sample: initial, fresh: false, arrived: now }
    }

    /// Records the time of arrival, replaces the sample and then raises the
    /// flag.
    pub fn publish(&mut self, sample: S, now: u64)
        ensures
            final(self)@ == old(self)@.published(sample, now),
    {
        self.arrived = now;
        self.sample = sample;
        self.fresh = true;
    }

    /// Ends a pump iteration: publishes the sample that the pull gave, if it
    /// gave one. Returns whether a sample was published.
    pub fn offer(&mut self, pulled: Option<S>, now: u64) -> (published: bool)
        ensures
            final(self)@ == old(self)@.offered(pulled, now),
            published == pulled is Some,
    {
        match pulled {
            Some(sample) => {
                self.publish(sample, now);
                true
            },
            None => false,
        }
    }

    /// Whether a sample arrived since the consumer last lowered the flag.
    pub fn is_fresh(&self) -> (fresh: bool)
        ensures
            fresh == self@.fresh,
    {
        self.fresh
    }

    /// When the sample arrived.
    pub fn arrived(&self) -> (arrived: u64)
        ensures
            arrived == self@.arrived,
    {
        self.arrived
    }

    /// Takes the sample up at the time `now`: lowers the flag and, if it was
    /// up, returns the time that passed since the sample arrived.
    pub fn take_fresh(&mut self, now: u64) -> (latency: Option<u64>)
        ensures
            latency == old(self)@.taken(now),
            final(self)@ == old(self)@.cleared(),
    {
        let fresh = self.fresh;
        self.fresh = false;
        if fresh {
            if now >= self.arrived {
                Some(now - self.arrived)
            } else {
                Some(0)
            }
        } else {
            None
        }
    }

    /// Lowers the flag.
    pub fn clear(&mut self)
        ensures
            final(self)@ == old(self)@.cleared(),
    {
        self.fresh = false;
    }

    /// The most recent sample.
    pub fn sample(&self) -> (sample: &S)
        ensures
            *sample == self@.sample,
    {
        &self.sample
    }
}

/// However many samples the pump writes before the consumer reads, the
/// consumer finds the last of them, marked as new.
pub proof fn lemma_last_write_wins<S>(slot: SlotView<S>, samples: Seq<(S, u64)>, now: u64)
    requires
        samples.len() > 0,
    ensures
        slot.published_all(samples).sample == samples.last().0,
        slot.published_all(samples).taken(now) == Some(elapsed(samples.last().1, now)),
        slot.published_all(samples).cleared().taken(now) is None,
{
}

} // verus!
