//! What a channel is fed, and what it asks of its histogram in return.

use vstd::prelude::*;

use crate::count::Count;

verus! {

/// The kind of a channel: which measurements it takes and what they mean.
#[derive(Clone, Copy, Debug, PartialEq, Eq, Structural)]
pub enum Source {
    Counter,
    Distribution,
    Gauge,
    TimeInterval,
}

/// One raw event, with its counts in the width `C`.
#[derive(Debug, PartialEq, Eq)]
pub enum Measurement<C> {
    /// A reading of a counter, such as a number of requests.
    Counter { value: u64, time: u64 },
    /// A sample of a distribution, seen `count` times.
    Distribution { value: u64, count: C, time: u64 },
    /// A reading of a gauge, such as the bytes of memory in use.
    Gauge { value: u64, time: u64 },
    /// A count to add to a counter.
    Increment { count: C, time: u64 },
    /// The start and the stop of an event.
    TimeInterval { start: u64, stop: u64 },
}

impl<C: Count> Measurement<C> {
    /// The occurrences that the measurement counts: those of a distribution
    /// sample or of an increment, and none for the others.
    pub open spec fn count(self) -> nat {
        match self {
            Measurement::Distribution { count, .. } => count.widened() as nat,
            Measurement::Increment { count, .. } => count.widened() as nat,
            _ => 0,
        }
    }

    /// Whether the measurement adds its count to the counter of a channel
    /// of the kind `source`.
    pub open spec fn counts_for(self, source: Source) -> bool {
        match self {
            Measurement::Distribution { .. } => source == Source::Distribution,
            Measurement::Increment { .. } => source == Source::Counter,
            _ => false,
        }
    }
}

/// The occurrences that `measurements` count, all together.
pub open spec fn total_count<C: Count>(measurements: Seq<Measurement<C>>) -> nat
    decreases measurements.len(),
{
    if measurements.len() == 0 {
        0
    } else {
        total_count(measurements.drop_last()) + measurements.last().count()
    }
}

impl<C> Measurement<C> {
    /// The kind of channel that the measurement is meant for. A channel of
    /// another kind drops it.
    pub open spec fn source(self) -> Source {
        match self {
            Measurement::Counter { .. } => Source::Counter,
            Measurement::Distribution { .. } => Source::Distribution,
            Measurement::Gauge { .. } => Source::Gauge,
            Measurement::Increment { .. } => Source::Counter,
            Measurement::TimeInterval { .. } => Source::TimeInterval,
        }
    }
}

impl<C: Copy> Clone for Measurement<C> {
    fn clone(&self) -> (copy: Self)
        ensures
            copy == *self,
    {
        *self
    }
}

impl<C: Copy> Copy for Measurement<C> {

}

/// What the caller owes the histogram that is attached to a channel, after
/// the channel has taken a measurement or was reset.
#[derive(Debug, PartialEq, Eq)]
pub enum HistogramAction<C> {
    /// The histogram stays as it is.
    Idle,
    /// `count` occurrences of `value` are to be recorded.
    Increment { value: u64, count: C },
    /// All that the histogram has gathered is to be discarded.
    Clear,
}

impl<C: Copy> Clone for HistogramAction<C> {
    fn clone(&self) -> (copy: Self)
        ensures
            copy == *self,
    {
        *self
    }
}

impl<C: Copy> Copy for HistogramAction<C> {

}

} // verus!
