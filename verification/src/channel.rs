//! The channel: one metric's aggregator.

use core::marker::PhantomData;
use vstd::prelude::*;
use vstd::wrapping::u64_specs::{wrapping_add, wrapping_sub};

use crate::count::Count;
use crate::measurement::{HistogramAction, Measurement, Source};
use crate::output::{views_of, Output, Percentile, Reading, ReadingView};
use crate::point::Point;
use crate::rate::{rate, rate_per_second};

verus! {

/// Holds of every statistic but `output`.
pub open spec fn other_than(output: Output) -> spec_fn(Output) -> bool {
    |o: Output| o != output
}

/// What the histogram has said of `percentile`: the first of the answers
/// given for it, and nothing if none was given.
pub open spec fn answer_for(
    quantiles: Seq<(Percentile, Option<u64>)>,
    percentile: Percentile,
) -> Option<u64>
    decreases quantiles.len(),
{
    if quantiles.len() == 0 {
        None
    } else if quantiles.first().0 == percentile {
        quantiles.first().1
    } else {
        answer_for(quantiles.drop_first(), percentile)
    }
}

/// What a [`Channel`] holds.
pub struct ChannelView {
    pub name: Seq<char>,
    /// The kind of the channel; it never changes.
    pub source: Source,
    /// Whether a histogram is attached; it never changes.
    pub histogram: bool,
    /// Whether a latch discards what the histogram has gathered; it never
    /// changes.
    pub latched: bool,
    /// The running counter.
    pub counter: u64,
    /// The time of the last measurement that carried one.
    pub last_write: u64,
    /// Whether a reading of a counter was taken since the channel was made
    /// or zeroed.
    pub has_data: bool,
    /// The largest observation.
    pub max: Point,
    /// The smallest observation.
    pub min: Point,
    /// The statistics to report, in the order in which they were asked for.
    pub outputs: Seq<Output>,
}

impl ChannelView {
    /// A channel as it is made: nothing recorded, nothing to report.
    pub open spec fn fresh(name: Seq<char>, source: Source, histogram: bool) -> ChannelView {
        ChannelView {
            name,
            source,
            histogram,
            latched: true,
            counter: 0,
            last_write: 0,
            has_data: false,
            max: Point::unset(),
            min: Point::unset(),
            outputs: Seq::empty(),
        }
    }

    /// What the histogram is owed for `count` occurrences of `value`.
    pub open spec fn sample<C>(self, value: u64, count: C) -> HistogramAction<C> {
        if self.histogram {
            HistogramAction::Increment { value, count }
        } else {
            HistogramAction::Idle
        }
    }

    /// The rate of change from the last reading of the counter to the reading
    /// `value` at `time`. Both differences wrap, so that a counter that
    /// started anew gives a large rate and no failure.
    pub open spec fn rate(self, value: u64, time: u64) -> u64 {
        rate_per_second(wrapping_sub(value, self.counter), wrapping_sub(time, self.last_write))
    }

    /// The channel after both extrema have seen `value` at `time`.
    pub open spec fn observed(self, value: u64, time: u64) -> ChannelView {
        ChannelView {
            max: self.max.raised(value, time),
            min: self.min.lowered(value, time),
            ..self
        }
    }

    /// The channel after it was handed `measurement`.
    ///
    /// A measurement that is meant for a channel of another kind is dropped.
    /// Of the others, the first reading of a counter is the baseline; each
    /// later one sets the counter and is observed as a rate. A distribution
    /// sample and an increment add their count to the counter. A gauge
    /// reading replaces the counter and is observed as it is. A time interval
    /// counts as one event, observed by its duration at its start; it leaves
    /// the time of the last write alone.
    pub open spec fn recorded<C: Count>(self, measurement: Measurement<C>) -> ChannelView {
        if measurement.source() != self.source {
            self
        } else {
            match measurement {
                Measurement::Counter { value, time } => {
                    if self.has_data {
                        ChannelView {
                            counter: value,
                            last_write: time,
                            ..self.observed(self.rate(value, time), time)
                        }
                    } else {
                        ChannelView { counter: value, last_write: time, has_data: true, ..self }
                    }
                },
                Measurement::Distribution { value, count, time } => {
                    ChannelView {
                        counter: wrapping_add(self.counter, count.widened()),
                        last_write: time,
                        ..self
                    }
                },
                Measurement::Gauge { value, time } => {
                    ChannelView { counter: value, last_write: time, ..self.observed(value, time) }
                },
                Measurement::Increment { count, time } => {
                    ChannelView {
                        counter: wrapping_add(self.counter, count.widened()),
                        last_write: time,
                        ..self
                    }
                },
                Measurement::TimeInterval { start, stop } => {
                    ChannelView {
                        counter: wrapping_add(self.counter, 1),
                        ..self.observed(wrapping_sub(stop, start), start)
                    }
                },
            }
        }
    }

    /// The channel after a latch: the extrema start anew; the counter and
    /// the baseline stay.
    pub open spec fn after_latch(self) -> ChannelView {
        ChannelView { max: Point::unset(), min: Point::unset(), ..self }
    }

    /// What the histogram is owed after a latch: it is discarded if the
    /// channel is latched, and kept if not.
    pub open spec fn owed_at_latch<C>(self) -> HistogramAction<C> {
        if self.latched && self.histogram {
            HistogramAction::Clear
        } else {
            HistogramAction::Idle
        }
    }

    /// The channel after it was zeroed: as it was made, but for the statistics
    /// to report.
    pub open spec fn after_zero(self) -> ChannelView {
        ChannelView {
            counter: 0,
            last_write: 0,
            has_data: false,
            max: Point::unset(),
            min: Point::unset(),
            ..self
        }
    }

    /// What the histogram is owed after the channel was zeroed.
    pub open spec fn owed_at_zero<C>(self) -> HistogramAction<C> {
        if self.histogram {
            HistogramAction::Clear
        } else {
            HistogramAction::Idle
        }
    }

    /// What a query for a percentile gives, `answer` being what the histogram
    /// says: a channel without a histogram has no percentiles.
    pub open spec fn percentile(self, answer: Option<u64>) -> Option<u64> {
        if self.histogram {
            answer
        } else {
            None
        }
    }

    /// The channel after `output` was asked for; asking twice is asking once.
    pub open spec fn with_output(self, output: Output) -> ChannelView {
        if self.outputs.contains(output) {
            self
        } else {
            ChannelView { outputs: self.outputs.push(output), ..self }
        }
    }

    /// The channel after `output` was given up.
    pub open spec fn without_output(self, output: Output) -> ChannelView {
        ChannelView { outputs: self.outputs.filter(other_than(output)), ..self }
    }

    /// The value of `output` now, `quantiles` being what the histogram has
    /// said of the percentiles. An extremum that was never set has no value,
    /// nor has a percentile of which the histogram said nothing.
    pub open spec fn value_of(
        self,
        output: Output,
        quantiles: Seq<(Percentile, Option<u64>)>,
    ) -> Option<u64> {
        match output {
            Output::Counter => Some(self.counter),
            Output::MaxPointTime => if self.max.is_set() {
                Some(self.max.time)
            } else {
                None
            },
            Output::MinPointTime => if self.min.is_set() {
                Some(self.min.time)
            } else {
                None
            },
            Output::Percentile(percentile) => self.percentile(answer_for(quantiles, percentile)),
        }
    }

    /// `output` with its value, if it has one.
    pub open spec fn entry_of(
        self,
        quantiles: Seq<(Percentile, Option<u64>)>,
    ) -> spec_fn(Output) -> Option<(Output, u64)> {
        |output: Output|
            match self.value_of(output, quantiles) {
                Some(value) => Some((output, value)),
                None => None,
            }
    }

    /// The statistics that were asked for and have a value, each with its
    /// value, in the order in which they were asked for.
    pub open spec fn values(self, quantiles: Seq<(Percentile, Option<u64>)>) -> Seq<(Output, u64)> {
        self.outputs.filter_map(self.entry_of(quantiles))
    }

    /// A statistic and its value, as a reading of this channel.
    pub open spec fn reading_of(self) -> spec_fn((Output, u64)) -> ReadingView {
        |entry: (Output, u64)| ReadingView { name: self.name, output: entry.0, value: entry.1 }
    }

    /// The snapshot: one reading for each statistic that was asked for and
    /// has a value.
    pub open spec fn readings(self, quantiles: Seq<(Percentile, Option<u64>)>) -> Seq<ReadingView> {
        self.values(quantiles).map_values(self.reading_of())
    }

    /// The channel after it was handed `measurements`, one after the other.
    pub open spec fn recorded_all<C: Count>(self, measurements: Seq<Measurement<C>>) -> ChannelView
        decreases measurements.len(),
    {
        if measurements.len() == 0 {
            self
        } else {
            self.recorded_all(measurements.drop_last()).recorded(measurements.last())
        }
    }

    /// What the histogram is owed after the channel was handed `measurement`.
    pub open spec fn owed<C: Count>(self, measurement: Measurement<C>) -> HistogramAction<C> {
        if measurement.source() != self.source {
            HistogramAction::Idle
        } else {
            match measurement {
                Measurement::Counter { value, time } => {
                    if self.has_data {
                        self.sample(self.rate(value, time), C::unit())
                    } else {
                        HistogramAction::Idle
                    }
                },
                Measurement::Distribution { value, count, time } => self.sample(value, count),
                Measurement::Gauge { value, time } => self.sample(value, C::unit()),
                Measurement::Increment { count, time } => self.sample(count.widened(), C::unit()),
                Measurement::TimeInterval { start, stop } => {
                    self.sample(wrapping_sub(stop, start), C::unit())
                },
            }
        }
    }
}

/// Looks up what the histogram has said of `percentile`.
fn lookup(quantiles: &[(Percentile, Option<u64>)], percentile: Percentile) -> (answer: Option<u64>)
    ensures
        answer == answer_for(quantiles@, percentile),
{
    let mut i: usize = 0;
    assert(quantiles@.skip(0) =~= quantiles@);
    while i < quantiles.len()
        invariant
            i <= quantiles@.len(),
            answer_for(quantiles@, percentile) == answer_for(
                quantiles@.skip(i as int),
                percentile,
            ),
        decreases quantiles@.len() - i,
    {
        let entry = quantiles[i];
        if entry.0 == percentile {
            return entry.1;
        }
        assert(quantiles@.skip(i as int).drop_first() =~= quantiles@.skip(i + 1));
        i += 1;
    }
    None
}

/// A filter that nothing fails keeps the sequence as it is.
proof fn lemma_filter_keeps_all(s: Seq<Output>, pred: spec_fn(Output) -> bool)
    requires
        forall|j: int| 0 <= j < s.len() ==> pred(#[trigger] s[j]),
    ensures
        s.filter(pred) == s,
    decreases s.len(),
{
    reveal(Seq::filter);
    if s.len() > 0 {
        lemma_filter_keeps_all(s.drop_last(), pred);
        assert(s.drop_last().push(s.last()) =~= s);
    }
}

/// Where nothing occurs twice, to take out the one occurrence of a value is
/// to keep all that differs from it.
proof fn lemma_remove_is_filter(s: Seq<Output>, i: int, output: Output)
    requires
        s.no_duplicates(),
        0 <= i < s.len(),
        s[i] == output,
    ensures
        s.remove(i) == s.filter(other_than(output)),
        s.remove(i).no_duplicates(),
    decreases s.len(),
{
    reveal(Seq::filter);
    let front = s.drop_last();
    if i == s.len() - 1 {
        lemma_filter_keeps_all(front, other_than(output));
        assert(s.remove(i) =~= front);
    } else {
        lemma_remove_is_filter(front, i, output);
        assert(s.remove(i) =~= front.remove(i).push(s.last()));
    }
    assert forall|a: int, b: int|
        0 <= a < s.remove(i).len() && 0 <= b < s.remove(i).len() && a != b implies s.remove(i)[a]
        != s.remove(i)[b] by {
        let a0: int = if a < i { a } else { a + 1 };
        let b0: int = if b < i { b } else { b + 1 };
        assert(s.remove(i)[a] == s[a0]);
        assert(s.remove(i)[b] == s[b0]);
    }
}

/// The aggregator of one metric, with its counts in the width `C`.
pub struct Channel<C> {
    name: String,
    source: Source,
    histogram: bool,
    latched: bool,
    counter: u64,
    last_write: u64,
    has_data: bool,
    max: Point,
    min: Point,
    outputs: Vec<Output>,
    width: PhantomData<C>,
}

impl<C> View for Channel<C> {
    type V = ChannelView;

    closed spec fn view(&self) -> ChannelView {
        ChannelView {
            name: self.name@,
            source: self.source,
            histogram: self.histogram,
            latched: self.latched,
            counter: self.counter,
            last_write: self.last_write,
            has_data: self.has_data,
            max: self.max,
            min: self.min,
            outputs: self.outputs@,
        }
    }
}

impl<C> Channel<C> {
    /// No statistic is asked for twice.
    #[verifier::type_invariant]
    spec fn outputs_are_distinct(self) -> bool {
        self.outputs@.no_duplicates()
    }
}

/// Two channels are the same channel if they have the same name, whatever
/// they have recorded.
impl<C> PartialEq for Channel<C> {
    fn eq(&self, other: &Channel<C>) -> (same: bool) {
        self.name == other.name
    }
}

impl<C> vstd::std_specs::cmp::PartialEqSpecImpl for Channel<C> {
    open spec fn obeys_eq_spec() -> bool {
        true
    }

    open spec fn eq_spec(&self, other: &Channel<C>) -> bool {
        self@.name == other@.name
    }
}

impl<C> Eq for Channel<C> {

}

impl<C: Count> Channel<C> {
    /// A channel of the given name and kind; `histogram` says whether the
    /// caller keeps a histogram for it.
    pub fn new(name: String, source: Source, histogram: bool) -> (channel: Channel<C>)
        ensures
            channel@ == ChannelView::fresh(name@, source, histogram),
    {
        Channel {
            name,
            source,
            histogram,
            latched: true,
            counter: 0,
            last_write: 0,
            has_data: false,
            max: Point::new(0, 0),
            min: Point::new(0, 0),
            outputs: Vec::new(),
            width: PhantomData,
        }
    }

    pub fn name(&self) -> (name: String)
        ensures
            name@ == self@.name,
    {
        self.name.clone()
    }

    pub fn source(&self) -> (source: Source)
        ensures
            source == self@.source,
    {
        self.source
    }

    /// Hands the channel one measurement, and says what the histogram is
    /// owed for it.
    pub fn record(&mut self, measurement: Measurement<C>) -> (action: HistogramAction<C>)
        ensures
            final(self)@ == old(self)@.recorded(measurement),
            action == old(self)@.owed(measurement),
    {
        match measurement {
            Measurement::Counter { value, time } => self.record_counter(value, time),
            Measurement::Distribution { value, count, time } => {
                self.record_distribution(value, count, time)
            },
            Measurement::Gauge { value, time } => self.record_gauge(value, time),
            Measurement::Increment { count, time } => self.record_increment(count, time),
            Measurement::TimeInterval { start, stop } => self.record_time_interval(start, stop),
        }
    }

    fn sample(&self, value: u64, count: C) -> (action: HistogramAction<C>)
        ensures
            action == self@.sample(value, count),
    {
        if self.histogram {
            HistogramAction::Increment { value, count }
        } else {
            HistogramAction::Idle
        }
    }

    /// The counter follows the readings; the histogram and the extrema
    /// follow the rate of change.
    fn record_counter(&mut self, value: u64, time: u64) -> (action: HistogramAction<C>)
        ensures
            final(self)@ == old(self)@.recorded(Measurement::<C>::Counter { value, time }),
            action == old(self)@.owed(Measurement::<C>::Counter { value, time }),
    {
        proof {
            use_type_invariant(&*self);
        }
        if self.source == Source::Counter {
            let action = if self.has_data {
                let delta_value: u64 = value.wrapping_sub(self.counter);
                let delta_time: u64 = time.wrapping_sub(self.last_write);
                let rate: u64 = rate(delta_value, delta_time);
                self.counter = self.counter.wrapping_add(delta_value);
                let action = self.sample(rate, C::one());
                self.max.track_max(rate, time);
                self.min.track_min(rate, time);
                action
            } else {
                self.counter = value;
                self.has_data = true;
                HistogramAction::Idle
            };
            self.last_write = time;
            action
        } else {
            HistogramAction::Idle
        }
    }

    /// The counter sums the counts; the histogram gathers the values.
    fn record_distribution(&mut self, value: u64, count: C, time: u64) -> (action: HistogramAction<
        C,
    >)
        ensures
            final(self)@ == old(self)@.recorded(Measurement::Distribution { value, count, time }),
            action == old(self)@.owed(Measurement::Distribution { value, count, time }),
    {
        proof {
            use_type_invariant(&*self);
        }
        if self.source == Source::Distribution {
            self.counter = self.counter.wrapping_add(count.widen());
            self.last_write = time;
            self.sample(value, count)
        } else {
            HistogramAction::Idle
        }
    }

    /// The counter holds the latest reading; the histogram and the extrema
    /// follow the readings.
    fn record_gauge(&mut self, value: u64, time: u64) -> (action: HistogramAction<C>)
        ensures
            final(self)@ == old(self)@.recorded(Measurement::<C>::Gauge { value, time }),
            action == old(self)@.owed(Measurement::<C>::Gauge { value, time }),
    {
        proof {
            use_type_invariant(&*self);
        }
        if self.source == Source::Gauge {
            self.counter = value;
            self.max.track_max(value, time);
            self.min.track_min(value, time);
            self.last_write = time;
            self.sample(value, C::one())
        } else {
            HistogramAction::Idle
        }
    }

    /// The counter sums the increments; the histogram gathers their sizes.
    fn record_increment(&mut self, count: C, time: u64) -> (action: HistogramAction<C>)
        ensures
            final(self)@ == old(self)@.recorded(Measurement::Increment { count, time }),
            action == old(self)@.owed(Measurement::Increment { count, time }),
    {
        proof {
            use_type_invariant(&*self);
        }
        if self.source == Source::Counter {
            let widened: u64 = count.widen();
            self.counter = self.counter.wrapping_add(widened);
            self.last_write = time;
            self.sample(widened, C::one())
        } else {
            HistogramAction::Idle
        }
    }

    /// The counter counts the events; the histogram and the extrema follow
    /// their durations.
    fn record_time_interval(&mut self, start: u64, stop: u64) -> (action: HistogramAction<C>)
        ensures
            final(self)@ == old(self)@.recorded(Measurement::<C>::TimeInterval { start, stop }),
            action == old(self)@.owed(Measurement::<C>::TimeInterval { start, stop }),
    {
        proof {
            use_type_invariant(&*self);
        }
        if self.source == Source::TimeInterval {
            self.counter = self.counter.wrapping_add(1);
            let duration: u64 = stop.wrapping_sub(start);
            self.max.track_max(duration, start);
            self.min.track_min(duration, start);
            self.sample(duration, C::one())
        } else {
            HistogramAction::Idle
        }
    }

    /// The statistics that were asked for, in the order in which they were
    /// asked for, none twice.
    pub fn outputs(&self) -> (outputs: Vec<Output>)
        ensures
            outputs@ == self@.outputs,
            outputs@.no_duplicates(),
    {
        proof {
            use_type_invariant(self);
        }
        let mut outputs: Vec<Output> = Vec::new();
        let mut i: usize = 0;
        while i < self.outputs.len()
            invariant
                i <= self.outputs@.len(),
                outputs@ == self.outputs@.take(i as int),
            decreases self.outputs@.len() - i,
        {
            outputs.push(self.outputs[i]);
            assert(self.outputs@.take(i as int).push(self.outputs@[i as int])
                =~= self.outputs@.take(i + 1));
            i += 1;
        }
        assert(self.outputs@.take(i as int) =~= self.outputs@);
        outputs
    }

    /// Where `output` stands among the statistics to report.
    fn position(&self, output: Output) -> (found: Option<usize>)
        ensures
            found matches Some(i) ==> i < self.outputs@.len() && self.outputs@[i as int] == output,
            found.is_none() ==> !self.outputs@.contains(output),
    {
        let mut i: usize = 0;
        while i < self.outputs.len()
            invariant
                i <= self.outputs@.len(),
                forall|j: int| 0 <= j < i ==> self.outputs@[j] != output,
            decreases self.outputs@.len() - i,
        {
            if self.outputs[i] == output {
                return Some(i);
            }
            i += 1;
        }
        None
    }

    /// Asks for `output` in the snapshots to come.
    pub fn add_output(&mut self, output: Output)
        ensures
            final(self)@ == old(self)@.with_output(output),
    {
        proof {
            use_type_invariant(&*self);
        }
        if self.position(output).is_none() {
            let mut outputs: Vec<Output> = Vec::new();
            core::mem::swap(&mut self.outputs, &mut outputs);
            outputs.push(output);
            self.outputs = outputs;
        }
    }

    /// Gives `output` up: the snapshots to come leave it out.
    pub fn delete_output(&mut self, output: Output)
        ensures
            final(self)@ == old(self)@.without_output(output),
    {
        proof {
            use_type_invariant(&*self);
        }
        match self.position(output) {
            Some(i) => {
                let mut outputs: Vec<Output> = Vec::new();
                core::mem::swap(&mut self.outputs, &mut outputs);
                outputs.remove(i);
                proof {
                    lemma_remove_is_filter(old(self).outputs@, i as int, output);
                }
                self.outputs = outputs;
            },
            None => {
                proof {
                    lemma_filter_keeps_all(self.outputs@, other_than(output));
                }
            },
        }
    }

    /// Starts a new window: the extrema are forgotten, and a latched channel
    /// has its histogram discarded. The counter stays.
    pub fn latch(&mut self) -> (action: HistogramAction<C>)
        ensures
            final(self)@ == old(self)@.after_latch(),
            action == old(self)@.owed_at_latch::<C>(),
    {
        proof {
            use_type_invariant(&*self);
        }
        self.max.set(0, 0);
        self.min.set(0, 0);
        if self.latched && self.histogram {
            HistogramAction::Clear
        } else {
            HistogramAction::Idle
        }
    }

    /// Forgets all that was recorded, for a new stream of measurements under
    /// the same name.
    pub fn zero(&mut self) -> (action: HistogramAction<C>)
        ensures
            final(self)@ == old(self)@.after_zero(),
            action == old(self)@.owed_at_zero::<C>(),
    {
        proof {
            use_type_invariant(&*self);
        }
        self.has_data = false;
        self.last_write = 0;
        self.counter = 0;
        self.max.set(0, 0);
        self.min.set(0, 0);
        if self.histogram {
            HistogramAction::Clear
        } else {
            HistogramAction::Idle
        }
    }

    /// What the channel makes of the histogram's `answer` to a query for a
    /// percentile.
    pub fn percentile(&self, answer: Option<u64>) -> (value: Option<u64>)
        ensures
            value == self@.percentile(answer),
    {
        if self.histogram {
            answer
        } else {
            None
        }
    }

    /// The value of `output` now.
    fn value_of(&self, output: Output, quantiles: &[(Percentile, Option<u64>)]) -> (value: Option<
        u64,
    >)
        ensures
            value == self@.value_of(output, quantiles@),
    {
        match output {
            Output::Counter => Some(self.counter),
            Output::MaxPointTime => {
                if self.max.time() > 0 {
                    Some(self.max.time())
                } else {
                    None
                }
            },
            Output::MinPointTime => {
                if self.min.time() > 0 {
                    Some(self.min.time())
                } else {
                    None
                }
            },
            Output::Percentile(percentile) => self.percentile(lookup(quantiles, percentile)),
        }
    }

    /// The snapshot as readings. `quantiles` holds what the histogram has
    /// said of the percentiles that were asked for.
    pub fn readings(&self, quantiles: &[(Percentile, Option<u64>)]) -> (readings: Vec<Reading>)
        ensures
            views_of(readings@) == self@.readings(quantiles@),
            forall|i: int, j: int|
                0 <= i < j < readings@.len() ==> readings@[i]@.output != readings@[j]@.output,
    {
        let values = self.hash_map(quantiles);
        let mut readings: Vec<Reading> = Vec::new();
        let mut i: usize = 0;
        while i < values.len()
            invariant
                i <= values@.len(),
                readings@.len() == i,
                forall|j: int|
                    0 <= j < i ==> (#[trigger] readings@[j])@ == (self@.reading_of())(values@[j]),
            decreases values@.len() - i,
        {
            let (output, value) = values[i];
            readings.push(Reading::new(self.name(), output, value));
            i += 1;
        }
        assert(views_of(readings@) =~= values@.map_values(self@.reading_of()));
        readings
    }

    /// The snapshot as pairs of a statistic and its value, no statistic
    /// twice. `quantiles` holds what the histogram has said of the
    /// percentiles that were asked for.
    pub fn hash_map(&self, quantiles: &[(Percentile, Option<u64>)]) -> (values: Vec<(Output, u64)>)
        ensures
            values@ == self@.values(quantiles@),
            forall|i: int, j: int| 0 <= i < j < values@.len() ==> values@[i].0 != values@[j].0,
    {
        proof {
            use_type_invariant(self);
        }
        let ghost entry = self@.entry_of(quantiles@);
        let ghost mut origin: Seq<int> = Seq::empty();
        let mut values: Vec<(Output, u64)> = Vec::new();
        let mut i: usize = 0;
        while i < self.outputs.len()
            invariant
                i <= self.outputs@.len(),
                self.outputs@.no_duplicates(),
                entry == self@.entry_of(quantiles@),
                values@ == self.outputs@.take(i as int).filter_map(entry),
                origin.len() == values@.len(),
                forall|j: int|
                    0 <= j < origin.len() ==> 0 <= #[trigger] origin[j] < i && values@[j].0
                        == self.outputs@[origin[j]],
                forall|j: int, k: int| 0 <= j < k < origin.len() ==> origin[j] < origin[k],
            decreases self.outputs@.len() - i,
        {
            let output = self.outputs[i];
            proof {
                self.outputs@.lemma_filter_map_take_succ(entry, i as int);
            }
            match self.value_of(output, quantiles) {
                Some(value) => {
                    values.push((output, value));
                    proof {
                        origin = origin.push(i as int);
                    }
                },
                None => {},
            }
            i += 1;
        }
        assert(self.outputs@.take(i as int) =~= self.outputs@);
        assert forall|j: int, k: int| 0 <= j < k < values@.len() implies values@[j].0
            != values@[k].0 by {
            assert(origin[j] < origin[k]);
        }
        values
    }

    /// The running counter: the latest reading of a counter or a gauge, the
    /// sum of the counts of a distribution, the number of time intervals.
    pub fn counter(&self) -> (counter: u64)
        ensures
            counter == self@.counter,
    {
        self.counter
    }
}

} // verus!
