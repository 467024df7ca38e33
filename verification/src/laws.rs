//! What holds of a channel whatever it is fed, proved of the model that the
//! contracts of [`Channel`](crate::channel::Channel) speak of.

use vstd::prelude::*;

use crate::channel::{answer_for, other_than, ChannelView};
use crate::count::Count;
use crate::measurement::{total_count, HistogramAction, Measurement, Source};
use crate::output::{Output, Percentile};
use crate::rate::NANOS_PER_SECOND;

verus! {

/// The counter wraps at this number.
pub open spec fn counter_range() -> int {
    0x1_0000_0000_0000_0000
}

/// The first reading of a counter is the baseline: the histogram is owed
/// nothing for it and the extrema stay as they were. The second reading, not
/// below the first and later than it, is observed as the rate of change per
/// second between the two, truncated, and `u64::MAX` where the rate does not
/// fit: that rate is owed to the histogram once, and both extrema see it at
/// the time of the second reading.
pub proof fn law_counter_baseline_then_rate<C: Count>(
    channel: ChannelView,
    value1: u64,
    time1: u64,
    value2: u64,
    time2: u64,
)
    requires
        channel.source == Source::Counter,
        !channel.has_data,
        value2 >= value1,
        time2 > time1,
    ensures
        ({
            let first = Measurement::<C>::Counter { value: value1, time: time1 };
            let second = Measurement::<C>::Counter { value: value2, time: time2 };
            let exact = (value2 - value1) * NANOS_PER_SECOND / (time2 - time1);
            let rate = if exact <= u64::MAX {
                exact as u64
            } else {
                u64::MAX
            };
            let baseline = channel.recorded(first);
            let later = baseline.recorded(second);
            &&& channel.owed(first) == HistogramAction::<C>::Idle
            &&& baseline.max == channel.max
            &&& baseline.min == channel.min
            &&& baseline.counter == value1
            &&& baseline.owed(second) == baseline.sample(rate, C::unit())
            &&& later.max == channel.max.raised(rate, time2)
            &&& later.min == channel.min.lowered(rate, time2)
            &&& later.counter == value2
        }),
{
}

/// On a channel of gauges, the counter after a gauge reading is that reading,
/// whatever was recorded before it.
pub proof fn law_gauge_counter_is_latest<C: Count>(
    channel: ChannelView,
    measurements: Seq<Measurement<C>>,
    k: int,
    value: u64,
    time: u64,
)
    requires
        channel.source == Source::Gauge,
        0 <= k < measurements.len(),
        measurements[k] == (Measurement::<C>::Gauge { value, time }),
    ensures
        channel.recorded_all(measurements.take(k + 1)).counter == value,
{
    let upto = measurements.take(k + 1);
    assert(upto.last() == measurements[k]);
    law_recording_keeps_configuration(channel, upto.drop_last());
}

/// Recording changes what a channel has gathered and nothing else: its
/// name, its kind, whether it has a histogram and is latched, and the
/// statistics to report stay as they are.
pub proof fn law_recording_keeps_configuration<C: Count>(
    channel: ChannelView,
    measurements: Seq<Measurement<C>>,
)
    ensures
        channel.recorded_all(measurements).source == channel.source,
        channel.recorded_all(measurements).name == channel.name,
        channel.recorded_all(measurements).histogram == channel.histogram,
        channel.recorded_all(measurements).latched == channel.latched,
        channel.recorded_all(measurements).outputs == channel.outputs,
    decreases measurements.len(),
{
    if measurements.len() > 0 {
        law_recording_keeps_configuration(channel, measurements.drop_last());
    }
}

/// On a channel of distributions fed distribution samples, and on a channel
/// of counters fed increments, the counter grows by the sum of the counts,
/// wrapping at 64 bits.
pub proof fn law_counter_sums_counts<C: Count>(
    channel: ChannelView,
    measurements: Seq<Measurement<C>>,
)
    requires
        forall|i: int|
            0 <= i < measurements.len() ==> (#[trigger] measurements[i]).counts_for(
                channel.source,
            ),
    ensures
        channel.recorded_all(measurements).counter == (channel.counter + total_count(measurements))
            % counter_range(),
        channel.counter + total_count(measurements) <= u64::MAX ==> channel.recorded_all(
            measurements,
        ).counter == channel.counter + total_count(measurements),
    decreases measurements.len(),
{
    if measurements.len() > 0 {
        let front = measurements.drop_last();
        assert forall|i: int| 0 <= i < front.len() implies (#[trigger] front[i]).counts_for(
            channel.source,
        ) by {
            assert(front[i] == measurements[i]);
        }
        law_counter_sums_counts(channel, front);
        law_recording_keeps_configuration(channel, front);
        assert(measurements.last() == measurements[measurements.len() - 1]);
    }
}

/// The order in which counts reach the channel does not matter to the
/// counter: fed the same distribution samples or the same increments in
/// another order, it ends at the same sum.
pub proof fn law_counter_sum_ignores_order<C: Count>(
    channel: ChannelView,
    measurements: Seq<Measurement<C>>,
    reordered: Seq<Measurement<C>>,
)
    requires
        measurements.to_multiset() == reordered.to_multiset(),
        forall|i: int|
            0 <= i < measurements.len() ==> (#[trigger] measurements[i]).counts_for(
                channel.source,
            ),
    ensures
        channel.recorded_all(measurements).counter == channel.recorded_all(reordered).counter,
{
    measurements.to_multiset_ensures();
    reordered.to_multiset_ensures();
    assert forall|j: int| 0 <= j < reordered.len() implies (#[trigger] reordered[j]).counts_for(
        channel.source,
    ) by {
        assert(reordered.contains(reordered[j]));
        assert(reordered.to_multiset().count(reordered[j]) > 0);
        assert(measurements.contains(reordered[j]));
    }
    lemma_total_count_ignores_order(measurements, reordered);
    law_counter_sums_counts(channel, measurements);
    law_counter_sums_counts(channel, reordered);
}

/// To take one measurement out is to take its count off the total.
proof fn lemma_total_count_remove<C: Count>(measurements: Seq<Measurement<C>>, i: int)
    requires
        0 <= i < measurements.len(),
    ensures
        total_count(measurements) == total_count(measurements.remove(i)) + measurements[i].count(),
    decreases measurements.len(),
{
    if i == measurements.len() - 1 {
        assert(measurements.remove(i) =~= measurements.drop_last());
    } else {
        lemma_total_count_remove(measurements.drop_last(), i);
        assert(measurements.remove(i).drop_last() =~= measurements.drop_last().remove(i));
        assert(measurements.remove(i).last() == measurements.last());
    }
}

/// The total of the counts is that of the measurements, in whatever order
/// they stand.
proof fn lemma_total_count_ignores_order<C: Count>(
    measurements: Seq<Measurement<C>>,
    reordered: Seq<Measurement<C>>,
)
    requires
        measurements.to_multiset() == reordered.to_multiset(),
    ensures
        total_count(measurements) == total_count(reordered),
    decreases measurements.len(),
{
    measurements.to_multiset_ensures();
    reordered.to_multiset_ensures();
    assert(measurements.len() == reordered.len());
    if measurements.len() > 0 {
        let last = measurements.last();
        assert(measurements.contains(last));
        assert(measurements.to_multiset().count(last) > 0);
        assert(reordered.contains(last));
        let j: int = choose|j: int| 0 <= j < reordered.len() && reordered[j] == last;
        assert(measurements.drop_last() =~= measurements.remove(measurements.len() - 1));
        assert(measurements.remove(measurements.len() - 1).to_multiset()
            =~= reordered.remove(j).to_multiset());
        lemma_total_count_ignores_order(measurements.drop_last(), reordered.remove(j));
        lemma_total_count_remove(reordered, j);
    }
}

/// A zeroed channel is the channel as it was made, but for the statistics to
/// report: its counter is zero, its extrema have no value, and the histogram,
/// where there is one, is to be emptied. A snapshot for which the histogram
/// has nothing to say holds the counter alone.
pub proof fn law_zero_restores_defaults<C: Count>(
    channel: ChannelView,
    quantiles: Seq<(Percentile, Option<u64>)>,
    percentile: Percentile,
)
    requires
        forall|i: int| 0 <= i < quantiles.len() ==> (#[trigger] quantiles[i]).1.is_none(),
    ensures
        channel.after_zero() == (ChannelView {
            latched: channel.latched,
            outputs: channel.outputs,
            ..ChannelView::fresh(channel.name, channel.source, channel.histogram)
        }),
        channel.histogram ==> channel.owed_at_zero::<C>() == HistogramAction::<C>::Clear,
        !channel.histogram ==> channel.owed_at_zero::<C>() == HistogramAction::<C>::Idle,
        channel.after_zero().counter == 0,
        channel.after_zero().value_of(Output::Counter, quantiles) == Some(0u64),
        channel.after_zero().value_of(Output::MaxPointTime, quantiles).is_none(),
        channel.after_zero().value_of(Output::MinPointTime, quantiles).is_none(),
        channel.after_zero().value_of(Output::Percentile(percentile), quantiles).is_none(),
        forall|i: int|
            0 <= i < channel.after_zero().values(quantiles).len() ==> #[trigger] channel.after_zero().values(
                quantiles,
            )[i] == (Output::Counter, 0u64),
{
    let zeroed = channel.after_zero();
    lemma_no_answer(quantiles, percentile);
    assert forall|i: int| 0 <= i < zeroed.values(quantiles).len() implies #[trigger] zeroed.values(
        quantiles,
    )[i] == (Output::Counter, 0u64) by {
        let entry = zeroed.values(quantiles)[i];
        assert(zeroed.values(quantiles).contains(entry));
        zeroed.outputs.lemma_filter_map_contains(zeroed.entry_of(quantiles), entry);
        let output = choose|output: Output|
            zeroed.outputs.contains(output) && (zeroed.entry_of(quantiles))(output) == Some(entry);
        match output {
            Output::Percentile(p) => {
                lemma_no_answer(quantiles, p);
            },
            _ => {},
        }
    }
}

/// A histogram that has answered nothing has no answer for any percentile.
proof fn lemma_no_answer(quantiles: Seq<(Percentile, Option<u64>)>, percentile: Percentile)
    requires
        forall|i: int| 0 <= i < quantiles.len() ==> (#[trigger] quantiles[i]).1.is_none(),
    ensures
        answer_for(quantiles, percentile).is_none(),
    decreases quantiles.len(),
{
    if quantiles.len() > 0 {
        let rest = quantiles.drop_first();
        assert forall|i: int| 0 <= i < rest.len() implies (#[trigger] rest[i]).1.is_none() by {
            assert(rest[i] == quantiles[i + 1]);
        }
        lemma_no_answer(rest, percentile);
        assert(quantiles.first() == quantiles[0]);
    }
}

/// A latch leaves the counter and the baseline alone and forgets the
/// extrema. On a latched channel with a histogram, the histogram is to be
/// emptied; on a channel that is not latched, it is left as it is.
pub proof fn law_latch_keeps_counter<C: Count>(channel: ChannelView)
    ensures
        channel.after_latch().counter == channel.counter,
        channel.after_latch().has_data == channel.has_data,
        channel.after_latch().last_write == channel.last_write,
        !channel.after_latch().max.is_set(),
        !channel.after_latch().min.is_set(),
        channel.latched && channel.histogram ==> channel.owed_at_latch::<C>()
            == HistogramAction::<C>::Clear,
        !channel.latched ==> channel.owed_at_latch::<C>() == HistogramAction::<C>::Idle,
{
}

/// A measurement that is meant for a channel of another kind changes nothing,
/// and the histogram is owed nothing for it.
pub proof fn law_mismatch_changes_nothing<C: Count>(
    channel: ChannelView,
    measurement: Measurement<C>,
)
    requires
        measurement.source() != channel.source,
    ensures
        channel.recorded(measurement) == channel,
        channel.owed(measurement) == HistogramAction::<C>::Idle,
{
}

/// To ask for a statistic twice is to ask for it once, and once asked for it
/// is reported.
pub proof fn law_add_output_idempotent(channel: ChannelView, output: Output)
    ensures
        channel.with_output(output).outputs.contains(output),
        channel.with_output(output).with_output(output) == channel.with_output(output),
        channel.outputs.no_duplicates() ==> channel.with_output(output).outputs.no_duplicates(),
{
    let added = channel.with_output(output);
    if !channel.outputs.contains(output) {
        assert(added.outputs[channel.outputs.len() as int] == output);
    }
}

/// A statistic that was given up is no longer reported; the others are
/// reported as before; and to give it up twice is to give it up once.
pub proof fn law_delete_output_idempotent(channel: ChannelView, output: Output)
    ensures
        !channel.without_output(output).outputs.contains(output),
        forall|other: Output|
            other != output ==> (channel.without_output(output).outputs.contains(other)
                <==> channel.outputs.contains(other)),
        channel.without_output(output).without_output(output) == channel.without_output(output),
{
    let pred = other_than(output);
    let kept = channel.outputs.filter(pred);
    lemma_filter_membership(channel.outputs, output);
    lemma_filter_membership(kept, output);
    lemma_filter_fixed(kept, output);
}

/// What a filter keeps is what was there and passes.
proof fn lemma_filter_membership(outputs: Seq<Output>, output: Output)
    ensures
        forall|other: Output|
            outputs.filter(other_than(output)).contains(other) <==> (outputs.contains(other)
                && other != output),
{
    let pred = other_than(output);
    let kept = outputs.filter(pred);
    assert forall|other: Output|
        kept.contains(other) <==> (outputs.contains(other) && other != output) by {
        if kept.contains(other) {
            let j: int = choose|j: int| 0 <= j < kept.len() && kept[j] == other;
            outputs.lemma_filter_contains_rev(pred, other);
            outputs.lemma_filter_pred(pred, j);
        }
        if outputs.contains(other) && other != output {
            let i: int = choose|i: int| 0 <= i < outputs.len() && outputs[i] == other;
            outputs.lemma_filter_contains(pred, i);
        }
    }
}

/// To filter what was filtered changes nothing.
proof fn lemma_filter_fixed(outputs: Seq<Output>, output: Output)
    requires
        !outputs.contains(output),
    ensures
        outputs.filter(other_than(output)) == outputs,
    decreases outputs.len(),
{
    reveal(Seq::filter);
    if outputs.len() > 0 {
        let front = outputs.drop_last();
        assert forall|i: int| 0 <= i < front.len() implies front[i] != output by {
            assert(outputs[i] == front[i]);
        }
        assert(!front.contains(output));
        lemma_filter_fixed(front, output);
        assert(outputs.last() == outputs[outputs.len() - 1]);
        assert(front.push(outputs.last()) =~= outputs);
    }
}

} // verus!
