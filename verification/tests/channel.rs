use metrics::{Channel, HistogramAction, Measurement, Output, Percentile, Reading, Source};

fn channel(source: Source, histogram: bool) -> Channel<u64> {
    Channel::new(String::from("requests"), source, histogram)
}

fn outputs_of(readings: &[Reading]) -> Vec<(String, Output, u64)> {
    readings.iter().map(|r| (r.name(), r.output(), r.value())).collect()
}

#[test]
fn new_channel_has_defaults() {
    let c = channel(Source::Counter, true);
    assert_eq!(c.name(), "requests");
    assert_eq!(c.source(), Source::Counter);
    assert_eq!(c.counter(), 0);
    assert!(c.outputs().is_empty());
    assert!(c.readings(&[]).is_empty());
    assert!(c.hash_map(&[]).is_empty());
}

#[test]
fn first_counter_reading_is_the_baseline() {
    let mut c = channel(Source::Counter, true);
    c.add_output(Output::MaxPointTime);
    c.add_output(Output::MinPointTime);
    let action = c.record(Measurement::Counter { value: 1_000, time: 50 });
    assert_eq!(action, HistogramAction::Idle);
    assert_eq!(c.counter(), 1_000);
    assert!(c.readings(&[]).is_empty());
}

#[test]
fn second_counter_reading_gives_the_rate() {
    let mut c = channel(Source::Counter, true);
    c.add_output(Output::Counter);
    c.add_output(Output::MaxPointTime);
    c.add_output(Output::MinPointTime);
    c.record(Measurement::Counter { value: 1_000, time: 1_000_000_000 });
    let action = c.record(Measurement::Counter { value: 1_500, time: 3_000_000_000 });
    assert_eq!(action, HistogramAction::Increment { value: 250, count: 1 });
    assert_eq!(c.counter(), 1_500);
    assert_eq!(
        c.hash_map(&[]),
        vec![
            (Output::Counter, 1_500),
            (Output::MaxPointTime, 3_000_000_000),
            (Output::MinPointTime, 3_000_000_000),
        ]
    );
}

#[test]
fn counter_rate_is_truncated() {
    let mut c = channel(Source::Counter, true);
    c.record(Measurement::Counter { value: 0, time: 10 });
    let action = c.record(Measurement::Counter { value: 1, time: 13 });
    assert_eq!(action, HistogramAction::Increment { value: 333_333_333, count: 1 });
}

#[test]
fn counter_extrema_follow_the_rate() {
    let mut c = channel(Source::Counter, false);
    c.add_output(Output::MaxPointTime);
    c.add_output(Output::MinPointTime);
    let second: u64 = 1_000_000_000;
    c.record(Measurement::Counter { value: 0, time: second });
    // 10 per second, then 30, then 5, then 30 again
    assert_eq!(c.record(Measurement::Counter { value: 10, time: 2 * second }), HistogramAction::Idle);
    c.record(Measurement::Counter { value: 40, time: 3 * second });
    c.record(Measurement::Counter { value: 45, time: 4 * second });
    c.record(Measurement::Counter { value: 75, time: 5 * second });
    assert_eq!(
        c.hash_map(&[]),
        vec![(Output::MaxPointTime, 3 * second), (Output::MinPointTime, 4 * second)]
    );
    assert_eq!(c.counter(), 75);
}

#[test]
fn counter_that_starts_anew_wraps() {
    let mut c = channel(Source::Counter, true);
    c.record(Measurement::Counter { value: 100, time: 1_000_000_000 });
    // the reading fell by one: the difference wraps to 2^64 - 1 over one second
    let action = c.record(Measurement::Counter { value: 99, time: 2_000_000_000 });
    assert_eq!(action, HistogramAction::Increment { value: u64::MAX, count: 1 });
    assert_eq!(c.counter(), 99);
}

#[test]
fn counter_reading_without_elapsed_time() {
    let mut c = channel(Source::Counter, true);
    c.record(Measurement::Counter { value: 100, time: 7 });
    assert_eq!(
        c.record(Measurement::Counter { value: 100, time: 7 }),
        HistogramAction::Increment { value: 0, count: 1 }
    );
    assert_eq!(
        c.record(Measurement::Counter { value: 101, time: 7 }),
        HistogramAction::Increment { value: u64::MAX, count: 1 }
    );
}

#[test]
fn gauge_counter_is_the_latest_reading() {
    let mut c = channel(Source::Gauge, true);
    for (k, value) in [17_u64, 3, 3, 900, 0, 42].into_iter().enumerate() {
        let action = c.record(Measurement::Gauge { value, time: 10 + k as u64 });
        assert_eq!(action, HistogramAction::Increment { value, count: 1 });
        assert_eq!(c.counter(), value);
    }
}

#[test]
fn gauge_extrema() {
    let mut c = channel(Source::Gauge, false);
    c.add_output(Output::MinPointTime);
    c.add_output(Output::MaxPointTime);
    c.record(Measurement::Gauge { value: 5, time: 10 });
    assert_eq!(c.hash_map(&[]), vec![(Output::MinPointTime, 10), (Output::MaxPointTime, 10)]);
    // an equal reading replaces neither extremum
    c.record(Measurement::Gauge { value: 5, time: 11 });
    assert_eq!(c.hash_map(&[]), vec![(Output::MinPointTime, 10), (Output::MaxPointTime, 10)]);
    c.record(Measurement::Gauge { value: 9, time: 12 });
    c.record(Measurement::Gauge { value: 2, time: 13 });
    c.record(Measurement::Gauge { value: 7, time: 14 });
    assert_eq!(c.hash_map(&[]), vec![(Output::MinPointTime, 13), (Output::MaxPointTime, 12)]);
}

#[test]
fn minimum_is_reported_by_its_own_point() {
    let mut c = channel(Source::Gauge, false);
    c.add_output(Output::MaxPointTime);
    c.add_output(Output::MinPointTime);
    c.record(Measurement::Gauge { value: 5, time: 10 });
    // a larger reading at time zero leaves the maximum without a time
    c.record(Measurement::Gauge { value: 7, time: 0 });
    assert_eq!(c.hash_map(&[]), vec![(Output::MinPointTime, 10)]);
}

#[test]
fn distribution_counter_sums_the_counts() {
    let mut c: Channel<u32> = Channel::new(String::from("latency"), Source::Distribution, true);
    let mut sum: u64 = 0;
    for (value, count) in [(100_u64, 3_u32), (250, 1), (100, 40), (7, 0), (9, u32::MAX)] {
        let action = c.record(Measurement::Distribution { value, count, time: 1 });
        assert_eq!(action, HistogramAction::Increment { value, count });
        sum += u64::from(count);
        assert_eq!(c.counter(), sum);
    }
    assert_eq!(c.counter(), 44 + u64::from(u32::MAX));
}

#[test]
fn increment_counter_sums_the_counts() {
    let mut c: Channel<u8> = Channel::new(String::from("hits"), Source::Counter, true);
    assert_eq!(
        c.record(Measurement::Increment { count: 5, time: 1 }),
        HistogramAction::Increment { value: 5, count: 1 }
    );
    assert_eq!(
        c.record(Measurement::Increment { count: 255, time: 2 }),
        HistogramAction::Increment { value: 255, count: 1 }
    );
    assert_eq!(c.counter(), 260);
}

#[test]
fn counter_sum_wraps() {
    let mut c = channel(Source::Distribution, false);
    c.record(Measurement::Distribution { value: 1, count: u64::MAX, time: 1 });
    c.record(Measurement::Distribution { value: 1, count: 3, time: 2 });
    assert_eq!(c.counter(), 2);
}

#[test]
fn increment_is_no_baseline() {
    let mut c = channel(Source::Counter, true);
    c.record(Measurement::Increment { count: 5, time: 1_000_000_000 });
    // the first reading of the counter is still the baseline
    assert_eq!(
        c.record(Measurement::Counter { value: 100, time: 2_000_000_000 }),
        HistogramAction::Idle
    );
    assert_eq!(c.counter(), 100);
    assert_eq!(
        c.record(Measurement::Counter { value: 130, time: 3_000_000_000 }),
        HistogramAction::Increment { value: 30, count: 1 }
    );
}

#[test]
fn time_interval_round_trip() {
    let mut c = channel(Source::TimeInterval, true);
    c.add_output(Output::MaxPointTime);
    let action = c.record(Measurement::TimeInterval { start: 100, stop: 350 });
    assert_eq!(action, HistogramAction::Increment { value: 250, count: 1 });
    let readings = c.readings(&[]);
    assert_eq!(
        outputs_of(&readings),
        vec![(String::from("requests"), Output::MaxPointTime, 100)]
    );
}

#[test]
fn time_interval_counts_events() {
    let mut c = channel(Source::TimeInterval, false);
    c.add_output(Output::Counter);
    c.add_output(Output::MaxPointTime);
    c.add_output(Output::MinPointTime);
    c.record(Measurement::TimeInterval { start: 100, stop: 350 });
    c.record(Measurement::TimeInterval { start: 400, stop: 410 });
    c.record(Measurement::TimeInterval { start: 500, stop: 1_500 });
    assert_eq!(c.counter(), 3);
    assert_eq!(
        c.hash_map(&[]),
        vec![(Output::Counter, 3), (Output::MaxPointTime, 500), (Output::MinPointTime, 400)]
    );
}

#[test]
fn time_interval_that_stops_before_it_starts_wraps() {
    let mut c = channel(Source::TimeInterval, true);
    assert_eq!(
        c.record(Measurement::TimeInterval { start: 10, stop: 9 }),
        HistogramAction::Increment { value: u64::MAX, count: 1 }
    );
}

#[test]
fn mismatched_measurement_is_dropped() {
    let p50 = Percentile::new(500_000).unwrap();
    let table = [(p50, Some(12))];
    for source in [Source::Counter, Source::Distribution, Source::Gauge, Source::TimeInterval] {
        let mut c = channel(source, true);
        c.add_output(Output::Counter);
        c.add_output(Output::MaxPointTime);
        c.add_output(Output::MinPointTime);
        c.add_output(Output::Percentile(p50));
        let before = c.hash_map(&table);
        let measurements = [
            Measurement::Counter { value: 9, time: 9 },
            Measurement::Distribution { value: 9, count: 9, time: 9 },
            Measurement::Gauge { value: 9, time: 9 },
            Measurement::Increment { count: 9, time: 9 },
            Measurement::TimeInterval { start: 9, stop: 19 },
        ];
        for m in measurements {
            let meant_for = match m {
                Measurement::Counter { .. } | Measurement::Increment { .. } => Source::Counter,
                Measurement::Distribution { .. } => Source::Distribution,
                Measurement::Gauge { .. } => Source::Gauge,
                Measurement::TimeInterval { .. } => Source::TimeInterval,
            };
            if meant_for != source {
                assert_eq!(c.record(m), HistogramAction::Idle);
                assert_eq!(c.counter(), 0);
                assert_eq!(c.hash_map(&table), before);
            }
        }
    }
}

#[test]
fn gauge_sent_to_a_counter_channel() {
    let mut c = channel(Source::Counter, true);
    c.add_output(Output::MaxPointTime);
    c.record(Measurement::Counter { value: 10, time: 1_000_000_000 });
    c.record(Measurement::Counter { value: 20, time: 2_000_000_000 });
    let before = c.hash_map(&[]);
    assert_eq!(c.record(Measurement::Gauge { value: 77, time: 3_000_000_000 }), HistogramAction::Idle);
    assert_eq!(c.counter(), 20);
    assert_eq!(c.hash_map(&[]), before);
    // the time of the last write stood still: the next rate is over one second more
    assert_eq!(
        c.record(Measurement::Counter { value: 40, time: 4_000_000_000 }),
        HistogramAction::Increment { value: 10, count: 1 }
    );
}

#[test]
fn without_histogram_nothing_is_owed() {
    let mut c = channel(Source::Gauge, false);
    assert_eq!(c.record(Measurement::Gauge { value: 1, time: 1 }), HistogramAction::Idle);
    assert_eq!(c.latch(), HistogramAction::Idle);
    assert_eq!(c.zero(), HistogramAction::Idle);
}

#[test]
fn percentile_needs_a_histogram() {
    let with = channel(Source::Gauge, true);
    assert_eq!(with.percentile(Some(40)), Some(40));
    assert_eq!(with.percentile(None), None);
    let without = channel(Source::Gauge, false);
    assert_eq!(without.percentile(Some(40)), None);
    assert_eq!(without.percentile(None), None);
}

#[test]
fn latch_keeps_the_counter() {
    let mut c = channel(Source::Gauge, true);
    c.add_output(Output::Counter);
    c.add_output(Output::MaxPointTime);
    c.add_output(Output::MinPointTime);
    c.record(Measurement::Gauge { value: 8, time: 3 });
    assert_eq!(c.latch(), HistogramAction::Clear);
    assert_eq!(c.counter(), 8);
    assert_eq!(c.hash_map(&[]), vec![(Output::Counter, 8)]);
    // after a latch the first observation is taken as it is
    c.record(Measurement::Gauge { value: 2, time: 4 });
    assert_eq!(
        c.hash_map(&[]),
        vec![(Output::Counter, 2), (Output::MaxPointTime, 4), (Output::MinPointTime, 4)]
    );
}

#[test]
fn latch_keeps_the_baseline() {
    let mut c = channel(Source::Counter, true);
    c.record(Measurement::Counter { value: 10, time: 1_000_000_000 });
    c.latch();
    assert_eq!(
        c.record(Measurement::Counter { value: 25, time: 2_000_000_000 }),
        HistogramAction::Increment { value: 15, count: 1 }
    );
}

#[test]
fn zero_restores_the_defaults() {
    let p99 = Percentile::new(990_000).unwrap();
    let mut c = channel(Source::Counter, true);
    c.add_output(Output::Counter);
    c.add_output(Output::MaxPointTime);
    c.add_output(Output::MinPointTime);
    c.add_output(Output::Percentile(p99));
    c.record(Measurement::Counter { value: 10, time: 1_000_000_000 });
    c.record(Measurement::Counter { value: 25, time: 2_000_000_000 });
    assert_eq!(c.hash_map(&[(p99, Some(15))]).len(), 4);
    assert_eq!(c.zero(), HistogramAction::Clear);
    assert_eq!(c.counter(), 0);
    assert_eq!(c.percentile(None), None);
    assert_eq!(c.hash_map(&[(p99, None)]), vec![(Output::Counter, 0)]);
    assert_eq!(c.outputs().len(), 4);
    // the next reading is a baseline again
    assert_eq!(
        c.record(Measurement::Counter { value: 500, time: 3_000_000_000 }),
        HistogramAction::Idle
    );
    assert_eq!(c.counter(), 500);
}

#[test]
fn outputs_are_a_set() {
    let p50 = Percentile::new(500_000).unwrap();
    let p90 = Percentile::new(900_000).unwrap();
    let mut c = channel(Source::Gauge, true);
    c.add_output(Output::Counter);
    c.add_output(Output::Percentile(p50));
    c.add_output(Output::Counter);
    c.add_output(Output::Percentile(Percentile::new(500_000).unwrap()));
    c.add_output(Output::Percentile(p90));
    assert_eq!(
        c.outputs(),
        vec![Output::Counter, Output::Percentile(p50), Output::Percentile(p90)]
    );
    c.delete_output(Output::Percentile(p50));
    c.delete_output(Output::Percentile(p50));
    c.delete_output(Output::MaxPointTime);
    assert_eq!(c.outputs(), vec![Output::Counter, Output::Percentile(p90)]);
    c.delete_output(Output::Counter);
    c.delete_output(Output::Percentile(p90));
    assert!(c.outputs().is_empty());
}

#[test]
fn readings_take_the_first_answer_for_a_percentile() {
    let p50 = Percentile::new(500_000).unwrap();
    let p90 = Percentile::new(900_000).unwrap();
    let p99 = Percentile::new(990_000).unwrap();
    let mut c = channel(Source::Gauge, true);
    c.add_output(Output::Percentile(p90));
    c.add_output(Output::Percentile(p50));
    c.add_output(Output::Percentile(p99));
    c.add_output(Output::Counter);
    c.record(Measurement::Gauge { value: 6, time: 1 });
    let table = [(p50, Some(5)), (p90, None), (p90, Some(9)), (p50, Some(50))];
    assert_eq!(
        c.hash_map(&table),
        vec![(Output::Percentile(p50), 5), (Output::Counter, 6)]
    );
    assert_eq!(
        outputs_of(&c.readings(&table)),
        vec![
            (String::from("requests"), Output::Percentile(p50), 5),
            (String::from("requests"), Output::Counter, 6),
        ]
    );
}

#[test]
fn readings_without_histogram_have_no_percentiles() {
    let p50 = Percentile::new(500_000).unwrap();
    let mut c = channel(Source::Gauge, false);
    c.add_output(Output::Percentile(p50));
    c.add_output(Output::Counter);
    assert_eq!(c.hash_map(&[(p50, Some(5))]), vec![(Output::Counter, 0)]);
}

#[test]
fn channels_are_equal_by_name() {
    let mut a = channel(Source::Gauge, true);
    let b = channel(Source::Counter, false);
    let other: Channel<u64> = Channel::new(String::from("errors"), Source::Gauge, true);
    a.record(Measurement::Gauge { value: 1, time: 1 });
    assert!(a == b);
    assert!(a != other);
}

#[test]
fn counter_sum_ignores_the_order() {
    let counts: [u16; 5] = [7, 0, 65_535, 12, 300];
    let mut forward: Channel<u16> = Channel::new(String::from("hits"), Source::Counter, false);
    for count in counts {
        forward.record(Measurement::Increment { count, time: 1 });
    }
    let mut backward: Channel<u16> = Channel::new(String::from("hits"), Source::Counter, false);
    for count in counts.into_iter().rev() {
        backward.record(Measurement::Increment { count, time: 1 });
    }
    assert_eq!(forward.counter(), 65_854);
    assert_eq!(backward.counter(), 65_854);
}
