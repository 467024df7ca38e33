use metrics::{Count, HistogramAction, Measurement, Output, Percentile, Point, Reading, MILLION};

#[test]
fn percentile_range() {
    assert_eq!(MILLION, 1_000_000);
    assert_eq!(Percentile::new(0).unwrap().ppm(), 0);
    assert_eq!(Percentile::new(999_000).unwrap().ppm(), 999_000);
    assert_eq!(Percentile::new(1_000_000).unwrap().ppm(), 1_000_000);
    assert!(Percentile::new(1_000_001).is_none());
    assert!(Percentile::new(u32::MAX).is_none());
}

#[test]
fn percentiles_compare_by_share() {
    assert_eq!(Percentile::new(500_000), Percentile::new(500_000));
    assert_ne!(Percentile::new(500_000), Percentile::new(500_001));
    assert_ne!(
        Output::Percentile(Percentile::new(1).unwrap()),
        Output::Percentile(Percentile::new(2).unwrap())
    );
}

#[test]
fn point_set_and_read() {
    let mut p = Point::new(0, 0);
    assert_eq!((p.value(), p.time()), (0, 0));
    p.set(12, 34);
    assert_eq!((p.value(), p.time()), (12, 34));
    p.set(0, 0);
    assert_eq!(p, Point::new(0, 0));
}

#[test]
fn point_tracks_the_maximum() {
    let mut p = Point::new(0, 0);
    p.track_max(5, 10);
    assert_eq!(p, Point::new(5, 10));
    p.track_max(5, 11);
    assert_eq!(p, Point::new(5, 10));
    p.track_max(4, 12);
    assert_eq!(p, Point::new(5, 10));
    p.track_max(6, 13);
    assert_eq!(p, Point::new(6, 13));
}

#[test]
fn point_tracks_the_minimum() {
    let mut p = Point::new(0, 0);
    p.track_min(5, 10);
    assert_eq!(p, Point::new(5, 10));
    p.track_min(5, 11);
    assert_eq!(p, Point::new(5, 10));
    p.track_min(6, 12);
    assert_eq!(p, Point::new(5, 10));
    p.track_min(0, 13);
    assert_eq!(p, Point::new(0, 13));
    // a zero at a real time is an extremum like any other
    p.track_min(0, 14);
    assert_eq!(p, Point::new(0, 13));
}

#[test]
fn unset_point_takes_the_first_observation() {
    // the value of a point that was never set does not count
    let mut max = Point::new(100, 0);
    max.track_max(1, 7);
    assert_eq!(max, Point::new(1, 7));
    let mut min = Point::new(0, 0);
    min.track_min(9, 7);
    assert_eq!(min, Point::new(9, 7));
}

#[test]
fn counts_widen() {
    assert_eq!(200_u8.widen(), 200);
    assert_eq!(60_000_u16.widen(), 60_000);
    assert_eq!(u32::MAX.widen(), 4_294_967_295);
    assert_eq!(u64::MAX.widen(), u64::MAX);
    assert_eq!(<u8 as Count>::one(), 1);
    assert_eq!(<u16 as Count>::one(), 1);
    assert_eq!(<u32 as Count>::one(), 1);
    assert_eq!(<u64 as Count>::one(), 1);
}

#[test]
fn reading_holds_what_it_was_given() {
    let r = Reading::new(String::from("requests"), Output::MinPointTime, 77);
    assert_eq!(r.name(), "requests");
    assert_eq!(r.output(), Output::MinPointTime);
    assert_eq!(r.value(), 77);
}

#[test]
fn reading_clone_is_equal_in_all_parts() {
    let r = Reading::new(String::from("latency"), Output::Counter, 3);
    let copy = r.clone();
    assert_eq!(copy.name(), r.name());
    assert_eq!(copy.output(), r.output());
    assert_eq!(copy.value(), r.value());
}

#[test]
fn measurements_and_actions_are_copied() {
    let m: Measurement<u16> = Measurement::Distribution { value: 4, count: 9, time: 2 };
    let copy = m;
    assert_eq!(m, copy);
    assert_eq!(m.clone(), Measurement::Distribution { value: 4, count: 9, time: 2 });
    let a: HistogramAction<u16> = HistogramAction::Increment { value: 4, count: 9 };
    let copy = a;
    assert_eq!(a, copy);
    assert_eq!(a.clone(), HistogramAction::Increment { value: 4, count: 9 });
    assert_ne!(a, HistogramAction::Clear);
}
