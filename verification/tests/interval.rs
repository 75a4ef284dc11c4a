use system_monitor::Interval;

#[test]
fn from_secs_has_no_subsecond_part() {
    let span = Interval::from_secs(30);
    assert_eq!(span.secs(), 30);
    assert_eq!(span.subsec_nanos(), 0);
}

#[test]
fn from_millis_splits_seconds_and_nanoseconds() {
    let span = Interval::from_millis(1_500);
    assert_eq!(span.secs(), 1);
    assert_eq!(span.subsec_nanos(), 500_000_000);
    let short = Interval::from_millis(999);
    assert_eq!(short.secs(), 0);
    assert_eq!(short.subsec_nanos(), 999_000_000);
}

#[test]
fn from_millis_takes_the_largest_input() {
    let span = Interval::from_millis(u64::MAX);
    assert_eq!(span.secs(), 18_446_744_073_709_551);
    assert_eq!(span.subsec_nanos(), 615_000_000);
}

#[test]
fn new_keeps_a_normal_pair() {
    let span = Interval::new(5, 7).unwrap();
    assert_eq!(span.secs(), 5);
    assert_eq!(span.subsec_nanos(), 7);
}

#[test]
fn new_carries_whole_seconds_out_of_the_nanoseconds() {
    let span = Interval::new(1, 2_500_000_000).unwrap();
    assert_eq!(span.secs(), 3);
    assert_eq!(span.subsec_nanos(), 500_000_000);
    assert_eq!(Interval::new(0, 1_000_000_000), Some(Interval::from_secs(1)));
}

#[test]
fn new_is_none_when_the_seconds_overflow() {
    assert_eq!(Interval::new(u64::MAX, 1_000_000_000), None);
    assert_eq!(Interval::new(u64::MAX - 3, u32::MAX), None);
    assert!(Interval::new(u64::MAX, 999_999_999).is_some());
    assert!(Interval::new(u64::MAX - 4, u32::MAX).is_some());
}

#[test]
fn millis_and_secs_agree() {
    assert_eq!(Interval::from_millis(10_000), Interval::from_secs(10));
    assert_ne!(Interval::from_millis(10_001), Interval::from_secs(10));
}

#[test]
fn le_orders_by_total_length() {
    let short = Interval::from_millis(1_999);
    let long = Interval::from_secs(2);
    assert!(short.le(&long));
    assert!(!long.le(&short));
    assert!(long.le(&long));
    let same_secs_less = Interval::new(2, 1).unwrap();
    let same_secs_more = Interval::new(2, 2).unwrap();
    assert!(same_secs_less.le(&same_secs_more));
    assert!(!same_secs_more.le(&same_secs_less));
    let more_secs_less_nanos = Interval::new(3, 0).unwrap();
    assert!(same_secs_more.le(&more_secs_less_nanos));
    assert!(!more_secs_less_nanos.le(&same_secs_more));
}

#[test]
fn at_least_picks_the_longer_span() {
    let floor = Interval::from_millis(200);
    assert_eq!(Interval::from_millis(100).at_least(floor), floor);
    assert_eq!(Interval::from_millis(200).at_least(floor), floor);
    assert_eq!(Interval::from_millis(201).at_least(floor), Interval::from_millis(201));
    assert_eq!(Interval::from_secs(1).at_least(floor), Interval::from_secs(1));
}
