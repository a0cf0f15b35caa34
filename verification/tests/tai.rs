use nmos_node::tai::{TaiClock, TaiTime, TAI_OFFSET_SECS};

#[test]
fn tai_is_37_seconds_ahead() {
    assert_eq!(TAI_OFFSET_SECS, 37);
    let t = TaiTime::from_unix(1_000, 5);
    assert_eq!(t.seconds(), 1_037);
    assert_eq!(t.subsec_nanos(), 5);
}

#[test]
fn tai_seconds_stop_at_the_largest_number() {
    assert_eq!(TaiTime::from_unix(u64::MAX, 1).seconds(), u64::MAX);
    assert_eq!(TaiTime::from_unix(u64::MAX - 36, 1).seconds(), u64::MAX);
    assert_eq!(TaiTime::from_unix(u64::MAX - 37, 1).seconds(), u64::MAX);
    assert_eq!(TaiTime::from_unix(u64::MAX - 38, 1).seconds(), u64::MAX - 1);
}

#[test]
fn a_clock_before_the_epoch_reads_as_the_epoch() {
    let t = TaiTime::from_reading(None);
    assert_eq!(t.seconds(), 37);
    assert_eq!(t.subsec_nanos(), 0);
    let t = TaiTime::from_reading(Some((10, 20)));
    assert_eq!(t.seconds(), 47);
    assert_eq!(t.subsec_nanos(), 20);
}

#[test]
fn tai_text_is_seconds_colon_nanoseconds() {
    assert_eq!(TaiTime::from_unix(0, 0).to_string(), "37:0");
    assert_eq!(TaiTime::from_unix(1_441_974_485 - 37, 123_456_789).to_string(), "1441974485:123456789");
    assert_eq!(TaiTime::from_unix(63, 7).to_string(), "100:7");
    assert_eq!(TaiTime::from_unix(u64::MAX, u32::MAX).to_string(), "18446744073709551615:4294967295");
}

#[test]
fn now_is_after_the_epoch() {
    let t = TaiTime::now();
    assert!(t.seconds() > 1_600_000_000);
    assert!(t.subsec_nanos() < 1_000_000_000);
    let text = t.to_string();
    let (secs, nanos) = text.split_once(':').unwrap();
    assert_eq!(secs.parse::<u64>().unwrap(), t.seconds());
    assert_eq!(nanos.parse::<u32>().unwrap(), t.subsec_nanos());
}

#[test]
fn stamps_are_ordered_by_seconds_then_nanoseconds() {
    let a = TaiTime::from_unix(1, 500);
    let b = TaiTime::from_unix(2, 0);
    let c = TaiTime::from_unix(2, 1);
    assert!(a.le(&b));
    assert!(b.le(&c));
    assert!(a.le(&a));
    assert!(!b.le(&a));
    assert!(!c.le(&b));
}

#[test]
fn a_clock_never_goes_back() {
    let mut clock = TaiClock::new();
    let first = clock.tick(TaiTime::from_unix(100, 5));
    assert_eq!(first, TaiTime::from_unix(100, 5));
    let second = clock.tick(TaiTime::from_unix(90, 0));
    assert_eq!(second, first);
    let third = clock.tick(TaiTime::from_unix(100, 4));
    assert_eq!(third, first);
    let fourth = clock.tick(TaiTime::from_unix(100, 6));
    assert_eq!(fourth, TaiTime::from_unix(100, 6));
}

#[test]
fn successive_readings_of_a_clock_do_not_decrease() {
    let mut clock = TaiClock::new();
    let mut last = clock.now();
    for _ in 0..1000 {
        let next = clock.now();
        assert!(last.le(&next));
        last = next;
    }
}
