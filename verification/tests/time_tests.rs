use wlbreaktime::time::Timestamp;

#[test]
fn new_rejects_a_full_second_of_nanoseconds() {
    assert!(Timestamp::new(5, 999_999_999).is_some());
    assert!(Timestamp::new(5, 1_000_000_000).is_none());
    assert!(Timestamp::new(0, u32::MAX).is_none());
}

#[test]
fn parts_are_kept() {
    let t = Timestamp::new(12, 345).unwrap();
    assert_eq!(t.secs(), 12);
    assert_eq!(t.subsec_nanos(), 345);
    let m = Timestamp::from_millis(2_750);
    assert_eq!(m.secs(), 2);
    assert_eq!(m.subsec_nanos(), 750_000_000);
    assert_eq!(Timestamp::from_secs(9), Timestamp::new(9, 0).unwrap());
    assert_eq!(Timestamp::from_millis(u64::MAX).secs(), u64::MAX / 1000);
}

#[test]
fn elapsed_is_rounded_down() {
    let start = Timestamp::from_millis(1_500);
    assert_eq!(Timestamp::from_millis(1_500).seconds_since(start), 0);
    assert_eq!(Timestamp::from_millis(2_499).seconds_since(start), 0);
    assert_eq!(Timestamp::from_millis(2_500).seconds_since(start), 1);
    assert_eq!(Timestamp::from_millis(3_000).seconds_since(start), 1);
    assert_eq!(Timestamp::from_millis(3_499).seconds_since(start), 1);
    assert_eq!(Timestamp::from_millis(3_500).seconds_since(start), 2);
}

#[test]
fn elapsed_is_never_negative() {
    let start = Timestamp::from_secs(100);
    assert_eq!(Timestamp::from_secs(99).seconds_since(start), 0);
    assert_eq!(Timestamp::from_secs(0).seconds_since(start), 0);
    let late = Timestamp::new(100, 5).unwrap();
    assert_eq!(Timestamp::from_secs(100).seconds_since(late), 0);
}

#[test]
fn elapsed_spans_the_whole_range() {
    let start = Timestamp::from_secs(0);
    let end = Timestamp::new(u64::MAX, 999_999_999).unwrap();
    assert_eq!(end.seconds_since(start), u64::MAX);
    let almost = Timestamp::new(0, 1).unwrap();
    assert_eq!(end.seconds_since(almost), u64::MAX);
    let more = Timestamp::new(0, 999_999_999).unwrap();
    assert_eq!(Timestamp::new(u64::MAX, 0).unwrap().seconds_since(more), u64::MAX - 1);
}

#[test]
fn later_readings_show_no_less_elapsed_time() {
    let start = Timestamp::from_millis(250);
    let mut last = 0;
    for ms in [250u64, 900, 1_249, 1_250, 5_000, 5_001, 60_250] {
        let e = Timestamp::from_millis(ms).seconds_since(start);
        assert!(e >= last);
        last = e;
    }
    assert_eq!(last, 60);
}
