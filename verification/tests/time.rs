use futures_time::time::{Duration, Instant};

#[test]
fn duration_new_carries_whole_seconds() {
    let d = Duration::new(2, 1_700_000_000);
    assert_eq!(d.as_secs(), 3);
    assert_eq!(d.subsec_nanos(), 700_000_000);
    assert_eq!(d, Duration::new(3, 700_000_000));
}

#[test]
fn duration_new_takes_the_largest_seconds() {
    let d = Duration::new(u64::MAX, 999_999_999);
    assert_eq!(d.as_secs(), u64::MAX);
    assert_eq!(d.subsec_nanos(), 999_999_999);
}

#[test]
fn duration_from_secs_has_no_fraction() {
    let d = Duration::from_secs(7);
    assert_eq!(d.as_secs(), 7);
    assert_eq!(d.subsec_nanos(), 0);
}

#[test]
fn duration_from_millis_splits_seconds() {
    let d = Duration::from_millis(1_500);
    assert_eq!(d.as_secs(), 1);
    assert_eq!(d.subsec_nanos(), 500_000_000);
    let big = Duration::from_millis(u64::MAX);
    assert_eq!(big.as_secs(), 18_446_744_073_709_551);
    assert_eq!(big.subsec_nanos(), 615_000_000);
}

#[test]
fn duration_from_micros_splits_seconds() {
    let d = Duration::from_micros(2_000_003);
    assert_eq!(d.as_secs(), 2);
    assert_eq!(d.subsec_nanos(), 3_000);
}

#[test]
fn duration_from_nanos_splits_seconds() {
    let d = Duration::from_nanos(3_000_000_004);
    assert_eq!(d.as_secs(), 3);
    assert_eq!(d.subsec_nanos(), 4);
}

#[test]
fn duration_zero_is_zero() {
    assert!(Duration::zero().is_zero());
    assert!(Duration::from_millis(0).is_zero());
    assert!(!Duration::from_nanos(1).is_zero());
}

#[test]
fn duration_checked_add_carries_and_overflows() {
    let a = Duration::new(1, 600_000_000);
    let b = Duration::new(2, 700_000_000);
    assert_eq!(a.checked_add(b), Some(Duration::new(4, 300_000_000)));
    assert_eq!(a + b, Duration::new(4, 300_000_000));
    let top = Duration::new(u64::MAX, 999_999_999);
    assert_eq!(top.checked_add(Duration::from_nanos(1)), None);
    assert_eq!(top.checked_add(Duration::zero()), Some(top));
    assert_eq!(Duration::from_secs(u64::MAX).checked_add(Duration::from_secs(1)), None);
}

#[test]
fn duration_checked_sub_borrows_and_underflows() {
    let a = Duration::new(4, 300_000_000);
    let b = Duration::new(2, 700_000_000);
    assert_eq!(a.checked_sub(b), Some(Duration::new(1, 600_000_000)));
    assert_eq!(a - b, Duration::new(1, 600_000_000));
    assert_eq!(b.checked_sub(a), None);
    assert_eq!(b.saturating_sub(a), Duration::zero());
    assert_eq!(a.saturating_sub(a), Duration::zero());
}

#[test]
fn duration_comparisons_go_by_length() {
    let short = Duration::new(1, 999_999_999);
    let long = Duration::new(2, 0);
    assert!(short.lt(&long));
    assert!(short.le(&long));
    assert!(!long.lt(&short));
    assert!(!long.le(&short));
    assert!(long.le(&long));
    assert!(!long.lt(&long));
    assert!(short < long);
}

#[test]
fn instant_checked_add_moves_forward() {
    let t = Instant::from_origin(Duration::from_secs(1));
    let later = t.checked_add(Duration::from_millis(250)).unwrap();
    assert_eq!(later.since_origin(), Duration::new(1, 250_000_000));
    assert!(later.has_reached(&t));
    assert!(!t.has_reached(&later));
    assert!(t.has_reached(&t));
}

#[test]
fn instant_checked_add_stops_at_the_end_of_the_clock() {
    let t = Instant::from_origin(Duration::from_secs(u64::MAX));
    assert_eq!(t.checked_add(Duration::from_secs(1)), None);
}

#[test]
fn instant_duration_since_saturates() {
    let early = Instant::from_origin(Duration::from_millis(100));
    let late = Instant::from_origin(Duration::from_millis(350));
    assert_eq!(late.duration_since(&early), Duration::from_millis(250));
    assert_eq!(early.duration_since(&late), Duration::zero());
}
