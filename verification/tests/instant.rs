use kotlin_instant::KotlinInstant;
use kotlin_instant::Timestamp;
use kotlin_instant::NANOS_PER_SEC;

#[test]
fn wrap_then_unwrap_returns_original() {
    let t = Timestamp::new(1_234_567_890, 123_456_789);
    let wrapped = KotlinInstant::new(t);
    assert_eq!(wrapped.into_inner(), t);
}

#[test]
fn conversion_round_trips_bit_for_bit() {
    let t = Timestamp::new(987_654_321, 999_999_999);
    let wrapped = KotlinInstant::from(t);
    let back = Timestamp::from(wrapped);
    assert_eq!(back.secs, 987_654_321);
    assert_eq!(back.nanos, 999_999_999);
    assert_eq!(back, t);
    assert_eq!(KotlinInstant::from(back), wrapped);
}

#[test]
fn from_epoch_secs_zero_is_the_epoch() {
    let epoch = KotlinInstant::from_epoch_secs(0);
    let t = epoch.into_inner();
    assert_eq!(t.secs, 0);
    assert_eq!(t.nanos, 0);
    assert_eq!(t, Timestamp::new(0, 0));
}

#[test]
fn from_epoch_secs_hundred_is_hundred_seconds_after_epoch() {
    let epoch = KotlinInstant::from_epoch_secs(0).into_inner();
    let later = KotlinInstant::from_epoch_secs(100).into_inner();
    assert_eq!(later.secs - epoch.secs, 100);
    assert_eq!(later.nanos, 0);
    assert_eq!(epoch.nanos, 0);
}

#[test]
fn from_epoch_secs_keeps_whole_seconds_exactly() {
    let i = KotlinInstant::from_epoch_secs(u64::MAX);
    assert_eq!(i.into_inner().secs, u64::MAX);
    assert_eq!(i.into_inner().nanos, 0);
}

#[test]
fn ordering_delegates_to_wrapped_timestamp() {
    let a = Timestamp::new(10, 0);
    let b = Timestamp::new(10, 1);
    let c = Timestamp::new(11, 0);
    assert!(a < b);
    assert!(b < c);
    assert!(KotlinInstant::new(a) < KotlinInstant::new(b));
    assert!(KotlinInstant::new(b) < KotlinInstant::new(c));
    assert!(KotlinInstant::new(c) > KotlinInstant::new(a));
    assert!(!(KotlinInstant::new(b) < KotlinInstant::new(a)));
}

#[test]
fn equality_delegates_to_wrapped_timestamp() {
    let a = Timestamp::new(42, 7);
    let b = Timestamp::new(42, 7);
    let c = Timestamp::new(42, 8);
    assert_eq!(a, b);
    assert_ne!(a, c);
    assert_eq!(KotlinInstant::new(a), KotlinInstant::new(b));
    assert_ne!(KotlinInstant::new(a), KotlinInstant::new(c));
    assert!(!(KotlinInstant::new(a) < KotlinInstant::new(b)));
    assert!(!(KotlinInstant::new(a) > KotlinInstant::new(b)));
}

#[test]
fn nanos_bound_is_one_second() {
    assert_eq!(NANOS_PER_SEC, 1_000_000_000);
    let t = Timestamp::new(0, NANOS_PER_SEC - 1);
    let u = Timestamp::new(1, 0);
    assert!(t < u);
}
