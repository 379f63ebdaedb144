use cycle_certs::time::{Pause, SignedDuration, Timestamp};

const DAY: i128 = 86_400_000_000_000;

#[test]
fn parses_a_utc_instant() {
    let t = Timestamp::parse("2023-01-01T00:00:00Z");
    assert_eq!(t, Some(Timestamp::new(1_672_531_200, 0)));
}

#[test]
fn parses_an_offset_and_a_fraction() {
    let t = Timestamp::parse("2023-01-01T02:00:00.250+02:00");
    assert_eq!(t, Some(Timestamp::new(1_672_531_200, 250_000_000)));
}

#[test]
fn parses_the_relaxed_form() {
    assert_eq!(
        Timestamp::parse("2012-12-12 12:12:12Z"),
        Timestamp::parse("2012-12-12T12:12:12+00:00")
    );
    assert_eq!(Timestamp::parse("2012-12-12T12:12:12Z"), Some(Timestamp::new(1_355_314_332, 0)));
}

#[test]
fn parses_an_instant_before_the_epoch() {
    assert_eq!(Timestamp::parse("1969-12-31T23:59:59Z"), Some(Timestamp::new(-1, 0)));
}

#[test]
fn rejects_what_is_no_instant() {
    assert_eq!(Timestamp::parse(""), None);
    assert_eq!(Timestamp::parse("yesterday"), None);
    assert_eq!(Timestamp::parse("2023-01-01"), None);
    assert_eq!(Timestamp::parse("2023-01-01T00:00:00"), None);
    assert_eq!(Timestamp::parse("2023-13-01T00:00:00Z"), None);
    assert_eq!(Timestamp::parse("2023-01-01T00:00:00Z trailing"), None);
}

#[test]
fn a_timestamp_counts_nanoseconds() {
    assert_eq!(Timestamp::new(0, 0).as_nanos(), 0);
    assert_eq!(Timestamp::new(1, 5).as_nanos(), 1_000_000_005);
    assert_eq!(Timestamp::new(-1, 5).as_nanos(), -999_999_995);
    assert_eq!(
        Timestamp::new(i64::MIN, u32::MAX).as_nanos(),
        i64::MIN as i128 * 1_000_000_000 + u32::MAX as i128
    );
}

#[test]
fn whole_days_round_towards_zero() {
    assert_eq!(SignedDuration::from_nanos(0).num_days(), 0);
    assert_eq!(SignedDuration::from_nanos(DAY - 1).num_days(), 0);
    assert_eq!(SignedDuration::from_nanos(DAY).num_days(), 1);
    assert_eq!(SignedDuration::from_nanos(-1).num_days(), 0);
    assert_eq!(SignedDuration::from_nanos(-DAY + 1).num_days(), 0);
    assert_eq!(SignedDuration::from_nanos(-DAY).num_days(), -1);
    assert_eq!(SignedDuration::from_nanos(-7 * DAY - 5).num_days(), -7);
    assert_eq!(SignedDuration::from_nanos(i128::MIN).num_days(), i128::MIN / DAY);
    assert_eq!(SignedDuration::from_nanos(i128::MAX).num_days(), i128::MAX / DAY);
}

#[test]
fn a_wait_that_is_not_positive_is_no_pause() {
    assert!(SignedDuration::from_nanos(0).to_pause().is_zero());
    assert!(SignedDuration::from_nanos(-1).to_pause().is_zero());
    assert!(SignedDuration::from_nanos(i128::MIN).to_pause().is_zero());
    assert_eq!(SignedDuration::from_nanos(1).to_pause(), Pause { nanos: 1 });
    assert_eq!(
        SignedDuration::from_nanos(i128::MAX).to_pause(),
        Pause { nanos: i128::MAX as u128 }
    );
}

#[test]
fn a_pause_splits_into_seconds_and_nanoseconds() {
    let pause = SignedDuration::from_nanos(3 * 1_000_000_000 + 17).to_pause();
    assert_eq!(pause.whole_secs(), 3);
    assert_eq!(pause.subsec_nanos(), 17);
    let pause = Pause::from_secs(10_800);
    assert_eq!(pause.nanos, 10_800_000_000_000);
    assert_eq!(pause.whole_secs(), 10_800);
    assert_eq!(pause.subsec_nanos(), 0);
    assert_eq!(Pause::from_secs(u64::MAX).whole_secs(), u64::MAX as u128);
    assert!(Pause::from_secs(0).is_zero());
}
