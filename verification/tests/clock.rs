use firmware_core::clock::Date;
use firmware_core::clock::Span;
use firmware_core::clock::Time;
use firmware_core::clock::Timestamp;
use firmware_core::clock::NANOS_PER_DAY;
use firmware_core::clock::NANOS_PER_SECOND;

#[test]
fn span_constructors_count_nanoseconds() {
    assert_eq!(Span::zero().as_nanos(), 0);
    assert_eq!(Span::from_nanos(-7).as_nanos(), -7);
    assert_eq!(Span::seconds(60).as_nanos(), 60_000_000_000);
    assert_eq!(Span::seconds(-2).as_nanos(), -2_000_000_000);
    assert_eq!(Span::days(365).as_nanos(), 365 * 86_400_000_000_000);
    assert_eq!(Span::from_secs_nanos(3, 5).as_nanos(), 3_000_000_005);
    assert_eq!(NANOS_PER_SECOND, 1_000_000_000);
    assert_eq!(NANOS_PER_DAY, 86_400 * NANOS_PER_SECOND);
}

#[test]
fn span_sum_is_held_at_the_ends() {
    let a = Span::from_nanos(i128::MAX - 1);
    assert_eq!(a.saturating_plus(Span::from_nanos(5)).as_nanos(), i128::MAX);
    let b = Span::from_nanos(i128::MIN + 1);
    assert_eq!(b.saturating_plus(Span::from_nanos(-5)).as_nanos(), i128::MIN);
    assert_eq!(Span::seconds(1).saturating_plus(Span::seconds(2)).as_nanos(), 3_000_000_000);
    assert_eq!(Span::seconds(1).saturating_plus(Span::seconds(-2)).as_nanos(), -1_000_000_000);
}

#[test]
fn span_negation() {
    assert_eq!(Span::seconds(3).negated().as_nanos(), -3_000_000_000);
    assert_eq!(Span::from_nanos(i128::MIN).negated().as_nanos(), i128::MAX);
    assert_eq!(Span::zero().negated().as_nanos(), 0);
}

#[test]
fn span_order() {
    assert!(Span::seconds(1).is_less_than(Span::seconds(2)));
    assert!(!Span::seconds(2).is_less_than(Span::seconds(2)));
    assert!(Span::seconds(2).is_at_most(Span::seconds(2)));
    assert!(!Span::seconds(3).is_at_most(Span::seconds(2)));
}

#[test]
fn dates_differ_by_whole_days() {
    let a = Date::from_julian_day(2_460_000);
    let b = Date::from_julian_day(2_460_400);
    assert_eq!(b.since(a).as_nanos(), 400 * NANOS_PER_DAY);
    assert_eq!(a.since(b).as_nanos(), -400 * NANOS_PER_DAY);
    assert_eq!(a.since(a).as_nanos(), 0);
    assert_eq!(a.to_julian_day(), 2_460_000);
    let far = Date::from_julian_day(i32::MAX).since(Date::from_julian_day(i32::MIN));
    assert_eq!(far.as_nanos(), (i32::MAX as i128 - i32::MIN as i128) * NANOS_PER_DAY);
}

#[test]
fn time_rejects_what_is_not_on_a_clock_face() {
    assert!(Time::from_hms(24, 0, 0).is_none());
    assert!(Time::from_hms(0, 60, 0).is_none());
    assert!(Time::from_hms(0, 0, 60).is_none());
    assert!(Time::from_hms_nano(0, 0, 0, 1_000_000_000).is_none());
    assert!(Time::from_hms(23, 59, 59).is_some());
    assert!(Time::from_hms_nano(23, 59, 59, 999_999_999).is_some());
}

#[test]
fn time_components_and_nanoseconds() {
    let t = Time::from_hms_nano(1, 2, 3, 4).unwrap();
    assert_eq!(t.hour(), 1);
    assert_eq!(t.minute(), 2);
    assert_eq!(t.second(), 3);
    assert_eq!(t.nanosecond(), 4);
    assert_eq!(t.nanos_since_midnight(), 3_723_000_000_004);
    assert_eq!(Time::midnight().nanos_since_midnight(), 0);
    assert_eq!(Time::midnight(), Time::from_hms(0, 0, 0).unwrap());
}

#[test]
fn time_difference_and_order() {
    let early = Time::from_hms(8, 0, 0).unwrap();
    let late = Time::from_hms(8, 0, 10).unwrap();
    assert_eq!(late.since(early).as_nanos(), 10_000_000_000);
    assert_eq!(early.since(late).as_nanos(), -10_000_000_000);
    assert!(early.is_at_most(late));
    assert!(early.is_at_most(early));
    assert!(!late.is_at_most(early));
}

#[test]
fn timestamp_parts() {
    assert!(Timestamp::new(1, 1_000_000_000).is_none());
    let t = Timestamp::new(12, 345_678_901).unwrap();
    assert_eq!(t.as_secs(), 12);
    assert_eq!(t.subsec_nanos(), 345_678_901);
    assert_eq!(t.subsec_micros(), 345_678);
    assert_eq!(Timestamp::zero().as_secs(), 0);
    assert_eq!(Timestamp::zero().subsec_nanos(), 0);
}
