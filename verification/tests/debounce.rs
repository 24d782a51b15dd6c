use firmware_core::clock::Span;
use firmware_core::features::trigger::debounce::DebounceFilter;

#[test]
fn new_filter_reports_its_initial_level() {
    let filter = DebounceFilter::new(false, Span::seconds(60));
    assert!(!filter.level());
    assert!(!filter.raw_level());
    assert_eq!(filter.elapsed().as_nanos(), 0);
    assert_eq!(filter.hold_threshold().as_nanos(), 60_000_000_000);
    let high = DebounceFilter::new(true, Span::seconds(1));
    assert!(high.level());
}

#[test]
fn level_changes_once_the_hold_time_is_reached() {
    let mut filter = DebounceFilter::new(false, Span::seconds(60));
    assert!(!filter.observe(true));
    assert_eq!(filter.elapsed().as_nanos(), 0);
    for step in 1..6 {
        filter.tick(Span::seconds(10));
        assert!(!filter.observe(true), "step {}", step);
    }
    assert_eq!(filter.elapsed().as_nanos(), 50_000_000_000);
    filter.tick(Span::seconds(10));
    assert!(filter.observe(true));
    assert!(filter.level());
    assert_eq!(filter.elapsed().as_nanos(), 60_000_000_000);
}

#[test]
fn level_does_not_change_one_nanosecond_early() {
    let mut filter = DebounceFilter::new(false, Span::seconds(60));
    filter.observe(true);
    filter.tick(Span::from_nanos(59_999_999_999));
    assert!(!filter.observe(true));
    filter.tick(Span::from_nanos(1));
    assert!(filter.observe(true));
}

#[test]
fn flicker_shorter_than_hold_never_shows() {
    let mut filter = DebounceFilter::new(false, Span::seconds(60));
    filter.tick(Span::seconds(100));
    assert!(!filter.observe(false));
    assert!(!filter.observe(true));
    filter.tick(Span::seconds(30));
    assert!(!filter.observe(true));
    filter.tick(Span::seconds(29));
    assert!(!filter.observe(true));
    filter.tick(Span::seconds(10));
    assert!(!filter.observe(false));
    filter.tick(Span::seconds(59));
    assert!(!filter.observe(true));
}

#[test]
fn interrupted_level_starts_again_from_zero() {
    let mut filter = DebounceFilter::new(false, Span::seconds(60));
    filter.observe(true);
    filter.tick(Span::seconds(50));
    filter.observe(true);
    filter.tick(Span::seconds(1));
    filter.observe(false);
    assert_eq!(filter.elapsed().as_nanos(), 0);
    filter.tick(Span::seconds(1));
    filter.observe(true);
    assert_eq!(filter.elapsed().as_nanos(), 0);
    filter.tick(Span::seconds(59));
    assert!(!filter.observe(true));
    filter.tick(Span::seconds(1));
    assert!(filter.observe(true));
}

#[test]
fn time_that_leads_back_counts_for_nothing() {
    let mut filter = DebounceFilter::new(false, Span::seconds(60));
    filter.observe(true);
    filter.tick(Span::seconds(40));
    filter.tick(Span::seconds(-30));
    assert_eq!(filter.elapsed().as_nanos(), 40_000_000_000);
    filter.tick(Span::zero());
    assert_eq!(filter.elapsed().as_nanos(), 40_000_000_000);
}

#[test]
fn credited_time_is_held_at_the_end_of_the_range() {
    let mut filter = DebounceFilter::new(false, Span::seconds(60));
    filter.tick(Span::from_nanos(i128::MAX));
    filter.tick(Span::from_nanos(i128::MAX));
    assert_eq!(filter.elapsed().as_nanos(), i128::MAX);
}

#[test]
fn high_level_falls_back_after_the_hold_time_of_low() {
    let mut filter = DebounceFilter::new(true, Span::seconds(60));
    assert!(filter.observe(false));
    filter.tick(Span::seconds(60));
    assert!(!filter.observe(false));
}

#[test]
fn hold_time_of_zero_follows_the_raw_level() {
    let mut filter = DebounceFilter::new(false, Span::zero());
    assert!(filter.observe(true));
    assert!(!filter.observe(false));
}

#[test]
fn time_and_level_are_taken_in_together() {
    let mut filter = DebounceFilter::new(false, Span::seconds(60));
    assert!(!filter.feed(Span::seconds(100), true));
    assert_eq!(filter.elapsed().as_nanos(), 0);
    assert!(!filter.feed(Span::seconds(59), true));
    assert!(filter.feed(Span::seconds(1), true));
    assert_eq!(filter.elapsed().as_nanos(), 60_000_000_000);
    assert!(filter.feed(Span::seconds(5), false));
    assert_eq!(filter.elapsed().as_nanos(), 0);
}
