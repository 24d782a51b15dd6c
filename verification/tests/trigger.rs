use firmware_core::clock::Date;
use firmware_core::clock::Span;
use firmware_core::clock::Time;
use firmware_core::configuration::peripherals::MotionPin;
use firmware_core::features::trigger::EnableOnConditions;
use firmware_core::features::trigger::ImageTrigger;
use firmware_core::features::trigger::StorePolicy;
use firmware_core::features::trigger::TimeWindow;
use firmware_core::features::trigger::TriggerState;
use firmware_core::features::trigger::HOLD_SECONDS;
use firmware_core::features::trigger::IMPLAUSIBLE_DAYS;

struct ScriptedPin {
    levels: Vec<Result<bool, &'static str>>,
    reads: usize,
}

impl ScriptedPin {
    fn new(levels: Vec<Result<bool, &'static str>>) -> Self {
        ScriptedPin { levels, reads: 0 }
    }
}

impl MotionPin for ScriptedPin {
    type Error = &'static str;

    fn is_high(&mut self) -> Result<bool, &'static str> {
        let level = self.levels[self.reads];
        self.reads += 1;
        level
    }
}

fn at(day: i32, second_of_day: u32) -> Option<(Date, Time)> {
    let hour = (second_of_day / 3600) as u8;
    let minute = (second_of_day / 60 % 60) as u8;
    let second = (second_of_day % 60) as u8;
    Some((Date::from_julian_day(day), Time::from_hms(hour, minute, second).unwrap()))
}

fn all_day() -> EnableOnConditions {
    EnableOnConditions::TimeWindows {
        ranges: vec![TimeWindow::new(
            Time::from_hms(0, 0, 0).unwrap(),
            Time::from_hms(23, 59, 59).unwrap(),
        )],
    }
}

#[test]
fn constants_of_the_trigger() {
    assert_eq!(HOLD_SECONDS, 60);
    assert_eq!(IMPLAUSIBLE_DAYS, 365);
}

#[test]
fn new_trigger_is_disabled_and_keeps_nothing() {
    let trigger = ImageTrigger::new(ScriptedPin::new(vec![]), all_day(), Span::seconds(10));
    assert!(!trigger.needs_to_capture_image());
    assert!(!trigger.needs_to_store_image());
    assert_eq!(trigger.trigger_state().date_and_time_of_last_tick(), None);
    assert_eq!(trigger.trigger_state().trigger_date_and_time(), None);
    assert!(!trigger.trigger_state().filter().level());
    assert_eq!(trigger.trigger_state().filter().hold_threshold().as_nanos(), 60_000_000_000);
}

#[test]
fn low_then_high_confirms_motion_after_the_hold_time() {
    let mut levels = vec![Ok(false); 7];
    levels.extend(vec![Ok(true); 7]);
    let mut trigger = ImageTrigger::new(ScriptedPin::new(levels), all_day(), Span::seconds(30))
        .with_store_policy(StorePolicy::WhileTriggered);
    for i in 0..7u32 {
        trigger.tick(at(2_460_000, 10 * i)).unwrap();
        assert!(trigger.needs_to_capture_image());
        assert_eq!(trigger.trigger_state().trigger_date_and_time(), None);
        assert!(!trigger.needs_to_store_image());
    }
    for i in 7..13u32 {
        trigger.tick(at(2_460_000, 10 * i)).unwrap();
        assert!(trigger.needs_to_capture_image());
        assert!(!trigger.trigger_state().filter().level(), "tick {}", i);
        assert_eq!(trigger.trigger_state().trigger_date_and_time(), None);
    }
    trigger.tick(at(2_460_000, 130)).unwrap();
    assert!(trigger.needs_to_capture_image());
    assert!(trigger.trigger_state().filter().level());
    assert_eq!(trigger.trigger_state().trigger_date_and_time(), at(2_460_000, 130));
    assert!(trigger.needs_to_store_image());
    assert_eq!(trigger.trigger_state().date_and_time_of_last_tick(), at(2_460_000, 130));
}

#[test]
fn clock_jump_of_400_days_credits_nothing() {
    let mut trigger = ImageTrigger::new(
        ScriptedPin::new(vec![Ok(true), Ok(true), Ok(true)]),
        all_day(),
        Span::seconds(30),
    );
    trigger.tick(at(2_460_000, 0)).unwrap();
    assert_eq!(trigger.trigger_state().filter().elapsed().as_nanos(), 0);
    trigger.tick(at(2_460_400, 0)).unwrap();
    assert_eq!(trigger.trigger_state().filter().elapsed().as_nanos(), 0);
    assert!(!trigger.trigger_state().filter().level());
    assert_eq!(trigger.trigger_state().trigger_date_and_time(), None);
    assert_eq!(trigger.trigger_state().date_and_time_of_last_tick(), at(2_460_400, 0));
    trigger.tick(at(2_460_400, 10)).unwrap();
    assert_eq!(trigger.trigger_state().filter().elapsed().as_nanos(), 10_000_000_000);
}

#[test]
fn one_nanosecond_short_of_365_days_is_credited() {
    let mut state = TriggerState::new(EnableOnConditions::Always, Span::seconds(30));
    let first = (Date::from_julian_day(100), Time::from_hms_nano(0, 0, 0, 1).unwrap());
    state.prepare(Some(first));
    state.complete(Some(first), Some(true));
    let second = (Date::from_julian_day(465), Time::from_hms(0, 0, 0).unwrap());
    state.prepare(Some(second));
    assert_eq!(state.filter().elapsed().as_nanos(), 0);
    assert!(state.needs_level(Some(second)));
    state.complete(Some(second), Some(true));
    assert_eq!(
        state.filter().elapsed().as_nanos(),
        365 * 86_400_000_000_000 - 1
    );
    assert!(state.filter().level());
    assert_eq!(state.trigger_date_and_time(), Some(second));
}

#[test]
fn exactly_365_days_is_a_jump() {
    let mut state = TriggerState::new(EnableOnConditions::Always, Span::seconds(30));
    let first = (Date::from_julian_day(100), Time::from_hms(0, 0, 0).unwrap());
    state.prepare(Some(first));
    state.complete(Some(first), Some(true));
    let second = (Date::from_julian_day(465), Time::from_hms(0, 0, 0).unwrap());
    state.prepare(Some(second));
    assert_eq!(state.filter().elapsed().as_nanos(), 0);
    state.complete(Some(second), Some(true));
    assert!(!state.filter().level());
}

#[test]
fn tick_without_reading_changes_only_the_last_tick() {
    let mut trigger = ImageTrigger::new(
        ScriptedPin::new(vec![Ok(true)]),
        EnableOnConditions::Always,
        Span::seconds(30),
    );
    trigger.tick(at(2_460_000, 0)).unwrap();
    assert!(trigger.needs_to_capture_image());
    trigger.tick(None).unwrap();
    assert!(trigger.needs_to_capture_image());
    assert_eq!(trigger.trigger_state().date_and_time_of_last_tick(), None);
    assert_eq!(trigger.trigger_state().filter().elapsed().as_nanos(), 0);
}

#[test]
fn first_reading_after_a_gap_credits_nothing() {
    let mut trigger = ImageTrigger::new(
        ScriptedPin::new(vec![Ok(true), Ok(true)]),
        EnableOnConditions::Always,
        Span::seconds(30),
    );
    trigger.tick(at(2_460_000, 0)).unwrap();
    trigger.tick(None).unwrap();
    trigger.tick(at(2_460_000, 50)).unwrap();
    assert_eq!(trigger.trigger_state().filter().elapsed().as_nanos(), 0);
}

#[test]
fn pin_is_read_while_disabled_and_marks_nothing() {
    let mut trigger = ImageTrigger::new(
        ScriptedPin::new(vec![Ok(true); 8]),
        EnableOnConditions::Never,
        Span::seconds(30),
    );
    for i in 0..8u32 {
        trigger.tick(at(2_460_000, 10 * i)).unwrap();
        assert!(!trigger.needs_to_capture_image());
        assert_eq!(trigger.trigger_state().filter().level(), i >= 6, "tick {}", i);
        assert_eq!(trigger.trigger_state().trigger_date_and_time(), None);
    }
    assert_eq!(trigger.trigger_state().filter().elapsed().as_nanos(), 70_000_000_000);
    assert_eq!(trigger.trigger_state().date_and_time_of_last_tick(), at(2_460_000, 70));
}

#[test]
fn pin_is_not_read_after_a_jump_of_the_clock() {
    let mut trigger = ImageTrigger::new(
        ScriptedPin::new(vec![Ok(true)]),
        EnableOnConditions::Always,
        Span::seconds(30),
    );
    trigger.tick(at(2_460_000, 0)).unwrap();
    trigger.tick(at(2_460_400, 0)).unwrap();
    trigger.tick(at(2_460_800, 0)).unwrap();
    assert!(trigger.trigger_state().filter().raw_level());
    assert_eq!(trigger.trigger_state().filter().elapsed().as_nanos(), 0);
}

#[test]
fn jump_of_the_clock_leaves_a_low_filter_alone() {
    let noon = |second: u32| at(2_460_000, 12 * 3600 + second);
    let mut state = TriggerState::new(EnableOnConditions::Always, Span::seconds(30));
    state.prepare(noon(0));
    state.complete(noon(0), Some(true));
    state.prepare(noon(10));
    state.complete(noon(10), Some(true));
    let later = at(2_460_400, 12 * 3600 + 10);
    state.prepare(later);
    assert!(!state.needs_level(later));
    state.complete(later, Some(false));
    assert!(state.filter().raw_level());
    assert_eq!(state.filter().elapsed().as_nanos(), 10_000_000_000);
    assert!(!state.filter().level());
    assert_eq!(state.trigger_date_and_time(), None);
    assert_eq!(state.date_and_time_of_last_tick(), later);
}

#[test]
fn jump_of_the_clock_marks_motion_only_from_the_level_before() {
    let window = EnableOnConditions::TimeWindows {
        ranges: vec![TimeWindow::new(
            Time::from_hms(12, 0, 0).unwrap(),
            Time::from_hms(12, 59, 59).unwrap(),
        )],
    };
    let mut state = TriggerState::new(window.clone(), Span::seconds(30));
    let ticks = [12 * 3600 + 3590, 13 * 3600 + 40, 13 * 3600 + 90];
    for second in ticks {
        state.prepare(at(2_460_000, second));
        state.complete(at(2_460_000, second), Some(true));
    }
    assert!(state.filter().level());
    assert_eq!(state.trigger_date_and_time(), None);
    let later = at(2_460_400, 12 * 3600 + 30);
    state.prepare(later);
    state.complete(later, Some(false));
    assert!(state.filter().level());
    assert_eq!(state.filter().elapsed().as_nanos(), 100_000_000_000);
    assert_eq!(state.trigger_date_and_time(), later);

    let mut low = TriggerState::new(window, Span::seconds(30));
    low.prepare(at(2_460_000, 12 * 3600 + 3590));
    low.complete(at(2_460_000, 12 * 3600 + 3590), Some(true));
    low.prepare(later);
    low.complete(later, Some(true));
    assert!(!low.filter().level());
    assert_eq!(low.filter().elapsed().as_nanos(), 0);
    assert_eq!(low.trigger_date_and_time(), None);
}

#[test]
fn failing_pin_ends_the_tick_after_its_first_part() {
    let mut trigger = ImageTrigger::new(
        ScriptedPin::new(vec![Ok(false), Err("pin"), Ok(false)]),
        EnableOnConditions::Always,
        Span::seconds(30),
    );
    trigger.tick(at(2_460_000, 0)).unwrap();
    let failed = trigger.tick(at(2_460_000, 10));
    assert_eq!(failed, Err("pin"));
    assert!(trigger.needs_to_capture_image());
    assert_eq!(trigger.trigger_state().date_and_time_of_last_tick(), at(2_460_000, 0));
    assert_eq!(trigger.trigger_state().filter().elapsed().as_nanos(), 0);
    assert_eq!(trigger.trigger_state().trigger_date_and_time(), None);
    trigger.tick(at(2_460_000, 20)).unwrap();
    assert_eq!(trigger.trigger_state().filter().elapsed().as_nanos(), 20_000_000_000);
}

#[test]
fn schedule_is_asked_anew_at_each_reading() {
    let schedule = EnableOnConditions::TimeWindows {
        ranges: vec![TimeWindow::new(
            Time::from_hms(0, 0, 10).unwrap(),
            Time::from_hms(0, 0, 20).unwrap(),
        )],
    };
    let mut trigger =
        ImageTrigger::new(ScriptedPin::new(vec![Ok(false); 4]), schedule, Span::zero());
    trigger.tick(at(1, 9)).unwrap();
    assert!(!trigger.needs_to_capture_image());
    trigger.tick(at(1, 10)).unwrap();
    assert!(trigger.needs_to_capture_image());
    trigger.tick(at(1, 20)).unwrap();
    assert!(trigger.needs_to_capture_image());
    trigger.tick(at(1, 21)).unwrap();
    assert!(!trigger.needs_to_capture_image());
}

fn triggered_state(policy: StorePolicy, trigger_seconds: i64) -> TriggerState {
    let first_minute = EnableOnConditions::TimeWindows {
        ranges: vec![TimeWindow::new(
            Time::from_hms(0, 0, 0).unwrap(),
            Time::from_hms(0, 1, 0).unwrap(),
        )],
    };
    let mut state =
        TriggerState::new(first_minute, Span::seconds(trigger_seconds)).with_store_policy(policy);
    state.prepare(at(10, 0));
    state.complete(at(10, 0), Some(true));
    state.prepare(at(10, 60));
    state.complete(at(10, 60), Some(true));
    assert_eq!(state.trigger_date_and_time(), at(10, 60));
    state
}

#[test]
fn images_are_kept_for_the_trigger_duration() {
    let mut state = triggered_state(StorePolicy::WhileTriggered, 100);
    assert!(state.needs_to_store_image());
    state.prepare(at(10, 160));
    assert!(state.needs_level(at(10, 160)));
    state.complete(at(10, 160), Some(true));
    assert!(!state.needs_to_capture_image());
    assert!(state.needs_to_store_image());
    state.prepare(at(10, 161));
    state.complete(at(10, 161), Some(true));
    assert!(state.filter().level());
    assert_eq!(state.trigger_date_and_time(), at(10, 60));
    assert!(!state.needs_to_store_image());
    state.prepare(at(11, 100));
    state.complete(at(11, 100), Some(true));
    assert!(!state.needs_to_store_image());
}

#[test]
fn no_image_is_kept_under_the_default_policy() {
    let state = triggered_state(StorePolicy::Never, 100);
    assert!(state.needs_to_capture_image());
    assert!(!state.needs_to_store_image());
}

#[test]
fn motion_stays_confirmed_until_low_has_lasted() {
    let mut state = TriggerState::new(EnableOnConditions::Always, Span::seconds(5))
        .with_store_policy(StorePolicy::WhileTriggered);
    state.prepare(at(10, 0));
    state.complete(at(10, 0), Some(true));
    state.prepare(at(10, 60));
    state.complete(at(10, 60), Some(true));
    for i in 7..13u32 {
        state.prepare(at(10, 10 * i));
        state.complete(at(10, 10 * i), Some(false));
        assert_eq!(state.trigger_date_and_time(), at(10, 10 * i));
        assert!(state.needs_to_store_image());
    }
    state.prepare(at(10, 130));
    state.complete(at(10, 130), Some(false));
    assert!(!state.filter().level());
    assert_eq!(state.trigger_date_and_time(), at(10, 120));
    assert!(!state.needs_to_store_image());
}

#[test]
fn tick_without_reading_counts_as_no_time_since_the_trigger() {
    let mut state = triggered_state(StorePolicy::WhileTriggered, 0);
    assert!(state.needs_to_store_image());
    state.prepare(at(10, 61));
    state.complete(at(10, 61), None);
    assert!(!state.needs_to_store_image());
    state.prepare(None);
    state.complete(None, None);
    assert!(state.needs_to_store_image());
}

#[test]
fn level_that_was_not_asked_for_is_ignored() {
    let mut state = TriggerState::new(EnableOnConditions::Never, Span::zero());
    state.prepare(at(10, 0));
    assert!(state.needs_level(at(10, 0)));
    state.complete(at(10, 0), Some(false));
    state.prepare(at(500, 0));
    assert!(!state.needs_level(at(500, 0)));
    state.complete(at(500, 0), Some(true));
    assert!(!state.filter().raw_level());
    assert_eq!(state.date_and_time_of_last_tick(), at(500, 0));
    assert!(!state.needs_level(None));
}

#[test]
fn level_that_was_asked_for_and_not_given_feeds_nothing() {
    let mut state = TriggerState::new(EnableOnConditions::Always, Span::seconds(30));
    state.prepare(at(10, 0));
    state.complete(at(10, 0), Some(true));
    state.prepare(at(10, 10));
    state.complete(at(10, 10), None);
    assert_eq!(state.filter().elapsed().as_nanos(), 0);
    assert_eq!(state.date_and_time_of_last_tick(), at(10, 10));
}
