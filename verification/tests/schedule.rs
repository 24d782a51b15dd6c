use firmware_core::clock::Time;
use firmware_core::features::trigger::EnableOnConditions;
use firmware_core::features::trigger::TimeWindow;

fn hms(hour: u8, minute: u8, second: u8) -> Time {
    Time::from_hms(hour, minute, second).unwrap()
}

#[test]
fn always_and_never_are_constant() {
    assert!(EnableOnConditions::Always.should_be_enabled(hms(0, 0, 0)));
    assert!(EnableOnConditions::Always.should_be_enabled(hms(23, 59, 59)));
    assert!(!EnableOnConditions::Never.should_be_enabled(hms(0, 0, 0)));
    assert!(!EnableOnConditions::Never.should_be_enabled(hms(12, 0, 0)));
}

#[test]
fn window_includes_both_ends() {
    let schedule = EnableOnConditions::TimeWindows {
        ranges: vec![TimeWindow::new(hms(8, 0, 0), hms(9, 30, 0))],
    };
    assert!(schedule.should_be_enabled(hms(8, 0, 0)));
    assert!(schedule.should_be_enabled(hms(9, 30, 0)));
    assert!(schedule.should_be_enabled(hms(8, 45, 10)));
    assert!(!schedule.should_be_enabled(hms(7, 59, 59)));
    assert!(!schedule.should_be_enabled(hms(9, 30, 1)));
}

#[test]
fn any_of_several_windows_enables() {
    let schedule = EnableOnConditions::TimeWindows {
        ranges: vec![
            TimeWindow::new(hms(1, 0, 0), hms(2, 0, 0)),
            TimeWindow::new(hms(20, 0, 0), hms(21, 0, 0)),
        ],
    };
    assert!(schedule.should_be_enabled(hms(1, 30, 0)));
    assert!(schedule.should_be_enabled(hms(20, 30, 0)));
    assert!(!schedule.should_be_enabled(hms(12, 0, 0)));
}

#[test]
fn no_window_enables_nothing() {
    let schedule = EnableOnConditions::TimeWindows { ranges: vec![] };
    assert!(!schedule.should_be_enabled(hms(12, 0, 0)));
}

#[test]
fn window_whose_end_is_before_its_start_is_empty() {
    let schedule = EnableOnConditions::TimeWindows {
        ranges: vec![TimeWindow::new(hms(22, 0, 0), hms(6, 0, 0))],
    };
    assert!(!schedule.should_be_enabled(hms(23, 0, 0)));
    assert!(!schedule.should_be_enabled(hms(5, 0, 0)));
}
