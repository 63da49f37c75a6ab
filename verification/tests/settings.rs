use std::time::Duration;

use allium::clock::ClockSettings;
use allium::power::{AutoShutdownDelay, PowerButtonAction, PowerSettings};
use allium::settings::{plan_load, LoadPlan};

#[test]
fn clock_defaults_to_24_hours() {
    assert!(!ClockSettings::new().twelve_hour);
    assert_eq!(ClockSettings::default(), ClockSettings::new());
}

#[test]
fn power_settings_defaults() {
    let s = PowerSettings::new();
    assert_eq!(s.power_button_action, PowerButtonAction::Suspend);
    assert_eq!(s.lid_close_action, PowerButtonAction::Shutdown);
    assert!(s.auto_sleep_when_charging);
    assert_eq!(s.auto_sleep_duration_minutes, 5);
    assert_eq!(s.auto_shutdown_delay, AutoShutdownDelay::Mins5);
    assert_eq!(PowerSettings::default(), s);
}

#[test]
fn enum_defaults() {
    assert_eq!(PowerButtonAction::default(), PowerButtonAction::Suspend);
    assert_eq!(AutoShutdownDelay::default(), AutoShutdownDelay::Mins5);
}

#[test]
fn shutdown_delays_as_durations() {
    let expected = [
        (AutoShutdownDelay::Secs10, Some(Duration::from_secs(10))),
        (AutoShutdownDelay::Secs30, Some(Duration::from_secs(30))),
        (AutoShutdownDelay::Secs60, Some(Duration::from_secs(60))),
        (AutoShutdownDelay::Mins2, Some(Duration::from_secs(120))),
        (AutoShutdownDelay::Mins5, Some(Duration::from_secs(300))),
        (AutoShutdownDelay::Mins10, Some(Duration::from_secs(600))),
        (AutoShutdownDelay::Mins30, Some(Duration::from_secs(1800))),
        (AutoShutdownDelay::Mins60, Some(Duration::from_secs(3600))),
        (AutoShutdownDelay::Never, None),
    ];
    for (delay, duration) in expected {
        assert_eq!(delay.to_duration(), duration);
    }
}

#[test]
fn delays_grow_in_declaration_order() {
    let mut last = Duration::ZERO;
    for i in 0..8 {
        let d = AutoShutdownDelay::from_repr(i).unwrap().to_duration().unwrap();
        assert!(d > last);
        last = d;
    }
}

#[test]
fn from_repr_follows_declaration_order() {
    assert_eq!(PowerButtonAction::from_repr(0), Some(PowerButtonAction::Suspend));
    assert_eq!(PowerButtonAction::from_repr(1), Some(PowerButtonAction::Shutdown));
    assert_eq!(PowerButtonAction::from_repr(2), Some(PowerButtonAction::Nothing));
    assert_eq!(PowerButtonAction::from_repr(3), None);
    assert_eq!(AutoShutdownDelay::from_repr(0), Some(AutoShutdownDelay::Secs10));
    assert_eq!(AutoShutdownDelay::from_repr(4), Some(AutoShutdownDelay::Mins5));
    assert_eq!(AutoShutdownDelay::from_repr(8), Some(AutoShutdownDelay::Never));
    assert_eq!(AutoShutdownDelay::from_repr(9), None);
}

#[test]
fn load_plan_uses_valid_file() {
    assert_eq!(plan_load(true, Some(7)), LoadPlan::UseStored(7));
}

#[test]
fn load_plan_removes_corrupt_file() {
    assert_eq!(plan_load::<u8>(true, None), LoadPlan::RemoveFileThenUseDefault);
}

#[test]
fn load_plan_without_file_uses_defaults() {
    assert_eq!(plan_load::<u8>(false, None), LoadPlan::UseDefault);
    assert_eq!(plan_load(false, Some(3)), LoadPlan::UseDefault);
}
