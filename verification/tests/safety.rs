use firmware_core::hot_plate::temperature::safety::{
    TemperatureChangeConfig, TemperatureError, TemperatureErrorSet, TemperatureRange,
    TemperatureSafety,
};
use firmware_core::utils::measurement::temperature::Temperature;

fn celsius(degrees: u16) -> Temperature {
    Temperature::from_celsius(degrees)
}

fn supervisor() -> TemperatureSafety {
    TemperatureSafety::new(
        TemperatureRange { min: celsius(0), max: celsius(270) },
        TemperatureChangeConfig { period_in_millis: 20_000, hysteresis_in_millikelvin: 2_000 },
        TemperatureChangeConfig { period_in_millis: 90_000, hysteresis_in_millikelvin: 2_000 },
        45,
    )
}

#[test]
fn error_set_holds_what_was_added() {
    let empty = TemperatureErrorSet::empty();
    assert!(empty.is_empty());
    assert!(!empty.contains(TemperatureError::OutOfRange));
    assert!(!empty.contains(TemperatureError::FailedToKeepTemperature));
    assert!(!empty.contains(TemperatureError::FailedToRiseTemperature));
    let one = empty.with(TemperatureError::FailedToKeepTemperature);
    assert!(!one.is_empty());
    assert!(one.contains(TemperatureError::FailedToKeepTemperature));
    assert!(!one.contains(TemperatureError::OutOfRange));
    assert!(!one.contains(TemperatureError::FailedToRiseTemperature));
    assert_eq!(one.with(TemperatureError::FailedToKeepTemperature), one);
    let two = one.with(TemperatureError::OutOfRange);
    assert!(two.contains(TemperatureError::OutOfRange));
    assert!(two.contains(TemperatureError::FailedToKeepTemperature));
    assert_eq!(
        two,
        empty.with(TemperatureError::OutOfRange).with(TemperatureError::FailedToKeepTemperature)
    );
    assert_ne!(two, one);
}

#[test]
fn temperature_above_the_range_is_out_of_range() {
    let mut safety = supervisor();
    let errors = safety.is_temperature_safe(celsius(280), celsius(250), 100);
    assert!(errors.contains(TemperatureError::OutOfRange));
    assert_eq!(errors, TemperatureErrorSet::empty().with(TemperatureError::OutOfRange));
}

#[test]
fn temperature_below_the_range_is_out_of_range() {
    let mut safety = supervisor();
    let errors = safety.is_temperature_safe(Temperature::from_millikelvin(273_149), celsius(0), 100);
    assert_eq!(errors, TemperatureErrorSet::empty().with(TemperatureError::OutOfRange));
}

#[test]
fn ends_of_the_range_are_allowed() {
    let mut safety = supervisor();
    assert!(safety.is_temperature_safe(celsius(0), celsius(0), 100).is_empty());
    assert!(safety.is_temperature_safe(celsius(270), celsius(270), 100).is_empty());
    let errors = safety.is_temperature_safe(Temperature::from_millikelvin(543_151), celsius(270), 100);
    assert!(errors.contains(TemperatureError::OutOfRange));
}

#[test]
fn out_of_range_trips_at_once_and_clears_at_once() {
    let mut safety = supervisor();
    assert!(safety.is_temperature_safe(celsius(250), celsius(250), 100).is_empty());
    assert!(safety
        .is_temperature_safe(celsius(271), celsius(250), 100)
        .contains(TemperatureError::OutOfRange));
    assert!(safety.is_temperature_safe(celsius(250), celsius(250), 100).is_empty());
}

#[test]
fn drifting_away_for_21_seconds_fails_to_keep() {
    let mut safety = supervisor();
    assert!(safety.is_temperature_safe(celsius(200), celsius(200), 1_000).is_empty());
    for _second in 0..20 {
        assert!(safety.is_temperature_safe(celsius(210), celsius(200), 1_000).is_empty());
    }
    let errors = safety.is_temperature_safe(celsius(210), celsius(200), 1_000);
    assert!(errors.contains(TemperatureError::FailedToKeepTemperature));
    assert_eq!(
        errors,
        TemperatureErrorSet::empty().with(TemperatureError::FailedToKeepTemperature)
    );
    let errors = safety.is_temperature_safe(celsius(210), celsius(200), 1_000);
    assert!(errors.contains(TemperatureError::FailedToKeepTemperature));
}

#[test]
fn coming_back_after_10_seconds_does_not_trip() {
    let mut safety = supervisor();
    assert!(safety.is_temperature_safe(celsius(200), celsius(200), 1_000).is_empty());
    for _second in 0..10 {
        assert!(safety.is_temperature_safe(celsius(210), celsius(200), 1_000).is_empty());
    }
    assert!(safety.is_temperature_safe(celsius(201), celsius(200), 1_000).is_empty());
    for _second in 0..20 {
        assert!(safety.is_temperature_safe(celsius(210), celsius(200), 1_000).is_empty());
    }
    assert!(safety
        .is_temperature_safe(celsius(210), celsius(200), 1_000)
        .contains(TemperatureError::FailedToKeepTemperature));
    assert!(safety.is_temperature_safe(celsius(202), celsius(200), 1_000).is_empty());
}

#[test]
fn keeping_is_inert_before_the_target_is_reached() {
    let mut safety = supervisor();
    for _second in 0..100 {
        let errors = safety.is_temperature_safe(celsius(210), celsius(200), 1_000);
        assert!(errors.is_empty());
    }
}

#[test]
fn keeping_starts_over_with_a_new_target() {
    let mut safety = supervisor();
    assert!(safety.is_temperature_safe(celsius(200), celsius(200), 1_000).is_empty());
    for _second in 0..20 {
        assert!(safety.is_temperature_safe(celsius(210), celsius(200), 1_000).is_empty());
    }
    for _second in 0..100 {
        assert!(safety.is_temperature_safe(celsius(210), celsius(199), 1_000).is_empty());
    }
}

#[test]
fn hysteresis_band_includes_its_ends() {
    let mut safety = supervisor();
    assert!(safety.is_temperature_safe(celsius(200), celsius(200), 1_000).is_empty());
    for _second in 0..100 {
        assert!(safety.is_temperature_safe(celsius(202), celsius(200), 1_000).is_empty());
        assert!(safety.is_temperature_safe(celsius(198), celsius(200), 1_000).is_empty());
    }
    assert!(safety
        .is_temperature_safe(Temperature::from_millikelvin(475_151), celsius(200), 20_001)
        .contains(TemperatureError::FailedToKeepTemperature));
}

#[test]
fn stalling_for_the_whole_window_fails_to_rise() {
    let mut safety = supervisor();
    for _second in 0..88 {
        assert!(safety.is_temperature_safe(celsius(100), celsius(240), 1_000).is_empty());
    }
    let errors = safety.is_temperature_safe(celsius(100), celsius(240), 1_000);
    assert!(errors.contains(TemperatureError::FailedToRiseTemperature));
    assert_eq!(
        errors,
        TemperatureErrorSet::empty().with(TemperatureError::FailedToRiseTemperature)
    );
    let errors = safety.is_temperature_safe(celsius(100), celsius(240), 1_000);
    assert!(errors.contains(TemperatureError::FailedToRiseTemperature));
}

#[test]
fn rising_steadily_does_not_trip() {
    let mut safety = supervisor();
    for second in 0..130_u16 {
        let errors = safety.is_temperature_safe(celsius(100 + second), celsius(240), 1_000);
        assert!(errors.is_empty());
    }
}

#[test]
fn rising_by_the_hysteresis_over_a_window_is_enough() {
    let mut safety = supervisor();
    let start: u32 = 373_150;
    for second in 0..88_u32 {
        let current = Temperature::from_millikelvin(start + second * 22);
        assert!(safety.is_temperature_safe(current, celsius(240), 1_000).is_empty());
    }
    let enough = Temperature::from_millikelvin(start + 2_000);
    assert!(safety.is_temperature_safe(enough, celsius(240), 1_000).is_empty());
}

#[test]
fn rising_by_less_than_the_hysteresis_over_a_window_trips() {
    let mut safety = supervisor();
    let start: u32 = 373_150;
    for second in 0..88_u32 {
        let current = Temperature::from_millikelvin(start + second * 22);
        assert!(safety.is_temperature_safe(current, celsius(240), 1_000).is_empty());
    }
    let short = Temperature::from_millikelvin(start + 1_999);
    assert!(safety
        .is_temperature_safe(short, celsius(240), 1_000)
        .contains(TemperatureError::FailedToRiseTemperature));
}

#[test]
fn rise_window_slides_once_it_is_full() {
    let mut safety = supervisor();
    for _second in 0..88 {
        assert!(safety.is_temperature_safe(celsius(100), celsius(240), 1_000).is_empty());
    }
    assert!(!safety.is_temperature_safe(celsius(100), celsius(240), 1_000).is_empty());
    assert!(!safety.is_temperature_safe(celsius(103), celsius(240), 1_000).is_empty());
    assert!(safety.is_temperature_safe(celsius(103), celsius(240), 1_000).is_empty());
}

#[test]
fn rising_starts_over_with_a_new_target_or_at_the_target() {
    let mut safety = supervisor();
    for _second in 0..88 {
        assert!(safety.is_temperature_safe(celsius(100), celsius(240), 1_000).is_empty());
    }
    assert!(safety.is_temperature_safe(celsius(100), celsius(241), 1_000).is_empty());
    for _second in 0..87 {
        assert!(safety.is_temperature_safe(celsius(100), celsius(241), 1_000).is_empty());
    }
    assert!(safety
        .is_temperature_safe(celsius(100), celsius(241), 1_000)
        .contains(TemperatureError::FailedToRiseTemperature));

    let mut safety = supervisor();
    for _second in 0..88 {
        assert!(safety.is_temperature_safe(celsius(100), celsius(240), 1_000).is_empty());
    }
    assert!(safety.is_temperature_safe(celsius(238), celsius(240), 1_000).is_empty());
    for _second in 0..20 {
        assert!(safety.is_temperature_safe(celsius(100), celsius(240), 1_000).is_empty());
    }
    let errors = safety.is_temperature_safe(celsius(100), celsius(240), 1_000);
    assert!(errors.contains(TemperatureError::FailedToKeepTemperature));
    assert!(!errors.contains(TemperatureError::FailedToRiseTemperature));
}

#[test]
fn several_policies_trip_together() {
    let mut safety = TemperatureSafety::new(
        TemperatureRange { min: celsius(120), max: celsius(270) },
        TemperatureChangeConfig { period_in_millis: 20_000, hysteresis_in_millikelvin: 2_000 },
        TemperatureChangeConfig { period_in_millis: 90_000, hysteresis_in_millikelvin: 2_000 },
        45,
    );
    let out = TemperatureErrorSet::empty().with(TemperatureError::OutOfRange);
    for _second in 0..88 {
        assert_eq!(safety.is_temperature_safe(celsius(100), celsius(240), 1_000), out);
    }
    let errors = safety.is_temperature_safe(celsius(100), celsius(240), 1_000);
    assert_eq!(errors, out.with(TemperatureError::FailedToRiseTemperature));
    assert!(!errors.contains(TemperatureError::FailedToKeepTemperature));
}

#[test]
fn samples_are_spaced_by_the_period_over_their_count() {
    let mut safety = TemperatureSafety::new(
        TemperatureRange { min: celsius(0), max: celsius(270) },
        TemperatureChangeConfig { period_in_millis: 20_000, hysteresis_in_millikelvin: 2_000 },
        TemperatureChangeConfig { period_in_millis: 9_000, hysteresis_in_millikelvin: 2_000 },
        3,
    );
    assert!(safety.is_temperature_safe(celsius(100), celsius(240), 500).is_empty());
    assert!(safety.is_temperature_safe(celsius(100), celsius(240), 2_999).is_empty());
    assert!(safety.is_temperature_safe(celsius(100), celsius(240), 1).is_empty());
    assert!(safety.is_temperature_safe(celsius(100), celsius(240), 2_999).is_empty());
    assert!(safety
        .is_temperature_safe(celsius(100), celsius(240), 1)
        .contains(TemperatureError::FailedToRiseTemperature));
}
