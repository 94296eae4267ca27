use firmware_core::hot_plate::process::temperature_reflow_profile::{
    default_profile, ReflowProfile, DEFAULT_PROFILE_POINTS,
};
use firmware_core::hot_plate::process::{DefaultReflowProcess, ReflowProcess};
use firmware_core::hot_plate::screen::drawable::Plot;
use firmware_core::utils::measurement::temperature::Temperature;

fn celsius(degrees: u16) -> Temperature {
    Temperature::from_celsius(degrees)
}

#[test]
fn default_profile_has_the_five_keyframes() {
    let profile = default_profile();
    assert_eq!(DEFAULT_PROFILE_POINTS, 5);
    assert_eq!(
        profile.temperature_points,
        [
            (celsius(150), 60),
            (celsius(180), 180),
            (celsius(240), 240),
            (celsius(240), 255),
            (celsius(0), 360),
        ]
    );
    assert!(profile.is_valid());
    assert_eq!(profile.total_duration(), 360);
}

#[test]
fn profile_validity_asks_for_increasing_times() {
    let empty: ReflowProfile<0> = ReflowProfile { temperature_points: [] };
    assert!(!empty.is_valid());
    let at_zero = ReflowProfile { temperature_points: [(celsius(100), 0)] };
    assert!(!at_zero.is_valid());
    let single = ReflowProfile { temperature_points: [(celsius(100), 1)] };
    assert!(single.is_valid());
    let repeated = ReflowProfile { temperature_points: [(celsius(100), 10), (celsius(120), 10)] };
    assert!(!repeated.is_valid());
    let backwards = ReflowProfile {
        temperature_points: [(celsius(100), 10), (celsius(120), 20), (celsius(90), 15)],
    };
    assert!(!backwards.is_valid());
    let rising = ReflowProfile {
        temperature_points: [(celsius(100), 10), (celsius(120), 20), (celsius(90), 21)],
    };
    assert!(rising.is_valid());
}

#[test]
fn to_plot_samples_both_ends_of_the_profile() {
    let profile = ReflowProfile { temperature_points: [(celsius(100), 10)] };
    let eleven: Plot<11> = profile.to_plot(1);
    assert_eq!(eleven.points, [0, 10, 20, 30, 40, 50, 60, 70, 80, 90, 100]);
    assert_eq!(eleven.thickness, 1);
    let five: Plot<5> = profile.to_plot(3);
    assert_eq!(five.points, [0, 25, 50, 75, 100]);
    assert_eq!(five.thickness, 3);
    let two: Plot<2> = profile.to_plot(1);
    assert_eq!(two.points, [0, 100]);
    let one: Plot<1> = profile.to_plot(1);
    assert_eq!(one.points, [0]);
    let none: Plot<0> = profile.to_plot(1);
    assert_eq!(none.points, []);
}

#[test]
fn to_plot_follows_every_segment() {
    let profile = ReflowProfile {
        temperature_points: [(celsius(150), 60), (celsius(150), 120), (celsius(20), 180)],
    };
    let plot: Plot<7> = profile.to_plot(1);
    assert_eq!(plot.points, [0, 75, 150, 150, 150, 85, 20]);
}

#[test]
fn to_plot_of_the_default_profile() {
    let plot: Plot<200> = default_profile().to_plot(1);
    assert_eq!(plot.points[0], 0);
    assert_eq!(plot.points[33], 149);
    assert_eq!(plot.points[34], 150);
    assert_eq!(plot.points[99], 179);
    assert_eq!(plot.points[100], 180);
    assert_eq!(plot.points[132], 238);
    assert_eq!(plot.points[141], 239);
    assert_eq!(plot.points[198], 4);
    assert_eq!(plot.points[199], 0);
}

#[test]
fn flat_segment_is_flat_in_the_table() {
    let plot: Plot<200> = default_profile().to_plot(1);
    let first: usize = 133;
    let last: usize = 140;
    assert!(first * 360 >= 240 * 199 && (first - 1) * 360 < 240 * 199);
    assert!(last * 360 <= 255 * 199 && (last + 1) * 360 > 255 * 199);
    assert_eq!(plot.points[first], plot.points[last]);
    for index in first..=last {
        assert_eq!(plot.points[index], 240);
    }
}

#[test]
fn flat_segment_with_samples_on_its_ends() {
    let profile = ReflowProfile {
        temperature_points: [(celsius(150), 60), (celsius(150), 120), (celsius(20), 180)],
    };
    let plot: Plot<7> = profile.to_plot(1);
    assert_eq!(plot.points[2], plot.points[4]);
    assert_eq!(plot.points[2], 150);
}

#[test]
fn celsius_at_interpolates_between_the_bracketing_keyframes() {
    let profile = default_profile();
    assert_eq!(profile.celsius_at(0, 1), 0);
    assert_eq!(profile.celsius_at(30, 1), 75);
    assert_eq!(profile.celsius_at(60, 1), 150);
    assert_eq!(profile.celsius_at(120, 1), 165);
    assert_eq!(profile.celsius_at(180, 1), 180);
    assert_eq!(profile.celsius_at(421, 2), 210);
    assert_eq!(profile.celsius_at(240, 1), 240);
    assert_eq!(profile.celsius_at(250, 1), 240);
    assert_eq!(profile.celsius_at(255, 1), 240);
    assert_eq!(profile.celsius_at(256, 1), 237);
    assert_eq!(profile.celsius_at(360, 1), 0);
}

#[test]
fn celsius_at_limits_what_the_table_cannot_hold() {
    let cold = ReflowProfile {
        temperature_points: [(Temperature::from_millikelvin(0), 10), (celsius(100), 20)],
    };
    assert_eq!(cold.celsius_at(5, 1), 0);
    assert_eq!(cold.celsius_at(10, 1), 0);
    assert_eq!(cold.celsius_at(20, 1), 100);
    let hot = ReflowProfile {
        temperature_points: [(Temperature::from_millikelvin(u32::MAX), 10)],
    };
    assert_eq!(hot.celsius_at(10, 1), 65_535);
    assert_eq!(hot.celsius_at(0, 1), 0);
    let fraction = ReflowProfile {
        temperature_points: [(Temperature::from_millicelsius(99_999).unwrap(), 10)],
    };
    assert_eq!(fraction.celsius_at(10, 1), 99);
}

#[test]
fn process_starts_at_zero_celsius() {
    let mut process = DefaultReflowProcess::start_default();
    assert_eq!(process.get_elapsed_millis(), 0);
    assert_eq!(process.tick(0), Some(celsius(0)));
    assert_eq!(process.get_elapsed_millis(), 0);
}

#[test]
fn process_reaches_the_last_keyframe_and_ends_after_it() {
    let profile = ReflowProfile { temperature_points: [(celsius(100), 10)] };
    let mut process: ReflowProcess<1, 11> = ReflowProcess::start(profile);
    assert_eq!(process.tick(5_000), Some(celsius(50)));
    assert_eq!(process.tick(4_999), Some(celsius(90)));
    assert_eq!(process.tick(1), Some(celsius(100)));
    assert_eq!(process.get_elapsed_millis(), 10_000);
    assert_eq!(process.tick(1), None);
    assert_eq!(process.get_elapsed_millis(), 10_001);
}

#[test]
fn process_that_has_ended_never_resumes() {
    let profile = ReflowProfile { temperature_points: [(celsius(100), 10)] };
    let mut process: ReflowProcess<1, 11> = ReflowProcess::start(profile);
    assert_eq!(process.tick(10_001), None);
    assert_eq!(process.tick(0), None);
    assert_eq!(process.tick(1_000), None);
    assert_eq!(process.tick(u64::MAX), None);
    assert_eq!(process.get_elapsed_millis(), u64::MAX);
    assert_eq!(process.tick(1), None);
    assert_eq!(process.get_elapsed_millis(), u64::MAX);
}

#[test]
fn process_follows_the_default_profile() {
    let seconds: [(u64, u16); 10] = [
        (30, 72),
        (60, 149),
        (120, 164),
        (180, 179),
        (240, 238),
        (250, 240),
        (255, 240),
        (300, 140),
        (359, 4),
        (360, 0),
    ];
    for (second, expected) in seconds {
        let mut process = DefaultReflowProcess::start_default();
        assert_eq!(process.tick(second * 1000), Some(celsius(expected)));
    }
    let mut process = DefaultReflowProcess::start_default();
    assert_eq!(process.tick(360_001), None);
}

#[test]
fn process_counts_whole_seconds_for_the_table() {
    let profile = ReflowProfile { temperature_points: [(celsius(100), 10)] };
    let mut process: ReflowProcess<1, 11> = ReflowProcess::start(profile);
    assert_eq!(process.tick(999), Some(celsius(0)));
    assert_eq!(process.tick(1), Some(celsius(10)));
    assert_eq!(process.tick(999), Some(celsius(10)));
    assert_eq!(process.tick(1), Some(celsius(20)));
}

#[test]
fn process_with_a_single_sample_stays_at_the_start() {
    let profile = ReflowProfile { temperature_points: [(celsius(100), 10)] };
    let mut process: ReflowProcess<1, 1> = ReflowProcess::start(profile);
    assert_eq!(process.tick(0), Some(celsius(0)));
    assert_eq!(process.tick(10_000), Some(celsius(0)));
    assert_eq!(process.tick(1), None);
}

#[test]
fn process_keeps_its_table() {
    let process = DefaultReflowProcess::start_default();
    let plot: Plot<200> = default_profile().to_plot(1);
    assert_eq!(process.get_plot().points, plot.points);
    assert_eq!(process.get_plot().get(33), Some(149));
    assert_eq!(process.get_plot().get(199), Some(0));
    assert_eq!(process.get_plot().get(200), None);
}
