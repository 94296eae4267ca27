use firmware_core::hot_plate::drivers::thermistor::{SensorReadFailure, Thermistor};
use firmware_core::utils::math::{lerp, Percentage};
use firmware_core::utils::measurement::color::ColorRGB565;
use firmware_core::utils::measurement::temperature::Temperature;
use firmware_core::utils::{slice_to_array, slice_to_array_filled};

#[test]
fn temperature_scales_differ_by_the_exact_offset() {
    assert_eq!(Temperature::ZERO_CELSIUS_IN_MILLIKELVIN, 273_150);
    assert_eq!(Temperature::from_celsius(25).as_millikelvin(), 298_150);
    assert_eq!(Temperature::from_celsius(0).as_millicelsius(), 0);
    assert_eq!(Temperature::from_millikelvin(0).as_millicelsius(), -273_150);
    assert_eq!(Temperature::from_millikelvin(u32::MAX).as_millicelsius(), 4_294_694_145);
}

#[test]
fn temperature_celsius_round_trip_is_lossless() {
    let readings: [i32; 7] = [-273_150, -1, 0, 1, 25_000, 270_000, i32::MAX];
    for reading in readings {
        let temperature = Temperature::from_millicelsius(reading).unwrap();
        assert_eq!(temperature.as_millicelsius(), reading as i64);
        assert_eq!(temperature.as_millikelvin() as i64, reading as i64 + 273_150);
    }
}

#[test]
fn temperature_below_absolute_zero_is_refused() {
    assert!(Temperature::from_millicelsius(-273_151).is_none());
    assert!(Temperature::from_millicelsius(i32::MIN).is_none());
    assert_eq!(
        Temperature::from_millicelsius(-273_150),
        Some(Temperature::from_millikelvin(0))
    );
}

#[test]
fn temperatures_are_ordered_by_their_value() {
    let cold = Temperature::from_celsius(20);
    let hot = Temperature::from_celsius(240);
    assert!(cold < hot);
    assert!(hot > cold);
    assert!(cold <= Temperature::from_millikelvin(293_150));
    assert_eq!(cold, Temperature::from_millikelvin(293_150));
    assert_eq!(cold.abs_diff(hot), 220_000);
    assert_eq!(hot.abs_diff(cold), 220_000);
    assert_eq!(hot.abs_diff(hot), 0);
}

#[test]
fn percentage_constructors_accept_the_range_only() {
    assert_eq!(Percentage::zero().as_micropercent(), 0);
    assert_eq!(Percentage::full().as_micropercent(), 100_000_000);
    assert_eq!(Percentage::FULL_IN_MICROPERCENT, 100_000_000);
    assert_eq!(Percentage::from_0_to_100(20).unwrap().as_micropercent(), 20_000_000);
    assert_eq!(Percentage::from_0_to_100(100), Some(Percentage::full()));
    assert!(Percentage::from_0_to_100(101).is_none());
    assert_eq!(Percentage::from_micropercent(1).unwrap().as_micropercent(), 1);
    assert_eq!(Percentage::from_micropercent(100_000_000), Some(Percentage::full()));
    assert!(Percentage::from_micropercent(100_000_001).is_none());
    assert!(Percentage::from_micropercent(u32::MAX).is_none());
}

#[test]
fn percentage_from_ratio_rounds_down() {
    assert_eq!(Percentage::from_ratio(1, 4).unwrap().as_micropercent(), 25_000_000);
    assert_eq!(Percentage::from_ratio(1, 3).unwrap().as_micropercent(), 33_333_333);
    assert_eq!(Percentage::from_ratio(2, 3).unwrap().as_micropercent(), 66_666_666);
    assert_eq!(Percentage::from_ratio(0, 7), Some(Percentage::zero()));
    assert_eq!(Percentage::from_ratio(4095, 4095), Some(Percentage::full()));
    assert_eq!(
        Percentage::from_ratio(u32::MAX - 1, u32::MAX).unwrap().as_micropercent(),
        99_999_999
    );
    assert!(Percentage::from_ratio(5, 4).is_none());
    assert!(Percentage::from_ratio(0, 0).is_none());
    assert!(Percentage::from_ratio(1, 0).is_none());
}

#[test]
fn percentage_clamped_stays_in_range() {
    assert_eq!(Percentage::clamped(-1), Percentage::zero());
    assert_eq!(Percentage::clamped(i64::MIN), Percentage::zero());
    assert_eq!(Percentage::clamped(0), Percentage::zero());
    assert_eq!(Percentage::clamped(22_000_000).as_micropercent(), 22_000_000);
    assert_eq!(Percentage::clamped(100_000_000), Percentage::full());
    assert_eq!(Percentage::clamped(100_000_001), Percentage::full());
    assert_eq!(Percentage::clamped(i64::MAX), Percentage::full());
}

#[test]
fn percentage_of_rounds_to_nearest() {
    assert_eq!(Percentage::full().of(65_535), 65_535);
    assert_eq!(Percentage::zero().of(65_535), 0);
    assert_eq!(Percentage::from_0_to_100(50).unwrap().of(65_535), 32_768);
    assert_eq!(Percentage::from_0_to_100(50).unwrap().of(65_534), 32_767);
    assert_eq!(Percentage::from_0_to_100(20).unwrap().of(1000), 200);
    assert_eq!(Percentage::from_micropercent(149_999).unwrap().of(1000), 1);
    assert_eq!(Percentage::from_micropercent(49_999).unwrap().of(1000), 0);
    assert_eq!(Percentage::from_micropercent(50_000).unwrap().of(1000), 1);
    assert_eq!(Percentage::full().of(u32::MAX), u32::MAX);
}

#[test]
fn map_rescales_linearly_and_rounds_down() {
    assert_eq!(firmware_core::utils::math::map(5, (0, 10), (0, 100)), 50);
    assert_eq!(firmware_core::utils::math::map(0, (0, 360), (0, 199)), 0);
    assert_eq!(firmware_core::utils::math::map(360, (0, 360), (0, 199)), 199);
    assert_eq!(firmware_core::utils::math::map(60, (0, 360), (0, 199)), 33);
    assert_eq!(firmware_core::utils::math::map(361, (0, 360), (0, 199)), 199);
    assert_eq!(firmware_core::utils::math::map(720, (0, 360), (0, 199)), 398);
    assert_eq!(firmware_core::utils::math::map(15, (10, 20), (100, 300)), 200);
    assert_eq!(
        firmware_core::utils::math::map(u64::MAX, (0, 1), (0, u64::MAX)),
        u64::MAX as u128 * u64::MAX as u128
    );
}

#[test]
fn lerp_rounds_down_in_both_directions() {
    assert_eq!(lerp(0, 100, 1, 3), 33);
    assert_eq!(lerp(100, 0, 1, 3), 66);
    assert_eq!(lerp(-5, 5, 1, 2), 0);
    assert_eq!(lerp(0, -1, 1, 2), -1);
    assert_eq!(lerp(150_000, 180_000, 0, 120), 150_000);
    assert_eq!(lerp(150_000, 180_000, 120, 120), 180_000);
    assert_eq!(lerp(240_000, 0, 105, 105), 0);
    assert_eq!(lerp(7, 7, 3, 9), 7);
    assert_eq!(lerp(i64::MIN, i64::MAX, 1, 1), i64::MAX);
    assert_eq!(lerp(i64::MAX, i64::MIN, 1, 2), -1);
}

#[test]
fn thermistor_needs_positive_constants() {
    assert!(Thermistor::new(3_950, 100_000, 4_700).is_some());
    assert!(Thermistor::new(0, 100_000, 4_700).is_none());
    assert!(Thermistor::new(3_950, 0, 4_700).is_none());
    assert!(Thermistor::new(3_950, 100_000, 0).is_none());
    let thermistor = Thermistor::new(3_950, 100_000, 4_700).unwrap();
    assert_eq!(thermistor.get_beta(), 3_950);
    assert_eq!(thermistor.get_resistance_at_t0(), 100_000);
    assert_eq!(thermistor.get_other_resistance(), 4_700);
    assert_eq!(Thermistor::T0_IN_MILLIKELVIN, 298_150);
}

#[test]
fn thermistor_resistance_follows_the_divider() {
    let thermistor = Thermistor::new(3_950, 100_000, 4_700).unwrap();
    assert_eq!(
        thermistor.resistance(Percentage::from_0_to_100(50).unwrap()),
        Ok(4_700_000)
    );
    assert_eq!(
        thermistor.resistance(Percentage::from_ratio(1, 4).unwrap()),
        Ok(1_566_666)
    );
    assert_eq!(
        thermistor.resistance(Percentage::from_0_to_100(75).unwrap()),
        Ok(14_100_000)
    );
    assert_eq!(
        thermistor.resistance(Percentage::from_micropercent(1).unwrap()),
        Ok(0)
    );
    assert_eq!(
        thermistor.resistance(Percentage::from_micropercent(99_999_999).unwrap()),
        Ok(469_999_995_300_000)
    );
}

#[test]
fn thermistor_reading_at_either_end_fails() {
    let thermistor = Thermistor::new(3_950, 100_000, 4_700).unwrap();
    assert_eq!(
        thermistor.resistance(Percentage::zero()),
        Err(SensorReadFailure::Shorted)
    );
    assert_eq!(
        thermistor.resistance(Percentage::full()),
        Err(SensorReadFailure::Open)
    );
}

#[test]
fn thermistor_ratio_survives_the_beta_equation_and_back() {
    let thermistor = Thermistor::new(3_950, 100_000, 4_700).unwrap();
    let beta = thermistor.get_beta() as f64;
    let r0 = thermistor.get_resistance_at_t0() as f64;
    let other = thermistor.get_other_resistance() as f64;
    let t0 = Thermistor::T0_IN_MILLIKELVIN as f64 / 1000.0;
    let percents: [u32; 7] = [1, 5, 20, 50, 80, 95, 99];
    for percent in percents {
        let ratio = Percentage::from_0_to_100(percent).unwrap();
        let resistance = thermistor.resistance(ratio).unwrap() as f64 / 1000.0;
        let kelvin = 1.0 / (1.0 / t0 + (resistance / r0).ln() / beta);
        assert!(kelvin.is_finite() && kelvin > 0.0);
        let back = r0 * (beta * (1.0 / kelvin - 1.0 / t0)).exp();
        let recovered = back / (back + other);
        let asked = ratio.as_micropercent() as f64 / 100_000_000.0;
        assert!((recovered - asked).abs() < 1e-6);
    }
}

#[test]
fn thermistor_at_its_reference_resistance_reads_25_celsius() {
    let thermistor = Thermistor::new(3_950, 100_000, 100_000).unwrap();
    let resistance = thermistor.resistance(Percentage::from_0_to_100(50).unwrap()).unwrap();
    assert_eq!(resistance, 100_000_000);
}

#[test]
fn slice_to_array_copies_the_first_elements() {
    let array: [i32; 3] = [5, 10, 20];
    assert_eq!(slice_to_array::<i32, 3>(&array), array);
    assert_eq!(slice_to_array::<i32, 2>(&array), [5, 10]);
    assert_eq!(slice_to_array::<i32, 0>(&array), []);
    let empty: [u8; 0] = [];
    assert_eq!(slice_to_array::<u8, 0>(&empty), empty);
}

#[test]
fn slice_to_array_filled_pads_a_short_slice() {
    let array: [i32; 3] = [5, 10, 20];
    assert_eq!(slice_to_array_filled::<i32, 5>(&array, -1), [5, 10, 20, -1, -1]);
    assert_eq!(slice_to_array_filled::<i32, 3>(&array, -1), [5, 10, 20]);
    assert_eq!(slice_to_array_filled::<i32, 2>(&array, -1), [5, 10]);
    assert_eq!(slice_to_array_filled::<i32, 0>(&array, -1), []);
    let empty: [i32; 0] = [];
    assert_eq!(slice_to_array_filled::<i32, 2>(&empty, 7), [7, 7]);
}

#[test]
fn color_bytes_are_its_two_bytes_in_machine_order() {
    let color = ColorRGB565(0xf81f);
    let bytes = color.as_bytes();
    assert_eq!(bytes, 0xf81f_u16.to_ne_bytes());
    assert!(bytes == [0x1f, 0xf8] || bytes == [0xf8, 0x1f]);
    assert_eq!(u16::from_ne_bytes(bytes), 0xf81f);
    assert_eq!(ColorRGB565::white().as_bytes(), [0xff, 0xff]);
    assert_eq!(ColorRGB565::default(), ColorRGB565::white());
    assert_eq!(ColorRGB565(0).as_bytes(), [0, 0]);
}
