use firmware_core::hot_plate::drivers::cartridge_heater::CartridgeHeater;
use firmware_core::hot_plate::drivers::fan::Fan;
use firmware_core::hot_plate::hal::pwm::PwmPin;
use firmware_core::hot_plate::hal::sensor::TemperatureSensor;
use firmware_core::hot_plate::hal::simulated::{SimulatedFault, SimulatedPwmPin, SimulatedSensor};
use firmware_core::hot_plate::temperature::pid::{
    ControlOutput, PidControl, PidController, PidGains, TickError, PID_CONTROL_MAX_LIMIT,
    PID_CONTROL_MIN_LIMIT,
};
use firmware_core::hot_plate::temperature::safety::{
    TemperatureChangeConfig, TemperatureError, TemperatureErrorSet, TemperatureRange,
    TemperatureSafety,
};
use firmware_core::utils::math::Percentage;
use firmware_core::utils::measurement::temperature::Temperature;

fn celsius(degrees: u16) -> Temperature {
    Temperature::from_celsius(degrees)
}

fn millicelsius(reading: i32) -> Temperature {
    Temperature::from_millicelsius(reading).unwrap()
}

fn gains() -> PidGains {
    PidGains { p: 20_000, i: 2_000, d: 50_000 }
}

fn supervisor() -> TemperatureSafety {
    TemperatureSafety::new(
        TemperatureRange { min: celsius(0), max: celsius(270) },
        TemperatureChangeConfig { period_in_millis: 20_000, hysteresis_in_millikelvin: 2_000 },
        TemperatureChangeConfig { period_in_millis: 90_000, hysteresis_in_millikelvin: 2_000 },
        45,
    )
}

fn controller(
    script: Vec<Option<Temperature>>,
) -> PidController<SimulatedPwmPin, SimulatedSensor> {
    PidController::new(
        SimulatedSensor::new(script),
        CartridgeHeater::new(SimulatedPwmPin::new()),
        gains(),
        supervisor(),
    )
}

fn requests(controller: &PidController<SimulatedPwmPin, SimulatedSensor>) -> Vec<u32> {
    controller
        .get_cartridge_heater()
        .get_pin()
        .requests
        .iter()
        .map(|percentage| percentage.as_micropercent())
        .collect()
}

#[test]
fn control_limits_are_zero_and_full() {
    assert_eq!(PID_CONTROL_MIN_LIMIT, 0);
    assert_eq!(PID_CONTROL_MAX_LIMIT, 100_000_000);
}

#[test]
fn control_output_adds_the_three_terms() {
    let mut control = PidControl::new(gains(), celsius(100));
    assert_eq!(
        control.next_control_output(celsius(99)),
        ControlOutput { p: 20_000_000, i: 2_000_000, d: 0, output: 22_000_000 }
    );
    assert_eq!(
        control.next_control_output(millicelsius(99_500)),
        ControlOutput { p: 10_000_000, i: 3_000_000, d: -25_000_000, output: 0 }
    );
    assert_eq!(
        control.next_control_output(millicelsius(99_400)),
        ControlOutput { p: 12_000_000, i: 4_200_000, d: 5_000_000, output: 21_200_000 }
    );
}

#[test]
fn control_output_limits_each_term_and_the_sum() {
    let mut control = PidControl::new(gains(), celsius(200));
    assert_eq!(
        control.next_control_output(celsius(100)),
        ControlOutput { p: 100_000_000, i: 100_000_000, d: 0, output: 100_000_000 }
    );
    assert_eq!(
        control.next_control_output(celsius(200)),
        ControlOutput { p: 0, i: 100_000_000, d: -100_000_000, output: 0 }
    );
    assert_eq!(
        control.next_control_output(celsius(270)),
        ControlOutput { p: -100_000_000, i: -40_000_000, d: -100_000_000, output: 0 }
    );
    assert_eq!(
        control.next_control_output(celsius(100)),
        ControlOutput { p: 100_000_000, i: 100_000_000, d: 100_000_000, output: 100_000_000 }
    );
}

#[test]
fn control_output_stays_in_range_at_the_extremes() {
    let extreme = PidGains { p: i32::MAX, i: i32::MIN, d: i32::MIN };
    let mut control = PidControl::new(extreme, Temperature::from_millikelvin(u32::MAX));
    let first = control.next_control_output(Temperature::from_millikelvin(0));
    assert_eq!(
        first,
        ControlOutput { p: 100_000_000, i: -100_000_000, d: 0, output: 0 }
    );
    let second = control.next_control_output(Temperature::from_millikelvin(u32::MAX));
    assert_eq!(
        second,
        ControlOutput { p: 0, i: -100_000_000, d: 100_000_000, output: 0 }
    );
    control.set_setpoint(Temperature::from_millikelvin(0));
    let third = control.next_control_output(Temperature::from_millikelvin(u32::MAX));
    assert_eq!(
        third,
        ControlOutput { p: -100_000_000, i: 100_000_000, d: 0, output: 0 }
    );
    control.set_gains(PidGains { p: i32::MIN, i: 0, d: 0 });
    let fourth = control.next_control_output(Temperature::from_millikelvin(u32::MAX));
    assert_eq!(
        fourth,
        ControlOutput { p: 100_000_000, i: 100_000_000, d: 0, output: 100_000_000 }
    );
}

#[test]
fn control_keeps_gains_and_setpoint() {
    let mut control = PidControl::new(gains(), celsius(100));
    assert_eq!(control.get_gains(), gains());
    assert_eq!(control.get_setpoint(), celsius(100));
    control.set_setpoint(celsius(150));
    control.set_gains(PidGains { p: 1, i: 2, d: 3 });
    assert_eq!(control.get_gains(), PidGains { p: 1, i: 2, d: 3 });
    assert_eq!(control.get_setpoint(), celsius(150));
}

#[test]
fn new_controller_has_no_sample_and_no_target() {
    let controller = controller(vec![]);
    assert_eq!(controller.get_last_sample_of_current_temperature(), None);
    assert_eq!(controller.get_target_temperature(), Temperature::from_millikelvin(0));
    assert_eq!(controller.get_pid_gains(), gains());
    assert_eq!(requests(&controller), Vec::<u32>::new());
}

#[test]
fn tick_sets_the_heater_to_the_control_output() {
    let mut controller = controller(vec![Some(celsius(99)), Some(millicelsius(98_900))]);
    controller.set_target_temperature(celsius(100));
    assert_eq!(controller.get_target_temperature(), celsius(100));
    assert_eq!(controller.tick(1_000), Ok(()));
    assert_eq!(requests(&controller), vec![22_000_000]);
    assert_eq!(controller.get_last_sample_of_current_temperature(), Some(celsius(99)));
    assert_eq!(
        controller.get_cartridge_heater().get_heat_percentage(),
        Percentage::from_0_to_100(22).unwrap()
    );
    assert_eq!(controller.tick(1_000), Ok(()));
    assert_eq!(requests(&controller), vec![22_000_000, 31_200_000]);
    assert_eq!(
        controller.get_last_sample_of_current_temperature(),
        Some(millicelsius(98_900))
    );
}

#[test]
fn tick_duty_is_never_above_full_nor_below_zero() {
    let mut controller = controller(vec![
        Some(celsius(20)),
        Some(celsius(20)),
        Some(celsius(260)),
        Some(celsius(269)),
        Some(celsius(250)),
    ]);
    controller.set_target_temperature(celsius(250));
    for _step in 0..5 {
        assert_eq!(controller.tick(100), Ok(()));
    }
    let asked = requests(&controller);
    assert_eq!(
        asked,
        vec![100_000_000, 100_000_000, 0, 0, 100_000_000]
    );
    for duty in asked {
        assert!(duty <= 100_000_000);
    }
}

#[test]
fn tick_without_a_reading_does_not_touch_the_heater() {
    let mut controller = controller(vec![None, Some(celsius(99)), None]);
    controller.set_target_temperature(celsius(100));
    assert_eq!(controller.tick(1_000), Err(TickError::CantReadTemperature));
    assert_eq!(requests(&controller).len(), 0);
    assert_eq!(controller.get_last_sample_of_current_temperature(), None);
    assert_eq!(controller.tick(1_000), Ok(()));
    assert_eq!(requests(&controller), vec![22_000_000]);
    assert_eq!(controller.tick(1_000), Err(TickError::CantReadTemperature));
    assert_eq!(requests(&controller), vec![22_000_000]);
    assert_eq!(controller.get_last_sample_of_current_temperature(), Some(celsius(99)));
    assert_eq!(controller.tick(1_000), Err(TickError::CantReadTemperature));
    assert_eq!(controller.get_thermistor().taken, 3);
}

#[test]
fn tick_with_a_violation_does_not_touch_the_heater() {
    let mut controller = controller(vec![Some(celsius(280)), Some(celsius(249))]);
    controller.set_target_temperature(celsius(250));
    assert_eq!(
        controller.tick(1_000),
        Err(TickError::SafetyViolation(
            TemperatureErrorSet::empty().with(TemperatureError::OutOfRange)
        ))
    );
    assert_eq!(requests(&controller).len(), 0);
    assert_eq!(controller.get_last_sample_of_current_temperature(), Some(celsius(280)));
    assert_eq!(controller.tick(1_000), Ok(()));
    assert_eq!(requests(&controller), vec![22_000_000]);
}

#[test]
fn tick_reports_every_violation_of_the_step() {
    let safety = TemperatureSafety::new(
        TemperatureRange { min: celsius(120), max: celsius(270) },
        TemperatureChangeConfig { period_in_millis: 20_000, hysteresis_in_millikelvin: 2_000 },
        TemperatureChangeConfig { period_in_millis: 2_000, hysteresis_in_millikelvin: 2_000 },
        2,
    );
    let mut controller = PidController::new(
        SimulatedSensor::new(vec![Some(celsius(100)), Some(celsius(100))]),
        CartridgeHeater::new(SimulatedPwmPin::new()),
        gains(),
        safety,
    );
    controller.set_target_temperature(celsius(240));
    let out = TemperatureErrorSet::empty().with(TemperatureError::OutOfRange);
    assert_eq!(controller.tick(1_000), Err(TickError::SafetyViolation(out)));
    assert_eq!(
        controller.tick(1_000),
        Err(TickError::SafetyViolation(out.with(TemperatureError::FailedToRiseTemperature)))
    );
    assert_eq!(requests(&controller).len(), 0);
}

#[test]
fn tick_reports_a_heater_that_does_not_take_the_duty() {
    let mut pin = SimulatedPwmPin::new();
    pin.failing = true;
    let mut controller = PidController::new(
        SimulatedSensor::new(vec![Some(celsius(99))]),
        CartridgeHeater::new(pin),
        gains(),
        supervisor(),
    );
    controller.set_target_temperature(celsius(100));
    assert_eq!(controller.tick(1_000), Err(TickError::SetHeaterPercentage));
    assert_eq!(requests(&controller), vec![22_000_000]);
    assert_eq!(controller.get_cartridge_heater().get_heat_percentage(), Percentage::zero());
}

#[test]
fn tick_with_reading_takes_the_reading_it_is_given() {
    let mut controller = controller(vec![]);
    controller.set_target_temperature(celsius(100));
    assert_eq!(controller.tick_with_reading(None, 1_000), Err(TickError::CantReadTemperature));
    assert_eq!(controller.tick_with_reading(Some(celsius(99)), 1_000), Ok(()));
    assert_eq!(requests(&controller), vec![22_000_000]);
    assert_eq!(controller.get_thermistor().taken, 0);
}

#[test]
fn tick_trips_when_the_plate_fails_to_heat() {
    let mut script: Vec<Option<Temperature>> = Vec::new();
    for _second in 0..90 {
        script.push(Some(celsius(100)));
    }
    let mut controller = controller(script);
    controller.set_target_temperature(celsius(240));
    for _second in 0..88 {
        assert_eq!(controller.tick(1_000), Ok(()));
    }
    assert_eq!(requests(&controller).len(), 88);
    assert_eq!(
        controller.tick(1_000),
        Err(TickError::SafetyViolation(
            TemperatureErrorSet::empty().with(TemperatureError::FailedToRiseTemperature)
        ))
    );
    assert_eq!(requests(&controller).len(), 88);
}

#[test]
fn changing_the_gains_changes_the_next_output() {
    let mut controller = controller(vec![Some(celsius(99)), Some(celsius(99))]);
    controller.set_target_temperature(celsius(100));
    controller.set_pid_gains(&PidGains { p: 1_000, i: 0, d: 0 });
    assert_eq!(controller.get_pid_gains(), PidGains { p: 1_000, i: 0, d: 0 });
    assert_eq!(controller.tick(1_000), Ok(()));
    controller.set_pid_gains(&PidGains { p: 500, i: 0, d: 0 });
    assert_eq!(controller.tick(1_000), Ok(()));
    assert_eq!(requests(&controller), vec![1_000_000, 500_000]);
}

#[test]
fn get_current_temperature_keeps_the_last_good_sample() {
    let mut controller = controller(vec![Some(celsius(50)), None, Some(celsius(51))]);
    assert_eq!(controller.get_current_temperature(), Ok(celsius(50)));
    assert_eq!(controller.get_last_sample_of_current_temperature(), Some(celsius(50)));
    assert_eq!(controller.get_current_temperature(), Err(SimulatedFault));
    assert_eq!(controller.get_last_sample_of_current_temperature(), Some(celsius(50)));
    assert_eq!(controller.get_current_temperature(), Ok(celsius(51)));
    assert_eq!(controller.get_last_sample_of_current_temperature(), Some(celsius(51)));
    assert_eq!(controller.get_current_temperature(), Err(SimulatedFault));
    assert_eq!(requests(&controller).len(), 0);
}

#[test]
fn keep_reading_keeps_temperatures_and_hands_the_reading_back() {
    let mut controller = controller(vec![Some(celsius(1))]);
    assert_eq!(controller.keep_reading(Err(SimulatedFault)), Err(SimulatedFault));
    assert_eq!(controller.get_last_sample_of_current_temperature(), None);
    assert_eq!(controller.keep_reading(Ok(celsius(50))), Ok(celsius(50)));
    assert_eq!(controller.get_last_sample_of_current_temperature(), Some(celsius(50)));
    assert_eq!(controller.keep_reading(Err(SimulatedFault)), Err(SimulatedFault));
    assert_eq!(controller.get_last_sample_of_current_temperature(), Some(celsius(50)));
    assert_eq!(controller.keep_reading(Ok(celsius(51))), Ok(celsius(51)));
    assert_eq!(controller.get_last_sample_of_current_temperature(), Some(celsius(51)));
    assert_eq!(controller.get_thermistor().taken, 0);
    assert_eq!(requests(&controller).len(), 0);
    assert_eq!(controller.get_target_temperature(), Temperature::from_millikelvin(0));
    assert_eq!(controller.get_pid_gains(), gains());
}

#[test]
fn heat_percentage_is_what_the_pin_runs_at() {
    let mut heater = CartridgeHeater::new(SimulatedPwmPin::new());
    assert_eq!(heater.get_heat_percentage(), Percentage::zero());
    assert_eq!(heater.set_heat_percentage(Percentage::full()), Ok(()));
    assert_eq!(heater.get_heat_percentage(), Percentage::full());
    assert!(heater.get_heat_percentage().as_micropercent() <= 100_000_000);
    assert_eq!(heater.get_pin().requests.len(), 1);
    let mut failing = SimulatedPwmPin::new();
    failing.failing = true;
    let mut heater = CartridgeHeater::new(failing);
    assert!(heater.set_heat_percentage(Percentage::full()).is_err());
    assert_eq!(heater.get_heat_percentage(), Percentage::zero());
}

#[test]
fn simulated_pin_records_every_request() {
    let mut pin = SimulatedPwmPin::new();
    assert_eq!(pin.get_duty_cycle(), Percentage::zero());
    assert_eq!(pin.set_duty_cycle(Percentage::full()), Ok(()));
    assert_eq!(pin.get_duty_cycle(), Percentage::full());
    pin.failing = true;
    assert_eq!(pin.set_duty_cycle(Percentage::zero()), Err(SimulatedFault));
    assert_eq!(pin.get_duty_cycle(), Percentage::full());
    assert_eq!(pin.requests, vec![Percentage::full(), Percentage::zero()]);
}

#[test]
fn simulated_sensor_replays_its_script() {
    let mut sensor = SimulatedSensor::new(vec![Some(celsius(1)), None, Some(celsius(3))]);
    assert_eq!(sensor.read_temperature(), Ok(celsius(1)));
    assert_eq!(sensor.read_temperature(), Err(SimulatedFault));
    assert_eq!(sensor.read_temperature(), Ok(celsius(3)));
    assert_eq!(sensor.read_temperature(), Err(SimulatedFault));
    assert_eq!(sensor.taken, 3);
}

#[test]
fn heater_and_fan_hand_the_percentage_to_their_pin() {
    let mut heater = CartridgeHeater::new(SimulatedPwmPin::new());
    assert_eq!(heater.set_heat_percentage(Percentage::from_0_to_100(30).unwrap()), Ok(()));
    assert_eq!(heater.get_heat_percentage(), Percentage::from_0_to_100(30).unwrap());
    let pin = heater.release();
    assert_eq!(pin.requests, vec![Percentage::from_0_to_100(30).unwrap()]);

    let mut fan = Fan::new(SimulatedPwmPin::new(), Percentage::from_0_to_100(20).unwrap());
    assert_eq!(fan.get_min_duty_cycle_to_move(), Percentage::from_0_to_100(20).unwrap());
    assert_eq!(fan.set_speed(Percentage::from_0_to_100(10).unwrap()), Ok(()));
    assert_eq!(fan.get_pin().requests, vec![Percentage::from_0_to_100(10).unwrap()]);
    assert_eq!(fan.release().duty_cycle, Percentage::from_0_to_100(10).unwrap());
}
