use tacd::dut_power::{
    check, Actuators, Discharge, DutPwrThread, Feedback, OutputRequest, OutputState, PowerPath,
    MAX_AGE, MAX_CURRENT, MAX_VOLTAGE, MIN_VOLTAGE, TASK_INTERVAL, THREAD_INTERVAL,
};

fn reading(timestamp: u64, volts: f32, amps: f32) -> Option<Feedback> {
    Some(Feedback { timestamp, voltage: volts.to_bits(), current: amps.to_bits() })
}

const SAFE: Actuators = Actuators { power_path: PowerPath::Open, discharge: Discharge::Engaged };

#[test]
fn limits_are_the_documented_values() {
    assert_eq!(MAX_VOLTAGE, 48.0f32.to_bits());
    assert_eq!(MIN_VOLTAGE, (-1.0f32).to_bits());
    assert_eq!(MAX_CURRENT, 5.0f32.to_bits());
    assert_eq!(MAX_AGE, 300_000_000);
    assert_eq!(THREAD_INTERVAL, 100);
    assert_eq!(TASK_INTERVAL, 200);
}

#[test]
fn a_new_loop_is_off_and_safe() {
    let ctl = DutPwrThread::new();
    assert_eq!(ctl.state(), OutputState::Off);
    assert_eq!(ctl.pending(), OutputRequest::Idle);
    assert_eq!(ctl.actuators(), SAFE);
    assert_eq!(ctl.tick(), 0);
}

#[test]
fn the_safe_configuration_opens_the_path_and_engages_the_discharge() {
    let safe = Actuators::fail_safe();
    assert_eq!(safe, SAFE);
    assert_eq!(safe.pwr_line(), 1);
    assert_eq!(safe.discharge_line(), 0);
}

#[test]
fn requests_map_to_actuator_configurations() {
    assert_eq!(Actuators::for_request(OutputRequest::Idle), None);
    let on = Actuators::for_request(OutputRequest::On).unwrap();
    assert_eq!((on.pwr_line(), on.discharge_line()), (0, 1));
    let off = Actuators::for_request(OutputRequest::Off).unwrap();
    assert_eq!((off.pwr_line(), off.discharge_line()), (1, 1));
    let off_discharge = Actuators::for_request(OutputRequest::OffDischarge).unwrap();
    assert_eq!((off_discharge.pwr_line(), off_discharge.discharge_line()), (1, 0));
}

#[test]
fn over_voltage_outranks_over_current() {
    let mut ctl = DutPwrThread::new();
    ctl.request(OutputRequest::On);
    let state = ctl.cycle(reading(1_000, 60.0, 9.0), 2_000);
    assert_eq!(state, OutputState::OverVoltage);
    assert_eq!(ctl.state(), OutputState::OverVoltage);
    assert_eq!(ctl.actuators(), SAFE);
    assert_eq!(ctl.pending(), OutputRequest::On);
}

#[test]
fn each_fault_is_reported_for_its_reading() {
    assert_eq!(check(None, 0), Some(OutputState::RealtimeViolation));
    assert_eq!(check(reading(0, 12.0, 1.0), MAX_AGE + 1), Some(OutputState::RealtimeViolation));
    assert_eq!(check(reading(0, 48.5, 1.0), 0), Some(OutputState::OverVoltage));
    assert_eq!(check(reading(0, -1.5, 1.0), 0), Some(OutputState::InvertedPolarity));
    assert_eq!(check(reading(0, 12.0, 5.5), 0), Some(OutputState::OverCurrent));
    assert_eq!(check(reading(0, 12.0, 1.0), 0), None);
}

#[test]
fn readings_at_the_limits_are_no_fault() {
    assert_eq!(check(reading(0, 48.0, 5.0), MAX_AGE), None);
    assert_eq!(check(reading(0, -1.0, 5.0), 0), None);
    assert_eq!(check(reading(0, 48.000004, 0.0), 0), Some(OutputState::OverVoltage));
    assert_eq!(check(reading(0, -1.0000001, 0.0), 0), Some(OutputState::InvertedPolarity));
    assert_eq!(check(reading(0, 0.0, 5.0000005), 0), Some(OutputState::OverCurrent));
}

#[test]
fn readings_that_are_no_number_are_no_fault() {
    assert_eq!(check(reading(0, f32::NAN, f32::NAN), 0), None);
}

#[test]
fn a_stale_reading_outranks_every_other_fault() {
    let mut ctl = DutPwrThread::new();
    let state = ctl.cycle(reading(0, 60.0, 9.0), MAX_AGE + 1);
    assert_eq!(state, OutputState::RealtimeViolation);
    assert_eq!(ctl.tick(), 0);
}

#[test]
fn a_reading_from_the_future_is_fresh() {
    assert_eq!(check(reading(5_000, 12.0, 1.0), 1_000), None);
}

#[test]
fn the_latest_request_is_applied_once() {
    let mut ctl = DutPwrThread::new();
    ctl.request(OutputRequest::On);
    ctl.request(OutputRequest::Off);
    assert_eq!(ctl.cycle(reading(0, 12.0, 1.0), 0), OutputState::Off);
    assert_eq!(ctl.pending(), OutputRequest::Idle);
    let off = ctl.actuators();
    assert_eq!((off.pwr_line(), off.discharge_line()), (1, 1));
    assert_eq!(ctl.cycle(reading(100, 12.0, 1.0), 100), OutputState::Off);
    assert_eq!(ctl.actuators(), off);
    assert_eq!(ctl.pending(), OutputRequest::Idle);
}

#[test]
fn on_is_not_applied_again_after_a_fault() {
    let mut ctl = DutPwrThread::new();
    ctl.request(OutputRequest::On);
    assert_eq!(ctl.cycle(reading(0, 12.0, 1.0), 0), OutputState::On);
    assert_eq!(ctl.actuators().power_path, PowerPath::Closed);
    assert_eq!(ctl.cycle(reading(100, 12.0, 6.0), 100), OutputState::OverCurrent);
    assert_eq!(ctl.actuators(), SAFE);
    // The fault is over, but nothing is pending: the output stays as the
    // fault left it.
    assert_eq!(ctl.cycle(reading(200, 12.0, 1.0), 200), OutputState::OverCurrent);
    assert_eq!(ctl.actuators(), SAFE);
}

#[test]
fn a_request_survives_a_fault_and_is_applied_after_it() {
    let mut ctl = DutPwrThread::new();
    ctl.request(OutputRequest::On);
    assert_eq!(ctl.cycle(reading(0, 50.0, 1.0), 0), OutputState::OverVoltage);
    assert_eq!(ctl.pending(), OutputRequest::On);
    assert_eq!(ctl.cycle(reading(100, 12.0, 1.0), 100), OutputState::On);
    assert_eq!(ctl.pending(), OutputRequest::Idle);
    let on = ctl.actuators();
    assert_eq!(on, Actuators { power_path: PowerPath::Closed, discharge: Discharge::Released });
}

#[test]
fn off_with_discharge_engages_the_discharge() {
    let mut ctl = DutPwrThread::new();
    ctl.request(OutputRequest::OffDischarge);
    assert_eq!(ctl.cycle(reading(0, 12.0, 1.0), 0), OutputState::OffDischarge);
    assert_eq!(ctl.actuators(), SAFE);
}

#[test]
fn the_tick_counts_cycles_with_fresh_readings() {
    let mut ctl = DutPwrThread::new();
    ctl.cycle(reading(0, 12.0, 1.0), 0);
    assert_eq!(ctl.tick(), 1);
    ctl.cycle(reading(0, 60.0, 1.0), 0);
    assert_eq!(ctl.tick(), 2);
    ctl.cycle(reading(0, -2.0, 1.0), 0);
    assert_eq!(ctl.tick(), 3);
    ctl.cycle(reading(0, 12.0, 7.0), 0);
    assert_eq!(ctl.tick(), 4);
    ctl.cycle(None, 0);
    assert_eq!(ctl.tick(), 4);
    ctl.cycle(reading(0, 12.0, 1.0), MAX_AGE + 1);
    assert_eq!(ctl.tick(), 4);
    ctl.cycle(reading(0, 12.0, 1.0), MAX_AGE);
    assert_eq!(ctl.tick(), 5);
}

#[test]
fn shutdown_while_on_leaves_the_outputs_safe() {
    let mut ctl = DutPwrThread::new();
    ctl.request(OutputRequest::On);
    assert_eq!(ctl.cycle(reading(0, 12.0, 1.0), 0), OutputState::On);
    assert_eq!(ctl.actuators().pwr_line(), 0);
    ctl.shutdown();
    assert_eq!(ctl.actuators().power_path, PowerPath::Open);
    assert_eq!(ctl.actuators().discharge, Discharge::Engaged);
    assert_eq!(ctl.state(), OutputState::Off);
    assert_eq!(ctl.tick(), 1);
}

#[test]
fn requests_and_states_have_their_codes() {
    let requests = [
        (OutputRequest::Idle, 0u8),
        (OutputRequest::On, 1),
        (OutputRequest::Off, 2),
        (OutputRequest::OffDischarge, 3),
    ];
    for (request, code) in requests {
        assert_eq!(request.to_u8(), code);
        assert_eq!(OutputRequest::try_from_u8(code), Some(request));
    }
    assert_eq!(OutputRequest::try_from_u8(4), None);
    let states = [
        (OutputState::On, 0u8),
        (OutputState::Off, 1),
        (OutputState::OffDischarge, 2),
        (OutputState::InvertedPolarity, 3),
        (OutputState::OverCurrent, 4),
        (OutputState::OverVoltage, 5),
        (OutputState::RealtimeViolation, 6),
    ];
    for (state, code) in states {
        assert_eq!(state.to_u8(), code);
        assert_eq!(OutputState::try_from_u8(code), Some(state));
    }
    assert_eq!(OutputState::try_from_u8(7), None);
    assert_eq!(OutputState::try_from_u8(255), None);
}
