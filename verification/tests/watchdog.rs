use tacd::dut_power::{DutPwrThread, Feedback, MAX_AGE};
use tacd::watchdog::{pet_interval, Watchdog, WatchdogAction};

#[test]
fn the_watchdog_wakes_at_half_the_interval() {
    assert_eq!(pet_interval(Some(5_000_000)), Some(2_500_000_000));
    assert_eq!(pet_interval(Some(5)), Some(2_500));
    assert_eq!(pet_interval(Some(1)), Some(500));
    assert_eq!(pet_interval(Some(u64::MAX)), Some(u64::MAX as u128 * 500));
}

#[test]
fn no_watchdog_is_asked_for() {
    assert_eq!(pet_interval(Some(0)), None);
    assert_eq!(pet_interval(None), None);
}

#[test]
fn a_moving_counter_is_petted() {
    let mut watchdog = Watchdog::new(Some(7));
    assert_eq!(watchdog.keep_fed(Some(8)), WatchdogAction::Pet);
    assert_eq!(watchdog.keep_fed(Some(20)), WatchdogAction::Pet);
    assert_eq!(watchdog.keep_fed(Some(0)), WatchdogAction::Pet);
}

#[test]
fn a_counter_that_stands_still_triggers() {
    let mut watchdog = Watchdog::new(Some(7));
    assert_eq!(watchdog.keep_fed(Some(8)), WatchdogAction::Pet);
    assert_eq!(watchdog.keep_fed(Some(8)), WatchdogAction::Trigger);
}

#[test]
fn a_lost_control_loop_triggers() {
    let mut watchdog = Watchdog::new(Some(7));
    assert_eq!(watchdog.keep_fed(None), WatchdogAction::Trigger);
    let mut watchdog = Watchdog::new(None);
    assert_eq!(watchdog.keep_fed(Some(3)), WatchdogAction::Trigger);
    let mut watchdog = Watchdog::new(None);
    assert_eq!(watchdog.keep_fed(None), WatchdogAction::Trigger);
}

#[test]
fn a_loop_without_fresh_readings_trips_the_watchdog() {
    let mut ctl = DutPwrThread::new();
    let fresh = Some(Feedback { timestamp: 0, voltage: 0, current: 0 });
    ctl.cycle(fresh, 0);
    let mut watchdog = Watchdog::new(Some(ctl.tick()));
    ctl.cycle(fresh, 100);
    assert_eq!(watchdog.keep_fed(Some(ctl.tick())), WatchdogAction::Pet);
    ctl.cycle(fresh, MAX_AGE + 1);
    ctl.cycle(None, MAX_AGE + 2);
    assert_eq!(watchdog.keep_fed(Some(ctl.tick())), WatchdogAction::Trigger);
}
