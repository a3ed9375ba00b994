use nvidia_zerodb::manager::failsafes::{FailsafeAction, Failsafes};

const SECOND: u128 = 1_000_000_000;

#[test]
fn new_failsafes_remember_no_failure() {
    let f = Failsafes::new(30000);
    assert_eq!(f.shutdown_delay(), 30000);
    assert_eq!(f.last_fan_enable_error_time(), None);
}

#[test]
fn first_enable_failure_notifies() {
    let mut f = Failsafes::new(30000);
    assert_eq!(f.on_fan_enable_error(5 * SECOND), FailsafeAction::NotifyEnableFailure);
    assert_eq!(f.last_fan_enable_error_time(), Some(5 * SECOND));
}

#[test]
fn failures_within_the_delay_wait() {
    let mut f = Failsafes::new(30000);
    f.on_fan_enable_error(5 * SECOND);
    assert_eq!(f.on_fan_enable_error(6 * SECOND), FailsafeAction::Nothing);
    assert_eq!(f.on_fan_enable_error(35 * SECOND), FailsafeAction::Nothing);
    assert_eq!(f.last_fan_enable_error_time(), Some(5 * SECOND));
}

#[test]
fn failure_past_the_delay_shuts_down() {
    let mut f = Failsafes::new(30000);
    f.on_fan_enable_error(5 * SECOND);
    assert_eq!(f.on_fan_enable_error(35 * SECOND + 1), FailsafeAction::Shutdown);
    assert_eq!(f.on_fan_enable_error(100 * SECOND), FailsafeAction::Shutdown);
}

#[test]
fn failure_at_the_same_instant_notifies_again() {
    let mut f = Failsafes::new(30000);
    f.on_fan_enable_error(7);
    assert_eq!(f.on_fan_enable_error(7), FailsafeAction::NotifyEnableFailure);
}

#[test]
fn success_ends_the_failure_run() {
    let mut f = Failsafes::new(30000);
    f.on_fan_enable_error(5 * SECOND);
    f.on_fan_enable_success();
    assert_eq!(f.last_fan_enable_error_time(), None);
    assert_eq!(f.on_fan_enable_error(100 * SECOND), FailsafeAction::NotifyEnableFailure);
    assert_eq!(f.last_fan_enable_error_time(), Some(100 * SECOND));
}

#[test]
fn zero_delay_shuts_down_on_second_failure() {
    let mut f = Failsafes::new(0);
    f.on_fan_enable_error(1);
    assert_eq!(f.on_fan_enable_error(2), FailsafeAction::Shutdown);
}

#[test]
fn largest_delay_does_not_overflow() {
    let mut f = Failsafes::new(u64::MAX);
    f.on_fan_enable_error(0);
    assert_eq!(f.on_fan_enable_error(u128::MAX), FailsafeAction::Shutdown);
    let mut g = Failsafes::new(u64::MAX);
    g.on_fan_enable_error(0);
    assert_eq!(g.on_fan_enable_error(u64::MAX as u128 * 1_000_000), FailsafeAction::Nothing);
}

#[test]
fn disable_failure_notifies() {
    let mut f = Failsafes::new(30000);
    assert_eq!(f.on_fan_disable_error(), FailsafeAction::NotifyDisableFailure);
    assert_eq!(f.last_fan_enable_error_time(), None);
}

#[test]
fn disable_success_changes_nothing() {
    let mut f = Failsafes::new(30000);
    f.on_fan_enable_error(3);
    f.on_fan_disable_success();
    assert_eq!(f.last_fan_enable_error_time(), Some(3));
    assert_eq!(f.shutdown_delay(), 30000);
}
