use nvidia_zerodb::manager::failsafes::FailsafeAction;
use nvidia_zerodb::manager::gpu::{GpuCommand, GpuError};
use nvidia_zerodb::manager::{FanCommand, FanState, Manager};

const SECOND: u128 = 1_000_000_000;

fn manager() -> Manager {
    Manager::new(40, 50, 1000, 30000)
}

/// A manager whose fans were handed to the vBIOS.
fn cooling_manager() -> Manager {
    let mut m = manager();
    m.restore_fan_control();
    m.on_command_outcome(Ok(()), 0);
    m
}

/// A manager whose fans were stopped.
fn idle_manager() -> Manager {
    let mut m = cooling_manager();
    assert_eq!(m.on_reading(Ok(30)), Some(FanCommand::Disable));
    m.on_command_outcome(Ok(()), 0);
    m
}

#[test]
fn new_manager_settings() {
    let m = manager();
    assert_eq!(m.fan_state(), FanState::Unknown);
    assert_eq!(m.idle_temp(), 40);
    assert_eq!(m.cooling_temp(), 50);
    assert_eq!(m.refresh_delay(), 1000);
    assert_eq!(m.failsafe().shutdown_delay(), 30000);
    assert_eq!(m.awaiting(), None);
    assert!(m.needs_cleanup());
}

#[test]
fn start_hands_fans_to_vbios() {
    let mut m = manager();
    assert_eq!(m.restore_fan_control(), FanCommand::Enable);
    assert_eq!(m.awaiting(), Some(FanCommand::Enable));
    assert_eq!(m.on_command_outcome(Ok(()), 0), (FailsafeAction::Nothing, None));
    assert_eq!(m.fan_state(), FanState::Cooling);
    assert!(!m.needs_cleanup());
}

#[test]
fn failed_reading_enables_fans() {
    let mut m = idle_manager();
    assert_eq!(m.on_reading(Err(GpuError::NotANumber)), Some(FanCommand::Enable));
    let mut c = cooling_manager();
    assert_eq!(c.on_reading(Err(GpuError::ExitFailure)), Some(FanCommand::Enable));
}

#[test]
fn cold_reading_stops_fans() {
    let mut m = cooling_manager();
    assert_eq!(m.on_reading(Ok(39)), Some(FanCommand::Disable));
    assert_eq!(m.on_command_outcome(Ok(()), SECOND), (FailsafeAction::Nothing, None));
    assert_eq!(m.fan_state(), FanState::Idle);
    assert!(m.needs_cleanup());
}

#[test]
fn readings_between_thresholds_switch_nothing() {
    for t in [40u64, 45, 50] {
        assert_eq!(manager().on_reading(Ok(t)), None);
        assert_eq!(cooling_manager().on_reading(Ok(t)), None);
        assert_eq!(idle_manager().on_reading(Ok(t)), None);
    }
}

#[test]
fn stopped_fans_stay_stopped_until_hot() {
    let mut m = idle_manager();
    assert_eq!(m.on_reading(Ok(20)), None);
    assert_eq!(m.on_reading(Ok(50)), None);
    assert_eq!(m.on_reading(Ok(51)), Some(FanCommand::Enable));
    assert_eq!(m.on_command_outcome(Ok(()), SECOND), (FailsafeAction::Nothing, None));
    assert_eq!(m.fan_state(), FanState::Cooling);
}

#[test]
fn running_fans_keep_running_until_cold() {
    let mut m = cooling_manager();
    assert_eq!(m.on_reading(Ok(90)), None);
    assert_eq!(m.on_reading(Ok(40)), None);
    assert_eq!(m.on_reading(Ok(39)), Some(FanCommand::Disable));
}

#[test]
fn unknown_state_hot_reading_enables() {
    let mut m = manager();
    assert_eq!(m.on_reading(Ok(60)), Some(FanCommand::Enable));
}

#[test]
fn failed_disable_notifies_and_keeps_state() {
    let mut m = cooling_manager();
    assert_eq!(m.on_reading(Ok(30)), Some(FanCommand::Disable));
    assert_eq!(
        m.on_command_outcome(Err(GpuError::UnexpectedOutput), SECOND),
        (FailsafeAction::NotifyDisableFailure, None)
    );
    assert_eq!(m.fan_state(), FanState::Cooling);
}

#[test]
fn failed_enables_escalate_to_shutdown() {
    let mut m = idle_manager();
    assert_eq!(m.on_reading(Ok(70)), Some(FanCommand::Enable));
    assert_eq!(m.on_command_outcome(Err(GpuError::ExitFailure), 10 * SECOND), (FailsafeAction::NotifyEnableFailure, None));
    assert_eq!(m.fan_state(), FanState::Idle);
    assert_eq!(m.on_reading(Ok(70)), Some(FanCommand::Enable));
    assert_eq!(m.on_command_outcome(Err(GpuError::ExitFailure), 20 * SECOND), (FailsafeAction::Nothing, None));
    assert_eq!(m.on_reading(Err(GpuError::NotText)), Some(FanCommand::Enable));
    assert_eq!(m.on_command_outcome(Err(GpuError::ExitFailure), 41 * SECOND), (FailsafeAction::Shutdown, None));
    assert_eq!(m.failsafe().last_fan_enable_error_time(), Some(10 * SECOND));
}

#[test]
fn successful_enable_resets_failsafes() {
    let mut m = idle_manager();
    m.on_reading(Ok(70));
    m.on_command_outcome(Err(GpuError::ExitFailure), SECOND);
    m.on_reading(Ok(70));
    assert_eq!(m.on_command_outcome(Ok(()), 2 * SECOND), (FailsafeAction::Nothing, None));
    assert_eq!(m.failsafe().last_fan_enable_error_time(), None);
    m.on_reading(Ok(30));
    m.on_command_outcome(Ok(()), 3 * SECOND);
    m.on_reading(Ok(70));
    assert_eq!(m.on_command_outcome(Err(GpuError::ExitFailure), 100 * SECOND), (FailsafeAction::NotifyEnableFailure, None));
}

#[test]
fn cooling_check_follows_the_stop_command() {
    // Idle temperature above the cooling temperature: a reading in between both stops
    // the fans and then hands them back.
    let mut m = Manager::new(60, 50, 1000, 30000);
    m.restore_fan_control();
    m.on_command_outcome(Ok(()), 0);
    assert_eq!(m.on_reading(Ok(55)), Some(FanCommand::Disable));
    assert_eq!(m.on_command_outcome(Ok(()), 1), (FailsafeAction::Nothing, Some(FanCommand::Enable)));
    assert_eq!(m.fan_state(), FanState::Idle);
    assert_eq!(m.awaiting(), Some(FanCommand::Enable));
    assert_eq!(m.on_command_outcome(Ok(()), 2), (FailsafeAction::Nothing, None));
    assert_eq!(m.fan_state(), FanState::Cooling);
}

#[test]
fn cooling_check_after_failed_stop_from_unknown_state() {
    let mut m = Manager::new(60, 50, 1000, 30000);
    assert_eq!(m.on_reading(Ok(55)), Some(FanCommand::Disable));
    assert_eq!(
        m.on_command_outcome(Err(GpuError::ExitFailure), 1),
        (FailsafeAction::NotifyDisableFailure, Some(FanCommand::Enable))
    );
}

#[test]
fn outcome_without_command_does_nothing() {
    let mut m = cooling_manager();
    assert_eq!(m.on_command_outcome(Err(GpuError::ExitFailure), 5), (FailsafeAction::Nothing, None));
    assert_eq!(m.fan_state(), FanState::Cooling);
    assert_eq!(m.failsafe().last_fan_enable_error_time(), None);
}

#[test]
fn enable_and_disable_outcomes_directly() {
    let mut m = manager();
    assert_eq!(m.disable_fans(Ok(())), FailsafeAction::Nothing);
    assert_eq!(m.fan_state(), FanState::Idle);
    assert_eq!(m.enable_fans(Err(GpuError::NotStarted), 9), FailsafeAction::NotifyEnableFailure);
    assert_eq!(m.fan_state(), FanState::Idle);
    assert_eq!(m.enable_fans(Ok(()), 10), FailsafeAction::Nothing);
    assert_eq!(m.fan_state(), FanState::Cooling);
    assert_eq!(m.disable_fans(Err(GpuError::NotText)), FailsafeAction::NotifyDisableFailure);
    assert_eq!(m.fan_state(), FanState::Cooling);
}

#[test]
fn cleanup_ends_once_enabled() {
    let mut m = idle_manager();
    assert!(m.needs_cleanup());
    assert_eq!(m.restore_fan_control(), FanCommand::Enable);
    m.on_command_outcome(Err(GpuError::ExitFailure), SECOND);
    assert!(m.needs_cleanup());
    m.restore_fan_control();
    m.on_command_outcome(Ok(()), 2 * SECOND);
    assert!(!m.needs_cleanup());
}

#[test]
fn fan_commands_map_to_gpu_commands() {
    assert_eq!(FanCommand::Enable.gpu_command(), GpuCommand::EnableFans);
    assert_eq!(FanCommand::Disable.gpu_command(), GpuCommand::DisableFans);
}
