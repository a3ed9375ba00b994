//! What holds of the fan manager and its failsafes over every state and every sequence
//! of events.

use vstd::prelude::*;
use super::{manager_wf, outcome_step, reading_step, restore_step, FanCommand, FanState, ManagerView};
use super::failsafes::{
    enable_error_step, enable_success_step, FailsafeAction, FailsafesView,
};
use super::gpu::GpuError;

verus! {

/// The first failure to enable the fans in a run is notified, and starts the run.
pub proof fn lemma_first_enable_failure_notifies(f: FailsafesView, now: u128)
    requires
        f.last_fan_enable_error_time is None,
    ensures
        enable_error_step(f, now).1 == FailsafeAction::NotifyEnableFailure,
        enable_error_step(f, now).0.last_fan_enable_error_time == Some(now),
{
}

/// Once the fans were enabled, the next failure to enable them starts a new run: it is
/// notified and never shuts the machine down.
pub proof fn lemma_success_ends_failure_run(f: FailsafesView, now: u128)
    ensures
        enable_error_step(enable_success_step(f), now).1 == FailsafeAction::NotifyEnableFailure,
        enable_error_step(enable_success_step(f), now).0.last_fan_enable_error_time == Some(now),
{
}

/// The machine is shut down only when the fans have failed to come back for longer than
/// the shutdown delay, counted from the first failure of the run.
pub proof fn lemma_shutdown_only_after_delay(f: FailsafesView, now: u128)
    requires
        enable_error_step(f, now).1 == FailsafeAction::Shutdown,
    ensures
        f.last_fan_enable_error_time matches Some(first) && now - first > f.shutdown_delay * 1_000_000,
{
}

/// A run of failures keeps its first time, and a later failure shuts the machine down
/// exactly when it comes more than the shutdown delay after the first one.
pub proof fn lemma_failure_run_escalates(f: FailsafesView, first: u128, later: u128)
    requires
        f.last_fan_enable_error_time is None,
        first < later,
    ensures
        ({
            let (g, _) = enable_error_step(f, first);
            let (h, action) = enable_error_step(g, later);
            &&& h.last_fan_enable_error_time == Some(first)
            &&& action == if later - first > f.shutdown_delay * 1_000_000 {
                FailsafeAction::Shutdown
            } else {
                FailsafeAction::Nothing
            }
        }),
{
}

/// Whatever the state, a failed temperature reading hands the fans to the vBIOS.
pub proof fn lemma_failed_reading_enables(v: ManagerView, e: GpuError)
    ensures
        reading_step(v, Err(e)).1 == Some(FanCommand::Enable),
{
}

/// The fans are stopped only on a reading below the idle temperature, when they are not
/// known to be stopped already.
pub proof fn lemma_disable_only_when_cold(v: ManagerView, reading: Result<u64, GpuError>)
    requires
        reading_step(v, reading).1 == Some(FanCommand::Disable),
    ensures
        reading matches Ok(t) && t < v.idle_temp && v.fan_state != FanState::Idle,
{
}

/// The fans are handed to the vBIOS only on a failed reading, or on one above the
/// cooling temperature when they are not known to be with the vBIOS.
pub proof fn lemma_enable_only_when_hot_or_unknown(v: ManagerView, reading: Result<u64, GpuError>)
    requires
        reading_step(v, reading).1 == Some(FanCommand::Enable),
    ensures
        reading is Err || (reading matches Ok(t) && t > v.cooling_temp && v.fan_state
            != FanState::Cooling),
{
}

/// Between the idle and the cooling temperature nothing is switched.
pub proof fn lemma_between_thresholds_nothing_switches(v: ManagerView, t: u64)
    requires
        v.idle_temp <= t <= v.cooling_temp,
    ensures
        reading_step(v, Ok(t)).1 is None,
{
}

/// Stopped fans stay stopped until the temperature rises above the cooling temperature.
pub proof fn lemma_stopped_fans_stay_stopped(v: ManagerView, t: u64)
    requires
        v.fan_state == FanState::Idle,
        t <= v.cooling_temp,
    ensures
        reading_step(v, Ok(t)).1 is None,
{
}

/// Fans with the vBIOS stay there until the temperature falls below the idle
/// temperature.
pub proof fn lemma_running_fans_keep_running(v: ManagerView, t: u64)
    requires
        v.fan_state == FanState::Cooling,
        t >= v.idle_temp,
    ensures
        reading_step(v, Ok(t)).1 is None,
{
}

/// Readings never change who drives the fans; only the outcome of a command does.
pub proof fn lemma_readings_keep_fan_state(v: ManagerView, reading: Result<u64, GpuError>)
    ensures
        reading_step(v, reading).0.fan_state == v.fan_state,
        reading_step(v, reading).0.failsafe == v.failsafe,
{
}

/// A command that failed leaves the fan state as it was.
pub proof fn lemma_failed_command_keeps_fan_state(v: ManagerView, now: u128)
    ensures
        outcome_step(v, false, now).0.fan_state == v.fan_state,
{
}

/// The fans are known to be stopped only after a command to stop them succeeded, and to
/// be with the vBIOS only after a command to hand them over succeeded.
pub proof fn lemma_fan_state_follows_successes(v: ManagerView, ok: bool, now: u128)
    ensures
        ({
            let w = outcome_step(v, ok, now).0;
            &&& (w.fan_state == FanState::Idle && v.fan_state != FanState::Idle) ==> (ok
                && v.awaiting == Some(FanCommand::Disable))
            &&& (w.fan_state == FanState::Cooling && v.fan_state != FanState::Cooling) ==> (ok
                && v.awaiting == Some(FanCommand::Enable))
        }),
{
}

/// A cold reading, when the stop command succeeds, leaves the fans stopped with nothing
/// more to do (as long as the reading is not also above the cooling temperature).
pub proof fn lemma_cold_reading_stops_fans(v: ManagerView, t: u64, now: u128)
    requires
        t < v.idle_temp,
        t <= v.cooling_temp,
        v.fan_state != FanState::Idle,
    ensures
        ({
            let (w, c) = reading_step(v, Ok(t));
            let (x, action, next) = outcome_step(w, true, now);
            &&& c == Some(FanCommand::Disable)
            &&& x.fan_state == FanState::Idle
            &&& action == FailsafeAction::Nothing
            &&& next is None
            &&& x.awaiting is None
        }),
{
}

/// Asking to hand the fans back, and that succeeding, ends the cleanup and any run of
/// failures.
pub proof fn lemma_restore_then_success_hands_over(v: ManagerView, now: u128)
    ensures
        outcome_step(restore_step(v), true, now).0.fan_state == FanState::Cooling,
        outcome_step(restore_step(v), true, now).0.failsafe.last_fan_enable_error_time is None,
{
}

/// The machine is shut down only in answer to a failed command to hand the fans back.
pub proof fn lemma_shutdown_only_after_failed_enable(v: ManagerView, ok: bool, now: u128)
    requires
        outcome_step(v, ok, now).1 == FailsafeAction::Shutdown,
    ensures
        v.awaiting == Some(FanCommand::Enable),
        !ok,
{
}

/// Every step of the manager keeps its state well formed: a check against the cooling
/// threshold waits only behind a command to stop the fans.
pub proof fn lemma_steps_keep_wf(v: ManagerView, reading: Result<u64, GpuError>, ok: bool, now: u128)
    ensures
        manager_wf(reading_step(v, reading).0),
        manager_wf(outcome_step(v, ok, now).0),
        manager_wf(restore_step(v)),
{
}

/// The command a reading calls for, in terms of the reading alone: stop the fans on a
/// reading below the idle temperature when they are not stopped; otherwise hand them to
/// the vBIOS on a failed reading or on one above the cooling temperature when they are
/// not with the vBIOS; otherwise nothing. The manager then waits for that command.
pub proof fn lemma_reading_command(v: ManagerView, reading: Result<u64, GpuError>)
    ensures
        ({
            let (w, c) = reading_step(v, reading);
            let cold = reading matches Ok(t) && t < v.idle_temp && v.fan_state != FanState::Idle;
            let hot = reading matches Ok(t) && t > v.cooling_temp && v.fan_state != FanState::Cooling;
            &&& c == Some(FanCommand::Disable) <==> cold
            &&& c == Some(FanCommand::Enable) <==> (!cold && (reading is Err || hot))
            &&& c is None <==> (!cold && reading is Ok && !hot)
            &&& w.awaiting == c
            &&& (w.pending_check is Some <==> cold)
        }),
{
}

/// A hot reading always hands the fans to the vBIOS when they are not there (unless it
/// is also below the idle temperature and the fans are to be stopped first).
pub proof fn lemma_hot_reading_enables(v: ManagerView, t: u64)
    requires
        t > v.cooling_temp,
        v.fan_state != FanState::Cooling,
        t >= v.idle_temp || v.fan_state == FanState::Idle,
    ensures
        reading_step(v, Ok(t)).1 == Some(FanCommand::Enable),
{
}

/// No step changes the settings of the manager or the shutdown delay of its failsafes.
pub proof fn lemma_steps_keep_settings(v: ManagerView, reading: Result<u64, GpuError>, ok: bool, now: u128)
    ensures
        ({
            let a = reading_step(v, reading).0;
            let b = outcome_step(v, ok, now).0;
            let r = restore_step(v);
            &&& a.idle_temp == v.idle_temp && a.cooling_temp == v.cooling_temp && a.refresh_delay == v.refresh_delay
            &&& b.idle_temp == v.idle_temp && b.cooling_temp == v.cooling_temp && b.refresh_delay == v.refresh_delay
            &&& r.idle_temp == v.idle_temp && r.cooling_temp == v.cooling_temp && r.refresh_delay == v.refresh_delay
            &&& a.failsafe.shutdown_delay == v.failsafe.shutdown_delay
            &&& b.failsafe.shutdown_delay == v.failsafe.shutdown_delay
            &&& r.failsafe.shutdown_delay == v.failsafe.shutdown_delay
        }),
{
}

/// A failed command to hand the fans to the vBIOS always goes to the failsafes, whatever
/// the fan state: the failsafes react as to any failure to enable.
pub proof fn lemma_failed_enable_goes_to_failsafes(v: ManagerView, now: u128)
    requires
        v.awaiting == Some(FanCommand::Enable),
    ensures
        outcome_step(v, false, now).0.failsafe == enable_error_step(v.failsafe, now).0,
        outcome_step(v, false, now).1 == enable_error_step(v.failsafe, now).1,
        outcome_step(v, false, now).0.fan_state == v.fan_state,
        outcome_step(v, false, now).2 is None,
{
}

/// The first failed hand-over, in any fan state, is notified and starts a run of
/// failures at that time; a failed hand-over more than the shutdown delay after the
/// start of the run shuts the machine down.
pub proof fn lemma_failed_enable_notifies_then_shuts_down(v: ManagerView, now: u128)
    requires
        v.awaiting == Some(FanCommand::Enable),
    ensures
        v.failsafe.last_fan_enable_error_time is None ==> {
            &&& outcome_step(v, false, now).1 == FailsafeAction::NotifyEnableFailure
            &&& outcome_step(v, false, now).0.failsafe.last_fan_enable_error_time == Some(now)
        },
        (v.failsafe.last_fan_enable_error_time matches Some(first) && now >= first && now - first
            > v.failsafe.shutdown_delay * 1_000_000) ==> outcome_step(v, false, now).1
            == FailsafeAction::Shutdown,
        (v.failsafe.last_fan_enable_error_time matches Some(first) && now > first && now - first
            <= v.failsafe.shutdown_delay * 1_000_000) ==> outcome_step(v, false, now).1
            == FailsafeAction::Nothing,
{
}

/// A successful hand-over leaves the fans with the vBIOS, ends any run of failures, and
/// asks for nothing more.
pub proof fn lemma_successful_enable(v: ManagerView, now: u128)
    requires
        v.awaiting == Some(FanCommand::Enable),
    ensures
        outcome_step(v, true, now).0.fan_state == FanState::Cooling,
        outcome_step(v, true, now).0.failsafe.last_fan_enable_error_time is None,
        outcome_step(v, true, now).1 == FailsafeAction::Nothing,
        outcome_step(v, true, now).2 is None,
        outcome_step(v, true, now).0.awaiting is None,
{
}

/// A stop command's outcome: on success the fans are known to be stopped, on failure the
/// user is notified and the fan state stays; the failsafes' run of failures to enable is
/// untouched; a check that waited for it hands the fans to the vBIOS exactly when its
/// temperature is above the cooling temperature and they are not with the vBIOS.
pub proof fn lemma_disable_outcome(v: ManagerView, ok: bool, now: u128)
    requires
        v.awaiting == Some(FanCommand::Disable),
    ensures
        ({
            let (w, action, next) = outcome_step(v, ok, now);
            &&& w.fan_state == if ok { FanState::Idle } else { v.fan_state }
            &&& action == if ok { FailsafeAction::Nothing } else { FailsafeAction::NotifyDisableFailure }
            &&& w.failsafe == v.failsafe
            &&& next == Some(FanCommand::Enable) <==> (v.pending_check matches Some(t) && t > v.cooling_temp
                && w.fan_state != FanState::Cooling)
            &&& next != Some(FanCommand::Disable)
            &&& w.awaiting == next
        }),
{
}

/// An outcome when no command is awaited changes nothing that matters.
pub proof fn lemma_unawaited_outcome_is_ignored(v: ManagerView, ok: bool, now: u128)
    requires
        v.awaiting is None,
    ensures
        outcome_step(v, ok, now).0.fan_state == v.fan_state,
        outcome_step(v, ok, now).0.failsafe == v.failsafe,
        outcome_step(v, ok, now).1 == FailsafeAction::Nothing,
        outcome_step(v, ok, now).2 is None,
{
}

/// Asking to hand the fans back keeps the failsafes and the fan state as they are, so a
/// run of failures continues across repeated attempts: a failure after the request is
/// taken as the failsafes take any failure to enable.
pub proof fn lemma_restore_keeps_failure_run(v: ManagerView, now: u128)
    ensures
        restore_step(v).failsafe == v.failsafe,
        restore_step(v).fan_state == v.fan_state,
        restore_step(v).awaiting == Some(FanCommand::Enable),
        outcome_step(restore_step(v), false, now).0.failsafe == enable_error_step(v.failsafe, now).0,
        outcome_step(restore_step(v), false, now).1 == enable_error_step(v.failsafe, now).1,
{
}

/// Cleanup retries that keep failing shut the machine down once the failures have
/// lasted longer than the shutdown delay since the first one.
pub proof fn lemma_failing_cleanup_shuts_down(v: ManagerView, first: u128, later: u128)
    requires
        v.failsafe.last_fan_enable_error_time is None,
        first < later,
        later - first > v.failsafe.shutdown_delay * 1_000_000,
    ensures
        ({
            let w = outcome_step(restore_step(v), false, first).0;
            outcome_step(restore_step(w), false, later).1 == FailsafeAction::Shutdown
        }),
{
}

/// A failure at the very instant the run began is notified again.
pub proof fn lemma_failure_at_run_start_notifies(f: FailsafesView)
    requires
        f.last_fan_enable_error_time is Some,
    ensures
        enable_error_step(f, f.last_fan_enable_error_time->Some_0).1 == FailsafeAction::NotifyEnableFailure,
{
}

/// Within a run of failures to enable, the start of the run stays put, and a later
/// failure shuts the machine down exactly when more than the shutdown delay has passed
/// since that start; otherwise it asks for nothing.
pub proof fn lemma_failure_within_run(f: FailsafesView, now: u128)
    requires
        f.last_fan_enable_error_time matches Some(first) && now > first,
    ensures
        enable_error_step(f, now).0.last_fan_enable_error_time == f.last_fan_enable_error_time,
        enable_error_step(f, now).0.shutdown_delay == f.shutdown_delay,
        enable_error_step(f, now).1 == if now - f.last_fan_enable_error_time->Some_0 > f.shutdown_delay
            * 1_000_000 {
            FailsafeAction::Shutdown
        } else {
            FailsafeAction::Nothing
        },
{
}

} // verus!