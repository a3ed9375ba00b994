//! The fan manager: from GPU temperatures to fan commands, with zero-RPM hysteresis.
//!
//! The manager is a state machine. The program around it reads the temperature, runs
//! the fan commands the manager asks for, reports back how they went, sleeps between
//! checks, and carries out what the failsafes ask.

pub mod failsafes;
pub mod gpu;
pub mod laws;

use vstd::prelude::*;
use failsafes::{
    enable_error_step, enable_success_step, FailsafeAction, Failsafes, FailsafesView,
};
use gpu::{GpuCommand, GpuError};

verus! {

/// Who drives the fans, as far as the manager knows.
#[derive(Debug, Clone, Copy, PartialEq, Eq, Structural)]
pub enum FanState {
    /// The manager took control and stopped the fans.
    Idle,
    /// The vBIOS controls the fans.
    Cooling,
    /// Not known yet.
    Unknown,
}

/// A change of fan control that the manager asks for.
#[derive(Debug, Clone, Copy, PartialEq, Eq, Structural)]
pub enum FanCommand {
    /// Give fan control to the vBIOS.
    Enable,
    /// Take fan control and stop the fans.
    Disable,
}

impl FanCommand {
    /// The `nvidia-settings` command that carries this out.
    pub fn gpu_command(&self) -> (command: GpuCommand)
        ensures
            command == match *self {
                FanCommand::Enable => GpuCommand::EnableFans,
                FanCommand::Disable => GpuCommand::DisableFans,
            },
    {
        match self {
            FanCommand::Enable => GpuCommand::EnableFans,
            FanCommand::Disable => GpuCommand::DisableFans,
        }
    }
}

/// The GPU fan manager.
#[derive(Debug)]
pub struct Manager {
    fan_state: FanState,
    idle_temp: u64,
    cooling_temp: u64,
    refresh_delay: u64,
    failsafe: Failsafes,
    /// The command whose outcome the manager waits for.
    awaiting: Option<FanCommand>,
    /// A temperature whose check against the cooling threshold waits for the outcome of
    /// the awaited command.
    pending_check: Option<u64>,
}

/// The state of the manager as plain values.
pub struct ManagerView {
    pub fan_state: FanState,
    pub idle_temp: u64,
    pub cooling_temp: u64,
    pub refresh_delay: u64,
    pub failsafe: FailsafesView,
    pub awaiting: Option<FanCommand>,
    pub pending_check: Option<u64>,
}

impl View for Manager {
    type V = ManagerView;

    closed spec fn view(&self) -> ManagerView {
        ManagerView {
            fan_state: self.fan_state,
            idle_temp: self.idle_temp,
            cooling_temp: self.cooling_temp,
            refresh_delay: self.refresh_delay,
            failsafe: self.failsafe@,
            awaiting: self.awaiting,
            pending_check: self.pending_check,
        }
    }
}

/// A check against the cooling threshold waits only behind a command to stop the fans.
pub open spec fn manager_wf(v: ManagerView) -> bool {
    v.pending_check is Some ==> v.awaiting == Some(FanCommand::Disable)
}

/// The fans are handed to the vBIOS when `temp` is above the cooling temperature and
/// they are not known to be with the vBIOS already.
pub open spec fn cooling_check(state: FanState, cooling_temp: u64, temp: u64) -> Option<FanCommand> {
    if temp > cooling_temp && state != FanState::Cooling {
        Some(FanCommand::Enable)
    } else {
        None
    }
}

/// The fans are stopped when `temp` is below the idle temperature and they are not known
/// to be stopped already.
pub open spec fn idle_check(state: FanState, idle_temp: u64, temp: u64) -> bool {
    temp < idle_temp && state != FanState::Idle
}

/// The manager once it waits for the outcome of `command` (if any), with `pending` as the
/// check still to do after it.
pub open spec fn awaiting_step(v: ManagerView, command: Option<FanCommand>, pending: Option<u64>) -> ManagerView {
    ManagerView { awaiting: command, pending_check: pending, ..v }
}

/// How the manager reacts to a temperature reading: a failed reading hands the fans
/// to the vBIOS; a cold one stops them, and its check against the cooling threshold
/// follows the outcome; otherwise the fans go to the vBIOS when the GPU is hot.
pub open spec fn reading_step(v: ManagerView, reading: Result<u64, GpuError>) -> (ManagerView, Option<FanCommand>) {
    match reading {
        Err(_) => (awaiting_step(v, Some(FanCommand::Enable), None), Some(FanCommand::Enable)),
        Ok(t) => if idle_check(v.fan_state, v.idle_temp, t) {
            (awaiting_step(v, Some(FanCommand::Disable), Some(t)), Some(FanCommand::Disable))
        } else {
            let c = cooling_check(v.fan_state, v.cooling_temp, t);
            (awaiting_step(v, c, None), c)
        },
    }
}

/// How the manager takes the outcome of a command that handed the fans to the vBIOS.
pub open spec fn enable_outcome_step(v: ManagerView, ok: bool, now: u128) -> (ManagerView, FailsafeAction) {
    if ok {
        (
            ManagerView { fan_state: FanState::Cooling, failsafe: enable_success_step(v.failsafe), ..v },
            FailsafeAction::Nothing,
        )
    } else {
        let (f, a) = enable_error_step(v.failsafe, now);
        (ManagerView { failsafe: f, ..v }, a)
    }
}

/// How the manager takes the outcome of a command that stopped the fans.
pub open spec fn disable_outcome_step(v: ManagerView, ok: bool) -> (ManagerView, FailsafeAction) {
    if ok {
        (ManagerView { fan_state: FanState::Idle, ..v }, FailsafeAction::Nothing)
    } else {
        (v, FailsafeAction::NotifyDisableFailure)
    }
}

/// How the manager takes the outcome of the awaited command (nothing happens when no
/// command is awaited, and the manager then waits for none): the fan state and failsafes are updated, and a check against
/// the cooling threshold that waited for it is done.
pub open spec fn outcome_step(v: ManagerView, ok: bool, now: u128) -> (ManagerView, FailsafeAction, Option<FanCommand>) {
    match v.awaiting {
        None => (awaiting_step(v, None, None), FailsafeAction::Nothing, None),
        Some(FanCommand::Enable) => {
            let (w, a) = enable_outcome_step(v, ok, now);
            (awaiting_step(w, None, None), a, None)
        },
        Some(FanCommand::Disable) => {
            let (w, a) = disable_outcome_step(v, ok);
            match v.pending_check {
                None => (awaiting_step(w, None, None), a, None),
                Some(t) => {
                    let c = cooling_check(w.fan_state, w.cooling_temp, t);
                    (awaiting_step(w, c, None), a, c)
                },
            }
        },
    }
}

/// The manager once it asked to hand the fans to the vBIOS.
pub open spec fn restore_step(v: ManagerView) -> ManagerView {
    awaiting_step(v, Some(FanCommand::Enable), None)
}

impl Manager {
    /// A manager that stops the fans below `idle_temp`, hands them to the vBIOS above
    /// `cooling_temp`, checks every `refresh_delay` milliseconds, and shuts the machine
    /// down after `failsafe_shutdown_delay` milliseconds of failures to enable the fans.
    pub fn new(idle_temp: u64, cooling_temp: u64, refresh_delay: u64, failsafe_shutdown_delay: u64) -> (m: Manager)
        ensures
            m@ == (ManagerView {
                fan_state: FanState::Unknown,
                idle_temp,
                cooling_temp,
                refresh_delay,
                failsafe: FailsafesView {
                    shutdown_delay: failsafe_shutdown_delay,
                    last_fan_enable_error_time: None,
                },
                awaiting: None,
                pending_check: None,
            }),
            manager_wf(m@),
    {
        Manager {
            idle_temp,
            cooling_temp,
            refresh_delay,
            fan_state: FanState::Unknown,
            failsafe: Failsafes::new(failsafe_shutdown_delay),
            awaiting: None,
            pending_check: None,
        }
    }

    /// Who drives the fans, as far as the manager knows.
    pub fn fan_state(&self) -> (s: FanState)
        ensures
            s == self@.fan_state,
    {
        self.fan_state
    }

    /// The delay between two temperature checks, in milliseconds.
    pub fn refresh_delay(&self) -> (d: u64)
        ensures
            d == self@.refresh_delay,
    {
        self.refresh_delay
    }

    /// The temperature below which the fans are stopped.
    pub fn idle_temp(&self) -> (t: u64)
        ensures
            t == self@.idle_temp,
    {
        self.idle_temp
    }

    /// The temperature above which the fans go to the vBIOS.
    pub fn cooling_temp(&self) -> (t: u64)
        ensures
            t == self@.cooling_temp,
    {
        self.cooling_temp
    }

    /// The failsafes.
    pub fn failsafe(&self) -> (f: &Failsafes)
        ensures
            f@ == self@.failsafe,
    {
        &self.failsafe
    }

    /// The command whose outcome the manager waits for.
    pub fn awaiting(&self) -> (c: Option<FanCommand>)
        ensures
            c == self@.awaiting,
    {
        self.awaiting
    }

    /// Asks to hand the fans to the vBIOS: at start, at the end, and while cleaning up.
    pub fn restore_fan_control(&mut self) -> (command: FanCommand)
        ensures
            final(self)@ == restore_step(old(self)@),
            command == FanCommand::Enable,
            manager_wf(final(self)@),
    {
        self.awaiting = Some(FanCommand::Enable);
        self.pending_check = None;
        FanCommand::Enable
    }

    /// Takes a temperature reading, or the failure to get one, and says which fan
    /// command to run, if any.
    pub fn on_reading(&mut self, reading: Result<u64, GpuError>) -> (command: Option<FanCommand>)
        ensures
            (final(self)@, command) == reading_step(old(self)@, reading),
            manager_wf(final(self)@),
    {
        match reading {
            Err(_) => {
                self.awaiting = Some(FanCommand::Enable);
                self.pending_check = None;
                Some(FanCommand::Enable)
            },
            Ok(temp) => {
                if temp < self.idle_temp && self.fan_state != FanState::Idle {
                    self.awaiting = Some(FanCommand::Disable);
                    self.pending_check = Some(temp);
                    Some(FanCommand::Disable)
                } else {
                    let command = self.cooling_command(temp);
                    self.awaiting = command;
                    self.pending_check = None;
                    command
                }
            },
        }
    }

    /// The command that the check of `temp` against the cooling threshold calls for.
    fn cooling_command(&self, temp: u64) -> (command: Option<FanCommand>)
        ensures
            command == cooling_check(self@.fan_state, self@.cooling_temp, temp),
    {
        if temp > self.cooling_temp && self.fan_state != FanState::Cooling {
            Some(FanCommand::Enable)
        } else {
            None
        }
    }

    /// Takes the outcome of the command that handed the fans to the vBIOS, at time `now`
    /// (nanoseconds on the monotonic clock), and says what the failsafes ask for.
    pub fn enable_fans(&mut self, outcome: Result<(), GpuError>, now: u128) -> (action: FailsafeAction)
        ensures
            (final(self)@, action) == enable_outcome_step(old(self)@, outcome is Ok, now),
    {
        match outcome {
            Err(_) => self.failsafe.on_fan_enable_error(now),
            Ok(()) => {
                self.failsafe.on_fan_enable_success();
                self.fan_state = FanState::Cooling;
                FailsafeAction::Nothing
            },
        }
    }

    /// Takes the outcome of the command that stopped the fans and says what the
    /// failsafes ask for.
    pub fn disable_fans(&mut self, outcome: Result<(), GpuError>) -> (action: FailsafeAction)
        ensures
            (final(self)@, action) == disable_outcome_step(old(self)@, outcome is Ok),
    {
        match outcome {
            Err(_) => self.failsafe.on_fan_disable_error(),
            Ok(()) => {
                self.failsafe.on_fan_disable_success();
                self.fan_state = FanState::Idle;
                FailsafeAction::Nothing
            },
        }
    }

    /// Takes the outcome of the command the manager asked for, at time `now`
    /// (nanoseconds on the monotonic clock); says what the failsafes ask for and which
    /// fan command to run next, if any.
    pub fn on_command_outcome(&mut self, outcome: Result<(), GpuError>, now: u128) -> (reaction: (FailsafeAction, Option<FanCommand>))
        ensures
            (final(self)@, reaction.0, reaction.1) == outcome_step(old(self)@, outcome is Ok, now),
            manager_wf(final(self)@),
    {
        match self.awaiting {
            None => {
                self.pending_check = None;
                (FailsafeAction::Nothing, None)
            },
            Some(FanCommand::Enable) => {
                let action = self.enable_fans(outcome, now);
                self.awaiting = None;
                self.pending_check = None;
                (action, None)
            },
            Some(FanCommand::Disable) => {
                let action = self.disable_fans(outcome);
                let next = match self.pending_check {
                    None => None,
                    Some(temp) => self.cooling_command(temp),
                };
                self.awaiting = next;
                self.pending_check = None;
                (action, next)
            },
        }
    }

    /// The fans are not yet known to be with the vBIOS, so the manager may not be let go.
    pub fn needs_cleanup(&self) -> (needed: bool)
        ensures
            needed == (self@.fan_state != FanState::Cooling),
    {
        self.fan_state != FanState::Cooling
    }
}

} // verus!
