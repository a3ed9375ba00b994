//! What the daemon does when the fans cannot be switched: tell the user, and shut the
//! machine down when the fans stay off for too long.

use vstd::prelude::*;

verus! {

/// What the failsafes ask of the program around them.
#[derive(Debug, Clone, Copy, PartialEq, Eq, Structural)]
pub enum FailsafeAction {
    /// Nothing to do.
    Nothing,
    /// Notify the user that the fans could not be handed back to the vBIOS.
    NotifyEnableFailure,
    /// Notify the user that the fans could not be stopped.
    NotifyDisableFailure,
    /// Force the machine to shut down: the fans have stayed out of the vBIOS's control
    /// for longer than the shutdown delay.
    Shutdown,
}

/// The failsafes' memory of failed attempts to hand the fans back to the vBIOS.
#[derive(Debug)]
pub struct Failsafes {
    /// After how many milliseconds of failures to enable the fans the machine is shut
    /// down.
    shutdown_delay: u64,
    /// When the current run of failures to enable the fans began, in nanoseconds on the
    /// program's monotonic clock; `None` when the last attempt succeeded.
    last_fan_enable_error_time: Option<u128>,
}

/// The state of the failsafes as plain values.
pub struct FailsafesView {
    pub shutdown_delay: u64,
    pub last_fan_enable_error_time: Option<u128>,
}

impl View for Failsafes {
    type V = FailsafesView;

    closed spec fn view(&self) -> FailsafesView {
        FailsafesView {
            shutdown_delay: self.shutdown_delay,
            last_fan_enable_error_time: self.last_fan_enable_error_time,
        }
    }
}

/// A delay in milliseconds, counted in nanoseconds.
pub open spec fn millis_as_nanos(ms: u64) -> int {
    ms * 1_000_000
}

/// How the failsafes react to a failure to enable the fans at time `now` (nanoseconds):
/// the first failure of a run is remembered and notified; a failure more than the
/// shutdown delay after the first one of its run shuts the machine down.
pub open spec fn enable_error_step(f: FailsafesView, now: u128) -> (FailsafesView, FailsafeAction) {
    let first = match f.last_fan_enable_error_time {
        Some(t) => t,
        None => now,
    };
    let elapsed: int = if now >= first {
        now - first
    } else {
        0
    };
    let action = if elapsed == 0 {
        FailsafeAction::NotifyEnableFailure
    } else if elapsed > millis_as_nanos(f.shutdown_delay) {
        FailsafeAction::Shutdown
    } else {
        FailsafeAction::Nothing
    };
    (FailsafesView { last_fan_enable_error_time: Some(first), ..f }, action)
}

/// The failsafes once the fans were handed back to the vBIOS: the run of failures ends.
pub open spec fn enable_success_step(f: FailsafesView) -> FailsafesView {
    FailsafesView { last_fan_enable_error_time: None, ..f }
}

impl Failsafes {
    /// Failsafes that shut the machine down after `shutdown_delay` milliseconds of
    /// failures to enable the fans.
    pub fn new(shutdown_delay: u64) -> (f: Failsafes)
        ensures
            f@ == (FailsafesView { shutdown_delay, last_fan_enable_error_time: None }),
    {
        Failsafes { shutdown_delay, last_fan_enable_error_time: None }
    }

    /// The shutdown delay, in milliseconds.
    pub fn shutdown_delay(&self) -> (d: u64)
        ensures
            d == self@.shutdown_delay,
    {
        self.shutdown_delay
    }

    /// When the current run of failures to enable the fans began, if one is going on.
    pub fn last_fan_enable_error_time(&self) -> (t: Option<u128>)
        ensures
            t == self@.last_fan_enable_error_time,
    {
        self.last_fan_enable_error_time
    }

    /// Records that the fans could not be enabled at time `now` (nanoseconds on the
    /// monotonic clock) and says what to do about it.
    pub fn on_fan_enable_error(&mut self, now: u128) -> (action: FailsafeAction)
        ensures
            (final(self)@, action) == enable_error_step(old(self)@, now),
    {
        let last = match self.last_fan_enable_error_time {
            Some(t) => t,
            None => now,
        };
        self.last_fan_enable_error_time = Some(last);
        let time_diff: u128 = if now >= last {
            now - last
        } else {
            0
        };
        let delay: u128 = (self.shutdown_delay as u128) * 1_000_000;
        if time_diff == 0 {
            FailsafeAction::NotifyEnableFailure
        } else if time_diff > delay {
            FailsafeAction::Shutdown
        } else {
            FailsafeAction::Nothing
        }
    }

    /// Records that the fans were enabled: any run of failures is over.
    pub fn on_fan_enable_success(&mut self)
        ensures
            final(self)@ == enable_success_step(old(self)@),
    {
        self.last_fan_enable_error_time = None;
    }

    /// Says what to do when the fans could not be stopped: notify the user.
    pub fn on_fan_disable_error(&mut self) -> (action: FailsafeAction)
        ensures
            final(self)@ == old(self)@,
            action == FailsafeAction::NotifyDisableFailure,
    {
        FailsafeAction::NotifyDisableFailure
    }

    /// Records that the fans were stopped; the failsafes have nothing to remember.
    pub fn on_fan_disable_success(&mut self)
        ensures
            final(self)@ == old(self)@,
    {
    }
}

} // verus!
