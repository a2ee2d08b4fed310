use vstd::prelude::*;

verus! {

/// Shared focus/timer settings, mutated one field at a time by UI commands and
/// read by the idle scheduler and the status endpoint.
///
/// No invariant couples the fields: setting one never forces another.
#[derive(Clone, Copy, PartialEq, Eq, Structural, Debug)]
pub struct FocusState {
    pub is_focusing: bool,
    pub is_timer_running: bool,
    pub idle_reminder_enabled: bool,
    pub idle_reminder_interval_minutes: u32,
}

impl FocusState {
    /// The startup value: not focusing, timer stopped, reminders on every
    /// ten minutes.
    pub fn new() -> (r: FocusState)
        ensures
            r.is_focusing == false,
            r.is_timer_running == false,
            r.idle_reminder_enabled == true,
            r.idle_reminder_interval_minutes == 10,
    {
        FocusState {
            is_focusing: false,
            is_timer_running: false,
            idle_reminder_enabled: true,
            idle_reminder_interval_minutes: 10,
        }
    }

    /// Sets the focus flag; every other field keeps its value.
    pub fn set_focus_state(&mut self, is_focusing: bool)
        ensures
            final(self).is_focusing == is_focusing,
            final(self).is_timer_running == old(self).is_timer_running,
            final(self).idle_reminder_enabled == old(self).idle_reminder_enabled,
            final(self).idle_reminder_interval_minutes == old(self).idle_reminder_interval_minutes,
    {
        self.is_focusing = is_focusing;
    }

    /// Sets the timer-running flag; every other field keeps its value.
    pub fn set_timer_running(&mut self, running: bool)
        ensures
            final(self).is_timer_running == running,
            final(self).is_focusing == old(self).is_focusing,
            final(self).idle_reminder_enabled == old(self).idle_reminder_enabled,
            final(self).idle_reminder_interval_minutes == old(self).idle_reminder_interval_minutes,
    {
        self.is_timer_running = running;
    }

    /// Sets both idle-reminder settings; the two focus/timer flags keep their
    /// values. The interval is stored as given: the floor of one minute is
    /// applied when the scheduler consumes it, not here.
    pub fn set_idle_reminder_settings(&mut self, enabled: bool, interval_minutes: u32)
        ensures
            final(self).idle_reminder_enabled == enabled,
            final(self).idle_reminder_interval_minutes == interval_minutes,
            final(self).is_focusing == old(self).is_focusing,
            final(self).is_timer_running == old(self).is_timer_running,
    {
        self.idle_reminder_enabled = enabled;
        self.idle_reminder_interval_minutes = interval_minutes;
    }
}

impl Default for FocusState {
    /// Same value as `FocusState::new`.
    fn default() -> (r: FocusState)
        ensures
            r.is_focusing == false,
            r.is_timer_running == false,
            r.idle_reminder_enabled == true,
            r.idle_reminder_interval_minutes == 10,
    {
        FocusState::new()
    }
}

} // verus!
