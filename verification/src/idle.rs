use vstd::prelude::*;

use crate::focus::FocusState;

verus! {

/// Seconds between two scheduler ticks.
pub const TICK_SECONDS: u64 = 60;

/// A bound on the idle counter: the largest reminder threshold, sixty
/// seconds for every minute of the largest expressible interval. The counter
/// always stays below the threshold in force, so adding one more tick of
/// seconds never overflows.
pub const MAX_IDLE_SECONDS: u64 = 0x3BFFFFFFC4;

/// The reminder threshold in seconds for a configured interval: the interval
/// is floored to one minute when it is consumed, so a zero interval never
/// yields a zero threshold.
pub open spec fn spec_threshold_seconds(interval_minutes: u32) -> int {
    if interval_minutes >= 1 {
        interval_minutes * 60
    } else {
        60
    }
}

/// Whether one tick in the given configuration fires the reminder: only when
/// reminders are enabled, the timer is not running, and the accumulated idle
/// time (including this tick) reaches the threshold.
pub open spec fn spec_tick_fires(
    idle_seconds: u64,
    enabled: bool,
    running: bool,
    interval_minutes: u32,
) -> bool {
    enabled && !running && idle_seconds + 60 >= spec_threshold_seconds(interval_minutes)
}

/// The idle counter after one tick: reset on disabled reminders, on a running
/// timer, and on a firing reminder; otherwise grown by one tick.
pub open spec fn spec_tick_idle_after(
    idle_seconds: u64,
    enabled: bool,
    running: bool,
    interval_minutes: u32,
) -> int {
    if !enabled || running || spec_tick_fires(idle_seconds, enabled, running, interval_minutes) {
        0
    } else {
        idle_seconds + 60
    }
}

/// The idle-time accumulator owned by the scheduler task. It is never shared:
/// the scheduler reads the shared configuration each tick and mutates this
/// counter alone.
pub struct IdleAccumulator {
    pub idle_time_seconds: u64,
}

impl IdleAccumulator {
    /// The counter stays below the largest threshold, so adding one more tick
    /// never overflows.
    pub open spec fn wf(&self) -> bool {
        self.idle_time_seconds <= MAX_IDLE_SECONDS
    }

    /// A fresh accumulator with no idle time.
    pub fn new() -> (r: IdleAccumulator)
        ensures
            r.idle_time_seconds == 0,
            r.wf(),
    {
        IdleAccumulator { idle_time_seconds: 0 }
    }

    /// One scheduler tick, given the configuration read at its start.
    ///
    /// The reminder is level-triggered: under continuous idleness it fires
    /// again every threshold's worth of ticks, indefinitely, until a running
    /// timer or disabled reminders reset the counter. In particular a running
    /// timer resets the counter to zero on the very next tick, whatever had
    /// accumulated, and fires nothing.
    pub fn tick(&mut self, enabled: bool, running: bool, interval_minutes: u32) -> (fired: bool)
        requires
            old(self).wf(),
        ensures
            fired == spec_tick_fires(old(self).idle_time_seconds, enabled, running,
                interval_minutes),
            final(self).idle_time_seconds == spec_tick_idle_after(old(self).idle_time_seconds,
                enabled, running, interval_minutes),
            running ==> final(self).idle_time_seconds == 0 && !fired,
            !enabled ==> final(self).idle_time_seconds == 0 && !fired,
            final(self).wf(),
    {
        if !enabled {
            self.idle_time_seconds = 0;
            return false;
        }
        if running {
            self.idle_time_seconds = 0;
            return false;
        }
        let grown: u64 = self.idle_time_seconds + TICK_SECONDS;
        let floored: u64 = if interval_minutes >= 1 {
            interval_minutes as u64
        } else {
            1
        };
        let threshold: u64 = floored * 60;
        if grown >= threshold {
            self.idle_time_seconds = 0;
            true
        } else {
            self.idle_time_seconds = grown;
            false
        }
    }

    /// One scheduler tick against the live shared configuration, exactly as
    /// the scheduler task performs it: each field is read independently and
    /// the counter is stepped with what was read.
    pub fn tick_from(&mut self, focus: &FocusState) -> (fired: bool)
        requires
            old(self).wf(),
        ensures
            fired == spec_tick_fires(old(self).idle_time_seconds, focus.idle_reminder_enabled,
                focus.is_timer_running, focus.idle_reminder_interval_minutes),
            final(self).idle_time_seconds == spec_tick_idle_after(old(self).idle_time_seconds,
                focus.idle_reminder_enabled, focus.is_timer_running,
                focus.idle_reminder_interval_minutes),
            final(self).wf(),
    {
        self.tick(focus.idle_reminder_enabled, focus.is_timer_running,
            focus.idle_reminder_interval_minutes)
    }
}

/// Threshold floor: a configured interval of zero minutes behaves in every
/// respect exactly as an interval of one minute — the threshold is a full
/// minute, never zero, and a tick fires and resets the same way under both.
pub proof fn lemma_threshold_floor(idle_seconds: u64, enabled: bool, running: bool)
    ensures
        spec_threshold_seconds(0) == spec_threshold_seconds(1),
        spec_tick_fires(idle_seconds, enabled, running, 0) == spec_tick_fires(idle_seconds,
            enabled, running, 1),
        spec_tick_idle_after(idle_seconds, enabled, running, 0) == spec_tick_idle_after(
            idle_seconds, enabled, running, 1),
{
}

} // verus!
