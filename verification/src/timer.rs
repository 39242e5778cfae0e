//! The countdown state machine.
//!
//! A [`Timer`] owns a configured duration in whole seconds, the remaining
//! time in whole milliseconds, and a run state. Remaining time is kept in
//! milliseconds so a countdown advances smoothly between frames while every
//! operation stays exact integer arithmetic.
//!
//! Every operation is total: out-of-range adjustments are clamped and
//! requests that make no sense in the current state are ignored, so no
//! method can fail.

use vstd::prelude::*;

use std::time::Instant;

use crate::clock::{millis_since, monotonic_now};

verus! {

/// Upper bound on the configured duration reachable through
/// [`Timer::add_minutes`] and [`Timer::add_seconds`]: 99 minutes 59 seconds.
pub const MAX_DURATION_SECS: u32 = 5999;

/// Milliseconds in one second.
pub const MS_PER_SEC: u64 = 1000;

#[derive(Debug, Clone, Copy, PartialEq, Eq, Structural)]
pub enum TimerState {
    Stopped,
    Running,
    Paused,
}

pub struct Timer {
    /// Total duration in seconds.
    pub duration: u32,
    /// Remaining time in milliseconds.
    pub remaining_ms: u64,
    /// Current state.
    pub state: TimerState,
    /// The instant of the last running update, recorded exactly while the
    /// timer is running.
    pub last_tick: Option<Instant>,
}

/// The state after a start request: a timer with time left starts running,
/// one that has run out stays where it was.
pub open spec fn started_state(state: TimerState, remaining_ms: int) -> TimerState {
    if remaining_ms > 0 {
        TimerState::Running
    } else {
        state
    }
}

/// The state after a pause request: only a running timer pauses.
pub open spec fn paused_state(state: TimerState) -> TimerState {
    if state is Running {
        TimerState::Paused
    } else {
        state
    }
}

/// The state after a toggle: a single play/pause button.
pub open spec fn toggled_state(state: TimerState, remaining_ms: int) -> TimerState {
    match state {
        TimerState::Running => TimerState::Paused,
        _ => started_state(state, remaining_ms),
    }
}

/// The configured duration after an adjustment, clamped to
/// `[0, MAX_DURATION_SECS]`.
pub open spec fn clamped_duration(total_secs: int) -> int {
    if total_secs < 0 {
        0
    } else if total_secs > MAX_DURATION_SECS {
        MAX_DURATION_SECS as int
    } else {
        total_secs
    }
}

/// Remaining milliseconds once `elapsed_ms` have passed: a running countdown
/// loses the elapsed time but never drops below zero; any other state keeps
/// its remaining time untouched.
pub open spec fn advanced_remaining(state: TimerState, remaining_ms: int, elapsed_ms: int) -> int {
    if state is Running {
        if elapsed_ms >= remaining_ms {
            0
        } else {
            remaining_ms - elapsed_ms
        }
    } else {
        remaining_ms
    }
}

/// Run state once `elapsed_ms` have passed: a running countdown that hits
/// zero stops itself; everything else is unchanged.
pub open spec fn advanced_state(state: TimerState, remaining_ms: int, elapsed_ms: int) -> TimerState {
    if state is Running && elapsed_ms >= remaining_ms {
        TimerState::Stopped
    } else {
        state
    }
}

impl Timer {
    /// Whether a tick anchor is recorded.
    pub open spec fn anchored(self) -> bool {
        self.last_tick is Some
    }

    /// Structural invariant: the tick anchor is set exactly while running,
    /// and the remaining time never exceeds what a `u32` duration allows.
    pub open spec fn wf(self) -> bool {
        &&& (self.anchored() <==> self.state is Running)
        &&& self.remaining_ms <= u32::MAX * MS_PER_SEC
    }

    /// A natural completion: the countdown of a configured session has run
    /// down to zero and stopped itself.
    pub open spec fn spec_is_finished(self) -> bool {
        self.remaining_ms == 0 && self.state is Stopped && self.duration > 0
    }

    pub fn new(duration_seconds: u32) -> (timer: Timer)
        ensures
            timer.wf(),
            timer.duration == duration_seconds,
            timer.remaining_ms == duration_seconds * MS_PER_SEC,
            timer.state is Stopped,
    {
        Timer {
            duration: duration_seconds,
            remaining_ms: duration_seconds as u64 * MS_PER_SEC,
            state: TimerState::Stopped,
            last_tick: None,
        }
    }

    /// Start counting down, recording the clock as the tick anchor.
    /// Ignored when no time is left.
    pub fn start(&mut self)
        requires
            old(self).wf(),
        ensures
            final(self).wf(),
            final(self).duration == old(self).duration,
            final(self).remaining_ms == old(self).remaining_ms,
            final(self).state == started_state(old(self).state, old(self).remaining_ms as int),
    {
        if self.remaining_ms > 0 {
            self.state = TimerState::Running;
            self.last_tick = Some(monotonic_now());
        }
    }

    /// Suspend a running countdown and drop the tick anchor.
    /// Ignored in any other state.
    pub fn pause(&mut self)
        requires
            old(self).wf(),
        ensures
            final(self).wf(),
            final(self).duration == old(self).duration,
            final(self).remaining_ms == old(self).remaining_ms,
            final(self).state == paused_state(old(self).state),
    {
        if self.state == TimerState::Running {
            self.state = TimerState::Paused;
            self.last_tick = None;
        }
    }

    /// Single-button play/pause: stopped and paused timers start, a running
    /// timer pauses.
    pub fn toggle(&mut self)
        requires
            old(self).wf(),
        ensures
            final(self).wf(),
            final(self).duration == old(self).duration,
            final(self).remaining_ms == old(self).remaining_ms,
            final(self).state == toggled_state(old(self).state, old(self).remaining_ms as int),
    {
        match self.state {
            TimerState::Stopped => self.start(),
            TimerState::Running => self.pause(),
            TimerState::Paused => self.start(),
        }
    }

    /// Return to a stopped timer holding its full configured duration,
    /// whatever the current state.
    pub fn reset(&mut self)
        requires
            old(self).wf(),
        ensures
            final(self).wf(),
            final(self).duration == old(self).duration,
            final(self).remaining_ms == old(self).duration * MS_PER_SEC,
            final(self).state is Stopped,
    {
        self.remaining_ms = self.duration as u64 * MS_PER_SEC;
        self.state = TimerState::Stopped;
        self.last_tick = None;
    }

    /// Configure a new duration. A stopped timer also resyncs its remaining
    /// time so the display reflects the change at once; a running or paused
    /// one keeps counting from where it was until the next reset.
    pub fn set_duration(&mut self, seconds: u32)
        requires
            old(self).wf(),
        ensures
            final(self).wf(),
            final(self).state == old(self).state,
            final(self).duration == seconds,
            old(self).state is Stopped ==> final(self).remaining_ms == seconds * MS_PER_SEC,
            !(old(self).state is Stopped) ==> final(self).remaining_ms == old(self).remaining_ms,
    {
        self.duration = seconds;
        if self.state == TimerState::Stopped {
            self.remaining_ms = seconds as u64 * MS_PER_SEC;
        }
    }

    /// Adjust the duration by whole minutes, clamped to
    /// `[0, MAX_DURATION_SECS]`, with the same stopped-only resync rule as
    /// [`Timer::set_duration`].
    pub fn add_minutes(&mut self, minutes: i32)
        requires
            old(self).wf(),
        ensures
            final(self).wf(),
            final(self).state == old(self).state,
            final(self).duration == clamped_duration(old(self).duration + minutes * 60),
            old(self).state is Stopped ==> final(self).remaining_ms == final(self).duration * MS_PER_SEC,
            !(old(self).state is Stopped) ==> final(self).remaining_ms == old(self).remaining_ms,
    {
        self.adjust_duration(minutes as i64 * 60);
    }

    /// Adjust the duration by whole seconds, clamped to
    /// `[0, MAX_DURATION_SECS]`, with the same stopped-only resync rule as
    /// [`Timer::set_duration`].
    pub fn add_seconds(&mut self, seconds: i32)
        requires
            old(self).wf(),
        ensures
            final(self).wf(),
            final(self).state == old(self).state,
            final(self).duration == clamped_duration(old(self).duration + seconds),
            old(self).state is Stopped ==> final(self).remaining_ms == final(self).duration * MS_PER_SEC,
            !(old(self).state is Stopped) ==> final(self).remaining_ms == old(self).remaining_ms,
    {
        self.adjust_duration(seconds as i64);
    }

    /// Shared clamping step behind the two duration adjustments.
    fn adjust_duration(&mut self, delta_secs: i64)
        requires
            old(self).wf(),
            -200000000000 <= delta_secs <= 200000000000,
        ensures
            final(self).wf(),
            final(self).state == old(self).state,
            final(self).duration == clamped_duration(old(self).duration + delta_secs),
            old(self).state is Stopped ==> final(self).remaining_ms == final(self).duration * MS_PER_SEC,
            !(old(self).state is Stopped) ==> final(self).remaining_ms == old(self).remaining_ms,
    {
        let wide: i64 = self.duration as i64 + delta_secs;
        let new_duration: u32 = if wide < 0 {
            0
        } else if wide > MAX_DURATION_SECS as i64 {
            MAX_DURATION_SECS
        } else {
            wide as u32
        };
        self.duration = new_duration;
        if self.state == TimerState::Stopped {
            self.remaining_ms = new_duration as u64 * MS_PER_SEC;
        }
    }

    /// Advance a running countdown by a measured number of elapsed
    /// milliseconds. When the elapsed time consumes everything that was
    /// left, the remaining time clamps to exactly zero and the timer stops
    /// itself. In any state other than running this changes nothing.
    pub fn advance_millis(&mut self, elapsed_ms: u64)
        requires
            old(self).wf(),
        ensures
            final(self).wf(),
            final(self).duration == old(self).duration,
            final(self).remaining_ms == advanced_remaining(
                old(self).state,
                old(self).remaining_ms as int,
                elapsed_ms as int,
            ),
            final(self).state == advanced_state(
                old(self).state,
                old(self).remaining_ms as int,
                elapsed_ms as int,
            ),
    {
        if self.state != TimerState::Running {
            return;
        }
        if elapsed_ms >= self.remaining_ms {
            self.remaining_ms = 0;
            self.state = TimerState::Stopped;
            self.last_tick = None;
        } else {
            self.remaining_ms = self.remaining_ms - elapsed_ms;
        }
    }

    /// Per-frame update: measure the time since the tick anchor, advance
    /// the countdown by it, and re-anchor to now while still running. In
    /// any state other than running this changes nothing. The measured
    /// delta is whatever the clock reports, so the contract promises the
    /// outcome of [`Timer::advance_millis`] for some nonnegative delta:
    /// either still running with some of the remaining time left, or
    /// stopped at exactly zero.
    pub fn tick(&mut self)
        requires
            old(self).wf(),
        ensures
            final(self).wf(),
            final(self).duration == old(self).duration,
            !(old(self).state is Running) ==> *final(self) == *old(self),
            old(self).state is Running ==> final(self).remaining_ms <= old(self).remaining_ms,
            old(self).state is Running ==> (final(self).state is Running
                && final(self).remaining_ms > 0) || (final(self).state is Stopped
                && final(self).remaining_ms == 0),
    {
        if self.state != TimerState::Running {
            return;
        }
        let elapsed: u128 = match &self.last_tick {
            Some(last) => millis_since(last),
            None => 0,
        };
        let capped: u64 = if elapsed >= self.remaining_ms as u128 {
            self.remaining_ms
        } else {
            elapsed as u64
        };
        self.advance_millis(capped);
        if self.state == TimerState::Running {
            self.last_tick = Some(monotonic_now());
        }
    }

    /// Whole minutes of the remaining time, floored to whole seconds first.
    pub fn minutes(&self) -> (m: u32)
        requires
            self.wf(),
        ensures
            m == self.remaining_ms / MS_PER_SEC / 60,
    {
        proof {
            vstd::arithmetic::div_mod::lemma_div_is_ordered(
                self.remaining_ms as int,
                u32::MAX * MS_PER_SEC,
                MS_PER_SEC as int,
            );
        }
        let secs: u64 = self.remaining_ms / MS_PER_SEC;
        (secs / 60) as u32
    }

    /// Seconds shown beside the minutes: the whole remaining seconds
    /// modulo one minute.
    pub fn seconds(&self) -> (s: u32)
        requires
            self.wf(),
        ensures
            s == self.remaining_ms / MS_PER_SEC % 60,
    {
        let secs: u64 = self.remaining_ms / MS_PER_SEC;
        (secs % 60) as u32
    }

    pub fn is_running(&self) -> (r: bool)
        ensures
            r == (self.state is Running),
    {
        self.state == TimerState::Running
    }

    /// Whether the countdown completed naturally: it reached zero and
    /// stopped itself, on a session that was actually configured. A timer
    /// created with a zero duration never reads as finished.
    pub fn is_finished(&self) -> (r: bool)
        ensures
            r == self.spec_is_finished(),
    {
        self.remaining_ms == 0 && self.state == TimerState::Stopped && self.duration > 0
    }
}

impl Default for Timer {
    /// The out-of-the-box session: two stopped minutes.
    fn default() -> (timer: Timer)
        ensures
            timer.wf(),
            timer.duration == 120,
            timer.remaining_ms == 120 * MS_PER_SEC,
            timer.state is Stopped,
    {
        Timer::new(120)
    }
}

/// A toggle never skips a state: from stopped (with time on the clock) the
/// first toggle lands on running and the second on paused.
pub proof fn lemma_toggle_twice_from_stopped(remaining_ms: int)
    requires
        remaining_ms > 0,
    ensures
        toggled_state(TimerState::Stopped, remaining_ms) is Running,
        toggled_state(toggled_state(TimerState::Stopped, remaining_ms), remaining_ms) is Paused,
{
}

/// Advancing the clock outside the running state is a no-op on both the
/// remaining time and the state.
pub proof fn lemma_advance_noop_when_not_running(
    state: TimerState,
    remaining_ms: int,
    elapsed_ms: int,
)
    requires
        !(state is Running),
    ensures
        advanced_remaining(state, remaining_ms, elapsed_ms) == remaining_ms,
        advanced_state(state, remaining_ms, elapsed_ms) == state,
{
}

/// A reset never leaves the finished flag set: it refills the remaining
/// time from the duration, so the flag's zero-remaining and
/// positive-duration conditions exclude one another.
pub proof fn lemma_reset_never_finished(timer: Timer)
    requires
        timer.state is Stopped,
        timer.remaining_ms == timer.duration * MS_PER_SEC,
    ensures
        !timer.spec_is_finished(),
{
}

/// A configured countdown that runs out of time while running lands in the
/// finished reading: remaining exactly zero, stopped, duration positive.
pub proof fn lemma_natural_completion(before: Timer, after: Timer, elapsed_ms: int)
    requires
        before.state is Running,
        before.duration > 0,
        elapsed_ms >= before.remaining_ms,
        after.duration == before.duration,
        after.remaining_ms == advanced_remaining(
            before.state,
            before.remaining_ms as int,
            elapsed_ms,
        ),
        after.state == advanced_state(before.state, before.remaining_ms as int, elapsed_ms),
    ensures
        after.spec_is_finished(),
{
}

} // verus!
