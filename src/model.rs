//! The mathematical model of a session timer and its transitions.

use vstd::prelude::*;

verus! {

/// Shortest session that can be configured, in minutes.
pub const MIN_MINUTES: u64 = 1;

/// Longest session that can be configured, in minutes.
pub const MAX_MINUTES: u64 = 60;

/// Session length of a freshly created timer, in minutes.
pub const DEFAULT_MINUTES: u64 = 25;

/// Clock ticks (milliseconds) in one second.
pub const MS_PER_SECOND: u64 = 1000;

/// Seconds in one minute.
pub const SECONDS_PER_MINUTE: u64 = 60;

/// The phase a timer is in.
#[derive(Clone, Copy, Debug, PartialEq, Eq, Structural)]
pub enum TimerState {
    Idle,
    Running,
    Paused,
    Expired,
}

/// A presentation-neutral label for the phase of an active session.
#[derive(Clone, Copy, Debug, PartialEq, Eq, Structural)]
pub enum StatusTag {
    Focus,
    Paused,
}

/// Whole seconds that lie between the reference instant `last` and `now`
/// (both in milliseconds); none when the clock reads earlier than `last`.
pub open spec fn elapsed_whole_seconds(last: nat, now: nat) -> nat {
    if now >= last {
        ((now - last) as nat / MS_PER_SECOND as nat) as nat
    } else {
        0
    }
}

/// What a session timer holds, as mathematical values.
pub struct TimerModel {
    /// Session length in minutes.
    pub configured_minutes: nat,
    /// Seconds left in the session; zero unless a session is active.
    pub remaining: nat,
    pub state: TimerState,
    /// The last second boundary consumed, in milliseconds; present exactly
    /// while running.
    pub last_tick: Option<nat>,
}

impl TimerModel {
    pub open spec fn wf(self) -> bool {
        &&& MIN_MINUTES <= self.configured_minutes <= MAX_MINUTES
        &&& self.remaining <= self.configured_minutes * SECONDS_PER_MINUTE
        &&& (self.last_tick is Some <==> self.state == TimerState::Running)
        &&& (self.is_active() ==> self.remaining > 0)
        &&& (self.state == TimerState::Idle || self.state == TimerState::Expired
            ==> self.remaining == 0)
    }

    pub open spec fn with(self, remaining: nat, state: TimerState, last_tick: Option<nat>) -> TimerModel {
        TimerModel { configured_minutes: self.configured_minutes, remaining, state, last_tick }
    }

    /// A fresh timer: idle, with the default session length.
    pub open spec fn initial() -> TimerModel {
        TimerModel {
            configured_minutes: DEFAULT_MINUTES as nat,
            remaining: 0,
            state: TimerState::Idle,
            last_tick: None,
        }
    }

    pub open spec fn is_active(self) -> bool {
        self.state == TimerState::Running || self.state == TimerState::Paused
    }

    /// Seconds to show: what is left of an active session, otherwise the
    /// length of the configured session.
    pub open spec fn display_seconds(self) -> nat {
        if self.is_active() {
            self.remaining
        } else {
            (self.configured_minutes * SECONDS_PER_MINUTE) as nat
        }
    }

    pub open spec fn status_label(self) -> Option<StatusTag> {
        match self.state {
            TimerState::Running => Some(StatusTag::Focus),
            TimerState::Paused => Some(StatusTag::Paused),
            _ => None,
        }
    }

    pub open spec fn duration_in_range(minutes: nat) -> bool {
        MIN_MINUTES <= minutes <= MAX_MINUTES
    }

    /// The session length changed to `minutes`; only an idle timer is
    /// reconfigured.
    pub open spec fn with_duration(self, minutes: nat) -> TimerModel {
        TimerModel { configured_minutes: minutes, ..self }
    }

    pub open spec fn started(self, now: nat) -> TimerModel {
        self.with((self.configured_minutes * SECONDS_PER_MINUTE) as nat, TimerState::Running, Some(now))
    }

    pub open spec fn paused(self) -> TimerModel {
        self.with(self.remaining, TimerState::Paused, None)
    }

    pub open spec fn resumed(self, now: nat) -> TimerModel {
        self.with(self.remaining, TimerState::Running, Some(now))
    }

    pub open spec fn stopped(self) -> TimerModel {
        self.with(0, TimerState::Idle, None)
    }

    /// One frame at clock reading `now`: a running timer consumes every whole
    /// second elapsed since its last tick, moves the tick forward by exactly
    /// those seconds, and expires once nothing is left; otherwise nothing
    /// changes.
    pub open spec fn advanced(self, now: nat) -> TimerModel {
        if self.state == TimerState::Running && self.last_tick is Some {
            let last = self.last_tick->Some_0;
            let k = elapsed_whole_seconds(last, now);
            if k >= self.remaining {
                self.with(0, TimerState::Expired, None)
            } else {
                self.with(
                    (self.remaining - k) as nat,
                    TimerState::Running,
                    Some((last + k * MS_PER_SECOND) as nat),
                )
            }
        } else {
            self
        }
    }
}

/// The model after one frame at each clock reading of `times`, in order.
pub open spec fn advanced_through(m: TimerModel, times: Seq<nat>) -> TimerModel
    decreases times.len(),
{
    if times.len() == 0 {
        m
    } else {
        advanced_through(m, times.drop_last()).advanced(times.last())
    }
}

} // verus!
