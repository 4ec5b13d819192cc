//! The session timer that a host drives once per frame.

use vstd::prelude::*;

use crate::model::{
    StatusTag, TimerModel, TimerState, DEFAULT_MINUTES, MAX_MINUTES,
    MIN_MINUTES, MS_PER_SECOND, SECONDS_PER_MINUTE,
};

verus! {

/// Why a command was refused. A refused command leaves the timer as it was.
#[derive(Clone, Copy, Debug, PartialEq, Eq, Structural)]
pub enum TimerError {
    /// A session length outside the accepted range of minutes.
    InvalidDuration,
    /// A command that the current state does not support.
    InvalidTransition,
}

/// A single countdown session, fed clock readings in milliseconds.
pub struct SessionTimer {
    configured_minutes: u64,
    remaining_seconds: u64,
    state: TimerState,
    last_tick_ms: Option<u64>,
}

impl View for SessionTimer {
    type V = TimerModel;

    closed spec fn view(&self) -> TimerModel {
        TimerModel {
            configured_minutes: self.configured_minutes as nat,
            remaining: self.remaining_seconds as nat,
            state: self.state,
            last_tick: match self.last_tick_ms {
                Some(t) => Some(t as nat),
                None => None,
            },
        }
    }
}

impl SessionTimer {
    /// The timer is well formed: see `TimerModel::wf`.
    pub open spec fn wf(&self) -> bool {
        self@.wf()
    }

    /// An idle timer with the default session length.
    pub fn new() -> (r: SessionTimer)
        ensures
            r.wf(),
            r@ == TimerModel::initial(),
    {
        SessionTimer {
            configured_minutes: DEFAULT_MINUTES,
            remaining_seconds: 0,
            state: TimerState::Idle,
            last_tick_ms: None,
        }
    }

    pub fn state(&self) -> (r: TimerState)
        ensures
            r == self@.state,
    {
        self.state
    }

    /// Seconds left in the session; zero while no session is active.
    pub fn remaining_seconds(&self) -> (r: u64)
        ensures
            r == self@.remaining,
    {
        self.remaining_seconds
    }

    /// The configured session length in minutes.
    pub fn configured_minutes(&self) -> (r: u64)
        ensures
            r == self@.configured_minutes,
    {
        self.configured_minutes
    }

    /// The last second boundary consumed, while running.
    pub fn last_tick_ms(&self) -> (r: Option<u64>)
        ensures
            r matches Some(t) ==> self@.last_tick == Some(t as nat),
            r is None ==> self@.last_tick is None,
    {
        self.last_tick_ms
    }

    pub fn is_active(&self) -> (r: bool)
        ensures
            r == self@.is_active(),
    {
        match self.state {
            TimerState::Running | TimerState::Paused => true,
            _ => false,
        }
    }

    pub fn display_seconds(&self) -> (r: u64)
        requires
            self.wf(),
        ensures
            r == self@.display_seconds(),
    {
        if self.is_active() {
            self.remaining_seconds
        } else {
            self.configured_minutes * SECONDS_PER_MINUTE
        }
    }

    pub fn status_label(&self) -> (r: Option<StatusTag>)
        ensures
            r == self@.status_label(),
    {
        match self.state {
            TimerState::Running => Some(StatusTag::Focus),
            TimerState::Paused => Some(StatusTag::Paused),
            _ => None,
        }
    }

    /// Sets the session length, in minutes, of an idle timer.
    pub fn set_duration(&mut self, minutes: u64) -> (r: Result<(), TimerError>)
        requires
            old(self).wf(),
        ensures
            final(self).wf(),
            r is Ok <==> TimerModel::duration_in_range(minutes as nat) && old(self)@.state
                == TimerState::Idle,
            !TimerModel::duration_in_range(minutes as nat) <==> r == Err::<(), TimerError>(
                TimerError::InvalidDuration,
            ),
            TimerModel::duration_in_range(minutes as nat) && old(self)@.state != TimerState::Idle
                <==> r == Err::<(), TimerError>(TimerError::InvalidTransition),
            r is Ok ==> final(self)@ == old(self)@.with_duration(minutes as nat),
            r is Err ==> final(self)@ == old(self)@,
    {
        if minutes < MIN_MINUTES || minutes > MAX_MINUTES {
            return Err(TimerError::InvalidDuration);
        }
        if self.state != TimerState::Idle {
            return Err(TimerError::InvalidTransition);
        }
        self.configured_minutes = minutes;
        Ok(())
    }

    /// Starts a session of the configured length at clock reading `now_ms`.
    pub fn start(&mut self, now_ms: u64) -> (r: Result<(), TimerError>)
        requires
            old(self).wf(),
        ensures
            final(self).wf(),
            r is Ok <==> old(self)@.state == TimerState::Idle,
            r is Err ==> r == Err::<(), TimerError>(TimerError::InvalidTransition),
            r is Ok ==> final(self)@ == old(self)@.started(now_ms as nat),
            r is Err ==> final(self)@ == old(self)@,
    {
        if self.state != TimerState::Idle {
            return Err(TimerError::InvalidTransition);
        }
        self.remaining_seconds = self.configured_minutes * SECONDS_PER_MINUTE;
        self.state = TimerState::Running;
        self.last_tick_ms = Some(now_ms);
        Ok(())
    }

    /// Freezes a running session.
    pub fn pause(&mut self) -> (r: Result<(), TimerError>)
        requires
            old(self).wf(),
        ensures
            final(self).wf(),
            r is Ok <==> old(self)@.state == TimerState::Running,
            r is Err ==> r == Err::<(), TimerError>(TimerError::InvalidTransition),
            r is Ok ==> final(self)@ == old(self)@.paused(),
            r is Err ==> final(self)@ == old(self)@,
    {
        if self.state != TimerState::Running {
            return Err(TimerError::InvalidTransition);
        }
        self.state = TimerState::Paused;
        self.last_tick_ms = None;
        Ok(())
    }

    /// Continues a paused session, counting from clock reading `now_ms`.
    pub fn resume(&mut self, now_ms: u64) -> (r: Result<(), TimerError>)
        requires
            old(self).wf(),
        ensures
            final(self).wf(),
            r is Ok <==> old(self)@.state == TimerState::Paused,
            r is Err ==> r == Err::<(), TimerError>(TimerError::InvalidTransition),
            r is Ok ==> final(self)@ == old(self)@.resumed(now_ms as nat),
            r is Err ==> final(self)@ == old(self)@,
    {
        if self.state != TimerState::Paused {
            return Err(TimerError::InvalidTransition);
        }
        self.state = TimerState::Running;
        self.last_tick_ms = Some(now_ms);
        Ok(())
    }

    /// Ends any session and returns to idle.
    pub fn stop(&mut self)
        requires
            old(self).wf(),
        ensures
            final(self).wf(),
            final(self)@ == old(self)@.stopped(),
    {
        self.remaining_seconds = 0;
        self.state = TimerState::Idle;
        self.last_tick_ms = None;
    }

    /// One frame at clock reading `now_ms`: consumes every whole second that
    /// has elapsed since the last tick, keeping the sub-second remainder.
    pub fn advance(&mut self, now_ms: u64)
        requires
            old(self).wf(),
        ensures
            final(self).wf(),
            final(self)@ == old(self)@.advanced(now_ms as nat),
    {
        if self.state != TimerState::Running {
            return;
        }
        let last = match self.last_tick_ms {
            Some(t) => t,
            None => {
                return;
            },
        };
        if now_ms < last {
            return;
        }
        let k: u64 = (now_ms - last) / MS_PER_SECOND;
        if k >= self.remaining_seconds {
            self.remaining_seconds = 0;
            self.state = TimerState::Expired;
            self.last_tick_ms = None;
        } else {
            assert(k as int * 1000 <= now_ms as int - last as int) by (nonlinear_arith)
                requires
                    k as int == (now_ms as int - last as int) / 1000,
                    now_ms >= last,
            ;
            self.remaining_seconds = self.remaining_seconds - k;
            self.last_tick_ms = Some(last + k * MS_PER_SECOND);
        }
    }
}

impl Default for SessionTimer {
    fn default() -> (r: SessionTimer)
        ensures
            r.wf(),
            r@ == TimerModel::initial(),
    {
        SessionTimer::new()
    }
}

} // verus!
