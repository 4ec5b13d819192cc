use ticktoro::{SessionTimer, StatusTag, TimerError, TimerState, DEFAULT_MINUTES};

fn running(minutes: u64, at_ms: u64) -> SessionTimer {
    let mut t = SessionTimer::new();
    assert_eq!(t.set_duration(minutes), Ok(()));
    assert_eq!(t.start(at_ms), Ok(()));
    t
}

#[test]
fn new_timer_is_idle_with_default_length() {
    let t = SessionTimer::new();
    assert_eq!(t.state(), TimerState::Idle);
    assert_eq!(t.configured_minutes(), DEFAULT_MINUTES);
    assert_eq!(t.configured_minutes(), 25);
    assert_eq!(t.remaining_seconds(), 0);
    assert_eq!(t.display_seconds(), 1500);
    assert!(!t.is_active());
    assert_eq!(t.status_label(), None);
    assert_eq!(t.last_tick_ms(), None);
    let d = SessionTimer::default();
    assert_eq!(d.state(), TimerState::Idle);
    assert_eq!(d.configured_minutes(), 25);
}

#[test]
fn start_counts_from_configured_length() {
    let t = running(2, 5_000);
    assert_eq!(t.state(), TimerState::Running);
    assert_eq!(t.remaining_seconds(), 120);
    assert_eq!(t.display_seconds(), 120);
    assert_eq!(t.last_tick_ms(), Some(5_000));
    assert!(t.is_active());
    assert_eq!(t.status_label(), Some(StatusTag::Focus));
}

#[test]
fn advance_never_increases_remaining() {
    let mut t = running(1, 0);
    let times: [u64; 10] = [0, 300, 999, 1_000, 1_000, 2_750, 2_700, 10_001, 30_000, 59_999];
    let mut before = t.remaining_seconds();
    for now in times {
        t.advance(now);
        let after = t.remaining_seconds();
        assert!(after <= before);
        before = after;
    }
    assert_eq!(t.state(), TimerState::Running);
    assert_eq!(t.remaining_seconds(), 1);
}

#[test]
fn advance_twice_at_same_reading_changes_nothing() {
    let mut t = running(1, 0);
    t.advance(2_500);
    assert_eq!(t.remaining_seconds(), 58);
    assert_eq!(t.last_tick_ms(), Some(2_000));
    t.advance(2_500);
    assert_eq!(t.remaining_seconds(), 58);
    assert_eq!(t.last_tick_ms(), Some(2_000));
}

#[test]
fn sub_second_frames_carry_their_remainder() {
    let mut t = running(1, 1_000);
    for i in 1..=9u64 {
        t.advance(1_000 + 400 * i);
    }
    assert_eq!(t.remaining_seconds(), 57);
    assert_eq!(t.last_tick_ms(), Some(4_000));
}

#[test]
fn a_stalled_frame_consumes_every_whole_second() {
    let mut t = running(1, 0);
    t.advance(7_300);
    assert_eq!(t.remaining_seconds(), 53);
    assert_eq!(t.last_tick_ms(), Some(7_000));
}

#[test]
fn clock_reading_before_last_tick_changes_nothing() {
    let mut t = running(1, 10_000);
    t.advance(4_000);
    assert_eq!(t.remaining_seconds(), 60);
    assert_eq!(t.last_tick_ms(), Some(10_000));
}

#[test]
fn paused_time_never_counts() {
    let mut t = running(1, 0);
    t.advance(5_000);
    assert_eq!(t.pause(), Ok(()));
    assert_eq!(t.state(), TimerState::Paused);
    assert_eq!(t.status_label(), Some(StatusTag::Paused));
    assert_eq!(t.last_tick_ms(), None);
    t.advance(50_000);
    t.advance(105_000);
    assert_eq!(t.remaining_seconds(), 55);
    assert_eq!(t.display_seconds(), 55);
    assert_eq!(t.resume(105_000), Ok(()));
    t.advance(110_000);
    assert_eq!(t.remaining_seconds(), 50);
    assert_eq!(t.state(), TimerState::Running);
}

#[test]
fn session_expires_and_stays_expired() {
    let mut t = running(1, 0);
    t.advance(60_000);
    assert_eq!(t.state(), TimerState::Expired);
    assert_eq!(t.remaining_seconds(), 0);
    assert_eq!(t.last_tick_ms(), None);
    assert_eq!(t.status_label(), None);
    assert!(!t.is_active());
    assert_eq!(t.display_seconds(), 60);
    t.advance(61_000);
    t.advance(500_000);
    assert_eq!(t.state(), TimerState::Expired);
    assert_eq!(t.remaining_seconds(), 0);
}

#[test]
fn one_long_frame_expires_without_underflow() {
    let mut t = running(1, 0);
    t.advance(10_000_000);
    assert_eq!(t.state(), TimerState::Expired);
    assert_eq!(t.remaining_seconds(), 0);
}

#[test]
fn stop_resets_from_every_state() {
    let mut r = running(3, 0);
    r.advance(4_000);
    r.stop();
    assert_eq!(r.state(), TimerState::Idle);
    assert_eq!(r.display_seconds(), 180);
    assert_eq!(r.remaining_seconds(), 0);

    let mut p = running(3, 0);
    assert_eq!(p.pause(), Ok(()));
    p.stop();
    assert_eq!(p.state(), TimerState::Idle);
    assert_eq!(p.display_seconds(), 180);

    let mut e = running(3, 0);
    e.advance(180_000);
    assert_eq!(e.state(), TimerState::Expired);
    e.stop();
    assert_eq!(e.state(), TimerState::Idle);
    assert_eq!(e.display_seconds(), 180);
    assert_eq!(e.last_tick_ms(), None);

    let mut i = SessionTimer::new();
    i.stop();
    assert_eq!(i.state(), TimerState::Idle);
    assert_eq!(i.display_seconds(), 1500);
}

#[test]
fn set_duration_boundaries() {
    let mut t = SessionTimer::new();
    assert_eq!(t.set_duration(0), Err(TimerError::InvalidDuration));
    assert_eq!(t.configured_minutes(), 25);
    assert_eq!(t.state(), TimerState::Idle);
    assert_eq!(t.set_duration(61), Err(TimerError::InvalidDuration));
    assert_eq!(t.configured_minutes(), 25);
    assert_eq!(t.set_duration(1), Ok(()));
    assert_eq!(t.configured_minutes(), 1);
    assert_eq!(t.display_seconds(), 60);
    assert_eq!(t.set_duration(60), Ok(()));
    assert_eq!(t.configured_minutes(), 60);
    assert_eq!(t.display_seconds(), 3600);
}

#[test]
fn set_duration_only_while_idle() {
    let mut t = running(5, 0);
    assert_eq!(t.set_duration(10), Err(TimerError::InvalidTransition));
    assert_eq!(t.configured_minutes(), 5);
    assert_eq!(t.set_duration(0), Err(TimerError::InvalidDuration));
    assert_eq!(t.pause(), Ok(()));
    assert_eq!(t.set_duration(10), Err(TimerError::InvalidTransition));
    t.stop();
    assert_eq!(t.set_duration(10), Ok(()));
    assert_eq!(t.configured_minutes(), 10);
}

#[test]
fn commands_refused_in_wrong_state() {
    let mut t = SessionTimer::new();
    assert_eq!(t.resume(0), Err(TimerError::InvalidTransition));
    assert_eq!(t.pause(), Err(TimerError::InvalidTransition));
    assert_eq!(t.state(), TimerState::Idle);

    let mut r = running(1, 0);
    assert_eq!(r.start(100), Err(TimerError::InvalidTransition));
    assert_eq!(r.resume(100), Err(TimerError::InvalidTransition));
    assert_eq!(r.last_tick_ms(), Some(0));
    assert_eq!(r.remaining_seconds(), 60);

    assert_eq!(r.pause(), Ok(()));
    assert_eq!(r.pause(), Err(TimerError::InvalidTransition));
    assert_eq!(r.start(100), Err(TimerError::InvalidTransition));
    assert_eq!(r.state(), TimerState::Paused);

    let mut e = running(1, 0);
    e.advance(60_000);
    assert_eq!(e.start(70_000), Err(TimerError::InvalidTransition));
    assert_eq!(e.pause(), Err(TimerError::InvalidTransition));
    assert_eq!(e.resume(70_000), Err(TimerError::InvalidTransition));
    assert_eq!(e.state(), TimerState::Expired);
}

#[test]
fn resume_restamps_the_tick() {
    let mut t = running(1, 0);
    t.advance(1_700);
    assert_eq!(t.pause(), Ok(()));
    assert_eq!(t.resume(9_000), Ok(()));
    assert_eq!(t.last_tick_ms(), Some(9_000));
    t.advance(9_999);
    assert_eq!(t.remaining_seconds(), 59);
    t.advance(10_000);
    assert_eq!(t.remaining_seconds(), 58);
}
