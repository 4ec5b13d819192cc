//! What holds of the timer's transitions across calls.

use vstd::prelude::*;

use crate::model::{
    advanced_through, elapsed_whole_seconds, TimerModel, TimerState, MS_PER_SECOND,
    SECONDS_PER_MINUTE,
};

verus! {

/// A frame never adds time: the seconds left after `advance` are at most
/// those before, and the timer stays well formed.
pub proof fn lemma_advance_never_increases(m: TimerModel, now: nat)
    requires
        m.wf(),
    ensures
        m.advanced(now).wf(),
        m.advanced(now).remaining <= m.remaining,
{
    if m.state == TimerState::Running {
        let last = m.last_tick->Some_0;
        let k = elapsed_whole_seconds(last, now);
        if now >= last {
            assert(k * MS_PER_SECOND <= now - last) by (nonlinear_arith)
                requires
                    k == (now - last) / 1000int,
                    now >= last,
            ;
        }
    }
}

/// Along any run of frames, the seconds left never grow from one frame to a
/// later one.
pub proof fn lemma_advance_sequence_never_increases(m: TimerModel, times: Seq<nat>)
    requires
        m.wf(),
    ensures
        advanced_through(m, times).wf(),
        forall|i: int, j: int|
            0 <= i <= j <= times.len() ==> #[trigger] advanced_through(m, times.take(j)).remaining
                <= #[trigger] advanced_through(m, times.take(i)).remaining,
    decreases times.len(),
{
    if times.len() == 0 {
        assert forall|i: int, j: int| 0 <= i <= j <= times.len() implies #[trigger] advanced_through(
            m,
            times.take(j),
        ).remaining <= #[trigger] advanced_through(m, times.take(i)).remaining by {
            assert(times.take(i) =~= times.take(j));
        }
    } else {
        let p = times.drop_last();
        lemma_advance_sequence_never_increases(m, p);
        let before = advanced_through(m, p);
        lemma_advance_never_increases(before, times.last());
        assert forall|i: int, j: int| 0 <= i <= j <= times.len() implies #[trigger] advanced_through(
            m,
            times.take(j),
        ).remaining <= #[trigger] advanced_through(m, times.take(i)).remaining by {
            if j < times.len() {
                assert(times.take(j) =~= p.take(j));
                assert(times.take(i) =~= p.take(i));
            } else {
                assert(times.take(j) =~= times);
                assert(p.take(p.len() as int) =~= p);
                if i < times.len() {
                    assert(times.take(i) =~= p.take(i));
                    assert(advanced_through(m, p.take(p.len() as int)).remaining <= advanced_through(
                        m,
                        p.take(i),
                    ).remaining);
                }
            }
        }
    }
}

/// A second frame at the same clock reading changes nothing.
pub proof fn lemma_advance_idempotent(m: TimerModel, now: nat)
    requires
        m.wf(),
    ensures
        m.advanced(now).advanced(now) == m.advanced(now),
{
    lemma_advance_in_steps(m, now, now);
}

/// Advancing through an earlier reading and then a later one ends where a
/// single frame at the later reading would: sub-second remainders carry over
/// from frame to frame, and no whole second is lost or counted twice.
pub proof fn lemma_advance_in_steps(m: TimerModel, t1: nat, t2: nat)
    requires
        m.wf(),
        t1 <= t2,
    ensures
        m.advanced(t1).advanced(t2) == m.advanced(t2),
{
    if m.state == TimerState::Running && t1 >= m.last_tick->Some_0 {
        let last = m.last_tick->Some_0;
        let a = (t2 - last) as int;
        let k1 = elapsed_whole_seconds(last, t1) as int;
        assert(k1 * 1000 <= t1 - last && (a - k1 * 1000) / 1000 == a / 1000 - k1
            && a / 1000 >= k1) by (nonlinear_arith)
            requires
                k1 == (t1 - last) / 1000int,
                t1 >= last,
                t2 >= t1,
                a == t2 - last,
        ;
    }
}

/// Time spent paused never counts: after a pause and a resume at any reading
/// `r`, a frame `d` milliseconds later leaves the same seconds and state as a
/// frame `d` milliseconds after the last tick would have without the pause;
/// frames while paused change nothing.
pub proof fn lemma_pause_time_excluded(m: TimerModel, t: nat, r: nat, d: nat)
    requires
        m.wf(),
        m.state == TimerState::Running,
    ensures
        m.paused().advanced(t) == m.paused(),
        m.paused().resumed(r).advanced(r + d).remaining == m.advanced(
            m.last_tick->Some_0 + d,
        ).remaining,
        m.paused().resumed(r).advanced(r + d).state == m.advanced(m.last_tick->Some_0 + d).state,
{
}

/// Once the whole seconds elapsed cover what was left, a frame expires the
/// session with nothing left, and later frames keep it so.
pub proof fn lemma_expiry_is_final(m: TimerModel, now: nat, later: nat)
    requires
        m.wf(),
        m.state == TimerState::Running,
        m.remaining <= elapsed_whole_seconds(m.last_tick->Some_0, now),
    ensures
        m.advanced(now).state == TimerState::Expired,
        m.advanced(now).remaining == 0,
        m.advanced(now).advanced(later) == m.advanced(now),
{
}

/// Stopping from any state returns to idle, keeps the session length, and
/// shows that length again.
pub proof fn lemma_stop_resets(m: TimerModel)
    requires
        m.wf(),
    ensures
        m.stopped().wf(),
        m.stopped().state == TimerState::Idle,
        m.stopped().configured_minutes == m.configured_minutes,
        m.stopped().display_seconds() == m.configured_minutes * SECONDS_PER_MINUTE,
{
}

} // verus!
