use vstd::prelude::*;
use crate::timer::{TimerState, FIXED_DURATION_SECONDS, FLASH_MS, TICK_MS};

verus! {

/// The instant one full tick after the last decrement.
pub open spec fn next_tick_time(s: TimerState) -> u64 {
    (s.last_tick_ms + TICK_MS) as u64
}

/// The state after `n` frames, each arriving exactly one tick after the
/// previous decrement.
pub open spec fn after_ticks(s: TimerState, n: nat) -> TimerState
    decreases n,
{
    if n == 0 {
        s
    } else {
        let p = after_ticks(s, (n - 1) as nat);
        p.after_frame(next_tick_time(p))
    }
}

/// How many of those `n` frames asked for the alarm to be played.
pub open spec fn alarms_in_ticks(s: TimerState, n: nat) -> nat
    decreases n,
{
    if n == 0 {
        0
    } else {
        let p = after_ticks(s, (n - 1) as nat);
        alarms_in_ticks(s, (n - 1) as nat) + if p.frame_outcome(next_tick_time(p)).play_alarm {
            1nat
        } else {
            0nat
        }
    }
}

/// The instant just past one flash period after the last toggle.
pub open spec fn next_flash_time(s: TimerState) -> u64 {
    (s.last_flash_ms + FLASH_MS + 1) as u64
}

/// The state after `n` frames, each arriving just past one flash period
/// after the previous toggle.
pub open spec fn after_flash_frames(s: TimerState, n: nat) -> TimerState
    decreases n,
{
    if n == 0 {
        s
    } else {
        let p = after_flash_frames(s, (n - 1) as nat);
        p.after_frame(next_flash_time(p))
    }
}

proof fn lemma_ticks_prefix(s: TimerState, d: u32, k: nat)
    requires
        s.wf(),
        s.phase is Running,
        s.remaining_seconds == Some(d),
        s.last_tick_ms + TICK_MS * d <= u64::MAX,
        k <= d,
    ensures
        after_ticks(s, k).last_tick_ms == s.last_tick_ms + TICK_MS * k,
        k < d ==> after_ticks(s, k).phase is Running,
        k < d ==> after_ticks(s, k).remaining_seconds == Some((d - k) as u32),
        k < d ==> alarms_in_ticks(s, k) == 0,
        k == d ==> after_ticks(s, k).phase is Alarming,
        k == d ==> alarms_in_ticks(s, k) == 1,
    decreases k,
{
    if k > 0 {
        lemma_ticks_prefix(s, d, (k - 1) as nat);
        let p = after_ticks(s, (k - 1) as nat);
        assert(TICK_MS * k == TICK_MS * (k - 1) + TICK_MS) by (nonlinear_arith);
        assert(TICK_MS * k <= TICK_MS * d) by (nonlinear_arith)
            requires k <= d;
        assert(p.tick_due(next_tick_time(p)));
    }
}

/// A running countdown with `d` seconds left stays running, one second less
/// after each tick, for `d - 1` ticks, and is alarming after exactly `d`
/// ticks; over those ticks the alarm is played exactly once.
pub proof fn lemma_countdown_reaches_alarm(s: TimerState, d: u32)
    requires
        s.wf(),
        s.phase is Running,
        s.remaining_seconds == Some(d),
        s.last_tick_ms + TICK_MS * d <= u64::MAX,
    ensures
        forall|k: nat|
            k < d ==> (#[trigger] after_ticks(s, k)).phase is Running && after_ticks(
                s,
                k,
            ).remaining_seconds == Some((d - k) as u32),
        after_ticks(s, d as nat).phase is Alarming,
        alarms_in_ticks(s, d as nat) == 1,
{
    assert forall|k: nat| k < d implies (#[trigger] after_ticks(s, k)).phase is Running
        && after_ticks(s, k).remaining_seconds == Some((d - k) as u32) by {
        lemma_ticks_prefix(s, d, k);
    }
    lemma_ticks_prefix(s, d, d as nat);
}

/// Pressing start on an idle timer and letting the preset number of seconds
/// tick by brings the timer to its alarm, with the alarm played exactly once.
pub proof fn lemma_started_timer_alarms_after_preset(s: TimerState, now: u64)
    requires
        s.wf(),
        s.phase is Idle,
        now + TICK_MS * FIXED_DURATION_SECONDS <= u64::MAX,
    ensures
        s.after_start(now).phase is Running,
        s.after_start(now).remaining_seconds == Some(FIXED_DURATION_SECONDS),
        after_ticks(s.after_start(now), FIXED_DURATION_SECONDS as nat).phase is Alarming,
        alarms_in_ticks(s.after_start(now), FIXED_DURATION_SECONDS as nat) == 1,
{
    lemma_countdown_reaches_alarm(s.after_start(now), FIXED_DURATION_SECONDS);
}

/// While running, a frame never raises the seconds left, lowers them by at
/// most one, and leaves a count that is present and, if still running,
/// positive.
pub proof fn lemma_remaining_never_increases(s: TimerState, now: u64)
    requires
        s.wf(),
        s.phase is Running,
    ensures
        s.after_frame(now).remaining_seconds is Some,
        s.after_frame(now).remaining_seconds->0 <= s.remaining_seconds->0,
        s.remaining_seconds->0 <= s.after_frame(now).remaining_seconds->0 + 1,
        s.after_frame(now).phase is Running ==> s.after_frame(now).remaining_seconds->0 > 0,
        s.after_frame(now).wf(),
{
}

/// The alarm begins with the flash off, its period measured from that frame.
pub proof fn lemma_alarm_begins_dark(s: TimerState, now: u64)
    requires
        s.phase is Running,
        s.after_frame(now).phase is Alarming,
    ensures
        !s.after_frame(now).flash_on,
        s.after_frame(now).last_flash_ms == now,
        s.frame_outcome(now).play_alarm,
{
}

/// While alarming, a frame toggles the flash exactly when more than one flash
/// period has passed since the last toggle, and then restarts the period;
/// otherwise nothing changes. The timer stays alarming.
pub proof fn lemma_flash_toggles_per_period(s: TimerState, now: u64)
    requires
        s.phase is Alarming,
    ensures
        s.after_frame(now).phase is Alarming,
        (s.after_frame(now).flash_on != s.flash_on) == s.flash_due(now),
        s.flash_due(now) ==> s.after_frame(now).last_flash_ms == now,
        !s.flash_due(now) ==> s.after_frame(now) == s,
        !s.frame_outcome(now).play_alarm,
{
}

/// While alarming, frames that each come just past one flash period after
/// the last toggle turn the flash over once each: after `n` of them it shows
/// its first value if `n` is even, the other one if `n` is odd.
pub proof fn lemma_flash_alternates(s: TimerState, n: nat)
    requires
        s.phase is Alarming,
        s.last_flash_ms + (FLASH_MS + 1) * n <= u64::MAX,
    ensures
        after_flash_frames(s, n).phase is Alarming,
        after_flash_frames(s, n).flash_on == (s.flash_on != (n % 2 == 1)),
        after_flash_frames(s, n).last_flash_ms == s.last_flash_ms + (FLASH_MS + 1) * n,
    decreases n,
{
    if n > 0 {
        assert((FLASH_MS + 1) * n == (FLASH_MS + 1) * (n - 1) + (FLASH_MS + 1)) by (nonlinear_arith);
        assert((FLASH_MS + 1) * (n - 1) <= (FLASH_MS + 1) * n) by (nonlinear_arith);
        lemma_flash_alternates(s, (n - 1) as nat);
        let p = after_flash_frames(s, (n - 1) as nat);
        assert(p.flash_due(next_flash_time(p)));
    } else {
        assert((FLASH_MS + 1) * n == 0) by (nonlinear_arith)
            requires n == 0;
    }
}

/// Reset during the alarm always returns to idle with no seconds left,
/// whatever the flash shows.
pub proof fn lemma_reset_from_alarm(s: TimerState)
    requires
        s.wf(),
        s.phase is Alarming,
    ensures
        s.after_reset().phase is Idle,
        s.after_reset().remaining_seconds is None,
        s.after_reset().wf(),
{
}

} // verus!
