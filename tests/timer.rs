use fixed_timer::display::{remaining_label, Control};
use fixed_timer::timer::{Phase, TimerState, FIXED_DURATION_SECONDS};

fn started_at(now: u64) -> TimerState {
    let mut t = TimerState::new(0);
    t.press_start(now);
    t
}

/// Runs `n` frames one second apart after the last tick; returns how many
/// of them asked for the alarm.
fn tick_seconds(t: &mut TimerState, n: u32) -> u32 {
    let mut alarms = 0;
    for _ in 0..n {
        let now = t.last_tick_ms + 1000;
        if t.on_frame(now).play_alarm {
            alarms += 1;
        }
    }
    alarms
}

fn alarming_at(now: u64) -> TimerState {
    let mut t = started_at(now - 195_000);
    assert_eq!(tick_seconds(&mut t, 195), 1);
    assert_eq!(t.phase, Phase::Alarming);
    assert_eq!(t.last_flash_ms, now);
    t
}

#[test]
fn new_timer_is_idle() {
    let t = TimerState::new(42);
    assert_eq!(t.phase, Phase::Idle);
    assert_eq!(t.remaining_seconds, None);
    assert!(!t.flash_on);
    assert_eq!(t.last_tick_ms, 42);
    assert_eq!(t.last_flash_ms, 42);
}

#[test]
fn idle_frame_changes_nothing() {
    let mut t = TimerState::new(0);
    let out = t.on_frame(10_000);
    assert_eq!(t, TimerState::new(0));
    assert!(!out.repaint);
    assert!(!out.play_alarm);
}

#[test]
fn start_sets_preset_duration() {
    let t = started_at(5_000);
    assert_eq!(FIXED_DURATION_SECONDS, 195);
    assert_eq!(t.phase, Phase::Running);
    assert_eq!(t.remaining_seconds, Some(195));
    assert_eq!(t.last_tick_ms, 5_000);
}

#[test]
fn full_countdown_alarms_once() {
    let mut t = started_at(1_000);
    for k in 1..195u32 {
        let out = t.on_frame(1_000 + 1_000 * k as u64);
        assert!(out.repaint);
        assert!(!out.play_alarm);
        assert_eq!(t.phase, Phase::Running);
        assert_eq!(t.remaining_seconds, Some(195 - k));
    }
    let out = t.on_frame(196_000);
    assert!(out.play_alarm);
    assert!(out.repaint);
    assert_eq!(t.phase, Phase::Alarming);
    assert_eq!(t.remaining_seconds, Some(0));
    assert!(!t.flash_on);
    let mut later = 0;
    for k in 1..20u64 {
        if t.on_frame(196_000 + 300 * k).play_alarm {
            later += 1;
        }
    }
    assert_eq!(later, 0);
    assert_eq!(t.phase, Phase::Alarming);
}

#[test]
fn frames_within_a_second_do_not_tick() {
    let mut t = started_at(10_000);
    let out = t.on_frame(10_999);
    assert!(out.repaint);
    assert_eq!(t.remaining_seconds, Some(195));
    assert_eq!(t.last_tick_ms, 10_000);
    t.on_frame(11_000);
    assert_eq!(t.remaining_seconds, Some(194));
    assert_eq!(t.last_tick_ms, 11_000);
}

#[test]
fn late_frame_ticks_once() {
    let mut t = started_at(0);
    t.on_frame(5_500);
    assert_eq!(t.remaining_seconds, Some(194));
    assert_eq!(t.last_tick_ms, 5_500);
}

#[test]
fn clock_going_back_counts_as_no_time() {
    let mut t = started_at(10_000);
    t.on_frame(3_000);
    assert_eq!(t.remaining_seconds, Some(195));
    assert_eq!(t.last_tick_ms, 10_000);
}

#[test]
fn remaining_never_increases_while_running() {
    let mut t = started_at(0);
    let mut prev = t.remaining_seconds.unwrap();
    let mut now = 0u64;
    while t.phase == Phase::Running {
        now += 700;
        t.on_frame(now);
        let cur = t.remaining_seconds.unwrap();
        assert!(cur <= prev);
        assert!(prev - cur <= 1);
        prev = cur;
    }
    assert_eq!(prev, 0);
    assert_eq!(t.phase, Phase::Alarming);
}

#[test]
fn restart_resets_to_preset() {
    let mut t = started_at(0);
    assert_eq!(tick_seconds(&mut t, 10), 0);
    assert_eq!(t.remaining_seconds, Some(185));
    t.press_start(20_000);
    assert_eq!(t.phase, Phase::Running);
    assert_eq!(t.remaining_seconds, Some(195));
    assert_eq!(t.last_tick_ms, 20_000);
    t.press_start(20_000);
    assert_eq!(t.remaining_seconds, Some(195));
    assert_eq!(tick_seconds(&mut t, 194), 0);
    assert_eq!(t.phase, Phase::Running);
    assert_eq!(tick_seconds(&mut t, 1), 1);
    assert_eq!(t.phase, Phase::Alarming);
}

#[test]
fn start_is_ignored_during_alarm() {
    let mut t = alarming_at(200_000);
    let before = t;
    t.press_start(300_000);
    assert_eq!(t, before);
}

#[test]
fn reset_is_ignored_outside_alarm() {
    let mut t = started_at(0);
    let before = t;
    t.press_reset();
    assert_eq!(t, before);
    let mut idle = TimerState::new(0);
    idle.press_reset();
    assert_eq!(idle, TimerState::new(0));
}

#[test]
fn alarm_begins_dark() {
    let t = alarming_at(400_000);
    assert!(!t.flash_on);
    let s = t.screen();
    assert!(!s.red_background);
}

#[test]
fn flash_toggles_after_half_second() {
    let mut t = alarming_at(1_000_000);
    let out = t.on_frame(1_000_500);
    assert!(!out.repaint);
    assert!(!t.flash_on);
    assert_eq!(t.last_flash_ms, 1_000_000);
    let out = t.on_frame(1_000_501);
    assert!(out.repaint);
    assert!(!out.play_alarm);
    assert!(t.flash_on);
    assert_eq!(t.last_flash_ms, 1_000_501);
    let out = t.on_frame(1_001_002);
    assert!(out.repaint);
    assert!(!t.flash_on);
    assert_eq!(t.phase, Phase::Alarming);
}

#[test]
fn flash_toggles_once_per_period_with_fast_frames() {
    let mut t = alarming_at(1_000_000);
    let mut toggles = 0;
    let mut shown = t.flash_on;
    for k in 1..=3_000u64 {
        t.on_frame(1_000_000 + k);
        if t.flash_on != shown {
            toggles += 1;
            shown = t.flash_on;
        }
    }
    // Toggles at +501, +1002, +1503, +2004, +2505.
    assert_eq!(toggles, 5);
    assert!(t.flash_on);
}

#[test]
fn reset_from_alarm_with_flash_off() {
    let mut t = alarming_at(300_000);
    assert!(!t.flash_on);
    t.press_reset();
    assert_eq!(t.phase, Phase::Idle);
    assert_eq!(t.remaining_seconds, None);
}

#[test]
fn reset_from_alarm_with_flash_on() {
    let mut t = alarming_at(300_000);
    t.on_frame(300_600);
    assert!(t.flash_on);
    t.press_reset();
    assert_eq!(t.phase, Phase::Idle);
    assert_eq!(t.remaining_seconds, None);
}

#[test]
fn reset_shows_idle_screen() {
    let mut t = alarming_at(300_000);
    let s = t.screen();
    assert_eq!(s.heading, "Time's Up!");
    assert_eq!(s.message.as_deref(), Some("The timer has finished."));
    assert_eq!(s.control, Control::Reset);
    t.press_reset();
    let s = t.screen();
    assert_eq!(s.heading, "Fixed Timer: 3m 15s");
    assert_eq!(s.message, None);
    assert_eq!(s.control, Control::Start);
    assert!(!s.red_background);
}

#[test]
fn running_screen_shows_countdown() {
    let mut t = started_at(0);
    let s = t.screen();
    assert_eq!(s.heading, "Fixed Timer: 3m 15s");
    assert_eq!(s.message.as_deref(), Some("Time remaining: 3m 15s"));
    assert_eq!(s.control, Control::Start);
    assert!(!s.red_background);
    tick_seconds(&mut t, 16);
    assert_eq!(t.screen().message.as_deref(), Some("Time remaining: 2m 59s"));
    tick_seconds(&mut t, 170);
    assert_eq!(t.screen().message.as_deref(), Some("Time remaining: 0m 9s"));
}

#[test]
fn alarm_screen_is_red_while_flash_on() {
    let mut t = alarming_at(1_050_000);
    t.on_frame(1_050_501);
    let s = t.screen();
    assert!(s.red_background);
    assert_eq!(s.heading, "Time's Up!");
}

#[test]
fn remaining_label_formats_minutes_and_seconds() {
    assert_eq!(remaining_label(195), "Time remaining: 3m 15s");
    assert_eq!(remaining_label(0), "Time remaining: 0m 0s");
    assert_eq!(remaining_label(60), "Time remaining: 1m 0s");
    assert_eq!(remaining_label(59), "Time remaining: 0m 59s");
    assert_eq!(remaining_label(600), "Time remaining: 10m 0s");
    assert_eq!(remaining_label(u32::MAX), "Time remaining: 71582788m 15s");
}

#[test]
fn control_labels() {
    assert_eq!(Control::Start.label(), "Start Timer");
    assert_eq!(Control::Reset.label(), "Reset Timer");
}
