use vstd::prelude::*;

verus! {

/// The preset countdown length, in seconds: three minutes and fifteen seconds.
pub const FIXED_DURATION_SECONDS: u32 = 195;

/// Milliseconds that must pass between two decrements of the countdown.
pub const TICK_MS: u64 = 1000;

/// The flash toggles once strictly more than this many milliseconds have passed.
pub const FLASH_MS: u64 = 500;

/// The three modes of the countdown.
#[derive(Clone, Copy, Debug, PartialEq, Eq, Structural)]
pub enum Phase {
    Idle,
    Running,
    Alarming,
}

/// What the host should do after a frame has been handled.
#[derive(Clone, Copy, Debug, PartialEq, Eq, Structural)]
pub struct FrameOutcome {
    /// Ask the host for another frame soon.
    pub repaint: bool,
    /// Play the alarm sound once, now.
    pub play_alarm: bool,
}

/// The whole mutable state of the timer. Instants are milliseconds on a
/// monotonic clock chosen by the host.
#[derive(Clone, Copy, Debug, PartialEq, Eq, Structural)]
pub struct TimerState {
    pub phase: Phase,
    /// Seconds left; present while running and when the alarm has just begun.
    pub remaining_seconds: Option<u32>,
    /// Whether the red flash is visible while alarming.
    pub flash_on: bool,
    /// Last instant at which the countdown was decremented (or started).
    pub last_tick_ms: u64,
    /// Last instant at which the flash was toggled (or the alarm began).
    pub last_flash_ms: u64,
}

/// Milliseconds from `since` to `now`; zero if `now` comes first.
pub open spec fn elapsed_ms(now: u64, since: u64) -> int {
    if now >= since {
        now - since
    } else {
        0
    }
}

impl TimerState {
    /// The state invariant: no remaining time when idle, a positive count no
    /// larger than the preset while running, and exactly zero while alarming.
    pub open spec fn wf(self) -> bool {
        match self.phase {
            Phase::Idle => self.remaining_seconds is None,
            Phase::Running => self.remaining_seconds matches Some(r) && 0 < r <= FIXED_DURATION_SECONDS,
            Phase::Alarming => self.remaining_seconds == Some(0u32),
        }
    }

    /// The state at program start.
    pub open spec fn initial(now: u64) -> TimerState {
        TimerState {
            phase: Phase::Idle,
            remaining_seconds: None,
            flash_on: false,
            last_tick_ms: now,
            last_flash_ms: now,
        }
    }

    /// Whether a frame at `now` decrements a running countdown.
    pub open spec fn tick_due(self, now: u64) -> bool {
        elapsed_ms(now, self.last_tick_ms) >= TICK_MS
    }

    /// Whether a frame at `now` toggles the flash of an alarm.
    pub open spec fn flash_due(self, now: u64) -> bool {
        elapsed_ms(now, self.last_flash_ms) > FLASH_MS
    }

    /// The state after a frame at `now`.
    pub open spec fn after_frame(self, now: u64) -> TimerState {
        match self.phase {
            Phase::Idle => self,
            Phase::Alarming => {
                if self.flash_due(now) {
                    TimerState { flash_on: !self.flash_on, last_flash_ms: now, ..self }
                } else {
                    self
                }
            },
            Phase::Running => {
                match self.remaining_seconds {
                    None => self,
                    Some(r) => {
                        if !self.tick_due(now) {
                            self
                        } else if r <= 1 {
                            TimerState {
                                phase: Phase::Alarming,
                                remaining_seconds: Some(0u32),
                                flash_on: false,
                                last_tick_ms: now,
                                last_flash_ms: now,
                            }
                        } else {
                            TimerState {
                                remaining_seconds: Some((r - 1) as u32),
                                last_tick_ms: now,
                                ..self
                            }
                        }
                    },
                }
            },
        }
    }

    /// What the host is asked to do after a frame at `now`: keep redrawing
    /// while running, redraw when the flash toggles, and play the alarm on
    /// the frame at which the countdown reaches zero.
    pub open spec fn frame_outcome(self, now: u64) -> FrameOutcome {
        FrameOutcome {
            repaint: match self.phase {
                Phase::Idle => false,
                Phase::Running => true,
                Phase::Alarming => self.flash_due(now),
            },
            play_alarm: self.phase is Running && self.after_frame(now).phase is Alarming,
        }
    }

    /// The state after the start control is pressed at `now`. The control
    /// exists only outside the alarm, and restarts a running countdown.
    pub open spec fn after_start(self, now: u64) -> TimerState {
        if self.phase is Alarming {
            self
        } else {
            TimerState {
                phase: Phase::Running,
                remaining_seconds: Some(FIXED_DURATION_SECONDS),
                last_tick_ms: now,
                ..self
            }
        }
    }

    /// The state after the reset control is pressed. The control exists only
    /// during the alarm.
    pub open spec fn after_reset(self) -> TimerState {
        if self.phase is Alarming {
            TimerState { phase: Phase::Idle, remaining_seconds: None, ..self }
        } else {
            self
        }
    }

    /// A fresh timer, idle, with both instants set to `now`.
    pub fn new(now: u64) -> (s: TimerState)
        ensures
            s == TimerState::initial(now),
            s.wf(),
    {
        TimerState {
            phase: Phase::Idle,
            remaining_seconds: None,
            flash_on: false,
            last_tick_ms: now,
            last_flash_ms: now,
        }
    }

    /// Handles one frame at instant `now`.
    pub fn on_frame(&mut self, now: u64) -> (out: FrameOutcome)
        ensures
            *final(self) == old(self).after_frame(now),
            out == old(self).frame_outcome(now),
            old(self).wf() ==> final(self).wf(),
    {
        let before = self.phase;
        let flash_due = now >= self.last_flash_ms && now - self.last_flash_ms > FLASH_MS;
        match self.phase {
            Phase::Idle => {},
            Phase::Alarming => {
                if flash_due {
                    self.flash_on = !self.flash_on;
                    self.last_flash_ms = now;
                }
            },
            Phase::Running => {
                if let Some(r) = self.remaining_seconds {
                    if now >= self.last_tick_ms && now - self.last_tick_ms >= TICK_MS {
                        let left: u32 = if r > 0 {
                            r - 1
                        } else {
                            0
                        };
                        self.remaining_seconds = Some(left);
                        self.last_tick_ms = now;
                        if left == 0 {
                            self.phase = Phase::Alarming;
                            self.flash_on = false;
                            self.last_flash_ms = now;
                        }
                    }
                }
            },
        }
        let repaint = match before {
            Phase::Idle => false,
            Phase::Running => true,
            Phase::Alarming => flash_due,
        };
        let play_alarm = before == Phase::Running && self.phase == Phase::Alarming;
        FrameOutcome { repaint, play_alarm }
    }

    /// Handles a press of the start control at instant `now`.
    pub fn press_start(&mut self, now: u64)
        ensures
            *final(self) == old(self).after_start(now),
            old(self).wf() ==> final(self).wf(),
    {
        if self.phase != Phase::Alarming {
            self.phase = Phase::Running;
            self.remaining_seconds = Some(FIXED_DURATION_SECONDS);
            self.last_tick_ms = now;
        }
    }

    /// Handles a press of the reset control.
    pub fn press_reset(&mut self)
        ensures
            *final(self) == old(self).after_reset(),
            old(self).wf() ==> final(self).wf(),
    {
        if self.phase == Phase::Alarming {
            self.phase = Phase::Idle;
            self.remaining_seconds = None;
        }
    }
}

} // verus!
