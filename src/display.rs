use vstd::prelude::*;
use crate::timer::{Phase, TimerState};

verus! {

/// The one control shown on the screen.
#[derive(Clone, Copy, Debug, PartialEq, Eq, Structural)]
pub enum Control {
    Start,
    Reset,
}

/// Everything a frame draws, as a pure function of the timer state.
#[derive(Debug)]
pub struct Screen {
    pub heading: String,
    /// The line under the heading, if any.
    pub message: Option<String>,
    pub control: Control,
    /// Fill the whole panel red instead of the default background.
    pub red_background: bool,
}

/// The one-character text of the decimal digit `d`.
pub open spec fn digit_text(d: int) -> Seq<char> {
    "0123456789"@.subrange(d, d + 1)
}

/// The decimal digits of `n`, most significant first, without leading zeros.
pub open spec fn decimal(n: nat) -> Seq<char>
    decreases n,
{
    if n < 10 {
        digit_text(n as int)
    } else {
        decimal(n / 10) + digit_text((n % 10) as int)
    }
}

/// The countdown line for `secs` seconds: whole minutes, then leftover seconds.
pub open spec fn remaining_text(secs: nat) -> Seq<char> {
    "Time remaining: "@ + decimal(secs / 60) + "m "@ + decimal(secs % 60) + "s"@
}

/// The heading shown outside the alarm.
pub open spec fn idle_heading() -> Seq<char> {
    "Fixed Timer: 3m 15s"@
}

/// The heading shown during the alarm.
pub open spec fn alarm_heading() -> Seq<char> {
    "Time's Up!"@
}

/// The line shown under the alarm heading.
pub open spec fn alarm_message() -> Seq<char> {
    "The timer has finished."@
}

impl Control {
    /// The caption of the control's button.
    pub fn label(&self) -> (r: &'static str)
        ensures
            *self is Start ==> r@ == "Start Timer"@,
            *self is Reset ==> r@ == "Reset Timer"@,
    {
        match self {
            Control::Start => "Start Timer",
            Control::Reset => "Reset Timer",
        }
    }
}

/// Appends the decimal digits of `n` to `out`.
fn append_decimal(out: &mut String, n: u32)
    ensures
        final(out)@ == old(out)@ + decimal(n as nat),
    decreases n,
{
    proof {
        reveal_strlit("0123456789");
    }
    let digits = "0123456789";
    if n >= 10 {
        append_decimal(out, n / 10);
    }
    let d: usize = (n % 10) as usize;
    out.append(digits.substring_char(d, d + 1));
    assert(final(out)@ =~= old(out)@ + decimal(n as nat)) by {
        if n >= 10 {
            assert(decimal(n as nat) == decimal((n / 10) as nat) + digit_text((n % 10) as int));
        }
    }
}

/// The countdown line for `secs` seconds, such as "Time remaining: 3m 15s".
pub fn remaining_label(secs: u32) -> (r: String)
    ensures
        r@ == remaining_text(secs as nat),
{
    let mut out = String::from_str("Time remaining: ");
    append_decimal(&mut out, secs / 60);
    out.append("m ");
    append_decimal(&mut out, secs % 60);
    out.append("s");
    out
}

impl TimerState {
    /// What to draw for this state: outside the alarm the preset heading, the
    /// start control and, when seconds are left, the countdown line; during
    /// the alarm its heading and message, the reset control, and a red panel
    /// while the flash is on.
    pub fn screen(&self) -> (r: Screen)
        ensures
            self.phase is Alarming ==> {
                &&& r.heading@ == alarm_heading()
                &&& r.message matches Some(m) && m@ == alarm_message()
                &&& r.control is Reset
                &&& r.red_background == self.flash_on
            },
            !(self.phase is Alarming) ==> {
                &&& r.heading@ == idle_heading()
                &&& r.control is Start
                &&& !r.red_background
                &&& match self.remaining_seconds {
                    None => r.message is None,
                    Some(secs) => r.message matches Some(m) && m@ == remaining_text(secs as nat),
                }
            },
    {
        match self.phase {
            Phase::Alarming => Screen {
                heading: String::from_str("Time's Up!"),
                message: Some(String::from_str("The timer has finished.")),
                control: Control::Reset,
                red_background: self.flash_on,
            },
            _ => {
                let message = match self.remaining_seconds {
                    None => None,
                    Some(secs) => Some(remaining_label(secs)),
                };
                Screen {
                    heading: String::from_str("Fixed Timer: 3m 15s"),
                    message,
                    control: Control::Start,
                    red_background: false,
                }
            },
        }
    }
}

} // verus!
