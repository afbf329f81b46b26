//! Formatting helpers and small numeric utilities.

use vstd::prelude::*;
use vstd::string::StringExecFns;

use crate::error::Error;
use crate::time::{Duration, TICKS_PER_SEC};

verus! {

/// One decimal digit as a character.
pub open spec fn digit_char(d: int) -> char {
    if d == 0 {
        '0'
    } else if d == 1 {
        '1'
    } else if d == 2 {
        '2'
    } else if d == 3 {
        '3'
    } else if d == 4 {
        '4'
    } else if d == 5 {
        '5'
    } else if d == 6 {
        '6'
    } else if d == 7 {
        '7'
    } else if d == 8 {
        '8'
    } else {
        '9'
    }
}

/// A value below 100 as two decimal digits.
pub open spec fn two_digits(n: int) -> Seq<char> {
    seq![digit_char(n / 10), digit_char(n % 10)]
}

/// A second count in the fixed five-character `MM:SS` form of the display.
/// Meaningful for values up to `99 * 60 + 59` seconds, the largest that fits.
pub open spec fn spec_format_secs(secs: int) -> Seq<char> {
    two_digits(secs / 60) + seq![':'] + two_digits(secs % 60)
}

fn digit_str(d: u64) -> (r: &'static str)
    requires
        d <= 9,
    ensures
        r@ == seq![digit_char(d as int)],
{
    let r: &'static str = if d == 0 {
        "0"
    } else if d == 1 {
        "1"
    } else if d == 2 {
        "2"
    } else if d == 3 {
        "3"
    } else if d == 4 {
        "4"
    } else if d == 5 {
        "5"
    } else if d == 6 {
        "6"
    } else if d == 7 {
        "7"
    } else if d == 8 {
        "8"
    } else {
        "9"
    };
    proof {
        reveal_strlit("0");
        reveal_strlit("1");
        reveal_strlit("2");
        reveal_strlit("3");
        reveal_strlit("4");
        reveal_strlit("5");
        reveal_strlit("6");
        reveal_strlit("7");
        reveal_strlit("8");
        reveal_strlit("9");
        assert(r@ =~= seq![digit_char(d as int)]);
    }
    r
}

/// Render a second count into the fixed five-character `MM:SS` field.
/// Values beyond `99:59` do not fit and are rejected.
pub fn format_secs(secs: u64) -> (r: Result<String, Error>)
    ensures
        r is Ok <==> secs <= 5999,
        r matches Ok(s) ==> s@ == spec_format_secs(secs as int),
{
    if secs > 5999 {
        return Err(Error::FormattingError);
    }
    let minutes = secs / 60;
    let seconds = secs % 60;
    let mut out = String::from_str(digit_str(minutes / 10));
    out.append(digit_str(minutes % 10));
    out.append(":");
    out.append(digit_str(seconds / 10));
    out.append(digit_str(seconds % 10));
    proof {
        reveal_strlit(":");
        assert(out@ =~= spec_format_secs(secs as int));
    }
    Ok(out)
}

/// Render a span's whole seconds into the `MM:SS` field.
pub fn format_duration(duration: Duration) -> (r: Result<String, Error>)
    ensures
        r is Ok <==> duration.ticks / TICKS_PER_SEC <= 5999,
        r matches Ok(s) ==> s@ == spec_format_secs((duration.ticks / TICKS_PER_SEC) as int),
{
    format_secs(duration.as_secs())
}

/// Rounding a span up to whole seconds, so a display that shows whole seconds
/// never shows a time as already spent while some of it remains.
pub trait CeilTime {
    spec fn ceil_secs_spec(&self) -> u64;

    fn ceil_secs(&self) -> (r: u64)
        ensures
            r == self.ceil_secs_spec(),
    ;
}

impl CeilTime for Duration {
    open spec fn ceil_secs_spec(&self) -> u64 {
        self.spec_ceil_secs()
    }

    fn ceil_secs(&self) -> (r: u64)
        ensures
            r == self.ceil_secs_spec(),
    {
        let whole = self.ticks / TICKS_PER_SEC;
        if self.ticks % TICKS_PER_SEC > 0 {
            whole + 1
        } else {
            whole
        }
    }
}

/// Hardware settings for a tone of the wanted frequency: the counter top and
/// clock divider a pulse-width module needs, computed from the system clock.
#[derive(Clone, Copy, PartialEq, Eq, Structural, Debug)]
pub struct PwmSettings {
    pub top: u16,
    pub divider: u8,
}

/// Compute the counter settings that make a pulse-width module oscillate at
/// `freq` hertz given the system clock frequency.
pub fn pwm_freq_config(clock_freq_hz: u32, freq: u32) -> (r: PwmSettings)
    requires
        freq > 0,
        freq <= u32::MAX / 16,
        1 <= clock_freq_hz as int / (freq as int * 16) <= 0xFFFF,
    ensures
        r.top == clock_freq_hz as int / (freq as int * 16) - 1,
        r.divider == 16,
{
    let divider: u8 = 16u8;
    let period: u16 = (clock_freq_hz / (freq * divider as u32)) as u16 - 1;
    PwmSettings { top: period, divider }
}

} // verus!
