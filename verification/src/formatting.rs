//! Timecode rendering of durations, for timers shown to the user.
//!
//! A duration is rendered as `M:SS`: the whole minutes, unpadded, then a
//! colon, then the leftover seconds padded to two digits.

use vstd::prelude::*;
use vstd::string::StringExecFns;

use crate::idle_monitoring::MAX_CONFIG_SECONDS;

verus! {

/// The character for one decimal digit.
pub open spec fn spec_digit_char(digit: int) -> char {
    if digit == 0 {
        '0'
    } else if digit == 1 {
        '1'
    } else if digit == 2 {
        '2'
    } else if digit == 3 {
        '3'
    } else if digit == 4 {
        '4'
    } else if digit == 5 {
        '5'
    } else if digit == 6 {
        '6'
    } else if digit == 7 {
        '7'
    } else if digit == 8 {
        '8'
    } else {
        '9'
    }
}

/// The decimal rendering of a number, most significant digit first.
pub open spec fn spec_decimal_digits(n: nat) -> Seq<char>
    decreases n,
{
    if n < 10 {
        seq![spec_digit_char(n as int)]
    } else {
        spec_decimal_digits(n / 10).push(spec_digit_char((n % 10) as int))
    }
}

/// The `M:SS` timecode of a nonnegative number of milliseconds: whole
/// minutes, a colon, and the leftover seconds padded to two digits.
pub open spec fn spec_timecode(millis: int) -> Seq<char> {
    let minutes = millis / 60000;
    let leftover_secs = (millis / 1000) % 60;
    spec_decimal_digits(minutes as nat) + seq![':'] + (if leftover_secs < 10 {
        seq!['0']
    } else {
        Seq::<char>::empty()
    }) + spec_decimal_digits(leftover_secs as nat)
}

/// The one-character string for a decimal digit.
fn digit_string(digit: u64) -> (s: String)
    requires
        digit < 10,
    ensures
        s@ == seq![spec_digit_char(digit as int)],
{
    let s = if digit == 0 {
        String::from_str("0")
    } else if digit == 1 {
        String::from_str("1")
    } else if digit == 2 {
        String::from_str("2")
    } else if digit == 3 {
        String::from_str("3")
    } else if digit == 4 {
        String::from_str("4")
    } else if digit == 5 {
        String::from_str("5")
    } else if digit == 6 {
        String::from_str("6")
    } else if digit == 7 {
        String::from_str("7")
    } else if digit == 8 {
        String::from_str("8")
    } else {
        String::from_str("9")
    };
    proof {
        reveal_strlit("0");
        reveal_strlit("1");
        reveal_strlit("2");
        reveal_strlit("3");
        reveal_strlit("4");
        reveal_strlit("5");
        reveal_strlit("6");
        reveal_strlit("7");
        reveal_strlit("8");
        reveal_strlit("9");
        assert(s@ =~= seq![spec_digit_char(digit as int)]);
    }
    s
}

/// The decimal rendering of a number, most significant digit first.
fn decimal_digits_string(n: u64) -> (s: String)
    ensures
        s@ == spec_decimal_digits(n as nat),
    decreases n,
{
    if n < 10 {
        digit_string(n)
    } else {
        let mut s = decimal_digits_string(n / 10);
        let last = digit_string(n % 10);
        s.append(last.as_str());
        proof {
            assert(s@ =~= spec_decimal_digits(n as nat));
        }
        s
    }
}

/// Render a nonnegative duration in milliseconds as an `M:SS` timecode.
pub fn format_timedelta_timecode(timedelta_millis: i64) -> (s: String)
    requires
        0 <= timedelta_millis,
    ensures
        s@ == spec_timecode(timedelta_millis as int),
{
    let millis = timedelta_millis as u64;
    let minutes = millis / 60000;
    let leftover_secs = (millis / 1000) % 60;
    let mut s = decimal_digits_string(minutes);
    s.append(":");
    if leftover_secs < 10 {
        s.append("0");
    }
    let seconds_part = decimal_digits_string(leftover_secs);
    s.append(seconds_part.as_str());
    proof {
        reveal_strlit(":");
        reveal_strlit("0");
        assert(s@ =~= spec_timecode(timedelta_millis as int));
    }
    s
}

/// Render how much of a timer of `full_length_in_secs` seconds is left once
/// `progress_millis` of it has elapsed.
pub fn format_timer_timecode(progress_millis: i64, full_length_in_secs: i64) -> (s: String)
    requires
        0 <= full_length_in_secs <= MAX_CONFIG_SECONDS,
        0 <= progress_millis <= full_length_in_secs * 1000,
    ensures
        s@ == spec_timecode(full_length_in_secs * 1000 - progress_millis),
{
    format_timedelta_timecode(full_length_in_secs * 1000 - progress_millis)
}

} // verus!
