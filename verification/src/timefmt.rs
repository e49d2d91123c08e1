//! Millisecond arithmetic and the `minutes:seconds` display format.

use vstd::prelude::*;
use vstd::string::*;

verus! {

/// The character for one decimal digit.
pub open spec fn spec_digit(d: nat) -> char
    recommends
        d < 10,
{
    if d == 0 {
        '0'
    } else if d == 1 {
        '1'
    } else if d == 2 {
        '2'
    } else if d == 3 {
        '3'
    } else if d == 4 {
        '4'
    } else if d == 5 {
        '5'
    } else if d == 6 {
        '6'
    } else if d == 7 {
        '7'
    } else if d == 8 {
        '8'
    } else {
        '9'
    }
}

/// The decimal rendering of `n`, without leading zeros (a single `'0'` for zero).
pub open spec fn spec_decimal(n: nat) -> Seq<char>
    decreases n,
{
    if n < 10 {
        seq![spec_digit(n)]
    } else {
        spec_decimal(n / 10) + seq![spec_digit(n % 10)]
    }
}

/// A millisecond count shown as `minutes:seconds`, seconds padded to two digits.
pub open spec fn spec_time_display(millis: u64) -> Seq<char> {
    let total_seconds = millis as nat / 1000;
    let minutes = total_seconds / 60;
    let seconds = total_seconds % 60;
    spec_decimal(minutes) + seq![':'] + (if seconds < 10 {
        seq!['0']
    } else {
        Seq::<char>::empty()
    }) + spec_decimal(seconds)
}

/// The whole milliseconds in a span of `secs` seconds plus `subsec_nanos` nanoseconds.
pub open spec fn spec_to_millis(secs: nat, subsec_nanos: nat) -> nat {
    secs * 1000 + subsec_nanos / 1000000
}

/// Converts a duration, split into whole seconds and the sub-second nanoseconds,
/// to whole milliseconds, saturating at the largest `u64`.
pub fn to_millis(secs: u64, subsec_nanos: u32) -> (r: u64)
    requires
        subsec_nanos < 1000000000,
    ensures
        spec_to_millis(secs as nat, subsec_nanos as nat) <= u64::MAX ==> r == spec_to_millis(
            secs as nat,
            subsec_nanos as nat,
        ),
        spec_to_millis(secs as nat, subsec_nanos as nat) > u64::MAX ==> r == u64::MAX,
{
    let ms: u64 = (subsec_nanos / 1000000) as u64;
    if secs <= (u64::MAX - ms) / 1000 {
        assert(secs * 1000 <= u64::MAX - ms) by (nonlinear_arith)
            requires
                secs <= (u64::MAX - ms) / 1000,
        ;
        secs * 1000 + ms
    } else {
        assert(secs * 1000 > u64::MAX - ms) by (nonlinear_arith)
            requires
                secs > (u64::MAX - ms) / 1000,
        ;
        u64::MAX
    }
}

/// The `&str` holding exactly the one digit `d`.
fn digit_str(d: u64) -> (r: &'static str)
    requires
        d < 10,
    ensures
        r@ =~= seq![spec_digit(d as nat)],
{
    proof {
        reveal_strlit("0");
        reveal_strlit("1");
        reveal_strlit("2");
        reveal_strlit("3");
        reveal_strlit("4");
        reveal_strlit("5");
        reveal_strlit("6");
        reveal_strlit("7");
        reveal_strlit("8");
        reveal_strlit("9");
    }
    match d {
        0 => "0",
        1 => "1",
        2 => "2",
        3 => "3",
        4 => "4",
        5 => "5",
        6 => "6",
        7 => "7",
        8 => "8",
        _ => "9",
    }
}

/// The decimal rendering of `n`, as `spec_decimal` describes it.
pub fn decimal_string(n: u64) -> (r: String)
    ensures
        r@ == spec_decimal(n as nat),
    decreases n,
{
    if n < 10 {
        let mut s = String::new();
        s.append(digit_str(n));
        proof {
            assert(s@ =~= spec_decimal(n as nat));
        }
        s
    } else {
        let mut s = decimal_string(n / 10);
        s.append(digit_str(n % 10));
        proof {
            assert(s@ =~= spec_decimal(n as nat));
        }
        s
    }
}

/// Formats a millisecond count as `minutes:seconds`, the seconds always two digits.
pub fn millis_to_minutes(millis: u64) -> (r: String)
    ensures
        r@ == spec_time_display(millis),
{
    let total_seconds: u64 = millis / 1000;
    let minutes: u64 = total_seconds / 60;
    let seconds: u64 = total_seconds % 60;
    let mut r = decimal_string(minutes);
    r.append(":");
    if seconds < 10 {
        r.append("0");
    }
    let sec_digits = decimal_string(seconds);
    r.append(sec_digits.as_str());
    proof {
        reveal_strlit(":");
        reveal_strlit("0");
        assert(r@ =~= spec_time_display(millis));
    }
    r
}

} // verus!
