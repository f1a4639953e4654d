//! Rendering a remaining duration as a `MM:SS` clock face.

use vstd::prelude::*;

verus! {

/// Nanoseconds in one second.
pub const NANOS_PER_SEC: u64 = 1_000_000_000;

/// Seconds in one minute.
pub const SECS_PER_MINUTE: u64 = 60;

/// The character that writes the decimal digit `d`.
pub open spec fn digit_char(d: nat) -> char {
    (48 + d) as char
}

/// The decimal notation of `n`, without leading zeros.
pub open spec fn decimal(n: nat) -> Seq<char>
    decreases n,
{
    if n < 10 {
        seq![digit_char(n)]
    } else {
        decimal(n / 10).push(digit_char(n % 10))
    }
}

/// The decimal notation of `n`, padded with a zero to at least two digits.
pub open spec fn two_digits(n: nat) -> Seq<char> {
    if n < 10 {
        seq!['0', digit_char(n)]
    } else {
        decimal(n)
    }
}

/// Whole minutes and whole seconds of a duration of `nanos` nanoseconds,
/// both rounded down, written `MM:SS`.
pub open spec fn clock_face(nanos: nat) -> Seq<char> {
    let secs = nanos / (NANOS_PER_SEC as nat);
    two_digits(secs / (SECS_PER_MINUTE as nat)) + seq![':'] + two_digits(secs % (SECS_PER_MINUTE as nat))
}

/// The one-character string of the digit `d`.
fn digit_str(d: u64) -> (r: &'static str)
    requires
        d < 10,
    ensures
        r@ == seq![digit_char(d as nat)],
{
    proof {
        reveal_strlit("0");
        reveal_strlit("1");
        reveal_strlit("2");
        reveal_strlit("3");
        reveal_strlit("4");
        reveal_strlit("5");
        reveal_strlit("6");
        reveal_strlit("7");
        reveal_strlit("8");
        reveal_strlit("9");
    }
    match d {
        0 => "0",
        1 => "1",
        2 => "2",
        3 => "3",
        4 => "4",
        5 => "5",
        6 => "6",
        7 => "7",
        8 => "8",
        _ => "9",
    }
}

/// Appends the decimal notation of `n` to `s`.
fn append_decimal(s: &mut String, n: u64)
    ensures
        final(s)@ == old(s)@ + decimal(n as nat),
    decreases n,
{
    if n >= 10 {
        append_decimal(s, n / 10);
    }
    s.append(digit_str(n % 10));
    proof {
        assert(s@ =~= old(s)@ + decimal(n as nat));
    }
}

/// Appends `n` to `s`, padded with a zero to at least two digits.
fn append_two_digits(s: &mut String, n: u64)
    ensures
        final(s)@ == old(s)@ + two_digits(n as nat),
{
    if n < 10 {
        s.append("0");
        proof {
            reveal_strlit("0");
        }
    }
    append_decimal(s, n);
    proof {
        assert(s@ =~= old(s)@ + two_digits(n as nat));
    }
}

/// Renders a duration of `remaining` nanoseconds as `MM:SS`: whole minutes,
/// then whole seconds past the minute, both rounded down and padded with a
/// zero to two digits. Minutes past 99 take as many digits as they need.
pub fn format_duration(remaining: u64) -> (r: String)
    ensures
        r@ == clock_face(remaining as nat),
{
    let secs = remaining / NANOS_PER_SEC;
    let mut s = String::new();
    append_two_digits(&mut s, secs / SECS_PER_MINUTE);
    s.append(":");
    proof {
        reveal_strlit(":");
    }
    append_two_digits(&mut s, secs % SECS_PER_MINUTE);
    proof {
        assert(s@ =~= clock_face(remaining as nat));
    }
    s
}

} // verus!
