//! Decimal text: numbers, `MM:SS` clock faces and percentages, built one
//! digit at a time.

use vstd::prelude::*;
use vstd::string::StringExecFns;

verus! {

/// The character of a decimal digit.
pub open spec fn digit_char(d: nat) -> char {
    if d == 0 {
        '0'
    } else if d == 1 {
        '1'
    } else if d == 2 {
        '2'
    } else if d == 3 {
        '3'
    } else if d == 4 {
        '4'
    } else if d == 5 {
        '5'
    } else if d == 6 {
        '6'
    } else if d == 7 {
        '7'
    } else if d == 8 {
        '8'
    } else {
        '9'
    }
}

/// `n` in decimal, without leading zeros (`0` for zero).
pub open spec fn decimal_text(n: nat) -> Seq<char>
    decreases n,
{
    if n < 10 {
        seq![digit_char(n)]
    } else {
        decimal_text(n / 10).push(digit_char(n % 10))
    }
}

/// `n` in decimal, with a leading zero if it has a single digit.
pub open spec fn two_digit_text(n: nat) -> Seq<char> {
    if n < 10 {
        seq!['0', digit_char(n)]
    } else {
        decimal_text(n)
    }
}

/// A duration of `secs` seconds as minutes and seconds, `MM:SS`.
pub open spec fn clock_text(secs: nat) -> Seq<char> {
    two_digit_text(secs / 60) + seq![':'] + two_digit_text(secs % 60)
}

/// Hundredths of a percent as a percentage with two decimals, `12.34`.
pub open spec fn percent_text(hundredths: nat) -> Seq<char> {
    decimal_text(hundredths / 100) + seq!['.'] + two_digit_text(hundredths % 100)
}

/// The one-character string of a decimal digit.
fn digit_str(d: u8) -> (s: &'static str)
    requires
        d < 10,
    ensures
        s@ == seq![digit_char(d as nat)],
{
    proof {
        reveal_strlit("0");
        reveal_strlit("1");
        reveal_strlit("2");
        reveal_strlit("3");
        reveal_strlit("4");
        reveal_strlit("5");
        reveal_strlit("6");
        reveal_strlit("7");
        reveal_strlit("8");
        reveal_strlit("9");
    }
    let s = if d == 0 {
        "0"
    } else if d == 1 {
        "1"
    } else if d == 2 {
        "2"
    } else if d == 3 {
        "3"
    } else if d == 4 {
        "4"
    } else if d == 5 {
        "5"
    } else if d == 6 {
        "6"
    } else if d == 7 {
        "7"
    } else if d == 8 {
        "8"
    } else {
        "9"
    };
    assert(s@ =~= seq![digit_char(d as nat)]);
    s
}

/// Appends `n` in decimal to `out`.
pub fn push_decimal(out: &mut String, n: u128)
    ensures
        final(out)@ == old(out)@ + decimal_text(n as nat),
    decreases n,
{
    if n >= 10 {
        push_decimal(out, n / 10);
    }
    let d: u8 = (n % 10) as u8;
    out.append(digit_str(d));
    assert(out@ =~= old(out)@ + decimal_text(n as nat));
}

/// Appends `n` in decimal to `out`, with a leading zero if it has a single digit.
pub fn push_two_digits(out: &mut String, n: u128)
    ensures
        final(out)@ == old(out)@ + two_digit_text(n as nat),
{
    if n < 10 {
        out.append("0");
        proof {
            reveal_strlit("0");
        }
    }
    push_decimal(out, n);
    assert(out@ =~= old(out)@ + two_digit_text(n as nat));
}

/// Appends a duration of `secs` seconds to `out` as `MM:SS`.
pub fn push_clock(out: &mut String, secs: u128)
    ensures
        final(out)@ == old(out)@ + clock_text(secs as nat),
{
    push_two_digits(out, secs / 60);
    out.append(":");
    push_two_digits(out, secs % 60);
    proof {
        reveal_strlit(":");
    }
    assert(out@ =~= old(out)@ + clock_text(secs as nat));
}

/// Appends hundredths of a percent to `out` as a percentage with two decimals.
pub fn push_percent(out: &mut String, hundredths: u16)
    ensures
        final(out)@ == old(out)@ + percent_text(hundredths as nat),
{
    let whole: u128 = (hundredths / 100) as u128;
    let part: u128 = (hundredths % 100) as u128;
    push_decimal(out, whole);
    out.append(".");
    push_two_digits(out, part);
    proof {
        reveal_strlit(".");
    }
    assert(out@ =~= old(out)@ + percent_text(hundredths as nat));
}

} // verus!
