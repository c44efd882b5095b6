//! Validation of the command line: a description and a duration in minutes.

use vstd::prelude::*;
use vstd::string::{StrSliceExecFns, StringExecFns};
use crate::text::{decimal_text, push_decimal};

verus! {

/// The longest duration accepted, in minutes: twelve hours.
pub const MAX_MINUTES: u64 = 720;

/// The exit status of a run that failed validation. A run that failed on
/// the terminal exits with another status.
pub const USAGE_EXIT_CODE: u8 = 2;

/// Why the command line was rejected.
#[derive(Clone, Copy, Debug, PartialEq, Eq, Structural)]
pub enum StartupError {
    /// Other than two arguments were given; `given` is their number.
    WrongArgumentCount { given: usize },
    /// The duration is not a decimal number that fits 64 bits.
    UnparsableMinutes,
    /// The duration is more than `MAX_MINUTES`.
    MinutesOutOfRange,
}

/// A valid command line.
pub struct Settings {
    pub description: String,
    pub minutes: u64,
}

pub open spec fn is_decimal_digit(c: char) -> bool {
    '0' <= c && c <= '9'
}

pub open spec fn digit_value(c: char) -> nat {
    (c as nat - '0' as nat) as nat
}

/// The number that a string of decimal digits denotes.
pub open spec fn decimal_value(digits: Seq<char>) -> nat
    decreases digits.len(),
{
    if digits.len() == 0 {
        0
    } else {
        decimal_value(digits.drop_last()) * 10 + digit_value(digits.last())
    }
}

pub open spec fn all_decimal_digits(digits: Seq<char>) -> bool {
    forall|i: int| 0 <= i < digits.len() ==> is_decimal_digit(#[trigger] digits[i])
}

/// The text without the one plus sign that may lead it.
pub open spec fn without_plus(text: Seq<char>) -> Seq<char> {
    if text.len() > 0 && text[0] == '+' {
        text.subrange(1, text.len() as int)
    } else {
        text
    }
}

/// The number of minutes that a text denotes: decimal digits, at least one,
/// after an optional plus sign, with a value that fits 64 bits.
pub open spec fn parsed_minutes(text: Seq<char>) -> Option<u64> {
    let digits = without_plus(text);
    if digits.len() > 0 && all_decimal_digits(digits) && decimal_value(digits) <= u64::MAX {
        Some(decimal_value(digits) as u64)
    } else {
        None
    }
}

/// The number of arguments given, for a command line of `len` words of
/// which the first is the program's name.
pub open spec fn given_count(len: nat) -> nat {
    if len == 0 {
        0
    } else {
        (len - 1) as nat
    }
}

/// The value of a string of digits is at least the value of each of its
/// prefixes.
proof fn lemma_prefix_value(digits: Seq<char>, k: int)
    requires
        0 <= k <= digits.len(),
    ensures
        decimal_value(digits.subrange(0, k)) <= decimal_value(digits),
    decreases digits.len(),
{
    if k == digits.len() {
        assert(digits.subrange(0, k) =~= digits);
    } else {
        lemma_prefix_value(digits.drop_last(), k);
        assert(digits.drop_last().subrange(0, k) =~= digits.subrange(0, k));
    }
}

/// Reads a duration in minutes.
pub fn parse_minutes(text: &str) -> (minutes: Option<u64>)
    ensures
        minutes == parsed_minutes(text@),
{
    let len: usize = text.unicode_len();
    let start: usize = if len > 0 && text.get_char(0) == '+' {
        1
    } else {
        0
    };
    let ghost digits = without_plus(text@);
    assert(digits =~= text@.subrange(start as int, len as int));
    if start == len {
        return None;
    }
    let mut value: u64 = 0;
    let mut i: usize = start;
    while i < len
        invariant
            start <= i <= len,
            len == text@.len(),
            digits == without_plus(text@),
            digits == text@.subrange(start as int, len as int),
            all_decimal_digits(digits.subrange(0, i - start)),
            value == decimal_value(digits.subrange(0, i - start)),
        decreases len - i,
    {
        let c: char = text.get_char(i);
        let ghost seen = digits.subrange(0, i - start);
        let ghost next = digits.subrange(0, i - start + 1);
        assert(next.drop_last() =~= seen);
        assert(next.last() == c);
        if !('0' <= c && c <= '9') {
            assert(!is_decimal_digit(digits[i - start]));
            return None;
        }
        let d: u64 = (c as u32 - '0' as u32) as u64;
        assert(decimal_value(next) == value * 10 + d);
        proof {
            lemma_prefix_value(digits, i - start + 1);
        }
        let shifted: u64 = match value.checked_mul(10) {
            Some(v) => v,
            None => {
                return None;
            },
        };
        value = match shifted.checked_add(d) {
            Some(v) => v,
            None => {
                return None;
            },
        };
        i = i + 1;
    }
    assert(digits.subrange(0, len - start) =~= digits);
    Some(value)
}

/// Checks a command line: the program's name, a description and a duration
/// in minutes of at most `MAX_MINUTES`.
pub fn parse_arguments(args: &Vec<String>) -> (result: Result<Settings, StartupError>)
    ensures
        args.len() != 3 ==> result == Err::<Settings, StartupError>(
            StartupError::WrongArgumentCount { given: given_count(args.len() as nat) as usize },
        ),
        args.len() == 3 ==> match parsed_minutes(args[2]@) {
            None => result == Err::<Settings, StartupError>(StartupError::UnparsableMinutes),
            Some(minutes) => if minutes > MAX_MINUTES {
                result == Err::<Settings, StartupError>(StartupError::MinutesOutOfRange)
            } else {
                &&& result matches Ok(settings)
                &&& settings.description@ == args[1]@
                &&& settings.minutes == minutes
            },
        },
{
    if args.len() != 3 {
        let given: usize = if args.len() == 0 {
            0
        } else {
            args.len() - 1
        };
        return Err(StartupError::WrongArgumentCount { given });
    }
    match parse_minutes(args[2].as_str()) {
        None => Err(StartupError::UnparsableMinutes),
        Some(minutes) => {
            if minutes > MAX_MINUTES {
                Err(StartupError::MinutesOutOfRange)
            } else {
                Ok(Settings { description: args[1].clone(), minutes })
            }
        },
    }
}

impl StartupError {
    /// The diagnostic for the user.
    pub open spec fn message_text(self) -> Seq<char> {
        match self {
            StartupError::WrongArgumentCount { given } => {
                "Wrong usage of the program. Correct usage:\n -arg1: description of the timer\n -arg2: time (in minutes)\nYou provided "@
                    + decimal_text(given as nat) + " args"@
            },
            StartupError::UnparsableMinutes => "Wrong time parameter, unable to parse"@,
            StartupError::MinutesOutOfRange => {
                "Wrong time parameter, maximum of minutes is 720 (12h)"@
            },
        }
    }

    /// The diagnostic for the user.
    pub fn message(&self) -> (text: String)
        ensures
            text@ == self.message_text(),
    {
        match self {
            StartupError::WrongArgumentCount { given } => {
                let mut text = String::from_str(
                    "Wrong usage of the program. Correct usage:\n -arg1: description of the timer\n -arg2: time (in minutes)\nYou provided ",
                );
                push_decimal(&mut text, *given as u128);
                text.append(" args");
                text
            },
            StartupError::UnparsableMinutes => String::from_str(
                "Wrong time parameter, unable to parse",
            ),
            StartupError::MinutesOutOfRange => String::from_str(
                "Wrong time parameter, maximum of minutes is 720 (12h)",
            ),
        }
    }
}

} // verus!
