//! The poll interval and how it is read from the command line.

use vstd::prelude::*;
use vstd::string::StrSliceExecFns;

verus! {

/// The time between two queries of a wait, in whole seconds.
#[derive(Clone, Copy, Debug, PartialEq, Eq, Structural)]
pub struct PollInterval {
    pub seconds: u64,
}

/// Why a text is no poll interval.
#[derive(Clone, Copy, Debug, PartialEq, Eq, Structural)]
pub enum ParseDurationError {
    /// The text is empty.
    Empty,
    /// The text holds something that is no decimal digit.
    InvalidDigit,
    /// The number is too large for 64 bits.
    Overflow,
}

pub open spec fn is_digit(c: char) -> bool {
    '0' <= c <= '9'
}

pub open spec fn digit_value(c: char) -> nat {
    (c as nat - '0' as nat) as nat
}

/// The number that the decimal digits `digits` write.
pub open spec fn decimal_value(digits: Seq<char>) -> nat
    decreases digits.len(),
{
    if digits.len() == 0 {
        0
    } else {
        decimal_value(digits.drop_last()) * 10 + digit_value(digits.last())
    }
}

/// The digits of a text: the text without the plus sign that may lead it.
pub open spec fn unsigned_part(text: Seq<char>) -> Seq<char> {
    if text.len() > 0 && text[0] == '+' {
        text.subrange(1, text.len() as int)
    } else {
        text
    }
}

/// The place of the first character of `digits` at which reading fails:
/// it is no digit, or the number read up to and including it no longer
/// fits 64 bits. The length of `digits` if reading never fails.
pub open spec fn first_fault(digits: Seq<char>) -> int
    decreases digits.len(),
{
    if digits.len() == 0 {
        0
    } else {
        let before = first_fault(digits.drop_last());
        if before < digits.len() - 1 {
            before
        } else if !is_digit(digits.last()) || decimal_value(digits) > u64::MAX {
            digits.len() - 1
        } else {
            digits.len() as int
        }
    }
}

/// What a text means as a number of seconds: an optional plus sign, then
/// at least one decimal digit and nothing else, the number within 64 bits.
/// Reading goes from left to right and stops at the first fault.
pub open spec fn parsed_seconds(text: Seq<char>) -> Result<nat, ParseDurationError> {
    let digits = unsigned_part(text);
    let fault = first_fault(digits);
    if text.len() == 0 {
        Err(ParseDurationError::Empty)
    } else if digits.len() == 0 {
        Err(ParseDurationError::InvalidDigit)
    } else if fault < digits.len() {
        if is_digit(digits[fault]) {
            Err(ParseDurationError::Overflow)
        } else {
            Err(ParseDurationError::InvalidDigit)
        }
    } else {
        Ok(decimal_value(digits))
    }
}

fn digit_of(c: char) -> (d: Option<u64>)
    ensures
        d is Some <==> is_digit(c),
        d matches Some(v) ==> v == digit_value(c),
{
    if '0' <= c && c <= '9' {
        Some((c as u64) - ('0' as u64))
    } else {
        None
    }
}

/// Reads a poll interval in whole seconds, as the command line gives it.
pub fn parse_duration(arg: &str) -> (r: Result<PollInterval, ParseDurationError>)
    ensures
        match r {
            Ok(interval) => parsed_seconds(arg@) == Ok::<nat, ParseDurationError>(
                interval.seconds as nat,
            ),
            Err(e) => parsed_seconds(arg@) == Err::<nat, ParseDurationError>(e),
        },
{
    let len = arg.unicode_len();
    if len == 0 {
        return Err(ParseDurationError::Empty);
    }
    let start: usize = if arg.get_char(0) == '+' {
        1
    } else {
        0
    };
    if start == len {
        return Err(ParseDurationError::InvalidDigit);
    }
    let ghost digits = unsigned_part(arg@);
    let mut value: u64 = 0;
    let mut i: usize = start;
    while i < len
        invariant
            start <= i <= len,
            len == arg@.len(),
            digits == arg@.subrange(start as int, len as int),
            digits == unsigned_part(arg@),
            start < len,
            value == decimal_value(digits.take(i - start)),
            first_fault(digits.take(i - start)) == i - start,
        decreases len - i,
    {
        let c = arg.get_char(i);
        let ghost read = digits.take(i - start + 1);
        proof {
            assert(read.drop_last() =~= digits.take(i - start));
        }
        match digit_of(c) {
            None => {
                proof {
                    lemma_fault_stays(digits, i - start + 1);
                }
                return Err(ParseDurationError::InvalidDigit);
            },
            Some(d) => {
                if value > (u64::MAX - d) / 10 {
                    proof {
                        lemma_fault_stays(digits, i - start + 1);
                    }
                    return Err(ParseDurationError::Overflow);
                }
                value = value * 10 + d;
            },
        }
        i = i + 1;
    }
    proof {
        assert(digits.take(len - start) =~= digits);
    }
    Ok(PollInterval { seconds: value })
}

/// A fault within the first `n` characters is the first fault of the
/// whole text.
proof fn lemma_fault_stays(digits: Seq<char>, n: int)
    requires
        0 <= n <= digits.len(),
        first_fault(digits.take(n)) < n,
    ensures
        first_fault(digits) == first_fault(digits.take(n)),
    decreases digits.len() - n,
{
    if n < digits.len() {
        assert(digits.take(n + 1).drop_last() =~= digits.take(n));
        lemma_fault_stays(digits, n + 1);
    } else {
        assert(digits.take(n) =~= digits);
    }
}

} // verus!
