//! The name under which a change set is submitted: the name of the stack
//! and the moment of submission in UTC, down to the microsecond, so that
//! two submissions for one stack at different moments never share a name.

use crate::interval::{decimal_value, digit_value, is_digit};
use chrono::{Datelike, Timelike};
use vstd::prelude::*;
use vstd::string::StringExecFns;

verus! {

/// A moment in UTC by the calendar and the clock, to the microsecond. A
/// leap second is second 60.
pub struct Civil {
    pub year: int,
    pub month: int,
    pub day: int,
    pub hour: int,
    pub minute: int,
    pub second: int,
    pub micros: int,
}

impl Civil {
    /// Whether every part lies within what the calendar and the clock allow.
    pub open spec fn valid(self) -> bool {
        &&& 1 <= self.month <= 12
        &&& 1 <= self.day <= 31
        &&& 0 <= self.hour <= 23
        &&& 0 <= self.minute <= 59
        &&& 0 <= self.second <= 60
        &&& 0 <= self.micros <= 999_999
    }
}

/// The character that writes the digit `d`.
pub open spec fn digit_char(d: nat) -> char {
    if d == 0 {
        '0'
    } else if d == 1 {
        '1'
    } else if d == 2 {
        '2'
    } else if d == 3 {
        '3'
    } else if d == 4 {
        '4'
    } else if d == 5 {
        '5'
    } else if d == 6 {
        '6'
    } else if d == 7 {
        '7'
    } else if d == 8 {
        '8'
    } else {
        '9'
    }
}

/// The decimal digits of `n`, without leading zeros.
pub open spec fn digits(n: nat) -> Seq<char>
    decreases n,
{
    if n < 10 {
        seq![digit_char(n)]
    } else {
        digits(n / 10).push(digit_char(n % 10))
    }
}

/// `count` zeros.
pub open spec fn zeros(count: nat) -> Seq<char> {
    Seq::new(count, |i: int| '0')
}

/// The decimal digits of `n`, with zeros in front up to `width` digits.
pub open spec fn padded(n: nat, width: nat) -> Seq<char> {
    if digits(n).len() >= width {
        digits(n)
    } else {
        zeros((width - digits(n).len()) as nat) + digits(n)
    }
}

/// The year as it is written: four digits for the years 0 to 9999, a sign
/// and at least four digits for any other year.
pub open spec fn year_text(year: int) -> Seq<char> {
    if 0 <= year <= 9999 {
        padded(year as nat, 4)
    } else if year > 9999 {
        seq!['+'] + padded(year as nat, 4)
    } else {
        seq!['-'] + padded((-year) as nat, 4)
    }
}

/// The moment as it is written: year, month and day, a hyphen, hour,
/// minute and second, a hyphen, and the microseconds in six digits. What
/// follows the year is eighteen characters long.
pub open spec fn stamp_text(at: Civil) -> Seq<char> {
    year_text(at.year) + padded(at.month as nat, 2) + padded(at.day as nat, 2) + seq!['-']
        + padded(at.hour as nat, 2) + padded(at.minute as nat, 2) + padded(at.second as nat, 2)
        + seq!['-'] + padded(at.micros as nat, 6)
}

/// The name of a change set submitted for `stack` at the moment `at`.
pub open spec fn change_set_name_text(stack: Seq<char>, at: Civil) -> Seq<char> {
    stack + seq!['-'] + stamp_text(at)
}

/// The year that a text written by `year_text` stands for.
pub open spec fn year_read(text: Seq<char>) -> int {
    if text.len() > 0 && text[0] == '+' {
        decimal_value(text.subrange(1, text.len() as int)) as int
    } else if text.len() > 0 && text[0] == '-' {
        -(decimal_value(text.subrange(1, text.len() as int)) as int)
    } else {
        decimal_value(text) as int
    }
}

/// The moment that a text written by `stamp_text` stands for.
pub open spec fn stamp_read(text: Seq<char>) -> Civil {
    let n = text.len() as int;
    Civil {
        year: year_read(text.subrange(0, n - 18)),
        month: decimal_value(text.subrange(n - 18, n - 16)) as int,
        day: decimal_value(text.subrange(n - 16, n - 14)) as int,
        hour: decimal_value(text.subrange(n - 13, n - 11)) as int,
        minute: decimal_value(text.subrange(n - 11, n - 9)) as int,
        second: decimal_value(text.subrange(n - 9, n - 7)) as int,
        micros: decimal_value(text.subrange(n - 6, n)) as int,
    }
}

/// The character of a digit is a digit and stands for it.
pub proof fn lemma_digit_char(d: nat)
    requires
        d < 10,
    ensures
        is_digit(digit_char(d)),
        digit_value(digit_char(d)) == d,
{
}

/// The digits of a number write that number, and there is at least one.
pub proof fn lemma_digits(n: nat)
    ensures
        digits(n).len() >= 1,
        decimal_value(digits(n)) == n,
        is_digit(digits(n)[0]),
    decreases n,
{
    if n < 10 {
        lemma_digit_char(n);
        assert(digits(n).drop_last() =~= Seq::<char>::empty());
        assert(decimal_value(Seq::<char>::empty()) == 0);
    } else {
        lemma_digits(n / 10);
        lemma_digit_char(n % 10);
        assert(digits(n).drop_last() =~= digits(n / 10));
    }
}

/// A number below a hundred has at most two digits, one below a million
/// at most six.
pub proof fn lemma_digits_fit(n: nat)
    ensures
        n < 100 ==> digits(n).len() <= 2,
        n < 1_000_000 ==> digits(n).len() <= 6,
{
    reveal_with_fuel(digits, 7);
}

/// Zeros in front do not change what digits write.
pub proof fn lemma_zeros_in_front(count: nat, text: Seq<char>)
    ensures
        decimal_value(zeros(count) + text) == decimal_value(text),
    decreases text.len(), count,
{
    let whole = zeros(count) + text;
    if text.len() > 0 {
        assert(whole.drop_last() =~= zeros(count) + text.drop_last());
        lemma_zeros_in_front(count, text.drop_last());
    } else if count > 0 {
        assert(whole.drop_last() =~= zeros((count - 1) as nat) + text);
        lemma_zeros_in_front((count - 1) as nat, text);
    }
}

/// A padded number is as long as its width where it fits the width, it
/// begins with a digit, and it writes the number.
pub proof fn lemma_padded(n: nat, width: nat)
    requires
        width >= 1,
    ensures
        padded(n, width).len() >= width,
        digits(n).len() <= width ==> padded(n, width).len() == width,
        digits(n).len() >= width ==> padded(n, width) == digits(n),
        decimal_value(padded(n, width)) == n,
        is_digit(padded(n, width)[0]),
{
    lemma_digits(n);
    if digits(n).len() < width {
        lemma_zeros_in_front((width - digits(n).len()) as nat, digits(n));
    }
}

/// Reading the year that was written gives the year back.
pub proof fn lemma_year_read(year: int)
    ensures
        year_text(year).len() >= 4,
        year_read(year_text(year)) == year,
{
    if 0 <= year <= 9999 {
        lemma_padded(year as nat, 4);
    } else if year > 9999 {
        lemma_padded(year as nat, 4);
        let text = year_text(year);
        assert(text.subrange(1, text.len() as int) =~= padded(year as nat, 4));
    } else {
        lemma_padded((-year) as nat, 4);
        let text = year_text(year);
        assert(text.subrange(1, text.len() as int) =~= padded((-year) as nat, 4));
    }
}

/// Reading the moment that was written gives the moment back.
pub proof fn lemma_stamp_read(at: Civil)
    requires
        at.valid(),
    ensures
        stamp_read(stamp_text(at)) == at,
{
    let month = padded(at.month as nat, 2);
    let day = padded(at.day as nat, 2);
    let hour = padded(at.hour as nat, 2);
    let minute = padded(at.minute as nat, 2);
    let second = padded(at.second as nat, 2);
    let micros = padded(at.micros as nat, 6);
    let year = year_text(at.year);
    lemma_digits_fit(at.month as nat);
    lemma_digits_fit(at.day as nat);
    lemma_digits_fit(at.hour as nat);
    lemma_digits_fit(at.minute as nat);
    lemma_digits_fit(at.second as nat);
    lemma_digits_fit(at.micros as nat);
    lemma_padded(at.month as nat, 2);
    lemma_padded(at.day as nat, 2);
    lemma_padded(at.hour as nat, 2);
    lemma_padded(at.minute as nat, 2);
    lemma_padded(at.second as nat, 2);
    lemma_padded(at.micros as nat, 6);
    lemma_year_read(at.year);
    let text = stamp_text(at);
    let n = text.len() as int;
    assert(text.subrange(0, n - 18) =~= year);
    assert(text.subrange(n - 18, n - 16) =~= month);
    assert(text.subrange(n - 16, n - 14) =~= day);
    assert(text.subrange(n - 13, n - 11) =~= hour);
    assert(text.subrange(n - 11, n - 9) =~= minute);
    assert(text.subrange(n - 9, n - 7) =~= second);
    assert(text.subrange(n - 6, n) =~= micros);
}

/// Two change sets submitted for one stack at different moments, told
/// apart to the microsecond, never get the same name.
pub proof fn lemma_names_differ(stack: Seq<char>, first: Civil, second: Civil)
    requires
        first.valid(),
        second.valid(),
        first != second,
    ensures
        change_set_name_text(stack, first) != change_set_name_text(stack, second),
{
    let a = change_set_name_text(stack, first);
    let b = change_set_name_text(stack, second);
    if a == b {
        assert(a.subrange(stack.len() as int + 1, a.len() as int) =~= stamp_text(first));
        assert(b.subrange(stack.len() as int + 1, b.len() as int) =~= stamp_text(second));
        lemma_stamp_read(first);
        lemma_stamp_read(second);
    }
}

/// A reading of the calendar and the clock in UTC. A leap second is read
/// as second 59 with a thousand million nanoseconds or more.
#[derive(Clone, Copy, Debug, PartialEq, Eq)]
pub struct UtcStamp {
    year: i32,
    month: u32,
    day: u32,
    hour: u32,
    minute: u32,
    second: u32,
    nanosecond: u32,
}

/// The moment that a reading of the clock stands for.
pub open spec fn civil_of(
    year: int,
    month: int,
    day: int,
    hour: int,
    minute: int,
    second: int,
    nanosecond: int,
) -> Civil {
    Civil {
        year,
        month,
        day,
        hour,
        minute,
        second: second + nanosecond / 1_000_000_000,
        micros: (nanosecond % 1_000_000_000) / 1_000,
    }
}

/// Whether the parts of a reading lie within what the clock can read.
pub open spec fn readable(
    month: int,
    day: int,
    hour: int,
    minute: int,
    second: int,
    nanosecond: int,
) -> bool {
    &&& 1 <= month <= 12
    &&& 1 <= day <= 31
    &&& 0 <= hour <= 23
    &&& 0 <= minute <= 59
    &&& 0 <= second <= 59
    &&& 0 <= nanosecond <= 1_999_999_999
}

impl View for UtcStamp {
    type V = Civil;

    closed spec fn view(&self) -> Civil {
        civil_of(
            self.year as int,
            self.month as int,
            self.day as int,
            self.hour as int,
            self.minute as int,
            self.second as int,
            self.nanosecond as int,
        )
    }
}

/// The date and the time of day in UTC at the moment `seconds` and `nanos`
/// after the Unix epoch, as year, month, day, hour, minute, second and
/// nanosecond; none for a moment that the calendar does not reach.
pub uninterp spec fn utc_reading(seconds: int, nanos: int) -> Option<
    (int, int, int, int, int, int, int),
>;

/// `DateTime::from_timestamp` of the `chrono` crate, taken apart by the
/// accessors of its `Datelike` and `Timelike` traits. The call depends on
/// the two numbers alone and gives none, without panicking, for a moment
/// out of range or for nanoseconds that are no part of a second. Of a
/// moment it gives, the parts lie in the ranges that the documentation of
/// the accessors states.
#[verifier::external_body]
fn utc_parts(seconds: i64, nanos: u32) -> (r: Option<(i32, u32, u32, u32, u32, u32, u32)>)
    ensures
        match r {
            Some(p) => utc_reading(seconds as int, nanos as int) == Some(
                (p.0 as int, p.1 as int, p.2 as int, p.3 as int, p.4 as int, p.5 as int, p.6 as int),
            ) && readable(p.1 as int, p.2 as int, p.3 as int, p.4 as int, p.5 as int, p.6 as int),
            None => utc_reading(seconds as int, nanos as int) is None,
        },
{
    match chrono::DateTime::from_timestamp(seconds, nanos) {
        Some(at) => Some(
            (at.year(), at.month(), at.day(), at.hour(), at.minute(), at.second(), at.nanosecond()),
        ),
        None => None,
    }
}

/// The moment that the calendar gives for `seconds` and `nanos` after the
/// epoch, if it gives one.
pub open spec fn civil_at(seconds: int, nanos: int) -> Option<Civil> {
    match utc_reading(seconds, nanos) {
        Some(p) => Some(civil_of(p.0, p.1, p.2, p.3, p.4, p.5, p.6)),
        None => None,
    }
}

impl UtcStamp {
    #[verifier::type_invariant]
    spec fn within_ranges(self) -> bool {
        readable(
            self.month as int,
            self.day as int,
            self.hour as int,
            self.minute as int,
            self.second as int,
            self.nanosecond as int,
        )
    }

    /// The reading with these parts; none if a part lies outside what the
    /// clock can read.
    pub fn new(
        year: i32,
        month: u32,
        day: u32,
        hour: u32,
        minute: u32,
        second: u32,
        nanosecond: u32,
    ) -> (r: Option<UtcStamp>)
        ensures
            r is Some <==> readable(
                month as int,
                day as int,
                hour as int,
                minute as int,
                second as int,
                nanosecond as int,
            ),
            r matches Some(stamp) ==> stamp@ == civil_of(
                year as int,
                month as int,
                day as int,
                hour as int,
                minute as int,
                second as int,
                nanosecond as int,
            ) && stamp@.valid(),
    {
        if 1 <= month && month <= 12 && 1 <= day && day <= 31 && hour <= 23 && minute <= 59
            && second <= 59 && nanosecond <= 1_999_999_999 {
            Some(UtcStamp { year, month, day, hour, minute, second, nanosecond })
        } else {
            None
        }
    }

}

/// The reading of the calendar at the moment `seconds` and `nanos` after
/// the Unix epoch, as a clock that was read there hands it over; none for
/// a moment that the calendar does not reach.
pub fn stamp_at(seconds: i64, nanos: u32) -> (r: Option<UtcStamp>)
    ensures
        match r {
            Some(stamp) => civil_at(seconds as int, nanos as int) == Some(stamp@)
                && stamp@.valid(),
            None => civil_at(seconds as int, nanos as int) is None,
        },
{
    match utc_parts(seconds, nanos) {
        Some((year, month, day, hour, minute, second, nanosecond)) => UtcStamp::new(
            year,
            month,
            day,
            hour,
            minute,
            second,
            nanosecond,
        ),
        None => None,
    }
}

fn digit_text(d: u32) -> (text: &'static str)
    requires
        d < 10,
    ensures
        text@ == seq![digit_char(d as nat)],
{
    proof {
        reveal_strlit("0");
        reveal_strlit("1");
        reveal_strlit("2");
        reveal_strlit("3");
        reveal_strlit("4");
        reveal_strlit("5");
        reveal_strlit("6");
        reveal_strlit("7");
        reveal_strlit("8");
        reveal_strlit("9");
    }
    let text = if d == 0 {
        "0"
    } else if d == 1 {
        "1"
    } else if d == 2 {
        "2"
    } else if d == 3 {
        "3"
    } else if d == 4 {
        "4"
    } else if d == 5 {
        "5"
    } else if d == 6 {
        "6"
    } else if d == 7 {
        "7"
    } else if d == 8 {
        "8"
    } else {
        "9"
    };
    text
}

fn push_digits(out: &mut String, n: u32)
    ensures
        final(out)@ == old(out)@ + digits(n as nat),
    decreases n,
{
    if n >= 10 {
        push_digits(out, n / 10);
    }
    out.append(digit_text(n % 10));
}

fn count_digits(n: u32) -> (count: usize)
    ensures
        count == digits(n as nat).len(),
        count <= 10,
    decreases n,
{
    proof {
        reveal_with_fuel(digits, 11);
    }
    if n >= 10 {
        count_digits(n / 10) + 1
    } else {
        1
    }
}

fn push_padded(out: &mut String, n: u32, width: usize)
    ensures
        final(out)@ == old(out)@ + padded(n as nat, width as nat),
{
    let count = count_digits(n);
    let mut filled: usize = count;
    while filled < width
        invariant
            count <= filled,
            count < width ==> filled <= width,
            count >= width ==> filled == count,
            out@ == old(out)@ + zeros((filled - count) as nat),
        decreases width - filled,
    {
        proof {
            reveal_strlit("0");
        }
        out.append("0");
        filled = filled + 1;
    }
    push_digits(out, n);
}

fn push_year(out: &mut String, year: i32)
    ensures
        final(out)@ == old(out)@ + year_text(year as int),
{
    if 0 <= year && year <= 9999 {
        push_padded(out, year as u32, 4);
    } else if year > 9999 {
        proof {
            reveal_strlit("+");
        }
        out.append("+");
        push_padded(out, year as u32, 4);
    } else {
        proof {
            reveal_strlit("-");
        }
        out.append("-");
        let size: u32 = (-(year as i64)) as u32;
        push_padded(out, size, 4);
    }
}

/// The moment `at` as it is written in the name of a change set.
pub fn stamp(at: &UtcStamp) -> (text: String)
    ensures
        text@ == stamp_text(at@),
{
    proof {
        use_type_invariant(at);
        reveal_strlit("-");
    }
    let mut text = String::new();
    push_year(&mut text, at.year);
    push_padded(&mut text, at.month, 2);
    push_padded(&mut text, at.day, 2);
    text.append("-");
    push_padded(&mut text, at.hour, 2);
    push_padded(&mut text, at.minute, 2);
    push_padded(&mut text, at.second + at.nanosecond / 1_000_000_000, 2);
    text.append("-");
    push_padded(&mut text, (at.nanosecond % 1_000_000_000) / 1_000, 6);
    text
}

/// The name of a change set submitted for `stack` at the moment `at`.
pub fn change_set_name_at(stack: &str, at: &UtcStamp) -> (name: String)
    ensures
        name@ == change_set_name_text(stack@, at@),
{
    proof {
        reveal_strlit("-");
    }
    let written = stamp(at);
    let mut name = stack.to_owned();
    name.append("-");
    name.append(written.as_str());
    name
}

/// The name of a change set before it is written out: the stack it is
/// submitted for and the moment of its submission.
#[derive(Clone, Debug, PartialEq, Eq)]
pub struct ChangeSetName {
    pub stack: String,
    pub at: UtcStamp,
}

impl ChangeSetName {
    /// The name as it is written.
    pub open spec fn written(self) -> Seq<char> {
        change_set_name_text(self.stack@, self.at@)
    }

    /// The name as it is written: the stack, a hyphen, the moment.
    pub fn text(&self) -> (name: String)
        ensures
            name@ == self.written(),
    {
        change_set_name_at(self.stack.as_str(), &self.at)
    }

    /// Two names for one stack are written alike only if their moments
    /// are the same to the microsecond: submissions at different moments
    /// never collide in name.
    pub proof fn lemma_names_collide_only_at_one_moment(self, other: ChangeSetName)
        requires
            self.stack@ == other.stack@,
            self.at@.valid(),
            other.at@.valid(),
            self.written() == other.written(),
        ensures
            self.at@ == other.at@,
    {
        if self.at@ != other.at@ {
            lemma_names_differ(self.stack@, self.at@, other.at@);
        }
    }
}

} // verus!
