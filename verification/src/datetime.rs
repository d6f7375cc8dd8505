//! Timestamps of the form `2025-02-13T03:39:00Z`.

use crate::text::chars_of;
use vstd::prelude::*;

verus! {

/// A point in time, field by field, as it was written. No field is checked
/// against a calendar: a month of 13 is kept as 13.
#[derive(Clone, Copy, Debug, PartialEq, Eq)]
pub struct DateTime {
    pub year: i32,
    pub month: u8,
    pub day: u8,
    pub hour: u8,
    pub minute: u8,
    pub second: u8,
    pub millisecond: u16,
}

/// Why a timestamp could not be read.
#[derive(Clone, Copy, Debug, PartialEq, Eq)]
pub enum DateTimeError {
    /// The text does not consist of a date and a time with one `T` between them.
    InvalidDateTimeFormat,
    /// The date does not consist of three parts with `-` between them.
    InvalidDateFormat,
    /// The time does not consist of three parts with `:` between them.
    InvalidTimeFormat,
    /// A part is not a number, or is a number too large for its field.
    InvalidNumber,
}

/// The index of the first `c` in `s`, or the length of `s` if there is none.
pub open spec fn first_index(s: Seq<char>, c: char) -> int
    decreases s.len(),
{
    if s.len() == 0 || s[0] == c {
        0
    } else {
        1 + first_index(s.skip(1), c)
    }
}

/// The parts of `s` between occurrences of `sep`. A text without `sep` is
/// one part, and so is the empty text.
pub open spec fn split(s: Seq<char>, sep: char) -> Seq<Seq<char>>
    decreases s.len(),
{
    let i = first_index(s, sep);
    if 0 <= i < s.len() {
        seq![s.take(i)] + split(s.skip(i + 1), sep)
    } else {
        seq![s]
    }
}

/// `s` without the `Z`s at its end.
pub open spec fn without_trailing_z(s: Seq<char>) -> Seq<char>
    decreases s.len(),
{
    if s.len() > 0 && s.last() == 'Z' {
        without_trailing_z(s.drop_last())
    } else {
        s
    }
}

/// Whether `c` is one of `0` to `9`.
pub open spec fn is_digit(c: char) -> bool {
    '0' <= c <= '9'
}

/// The number that a sequence of decimal digits stands for.
pub open spec fn digits_value(s: Seq<char>) -> nat
    decreases s.len(),
{
    if s.len() == 0 {
        0
    } else {
        (digits_value(s.drop_last()) * 10 + (s.last() as int - '0' as int)) as nat
    }
}

/// Whether every character of `s` is a decimal digit.
pub open spec fn all_digits(s: Seq<char>) -> bool {
    forall|i: int| 0 <= i < s.len() ==> is_digit(#[trigger] s[i])
}

/// `s` without the `+` that may stand in front of a number.
pub open spec fn without_plus(s: Seq<char>) -> Seq<char> {
    if s.len() > 0 && s[0] == '+' {
        s.skip(1)
    } else {
        s
    }
}

/// The number that `s` stands for: one or more decimal digits, with perhaps
/// a `+` in front and nothing else around them, whose value is at most `max`.
pub open spec fn parse_number(s: Seq<char>, max: nat) -> Option<nat> {
    let digits = without_plus(s);
    if digits.len() > 0 && all_digits(digits) && digits_value(digits) <= max {
        Some(digits_value(digits))
    } else {
        None
    }
}

/// The contents of a list of parts.
pub open spec fn parts_view(parts: Seq<Vec<char>>) -> Seq<Seq<char>> {
    parts.map_values(|part: Vec<char>| part@)
}

/// The timestamp that a text stands for. Trailing `Z`s are dropped; what is
/// left must be a date `year-month-day`, a `T`, and a time
/// `hour:minute:second`, each part a number that fits its field.
/// The millisecond is always zero.
pub open spec fn parse_datetime_spec(s: Seq<char>) -> Result<DateTime, DateTimeError> {
    let halves = split(without_trailing_z(s), 'T');
    if halves.len() != 2 {
        Err(DateTimeError::InvalidDateTimeFormat)
    } else {
        let date = split(halves[0], '-');
        let time = split(halves[1], ':');
        if date.len() != 3 {
            Err(DateTimeError::InvalidDateFormat)
        } else if time.len() != 3 {
            Err(DateTimeError::InvalidTimeFormat)
        } else {
            match (
                parse_number(date[0], 0x7fff_ffff),
                parse_number(date[1], 255),
                parse_number(date[2], 255),
                parse_number(time[0], 255),
                parse_number(time[1], 255),
                parse_number(time[2], 255),
            ) {
                (Some(year), Some(month), Some(day), Some(hour), Some(minute), Some(second)) => Ok(
                    DateTime {
                        year: year as i32,
                        month: month as u8,
                        day: day as u8,
                        hour: hour as u8,
                        minute: minute as u8,
                        second: second as u8,
                        millisecond: 0,
                    },
                ),
                _ => Err(DateTimeError::InvalidNumber),
            }
        }
    }
}

/// The English name of a month, counted from 1.
pub open spec fn month_text(month: u8) -> Seq<char> {
    if month == 1 {
        "January"@
    } else if month == 2 {
        "February"@
    } else if month == 3 {
        "March"@
    } else if month == 4 {
        "April"@
    } else if month == 5 {
        "May"@
    } else if month == 6 {
        "June"@
    } else if month == 7 {
        "July"@
    } else if month == 8 {
        "August"@
    } else if month == 9 {
        "September"@
    } else if month == 10 {
        "October"@
    } else if month == 11 {
        "November"@
    } else {
        "December"@
    }
}

/// An owned copy of `s[from..to]`.
fn copy_chars(s: &[char], from: usize, to: usize) -> (out: Vec<char>)
    requires
        from <= to <= s@.len(),
    ensures
        out@ == s@.subrange(from as int, to as int),
{
    let mut out: Vec<char> = Vec::new();
    let mut i = from;
    while i < to
        invariant
            from <= i <= to <= s@.len(),
            out@ == s@.subrange(from as int, i as int),
        decreases to - i,
    {
        out.push(s[i]);
        i += 1;
        assert(out@ =~= s@.subrange(from as int, i as int));
    }
    out
}

/// Splits the first `end` characters of `s` at every `sep`.
fn split_chars(s: &[char], end: usize, sep: char) -> (parts: Vec<Vec<char>>)
    requires
        end <= s@.len(),
    ensures
        parts_view(parts@) == split(s@.take(end as int), sep),
{
    let ghost text = s@.take(end as int);
    let mut head: Vec<char> = Vec::new();
    let mut parts: Vec<Vec<char>> = Vec::new();
    let mut start: usize = 0;
    let mut done = false;
    assert(text.skip(0) =~= text);
    assert(parts_view(parts@) + split(text, sep) =~= split(text, sep));
    while !done
        invariant
            start <= end <= s@.len(),
            text == s@.take(end as int),
            !done ==> split(text, sep) == parts_view(parts@) + split(text.skip(start as int), sep),
            done ==> split(text, sep) == parts_view(parts@),
        decreases end - start + if done { 0int } else { 1int },
    {
        let ghost rest = text.skip(start as int);
        let ghost before = parts_view(parts@);
        let i = find_bounded(s, start, end, sep);
        let part = copy_chars(s, start, i);
        assert(part@ =~= rest.take(i - start));
        parts.push(part);
        assert(parts_view(parts@) =~= before.push(part@));
        if i < end {
            assert(rest.skip(i - start + 1) =~= text.skip(i + 1));
            assert(before + (seq![part@] + split(text.skip(i + 1), sep)) =~= before.push(part@)
                + split(text.skip(i + 1), sep));
            start = i + 1;
        } else {
            assert(rest.take(i - start) =~= rest);
            assert(before + seq![rest] =~= before.push(part@));
            done = true;
        }
    }
    parts
}

/// The index of the first `c` in `s[from..end]`, or `end`.
fn find_bounded(s: &[char], from: usize, end: usize, c: char) -> (i: usize)
    requires
        from <= end <= s@.len(),
    ensures
        from <= i <= end,
        i - from == first_index(s@.take(end as int).skip(from as int), c),
{
    let ghost text = s@.take(end as int);
    let mut i = from;
    while i < end && s[i] != c
        invariant
            from <= i <= end <= s@.len(),
            text == s@.take(end as int),
            first_index(text.skip(from as int), c) == (i - from) + first_index(
                text.skip(i as int),
                c,
            ),
        decreases end - i,
    {
        assert(text.skip(i as int).skip(1) =~= text.skip(i + 1));
        i += 1;
    }
    i
}

/// The length of `s` without the `Z`s at its end.
fn trimmed_len(s: &[char]) -> (end: usize)
    ensures
        end <= s@.len(),
        s@.take(end as int) == without_trailing_z(s@),
{
    let mut end = s.len();
    assert(s@.take(end as int) =~= s@);
    while end > 0 && s[end - 1] == 'Z'
        invariant
            end <= s@.len(),
            without_trailing_z(s@) == without_trailing_z(s@.take(end as int)),
        decreases end,
    {
        assert(s@.take(end as int).drop_last() =~= s@.take(end - 1));
        end -= 1;
    }
    end
}

/// Adding a digit to a number that is already too large leaves it too large.
proof fn lemma_digits_value_grows(s: Seq<char>, n: int)
    requires
        0 <= n <= s.len(),
        all_digits(s),
    ensures
        digits_value(s.take(n)) <= digits_value(s),
    decreases s.len() - n,
{
    if n < s.len() {
        lemma_digits_value_grows(s, n + 1);
        assert(s.take(n + 1).drop_last() =~= s.take(n));
    } else {
        assert(s.take(n) =~= s);
    }
}

/// Reads a decimal number of at most `max` from a part of a timestamp.
fn read_number(s: &[char], max: u32) -> (r: Option<u32>)
    ensures
        match parse_number(s@, max as nat) {
            Some(value) => r == Some(value as u32),
            None => r is None,
        },
{
    let start: usize = if s.len() > 0 && s[0] == '+' {
        1
    } else {
        0
    };
    let ghost digits = s@.skip(start as int);
    assert(s@.skip(0) =~= s@);
    if start == s.len() {
        return None;
    }
    let mut value: u64 = 0;
    let mut i = start;
    assert(digits.take(0) =~= Seq::<char>::empty());
    while i < s.len()
        invariant
            start <= i <= s@.len(),
            start < s@.len(),
            digits == s@.skip(start as int),
            digits == without_plus(s@),
            forall|k: int| 0 <= k < i - start ==> is_digit(#[trigger] digits[k]),
            value == digits_value(digits.take(i - start)),
            value <= max,
        decreases s.len() - i,
    {
        let c = s[i];
        if !('0' <= c && c <= '9') {
            assert(!is_digit(digits[i - start]));
            return None;
        }
        let digit = (c as u32 - '0' as u32) as u64;
        assert(digits.take(i - start + 1).drop_last() =~= digits.take(i - start));
        let next = value * 10 + digit;
        if next > max as u64 {
            proof {
                if all_digits(digits) {
                    lemma_digits_value_grows(digits, i - start + 1);
                }
            }
            return None;
        }
        value = next;
        i += 1;
    }
    assert(digits.take(i - start) =~= digits);
    Some(value as u32)
}

/// Reads a timestamp such as `2025-02-13T03:39:00Z`.
pub fn parse_datetime(datetime_str: &str) -> (r: Result<DateTime, DateTimeError>)
    ensures
        r == parse_datetime_spec(datetime_str@),
{
    let chars = chars_of(datetime_str);
    parse_datetime_chars(chars.as_slice())
}

/// Reads a timestamp given as a sequence of characters.
pub fn parse_datetime_chars(chars: &[char]) -> (r: Result<DateTime, DateTimeError>)
    ensures
        r == parse_datetime_spec(chars@),
{
    let end = trimmed_len(chars);
    let halves = split_chars(chars, end, 'T');
    if halves.len() != 2 {
        return Err(DateTimeError::InvalidDateTimeFormat);
    }
    assert(parts_view(halves@)[0] == halves@[0]@);
    assert(parts_view(halves@)[1] == halves@[1]@);
    let date = split_chars(halves[0].as_slice(), halves[0].len(), '-');
    assert(halves@[0]@.take(halves@[0]@.len() as int) =~= halves@[0]@);
    if date.len() != 3 {
        return Err(DateTimeError::InvalidDateFormat);
    }
    let time = split_chars(halves[1].as_slice(), halves[1].len(), ':');
    assert(halves@[1]@.take(halves@[1]@.len() as int) =~= halves@[1]@);
    if time.len() != 3 {
        return Err(DateTimeError::InvalidTimeFormat);
    }
    assert(parts_view(date@)[0] == date@[0]@);
    assert(parts_view(date@)[1] == date@[1]@);
    assert(parts_view(date@)[2] == date@[2]@);
    assert(parts_view(time@)[0] == time@[0]@);
    assert(parts_view(time@)[1] == time@[1]@);
    assert(parts_view(time@)[2] == time@[2]@);
    let year = read_number(date[0].as_slice(), 0x7fff_ffff);
    let month = read_number(date[1].as_slice(), 255);
    let day = read_number(date[2].as_slice(), 255);
    let hour = read_number(time[0].as_slice(), 255);
    let minute = read_number(time[1].as_slice(), 255);
    let second = read_number(time[2].as_slice(), 255);
    match (year, month, day, hour, minute, second) {
        (Some(year), Some(month), Some(day), Some(hour), Some(minute), Some(second)) => Ok(
            DateTime {
                year: year as i32,
                month: month as u8,
                day: day as u8,
                hour: hour as u8,
                minute: minute as u8,
                second: second as u8,
                millisecond: 0,
            },
        ),
        _ => Err(DateTimeError::InvalidNumber),
    }
}

/// The English name of a month, counted from 1.
pub fn month_name(month: u8) -> (name: &'static str)
    requires
        1 <= month <= 12,
    ensures
        name@ == month_text(month),
{
    match month {
        1 => "January",
        2 => "February",
        3 => "March",
        4 => "April",
        5 => "May",
        6 => "June",
        7 => "July",
        8 => "August",
        9 => "September",
        10 => "October",
        11 => "November",
        _ => "December",
    }
}

} // verus!
