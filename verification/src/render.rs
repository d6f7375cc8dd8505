//! Pieces of Cairo source text that the collateral generators share.

use crate::datetime::{
    month_name, month_text, parse_datetime, parse_datetime_chars, parse_datetime_spec, DateTime,
    DateTimeError,
};
use crate::format::{hex_lines, join_hex, joined_hex, lines_of_hex};
use crate::hexstr::{bytes_from_hex, hex_decoded, HexError};
use crate::text::{
    decimal_text, push_chars, push_decimal, push_signed_decimal, push_text, push_two_digits,
    signed_decimal_text, two_digit_text,
};
use vstd::prelude::*;
use vstd::utf8::encode_utf8;

verus! {

/// Why collateral could not be turned into source text.
#[derive(Clone, Copy, Debug, PartialEq, Eq)]
pub enum RenderError {
    /// A timestamp could not be read.
    DateTime(DateTimeError),
    /// A timestamp names a month that is none of 1 to 12.
    InvalidMonth(u8),
    /// A field that should hold hexadecimal text does not.
    Hex(HexError),
}

/// The timestamp that a text stands for, provided that its month has a name.
pub open spec fn named_datetime(s: Seq<char>) -> Result<DateTime, RenderError> {
    match parse_datetime_spec(s) {
        Err(e) => Err(RenderError::DateTime(e)),
        Ok(date) => if 1 <= date.month <= 12 {
            Ok(date)
        } else {
            Err(RenderError::InvalidMonth(date.month))
        },
    }
}

/// The statement that binds a variable to a timestamp, under a comment that
/// quotes the timestamp as it was written.
pub open spec fn date_binding_text(raw: Seq<char>, name: Seq<char>, date: DateTime) -> Seq<char> {
    "    // "@ + raw + "\n    let "@ + name + " = OffsetDateTimeTrait::new_utc(\n"@
        + "        DateTrait::from_calendar_date("@ + signed_decimal_text(date.year as int) + ", Month::"@
        + month_text(date.month) + ", "@ + decimal_text(date.day as nat) + ").unwrap(),\n"@
        + "        TimeTrait::from_hms_milli("@ + decimal_text(date.hour as nat) + ", "@
        + decimal_text(date.minute as nat) + ", "@ + decimal_text(date.second as nat) + ", "@
        + decimal_text(date.millisecond as nat) + ").unwrap(),\n"@ + "    );\n\n"@
}

/// The first `n` of the texts, each in double quotes, separated by a comma and a space.
pub open spec fn quoted_texts(items: Seq<String>, n: nat) -> Seq<char>
    decreases n,
{
    if n == 0 {
        Seq::empty()
    } else if n == 1 {
        "\""@ + items[0]@ + "\""@
    } else {
        quoted_texts(items, (n - 1) as nat) + ", \""@ + items[n - 1]@ + "\""@
    }
}

/// The value of an `advisory_ids` field: the list of identifiers where
/// there is one, and `Option::None` where there is none.
pub open spec fn advisory_ids_text(ids: Option<Vec<String>>) -> Seq<char> {
    match ids {
        Some(ids) => "Option::Some(array!["@ + quoted_texts(ids@, ids@.len()) + "].span()),\n"@,
        None => "Option::None,\n"@,
    }
}

/// The bytes that a field of hexadecimal text stands for.
pub open spec fn hex_field(s: Seq<char>) -> Result<Seq<u8>, RenderError> {
    match hex_decoded(encode_utf8(s)) {
        Ok(bytes) => Ok(bytes),
        Err(e) => Err(RenderError::Hex(e)),
    }
}

/// Reads a field of hexadecimal text.
pub fn read_hex_field(s: &str) -> (r: Result<Vec<u8>, RenderError>)
    ensures
        match hex_field(s@) {
            Ok(bytes) => r matches Ok(v) && v@ == bytes,
            Err(e) => r == Err::<Vec<u8>, RenderError>(e),
        },
{
    match bytes_from_hex(s) {
        Ok(bytes) => Ok(bytes),
        Err(e) => Err(RenderError::Hex(e)),
    }
}

/// The content of a piece of text that may have failed to be written.
pub open spec fn text_of(r: Result<String, RenderError>) -> Result<Seq<char>, RenderError> {
    match r {
        Ok(text) => Ok(text@),
        Err(e) => Err(e),
    }
}

/// Two pieces of text one after the other, or the first failure among them.
pub open spec fn then_text(
    a: Result<Seq<char>, RenderError>,
    b: Result<Seq<char>, RenderError>,
) -> Result<Seq<char>, RenderError> {
    match a {
        Err(e) => Err(e),
        Ok(first) => match b {
            Err(e) => Err(e),
            Ok(second) => Ok(first + second),
        },
    }
}

/// The first `n` pieces of text one after the other, or the first failure among them.
pub open spec fn sections_text(pieces: Seq<Result<Seq<char>, RenderError>>, n: nat) -> Result<
    Seq<char>,
    RenderError,
>
    decreases n,
{
    if n == 0 {
        Ok(Seq::empty())
    } else {
        then_text(sections_text(pieces, (n - 1) as nat), pieces[n - 1])
    }
}

/// Once a piece has failed, the pieces behind it change nothing.
pub proof fn lemma_sections_fail_early(
    pieces: Seq<Result<Seq<char>, RenderError>>,
    m: nat,
    n: nat,
)
    requires
        m <= n,
        sections_text(pieces, m) is Err,
    ensures
        sections_text(pieces, n) == sections_text(pieces, m),
    decreases n,
{
    if m < n {
        lemma_sections_fail_early(pieces, m, (n - 1) as nat);
    }
}

/// The statement that binds the variable `name` to the timestamp written as `raw`.
pub open spec fn named_binding_text(raw: Seq<char>, name: Seq<char>) -> Result<
    Seq<char>,
    RenderError,
> {
    match named_datetime(raw) {
        Ok(date) => Ok(date_binding_text(raw, name, date)),
        Err(e) => Err(e),
    }
}

/// The name of the variable that holds a TCB date: the date's year, month
/// and day behind `tcb_date`, month and day with two digits at least.
pub open spec fn date_variable_text(date: DateTime) -> Seq<char> {
    "tcb_date_"@ + signed_decimal_text(date.year as int) + "_"@ + two_digit_text(date.month as nat)
        + "_"@ + two_digit_text(date.day as nat)
}

/// The statement that binds the variable of a TCB date to that date.
pub open spec fn dated_binding_text(raw: Seq<char>) -> Result<Seq<char>, RenderError> {
    match named_datetime(raw) {
        Ok(date) => Ok(date_binding_text(raw, date_variable_text(date), date)),
        Err(e) => Err(e),
    }
}

/// The variable of the TCB date written as `raw`.
pub open spec fn date_reference_text(raw: Seq<char>) -> Result<Seq<char>, RenderError> {
    match parse_datetime_spec(raw) {
        Ok(date) => Ok(date_variable_text(date)),
        Err(e) => Err(RenderError::DateTime(e)),
    }
}

/// A field of hexadecimal text as the elements of an array on one line,
/// between `open` and `close`.
pub open spec fn hex_inline_text(
    open: Seq<char>,
    field: Seq<char>,
    upper: bool,
    close: Seq<char>,
) -> Result<Seq<char>, RenderError> {
    match hex_field(field) {
        Ok(bytes) => Ok(open + joined_hex(bytes, bytes.len(), upper) + close),
        Err(e) => Err(e),
    }
}

/// A field of hexadecimal text as the elements of an array on several
/// lines, between `open` and `close`.
pub open spec fn hex_rows_text(
    open: Seq<char>,
    field: Seq<char>,
    per_line: nat,
    indent: Seq<char>,
    opening: Seq<char>,
    close: Seq<char>,
) -> Result<Seq<char>, RenderError> {
    match hex_field(field) {
        Ok(bytes) => Ok(open + hex_lines(bytes, per_line, indent, false, opening) + close),
        Err(e) => Err(e),
    }
}

/// The value of an optional text field.
pub open spec fn optional_text(value: Option<String>) -> Seq<char> {
    match value {
        Some(text) => "Option::Some(\""@ + text@ + "\"),\n"@,
        None => "Option::None,\n"@,
    }
}

/// Appends a piece of text, or hands on the failure to write it.
pub fn push_section(out: &mut String, piece: Result<String, RenderError>) -> (r: Result<
    (),
    RenderError,
>)
    ensures
        match piece {
            Ok(text) => r is Ok && final(out)@ == old(out)@ + text@,
            Err(e) => r == Err::<(), RenderError>(e) && final(out)@ == old(out)@,
        },
{
    match piece {
        Ok(text) => {
            push_text(out, text.as_str());
            Ok(())
        },
        Err(e) => Err(e),
    }
}

/// The statement that binds the variable `name` to the timestamp written as `raw`.
pub fn named_binding(raw: &str, name: &str) -> (r: Result<String, RenderError>)
    ensures
        text_of(r) == named_binding_text(raw@, name@),
{
    let date = read_named_datetime(raw)?;
    Ok(date_binding(raw, name, &date))
}

/// The name of the variable that holds a TCB date.
pub fn date_variable(date: &DateTime) -> (out: String)
    ensures
        out@ == date_variable_text(*date),
{
    let mut out = "tcb_date_".to_owned();
    push_signed_decimal(&mut out, date.year);
    push_text(&mut out, "_");
    push_two_digits(&mut out, date.month);
    push_text(&mut out, "_");
    push_two_digits(&mut out, date.day);
    out
}

/// The statement that binds the variable of a TCB date to that date.
pub fn dated_binding(raw: &[char]) -> (r: Result<String, RenderError>)
    ensures
        text_of(r) == dated_binding_text(raw@),
{
    let date = match parse_datetime_chars(raw) {
        Ok(date) => date,
        Err(e) => {
            return Err(RenderError::DateTime(e));
        },
    };
    if !(1 <= date.month && date.month <= 12) {
        return Err(RenderError::InvalidMonth(date.month));
    }
    let mut text = String::new();
    push_chars(&mut text, raw);
    assert(text@ =~= raw@);
    let name = date_variable(&date);
    Ok(date_binding(text.as_str(), name.as_str(), &date))
}

/// The variable of the TCB date written as `raw`.
pub fn date_reference(raw: &str) -> (r: Result<String, RenderError>)
    ensures
        text_of(r) == date_reference_text(raw@),
{
    match parse_datetime(raw) {
        Ok(date) => Ok(date_variable(&date)),
        Err(e) => Err(RenderError::DateTime(e)),
    }
}

/// A field of hexadecimal text as the elements of an array on one line.
pub fn hex_inline(open: &str, field: &str, upper: bool, close: &str) -> (r: Result<
    String,
    RenderError,
>)
    ensures
        text_of(r) == hex_inline_text(open@, field@, upper, close@),
{
    let bytes = read_hex_field(field)?;
    let mut out = open.to_owned();
    push_text(&mut out, join_hex(bytes.as_slice(), upper).as_str());
    push_text(&mut out, close);
    Ok(out)
}

/// A field of hexadecimal text as the elements of an array on several lines.
pub fn hex_rows(
    open: &str,
    field: &str,
    per_line: usize,
    indent: &str,
    opening: &str,
    close: &str,
) -> (r: Result<String, RenderError>)
    requires
        per_line > 0,
    ensures
        text_of(r) == hex_rows_text(open@, field@, per_line as nat, indent@, opening@, close@),
{
    let bytes = read_hex_field(field)?;
    let mut out = open.to_owned();
    push_text(&mut out, lines_of_hex(bytes.as_slice(), per_line, indent, false, opening).as_str());
    push_text(&mut out, close);
    Ok(out)
}

/// The value of an optional text field.
pub fn optional_value(value: &Option<String>) -> (out: String)
    ensures
        out@ == optional_text(*value),
{
    match value {
        Some(text) => {
            let mut out = "Option::Some(\"".to_owned();
            push_text(&mut out, text.as_str());
            push_text(&mut out, "\"),\n");
            out
        },
        None => "Option::None,\n".to_owned(),
    }
}

/// Reads a timestamp and checks that its month has a name.
pub fn read_named_datetime(s: &str) -> (r: Result<DateTime, RenderError>)
    ensures
        r == named_datetime(s@),
{
    match parse_datetime(s) {
        Err(e) => Err(RenderError::DateTime(e)),
        Ok(date) => if 1 <= date.month && date.month <= 12 {
            Ok(date)
        } else {
            Err(RenderError::InvalidMonth(date.month))
        },
    }
}

/// The statement that binds the variable `name` to `date`.
pub fn date_binding(raw: &str, name: &str, date: &DateTime) -> (out: String)
    requires
        1 <= date.month <= 12,
    ensures
        out@ == date_binding_text(raw@, name@, *date),
{
    let mut out = "    // ".to_owned();
    push_text(&mut out, raw);
    push_text(&mut out, "\n    let ");
    push_text(&mut out, name);
    push_text(&mut out, " = OffsetDateTimeTrait::new_utc(\n");
    push_text(&mut out, "        DateTrait::from_calendar_date(");
    push_signed_decimal(&mut out, date.year);
    push_text(&mut out, ", Month::");
    push_text(&mut out, month_name(date.month));
    push_text(&mut out, ", ");
    push_decimal(&mut out, date.day as u64);
    push_text(&mut out, ").unwrap(),\n");
    push_text(&mut out, "        TimeTrait::from_hms_milli(");
    push_decimal(&mut out, date.hour as u64);
    push_text(&mut out, ", ");
    push_decimal(&mut out, date.minute as u64);
    push_text(&mut out, ", ");
    push_decimal(&mut out, date.second as u64);
    push_text(&mut out, ", ");
    push_decimal(&mut out, date.millisecond as u64);
    push_text(&mut out, ").unwrap(),\n");
    push_text(&mut out, "    );\n\n");
    out
}

/// The texts, each in double quotes, separated by a comma and a space.
pub fn quoted_list(items: &[String]) -> (out: String)
    ensures
        out@ == quoted_texts(items@, items@.len()),
{
    let mut out = String::new();
    let mut i: usize = 0;
    while i < items.len()
        invariant
            i <= items.len(),
            out@ == quoted_texts(items@, i as nat),
        decreases items.len() - i,
    {
        if i > 0 {
            push_text(&mut out, ", \"");
            push_text(&mut out, items[i].as_str());
            push_text(&mut out, "\"");
        } else {
            let mut first = "\"".to_owned();
            push_text(&mut first, items[i].as_str());
            push_text(&mut first, "\"");
            push_text(&mut out, first.as_str());
            assert(out@ =~= first@);
        }
        i += 1;
    }
    out
}

/// The value of an `advisory_ids` field.
pub fn advisory_ids_value(ids: &Option<Vec<String>>) -> (out: String)
    ensures
        out@ == advisory_ids_text(*ids),
{
    match ids {
        Some(ids) => {
            let mut out = "Option::Some(array![".to_owned();
            let list = quoted_list(ids.as_slice());
            push_text(&mut out, list.as_str());
            push_text(&mut out, "].span()),\n");
            out
        },
        None => "Option::None,\n".to_owned(),
    }
}

} // verus!
