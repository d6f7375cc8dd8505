//! Bytes written out as the elements of a Cairo array literal.

use crate::text::{hex_byte_text, push_hex_byte, push_text};
use vstd::prelude::*;
use vstd::utf8::{
    decode_utf8, encode_utf8, encode_utf8_decode_utf8, encode_utf8_valid_utf8, is_ascii_chars,
    is_ascii_chars_encode_utf8, is_char_boundary, is_char_boundary_iff_not_is_continuation_byte,
    is_continuation_byte,
};

verus! {

/// The first `n` bytes in hexadecimal, separated by a comma and a space.
pub open spec fn joined_hex(bytes: Seq<u8>, n: nat, upper: bool) -> Seq<char>
    decreases n,
{
    if n == 0 {
        Seq::empty()
    } else if n == 1 {
        hex_byte_text(bytes[0], upper)
    } else {
        joined_hex(bytes, (n - 1) as nat, upper) + ", "@ + hex_byte_text(bytes[n - 1], upper)
    }
}

/// The bytes in lines of at most `per_line`. Every line starts with
/// `indent`. Before the first line stands `opening`; between two lines
/// stand a comma and a line feed.
pub open spec fn hex_lines(
    bytes: Seq<u8>,
    per_line: nat,
    indent: Seq<char>,
    upper: bool,
    opening: Seq<char>,
) -> Seq<char>
    decreases bytes.len(),
{
    if bytes.len() == 0 || per_line == 0 {
        Seq::empty()
    } else {
        let n = if per_line < bytes.len() {
            per_line
        } else {
            bytes.len()
        };
        opening + indent + joined_hex(bytes.take(n as int), n, upper) + hex_lines(
            bytes.skip(n as int),
            per_line,
            indent,
            upper,
            ",\n"@,
        )
    }
}

/// Whether four bytes can be cut off the end of `indent`: it has as many,
/// and the cut does not fall inside a character.
pub open spec fn can_close(indent: Seq<char>) -> bool {
    &&& encode_utf8(indent).len() >= 4
    &&& is_char_boundary(encode_utf8(indent), encode_utf8(indent).len() - 4)
}

/// `indent` without its last four bytes, as text.
pub open spec fn closing_indent(indent: Seq<char>) -> Seq<char> {
    decode_utf8(encode_utf8(indent).subrange(0, encode_utf8(indent).len() - 4))
}

/// The lines of a multi-line array literal: the bytes in lines, a comma
/// behind the last byte, and on a line of its own the indentation of the
/// closing bracket, which is four bytes less than that of the lines.
pub open spec fn multiline_text(bytes: Seq<u8>, per_line: nat, indent: Seq<char>, upper: bool)
    -> Seq<char> {
    hex_lines(bytes, per_line, indent, upper, "\n"@) + ",\n"@ + closing_indent(indent)
}

/// Whether any character is an ASCII upper-case letter.
pub open spec fn has_ascii_uppercase(s: Seq<char>) -> bool {
    exists|i: int| 0 <= i < s.len() && 'A' <= #[trigger] s[i] <= 'Z'
}

/// An indentation of four or more ASCII characters can be closed, and the
/// closing indentation is the same text without its last four characters.
pub proof fn lemma_ascii_can_close(indent: Seq<char>)
    requires
        is_ascii_chars(indent),
        indent.len() >= 4,
    ensures
        can_close(indent),
        closing_indent(indent) == indent.take(indent.len() - 4),
{
    let bytes = encode_utf8(indent);
    let cut = indent.len() - 4;
    let kept = indent.take(cut);
    is_ascii_chars_encode_utf8(indent);
    is_ascii_chars_encode_utf8(kept);
    encode_utf8_valid_utf8(indent);
    assert(encode_utf8(kept) =~= bytes.subrange(0, cut));
    encode_utf8_decode_utf8(kept);
    if cut == 0 {
    } else {
        let b = bytes[cut];
        assert(b == indent[cut] as u8);
        assert(b < 0x80);
        assert(!is_continuation_byte(b)) by (bit_vector)
            requires
                b < 0x80u8,
        ;
        is_char_boundary_iff_not_is_continuation_byte(bytes, cut);
    }
}

/// The bytes in hexadecimal, separated by a comma and a space.
pub fn join_hex(bytes: &[u8], upper: bool) -> (out: String)
    ensures
        out@ == joined_hex(bytes@, bytes@.len(), upper),
{
    let mut out = String::new();
    let mut i: usize = 0;
    while i < bytes.len()
        invariant
            i <= bytes.len(),
            out@ == joined_hex(bytes@, i as nat, upper),
        decreases bytes.len() - i,
    {
        if i > 0 {
            push_text(&mut out, ", ");
            push_hex_byte(&mut out, bytes[i], upper);
        } else {
            push_hex_byte(&mut out, bytes[i], upper);
            assert(out@ =~= hex_byte_text(bytes@[0], upper));
        }
        i += 1;
    }
    out
}

/// Whether `s` holds an ASCII upper-case letter.
pub fn contains_ascii_uppercase(s: &str) -> (found: bool)
    ensures
        found == has_ascii_uppercase(s@),
{
    let mut found = false;
    for c in it: s.chars()
        invariant
            it.seq() == s@,
            found == has_ascii_uppercase(s@.take(it.index() as int)),
    {
        let ghost before = s@.take(it.index() as int);
        let ghost after = s@.take(it.index() + 1);
        assert(forall|i: int| 0 <= i < before.len() ==> before[i] == after[i]);
        if 'A' <= c && c <= 'Z' {
            assert('A' <= after[it.index() as int] <= 'Z');
            found = true;
        } else {
            assert(has_ascii_uppercase(after) ==> has_ascii_uppercase(before)) by {
                if has_ascii_uppercase(after) {
                    let i = choose|i: int| 0 <= i < after.len() && 'A' <= #[trigger] after[i] <= 'Z';
                    assert('A' <= before[i] <= 'Z');
                }
            }
            assert(has_ascii_uppercase(before) ==> has_ascii_uppercase(after)) by {
                if has_ascii_uppercase(before) {
                    let i = choose|i: int|
                        0 <= i < before.len() && 'A' <= #[trigger] before[i] <= 'Z';
                    assert('A' <= after[i] <= 'Z');
                }
            }
        }
    }
    assert(s@.take(s@.len() as int) =~= s@);
    found
}

/// Formats bytes on one line, in upper-case hexadecimal.
pub fn format_bytes_inline(bytes: &[u8]) -> (out: String)
    ensures
        out@ == joined_hex(bytes@, bytes@.len(), true),
{
    join_hex(bytes, true)
}

/// Formats bytes on one line, in the letter case that `hex_str` shows:
/// upper case if it holds any upper-case letter, lower case otherwise.
/// The multi-line form needs an indentation, which this function has none
/// to give: ask for it by [`format_bytes_from_hex_string_multiline`].
pub fn format_bytes_from_hex_string(hex_str: &str, bytes: &[u8], multiline: bool) -> (out: String)
    requires
        !multiline,
    ensures
        out@ == joined_hex(bytes@, bytes@.len(), has_ascii_uppercase(hex_str@)),
{
    let upper = contains_ascii_uppercase(hex_str);
    join_hex(bytes, upper)
}

/// Formats bytes in lines of `per_line`, in lower-case hexadecimal.
pub fn format_bytes_multiline(bytes: &[u8], per_line: usize, indent: &str) -> (out: String)
    requires
        per_line > 0,
        can_close(indent@),
    ensures
        out@ == multiline_text(bytes@, per_line as nat, indent@, false),
{
    format_bytes_from_hex_string_multiline_impl(bytes, per_line, indent, false)
}

/// Formats bytes in lines of `per_line`, in the letter case that `hex_str`
/// shows: upper case if it holds any upper-case letter, lower case otherwise.
pub fn format_bytes_from_hex_string_multiline(
    hex_str: &str,
    bytes: &[u8],
    per_line: usize,
    indent: &str,
) -> (out: String)
    requires
        per_line > 0,
        can_close(indent@),
    ensures
        out@ == multiline_text(bytes@, per_line as nat, indent@, has_ascii_uppercase(hex_str@)),
{
    let upper = contains_ascii_uppercase(hex_str);
    format_bytes_from_hex_string_multiline_impl(bytes, per_line, indent, upper)
}

/// Formats bytes in lines of at most `per_line`, each behind `indent`, with
/// `opening` before the first line and a comma and a line feed between lines.
pub fn lines_of_hex(bytes: &[u8], per_line: usize, indent: &str, upper: bool, opening: &str) -> (out:
    String)
    requires
        per_line > 0,
    ensures
        out@ == hex_lines(bytes@, per_line as nat, indent@, upper, opening@),
{
    let ghost whole = hex_lines(bytes@, per_line as nat, indent@, upper, opening@);
    let mut out = String::new();
    let mut start: usize = 0;
    assert(bytes@.skip(0) =~= bytes@);
    assert(out@ + whole =~= whole);
    while start < bytes.len()
        invariant
            start <= bytes.len(),
            per_line > 0,
            whole == out@ + hex_lines(
                bytes@.skip(start as int),
                per_line as nat,
                indent@,
                upper,
                if start == 0 {
                    opening@
                } else {
                    ",\n"@
                },
            ),
        decreases bytes.len() - start,
    {
        let end = if bytes.len() - start > per_line {
            start + per_line
        } else {
            bytes.len()
        };
        let ghost before = out@;
        let ghost rest = bytes@.skip(start as int);
        let ghost n = end - start;
        let ghost lead = if start == 0 {
            opening@
        } else {
            ",\n"@
        };
        if start > 0 {
            push_text(&mut out, ",\n");
        } else {
            push_text(&mut out, opening);
        }
        push_text(&mut out, indent);
        let line = join_hex(&bytes[start..end], upper);
        push_text(&mut out, line.as_str());
        proof {
            assert(rest.take(n) =~= bytes@.subrange(start as int, end as int));
            assert(rest.skip(n) =~= bytes@.skip(end as int));
            let tail = hex_lines(bytes@.skip(end as int), per_line as nat, indent@, upper, ",\n"@);
            assert(hex_lines(rest, per_line as nat, indent@, upper, lead) == lead + indent@
                + line@ + tail);
            assert(before + (lead + indent@ + line@ + tail) =~= out@ + tail);
        }
        start = end;
    }
    assert(out@ + Seq::<char>::empty() =~= out@);
    out
}

/// Formats bytes in lines of `per_line`, in the letter case asked for.
pub fn format_bytes_from_hex_string_multiline_impl(
    bytes: &[u8],
    per_line: usize,
    indent: &str,
    uppercase: bool,
) -> (out: String)
    requires
        per_line > 0,
        can_close(indent@),
    ensures
        out@ == multiline_text(bytes@, per_line as nat, indent@, uppercase),
{
    let mut out = lines_of_hex(bytes, per_line, indent, uppercase, "\n");
    push_text(&mut out, ",\n");
    let closing = indent.split_at(indent.as_bytes().len() - 4).0;
    proof {
        assert(encode_utf8(closing@) == encode_utf8(indent@).subrange(
            0,
            encode_utf8(indent@).len() - 4,
        ));
        encode_utf8_decode_utf8(closing@);
    }
    push_text(&mut out, closing);
    out
}

} // verus!
