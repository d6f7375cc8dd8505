//! Bytes written out as the source text of a Cairo byte-array constant.

use crate::text::{decimal_text, push_decimal, push_short_hex_byte, push_text, short_hex_byte_text};
use vstd::prelude::*;

verus! {

/// How many bytes one line of the array holds.
pub const BYTES_PER_LINE: usize = 20;

/// The number of lines that `len` bytes take.
pub open spec fn line_count(len: nat) -> nat {
    ((len + 19) / 20) as nat
}

/// The bytes that line `k` holds: twenty of them, or fewer on the last line.
pub open spec fn line_bytes(bytes: Seq<u8>, k: int) -> Seq<u8> {
    bytes.subrange(20 * k, if 20 * k + 20 <= bytes.len() {
        20 * k + 20
    } else {
        bytes.len() as int
    })
}

/// The start of a line and its first `n` cells: three spaces, then for each
/// byte a space, the byte in hexadecimal and a comma.
pub open spec fn line_cells(chunk: Seq<u8>, n: nat) -> Seq<char>
    decreases n,
{
    if n == 0 {
        "   "@
    } else {
        (line_cells(chunk, (n - 1) as nat).push(' ') + short_hex_byte_text(chunk[n - 1])).push(',')
    }
}

/// One line of the array: all cells of the chunk and a line feed.
pub open spec fn line_text(chunk: Seq<u8>) -> Seq<char> {
    line_cells(chunk, chunk.len()).push('\n')
}

/// The opening line of the constant, which states the number of bytes,
/// followed by the first `n` lines of the array.
pub open spec fn cairo_lines(bytes: Seq<u8>, n: nat) -> Seq<char>
    decreases n,
{
    if n == 0 {
        "pub const DATA: [u8; "@ + decimal_text(bytes.len()) + "] = [\n"@
    } else {
        cairo_lines(bytes, (n - 1) as nat) + line_text(line_bytes(bytes, n - 1))
    }
}

/// The whole definition of the constant for `bytes`.
pub open spec fn cairo_text(bytes: Seq<u8>) -> Seq<char> {
    cairo_lines(bytes, line_count(bytes.len())) + "];\n"@
}

/// The text of one line of the array.
fn line_of(chunk: &[u8]) -> (line: String)
    ensures
        line@ == line_text(chunk@),
{
    let mut line = "   ".to_owned();
    let mut i: usize = 0;
    while i < chunk.len()
        invariant
            i <= chunk.len(),
            line@ == line_cells(chunk@, i as nat),
        decreases chunk.len() - i,
    {
        line.push(' ');
        push_short_hex_byte(&mut line, chunk[i]);
        line.push(',');
        i += 1;
    }
    line.push('\n');
    line
}

/// Writes `bytes` to `writer` as the definition of a Cairo constant
/// `DATA`: an opening line with the number of bytes, the bytes in
/// hexadecimal, twenty to a line, and a closing line.
pub fn write_cairo_bytes(writer: &mut String, bytes: &[u8])
    ensures
        final(writer)@ == old(writer)@ + cairo_text(bytes@),
{
    let mut text = "pub const DATA: [u8; ".to_owned();
    push_decimal(&mut text, bytes.len() as u64);
    push_text(&mut text, "] = [\n");
    let mut start: usize = 0;
    let ghost mut k: nat = 0;
    while start < bytes.len()
        invariant
            start <= bytes.len(),
            start == 20 * k || (start == bytes.len() && k == line_count(bytes@.len())),
            k <= line_count(bytes@.len()),
            text@ == cairo_lines(bytes@, k),
        decreases bytes.len() - start,
    {
        let end = if bytes.len() - start > BYTES_PER_LINE {
            start + BYTES_PER_LINE
        } else {
            bytes.len()
        };
        let line = line_of(&bytes[start..end]);
        push_text(&mut text, line.as_str());
        proof {
            k = k + 1;
        }
        start = end;
    }
    push_text(&mut text, "];\n");
    push_text(writer, text.as_str());
}

} // verus!
