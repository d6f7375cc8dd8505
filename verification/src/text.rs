//! Building and reading text one character at a time.

use vstd::prelude::*;
use vstd::string::StringExecFns;

verus! {

/// `String::push` appends one character to the end of the string.
pub assume_specification[ String::push ](s: &mut String, c: char)
    ensures
        final(s)@ == old(s)@.push(c),
;

/// The characters of `s`, in order.
pub fn chars_of(s: &str) -> (out: Vec<char>)
    ensures
        out@ == s@,
{
    let mut out: Vec<char> = Vec::new();
    for c in it: s.chars()
        invariant
            out@ == it.seq().take(it.index() as int),
            it.seq() == s@,
    {
        out.push(c);
        assert(out@ =~= it.seq().take(it.index() + 1));
    }
    assert(out@ =~= s@);
    out
}

/// Appends the characters of `piece` to `out`.
pub fn push_chars(out: &mut String, piece: &[char])
    ensures
        final(out)@ == old(out)@ + piece@,
{
    let mut i: usize = 0;
    assert(out@ =~= old(out)@ + piece@.take(0));
    while i < piece.len()
        invariant
            i <= piece.len(),
            out@ == old(out)@ + piece@.take(i as int),
        decreases piece.len() - i,
    {
        out.push(piece[i]);
        i += 1;
        assert(out@ =~= old(out)@ + piece@.take(i as int));
    }
    assert(piece@.take(i as int) =~= piece@);
}

/// Appends `piece` to `out`.
pub fn push_text(out: &mut String, piece: &str)
    ensures
        final(out)@ == old(out)@ + piece@,
{
    out.append(piece);
}

/// The character that stands for a digit below sixteen: `0` to `9`, then
/// `a` to `f`, or `A` to `F` where `upper` is set.
pub open spec fn digit_char(d: int, upper: bool) -> char {
    if d < 10 {
        (0x30 + d) as char
    } else if upper {
        (0x41 + d - 10) as char
    } else {
        (0x61 + d - 10) as char
    }
}

/// The decimal digits of `n`, without leading zeros.
pub open spec fn decimal_text(n: nat) -> Seq<char>
    decreases n,
{
    if n < 10 {
        seq![digit_char(n as int, false)]
    } else {
        decimal_text(n / 10).push(digit_char((n % 10) as int, false))
    }
}

/// The decimal digits of `i`, behind a minus sign where `i` is negative.
pub open spec fn signed_decimal_text(i: int) -> Seq<char> {
    if i < 0 {
        seq!['-'] + decimal_text((-i) as nat)
    } else {
        decimal_text(i as nat)
    }
}

/// The decimal digits of `n`, with a leading zero where there would be one digit only.
pub open spec fn two_digit_text(n: nat) -> Seq<char> {
    if n < 10 {
        seq!['0', digit_char(n as int, false)]
    } else {
        decimal_text(n)
    }
}

/// Both hexadecimal digits of a byte behind `0x`.
pub open spec fn hex_byte_text(b: u8, upper: bool) -> Seq<char> {
    seq!['0', 'x', digit_char(b as int / 16, upper), digit_char(b as int % 16, upper)]
}

/// The hexadecimal digits of a byte behind `0x`, in lower case and without a leading zero.
pub open spec fn short_hex_byte_text(b: u8) -> Seq<char> {
    if b < 16 {
        seq!['0', 'x', digit_char(b as int, false)]
    } else {
        hex_byte_text(b, false)
    }
}

/// The character for one digit below sixteen.
pub fn digit_to_char(d: u8, upper: bool) -> (c: char)
    requires
        d < 16,
    ensures
        c == digit_char(d as int, upper),
{
    if d < 10 {
        (0x30 + d) as char
    } else if upper {
        (0x41 + (d - 10)) as char
    } else {
        (0x61 + (d - 10)) as char
    }
}

/// Appends the decimal digits of `n`.
pub fn push_decimal(out: &mut String, n: u64)
    ensures
        final(out)@ == old(out)@ + decimal_text(n as nat),
    decreases n,
{
    if n >= 10 {
        push_decimal(out, n / 10);
    }
    out.push(digit_to_char((n % 10) as u8, false));
    assert(out@ =~= old(out)@ + decimal_text(n as nat));
}

/// Appends the decimal digits of `i`, behind a minus sign where `i` is negative.
pub fn push_signed_decimal(out: &mut String, i: i32)
    ensures
        final(out)@ == old(out)@ + signed_decimal_text(i as int),
{
    if i < 0 {
        out.push('-');
        let magnitude: u64 = (-(i as i64)) as u64;
        push_decimal(out, magnitude);
        assert(out@ =~= old(out)@ + signed_decimal_text(i as int));
    } else {
        push_decimal(out, i as u64);
    }
}

/// Appends the decimal digits of `n`, with a leading zero where there would be one digit only.
pub fn push_two_digits(out: &mut String, n: u8)
    ensures
        final(out)@ == old(out)@ + two_digit_text(n as nat),
{
    if n < 10 {
        out.push('0');
        out.push(digit_to_char(n, false));
        assert(out@ =~= old(out)@ + two_digit_text(n as nat));
    } else {
        push_decimal(out, n as u64);
    }
}

/// Appends `0x` and both hexadecimal digits of `b`.
pub fn push_hex_byte(out: &mut String, b: u8, upper: bool)
    ensures
        final(out)@ == old(out)@ + hex_byte_text(b, upper),
{
    out.push('0');
    out.push('x');
    out.push(digit_to_char(b / 16, upper));
    out.push(digit_to_char(b % 16, upper));
    assert(out@ =~= old(out)@ + hex_byte_text(b, upper));
}

/// Appends `0x` and the hexadecimal digits of `b` without a leading zero.
pub fn push_short_hex_byte(out: &mut String, b: u8)
    ensures
        final(out)@ == old(out)@ + short_hex_byte_text(b),
{
    if b < 16 {
        out.push('0');
        out.push('x');
        out.push(digit_to_char(b, false));
        assert(out@ =~= old(out)@ + short_hex_byte_text(b));
    } else {
        push_hex_byte(out, b, false);
    }
}

} // verus!
