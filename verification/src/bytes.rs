//! Little-endian integers inside byte sequences.

use vstd::prelude::*;

verus! {

/// The value of the two bytes of `s` at `at`, read as a little-endian integer.
pub open spec fn le_u16(s: Seq<u8>, at: int) -> int {
    s[at] + 0x100 * s[at + 1]
}

/// The value of the four bytes of `s` at `at`, read as a little-endian integer.
pub open spec fn le_u32(s: Seq<u8>, at: int) -> int {
    s[at] + 0x100 * s[at + 1] + 0x1_0000 * s[at + 2] + 0x100_0000 * s[at + 3]
}

/// The two low-order bytes of `n`, least significant first.
pub open spec fn le_u16_bytes(n: int) -> Seq<u8> {
    seq![(n % 0x100) as u8, ((n / 0x100) % 0x100) as u8]
}

/// The four low-order bytes of `n`, least significant first.
pub open spec fn le_u32_bytes(n: int) -> Seq<u8> {
    seq![
        (n % 0x100) as u8,
        ((n / 0x100) % 0x100) as u8,
        ((n / 0x1_0000) % 0x100) as u8,
        ((n / 0x100_0000) % 0x100) as u8,
    ]
}

/// Reading back the two bytes written for `n` gives `n`, as long as `n` fits in them.
pub proof fn lemma_le_u16_of_bytes(n: int)
    requires
        0 <= n < 0x1_0000,
    ensures
        le_u16(le_u16_bytes(n), 0) == n,
{
}

/// Reading back the four bytes written for `n` gives `n`, as long as `n` fits in them.
pub proof fn lemma_le_u32_of_bytes(n: int)
    requires
        0 <= n < 0x1_0000_0000,
    ensures
        le_u32(le_u32_bytes(n), 0) == n,
{
}

/// Writing the value read from two bytes reproduces those bytes.
pub proof fn lemma_le_u16_bytes_of_read(s: Seq<u8>, at: int)
    requires
        0 <= at,
        at + 2 <= s.len(),
    ensures
        0 <= le_u16(s, at) < 0x1_0000,
        le_u16_bytes(le_u16(s, at)) == s.subrange(at, at + 2),
{
    assert(le_u16_bytes(le_u16(s, at)) =~= s.subrange(at, at + 2));
}

/// Writing the value read from four bytes reproduces those bytes.
pub proof fn lemma_le_u32_bytes_of_read(s: Seq<u8>, at: int)
    requires
        0 <= at,
        at + 4 <= s.len(),
    ensures
        0 <= le_u32(s, at) < 0x1_0000_0000,
        le_u32_bytes(le_u32(s, at)) == s.subrange(at, at + 4),
{
    assert(le_u32_bytes(le_u32(s, at)) =~= s.subrange(at, at + 4));
}

/// Reads the little-endian `u16` that starts at offset `at`.
pub fn read_u16_le(bytes: &[u8], at: usize) -> (value: u16)
    requires
        at + 2 <= bytes@.len(),
    ensures
        value == le_u16(bytes@, at as int),
{
    let lo: u16 = bytes[at] as u16;
    let hi: u16 = bytes[at + 1] as u16;
    lo + 0x100 * hi
}

/// Reads the little-endian `u32` that starts at offset `at`.
pub fn read_u32_le(bytes: &[u8], at: usize) -> (value: u32)
    requires
        at + 4 <= bytes@.len(),
    ensures
        value == le_u32(bytes@, at as int),
{
    let b0: u32 = bytes[at] as u32;
    let b1: u32 = bytes[at + 1] as u32;
    let b2: u32 = bytes[at + 2] as u32;
    let b3: u32 = bytes[at + 3] as u32;
    b0 + 0x100 * b1 + 0x1_0000 * b2 + 0x100_0000 * b3
}

/// Appends the two low-order bytes of `n` to `out`, least significant first.
/// A value of `0x1_0000` or more loses its higher bytes.
pub fn push_u16_le(out: &mut Vec<u8>, n: usize)
    ensures
        final(out)@ == old(out)@ + le_u16_bytes(n as int),
{
    out.push((n % 0x100) as u8);
    out.push(((n / 0x100) % 0x100) as u8);
    assert(out@ =~= old(out)@ + le_u16_bytes(n as int));
}

/// Appends the four low-order bytes of `n` to `out`, least significant first.
/// A value of `0x1_0000_0000` or more loses its higher bytes.
pub fn push_u32_le(out: &mut Vec<u8>, n: usize)
    ensures
        final(out)@ == old(out)@ + le_u32_bytes(n as int),
{
    out.push((n % 0x100) as u8);
    out.push(((n / 0x100) % 0x100) as u8);
    out.push(((n / 0x1_0000) % 0x100) as u8);
    out.push(((n / 0x100_0000) % 0x100) as u8);
    assert(out@ =~= old(out)@ + le_u32_bytes(n as int));
}

/// Appends a copy of `src` to `out`.
pub fn push_all(out: &mut Vec<u8>, src: &[u8])
    ensures
        final(out)@ == old(out)@ + src@,
{
    out.extend_from_slice(src);
    assert(out@ =~= old(out)@ + src@);
}

/// An owned copy of the bytes of `src` from `from` up to `to`.
pub fn copy_range(src: &[u8], from: usize, to: usize) -> (out: Vec<u8>)
    requires
        from <= to <= src@.len(),
    ensures
        out@ == src@.subrange(from as int, to as int),
{
    let mut out: Vec<u8> = Vec::new();
    let mut i: usize = from;
    while i < to
        invariant
            from <= i <= to <= src@.len(),
            out@ == src@.subrange(from as int, i as int),
        decreases to - i,
    {
        out.push(src[i]);
        i += 1;
        assert(out@ =~= src@.subrange(from as int, i as int));
    }
    out
}

} // verus!
