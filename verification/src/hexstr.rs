//! Hexadecimal text read into bytes.

use vstd::prelude::*;
use vstd::string::StringSliceAdditionalSpecFns;

verus! {

/// Why a text is not the hexadecimal form of a byte string.
#[derive(Clone, Copy, Debug, PartialEq, Eq)]
pub enum HexError {
    /// The byte at `index` is no hexadecimal digit; `c` is that byte as a character.
    InvalidHexCharacter { c: char, index: usize },
    /// The text has an odd number of bytes.
    OddLength,
    /// The text does not have the length of the container it is decoded into.
    InvalidStringLength,
}

/// The value of a hexadecimal digit given as a byte of text, in either letter case.
pub open spec fn hex_digit_value(c: u8) -> Option<int> {
    if 0x30 <= c <= 0x39 {
        Some(c - 0x30)
    } else if 0x41 <= c <= 0x46 {
        Some(c - 0x41 + 10)
    } else if 0x61 <= c <= 0x66 {
        Some(c - 0x61 + 10)
    } else {
        None
    }
}

/// Whether every byte of `text` before `end` is a hexadecimal digit.
pub open spec fn all_hex_before(text: Seq<u8>, end: int) -> bool {
    forall|i: int| 0 <= i < end ==> hex_digit_value(#[trigger] text[i]) is Some
}

/// The bytes that hexadecimal text stands for, two digits to a byte, the
/// high digit first. Text of odd length is refused; otherwise the first
/// byte that is no digit is.
pub open spec fn hex_decoded(text: Seq<u8>) -> Result<Seq<u8>, HexError> {
    if text.len() % 2 != 0 {
        Err(HexError::OddLength)
    } else if all_hex_before(text, text.len() as int) {
        Ok(
            Seq::new(
                text.len() / 2,
                |k: int|
                    (16 * hex_digit_value(text[2 * k])->Some_0 + hex_digit_value(
                        text[2 * k + 1],
                    )->Some_0) as u8,
            ),
        )
    } else {
        let index = choose|i: int|
            0 <= i < text.len() && all_hex_before(text, i) && hex_digit_value(text[i]) is None;
        Err(HexError::InvalidHexCharacter { c: text[index] as char, index: index as usize })
    }
}

/// Calls `hex::decode` on the text.
/// The contract restates what `hex` documents and its source shows for
/// decoding into a `Vec<u8>`: the text is taken byte by byte, an odd length
/// is an error, and so is the first byte that is no hexadecimal digit;
/// otherwise each pair of digits gives one byte.
#[verifier::external_body]
pub(crate) fn decode_hex(text: &str) -> (r: Result<Vec<u8>, HexError>)
    ensures
        match hex_decoded(text.spec_bytes()) {
            Ok(bytes) => r matches Ok(v) && v@ == bytes,
            Err(e) => r == Err::<Vec<u8>, HexError>(e),
        },
{
    match hex::decode(text) {
        Ok(bytes) => Ok(bytes),
        Err(hex::FromHexError::InvalidHexCharacter { c, index }) => Err(
            HexError::InvalidHexCharacter { c, index },
        ),
        Err(hex::FromHexError::OddLength) => Err(HexError::OddLength),
        Err(hex::FromHexError::InvalidStringLength) => Err(HexError::InvalidStringLength),
    }
}

/// Reads hexadecimal text into the bytes it stands for.
pub fn bytes_from_hex(text: &str) -> (r: Result<Vec<u8>, HexError>)
    ensures
        match hex_decoded(text.spec_bytes()) {
            Ok(bytes) => r matches Ok(v) && v@ == bytes,
            Err(e) => r == Err::<Vec<u8>, HexError>(e),
        },
        r matches Ok(v) ==> 2 * v@.len() == text.spec_bytes().len(),
{
    decode_hex(text)
}

} // verus!
