//! The ways in which decoding or transforming a quote can fail.

use vstd::prelude::*;

verus! {

/// Why a PEM block could not be read.
#[derive(Clone, Copy, Debug, PartialEq, Eq)]
pub enum PemFault {
    /// The text between the armor lines is not valid base64.
    Base64Decode,
    /// The buffer ended before the closing armor line.
    Incomplete,
    /// The opening armor line is malformed.
    InvalidHeader,
    /// No opening armor line was found.
    MissingHeader,
    /// A line inside the block could not be read.
    Io,
}

/// A part of a quote's layout.
#[derive(Clone, Copy, Debug, PartialEq, Eq)]
pub enum Field {
    /// The 48-byte header.
    Header,
    /// The report behind the header.
    Body,
    /// The four-byte length of the signature block.
    SignatureLength,
    /// The signature block, as long as its length says.
    SignatureBlock,
    /// The tag and length at the start of certification data.
    CertDataPrefix,
    /// The QE report, its signature and the length of the authentication data.
    QeReport,
    /// The QE authentication data, as long as its length says.
    QeAuthData,
}

/// A failure of the quote codec. Every failure is final: nothing is recovered
/// from a quote that did not decode.
#[derive(Debug, PartialEq, Eq)]
pub enum QuoteError {
    /// Fewer bytes are available than the named field needs.
    TruncatedInput(Field),
    /// The header's TEE type is neither SGX nor TDX.
    UnknownTeeType(u32),
    /// The signature block is too short to hold a signature, a key and a `CertData`.
    InvalidSignatureBlock,
    /// A length stored in the input disagrees with the number of bytes present.
    LengthMismatch { expected: usize, actual: usize },
    /// The tag of a `CertData` node is not one the codec knows.
    UnsupportedCertDataType(u16),
    /// The certificate chain is not found where the transform looks for it.
    UnexpectedCertDataVariant,
    /// A PEM block in the certificate chain is not labelled `CERTIFICATE`.
    UnexpectedPemLabel(String),
    /// A PEM block in the certificate chain could not be read.
    InvalidPem(PemFault),
}

/// The mathematical content of a [`QuoteError`].
pub enum QuoteErrorView {
    TruncatedInput(Field),
    UnknownTeeType(int),
    InvalidSignatureBlock,
    LengthMismatch { expected: int, actual: int },
    UnsupportedCertDataType(int),
    UnexpectedCertDataVariant,
    UnexpectedPemLabel(Seq<char>),
    InvalidPem(PemFault),
}

impl View for QuoteError {
    type V = QuoteErrorView;

    open spec fn view(&self) -> QuoteErrorView {
        match *self {
            QuoteError::TruncatedInput(field) => QuoteErrorView::TruncatedInput(field),
            QuoteError::UnknownTeeType(value) => QuoteErrorView::UnknownTeeType(value as int),
            QuoteError::InvalidSignatureBlock => QuoteErrorView::InvalidSignatureBlock,
            QuoteError::LengthMismatch { expected, actual } => QuoteErrorView::LengthMismatch {
                expected: expected as int,
                actual: actual as int,
            },
            QuoteError::UnsupportedCertDataType(tag) => QuoteErrorView::UnsupportedCertDataType(
                tag as int,
            ),
            QuoteError::UnexpectedCertDataVariant => QuoteErrorView::UnexpectedCertDataVariant,
            QuoteError::UnexpectedPemLabel(label) => QuoteErrorView::UnexpectedPemLabel(label@),
            QuoteError::InvalidPem(fault) => QuoteErrorView::InvalidPem(fault),
        }
    }
}

/// The view of a result whose two sides both have a view.
pub open spec fn result_view<T: View, E: View>(r: Result<T, E>) -> Result<T::V, E::V> {
    match r {
        Ok(value) => Ok(value@),
        Err(error) => Err(error@),
    }
}

/// Re-encoding a decoded quote did not give back the bytes it was decoded from.
/// This points at a fault in the codec, not in the data.
#[derive(Clone, Copy, Debug, PartialEq, Eq)]
pub struct RoundtripFailure {
    /// The first offset at which the two buffers differ. Where one buffer is
    /// a proper prefix of the other, this is the length of the shorter one.
    pub offset: usize,
}

} // verus!
