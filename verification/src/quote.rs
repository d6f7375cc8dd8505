//! The quote and its parts, and their codec.

use crate::bytes::{copy_range, push_all, push_u16_le, push_u32_le, read_u16_le, read_u32_le};
use crate::constants::{
    CERT_DATA_CERTIFICATES, CERT_DATA_PREFIX_LEN, CERT_DATA_QE_REPORT, ENCLAVE_REPORT_LEN,
    HEADER_LEN, QE_REPORT_FIXED_LEN, SGX_TEE_TYPE, SIGNATURE_LEN, TD10_REPORT_LEN, TDX_TEE_TYPE,
};
use crate::error::{result_view, Field, QuoteError, QuoteErrorView};
use crate::laws::{
    lemma_cert_data_decode_encode, lemma_qe_report_cert_data_decode_encode,
    lemma_quote_decode_encode, lemma_signature_data_decode_encode,
};
use crate::model::{
    body_len, parse_cert_data, parse_header, parse_qe_report_cert_data, parse_quote,
    parse_signature_data, CertDataView, HeaderView, QeReportCertDataView, QuoteSignatureDataView,
    QuoteView,
};
use vstd::prelude::*;

verus! {

/// The kind of trusted execution environment that issued a quote.
#[derive(Clone, Copy, Debug, PartialEq, Eq)]
pub enum TeeType {
    Sgx,
    Tdx,
}

/// The fixed-size prefix of a quote. The bytes it was read from are kept, so
/// that fields the codec does not interpret survive re-encoding.
#[derive(Debug, PartialEq, Eq)]
pub struct Header {
    pub tee_type: TeeType,
    pub raw: [u8; 48],
}

/// A certificate payload: either a certificate chain, or a QE report that
/// wraps a further payload.
#[derive(Debug, PartialEq, Eq)]
pub enum CertData {
    Certificates(Vec<u8>),
    QeReportCertData(QeReportCertData),
}

/// The quoting enclave's report and signature, its authentication data, and
/// the certification data that vouches for it.
#[derive(Debug, PartialEq, Eq)]
pub struct QeReportCertData {
    pub qe_report: [u8; 384],
    pub qe_report_signature: [u8; 64],
    pub qe_auth_data: Vec<u8>,
    pub qe_cert_data: Box<CertData>,
}

/// The signature over a quote, the attestation key, and the certification
/// data for that key.
#[derive(Debug, PartialEq, Eq)]
pub struct QuoteSignatureData {
    pub sig: [u8; 64],
    pub key: [u8; 64],
    pub cert_data: CertData,
}

/// A decoded quote. `rest` holds whatever followed the signature block; it is
/// kept as it is and never interpreted.
#[derive(Debug, PartialEq, Eq)]
pub struct Quote {
    pub header: Header,
    pub body: Vec<u8>,
    pub signature: QuoteSignatureData,
    pub rest: Vec<u8>,
}

impl View for Header {
    type V = HeaderView;

    open spec fn view(&self) -> HeaderView {
        HeaderView { tee_type: self.tee_type, raw: self.raw@ }
    }
}

impl View for CertData {
    type V = CertDataView;

    open spec fn view(&self) -> CertDataView
        decreases self,
    {
        match self {
            CertData::Certificates(chain) => CertDataView::Certificates(chain@),
            CertData::QeReportCertData(report) => CertDataView::QeReportCertData(report@),
        }
    }
}

impl View for QeReportCertData {
    type V = QeReportCertDataView;

    open spec fn view(&self) -> QeReportCertDataView
        decreases self,
    {
        QeReportCertDataView {
            qe_report: self.qe_report@,
            qe_report_signature: self.qe_report_signature@,
            qe_auth_data: self.qe_auth_data@,
            qe_cert_data: Box::new((*self.qe_cert_data)@),
        }
    }
}

impl View for QuoteSignatureData {
    type V = QuoteSignatureDataView;

    open spec fn view(&self) -> QuoteSignatureDataView {
        QuoteSignatureDataView { sig: self.sig@, key: self.key@, cert_data: self.cert_data@ }
    }
}

impl View for Quote {
    type V = QuoteView;

    open spec fn view(&self) -> QuoteView {
        QuoteView {
            header: self.header@,
            body: self.body@,
            signature: self.signature@,
            rest: self.rest@,
        }
    }
}

/// The `N` bytes of `src` that start at `from`.
fn array_at<const N: usize>(src: &[u8], from: usize) -> (out: [u8; N])
    requires
        from + N <= src@.len(),
    ensures
        out@ == src@.subrange(from as int, from + N),
{
    let mut out = [0u8; N];
    let mut i: usize = 0;
    while i < N
        invariant
            i <= N,
            from + N <= src.len(),
            forall|k: int| 0 <= k < i ==> out@[k] == src@[from + k],
        decreases N - i,
    {
        out[i] = src[from + i];
        i += 1;
    }
    assert(out@ =~= src@.subrange(from as int, from + N));
    out
}

impl TeeType {
    /// The size in bytes of the report that follows the header.
    pub fn body_size(&self) -> (size: usize)
        ensures
            size == body_len(*self),
    {
        match self {
            TeeType::Sgx => ENCLAVE_REPORT_LEN,
            TeeType::Tdx => TD10_REPORT_LEN,
        }
    }
}

/// Splits off the body of a quote: the report that follows the header,
/// whose size the TEE type fixes at 384 bytes for SGX and 584 for TDX. The
/// body is handed out as a copy, next to the bytes that follow it.
///
/// Fewer bytes than the body needs give `TruncatedInput`.
pub fn extract_body<'a>(tee_type: TeeType, remaining: &'a [u8]) -> (r: Result<
    (Vec<u8>, &'a [u8]),
    QuoteError,
>)
    ensures
        match r {
            Ok((body, rest)) => {
                &&& remaining@.len() >= body_len(tee_type)
                &&& body@ == remaining@.take(body_len(tee_type))
                &&& rest@ == remaining@.skip(body_len(tee_type))
            },
            Err(e) => {
                &&& remaining@.len() < body_len(tee_type)
                &&& e == QuoteError::TruncatedInput(Field::Body)
            },
        },
{
    let size = tee_type.body_size();
    if remaining.len() < size {
        return Err(QuoteError::TruncatedInput(Field::Body));
    }
    let body = copy_range(remaining, 0, size);
    let rest = &remaining[size..remaining.len()];
    assert(body@ =~= remaining@.take(size as int));
    assert(rest@ =~= remaining@.skip(size as int));
    Ok((body, rest))
}

impl Header {
    /// Decodes a header from exactly 48 bytes. The TEE type is the
    /// little-endian `u32` at offset 4: 0 for SGX, `0x81` for TDX.
    ///
    /// Fewer than 48 bytes give `TruncatedInput`, more give
    /// `LengthMismatch`, and any other TEE type gives `UnknownTeeType`.
    pub fn from_bytes(bytes: &[u8]) -> (r: Result<Header, QuoteError>)
        ensures
            result_view(r) == parse_header(bytes@),
            r matches Ok(header) ==> header@.encoding() == bytes@ && header@.wf(),
    {
        if bytes.len() < HEADER_LEN {
            return Err(QuoteError::TruncatedInput(Field::Header));
        }
        if bytes.len() > HEADER_LEN {
            return Err(QuoteError::LengthMismatch { expected: HEADER_LEN, actual: bytes.len() });
        }
        let discriminant = read_u32_le(bytes, 4);
        let tee_type = if discriminant == SGX_TEE_TYPE {
            TeeType::Sgx
        } else if discriminant == TDX_TEE_TYPE {
            TeeType::Tdx
        } else {
            return Err(QuoteError::UnknownTeeType(discriminant));
        };
        let raw: [u8; 48] = array_at(bytes, 0);
        assert(raw@ =~= bytes@);
        Ok(Header { tee_type, raw })
    }

    /// The header's bytes: exactly those it was decoded from.
    pub fn to_bytes(&self) -> (out: [u8; 48])
        ensures
            out@ == self@.encoding(),
    {
        self.raw
    }
}

impl CertData {
    /// Decodes a node from a buffer that it must fill exactly: a two-byte tag,
    /// a four-byte length that counts every byte after it, and the payload.
    /// Tag 5 is a certificate chain, kept as it is; tag 6 is a QE report
    /// with further certification data inside.
    ///
    /// Fewer than six bytes give `TruncatedInput`. A length that is not the
    /// number of bytes behind it gives `LengthMismatch`; this is checked
    /// before the tag is looked at. Any other tag gives
    /// `UnsupportedCertDataType`, and a QE report that does not decode
    /// gives its own error.
    pub fn from_bytes(bytes: &[u8]) -> (r: Result<CertData, QuoteError>)
        ensures
            result_view(r) == parse_cert_data(bytes@),
            r matches Ok(cert_data) ==> cert_data@.encoding() == bytes@ && cert_data@.wf(),
        decreases bytes@.len(), 1int,
    {
        proof {
            if parse_cert_data(bytes@) is Ok {
                lemma_cert_data_decode_encode(bytes@);
            }
        }
        if bytes.len() < CERT_DATA_PREFIX_LEN {
            return Err(QuoteError::TruncatedInput(Field::CertDataPrefix));
        }
        let tag = read_u16_le(bytes, 0);
        let declared = read_u32_le(bytes, 2) as usize;
        let actual = bytes.len() - CERT_DATA_PREFIX_LEN;
        if actual != declared {
            return Err(QuoteError::LengthMismatch { expected: declared, actual });
        }
        let payload = &bytes[CERT_DATA_PREFIX_LEN..bytes.len()];
        assert(payload@ =~= bytes@.skip(6));
        if tag == CERT_DATA_CERTIFICATES {
            let chain = copy_range(payload, 0, payload.len());
            assert(chain@ =~= payload@);
            Ok(CertData::Certificates(chain))
        } else if tag == CERT_DATA_QE_REPORT {
            match QeReportCertData::from_bytes(payload) {
                Ok(report) => Ok(CertData::QeReportCertData(report)),
                Err(e) => Err(e),
            }
        } else {
            Err(QuoteError::UnsupportedCertDataType(tag))
        }
    }

    /// Encodes the node as its tag, the length of its payload and the payload.
    /// The length is computed from the payload as it is now; only its four
    /// low-order bytes are written.
    pub fn to_bytes(&self) -> (out: Vec<u8>)
        ensures
            out@ == self@.encoding(),
        decreases self,
    {
        let mut out: Vec<u8> = Vec::new();
        match self {
            CertData::Certificates(chain) => {
                push_u16_le(&mut out, CERT_DATA_CERTIFICATES as usize);
                push_u32_le(&mut out, chain.len());
                push_all(&mut out, chain.as_slice());
            },
            CertData::QeReportCertData(report) => {
                push_u16_le(&mut out, CERT_DATA_QE_REPORT as usize);
                let payload = report.to_bytes();
                push_u32_le(&mut out, payload.len());
                push_all(&mut out, payload.as_slice());
            },
        }
        assert(out@ =~= self@.encoding());
        out
    }
}

impl QeReportCertData {
    /// Decodes a block: the 384-byte report, its 64-byte signature, the
    /// two-byte length of the authentication data, that data, and nested
    /// certification data that must fill the rest of the buffer.
    ///
    /// A buffer too short for the fixed part or for the authentication data
    /// gives `TruncatedInput`; nested certification data that does not
    /// decode gives its own error.
    pub fn from_bytes(bytes: &[u8]) -> (r: Result<QeReportCertData, QuoteError>)
        ensures
            result_view(r) == parse_qe_report_cert_data(bytes@),
            r matches Ok(report) ==> report@.encoding() == bytes@ && report@.wf(),
        decreases bytes@.len(), 0int,
    {
        proof {
            if parse_qe_report_cert_data(bytes@) is Ok {
                lemma_qe_report_cert_data_decode_encode(bytes@);
            }
        }
        if bytes.len() < QE_REPORT_FIXED_LEN {
            return Err(QuoteError::TruncatedInput(Field::QeReport));
        }
        let qe_report: [u8; 384] = array_at(bytes, 0);
        let qe_report_signature: [u8; 64] = array_at(bytes, 384);
        let auth_len = read_u16_le(bytes, 448) as usize;
        if bytes.len() - QE_REPORT_FIXED_LEN < auth_len {
            return Err(QuoteError::TruncatedInput(Field::QeAuthData));
        }
        let auth_end = QE_REPORT_FIXED_LEN + auth_len;
        let qe_auth_data = copy_range(bytes, QE_REPORT_FIXED_LEN, auth_end);
        let nested = &bytes[auth_end..bytes.len()];
        assert(nested@ =~= bytes@.skip(auth_end as int));
        match CertData::from_bytes(nested) {
            Ok(qe_cert_data) => Ok(
                QeReportCertData {
                    qe_report,
                    qe_report_signature,
                    qe_auth_data,
                    qe_cert_data: Box::new(qe_cert_data),
                },
            ),
            Err(e) => Err(e),
        }
    }

    /// Encodes the block field by field. The length of the authentication data
    /// is computed from the data as it is now; only its two low-order bytes
    /// are written.
    pub fn to_bytes(&self) -> (out: Vec<u8>)
        ensures
            out@ == self@.encoding(),
        decreases self,
    {
        let mut out: Vec<u8> = Vec::new();
        push_all(&mut out, self.qe_report.as_slice());
        push_all(&mut out, self.qe_report_signature.as_slice());
        push_u16_le(&mut out, self.qe_auth_data.len());
        push_all(&mut out, self.qe_auth_data.as_slice());
        let nested = self.qe_cert_data.to_bytes();
        push_all(&mut out, nested.as_slice());
        assert(out@ =~= self@.encoding());
        out
    }
}

impl QuoteSignatureData {
    /// Decodes a signature block: the 64-byte signature, the 64-byte key, and
    /// certification data that must fill the rest of the buffer.
    ///
    /// A block of 128 bytes or fewer gives `InvalidSignatureBlock`;
    /// certification data that does not decode gives its own error.
    pub fn from_bytes(bytes: &[u8]) -> (r: Result<QuoteSignatureData, QuoteError>)
        ensures
            result_view(r) == parse_signature_data(bytes@),
            r matches Ok(signature) ==> signature@.encoding() == bytes@ && signature@.wf(),
    {
        proof {
            if parse_signature_data(bytes@) is Ok {
                lemma_signature_data_decode_encode(bytes@);
            }
        }
        if bytes.len() <= 2 * SIGNATURE_LEN {
            return Err(QuoteError::InvalidSignatureBlock);
        }
        let sig: [u8; 64] = array_at(bytes, 0);
        let key: [u8; 64] = array_at(bytes, 64);
        let tail = &bytes[2 * SIGNATURE_LEN..bytes.len()];
        assert(tail@ =~= bytes@.skip(128));
        match CertData::from_bytes(tail) {
            Ok(cert_data) => Ok(QuoteSignatureData { sig, key, cert_data }),
            Err(e) => Err(e),
        }
    }

    /// Encodes the block as signature, key and certification data.
    pub fn to_bytes(&self) -> (out: Vec<u8>)
        ensures
            out@ == self@.encoding(),
    {
        let mut out: Vec<u8> = Vec::new();
        push_all(&mut out, self.sig.as_slice());
        push_all(&mut out, self.key.as_slice());
        let cert_data = self.cert_data.to_bytes();
        push_all(&mut out, cert_data.as_slice());
        assert(out@ =~= self@.encoding());
        out
    }
}

impl Quote {
    /// Decodes a quote: the header, the body whose size the TEE type fixes
    /// (384 bytes for SGX, 584 for TDX), the four-byte length of the
    /// signature block, that block, and the bytes that follow it.
    ///
    /// The first stage that fails decides the error, and `TruncatedInput`
    /// names the field inside which the input ends. The signature block is
    /// decoded from exactly as many bytes as its length says, so the
    /// certification data in it must end where the block ends.
    ///
    /// A quote that decodes encodes back to the input, byte for byte.
    pub fn from_bytes(bytes: &[u8]) -> (r: Result<Quote, QuoteError>)
        ensures
            result_view(r) == parse_quote(bytes@),
            r matches Ok(quote) ==> quote@.encoding() == bytes@ && quote@.wf(),
    {
        if bytes.len() < HEADER_LEN {
            return Err(QuoteError::TruncatedInput(Field::Header));
        }
        let header = match Header::from_bytes(&bytes[0..HEADER_LEN]) {
            Ok(header) => header,
            Err(e) => {
                return Err(e);
            },
        };
        let (body, _) = match extract_body(header.tee_type, &bytes[HEADER_LEN..bytes.len()]) {
            Ok(parts) => parts,
            Err(e) => {
                return Err(e);
            },
        };
        let body_end = HEADER_LEN + body.len();
        assert(body@ =~= bytes@.subrange(48, body_end as int));
        if bytes.len() - body_end < 4 {
            return Err(QuoteError::TruncatedInput(Field::SignatureLength));
        }
        let signature_len = read_u32_le(bytes, body_end) as usize;
        let signature_start = body_end + 4;
        if bytes.len() - signature_start < signature_len {
            return Err(QuoteError::TruncatedInput(Field::SignatureBlock));
        }
        let signature_end = signature_start + signature_len;
        let signature = match QuoteSignatureData::from_bytes(
            &bytes[signature_start..signature_end],
        ) {
            Ok(signature) => signature,
            Err(e) => {
                return Err(e);
            },
        };
        let rest = copy_range(bytes, signature_end, bytes.len());
        let quote = Quote { header, body, signature, rest };
        proof {
            assert(rest@ =~= bytes@.skip(signature_end as int));
            assert(parse_quote(bytes@) == Ok::<QuoteView, QuoteErrorView>(quote@));
            lemma_quote_decode_encode(bytes@);
        }
        Ok(quote)
    }

    /// Encodes the quote as header, body, length of the signature block,
    /// signature block and trailing bytes. The length is computed from the
    /// block as it is now; only its four low-order bytes are written.
    pub fn to_bytes(&self) -> (out: Vec<u8>)
        ensures
            out@ == self@.encoding(),
    {
        let mut out: Vec<u8> = Vec::new();
        let header = self.header.to_bytes();
        push_all(&mut out, header.as_slice());
        push_all(&mut out, self.body.as_slice());
        let signature = self.signature.to_bytes();
        push_u32_le(&mut out, signature.len());
        push_all(&mut out, signature.as_slice());
        push_all(&mut out, self.rest.as_slice());
        assert(out@ =~= self@.encoding());
        out
    }
}

} // verus!
