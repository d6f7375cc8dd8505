//! The quote as a mathematical value: what each structure holds, how it is
//! laid out in bytes, and which structure a byte sequence stands for.

use crate::bytes::{le_u16, le_u16_bytes, le_u32, le_u32_bytes};
use crate::error::{Field, QuoteErrorView};
use crate::quote::TeeType;
use vstd::prelude::*;

verus! {

/// The content of a `Header`: the TEE type and the 48 bytes it was read from.
pub struct HeaderView {
    pub tee_type: TeeType,
    pub raw: Seq<u8>,
}

/// The content of a `CertData`.
pub enum CertDataView {
    Certificates(Seq<u8>),
    QeReportCertData(QeReportCertDataView),
}

/// The content of a `QeReportCertData`.
pub struct QeReportCertDataView {
    pub qe_report: Seq<u8>,
    pub qe_report_signature: Seq<u8>,
    pub qe_auth_data: Seq<u8>,
    pub qe_cert_data: Box<CertDataView>,
}

/// The content of a `QuoteSignatureData`.
pub struct QuoteSignatureDataView {
    pub sig: Seq<u8>,
    pub key: Seq<u8>,
    pub cert_data: CertDataView,
}

/// The content of a `Quote`.
pub struct QuoteView {
    pub header: HeaderView,
    pub body: Seq<u8>,
    pub signature: QuoteSignatureDataView,
    pub rest: Seq<u8>,
}

/// The number of body bytes that follow the header of a quote of the given TEE type.
pub open spec fn body_len(tee_type: TeeType) -> int {
    match tee_type {
        TeeType::Sgx => 384,
        TeeType::Tdx => 584,
    }
}

/// The TEE type that a discriminant stands for, if any.
pub open spec fn tee_type_of(discriminant: int) -> Option<TeeType> {
    if discriminant == 0 {
        Some(TeeType::Sgx)
    } else if discriminant == 0x81 {
        Some(TeeType::Tdx)
    } else {
        None
    }
}

impl HeaderView {
    /// The header holds 48 bytes, and their TEE-type field names `tee_type`.
    pub open spec fn wf(self) -> bool {
        &&& self.raw.len() == 48
        &&& tee_type_of(le_u32(self.raw, 4)) == Some(self.tee_type)
    }

    /// The bytes of the header: those it was read from.
    pub open spec fn encoding(self) -> Seq<u8> {
        self.raw
    }
}

impl CertDataView {
    /// The tag that names the variant.
    pub open spec fn tag(self) -> int {
        match self {
            CertDataView::Certificates(_) => 5,
            CertDataView::QeReportCertData(_) => 6,
        }
    }

    /// The bytes that follow the tag and the length.
    pub open spec fn payload(self) -> Seq<u8>
        decreases self, 0int,
    {
        match self {
            CertDataView::Certificates(chain) => chain,
            CertDataView::QeReportCertData(report) => report.encoding(),
        }
    }

    /// The bytes of the node: tag, length of the payload, payload.
    pub open spec fn encoding(self) -> Seq<u8>
        decreases self, 1int,
    {
        le_u16_bytes(self.tag()) + le_u32_bytes(self.payload().len() as int) + self.payload()
    }

    /// Every length in the node fits the field that stores it.
    pub open spec fn wf(self) -> bool
        decreases self,
    {
        &&& self.payload().len() < 0x1_0000_0000
        &&& self matches CertDataView::QeReportCertData(report) ==> report.wf()
    }
}

impl QeReportCertDataView {
    /// The bytes of the block: report, signature, length of the authentication
    /// data, authentication data, nested certification data.
    pub open spec fn encoding(self) -> Seq<u8>
        decreases self,
    {
        self.qe_report + self.qe_report_signature + le_u16_bytes(self.qe_auth_data.len() as int)
            + self.qe_auth_data + (*self.qe_cert_data).encoding()
    }

    /// The fixed fields have their sizes and every length fits the field that stores it.
    pub open spec fn wf(self) -> bool
        decreases self,
    {
        &&& self.qe_report.len() == 384
        &&& self.qe_report_signature.len() == 64
        &&& self.qe_auth_data.len() < 0x1_0000
        &&& (*self.qe_cert_data).wf()
    }
}

impl QuoteSignatureDataView {
    /// The bytes of the signature block: signature, key, certification data.
    pub open spec fn encoding(self) -> Seq<u8> {
        self.sig + self.key + self.cert_data.encoding()
    }

    /// The fixed fields have their sizes and every length fits the field that stores it.
    pub open spec fn wf(self) -> bool {
        &&& self.sig.len() == 64
        &&& self.key.len() == 64
        &&& self.cert_data.wf()
    }
}

impl QuoteView {
    /// The bytes of the quote: header, body, length of the signature block,
    /// signature block, and whatever followed it.
    pub open spec fn encoding(self) -> Seq<u8> {
        self.header.encoding() + self.body + le_u32_bytes(self.signature.encoding().len() as int)
            + self.signature.encoding() + self.rest
    }

    /// The quote is one that decoding can produce: the body has the size that
    /// the TEE type calls for and every length fits the field that stores it.
    pub open spec fn wf(self) -> bool {
        &&& self.header.wf()
        &&& self.body.len() == body_len(self.header.tee_type)
        &&& self.signature.wf()
        &&& self.signature.encoding().len() < 0x1_0000_0000
    }
}

/// The header that 48 bytes stand for.
pub open spec fn parse_header(b: Seq<u8>) -> Result<HeaderView, QuoteErrorView> {
    if b.len() < 48 {
        Err(QuoteErrorView::TruncatedInput(Field::Header))
    } else if b.len() > 48 {
        Err(QuoteErrorView::LengthMismatch { expected: 48, actual: b.len() as int })
    } else {
        match tee_type_of(le_u32(b, 4)) {
            Some(tee_type) => Ok(HeaderView { tee_type, raw: b }),
            None => Err(QuoteErrorView::UnknownTeeType(le_u32(b, 4))),
        }
    }
}

/// The certification data that a byte sequence stands for. The sequence must
/// be used up exactly: the stored length counts every byte after the first six.
pub open spec fn parse_cert_data(b: Seq<u8>) -> Result<CertDataView, QuoteErrorView>
    decreases b.len(), 1int,
{
    if b.len() < 6 {
        Err(QuoteErrorView::TruncatedInput(Field::CertDataPrefix))
    } else if b.len() != le_u32(b, 2) + 6 {
        Err(QuoteErrorView::LengthMismatch { expected: le_u32(b, 2), actual: b.len() - 6 })
    } else if le_u16(b, 0) == 5 {
        Ok(CertDataView::Certificates(b.skip(6)))
    } else if le_u16(b, 0) == 6 {
        match parse_qe_report_cert_data(b.skip(6)) {
            Ok(report) => Ok(CertDataView::QeReportCertData(report)),
            Err(e) => Err(e),
        }
    } else {
        Err(QuoteErrorView::UnsupportedCertDataType(le_u16(b, 0)))
    }
}

/// The QE report certification data that a byte sequence stands for. The nested
/// certification data is whatever follows the authentication data.
pub open spec fn parse_qe_report_cert_data(b: Seq<u8>) -> Result<
    QeReportCertDataView,
    QuoteErrorView,
>
    decreases b.len(), 0int,
{
    if b.len() < 450 {
        Err(QuoteErrorView::TruncatedInput(Field::QeReport))
    } else if b.len() < 450 + le_u16(b, 448) {
        Err(QuoteErrorView::TruncatedInput(Field::QeAuthData))
    } else {
        match parse_cert_data(b.skip(450 + le_u16(b, 448))) {
            Ok(nested) => Ok(
                QeReportCertDataView {
                    qe_report: b.subrange(0, 384),
                    qe_report_signature: b.subrange(384, 448),
                    qe_auth_data: b.subrange(450, 450 + le_u16(b, 448)),
                    qe_cert_data: Box::new(nested),
                },
            ),
            Err(e) => Err(e),
        }
    }
}

/// The signature block that a byte sequence stands for.
pub open spec fn parse_signature_data(b: Seq<u8>) -> Result<
    QuoteSignatureDataView,
    QuoteErrorView,
> {
    if b.len() <= 128 {
        Err(QuoteErrorView::InvalidSignatureBlock)
    } else {
        match parse_cert_data(b.skip(128)) {
            Ok(cert_data) => Ok(
                QuoteSignatureDataView { sig: b.subrange(0, 64), key: b.subrange(64, 128), cert_data },
            ),
            Err(e) => Err(e),
        }
    }
}

/// Where the signature block of a quote starts: after the header, the body
/// and the four bytes of the block's length.
pub open spec fn signature_offset(tee_type: TeeType) -> int {
    48 + body_len(tee_type) + 4
}

/// The quote that a byte sequence stands for.
pub open spec fn parse_quote(b: Seq<u8>) -> Result<QuoteView, QuoteErrorView> {
    if b.len() < 48 {
        Err(QuoteErrorView::TruncatedInput(Field::Header))
    } else {
        match parse_header(b.subrange(0, 48)) {
            Err(e) => Err(e),
            Ok(header) => {
                let start = signature_offset(header.tee_type);
                if b.len() < start - 4 {
                    Err(QuoteErrorView::TruncatedInput(Field::Body))
                } else if b.len() < start {
                    Err(QuoteErrorView::TruncatedInput(Field::SignatureLength))
                } else if b.len() < start + le_u32(b, start - 4) {
                    Err(QuoteErrorView::TruncatedInput(Field::SignatureBlock))
                } else {
                    let end = start + le_u32(b, start - 4);
                    match parse_signature_data(b.subrange(start, end)) {
                        Err(e) => Err(e),
                        Ok(signature) => Ok(
                            QuoteView {
                                header,
                                body: b.subrange(48, start - 4),
                                signature,
                                rest: b.skip(end),
                            },
                        ),
                    }
                }
            },
        }
    }
}

} // verus!
