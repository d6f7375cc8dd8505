//! What holds between the layout of a quote and the structure it stands for.

use crate::bytes::{
    le_u16, le_u32, lemma_le_u16_bytes_of_read, lemma_le_u16_of_bytes,
    lemma_le_u32_bytes_of_read, lemma_le_u32_of_bytes,
};
use crate::error::{Field, PemFault, QuoteErrorView};
use crate::model::{
    body_len, parse_cert_data, parse_qe_report_cert_data, parse_quote, parse_signature_data,
    signature_offset, tee_type_of, CertDataView, QeReportCertDataView, QuoteSignatureDataView,
    QuoteView,
};
use crate::pem::{certificate_label, der_chain, pem_entries, PemBlockView};
use crate::quote::TeeType;
use crate::transform::quote_cert_chain_to_der;
use vstd::prelude::*;

verus! {

/// A sequence is the concatenation of its pieces between consecutive cuts.
proof fn lemma_pieces(b: Seq<u8>, i: int, j: int, k: int)
    requires
        0 <= i <= j <= k <= b.len(),
    ensures
        b.subrange(0, i) + b.subrange(i, j) + b.subrange(j, k) + b.skip(k) == b,
        b.subrange(i, j) + b.subrange(j, k) == b.subrange(i, k),
        b.skip(i).skip(j - i) == b.skip(j),
        b.skip(i).subrange(0, j - i) == b.subrange(i, j),
{
    assert(b.subrange(0, i) + b.subrange(i, j) + b.subrange(j, k) + b.skip(k) =~= b);
}

/// Certification data that decodes from `b` encodes back to `b`, and every
/// length in it fits the field that stores it.
pub proof fn lemma_cert_data_decode_encode(b: Seq<u8>)
    requires
        parse_cert_data(b) is Ok,
    ensures
        parse_cert_data(b)->Ok_0.encoding() == b,
        parse_cert_data(b)->Ok_0.payload() == b.skip(6),
        parse_cert_data(b)->Ok_0.wf(),
    decreases b.len(), 1int,
{
    lemma_le_u16_bytes_of_read(b, 0);
    lemma_le_u32_bytes_of_read(b, 2);
    if le_u16(b, 0) == 6 {
        lemma_qe_report_cert_data_decode_encode(b.skip(6));
    }
    lemma_pieces(b, 0, 2, 6);
}

/// QE report certification data that decodes from `b` encodes back to `b`,
/// and every length in it fits the field that stores it.
pub proof fn lemma_qe_report_cert_data_decode_encode(b: Seq<u8>)
    requires
        parse_qe_report_cert_data(b) is Ok,
    ensures
        parse_qe_report_cert_data(b)->Ok_0.encoding() == b,
        parse_qe_report_cert_data(b)->Ok_0.wf(),
    decreases b.len(), 0int,
{
    let n = le_u16(b, 448);
    lemma_le_u16_bytes_of_read(b, 448);
    lemma_cert_data_decode_encode(b.skip(450 + n));
    lemma_pieces(b, 384, 448, 450);
    lemma_pieces(b, 448, 450, 450 + n);
}

/// A signature block that decodes from `b` encodes back to `b`.
pub proof fn lemma_signature_data_decode_encode(b: Seq<u8>)
    requires
        parse_signature_data(b) is Ok,
    ensures
        parse_signature_data(b)->Ok_0.encoding() == b,
        parse_signature_data(b)->Ok_0.wf(),
{
    lemma_cert_data_decode_encode(b.skip(128));
    lemma_pieces(b, 64, 128, 128);
}

/// Round trip: a quote that decodes from `b` encodes back to `b`, byte for
/// byte, and is well formed.
pub proof fn lemma_quote_decode_encode(b: Seq<u8>)
    requires
        parse_quote(b) is Ok,
    ensures
        parse_quote(b)->Ok_0.encoding() == b,
        parse_quote(b)->Ok_0.wf(),
{
    let q = parse_quote(b)->Ok_0;
    let start = signature_offset(q.header.tee_type);
    let end = start + le_u32(b, start - 4);
    lemma_le_u32_bytes_of_read(b, start - 4);
    lemma_signature_data_decode_encode(b.subrange(start, end));
    lemma_pieces(b, 48, start - 4, start);
}

/// Well-formed certification data decodes from its own encoding.
pub proof fn lemma_cert_data_encode_decode(c: CertDataView)
    requires
        c.wf(),
    ensures
        parse_cert_data(c.encoding()) == Ok::<CertDataView, QuoteErrorView>(c),
    decreases c, 1int,
{
    let e = c.encoding();
    lemma_le_u16_of_bytes(c.tag());
    lemma_le_u32_of_bytes(c.payload().len() as int);
    assert(e.skip(6) =~= c.payload());
    match c {
        CertDataView::Certificates(_) => {},
        CertDataView::QeReportCertData(report) => {
            lemma_qe_report_cert_data_encode_decode(report);
        },
    }
}

/// Well-formed QE report certification data decodes from its own encoding.
pub proof fn lemma_qe_report_cert_data_encode_decode(q: QeReportCertDataView)
    requires
        q.wf(),
    ensures
        parse_qe_report_cert_data(q.encoding()) == Ok::<QeReportCertDataView, QuoteErrorView>(q),
    decreases q, 0int,
{
    let e = q.encoding();
    let n = q.qe_auth_data.len() as int;
    lemma_le_u16_of_bytes(n);
    assert(e.subrange(0, 384) =~= q.qe_report);
    assert(e.subrange(384, 448) =~= q.qe_report_signature);
    assert(e.subrange(450, 450 + n) =~= q.qe_auth_data);
    assert(e.skip(450 + n) =~= (*q.qe_cert_data).encoding());
    lemma_cert_data_encode_decode(*q.qe_cert_data);
}

/// A well-formed signature block decodes from its own encoding.
pub proof fn lemma_signature_data_encode_decode(s: QuoteSignatureDataView)
    requires
        s.wf(),
    ensures
        parse_signature_data(s.encoding()) == Ok::<QuoteSignatureDataView, QuoteErrorView>(s),
{
    let e = s.encoding();
    assert(e.subrange(0, 64) =~= s.sig);
    assert(e.subrange(64, 128) =~= s.key);
    assert(e.skip(128) =~= s.cert_data.encoding());
    lemma_cert_data_encode_decode(s.cert_data);
}

/// A well-formed quote decodes from its own encoding: the codec loses nothing.
pub proof fn lemma_quote_encode_decode(q: QuoteView)
    requires
        q.wf(),
    ensures
        parse_quote(q.encoding()) == Ok::<QuoteView, QuoteErrorView>(q),
{
    let e = q.encoding();
    let start = signature_offset(q.header.tee_type);
    let n = q.signature.encoding().len() as int;
    lemma_le_u32_of_bytes(n);
    assert(e.subrange(0, 48) =~= q.header.raw);
    assert(e.subrange(48, start - 4) =~= q.body);
    assert(e.subrange(start, start + n) =~= q.signature.encoding());
    assert(e.skip(start + n) =~= q.rest);
    lemma_signature_data_encode_decode(q.signature);
}

/// Two quotes with the same content have the same encoding: the bytes depend
/// on the decoded tree alone.
pub proof fn lemma_encoding_is_a_function_of_the_tree(a: QuoteView, b: QuoteView)
    requires
        a.header.raw == b.header.raw,
        a.body == b.body,
        a.signature == b.signature,
        a.rest == b.rest,
    ensures
        a.encoding() == b.encoding(),
{
}

/// The length stored in decoded certification data is the length of its
/// encoded payload.
pub proof fn lemma_stored_length_is_payload_length(b: Seq<u8>)
    requires
        parse_cert_data(b) is Ok,
    ensures
        le_u32(b, 2) == parse_cert_data(b)->Ok_0.payload().len(),
        b.len() == 6 + parse_cert_data(b)->Ok_0.payload().len(),
{
    lemma_cert_data_decode_encode(b);
}

/// A stored length that disagrees with the number of bytes present is
/// reported as such, whatever the tag.
pub proof fn lemma_wrong_stored_length_is_rejected(b: Seq<u8>)
    requires
        b.len() >= 6,
        le_u32(b, 2) != b.len() - 6,
    ensures
        parse_cert_data(b) == Err::<CertDataView, QuoteErrorView>(
            QuoteErrorView::LengthMismatch { expected: le_u32(b, 2), actual: b.len() - 6 },
        ),
{
}

/// With a stored length that is right, a tag other than 5 and 6 is rejected
/// with that tag.
pub proof fn lemma_unknown_tag_is_rejected(b: Seq<u8>)
    requires
        b.len() >= 6,
        le_u32(b, 2) == b.len() - 6,
        le_u16(b, 0) != 5,
        le_u16(b, 0) != 6,
    ensures
        parse_cert_data(b) == Err::<CertDataView, QuoteErrorView>(
            QuoteErrorView::UnsupportedCertDataType(le_u16(b, 0)),
        ),
{
}

/// A buffer whose header names a TEE type, and which is too short for the
/// body of that type, is truncated in its body: below 384 bytes behind the
/// header for SGX, below 584 for TDX.
pub proof fn lemma_short_body_is_truncated(b: Seq<u8>, tee_type: TeeType)
    requires
        b.len() >= 48,
        tee_type_of(le_u32(b, 4)) == Some(tee_type),
        b.len() < 48 + body_len(tee_type),
    ensures
        parse_quote(b) == Err::<QuoteView, QuoteErrorView>(
            QuoteErrorView::TruncatedInput(Field::Body),
        ),
{
}

/// The body of a decoded quote has the size that its TEE type calls for.
pub proof fn lemma_body_size_follows_tee_type(b: Seq<u8>)
    requires
        parse_quote(b) is Ok,
    ensures
        parse_quote(b)->Ok_0.header.tee_type == TeeType::Sgx ==> parse_quote(b)->Ok_0.body.len()
            == 384,
        parse_quote(b)->Ok_0.header.tee_type == TeeType::Tdx ==> parse_quote(b)->Ok_0.body.len()
            == 584,
{
}

/// A chain without blocks has no bytes, and that is no error.
pub proof fn lemma_der_chain_of_no_blocks()
    ensures
        der_chain(Seq::empty()) == Ok::<Seq<u8>, QuoteErrorView>(Seq::empty()),
{
}

/// Two readable blocks labelled `CERTIFICATE` give the contents of the
/// first followed by the contents of the second.
pub proof fn lemma_der_chain_of_two_blocks(first: PemBlockView, second: PemBlockView)
    requires
        first.label == certificate_label(),
        second.label == certificate_label(),
    ensures
        der_chain(seq![Ok(first), Ok(second)]) == Ok::<Seq<u8>, QuoteErrorView>(
            first.contents + second.contents,
        ),
{
    let both = seq![Ok::<PemBlockView, PemFault>(first), Ok(second)];
    let last = seq![Ok::<PemBlockView, PemFault>(second)];
    reveal_with_fuel(der_chain, 3);
}

/// A block with another label than `CERTIFICATE` makes the chain fail with
/// that label, whatever follows it.
pub proof fn lemma_der_chain_refuses_other_labels(
    block: PemBlockView,
    rest: Seq<Result<PemBlockView, PemFault>>,
)
    requires
        block.label != certificate_label(),
    ensures
        der_chain(seq![Ok(block)] + rest) == Err::<Seq<u8>, QuoteErrorView>(
            QuoteErrorView::UnexpectedPemLabel(block.label),
        ),
{
}

/// The rewrite is refused for a quote whose signature block holds the
/// certificate chain directly.
pub proof fn lemma_rewrite_refuses_bare_chain(q: QuoteView)
    requires
        q.signature.cert_data is Certificates,
    ensures
        quote_cert_chain_to_der(q) == Err::<QuoteView, QuoteErrorView>(
            QuoteErrorView::UnexpectedCertDataVariant,
        ),
{
}

/// The rewrite changes the length of the encoded quote by as much as it
/// changes the length of the certificate chain, and nothing else.
pub proof fn lemma_rewrite_changes_length_by_chain(q: QuoteView)
    requires
        quote_cert_chain_to_der(q) is Ok,
    ensures
        q.signature.cert_data is QeReportCertData,
        (*q.signature.cert_data->QeReportCertData_0.qe_cert_data) is Certificates,
        ({
            let after = quote_cert_chain_to_der(q)->Ok_0;
            let pem = (*q.signature.cert_data->QeReportCertData_0.qe_cert_data)->Certificates_0;
            let der = (*after.signature.cert_data->QeReportCertData_0.qe_cert_data)->Certificates_0;
            &&& der_chain(pem_entries(pem)) == Ok::<Seq<u8>, QuoteErrorView>(der)
            &&& after.encoding().len() - der.len() == q.encoding().len() - pem.len()
            &&& after.header == q.header
            &&& after.body == q.body
            &&& after.rest == q.rest
        }),
{
    let after = quote_cert_chain_to_der(q)->Ok_0;
    let report = q.signature.cert_data->QeReportCertData_0;
    let report_after = after.signature.cert_data->QeReportCertData_0;
    assert(report_after.encoding().len() - (*report_after.qe_cert_data).payload().len()
        == report.encoding().len() - (*report.qe_cert_data).payload().len());
}

} // verus!
