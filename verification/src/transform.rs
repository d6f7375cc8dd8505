//! The round-trip check and the one rewrite that the codec supports: the
//! certificate chain of a quote, from PEM to DER.

use crate::error::{QuoteError, QuoteErrorView, RoundtripFailure};
use crate::model::{
    parse_quote, CertDataView, QeReportCertDataView, QuoteSignatureDataView, QuoteView,
};
use crate::pem::{der_chain, pem_chain_to_der, pem_entries};
use crate::quote::{CertData, Quote};
use vstd::prelude::*;

verus! {

/// A certificate chain with its PEM payload replaced by the DER contents of
/// its blocks. Only a `Certificates` node can be rewritten.
pub open spec fn cert_chain_to_der(c: CertDataView) -> Result<CertDataView, QuoteErrorView> {
    match c {
        CertDataView::Certificates(chain) => match der_chain(pem_entries(chain)) {
            Ok(der) => Ok(CertDataView::Certificates(der)),
            Err(e) => Err(e),
        },
        CertDataView::QeReportCertData(_) => Err(QuoteErrorView::UnexpectedCertDataVariant),
    }
}

/// A quote with the certificate chain inside its QE report certification
/// data rewritten from PEM to DER, and everything else as it was.
pub open spec fn quote_cert_chain_to_der(q: QuoteView) -> Result<QuoteView, QuoteErrorView> {
    match q.signature.cert_data {
        CertDataView::QeReportCertData(report) => match cert_chain_to_der(*report.qe_cert_data) {
            Ok(chain) => Ok(
                QuoteView {
                    signature: QuoteSignatureDataView {
                        cert_data: CertDataView::QeReportCertData(
                            QeReportCertDataView { qe_cert_data: Box::new(chain), ..report },
                        ),
                        ..q.signature
                    },
                    ..q
                },
            ),
            Err(e) => Err(e),
        },
        CertDataView::Certificates(_) => Err(QuoteErrorView::UnexpectedCertDataVariant),
    }
}

/// `k` is the first offset at which `a` and `b` differ: they agree before
/// it, and at `k` one of them ends or their bytes are not the same.
pub open spec fn first_difference(a: Seq<u8>, b: Seq<u8>, k: int) -> bool {
    &&& 0 <= k <= a.len()
    &&& k <= b.len()
    &&& a.subrange(0, k) == b.subrange(0, k)
    &&& if k < a.len() && k < b.len() {
        a[k] != b[k]
    } else {
        a.len() != b.len()
    }
}

impl CertData {
    /// Rewrites a certificate chain in place: the payload, read as PEM
    /// blocks, is replaced by the DER contents of those blocks. A node that
    /// is no `Certificates` is refused, and on any failure it stays as it was.
    pub fn pem_to_der(&mut self) -> (r: Result<(), QuoteError>)
        ensures
            match cert_chain_to_der(old(self)@) {
                Ok(after) => r is Ok && final(self)@ == after,
                Err(e) => r matches Err(err) && err@ == e && *final(self) == *old(self),
            },
    {
        match self {
            CertData::Certificates(chain) => {
                match pem_chain_to_der(chain.as_slice()) {
                    Ok(der) => {
                        *chain = der;
                        Ok(())
                    },
                    Err(e) => Err(e),
                }
            },
            CertData::QeReportCertData(_) => Err(QuoteError::UnexpectedCertDataVariant),
        }
    }
}

/// Rewrites the certificate chain of a quote from PEM to DER. The chain is
/// looked for in one place only: the `Certificates` node inside the QE report
/// certification data of the signature block. Any other shape is refused,
/// and on any failure the quote stays as it was.
pub fn transform_cert_chain(quote: &mut Quote) -> (r: Result<(), QuoteError>)
    ensures
        match quote_cert_chain_to_der(old(quote)@) {
            Ok(after) => r is Ok && final(quote)@ == after,
            Err(e) => r matches Err(err) && err@ == e && *final(quote) == *old(quote),
        },
        old(quote)@.signature.cert_data is Certificates ==> r matches Err(
            QuoteError::UnexpectedCertDataVariant,
        ),
{
    match &mut quote.signature.cert_data {
        CertData::QeReportCertData(report) => report.qe_cert_data.pem_to_der(),
        CertData::Certificates(_) => Err(QuoteError::UnexpectedCertDataVariant),
    }
}

/// Why a quote could not be rewritten.
#[derive(Debug, PartialEq, Eq)]
pub enum PreprocessError {
    /// The quote did not decode, or its certificate chain could not be rewritten.
    Quote(QuoteError),
    /// The decoded quote did not encode back to the input.
    Roundtrip(RoundtripFailure),
}

/// The bytes of a quote after its certificate chain has been rewritten
/// from PEM to DER.
pub open spec fn preprocessed(raw: Seq<u8>) -> Result<Seq<u8>, QuoteErrorView> {
    match parse_quote(raw) {
        Err(e) => Err(e),
        Ok(quote) => match quote_cert_chain_to_der(quote) {
            Ok(after) => Ok(after.encoding()),
            Err(e) => Err(e),
        },
    }
}

/// Decodes a quote, checks that it encodes back to the input, rewrites its
/// certificate chain from PEM to DER, and encodes the result. The check
/// stands between decoding and rewriting; that it cannot fail is proved,
/// so the only errors are those of decoding and of rewriting.
pub fn preprocess_quote(raw: &[u8]) -> (r: Result<Vec<u8>, PreprocessError>)
    ensures
        match preprocessed(raw@) {
            Ok(bytes) => r matches Ok(out) && out@ == bytes,
            Err(e) => r matches Err(PreprocessError::Quote(err)) && err@ == e,
        },
{
    let mut quote = match Quote::from_bytes(raw) {
        Ok(quote) => quote,
        Err(e) => {
            return Err(PreprocessError::Quote(e));
        },
    };
    match verify_roundtrip(raw, &quote) {
        Ok(()) => {},
        Err(failure) => {
            return Err(PreprocessError::Roundtrip(failure));
        },
    }
    match transform_cert_chain(&mut quote) {
        Ok(()) => {},
        Err(e) => {
            return Err(PreprocessError::Quote(e));
        },
    }
    Ok(quote.to_bytes())
}

/// Checks that `quote` encodes to exactly `input`. A failure names the
/// first offset at which the two differ.
pub fn verify_roundtrip(input: &[u8], quote: &Quote) -> (r: Result<(), RoundtripFailure>)
    ensures
        r is Ok <==> quote@.encoding() == input@,
        r matches Err(failure) ==> first_difference(
            quote@.encoding(),
            input@,
            failure.offset as int,
        ),
{
    let encoded = quote.to_bytes();
    let mut i: usize = 0;
    while i < encoded.len() && i < input.len()
        invariant
            i <= encoded.len(),
            i <= input.len(),
            encoded@ == quote@.encoding(),
            forall|k: int| 0 <= k < i ==> encoded@[k] == input@[k],
        decreases encoded.len() - i,
    {
        if encoded[i] != input[i] {
            assert(encoded@.subrange(0, i as int) =~= input@.subrange(0, i as int));
            return Err(RoundtripFailure { offset: i });
        }
        i += 1;
    }
    if encoded.len() != input.len() {
        assert(encoded@.subrange(0, i as int) =~= input@.subrange(0, i as int));
        return Err(RoundtripFailure { offset: i });
    }
    assert(encoded@ =~= input@);
    Ok(())
}

} // verus!
