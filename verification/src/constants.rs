use vstd::prelude::*;

verus! {

/// Size in bytes of the fixed quote header.
pub const HEADER_LEN: usize = 48;

/// TEE-type discriminant of an SGX quote.
pub const SGX_TEE_TYPE: u32 = 0x00000000;

/// TEE-type discriminant of a TDX quote.
pub const TDX_TEE_TYPE: u32 = 0x00000081;

/// Size in bytes of the SGX enclave report that forms the body of an SGX quote.
pub const ENCLAVE_REPORT_LEN: usize = 384;

/// Size in bytes of the TD 1.0 report that forms the body of a TDX quote.
pub const TD10_REPORT_LEN: usize = 584;

/// Size in bytes of an ECDSA signature, and of the attestation public key.
pub const SIGNATURE_LEN: usize = 64;

/// Tag of a `CertData` node that carries a certificate chain.
pub const CERT_DATA_CERTIFICATES: u16 = 5;

/// Tag of a `CertData` node that carries a QE report with a nested `CertData`.
pub const CERT_DATA_QE_REPORT: u16 = 6;

/// Size in bytes of the tag and length that open every `CertData` encoding.
pub const CERT_DATA_PREFIX_LEN: usize = 6;

/// Size in bytes of the fixed part of a QE report certification data block:
/// the report, its signature and the two-byte length of the authentication data.
pub const QE_REPORT_FIXED_LEN: usize = 450;

} // verus!
