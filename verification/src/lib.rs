//! Tools that prepare DCAP attestation data for use as Cairo test input.
//!
//! The heart of the crate is a codec for attestation quotes of SGX and TDX:
//! [`quote`] holds the decoded structures with `from_bytes` and `to_bytes`,
//! [`model`] says what each structure is as a mathematical value and how it
//! is laid out in bytes, and [`laws`] proves what holds between the two:
//! above all that a decoded quote encodes back to the very bytes it came
//! from. [`transform`] rewrites the certificate chain of a quote from PEM to
//! DER, with the help of [`pem`].
//!
//! Around it stand writers of Cairo source text: [`cairo`] for byte arrays,
//! [`qeidentity`] and [`tcbinfo`] for attestation collateral.

pub mod bytes;
pub mod cairo;
pub mod constants;
pub mod datetime;
pub mod error;
pub mod format;
pub mod hexstr;
pub mod laws;
pub mod model;
pub mod ordering;
pub mod pem;
pub mod qeidentity;
pub mod quote;
pub mod render;
pub mod tcbinfo;
pub mod text;
pub mod transform;
