//! Uniform error representation for a compact signed-token (JWT) library.
//!
//! Every failure path of the surrounding library — malformed token structure,
//! signature mismatch, invalid key material, claims-validation failures, and
//! failures surfacing from the base64, JSON, UTF-8 and cryptographic
//! collaborators — is absorbed into one [`errors::Error`] type that callers
//! can match on through its [`errors::ErrorKind`] tag.

pub mod errors;
pub mod foreign;

pub use errors::Error;
pub use errors::ErrorKind;
pub use errors::TokenResult;
