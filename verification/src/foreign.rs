//! Trusted declarations of the foreign failure types that the error type
//! carries, and of the messages they render to.
//!
//! The four collaborating subsystems (base64 decoding, JSON serialization,
//! UTF-8 validation, cryptography) each signal failure with a type of their
//! own. Those types are opaque here: the library stores them, renders their
//! messages, and never looks inside.

use serde_json::Error as SerdeJsonError;
use vstd::prelude::*;

verus! {

/// Relies on base64's `DecodeError`: the failure type of base64 decoding,
/// carried opaquely inside `ErrorKind::Base64`.
#[verifier::external_type_specification]
#[verifier::external_body]
pub struct ExDecodeError(base64::DecodeError);

/// Relies on serde_json's `Error`: the failure type of JSON
/// serialization/deserialization, carried opaquely inside `ErrorKind::Json`.
#[verifier::external_type_specification]
#[verifier::external_body]
pub struct ExJsonError(SerdeJsonError);

/// Relies on std's `FromUtf8Error`: the failure type of UTF-8 validation,
/// carried opaquely inside `ErrorKind::Utf8`.
#[verifier::external_type_specification]
#[verifier::external_body]
pub struct ExFromUtf8Error(std::string::FromUtf8Error);

/// Relies on ring's `Unspecified`: the deliberately detail-free failure type
/// of cryptographic operations, carried opaquely inside `ErrorKind::Crypto`.
#[verifier::external_type_specification]
#[verifier::external_body]
pub struct ExUnspecified(ring::error::Unspecified);

/// Relies on ring's `KeyRejected`: the failure type of key-material
/// rejection. It is never stored: converting it discards the rejection
/// reason on purpose.
#[verifier::external_type_specification]
#[verifier::external_body]
pub struct ExKeyRejected(ring::error::KeyRejected);

/// The message a base64 decode failure renders to.
pub uninterp spec fn base64_message(err: base64::DecodeError) -> Seq<char>;

/// The message a UTF-8 validation failure renders to.
pub uninterp spec fn utf8_message(err: std::string::FromUtf8Error) -> Seq<char>;

/// Relies on base64's `Display for DecodeError`: the rendered message is a
/// function of the error value alone.
#[verifier::external_body]
pub(crate) fn base64_message_of(err: &base64::DecodeError) -> (r: String)
    ensures
        r@ == base64_message(*err),
{
    format!("{}", err)
}

/// Relies on serde_json's `Display for Error` only to produce some text: for
/// an I/O-backed failure it delegates to the wrapped `io::Error`, whose
/// rendering may differ from call to call, so nothing is promised of the
/// result. The library calls this once, when the failure is absorbed, and
/// stores what came back.
#[verifier::external_body]
pub(crate) fn json_message_of(err: &serde_json::Error) -> String {
    format!("{}", err)
}

/// Relies on std's `Display for FromUtf8Error`: the rendered message is a
/// function of the error value alone.
#[verifier::external_body]
pub(crate) fn utf8_message_of(err: &std::string::FromUtf8Error) -> (r: String)
    ensures
        r@ == utf8_message(*err),
{
    format!("{}", err)
}

} // verus!
