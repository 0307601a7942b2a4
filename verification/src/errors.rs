//! The error type: an opaque wrapper around a boxed [`ErrorKind`] tag.
//!
//! The kind is fixed at construction and never mutated. Intrinsic tags map to
//! one canonical static message; wrapped tags carry a foreign payload and
//! derive their message from it under a fixed category prefix.

use crate::foreign::base64_message;
use crate::foreign::base64_message_of;
use crate::foreign::json_message_of;
use crate::foreign::utf8_message;
use crate::foreign::utf8_message_of;
use vstd::prelude::*;
use vstd::string::StringExecFns;

verus! {

/// A result whose failure arm is always this library's [`Error`].
pub type TokenResult<T> = core::result::Result<T, Error>;

/// An error that can occur when encoding or decoding tokens.
///
/// The kind is boxed so that the error itself has one small, uniform size
/// whichever variant it carries.
#[derive(Debug)]
pub struct Error {
    kind: Box<ErrorKind>,
}

/// The specific type of an error.
///
/// This enum may grow additional variants: external matchers must keep a
/// wildcard arm rather than match exhaustively. The reserved
/// `__Nonexhaustive` tag exists only to hint at that.
#[derive(Debug)]
pub enum ErrorKind {
    /// When a token doesn't have a valid JWT shape
    InvalidToken,
    /// When the signature doesn't match
    InvalidSignature,
    /// When the secret given is not a valid ECDSA key
    InvalidEcdsaKey,
    /// When the secret given is not a valid RSA key
    InvalidRsaKey,
    /// When the algorithm from string doesn't match the one passed to `from_str`
    InvalidAlgorithmName,
    /// When a key is provided with an invalid format
    InvalidKeyFormat,
    /// When a token's `exp` claim indicates that it has expired
    ExpiredSignature,
    /// When a token's `iss` claim does not match the expected issuer
    InvalidIssuer,
    /// When a token's `aud` claim does not match one of the expected audience values
    InvalidAudience,
    /// When a token's `sub` claim does not match the expected subject
    InvalidSubject,
    /// When a token's `nbf` claim represents a time in the future
    ImmatureSignature,
    /// When the algorithm in the header doesn't match the one passed to `decode`
    InvalidAlgorithm,
    /// An error happened when decoding some base64 text
    Base64(base64::DecodeError),
    /// An error happened while serializing/deserializing JSON. Beside the
    /// payload stands the message it rendered to when it was absorbed:
    /// serde_json derives its message from a wrapped `io::Error` for
    /// I/O-backed failures, which need not render the same way twice, so the
    /// text is captured once and every later rendering reads it back.
    Json(serde_json::Error, String),
    /// Some of the text was invalid UTF-8
    Utf8(std::string::FromUtf8Error),
    /// Something unspecified went wrong with crypto
    Crypto(ring::error::Unspecified),
    /// Hints that destructuring should not be exhaustive: clients must not
    /// count on exhaustive matching, since adding a new variant could
    /// otherwise break existing code.
    __Nonexhaustive,
}

/// The canonical static message of a kind: fixed for every intrinsic tag and
/// for the reserved catch-all tag, absent for the tags that wrap a foreign
/// payload.
pub open spec fn kind_description(k: ErrorKind) -> Option<Seq<char>> {
    match k {
        ErrorKind::InvalidToken => Some("invalid token"@),
        ErrorKind::InvalidSignature => Some("invalid signature"@),
        ErrorKind::InvalidEcdsaKey => Some("invalid ECDSA key"@),
        ErrorKind::InvalidRsaKey => Some("invalid RSA key"@),
        ErrorKind::InvalidAlgorithmName => Some("not a known algorithm"@),
        ErrorKind::InvalidKeyFormat => Some("invalid key format"@),
        ErrorKind::ExpiredSignature => Some("expired signature"@),
        ErrorKind::InvalidIssuer => Some("invalid issuer"@),
        ErrorKind::InvalidAudience => Some("invalid audience"@),
        ErrorKind::InvalidSubject => Some("invalid subject"@),
        ErrorKind::ImmatureSignature => Some("immature signature"@),
        ErrorKind::InvalidAlgorithm => Some("algorithms don't match"@),
        ErrorKind::__Nonexhaustive => Some("unknown error"@),
        ErrorKind::Base64(_) => None,
        ErrorKind::Json(_, _) => None,
        ErrorKind::Utf8(_) => None,
        ErrorKind::Crypto(_) => None,
    }
}

/// The full human-readable rendering of an error with kind `k`: the canonical
/// message for intrinsic tags, a fixed category prefix followed by the
/// payload's message for wrapped tags (for the Json tag, the message captured
/// when the failure was absorbed) — except the cryptographic tag, which
/// renders to a fixed literal so that no detail about the failure leaks.
pub open spec fn kind_rendering(k: ErrorKind) -> Seq<char> {
    match k {
        ErrorKind::Base64(err) => "Base64 error: "@ + base64_message(err),
        ErrorKind::Json(_, msg) => "JSON error: "@ + msg@,
        ErrorKind::Utf8(err) => "UTF-8 error: "@ + utf8_message(err),
        ErrorKind::Crypto(_) => "Crypto error: undefined"@,
        _ => kind_description(k).unwrap(),
    }
}

/// The rendering of the underlying cause of an error with kind `k`: the
/// wrapped payload's message for the Base64, Json and Utf8 tags, absent
/// for every intrinsic tag and for the cryptographic tag (which carries no
/// inspectable detail).
pub open spec fn kind_cause(k: ErrorKind) -> Option<Seq<char>> {
    match k {
        ErrorKind::Base64(err) => Some(base64_message(err)),
        ErrorKind::Json(_, msg) => Some(msg@),
        ErrorKind::Utf8(err) => Some(utf8_message(err)),
        _ => None,
    }
}

impl ErrorKind {
    /// The canonical static message for this kind, `None` for the kinds that
    /// wrap a foreign payload and derive their message from it.
    pub fn description(&self) -> (r: Option<&'static str>)
        ensures
            r matches Some(s) ==> kind_description(*self) == Some(s@),
            r is None ==> kind_description(*self) is None,
    {
        match self {
            ErrorKind::InvalidToken => Some("invalid token"),
            ErrorKind::InvalidSignature => Some("invalid signature"),
            ErrorKind::InvalidEcdsaKey => Some("invalid ECDSA key"),
            ErrorKind::InvalidRsaKey => Some("invalid RSA key"),
            ErrorKind::InvalidAlgorithmName => Some("not a known algorithm"),
            ErrorKind::InvalidKeyFormat => Some("invalid key format"),
            ErrorKind::ExpiredSignature => Some("expired signature"),
            ErrorKind::InvalidIssuer => Some("invalid issuer"),
            ErrorKind::InvalidAudience => Some("invalid audience"),
            ErrorKind::InvalidSubject => Some("invalid subject"),
            ErrorKind::ImmatureSignature => Some("immature signature"),
            ErrorKind::InvalidAlgorithm => Some("algorithms don't match"),
            ErrorKind::__Nonexhaustive => Some("unknown error"),
            ErrorKind::Base64(_) => None,
            ErrorKind::Json(_, _) => None,
            ErrorKind::Utf8(_) => None,
            ErrorKind::Crypto(_) => None,
        }
    }
}

impl Error {
    /// The one value an error built from `kind` can be.
    pub closed spec fn spec_new(kind: ErrorKind) -> Error {
        Error { kind: Box::new(kind) }
    }

    /// The kind this error was built from.
    pub closed spec fn kind_spec(&self) -> ErrorKind {
        *self.kind
    }

    /// Return the specific type of this error.
    pub fn kind(&self) -> (kind: &ErrorKind)
        ensures
            *kind == self.kind_spec(),
    {
        &self.kind
    }

    /// Unwrap this error into its underlying type.
    pub fn into_kind(self) -> (kind: ErrorKind)
        ensures
            kind == self.kind_spec(),
    {
        *self.kind
    }

    /// Render this error to its human-readable message.
    pub fn render(&self) -> (r: String)
        ensures
            r@ == kind_rendering(self.kind_spec()),
    {
        match &*self.kind {
            ErrorKind::InvalidToken => "invalid token".to_owned(),
            ErrorKind::InvalidSignature => "invalid signature".to_owned(),
            ErrorKind::InvalidEcdsaKey => "invalid ECDSA key".to_owned(),
            ErrorKind::InvalidRsaKey => "invalid RSA key".to_owned(),
            ErrorKind::InvalidAlgorithmName => "not a known algorithm".to_owned(),
            ErrorKind::InvalidKeyFormat => "invalid key format".to_owned(),
            ErrorKind::ExpiredSignature => "expired signature".to_owned(),
            ErrorKind::InvalidIssuer => "invalid issuer".to_owned(),
            ErrorKind::InvalidAudience => "invalid audience".to_owned(),
            ErrorKind::InvalidSubject => "invalid subject".to_owned(),
            ErrorKind::ImmatureSignature => "immature signature".to_owned(),
            ErrorKind::InvalidAlgorithm => "algorithms don't match".to_owned(),
            ErrorKind::__Nonexhaustive => "unknown error".to_owned(),
            ErrorKind::Base64(err) => {
                let msg = base64_message_of(err);
                "Base64 error: ".to_owned().concat(msg.as_str())
            },
            ErrorKind::Json(_, msg) => "JSON error: ".to_owned().concat(msg.as_str()),
            ErrorKind::Utf8(err) => {
                let msg = utf8_message_of(err);
                "UTF-8 error: ".to_owned().concat(msg.as_str())
            },
            ErrorKind::Crypto(_) => "Crypto error: undefined".to_owned(),
        }
    }

    /// The rendering of this error's underlying cause: the wrapped foreign
    /// payload's own message for the Base64, Json and Utf8 tags, nothing for
    /// every other tag.
    pub fn cause(&self) -> (r: Option<String>)
        ensures
            r matches Some(s) ==> kind_cause(self.kind_spec()) == Some(s@),
            r is None ==> kind_cause(self.kind_spec()) is None,
    {
        match &*self.kind {
            ErrorKind::Base64(err) => Some(base64_message_of(err)),
            ErrorKind::Json(_, msg) => Some(msg.clone()),
            ErrorKind::Utf8(err) => Some(utf8_message_of(err)),
            _ => None,
        }
    }

    /// Absorb a JSON serialization/deserialization failure. Its message is
    /// rendered once, here, and stored beside the payload, so that every
    /// later rendering of this error reads the same captured text.
    pub fn from_json(err: serde_json::Error) -> (e: Error)
        ensures
            e.kind_spec() matches ErrorKind::Json(payload, _) && payload == err,
    {
        let msg = json_message_of(&err);
        new_error(ErrorKind::Json(err, msg))
    }
}

impl core::convert::From<base64::DecodeError> for Error {
    /// Conversion rule: a base64 decode failure wraps into the `Base64` tag.
    fn from(err: base64::DecodeError) -> (e: Error) {
        new_error(ErrorKind::Base64(err))
    }
}

impl vstd::std_specs::convert::FromSpecImpl<base64::DecodeError> for Error {
    open spec fn obeys_from_spec() -> bool {
        true
    }

    open spec fn from_spec(err: base64::DecodeError) -> Error {
        Error::spec_new(ErrorKind::Base64(err))
    }
}

impl core::convert::From<serde_json::Error> for Error {
    /// Conversion rule: a JSON serialization/deserialization failure wraps
    /// into the `Json` tag, through [`Error::from_json`], which carries the
    /// exact contract.
    fn from(err: serde_json::Error) -> (e: Error) {
        Error::from_json(err)
    }
}

impl vstd::std_specs::convert::FromSpecImpl<serde_json::Error> for Error {
    /// The converted error stores a message captured from the payload's
    /// rendering at conversion time, which is not a function of the payload
    /// alone, so no spec function can name the result here. The conversion's
    /// contract stands on [`Error::from_json`].
    open spec fn obeys_from_spec() -> bool {
        false
    }

    open spec fn from_spec(_err: serde_json::Error) -> Error {
        arbitrary()
    }
}

impl core::convert::From<std::string::FromUtf8Error> for Error {
    /// Conversion rule: a UTF-8 validation failure wraps into the `Utf8` tag.
    fn from(err: std::string::FromUtf8Error) -> (e: Error) {
        new_error(ErrorKind::Utf8(err))
    }
}

impl vstd::std_specs::convert::FromSpecImpl<std::string::FromUtf8Error> for Error {
    open spec fn obeys_from_spec() -> bool {
        true
    }

    open spec fn from_spec(err: std::string::FromUtf8Error) -> Error {
        Error::spec_new(ErrorKind::Utf8(err))
    }
}

impl core::convert::From<ring::error::Unspecified> for Error {
    /// Conversion rule: an unspecified cryptographic failure wraps into the
    /// `Crypto` tag.
    fn from(err: ring::error::Unspecified) -> (e: Error) {
        new_error(ErrorKind::Crypto(err))
    }
}

impl vstd::std_specs::convert::FromSpecImpl<ring::error::Unspecified> for Error {
    open spec fn obeys_from_spec() -> bool {
        true
    }

    open spec fn from_spec(err: ring::error::Unspecified) -> Error {
        Error::spec_new(ErrorKind::Crypto(err))
    }
}

impl core::convert::From<ring::error::KeyRejected> for Error {
    /// Conversion rule: a key-material rejection collapses to the
    /// `InvalidEcdsaKey` tag. The rejection reason is discarded on purpose:
    /// only the fact that the key was invalid is kept.
    fn from(_err: ring::error::KeyRejected) -> (e: Error) {
        new_error(ErrorKind::InvalidEcdsaKey)
    }
}

impl vstd::std_specs::convert::FromSpecImpl<ring::error::KeyRejected> for Error {
    open spec fn obeys_from_spec() -> bool {
        true
    }

    open spec fn from_spec(_err: ring::error::KeyRejected) -> Error {
        Error::spec_new(ErrorKind::InvalidEcdsaKey)
    }
}

impl core::convert::From<ErrorKind> for Error {
    /// Conversion rule: a bare kind wraps directly, with no foreign payload.
    fn from(kind: ErrorKind) -> (e: Error) {
        new_error(kind)
    }
}

impl vstd::std_specs::convert::FromSpecImpl<ErrorKind> for Error {
    open spec fn obeys_from_spec() -> bool {
        true
    }

    open spec fn from_spec(kind: ErrorKind) -> Error {
        Error::spec_new(kind)
    }
}

/// A crate private constructor for `Error`.
pub(crate) fn new_error(kind: ErrorKind) -> (e: Error)
    ensures
        e == Error::spec_new(kind),
{
    Error { kind: Box::new(kind) }
}

/// An error built from a kind holds that kind: `kind()` borrows it back and
/// `into_kind()` returns it exactly.
pub broadcast proof fn lemma_new_kind_round_trip(kind: ErrorKind)
    ensures
        (#[trigger] Error::spec_new(kind)).kind_spec() == kind,
{
}

/// Each conversion rule maps its source to its fixed tag: a base64 decode
/// failure to `Base64`, a UTF-8 failure to `Utf8`, a cryptographic failure
/// to `Crypto`, a key rejection to `InvalidEcdsaKey`, and a bare kind to
/// itself. (The JSON rule is stated apart, in
/// [`lemma_json_conversion_tag`], since its result also carries a message
/// captured at conversion time.)
pub proof fn lemma_conversion_tags(
    b: base64::DecodeError,
    u: std::string::FromUtf8Error,
    c: ring::error::Unspecified,
    r: ring::error::KeyRejected,
    k: ErrorKind,
)
    ensures
        (<Error as vstd::std_specs::convert::FromSpec<base64::DecodeError>>::from_spec(
            b,
        )).kind_spec() == ErrorKind::Base64(b),
        (<Error as vstd::std_specs::convert::FromSpec<std::string::FromUtf8Error>>::from_spec(
            u,
        )).kind_spec() == ErrorKind::Utf8(u),
        (<Error as vstd::std_specs::convert::FromSpec<ring::error::Unspecified>>::from_spec(
            c,
        )).kind_spec() == ErrorKind::Crypto(c),
        (<Error as vstd::std_specs::convert::FromSpec<ring::error::KeyRejected>>::from_spec(
            r,
        )).kind_spec() == ErrorKind::InvalidEcdsaKey,
        (<Error as vstd::std_specs::convert::FromSpec<ErrorKind>>::from_spec(k)).kind_spec() == k,
{
}

/// Whatever error the JSON conversion returns, it carries the `Json` tag
/// with the original payload (beside the message captured at conversion
/// time).
pub proof fn lemma_json_conversion_tag(err: serde_json::Error, e: Error)
    requires
        call_ensures(Error::from_json, (err,), e),
    ensures
        e.kind_spec() matches ErrorKind::Json(payload, _) && payload == err,
{
}

/// Each intrinsic tag renders to its fixed canonical string, and the
/// reserved catch-all tag renders to "unknown error".
pub proof fn lemma_intrinsic_rendering()
    ensures
        kind_rendering(ErrorKind::InvalidToken) == "invalid token"@,
        kind_rendering(ErrorKind::InvalidSignature) == "invalid signature"@,
        kind_rendering(ErrorKind::InvalidEcdsaKey) == "invalid ECDSA key"@,
        kind_rendering(ErrorKind::InvalidRsaKey) == "invalid RSA key"@,
        kind_rendering(ErrorKind::InvalidAlgorithmName) == "not a known algorithm"@,
        kind_rendering(ErrorKind::InvalidKeyFormat) == "invalid key format"@,
        kind_rendering(ErrorKind::ExpiredSignature) == "expired signature"@,
        kind_rendering(ErrorKind::InvalidIssuer) == "invalid issuer"@,
        kind_rendering(ErrorKind::InvalidAudience) == "invalid audience"@,
        kind_rendering(ErrorKind::InvalidSubject) == "invalid subject"@,
        kind_rendering(ErrorKind::ImmatureSignature) == "immature signature"@,
        kind_rendering(ErrorKind::InvalidAlgorithm) == "algorithms don't match"@,
        kind_rendering(ErrorKind::__Nonexhaustive) == "unknown error"@,
{
}

/// A wrapped foreign failure renders as its fixed category prefix followed
/// by the payload's message (for the Json tag, the message captured when
/// the failure was absorbed), so the prefix is always a prefix of the whole
/// rendering.
pub proof fn lemma_wrapped_rendering(
    b: base64::DecodeError,
    j: serde_json::Error,
    jm: String,
    u: std::string::FromUtf8Error,
)
    ensures
        kind_rendering(ErrorKind::Base64(b)) == "Base64 error: "@ + base64_message(b),
        kind_rendering(ErrorKind::Json(j, jm)) == "JSON error: "@ + jm@,
        kind_rendering(ErrorKind::Utf8(u)) == "UTF-8 error: "@ + utf8_message(u),
        ("Base64 error: "@).is_prefix_of(kind_rendering(ErrorKind::Base64(b))),
        ("JSON error: "@).is_prefix_of(kind_rendering(ErrorKind::Json(j, jm))),
        ("UTF-8 error: "@).is_prefix_of(kind_rendering(ErrorKind::Utf8(u))),
{
    assert(("Base64 error: "@ + base64_message(b)).subrange(0, "Base64 error: "@.len() as int)
        =~= "Base64 error: "@);
    assert(("JSON error: "@ + jm@).subrange(0, "JSON error: "@.len() as int) =~= "JSON error: "@);
    assert(("UTF-8 error: "@ + utf8_message(u)).subrange(0, "UTF-8 error: "@.len() as int)
        =~= "UTF-8 error: "@);
}

/// A cryptographic failure always renders to the fixed literal
/// "Crypto error: undefined", whatever its internal detail: no information
/// about why the operation failed ever leaks into the message.
pub proof fn lemma_crypto_rendering(c1: ring::error::Unspecified, c2: ring::error::Unspecified)
    ensures
        kind_rendering(ErrorKind::Crypto(c1)) == "Crypto error: undefined"@,
        kind_rendering(ErrorKind::Crypto(c1)) == kind_rendering(ErrorKind::Crypto(c2)),
{
}

/// Converting a key rejection discards the rejection reason: every two
/// rejections, however different, collapse to one and the same error value,
/// tagged `InvalidEcdsaKey`.
pub proof fn lemma_key_rejection_collapses(
    r1: ring::error::KeyRejected,
    r2: ring::error::KeyRejected,
)
    ensures
        <Error as vstd::std_specs::convert::FromSpec<ring::error::KeyRejected>>::from_spec(r1)
            == Error::spec_new(ErrorKind::InvalidEcdsaKey),
        <Error as vstd::std_specs::convert::FromSpec<ring::error::KeyRejected>>::from_spec(r1)
            == <Error as vstd::std_specs::convert::FromSpec<ring::error::KeyRejected>>::from_spec(
            r2,
        ),
{
}

/// Causal-chain lookup: every intrinsic tag, the reserved tag and the
/// cryptographic tag are leaves with no cause; each Base64/Json/Utf8 tag has
/// a cause whose rendering is exactly the wrapped payload's message (for the
/// Json tag, the message captured when the failure was absorbed).
pub proof fn lemma_cause_of_kind(k: ErrorKind)
    ensures
        (match k {
            ErrorKind::Base64(err) => kind_cause(k) == Some(base64_message(err)),
            ErrorKind::Json(_, msg) => kind_cause(k) == Some(msg@),
            ErrorKind::Utf8(err) => kind_cause(k) == Some(utf8_message(err)),
            _ => kind_cause(k) is None,
        }),
        kind_cause(k) is Some <==> (k matches ErrorKind::Base64(_) || k matches ErrorKind::Json(
            _,
            _,
        ) || k matches ErrorKind::Utf8(_)),
{
}

} // verus!
