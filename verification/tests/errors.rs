use base64::Engine;
use jwt_errors::Error;
use jwt_errors::ErrorKind;

fn json_failure() -> serde_json::Error {
    serde_json::from_str::<serde_json::Value>("{ not json").unwrap_err()
}

fn base64_failure() -> base64::DecodeError {
    base64::engine::general_purpose::STANDARD.decode("!!!").unwrap_err()
}

fn utf8_failure() -> std::string::FromUtf8Error {
    String::from_utf8(vec![0, 159, 146, 150]).unwrap_err()
}

#[test]
fn kind_round_trip_for_every_intrinsic_tag() {
    assert!(matches!(*Error::from(ErrorKind::InvalidToken).kind(), ErrorKind::InvalidToken));
    assert!(matches!(
        *Error::from(ErrorKind::InvalidSignature).kind(),
        ErrorKind::InvalidSignature
    ));
    assert!(matches!(*Error::from(ErrorKind::InvalidEcdsaKey).kind(), ErrorKind::InvalidEcdsaKey));
    assert!(matches!(*Error::from(ErrorKind::InvalidRsaKey).kind(), ErrorKind::InvalidRsaKey));
    assert!(matches!(
        *Error::from(ErrorKind::InvalidAlgorithmName).kind(),
        ErrorKind::InvalidAlgorithmName
    ));
    assert!(matches!(
        *Error::from(ErrorKind::InvalidKeyFormat).kind(),
        ErrorKind::InvalidKeyFormat
    ));
    assert!(matches!(
        *Error::from(ErrorKind::ExpiredSignature).kind(),
        ErrorKind::ExpiredSignature
    ));
    assert!(matches!(*Error::from(ErrorKind::InvalidIssuer).kind(), ErrorKind::InvalidIssuer));
    assert!(matches!(*Error::from(ErrorKind::InvalidAudience).kind(), ErrorKind::InvalidAudience));
    assert!(matches!(*Error::from(ErrorKind::InvalidSubject).kind(), ErrorKind::InvalidSubject));
    assert!(matches!(
        *Error::from(ErrorKind::ImmatureSignature).kind(),
        ErrorKind::ImmatureSignature
    ));
    assert!(matches!(
        *Error::from(ErrorKind::InvalidAlgorithm).kind(),
        ErrorKind::InvalidAlgorithm
    ));
}

#[test]
fn into_kind_round_trip_for_intrinsic_tags() {
    assert!(matches!(Error::from(ErrorKind::InvalidToken).into_kind(), ErrorKind::InvalidToken));
    assert!(matches!(
        Error::from(ErrorKind::ExpiredSignature).into_kind(),
        ErrorKind::ExpiredSignature
    ));
    assert!(matches!(
        Error::from(ErrorKind::InvalidAlgorithm).into_kind(),
        ErrorKind::InvalidAlgorithm
    ));
    assert!(matches!(
        Error::from(ErrorKind::__Nonexhaustive).into_kind(),
        ErrorKind::__Nonexhaustive
    ));
}

#[test]
fn into_kind_hands_the_payload_back() {
    let jerr = json_failure();
    let msg = format!("{}", jerr);
    let e = Error::from(jerr);
    match e.into_kind() {
        ErrorKind::Json(err, captured) => {
            assert_eq!(format!("{}", err), msg);
            assert_eq!(captured, msg);
        }
        _ => panic!("expected the Json kind"),
    }
}

#[test]
fn intrinsic_tags_render_to_their_canonical_strings() {
    assert_eq!(Error::from(ErrorKind::InvalidToken).render(), "invalid token");
    assert_eq!(Error::from(ErrorKind::InvalidSignature).render(), "invalid signature");
    assert_eq!(Error::from(ErrorKind::InvalidEcdsaKey).render(), "invalid ECDSA key");
    assert_eq!(Error::from(ErrorKind::InvalidRsaKey).render(), "invalid RSA key");
    assert_eq!(Error::from(ErrorKind::InvalidAlgorithmName).render(), "not a known algorithm");
    assert_eq!(Error::from(ErrorKind::InvalidKeyFormat).render(), "invalid key format");
    assert_eq!(Error::from(ErrorKind::ExpiredSignature).render(), "expired signature");
    assert_eq!(Error::from(ErrorKind::InvalidIssuer).render(), "invalid issuer");
    assert_eq!(Error::from(ErrorKind::InvalidAudience).render(), "invalid audience");
    assert_eq!(Error::from(ErrorKind::InvalidSubject).render(), "invalid subject");
    assert_eq!(Error::from(ErrorKind::ImmatureSignature).render(), "immature signature");
    assert_eq!(Error::from(ErrorKind::InvalidAlgorithm).render(), "algorithms don't match");
}

#[test]
fn reserved_tag_renders_as_unknown_error() {
    assert_eq!(Error::from(ErrorKind::__Nonexhaustive).render(), "unknown error");
}

#[test]
fn json_failure_renders_with_its_prefix_and_message() {
    let jerr = json_failure();
    let expected = format!("JSON error: {}", jerr);
    let e = Error::from(jerr);
    assert!(matches!(*e.kind(), ErrorKind::Json(..)));
    let rendered = e.render();
    assert!(rendered.starts_with("JSON error: "));
    assert_eq!(rendered, expected);
}

#[test]
fn base64_failure_renders_with_its_prefix_and_message() {
    let berr = base64_failure();
    let expected = format!("Base64 error: {}", berr);
    let e = Error::from(berr);
    assert!(matches!(*e.kind(), ErrorKind::Base64(_)));
    let rendered = e.render();
    assert!(rendered.starts_with("Base64 error: "));
    assert_eq!(rendered, expected);
}

#[test]
fn utf8_failure_renders_with_its_prefix_and_message() {
    let uerr = utf8_failure();
    let expected = format!("UTF-8 error: {}", uerr);
    let e = Error::from(uerr);
    assert!(matches!(*e.kind(), ErrorKind::Utf8(_)));
    let rendered = e.render();
    assert!(rendered.starts_with("UTF-8 error: "));
    assert_eq!(rendered, expected);
}

#[test]
fn crypto_failure_renders_to_the_fixed_literal() {
    let e = Error::from(ring::error::Unspecified);
    assert!(matches!(*e.kind(), ErrorKind::Crypto(_)));
    assert_eq!(e.render(), "Crypto error: undefined");
}

#[test]
fn key_rejections_all_collapse_to_invalid_ecdsa_key() {
    let r1 = ring::signature::Ed25519KeyPair::from_pkcs8(&[]).unwrap_err();
    let r2 = ring::signature::Ed25519KeyPair::from_pkcs8(&[0x30, 0x01, 0x02]).unwrap_err();
    let r3 = ring::signature::RsaKeyPair::from_der(&[0xff; 8]).unwrap_err();
    for rejection in [r1, r2, r3] {
        let e = Error::from(rejection);
        assert!(matches!(*e.kind(), ErrorKind::InvalidEcdsaKey));
        assert_eq!(e.render(), "invalid ECDSA key");
        assert!(e.cause().is_none());
    }
}

#[test]
fn intrinsic_tags_have_no_cause() {
    assert!(Error::from(ErrorKind::InvalidToken).cause().is_none());
    assert!(Error::from(ErrorKind::InvalidSignature).cause().is_none());
    assert!(Error::from(ErrorKind::InvalidEcdsaKey).cause().is_none());
    assert!(Error::from(ErrorKind::InvalidRsaKey).cause().is_none());
    assert!(Error::from(ErrorKind::InvalidAlgorithmName).cause().is_none());
    assert!(Error::from(ErrorKind::InvalidKeyFormat).cause().is_none());
    assert!(Error::from(ErrorKind::ExpiredSignature).cause().is_none());
    assert!(Error::from(ErrorKind::InvalidIssuer).cause().is_none());
    assert!(Error::from(ErrorKind::InvalidAudience).cause().is_none());
    assert!(Error::from(ErrorKind::InvalidSubject).cause().is_none());
    assert!(Error::from(ErrorKind::ImmatureSignature).cause().is_none());
    assert!(Error::from(ErrorKind::InvalidAlgorithm).cause().is_none());
    assert!(Error::from(ErrorKind::__Nonexhaustive).cause().is_none());
}

#[test]
fn crypto_failure_has_no_cause() {
    assert!(Error::from(ring::error::Unspecified).cause().is_none());
}

#[test]
fn wrapped_failures_cause_renders_as_the_payload_does() {
    let jerr = json_failure();
    let jmsg = format!("{}", jerr);
    assert_eq!(Error::from(jerr).cause().unwrap(), jmsg);

    let berr = base64_failure();
    let bmsg = format!("{}", berr);
    assert_eq!(Error::from(berr).cause().unwrap(), bmsg);

    let uerr = utf8_failure();
    let umsg = format!("{}", uerr);
    assert_eq!(Error::from(uerr).cause().unwrap(), umsg);
}

#[test]
fn token_result_failure_arm_is_the_library_error() {
    let r: jwt_errors::TokenResult<u32> = Err(Error::from(ErrorKind::InvalidToken));
    assert!(matches!(*r.unwrap_err().kind(), ErrorKind::InvalidToken));
}

#[test]
fn descriptions_of_intrinsic_and_wrapped_kinds() {
    assert_eq!(ErrorKind::InvalidToken.description(), Some("invalid token"));
    assert_eq!(ErrorKind::InvalidSignature.description(), Some("invalid signature"));
    assert_eq!(ErrorKind::InvalidEcdsaKey.description(), Some("invalid ECDSA key"));
    assert_eq!(ErrorKind::InvalidRsaKey.description(), Some("invalid RSA key"));
    assert_eq!(ErrorKind::InvalidAlgorithmName.description(), Some("not a known algorithm"));
    assert_eq!(ErrorKind::InvalidKeyFormat.description(), Some("invalid key format"));
    assert_eq!(ErrorKind::ExpiredSignature.description(), Some("expired signature"));
    assert_eq!(ErrorKind::InvalidIssuer.description(), Some("invalid issuer"));
    assert_eq!(ErrorKind::InvalidAudience.description(), Some("invalid audience"));
    assert_eq!(ErrorKind::InvalidSubject.description(), Some("invalid subject"));
    assert_eq!(ErrorKind::ImmatureSignature.description(), Some("immature signature"));
    assert_eq!(ErrorKind::InvalidAlgorithm.description(), Some("algorithms don't match"));
    assert_eq!(ErrorKind::__Nonexhaustive.description(), Some("unknown error"));
    assert!(ErrorKind::Json(json_failure(), String::new()).description().is_none());
    assert!(ErrorKind::Base64(base64_failure()).description().is_none());
    assert!(ErrorKind::Utf8(utf8_failure()).description().is_none());
    assert!(ErrorKind::Crypto(ring::error::Unspecified).description().is_none());
}
