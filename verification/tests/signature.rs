use webhook_receiver::api::error::{ApiError, InternalCause};
use webhook_receiver::forgejo::check_signature;
use webhook_receiver::github::signature_matches;
use webhook_receiver::signature::{
    constant_time_eq, constant_time_same_text, hex_digest, push_hex, verify, SignatureFormat,
};

const FOX: &[u8] = b"The quick brown fox jumps over the lazy dog";
const FOX_DIGEST: &str = "f7bc83f430538424b13298e6aa6fb143ef4d59a14946175997479dbc2d1a3cd8";

#[test]
fn hex_digest_of_known_message() {
    assert_eq!(hex_digest("key", FOX).unwrap(), FOX_DIGEST);
}

#[test]
fn hex_digest_of_empty_key_and_message() {
    assert_eq!(
        hex_digest("", b"").unwrap(),
        "b613679a0814d9ec772f95d778c35fc5ff1697c493715653c6c712144292c5ad"
    );
}

#[test]
fn hex_digest_of_documented_example() {
    assert_eq!(
        hex_digest("my secret and secure key", b"input message").unwrap(),
        "97d2a569059bbcd8ead4444ff99071f4c01d005bcefe0d3567e1be628e5fdcd9"
    );
}

#[test]
fn hex_digest_takes_a_key_longer_than_a_block() {
    let key = "k".repeat(200);
    let digest = hex_digest(&key, FOX).unwrap();
    assert_eq!(digest.len(), 64);
    assert!(digest.bytes().all(|b| b.is_ascii_digit() || (b'a'..=b'f').contains(&b)));
    assert_ne!(digest, FOX_DIGEST);
}

#[test]
fn push_hex_writes_two_lowercase_digits_per_byte() {
    let mut text = String::from("x");
    push_hex(&mut text, &[0x00, 0x0f, 0xa0, 0xff, 0x9c]);
    assert_eq!(text, "x000fa0ff9c");
    push_hex(&mut text, &[]);
    assert_eq!(text, "x000fa0ff9c");
}

#[test]
fn constant_time_eq_decides_equality() {
    assert!(constant_time_eq(b"", b""));
    assert!(constant_time_eq(b"abc", b"abc"));
    assert!(!constant_time_eq(b"abc", b"abd"));
    assert!(!constant_time_eq(b"abc", b"xbc"));
    assert!(!constant_time_eq(b"abc", b"ab"));
    assert!(!constant_time_eq(b"ab", b"abc"));
    assert!(!constant_time_eq(&[0x01, 0x02], &[0x02, 0x01]));
    assert!(!constant_time_eq(&[0x80], &[0x00]));
}

#[test]
fn constant_time_same_text_decides_equality() {
    assert!(constant_time_same_text("sha256=ab", "sha256=ab"));
    assert!(!constant_time_same_text("sha256=ab", "sha256=ac"));
    assert!(!constant_time_same_text("sha256=ab", "sha256=a"));
    assert!(constant_time_same_text("", ""));
}

#[test]
fn bare_signature_is_accepted() {
    assert!(verify(Some("key"), FOX, FOX_DIGEST, SignatureFormat::BareHex).is_ok());
    assert!(check_signature(Some("key"), FOX_DIGEST, FOX).is_ok());
}

#[test]
fn prefixed_signature_is_accepted() {
    let signature = format!("sha256={}", FOX_DIGEST);
    assert!(verify(Some("key"), FOX, &signature, SignatureFormat::Sha256Prefixed).is_ok());
    assert!(signature_matches("key", &signature, FOX));
}

#[test]
fn format_is_not_interchangeable() {
    let prefixed = format!("sha256={}", FOX_DIGEST);
    assert!(matches!(
        verify(Some("key"), FOX, &prefixed, SignatureFormat::BareHex),
        Err(ApiError::MismatchedSignature(_))
    ));
    assert!(matches!(
        verify(Some("key"), FOX, FOX_DIGEST, SignatureFormat::Sha256Prefixed),
        Err(ApiError::MismatchedSignature(_))
    ));
    assert!(!signature_matches("key", FOX_DIGEST, FOX));
}

#[test]
fn signature_that_differs_in_one_character_is_a_mismatch() {
    for position in 0..FOX_DIGEST.len() {
        let mut bytes = FOX_DIGEST.as_bytes().to_vec();
        bytes[position] = if bytes[position] == b'0' { b'1' } else { b'0' };
        let forged = String::from_utf8(bytes).unwrap();
        match verify(Some("key"), FOX, &forged, SignatureFormat::BareHex) {
            Err(ApiError::MismatchedSignature(mismatch)) => assert_eq!(mismatch.signature, forged),
            other => panic!("position {}: {:?}", position, other),
        }
    }
}

#[test]
fn upper_case_digest_is_a_mismatch() {
    let upper = FOX_DIGEST.to_uppercase();
    assert!(matches!(
        verify(Some("key"), FOX, &upper, SignatureFormat::BareHex),
        Err(ApiError::MismatchedSignature(_))
    ));
}

#[test]
fn truncated_and_extended_signatures_are_mismatches() {
    let short = &FOX_DIGEST[..63];
    let long = format!("{}0", FOX_DIGEST);
    assert!(verify(Some("key"), FOX, short, SignatureFormat::BareHex).is_err());
    assert!(verify(Some("key"), FOX, &long, SignatureFormat::BareHex).is_err());
    assert!(verify(Some("key"), FOX, "", SignatureFormat::BareHex).is_err());
}

#[test]
fn mismatch_carries_only_what_was_sent() {
    let err = verify(Some("key"), FOX, "not-the-digest", SignatureFormat::BareHex).unwrap_err();
    assert_eq!(err.status(), 400);
    assert_eq!(err.to_string(), "not-the-digest");
    match err {
        ApiError::MismatchedSignature(mismatch) => assert_eq!(mismatch.signature, "not-the-digest"),
        other => panic!("unexpected error: {:?}", other),
    }
}

#[test]
fn wrong_secret_is_a_mismatch() {
    assert!(matches!(
        verify(Some("other"), FOX, FOX_DIGEST, SignatureFormat::BareHex),
        Err(ApiError::MismatchedSignature(_))
    ));
}

#[test]
fn altered_body_is_a_mismatch() {
    let mut body = FOX.to_vec();
    body.push(b'.');
    assert!(matches!(
        verify(Some("key"), &body, FOX_DIGEST, SignatureFormat::BareHex),
        Err(ApiError::MismatchedSignature(_))
    ));
}

#[test]
fn missing_secret_fails_closed() {
    let err = verify(None, FOX, FOX_DIGEST, SignatureFormat::BareHex).unwrap_err();
    assert_eq!(err.status(), 500);
    match err {
        ApiError::InternalError(internal) => {
            assert!(matches!(internal.source, InternalCause::SecretUnavailable))
        }
        other => panic!("unexpected error: {:?}", other),
    }
    assert!(matches!(
        check_signature(None, FOX_DIGEST, FOX),
        Err(ApiError::InternalError(_))
    ));
}

#[test]
fn equal_digests_succeed_for_bodies_of_any_size() {
    for size in [0usize, 1, 63, 64, 65, 1000, 100_000] {
        let body = vec![0x61u8; size];
        let digest = hex_digest("secret", &body).unwrap();
        assert!(verify(Some("secret"), &body, &digest, SignatureFormat::BareHex).is_ok());
        let prefixed = format!("sha256={}", digest);
        assert!(verify(Some("secret"), &body, &prefixed, SignatureFormat::Sha256Prefixed).is_ok());
    }
}
