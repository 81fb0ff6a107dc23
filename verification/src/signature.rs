//! Message authenticity: the keyed hash of a body, its rendering as text,
//! and the comparison with what the caller sent.

use crate::api::error::{
    ApiError, ApiErrorView, InternalCause, InternalCauseView, InternalError, MismatchedSignature,
};
use hmac::digest::InvalidLength;
use hmac::{Hmac, Mac};
use sha2::Sha256;
use vstd::prelude::*;
use vstd::utf8::{encode_utf8, encode_utf8_decode_utf8};

verus! {

/// The refusal of a key by a keyed hash.
#[verifier::external_type_specification]
#[verifier::external_body]
pub struct ExInvalidLength(hmac::digest::InvalidLength);

/// HMAC-SHA256 of `message` under `key`.
pub uninterp spec fn hmac_sha256(key: Seq<u8>, message: Seq<u8>) -> Seq<u8>;

/// `Hmac::<Sha256>::new_from_slice`, `update` and `finalize`: the 32-byte code
/// of the whole message under the key. HMAC takes a key of any length, so the
/// construction succeeds.
#[verifier::external_body]
fn keyed_digest(key: &[u8], message: &[u8]) -> (r: Result<Vec<u8>, InvalidLength>)
    ensures
        r is Ok,
        r matches Ok(code) ==> code@ == hmac_sha256(key@, message@) && code@.len() == 32,
{
    let mut mac = Hmac::<Sha256>::new_from_slice(key)?;
    mac.update(message);
    Ok(mac.finalize().into_bytes().to_vec())
}

/// The lowercase hexadecimal digit of a value below sixteen.
pub open spec fn hex_digit(nibble: int) -> char {
    if nibble == 0 {
        '0'
    } else if nibble == 1 {
        '1'
    } else if nibble == 2 {
        '2'
    } else if nibble == 3 {
        '3'
    } else if nibble == 4 {
        '4'
    } else if nibble == 5 {
        '5'
    } else if nibble == 6 {
        '6'
    } else if nibble == 7 {
        '7'
    } else if nibble == 8 {
        '8'
    } else if nibble == 9 {
        '9'
    } else if nibble == 10 {
        'a'
    } else if nibble == 11 {
        'b'
    } else if nibble == 12 {
        'c'
    } else if nibble == 13 {
        'd'
    } else if nibble == 14 {
        'e'
    } else {
        'f'
    }
}

/// Bytes as lowercase hexadecimal text: two digits per byte, the high half
/// first.
pub open spec fn hex_lower(bytes: Seq<u8>) -> Seq<char> {
    Seq::new(
        2 * bytes.len(),
        |i: int|
            if i % 2 == 0 {
                hex_digit(bytes[i / 2] as int / 16)
            } else {
                hex_digit(bytes[i / 2] as int % 16)
            },
    )
}

/// The digit of a value below sixteen, as a one-character text.
fn digit_text(nibble: u8) -> (r: &'static str)
    requires
        nibble < 16,
    ensures
        r@ == seq![hex_digit(nibble as int)],
{
    proof {
        reveal_strlit("0");
        reveal_strlit("1");
        reveal_strlit("2");
        reveal_strlit("3");
        reveal_strlit("4");
        reveal_strlit("5");
        reveal_strlit("6");
        reveal_strlit("7");
        reveal_strlit("8");
        reveal_strlit("9");
        reveal_strlit("a");
        reveal_strlit("b");
        reveal_strlit("c");
        reveal_strlit("d");
        reveal_strlit("e");
        reveal_strlit("f");
    }
    let text = match nibble {
        0 => "0",
        1 => "1",
        2 => "2",
        3 => "3",
        4 => "4",
        5 => "5",
        6 => "6",
        7 => "7",
        8 => "8",
        9 => "9",
        10 => "a",
        11 => "b",
        12 => "c",
        13 => "d",
        14 => "e",
        _ => "f",
    };
    assert(text@ =~= seq![hex_digit(nibble as int)]);
    text
}

/// Appends the hexadecimal text of `bytes` to `text`.
pub fn push_hex(text: &mut String, bytes: &[u8])
    ensures
        final(text)@ == old(text)@ + hex_lower(bytes@),
{
    let ghost before = text@;
    let mut i: usize = 0;
    while i < bytes.len()
        invariant
            i <= bytes.len(),
            text@ == before + hex_lower(bytes@.take(i as int)),
        decreases bytes.len() - i,
    {
        let byte = bytes[i];
        let ghost so_far = text@;
        text.append(digit_text(byte / 16));
        text.append(digit_text(byte % 16));
        proof {
            let shorter = bytes@.take(i as int);
            let longer = bytes@.take(i + 1);
            assert(text@ == so_far + seq![hex_digit(byte as int / 16)] + seq![
                hex_digit(byte as int % 16),
            ]);
            assert(hex_lower(longer) =~= hex_lower(shorter) + seq![
                hex_digit(byte as int / 16),
            ] + seq![hex_digit(byte as int % 16)]) by {
                assert forall|k: int| 0 <= k < 2 * longer.len() implies #[trigger] hex_lower(
                    longer,
                )[k] == (hex_lower(shorter) + seq![hex_digit(byte as int / 16)] + seq![
                    hex_digit(byte as int % 16),
                ])[k] by {
                    if k < 2 * i {
                        assert(longer[k / 2] == shorter[k / 2]);
                    } else {
                        assert(k / 2 == i);
                        assert(longer[k / 2] == byte);
                    }
                }
            }
            assert(text@ =~= before + hex_lower(longer));
        }
        i += 1;
    }
    proof {
        assert(bytes@.take(bytes.len() as int) == bytes@);
    }
}

/// How a provider writes the code into its signature header.
#[derive(Clone, Copy, Debug, PartialEq, Eq, Structural)]
pub enum SignatureFormat {
    /// The hexadecimal digest alone.
    BareHex,
    /// The digest behind the literal `sha256=`.
    Sha256Prefixed,
}

impl SignatureFormat {
    /// What stands before the digest on the wire.
    pub open spec fn prefix(self) -> Seq<char> {
        match self {
            SignatureFormat::BareHex => Seq::empty(),
            SignatureFormat::Sha256Prefixed => "sha256="@,
        }
    }
}

/// The signature header value that authenticates `body` under `secret`.
pub open spec fn expected_signature(format: SignatureFormat, secret: Seq<char>, body: Seq<u8>) -> Seq<
    char,
> {
    format.prefix() + hex_lower(hmac_sha256(encode_utf8(secret), body))
}

/// The keyed hash of `bytes` under `secret`, as lowercase hexadecimal text.
pub fn hex_digest(secret: &str, bytes: &[u8]) -> (r: Result<String, ApiError>)
    ensures
        r matches Ok(text) && text@ == hex_lower(hmac_sha256(encode_utf8(secret@), bytes@)),
{
    match keyed_digest(secret.as_bytes(), bytes) {
        Ok(code) => {
            let mut text = String::new();
            push_hex(&mut text, code.as_slice());
            Ok(text)
        },
        Err(refusal) => Err(ApiError::from(refusal)),
    }
}

/// Whether two byte strings are equal, decided without regard to where they
/// first differ: after the lengths are found equal, every position is read
/// and folded into one accumulator, and only that is tested.
pub fn constant_time_eq(a: &[u8], b: &[u8]) -> (r: bool)
    ensures
        r == (a@ == b@),
{
    if a.len() != b.len() {
        return false;
    }
    let mut difference: u8 = 0;
    let mut i: usize = 0;
    assert(a@.take(0) =~= b@.take(0));
    while i < a.len()
        invariant
            i <= a.len(),
            a.len() == b.len(),
            difference == 0 <==> a@.take(i as int) == b@.take(i as int),
        decreases a.len() - i,
    {
        let x = a[i];
        let y = b[i];
        let ghost before = difference;
        difference = difference | (x ^ y);
        proof {
            assert((before | (x ^ y)) == 0 <==> before == 0 && x == y) by (bit_vector);
            assert(a@.take(i + 1) == a@.take(i as int).push(x));
            assert(b@.take(i + 1) == b@.take(i as int).push(y));
            if a@.take(i + 1) == b@.take(i + 1) {
                assert(a@.take(i + 1)[i as int] == b@.take(i + 1)[i as int]);
                assert(a@.take(i as int) =~= a@.take(i + 1).take(i as int));
                assert(b@.take(i as int) =~= b@.take(i + 1).take(i as int));
            }
        }
        i += 1;
    }
    proof {
        assert(a@.take(a.len() as int) == a@);
        assert(b@.take(b.len() as int) == b@);
    }
    difference == 0
}

/// Whether two texts are equal, decided as `constant_time_eq` decides it on
/// their bytes.
pub fn constant_time_same_text(a: &str, b: &str) -> (r: bool)
    ensures
        r == (a@ == b@),
{
    proof {
        encode_utf8_decode_utf8(a@);
        encode_utf8_decode_utf8(b@);
    }
    constant_time_eq(a.as_bytes(), b.as_bytes())
}

/// What verification ends in: `None` when the signature is accepted, else the
/// failure. Without a secret nothing is accepted.
pub open spec fn verdict(
    secret: Option<Seq<char>>,
    body: Seq<u8>,
    signature: Seq<char>,
    format: SignatureFormat,
) -> Option<ApiErrorView> {
    match secret {
        None => Some(ApiErrorView::InternalError(InternalCauseView::SecretUnavailable)),
        Some(key) => if signature == expected_signature(format, key, body) {
            None
        } else {
            Some(ApiErrorView::MismatchedSignature(signature))
        },
    }
}

/// The view of an optional secret.
pub open spec fn secret_view(secret: Option<&str>) -> Option<Seq<char>> {
    match secret {
        Some(key) => Some(key@),
        None => None,
    }
}

/// Verifies that `signature` is the keyed hash of `body` under `secret`,
/// written in `format`. A missing secret fails closed as an internal error; a
/// signature that differs in any character is a mismatch that carries what
/// the caller sent and nothing else.
pub fn verify(secret: Option<&str>, body: &[u8], signature: &str, format: SignatureFormat) -> (r:
    Result<(), ApiError>)
    ensures
        r is Ok <==> verdict(secret_view(secret), body@, signature@, format) is None,
        r matches Err(e) ==> verdict(secret_view(secret), body@, signature@, format) == Some(e@),
{
    let key = match secret {
        Some(key) => key,
        None => {
            return Err(
                ApiError::InternalError(InternalError::new(InternalCause::SecretUnavailable)),
            );
        },
    };
    let mut expected = match format {
        SignatureFormat::BareHex => String::new(),
        SignatureFormat::Sha256Prefixed => "sha256=".to_string(),
    };
    let digest = hex_digest(key, body)?;
    expected.append(digest.as_str());
    if constant_time_same_text(signature, expected.as_str()) {
        Ok(())
    } else {
        Err(ApiError::MismatchedSignature(MismatchedSignature::new(signature.to_string())))
    }
}

} // verus!
