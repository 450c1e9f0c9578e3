//! Hashes, signatures and byte encodings, computed by outside crates.

use base64::Engine;
use ed25519_dalek::Verifier;
use hmac::Mac;
use sha2::Digest;
use vstd::prelude::*;

verus! {

/// The bytes of an optional byte string.
pub open spec fn bytes_opt(bytes: Option<Vec<u8>>) -> Option<Seq<u8>> {
    match bytes {
        Some(bytes) => Some(bytes@),
        None => None,
    }
}

/// The lower-case hexadecimal digit of a number below sixteen.
pub open spec fn hex_digit(n: int) -> char {
    if n < 10 {
        ('0' as int + n) as char
    } else {
        ('a' as int + n - 10) as char
    }
}

/// The value of a hexadecimal digit of either case.
pub open spec fn hex_value(c: char) -> Option<int> {
    if '0' <= c <= '9' {
        Some(c as int - '0' as int)
    } else if 'a' <= c <= 'f' {
        Some(c as int - 'a' as int + 10)
    } else if 'A' <= c <= 'F' {
        Some(c as int - 'A' as int + 10)
    } else {
        None
    }
}

/// Two lower-case hexadecimal digits for each byte, the higher half first.
pub open spec fn hex_text(bytes: Seq<u8>) -> Seq<char> {
    Seq::new(
        2 * bytes.len(),
        |i: int|
            hex_digit(
                if i % 2 == 0 {
                    bytes[i / 2] as int / 16
                } else {
                    bytes[i / 2] as int % 16
                },
            ),
    )
}

/// The bytes that an even number of hexadecimal digits stands for.
pub open spec fn hex_bytes(digits: Seq<char>) -> Option<Seq<u8>> {
    if digits.len() % 2 == 0 && forall|i: int|
        0 <= i < digits.len() ==> hex_value(#[trigger] digits[i]) is Some {
        Some(
            Seq::new(
                digits.len() / 2,
                |i: int|
                    (hex_value(digits[2 * i])->0 * 16 + hex_value(digits[2 * i + 1])->0) as u8,
            ),
        )
    } else {
        None
    }
}

/// Bytes written in hexadecimal are read back unchanged.
pub proof fn hex_round_trip(bytes: Seq<u8>)
    ensures
        hex_bytes(hex_text(bytes)) == Some(bytes),
{
    let digits = hex_text(bytes);
    assert forall|i: int| 0 <= i < digits.len() implies hex_value(#[trigger] digits[i]) is Some by {
        assert(0 <= i / 2 < bytes.len());
    }
    let back = hex_bytes(digits)->0;
    assert forall|i: int| 0 <= i < bytes.len() implies back[i] == bytes[i] by {
        assert((2 * i) / 2 == i && (2 * i + 1) / 2 == i);
        assert((2 * i) % 2 == 0 && (2 * i + 1) % 2 == 1);
        assert(digits[2 * i] == hex_digit(bytes[i] as int / 16));
        assert(digits[2 * i + 1] == hex_digit(bytes[i] as int % 16));
    }
    assert(back =~= bytes);
}

/// The `hex` crate's `encode` writes two lower-case digits for each byte.
#[verifier::external_body]
pub(crate) fn hex_encode(bytes: &[u8]) -> (digits: String)
    ensures
        digits@ == hex_text(bytes@),
{
    hex::encode(bytes)
}

/// The `hex` crate's `decode` reads an even number of hexadecimal digits of
/// either case, and refuses anything else.
#[verifier::external_body]
pub(crate) fn hex_decode(digits: &str) -> (bytes: Option<Vec<u8>>)
    ensures
        bytes_opt(bytes) == hex_bytes(digits@),
{
    hex::decode(digits).ok()
}

/// The SHA-256 digest of a byte string.
pub uninterp spec fn sha256(message: Seq<u8>) -> Seq<u8>;

/// The digest that the `sha2` crate computes: thirty-two bytes, a function of
/// the message alone.
#[verifier::external_body]
pub(crate) fn sha256_digest(message: &[u8]) -> (digest: Vec<u8>)
    ensures
        digest@ == sha256(message@),
        digest@.len() == 32,
{
    sha2::Sha256::digest(message).to_vec()
}

/// The HMAC-SHA256 tag of a message under a key.
pub uninterp spec fn hmac_sha256(key: Seq<u8>, message: Seq<u8>) -> Seq<u8>;

/// The `hmac` crate accepts keys of every length, and its `verify_slice`
/// accepts exactly the whole tag.
#[verifier::external_body]
pub(crate) fn hmac_sha256_verifies(key: &[u8], message: &[u8], tag: &[u8]) -> (verified: bool)
    ensures
        verified == (tag@ == hmac_sha256(key@, message@)),
{
    match hmac::Hmac::<sha2::Sha256>::new_from_slice(key) {
        Ok(mac) => mac.chain_update(message).verify_slice(tag).is_ok(),
        Err(_) => false,
    }
}

/// The unpadded URL-safe base64 spelling of a byte string.
pub uninterp spec fn base64url_text(bytes: Seq<u8>) -> Seq<char>;

/// The bytes that an unpadded URL-safe base64 text stands for, if it is one.
pub uninterp spec fn base64url_bytes(text: Seq<char>) -> Option<Seq<u8>>;

/// The `base64` crate's `encode` with the `URL_SAFE_NO_PAD` engine, on the
/// sixty-four bytes of a signature. What it writes, the same engine decodes to
/// the bytes it was written from.
#[verifier::external_body]
pub(crate) fn base64url_encode(bytes: &[u8]) -> (text: String)
    requires
        bytes@.len() == 64,
    ensures
        text@ == base64url_text(bytes@),
        base64url_bytes(text@) == Some(bytes@),
{
    base64::engine::general_purpose::URL_SAFE_NO_PAD.encode(bytes)
}

/// The `base64` crate's `decode` with the `URL_SAFE_NO_PAD` engine.
#[verifier::external_body]
pub(crate) fn base64url_decode(text: &str) -> (bytes: Option<Vec<u8>>)
    ensures
        bytes_opt(bytes) == base64url_bytes(text@),
{
    base64::engine::general_purpose::URL_SAFE_NO_PAD.decode(text.as_bytes()).ok()
}

/// Whether thirty-two bytes are an ed25519 public key, and if not, why.
pub uninterp spec fn key_fault(bytes: Seq<u8>) -> Option<Seq<char>>;

/// The `ed25519-dalek` crate's `VerifyingKey::from_bytes` accepts the bytes
/// that decompress to a curve point.
#[verifier::external_body]
pub(crate) fn check_key(bytes: &[u8; 32]) -> (fault: Option<String>)
    ensures
        crate::text::text_opt(fault) == key_fault(bytes@),
{
    match ed25519_dalek::VerifyingKey::from_bytes(bytes) {
        Ok(_) => None,
        Err(error) => Some(error.to_string()),
    }
}

/// The canonical spelling and the bytes of a public key text, or what is wrong
/// with the text.
pub uninterp spec fn parsed_public_key(text: Seq<char>) -> Result<
    (Seq<char>, Seq<u8>),
    Seq<char>,
>;

/// The `pubky` crate's `PublicKey::try_from`, with the key's spelling and bytes
/// as its `to_string` and `to_bytes` give them: all of it depends on the text
/// alone.
#[verifier::external_body]
pub(crate) fn read_public_key(text: &str) -> (key: Result<(String, [u8; 32]), String>)
    ensures
        match key {
            Ok((spelling, bytes)) => parsed_public_key(text@) == Ok::<
                (Seq<char>, Seq<u8>),
                Seq<char>,
            >((spelling@, bytes@)),
            Err(fault) => parsed_public_key(text@) == Err::<(Seq<char>, Seq<u8>), Seq<char>>(
                fault@,
            ),
        },
{
    match pubky::PublicKey::try_from(text) {
        Ok(key) => Ok((key.to_string(), key.to_bytes())),
        Err(error) => Err(error.to_string()),
    }
}

/// Whether a signature verifies over a message under an ed25519 public key.
pub uninterp spec fn ed25519_verifies(key: Seq<u8>, message: Seq<u8>, signature: Seq<u8>) -> bool;

/// The `ed25519-dalek` crate's `VerifyingKey::verify`. Bytes that are no key
/// verify nothing.
#[verifier::external_body]
pub(crate) fn ed25519_verify(key: &[u8; 32], message: &[u8], signature: &[u8]) -> (verified: bool)
    requires
        signature@.len() == 64,
    ensures
        verified == ed25519_verifies(key@, message@, signature@),
        key_fault(key@) is Some ==> !verified,
{
    match (
        ed25519_dalek::VerifyingKey::from_bytes(key),
        ed25519_dalek::Signature::from_slice(signature),
    ) {
        (Ok(key), Ok(signature)) => key.verify(message, &signature).is_ok(),
        _ => false,
    }
}

} // verus!
