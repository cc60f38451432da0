//! Digests, encodings and signatures that outside crates compute.

use base64::Engine;
use sha2::Digest;
use vstd::prelude::*;

verus! {

/// The SHA-256 digest of `data`.
pub uninterp spec fn sha256(data: Seq<u8>) -> Seq<u8>;

/// The bytes that `text` denotes in standard, padded base64; nothing where it
/// denotes none.
pub uninterp spec fn base64_bytes(text: Seq<char>) -> Option<Seq<u8>>;

/// The standard, padded base64 text of `bytes`.
pub uninterp spec fn base64_text(bytes: Seq<u8>) -> Seq<char>;

/// The message of an Ed25519-signed message under a public key; nothing where
/// the signature does not verify.
pub uninterp spec fn opened(signed: Seq<u8>, key: Seq<u8>) -> Option<Seq<u8>>;

/// The length of an Ed25519 public key, in bytes.
pub const PUBLIC_KEY_BYTES: usize = 32;

/// The length of an Ed25519 signature, in bytes.
pub const SIGNATURE_BYTES: usize = 64;

/// The lower-case hexadecimal digit of a value below sixteen.
pub open spec fn hex_digit(v: int) -> char {
    if v < 10 {
        ((48 + v) as u32) as char
    } else {
        ((87 + v) as u32) as char
    }
}

/// Two lower-case hexadecimal digits for each byte, the high half first.
pub open spec fn hex_text(bytes: Seq<u8>) -> Seq<char> {
    Seq::new(
        2 * bytes.len(),
        |i: int|
            if i % 2 == 0 {
                hex_digit(bytes[i / 2] as int / 16)
            } else {
                hex_digit(bytes[i / 2] as int % 16)
            },
    )
}

/// The bytes of an optional vector.
pub open spec fn optional_bytes(value: Option<Vec<u8>>) -> Option<Seq<u8>> {
    match value {
        Some(bytes) => Some(bytes@),
        None => None,
    }
}

/// `sha2::Sha256::digest` returns the SHA-256 digest of its argument, which is
/// thirty-two bytes long.
#[verifier::external_body]
pub(crate) fn sha256_digest(data: &[u8]) -> (digest: Vec<u8>)
    ensures
        digest@ == sha256(data@),
        digest@.len() == 32,
{
    sha2::Sha256::digest(data).to_vec()
}

/// `hex::encode` writes each byte as two lower-case hexadecimal digits. The
/// text must fit into memory.
#[verifier::external_body]
pub(crate) fn hex_encode(bytes: &[u8]) -> (text: String)
    requires
        2 * bytes@.len() <= isize::MAX,
    ensures
        text@ == hex_text(bytes@),
{
    hex::encode(bytes)
}

/// `decode` of base64's standard engine returns the bytes that a text denotes,
/// or an error where it denotes none.
#[verifier::external_body]
pub(crate) fn decode64(text: &str) -> (bytes: Option<Vec<u8>>)
    ensures
        optional_bytes(bytes) == base64_bytes(text@),
{
    base64::engine::general_purpose::STANDARD.decode(text).ok()
}

/// `encode` of base64's standard engine returns the padded base64 text of its
/// argument. The text must fit into memory.
#[verifier::external_body]
pub(crate) fn encode64(bytes: &[u8]) -> (text: String)
    requires
        4 * ((bytes@.len() + 2) / 3) <= isize::MAX,
    ensures
        text@ == base64_text(bytes@),
{
    base64::engine::general_purpose::STANDARD.encode(bytes)
}

/// `sodiumoxide::crypto::sign::verify` returns the message of a signed message
/// whose Ed25519 signature, its first sixty-four bytes, verifies under the key.
/// The message is what follows the signature.
#[verifier::external_body]
pub(crate) fn open_signed(signed: &[u8], key: &[u8]) -> (message: Option<Vec<u8>>)
    requires
        key@.len() == PUBLIC_KEY_BYTES,
    ensures
        optional_bytes(message) == opened(signed@, key@),
        message matches Some(m) ==> signed@.len() >= SIGNATURE_BYTES && m@ == signed@.skip(
            SIGNATURE_BYTES as int,
        ),
{
    let key = sodiumoxide::crypto::sign::PublicKey::from_slice(key)?;
    sodiumoxide::crypto::sign::verify(signed, &key).ok()
}

/// The hexadecimal digit of a value is the one at its place among the sixteen.
pub proof fn law_hex_digits_are_in_their_places(v: int)
    requires
        0 <= v < 16,
    ensures
        hex_digit(v) == "0123456789abcdef"@[v],
{
    reveal_strlit("0123456789abcdef");
    assert("0123456789abcdef"@.len() == 16);
    if v == 0 || v == 1 || v == 2 || v == 3 {
    } else if v == 4 || v == 5 || v == 6 || v == 7 {
    } else if v == 8 || v == 9 || v == 10 || v == 11 {
    } else {
        assert(v == 12 || v == 13 || v == 14 || v == 15);
    }
}

/// Each byte is written as two digits, and the sixteenfold of the first and the second
/// together are the byte again.
pub proof fn law_hex_text_denotes_its_bytes(bytes: Seq<u8>, i: int)
    requires
        0 <= i < bytes.len(),
    ensures
        hex_text(bytes).len() == 2 * bytes.len(),
        hex_text(bytes)[2 * i] == "0123456789abcdef"@[bytes[i] as int / 16],
        hex_text(bytes)[2 * i + 1] == "0123456789abcdef"@[bytes[i] as int % 16],
{
    law_hex_digits_are_in_their_places(bytes[i] as int / 16);
    law_hex_digits_are_in_their_places(bytes[i] as int % 16);
    assert((2 * i) / 2 == i && (2 * i) % 2 == 0);
    assert((2 * i + 1) / 2 == i && (2 * i + 1) % 2 == 1);
}

} // verus!
