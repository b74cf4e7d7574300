//! Content hashing and byte decoding.

use vstd::prelude::*;

use sha2::{Digest, Sha256};
use vstd::utf8::{decode_utf8, valid_utf8};

verus! {

/// The SHA-256 digest of a byte sequence (FIPS 180-4).
pub uninterp spec fn sha256_digest(data: Seq<u8>) -> Seq<u8>;

/// The SHA-256 digest of `data`, computed by `sha2::Sha256`: 32 bytes, a function of the data
/// alone.
#[verifier::external_body]
fn sha256(data: &[u8]) -> (r: Vec<u8>)
    ensures
        r@ == sha256_digest(data@),
        r@.len() == 32,
{
    let mut hasher = Sha256::new();
    hasher.update(data);
    hasher.finalize().to_vec()
}

/// The lower-case hexadecimal digit of a value below sixteen.
pub open spec fn hex_digit(n: int) -> char {
    if n < 10 {
        (48 + n) as char
    } else {
        (87 + n) as char
    }
}

/// Two lower-case hexadecimal digits per byte, high half first.
pub open spec fn spec_hex_lower(data: Seq<u8>) -> Seq<char>
    decreases data.len(),
{
    if data.len() == 0 {
        Seq::empty()
    } else {
        seq![hex_digit(data[0] as int / 16), hex_digit(data[0] as int % 16)] + spec_hex_lower(data.drop_first())
    }
}

/// `hex::encode`: each byte as two lower-case hexadecimal digits, high half first.
#[verifier::external_body]
fn hex_encode(data: &[u8]) -> (r: String)
    ensures
        r@ == spec_hex_lower(data@),
{
    hex::encode(data)
}

/// `str::from_utf8`: the text the bytes encode, when they are valid UTF-8.
#[verifier::external_body]
fn utf8_str(bytes: &[u8]) -> (r: Option<&str>)
    ensures
        r is Some <==> valid_utf8(bytes@),
        r matches Some(s) ==> s@ == decode_utf8(bytes@),
{
    std::str::from_utf8(bytes).ok()
}

/// The SHA-256 digest of the bytes, in lower-case hexadecimal.
pub fn hash_bytes(bytes: &[u8]) -> (r: String)
    ensures
        r@ == spec_hex_lower(sha256_digest(bytes@)),
        r@.len() == 64,
{
    let digest = sha256(bytes);
    let r = hex_encode(digest.as_slice());
    proof {
        lemma_hex_len(digest@);
    }
    r
}

/// Hexadecimal text is twice as long as its bytes.
pub proof fn lemma_hex_len(data: Seq<u8>)
    ensures
        spec_hex_lower(data).len() == 2 * data.len(),
    decreases data.len(),
{
    if data.len() > 0 {
        lemma_hex_len(data.drop_first());
    }
}

/// Why bytes could not be read as text.
#[derive(Debug, PartialEq, Eq, Structural, Clone, Copy)]
pub enum TextError {
    /// The bytes are not valid UTF-8.
    InvalidUtf8,
}

/// The text the bytes encode; refused unless they are valid UTF-8.
pub fn bytes_to_string(bytes: &[u8]) -> (r: Result<String, TextError>)
    ensures
        r is Ok <==> valid_utf8(bytes@),
        r matches Ok(s) ==> s@ == decode_utf8(bytes@),
        r matches Err(e) ==> e == TextError::InvalidUtf8,
{
    match utf8_str(bytes) {
        Some(s) => Ok(s.to_string()),
        None => Err(TextError::InvalidUtf8),
    }
}

} // verus!
