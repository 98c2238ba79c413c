//! API-key checking: a presented key is hashed and its lowercase hex
//! digest compared with the configured digest.  The outer layer reads the
//! header and the configuration; the comparison itself is verified.

use vstd::prelude::*;
use vstd::utf8::encode_utf8;
use sha2::Digest;

verus! {

/// The SHA-256 digest of a byte sequence.  Its value is not written out
/// here — nothing could hold such a definition to the real function —
/// but it depends on the input bytes alone.
pub uninterp spec fn sha256_of(data: Seq<u8>) -> Seq<u8>;

/// Relies on sha2's SHA-256 implementation: the digest is 32 bytes and a
/// function of the input bytes alone.
#[verifier::external_body]
fn sha256(data: &[u8]) -> (r: Vec<u8>)
    ensures
        r@ == sha256_of(data@),
        r@.len() == 32,
{
    sha2::Sha256::digest(data).to_vec()
}

/// The hex digit for one value below sixteen.
pub open spec fn hex_digit(n: int) -> char {
    if n == 0 {
        '0'
    } else if n == 1 {
        '1'
    } else if n == 2 {
        '2'
    } else if n == 3 {
        '3'
    } else if n == 4 {
        '4'
    } else if n == 5 {
        '5'
    } else if n == 6 {
        '6'
    } else if n == 7 {
        '7'
    } else if n == 8 {
        '8'
    } else if n == 9 {
        '9'
    } else if n == 10 {
        'a'
    } else if n == 11 {
        'b'
    } else if n == 12 {
        'c'
    } else if n == 13 {
        'd'
    } else if n == 14 {
        'e'
    } else {
        'f'
    }
}

/// Lowercase hex encoding: each byte becomes two digits, high nibble
/// first.
pub open spec fn hex_of(bytes: Seq<u8>) -> Seq<char>
    decreases bytes.len(),
{
    if bytes.len() == 0 {
        Seq::<char>::empty()
    } else {
        seq![
            hex_digit(bytes[0] as int / 16),
            hex_digit(bytes[0] as int % 16),
        ] + hex_of(bytes.drop_first())
    }
}

/// Relies on hex::encode: each input byte becomes two lowercase hex
/// digits, high nibble first.
#[verifier::external_body]
fn hex_encode(data: &Vec<u8>) -> (r: String)
    ensures
        r@ == hex_of(data@),
{
    hex::encode(data)
}

/// Whether `api_key`'s SHA-256 digest, in lowercase hex, is exactly
/// `expected_hash` — the check the key gate performs per request.  The
/// key is hashed over its UTF-8 bytes.
pub fn validate_api_key(api_key: &String, expected_hash: &String) -> (r: bool)
    ensures
        r == (hex_of(sha256_of(encode_utf8(api_key@))) == expected_hash@),
{
    let digest = sha256(api_key.as_str().as_bytes());
    let provided = hex_encode(&digest);
    provided == *expected_hash
}

} // verus!
