//! Checksum for the session-token exchange.
//!
//! Obtaining an access token requires a checksum over the API key, the
//! one-time request token and the API secret: the SHA-256 digest of their
//! concatenation, rendered as lowercase hexadecimal.

use vstd::prelude::*;

use sha2::Digest;

verus! {

/// The SHA-256 digest of the UTF-8 encoding of a character sequence. The
/// digest depends on the input alone; its value is not written out here, only
/// named.
pub uninterp spec fn sha256_utf8_of(s: Seq<char>) -> Seq<u8>;

/// Computes the SHA-256 digest of a string.
///
/// Relies on `sha2::Sha256` (through `Digest::digest`): the digest is a
/// function of the input bytes alone and is 32 bytes long.
#[verifier::external_body]
fn sha256_digest_str(s: &str) -> (r: Vec<u8>)
    ensures
        r@ == sha256_utf8_of(s@),
        r@.len() == 32,
{
    sha2::Sha256::digest(s.as_bytes()).to_vec()
}

/// The character for one hexadecimal digit value, lowercase.
pub open spec fn spec_hex_char(d: int) -> char {
    if d == 0 {
        '0'
    } else if d == 1 {
        '1'
    } else if d == 2 {
        '2'
    } else if d == 3 {
        '3'
    } else if d == 4 {
        '4'
    } else if d == 5 {
        '5'
    } else if d == 6 {
        '6'
    } else if d == 7 {
        '7'
    } else if d == 8 {
        '8'
    } else if d == 9 {
        '9'
    } else if d == 10 {
        'a'
    } else if d == 11 {
        'b'
    } else if d == 12 {
        'c'
    } else if d == 13 {
        'd'
    } else if d == 14 {
        'e'
    } else {
        'f'
    }
}

/// The lowercase hexadecimal notation of a byte sequence: two digits per
/// byte, high digit first.
pub open spec fn spec_hex_of(b: Seq<u8>) -> Seq<char>
    decreases b.len(),
{
    if b.len() == 0 {
        Seq::empty()
    } else {
        seq![
            spec_hex_char(b.first() as int / 16),
            spec_hex_char(b.first() as int % 16),
        ] + spec_hex_of(b.drop_first())
    }
}

/// The hexadecimal notation of a byte sequence is two characters per byte.
proof fn lemma_hex_len(b: Seq<u8>)
    ensures
        spec_hex_of(b).len() == 2 * b.len(),
    decreases b.len(),
{
    if b.len() > 0 {
        lemma_hex_len(b.drop_first());
    }
}

/// Encodes bytes as lowercase hexadecimal.
///
/// Relies on `hex::encode`: two lowercase hexadecimal digits per byte, high
/// digit first, in byte order.
#[verifier::external_body]
fn hex_encode(b: &[u8]) -> (r: String)
    ensures
        r@ == spec_hex_of(b@),
{
    hex::encode(b)
}

/// Generates the checksum required for retrieving the user access token: the
/// SHA-256 digest of the API key, request token and API secret concatenated
/// in that order, as a lowercase hexadecimal string.
pub fn create_checksum(api_key: &str, request_token: &str, api_secret: &str) -> (r: String)
    ensures
        r@ == spec_hex_of(sha256_utf8_of(api_key@ + request_token@ + api_secret@)),
        r@.len() == 64,
{
    let mut joined = String::new();
    joined.append(api_key);
    joined.append(request_token);
    joined.append(api_secret);
    assert(joined@ =~= api_key@ + request_token@ + api_secret@);
    let digest = sha256_digest_str(joined.as_str());
    proof {
        lemma_hex_len(digest@);
    }
    hex_encode(digest.as_slice())
}

} // verus!
