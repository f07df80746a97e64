//! Hashing and byte-to-text encodings used for history file names, relying on
//! the `ring`, `sha2` and `hex` crates through trusted wrappers.

use vstd::prelude::*;

verus! {

/// The character for a hexadecimal digit, lower case.
pub open spec fn hex_digit(d: int) -> char {
    if d == 0 {
        '0'
    } else if d == 1 {
        '1'
    } else if d == 2 {
        '2'
    } else if d == 3 {
        '3'
    } else if d == 4 {
        '4'
    } else if d == 5 {
        '5'
    } else if d == 6 {
        '6'
    } else if d == 7 {
        '7'
    } else if d == 8 {
        '8'
    } else if d == 9 {
        '9'
    } else if d == 10 {
        'a'
    } else if d == 11 {
        'b'
    } else if d == 12 {
        'c'
    } else if d == 13 {
        'd'
    } else if d == 14 {
        'e'
    } else {
        'f'
    }
}

/// The character for a hexadecimal digit, as a runtime function.
pub fn hex_digit_char(d: u64) -> (r: char)
    requires
        d < 16,
    ensures
        r == hex_digit(d as int),
{
    if d == 0 {
        '0'
    } else if d == 1 {
        '1'
    } else if d == 2 {
        '2'
    } else if d == 3 {
        '3'
    } else if d == 4 {
        '4'
    } else if d == 5 {
        '5'
    } else if d == 6 {
        '6'
    } else if d == 7 {
        '7'
    } else if d == 8 {
        '8'
    } else if d == 9 {
        '9'
    } else if d == 10 {
        'a'
    } else if d == 11 {
        'b'
    } else if d == 12 {
        'c'
    } else if d == 13 {
        'd'
    } else if d == 14 {
        'e'
    } else {
        'f'
    }
}

/// The lower-case hexadecimal encoding of the bytes: two digits per byte,
/// high nibble first.
pub open spec fn hex_lower_spec(b: Seq<u8>) -> Seq<char>
    decreases b.len(),
{
    if b.len() == 0 {
        Seq::<char>::empty()
    } else {
        hex_lower_spec(b.drop_last()).push(hex_digit(b.last() as int / 16)).push(
            hex_digit(b.last() as int % 16),
        )
    }
}

/// Relies on `hex::encode`: writes each byte as two lower-case hexadecimal
/// digits, high nibble first.
#[verifier::external_body]
pub fn hex_encode(b: &Vec<u8>) -> (r: String)
    ensures
        r@ == hex_lower_spec(b@),
{
    hex::encode(b)
}

/// The SHA-256 digest, as `ring` computes it, of the UTF-8 bytes of a string.
pub uninterp spec fn ring_sha256_of(s: Seq<char>) -> Seq<u8>;

/// Relies on `ring::digest::digest` with `SHA256`: returns the 32-byte
/// SHA-256 digest of the UTF-8 bytes of `s`, a function of `s` alone.
#[verifier::external_body]
pub fn ring_sha256(s: &str) -> (r: Vec<u8>)
    ensures
        r@ == ring_sha256_of(s@),
        r@.len() == 32,
{
    ring::digest::digest(&ring::digest::SHA256, s.as_bytes()).as_ref().to_vec()
}

/// The SHA-256 digest, as `sha2` computes it, of the UTF-8 bytes of a string.
pub uninterp spec fn sha2_sha256_of(s: Seq<char>) -> Seq<u8>;

/// Relies on `sha2::Sha256` through the `Digest` trait: returns the 32-byte
/// SHA-256 digest of the UTF-8 bytes of `s`, a function of `s` alone.
#[verifier::external_body]
pub fn sha2_sha256(s: &str) -> (r: Vec<u8>)
    ensures
        r@ == sha2_sha256_of(s@),
        r@.len() == 32,
{
    <sha2::Sha256 as sha2::Digest>::digest(s.as_bytes()).to_vec()
}

/// What decoding base64 text with the standard alphabet and padding yields,
/// if anything: a function of the text alone.
pub uninterp spec fn base64_decoded(s: Seq<char>) -> Option<Seq<u8>>;

/// Relies on `base64`'s `STANDARD` engine `decode`: the decoded bytes, or
/// `None` where the text is not valid base64; the same on every machine.
#[verifier::external_body]
pub fn base64_decode(s: &str) -> (r: Option<Vec<u8>>)
    ensures
        match r {
            Some(b) => base64_decoded(s@) == Some(b@),
            None => base64_decoded(s@) is None,
        },
{
    match base64::engine::Engine::decode(&base64::engine::general_purpose::STANDARD, s) {
        Ok(b) => Some(b),
        Err(_) => None,
    }
}

/// The first `k` bytes of `v`.
pub fn take_bytes(v: &Vec<u8>, k: usize) -> (r: Vec<u8>)
    requires
        k <= v@.len(),
    ensures
        r@ == v@.take(k as int),
{
    let mut out: Vec<u8> = Vec::new();
    let mut i: usize = 0;
    while i < k
        invariant
            k <= v@.len(),
            i <= k,
            out@ == v@.take(i as int),
        decreases k - i,
    {
        out.push(v[i]);
        i = i + 1;
        proof {
            assert(out@ =~= v@.take(i as int));
        }
    }
    out
}

} // verus!
