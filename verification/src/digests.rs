//! Message digests that scripts ask for, as lowercase hexadecimal or
//! base64 text: SHA-256, SHA-1 and MD5 of a string's bytes.
use vstd::prelude::*;
use sha2::Digest;
use crate::credentials::{b64_encode, base64_encoded};

verus! {

/// The SHA-256 digest of `bytes`.
pub uninterp spec fn sha256_of(bytes: Seq<u8>) -> Seq<u8>;

/// The SHA-1 digest of `bytes`.
pub uninterp spec fn sha1_of(bytes: Seq<u8>) -> Seq<u8>;

/// The MD5 digest of `bytes`.
pub uninterp spec fn md5_of(bytes: Seq<u8>) -> Seq<u8>;

/// `sha2::Sha256` fed `bytes` once and finalized. Claimed beyond the name:
/// the digest is 32 bytes.
#[verifier::external_body]
fn sha256_digest(bytes: &[u8]) -> (r: Vec<u8>)
    ensures
        r@ == sha256_of(bytes@),
        r@.len() == 32,
{
    sha2::Sha256::digest(bytes).to_vec()
}

/// `sha1::Sha1` fed `bytes` once and finalized. Claimed beyond the name:
/// the digest is 20 bytes.
#[verifier::external_body]
fn sha1_digest(bytes: &[u8]) -> (r: Vec<u8>)
    ensures
        r@ == sha1_of(bytes@),
        r@.len() == 20,
{
    sha1::Sha1::digest(bytes).to_vec()
}

/// `md5::Md5` (the md-5 package) fed `bytes` once and finalized. Claimed
/// beyond the name: the digest is 16 bytes.
#[verifier::external_body]
fn md5_digest(bytes: &[u8]) -> (r: Vec<u8>)
    ensures
        r@ == md5_of(bytes@),
        r@.len() == 16,
{
    md5::Md5::digest(bytes).to_vec()
}

/// The lowercase hexadecimal digit for `d` (below 16).
pub open spec fn hex_digit(d: u8) -> char {
    if d < 10 {
        (48 + d) as char
    } else {
        (97 + (d - 10)) as char
    }
}

/// `bytes` as lowercase hexadecimal, two digits per byte, high digit first.
pub open spec fn hex_lower(bytes: Seq<u8>) -> Seq<char>
    decreases bytes.len(),
{
    if bytes.len() == 0 {
        seq![]
    } else {
        let b = bytes.last();
        hex_lower(bytes.drop_last()) + seq![hex_digit(b / 16), hex_digit(b % 16)]
    }
}

fn hex_digit_exec(d: u8) -> (c: char)
    requires
        d < 16,
    ensures
        c == hex_digit(d),
{
    if d < 10 {
        (48u8 + d) as char
    } else {
        (97u8 + (d - 10)) as char
    }
}

/// `bytes` written as lowercase hexadecimal.
pub fn to_hex(bytes: &[u8]) -> (r: String)
    ensures
        r@ == hex_lower(bytes@),
        r@.len() == 2 * bytes@.len(),
{
    let mut out: Vec<char> = Vec::new();
    let mut i: usize = 0;
    while i < bytes.len()
        invariant
            i <= bytes.len(),
            out@ == hex_lower(bytes@.take(i as int)),
            out@.len() == 2 * i,
        decreases bytes.len() - i,
    {
        let b = bytes[i];
        out.push(hex_digit_exec(b / 16));
        out.push(hex_digit_exec(b % 16));
        assert(bytes@.take(i + 1).drop_last() =~= bytes@.take(i as int));
        i += 1;
    }
    assert(bytes@.take(i as int) =~= bytes@);
    crate::text::string_of(&out)
}

/// The SHA-256 digest of `content`, in lowercase hexadecimal.
pub fn sha256_hex(content: &[u8]) -> (r: String)
    ensures
        r@ == hex_lower(sha256_of(content@)),
        r@.len() == 64,
{
    to_hex(&sha256_digest(content))
}

/// The SHA-1 digest of `content`, in lowercase hexadecimal.
pub fn sha1_hex(content: &[u8]) -> (r: String)
    ensures
        r@ == hex_lower(sha1_of(content@)),
        r@.len() == 40,
{
    to_hex(&sha1_digest(content))
}

/// The MD5 digest of `content`, in lowercase hexadecimal.
pub fn md5_hex(content: &[u8]) -> (r: String)
    ensures
        r@ == hex_lower(md5_of(content@)),
        r@.len() == 32,
{
    to_hex(&md5_digest(content))
}

/// The SHA-1 digest of `content`, in standard base64.
pub fn sha1_base64(content: &[u8]) -> (r: String)
    ensures
        r@ == base64_encoded(sha1_of(content@)),
{
    b64_encode(&sha1_digest(content))
}

} // verus!
