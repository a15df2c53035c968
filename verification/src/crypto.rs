//! Randomness and hashing the upload pipeline and the request headers use.
use vstd::prelude::*;

use md5::Digest;
use rand::RngExt;

verus! {

/// A random `u32` from `rand::rng()` (the thread-local generator). Nothing is
/// promised of its value.
#[verifier::external_body]
pub(crate) fn random_u32() -> u32 {
    rand::rng().random::<u32>()
}

/// Sixteen random bytes from `rand::rng()`. Nothing is promised of their
/// value.
#[verifier::external_body]
pub(crate) fn random_16_bytes() -> [u8; 16] {
    rand::rng().random::<[u8; 16]>()
}

/// A lower-case hexadecimal digit.
pub open spec fn is_lower_hex_char(c: char) -> bool {
    ('0' <= c && c <= '9') || ('a' <= c && c <= 'f')
}

/// The hyphenated text of a version-4 UUID: 36 characters, lower-case hex
/// digits in groups of 8-4-4-4-12 parted by `-`, the version digit `4` and
/// the variant digit one of `8`, `9`, `a`, `b`.
pub open spec fn is_uuid_v4_text(u: Seq<char>) -> bool {
    &&& u.len() == 36
    &&& forall|i: int|
        0 <= i < 36 ==> if i == 8 || i == 13 || i == 18 || i == 23 {
            #[trigger] u[i] == '-'
        } else {
            is_lower_hex_char(u[i])
        }
    &&& u[14] == '4'
    &&& (u[19] == '8' || u[19] == '9' || u[19] == 'a' || u[19] == 'b')
}

/// A fresh random UUID (`uuid::Uuid::new_v4`) in its hyphenated text form
/// (`Display` writes `LowerHex` of the hyphenated form). Its value is left
/// open; its shape is that of every version-4 UUID: `new_v4` sets the
/// version and variant bits of random bits.
#[verifier::external_body]
pub(crate) fn uuid_v4_text() -> (r: String)
    ensures
        is_uuid_v4_text(r@),
{
    uuid::Uuid::new_v4().to_string()
}

/// The MD5 digest of some bytes, as the `md-5` crate computes it.
pub uninterp spec fn md5_digest(data: Seq<u8>) -> Seq<u8>;

/// `md5::Md5` (`md-5` crate): the digest of `data`, 16 bytes long.
#[verifier::external_body]
pub(crate) fn md5(data: &[u8]) -> (r: Vec<u8>)
    ensures
        r@ == md5_digest(data@),
        r@.len() == 16,
{
    let mut hasher = md5::Md5::new();
    hasher.update(data);
    hasher.finalize().to_vec()
}

} // verus!
