//! AES-128-ECB with PKCS7 padding, as the Weixin CDN uses it, and the
//! parsing of the AES keys the API hands out.
use vstd::prelude::*;
use vstd::utf8::valid_utf8;

use aes::cipher::{BlockDecryptMut, BlockEncryptMut, KeyInit};

use crate::encoding::{
    b64_decode_standard, b64_decode_standard_no_pad, b64_decode_url_safe,
    b64_decode_url_safe_no_pad, base64_decoded, hex_decode, spec_hex_decode, utf8_text,
    ENGINE_STANDARD, ENGINE_STANDARD_NO_PAD, ENGINE_URL_SAFE, ENGINE_URL_SAFE_NO_PAD,
};
use crate::error::Error;
use crate::text::{decimal_string, owned, spec_decimal};
use vstd::string::StringExecFns;

verus! {

/// Ciphertext size of AES-128-ECB with PKCS7 padding: the next multiple of 16
/// strictly above the plaintext size.
pub open spec fn spec_padded_size(n: nat) -> nat {
    ((n + 16) / 16 * 16) as nat
}

/// Compute AES-128-ECB ciphertext size with PKCS7 padding.
pub fn aes_ecb_padded_size(plaintext_size: usize) -> (r: usize)
    requires
        plaintext_size + 16 <= usize::MAX,
    ensures
        r == spec_padded_size(plaintext_size as nat),
{
    ((plaintext_size + 1 + 15) / 16) * 16
}

/// The padded size is a whole number of 16-byte blocks, larger than the
/// plaintext by at least one byte and at most one block.
pub proof fn lemma_padded_size(n: nat)
    ensures
        spec_padded_size(n) % 16 == 0,
        n < spec_padded_size(n) <= n + 16,
{
}

/// What AES-128-ECB decryption with PKCS7 unpadding (the `ecb` and `aes`
/// crates) gives for a ciphertext and key, or `None` where it reports an
/// error.
pub uninterp spec fn aes128_ecb_decrypted(ciphertext: Seq<u8>, key: Seq<u8>) -> Option<Seq<u8>>;

/// What AES-128-ECB encryption with PKCS7 padding gives for a plaintext and
/// key.
pub uninterp spec fn aes128_ecb_encrypted(plaintext: Seq<u8>, key: Seq<u8>) -> Seq<u8>;

/// `ecb::Encryptor::<aes::Aes128>::encrypt_padded_vec_mut::<Pkcs7>`. The
/// output has the padded size (cipher's `allocate_out_vec` and PKCS7 always
/// add 1 to 16 bytes), and decrypting it with the same key gives the
/// plaintext back.
#[verifier::external_body]
fn aes128_ecb_encrypt(plaintext: &[u8], key: &[u8; 16]) -> (r: Vec<u8>)
    requires
        plaintext@.len() + 16 <= usize::MAX,
    ensures
        r@ == aes128_ecb_encrypted(plaintext@, key@),
        r@.len() == spec_padded_size(plaintext@.len()),
        aes128_ecb_decrypted(r@, key@) == Some(plaintext@),
{
    ecb::Encryptor::<aes::Aes128>::new(key.into()).encrypt_padded_vec_mut::<
        cipher::block_padding::Pkcs7,
    >(plaintext)
}

/// `ecb::Decryptor::<aes::Aes128>::decrypt_padded_vec_mut::<Pkcs7>`: the
/// plaintext, or the text of the crate's error. The crate reports an error
/// for a ciphertext whose length is not a multiple of 16.
#[verifier::external_body]
fn aes128_ecb_decrypt(ciphertext: &[u8], key: &[u8; 16]) -> (r: Result<Vec<u8>, String>)
    ensures
        match r {
            Ok(v) => aes128_ecb_decrypted(ciphertext@, key@) == Some(v@),
            Err(_) => aes128_ecb_decrypted(ciphertext@, key@) is None,
        },
        ciphertext@.len() % 16 != 0 ==> r is Err,
{
    ecb::Decryptor::<aes::Aes128>::new(key.into()).decrypt_padded_vec_mut::<
        cipher::block_padding::Pkcs7,
    >(ciphertext).map_err(|e| e.to_string())
}

/// Encrypt plaintext with AES-128-ECB (PKCS7 padding).
pub fn encrypt_aes_ecb(plaintext: &[u8], key: &[u8; 16]) -> (r: Vec<u8>)
    requires
        plaintext@.len() + 16 <= usize::MAX,
    ensures
        r@ == aes128_ecb_encrypted(plaintext@, key@),
        r@.len() == spec_padded_size(plaintext@.len()),
        aes128_ecb_decrypted(r@, key@) == Some(plaintext@),
{
    aes128_ecb_encrypt(plaintext, key)
}

/// Decrypt ciphertext with AES-128-ECB (PKCS7 padding).
pub fn decrypt_aes_ecb(ciphertext: &[u8], key: &[u8; 16]) -> (r: Result<Vec<u8>, Error>)
    ensures
        match r {
            Ok(v) => aes128_ecb_decrypted(ciphertext@, key@) == Some(v@),
            Err(e) => aes128_ecb_decrypted(ciphertext@, key@) is None && e is Aes,
        },
{
    match aes128_ecb_decrypt(ciphertext, key) {
        Ok(v) => Ok(v),
        Err(msg) => {
            let mut m = owned("AES-ECB decryption failed: ");
            m.append(msg.as_str());
            Err(Error::Aes(m))
        },
    }
}

// ── AES keys ────────────────────────────────────────────────────────────────

/// The bytes of the first of the four base64 engines (standard, standard
/// without padding, URL-safe, URL-safe without padding) that accepts the text.
pub open spec fn spec_b64_any(text: Seq<char>) -> Option<Seq<u8>> {
    if base64_decoded(ENGINE_STANDARD, text) is Some {
        base64_decoded(ENGINE_STANDARD, text)
    } else if base64_decoded(ENGINE_STANDARD_NO_PAD, text) is Some {
        base64_decoded(ENGINE_STANDARD_NO_PAD, text)
    } else if base64_decoded(ENGINE_URL_SAFE, text) is Some {
        base64_decoded(ENGINE_URL_SAFE, text)
    } else {
        base64_decoded(ENGINE_URL_SAFE_NO_PAD, text)
    }
}

/// The AES key that the decoded bytes of an `aes_key` field stand for: the
/// 16 raw key bytes, or the key written as 32 hex characters.
pub open spec fn spec_aes_key_from_decoded(d: Seq<u8>) -> Option<Seq<u8>> {
    if d.len() == 16 {
        Some(d)
    } else if d.len() == 32 && valid_utf8(d) {
        match spec_hex_decode(d) {
            Some(k) => if k.len() == 16 {
                Some(k)
            } else {
                None
            },
            None => None,
        }
    } else {
        None
    }
}

/// The AES key an `aes_key` field stands for: base64 of the 16 raw key bytes,
/// or base64 of the key as 32 hex characters.
pub open spec fn spec_parse_aes_key(text: Seq<char>) -> Option<Seq<u8>> {
    match spec_b64_any(text) {
        Some(d) => spec_aes_key_from_decoded(d),
        None => None,
    }
}

fn decode_base64_any(text: &str) -> (r: Result<Vec<u8>, String>)
    ensures
        match r {
            Ok(v) => spec_b64_any(text@) == Some(v@),
            Err(_) => spec_b64_any(text@) is None,
        },
{
    if let Ok(v) = b64_decode_standard(text) {
        return Ok(v);
    }
    if let Ok(v) = b64_decode_standard_no_pad(text) {
        return Ok(v);
    }
    if let Ok(v) = b64_decode_url_safe(text) {
        return Ok(v);
    }
    b64_decode_url_safe_no_pad(text)
}

fn key_from_bytes(v: &[u8]) -> (k: [u8; 16])
    requires
        v@.len() == 16,
    ensures
        k@ == v@,
{
    let k = [
        v[0],
        v[1],
        v[2],
        v[3],
        v[4],
        v[5],
        v[6],
        v[7],
        v[8],
        v[9],
        v[10],
        v[11],
        v[12],
        v[13],
        v[14],
        v[15],
    ];
    assert(k@ =~= v@);
    k
}

/// The AES key that decoded `aes_key` bytes stand for: 16 bytes are the key
/// itself; 32 bytes must be UTF-8 hex text of the key; any other length is
/// refused.
pub fn aes_key_from_decoded(decoded: &[u8]) -> (r: Result<[u8; 16], Error>)
    ensures
        match r {
            Ok(k) => spec_aes_key_from_decoded(decoded@) == Some(k@),
            Err(e) => {
                &&& spec_aes_key_from_decoded(decoded@) is None
                &&& e is Aes
                &&& decoded@.len() == 32 && !valid_utf8(decoded@) ==> e->Aes_0@
                    == "aes_key 32-byte decode is not valid UTF-8"@
                &&& decoded@.len() != 16 && decoded@.len() != 32 ==> e->Aes_0@
                    == "aes_key must decode to 16 raw bytes or 32-char hex, got "@ + spec_decimal(
                    decoded@.len(),
                ) + " bytes"@
            },
        },
{
    if decoded.len() == 16 {
        return Ok(key_from_bytes(decoded));
    }
    if decoded.len() == 32 {
        if utf8_text(decoded).is_none() {
            return Err(Error::Aes(owned("aes_key 32-byte decode is not valid UTF-8")));
        }
        let bytes = match hex_decode(decoded) {
            Ok(b) => b,
            Err(msg) => {
                let mut m = owned("aes_key hex decode failed: ");
                m.append(msg.as_str());
                return Err(Error::Aes(m));
            },
        };
        if bytes.len() == 16 {
            return Ok(key_from_bytes(bytes.as_slice()));
        }
    }
    let mut m = owned("aes_key must decode to 16 raw bytes or 32-char hex, got ");
    let len_text = decimal_string(decoded.len() as u64);
    m.append(len_text.as_str());
    m.append(" bytes");
    Err(Error::Aes(m))
}

/// Parse an AES key from base64.
///
/// Two encodings exist in the wild:
/// - base64(raw 16 bytes) — images
/// - base64(32-char hex string) — file/voice/video
pub fn parse_aes_key(aes_key_base64: &str) -> (r: Result<[u8; 16], Error>)
    ensures
        match r {
            Ok(k) => spec_parse_aes_key(aes_key_base64@) == Some(k@),
            Err(e) => spec_parse_aes_key(aes_key_base64@) is None && e is Aes && match spec_b64_any(
                aes_key_base64@,
            ) {
                Some(d) => {
                    &&& d.len() == 32 && !valid_utf8(d) ==> e->Aes_0@
                        == "aes_key 32-byte decode is not valid UTF-8"@
                    &&& d.len() != 16 && d.len() != 32 ==> e->Aes_0@
                        == "aes_key must decode to 16 raw bytes or 32-char hex, got "@ + spec_decimal(
                        d.len(),
                    ) + " bytes"@
                },
                None => true,
            },
        },
{
    let decoded = match decode_base64_any(aes_key_base64) {
        Ok(d) => d,
        Err(msg) => {
            let mut m = owned("base64 decode failed (tried all variants): ");
            m.append(msg.as_str());
            return Err(Error::Aes(m));
        },
    };
    aes_key_from_decoded(decoded.as_slice())
}

/// A 16-byte key encoded as 32 hex characters has 16 bytes: the hex branch of
/// key parsing never falls through once the hex decodes.
pub proof fn lemma_hex_key_length(d: Seq<u8>)
    requires
        d.len() == 32,
        spec_hex_decode(d) is Some,
    ensures
        spec_hex_decode(d)->0.len() == 16,
{
}

} // verus!
