//! Downloading media from the Weixin CDN: the keys downloads are decrypted
//! with, and the decryption of what was downloaded.
use vstd::prelude::*;
use vstd::string::{StringExecFns, StringSliceAdditionalSpecFns};

use crate::aes_ecb::{aes128_ecb_decrypted, decrypt_aes_ecb, parse_aes_key, spec_parse_aes_key};
use crate::encoding::{
    b64_encode_standard, base64_decoded, base64_standard_encoded, hex_decode, spec_hex_decode,
    ENGINE_STANDARD,
};
use crate::error::Error;
use crate::text::owned;

verus! {

/// Decrypt downloaded bytes with the key an `aes_key` field (base64) stands
/// for.
pub fn decrypt_download(encrypted: &[u8], aes_key_base64: &str) -> (r: Result<Vec<u8>, Error>)
    ensures
        match spec_parse_aes_key(aes_key_base64@) {
            None => r matches Err(e) && e is Aes,
            Some(k) => match aes128_ecb_decrypted(encrypted@, k) {
                Some(p) => r matches Ok(v) && v@ == p,
                None => r matches Err(e) && e is Aes,
            },
        },
{
    let key = parse_aes_key(aes_key_base64)?;
    decrypt_aes_ecb(encrypted, &key)
}

/// The base64 key text for a hex-encoded AES key (from `ImageItem.aeskey`).
pub fn hex_key_to_base64(aeskey_hex: &str) -> (r: Result<String, Error>)
    ensures
        match spec_hex_decode(aeskey_hex.spec_bytes()) {
            Some(k) => r matches Ok(s) && s@ == base64_standard_encoded(k) && base64_decoded(
                ENGINE_STANDARD,
                s@,
            ) == Some(k),
            None => r matches Err(e) && e is Aes,
        },
{
    match hex_decode(aeskey_hex.as_bytes()) {
        Ok(bytes) => Ok(b64_encode_standard(bytes.as_slice())),
        Err(msg) => {
            let mut m = owned("invalid hex aeskey: ");
            m.append(msg.as_str());
            Err(Error::Aes(m))
        },
    }
}

/// A key text whose standard base64 decodes to 16 bytes stands for those
/// bytes: so a 16-byte hex key, turned into base64, is the key downloads are
/// decrypted with.
pub proof fn lemma_base64_key_roundtrip(text: Seq<char>, k: Seq<u8>)
    requires
        base64_decoded(ENGINE_STANDARD, text) == Some(k),
        k.len() == 16,
    ensures
        spec_parse_aes_key(text) == Some(k),
{
}

} // verus!
