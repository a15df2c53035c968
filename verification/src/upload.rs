//! Uploading media to the Weixin CDN: what is announced to `getUploadUrl`,
//! what is encrypted, how failed CDN posts are retried, and what the upload
//! yields.
//!
//! Pipeline: hash → generate an AES key → getUploadUrl → encrypt → CDN POST
//! with retry.
use vstd::prelude::*;

use crate::aes_ecb::{
    aes128_ecb_decrypted, aes128_ecb_encrypted, aes_ecb_padded_size, encrypt_aes_ecb,
    spec_padded_size,
};
use crate::crypto::{md5, md5_digest, random_16_bytes};
use crate::encoding::{hex_encode, lemma_hex_roundtrip, spec_hex_decode, spec_hex_encode};
use vstd::utf8::encode_utf8;
use crate::error::Error;
use crate::text::owned;
use crate::types::{GetUploadUrlRequest, GetUploadUrlResponse, UploadMediaType};
use crate::client::opt_view;

verus! {

/// Information about a successfully uploaded file.
#[derive(Debug, Clone)]
pub struct UploadedFile {
    pub filekey: String,
    /// CDN download encrypted_query_param.
    pub download_param: String,
    /// AES-128 key as hex string.
    pub aeskey: String,
    /// Plaintext file size in bytes.
    pub file_size: u64,
    /// Ciphertext file size in bytes (after AES-ECB padding).
    pub ciphertext_size: u64,
}

/// How many times a CDN post is tried.
pub const CDN_UPLOAD_MAX_RETRIES: u32 = 3;

/// Pause between two tries of a CDN post (ms).
pub const CDN_UPLOAD_RETRY_DELAY_MS: u64 = 2000;

/// What an upload announces and encrypts with, fixed before the first request.
#[derive(Debug)]
pub struct UploadPlan {
    pub filekey: String,
    pub aeskey_bytes: [u8; 16],
    pub aeskey_hex: String,
    pub rawsize: u64,
    pub filesize: u64,
    pub rawfilemd5: String,
}

/// The plan for `plaintext` with a given file key and AES key: sizes before
/// and after padding, the MD5 of the plaintext and both keys in hex.
pub open spec fn is_plan_for(
    p: UploadPlan,
    plaintext: Seq<u8>,
    filekey_bytes: Seq<u8>,
    aeskey: Seq<u8>,
) -> bool {
    &&& p.rawsize == plaintext.len()
    &&& p.filesize == spec_padded_size(plaintext.len())
    &&& p.rawfilemd5@ == spec_hex_encode(md5_digest(plaintext))
    &&& p.filekey@ == spec_hex_encode(filekey_bytes)
    &&& p.aeskey_bytes@ == aeskey
    &&& p.aeskey_hex@ == spec_hex_encode(aeskey)
}

/// The upload plan for `plaintext` with the given file key and AES key.
pub fn plan_upload_with(plaintext: &[u8], filekey_bytes: [u8; 16], aeskey_bytes: [u8; 16]) -> (r: UploadPlan)
    requires
        plaintext@.len() + 16 <= usize::MAX,
        plaintext@.len() + 16 <= u64::MAX,
    ensures
        is_plan_for(r, plaintext@, filekey_bytes@, aeskey_bytes@),
{
    let rawsize = plaintext.len() as u64;
    let digest = md5(plaintext);
    let rawfilemd5 = hex_encode(digest.as_slice());
    let filesize = aes_ecb_padded_size(plaintext.len()) as u64;
    let filekey = hex_encode(&filekey_bytes);
    let aeskey_hex = hex_encode(&aeskey_bytes);
    UploadPlan { filekey, aeskey_bytes, aeskey_hex, rawsize, filesize, rawfilemd5 }
}

/// The upload plan for `plaintext` with a random file key and a random AES
/// key.
pub fn plan_upload(plaintext: &[u8]) -> (r: UploadPlan)
    requires
        plaintext@.len() + 16 <= usize::MAX,
        plaintext@.len() + 16 <= u64::MAX,
    ensures
        exists|f: Seq<u8>, k: Seq<u8>| f.len() == 16 && k.len() == 16 && #[trigger] is_plan_for(r, plaintext@, f, k),
{
    let filekey_bytes = random_16_bytes();
    let aeskey_bytes = random_16_bytes();
    plan_upload_with(plaintext, filekey_bytes, aeskey_bytes)
}

/// The `getUploadUrl` request announcing a planned upload.
pub fn upload_url_request(plan: &UploadPlan, to_user_id: &str, media_type: UploadMediaType) -> (r:
    GetUploadUrlRequest)
    ensures
        opt_view(r.filekey) == Some(plan.filekey@),
        r.media_type == Some(media_type),
        opt_view(r.to_user_id) == Some(to_user_id@),
        r.rawsize == Some(plan.rawsize),
        opt_view(r.rawfilemd5) == Some(plan.rawfilemd5@),
        r.filesize == Some(plan.filesize),
        r.thumb_rawsize is None,
        r.thumb_rawfilemd5 is None,
        r.thumb_filesize is None,
        r.no_need_thumb == Some(true),
        opt_view(r.aeskey) == Some(plan.aeskey_hex@),
        r.base_info is None,
{
    GetUploadUrlRequest {
        filekey: Some(plan.filekey.clone()),
        media_type: Some(media_type),
        to_user_id: Some(owned(to_user_id)),
        rawsize: Some(plan.rawsize),
        rawfilemd5: Some(plan.rawfilemd5.clone()),
        filesize: Some(plan.filesize),
        thumb_rawsize: None,
        thumb_rawfilemd5: None,
        thumb_filesize: None,
        no_need_thumb: Some(true),
        aeskey: Some(plan.aeskey_hex.clone()),
        base_info: None,
    }
}

/// The upload parameter a `getUploadUrl` answer grants: a non-zero `ret` is
/// an API error, and a missing parameter is a CDN error.
pub fn upload_param_from(resp: GetUploadUrlResponse) -> (r: Result<String, Error>)
    ensures
        match resp.ret {
            Some(ret) if ret != 0 => r matches Err(Error::Api { ret: rr, errcode, message }) && rr == ret
                && errcode is None && message@ == (match resp.errmsg {
                Some(m) => m@,
                None => "getUploadUrl failed"@,
            }),
            _ => match resp.upload_param {
                Some(p) => r matches Ok(s) && s@ == p@,
                None => r matches Err(Error::Cdn { status_code, .. }) && status_code is None,
            },
        },
{
    if let Some(ret) = resp.ret {
        if ret != 0 {
            let message = match resp.errmsg {
                Some(m) => m,
                None => owned("getUploadUrl failed"),
            };
            return Err(Error::Api { ret, errcode: None, message });
        }
    }
    match resp.upload_param {
        Some(p) => Ok(p),
        None => Err(
            Error::Cdn {
                message: owned("getUploadUrl returned no upload_param"),
                status_code: None,
            },
        ),
    }
}

/// The bytes posted to the CDN: the plaintext encrypted with the plan's key.
pub fn upload_ciphertext(plan: &UploadPlan, plaintext: &[u8]) -> (r: Vec<u8>)
    requires
        plaintext@.len() + 16 <= usize::MAX,
    ensures
        r@ == aes128_ecb_encrypted(plaintext@, plan.aeskey_bytes@),
        r@.len() == spec_padded_size(plaintext@.len()),
        aes128_ecb_decrypted(r@, plan.aeskey_bytes@) == Some(plaintext@),
{
    encrypt_aes_ecb(plaintext, &plan.aeskey_bytes)
}

/// What a finished upload yields.
pub fn uploaded_file(plan: UploadPlan, download_param: String) -> (r: UploadedFile)
    ensures
        r.filekey@ == plan.filekey@,
        r.download_param@ == download_param@,
        r.aeskey@ == plan.aeskey_hex@,
        r.file_size == plan.rawsize,
        r.ciphertext_size == plan.filesize,
{
    UploadedFile {
        filekey: plan.filekey,
        download_param,
        aeskey: plan.aeskey_hex,
        file_size: plan.rawsize,
        ciphertext_size: plan.filesize,
    }
}

/// A planned upload posts exactly as many bytes as it announces, and the
/// server can decrypt them back to the plaintext with the announced key.
pub proof fn lemma_upload_announces_what_it_posts(
    plaintext: Seq<u8>,
    plan: UploadPlan,
    f: Seq<u8>,
    k: Seq<u8>,
    posted: Seq<u8>,
)
    requires
        is_plan_for(plan, plaintext, f, k),
        posted.len() == spec_padded_size(plaintext.len()),
        aes128_ecb_decrypted(posted, plan.aeskey_bytes@) == Some(plaintext),
    ensures
        posted.len() == plan.filesize,
        aes128_ecb_decrypted(posted, k) == Some(plaintext),
        plan.aeskey_hex@ == spec_hex_encode(k),
{
}

/// The key an upload returns is the key it encrypted with: for the file
/// `uploaded_file` yields from a plan, `hex::decode` of the returned `aeskey`
/// gives the AES key, the posted ciphertext decrypts with that key to the
/// plaintext, and its length is the returned `ciphertext_size`.
pub proof fn lemma_uploaded_key_decrypts_upload(
    plaintext: Seq<u8>,
    plan: UploadPlan,
    f: Seq<u8>,
    k: Seq<u8>,
    posted: Seq<u8>,
    file: UploadedFile,
)
    requires
        is_plan_for(plan, plaintext, f, k),
        posted.len() == spec_padded_size(plaintext.len()),
        aes128_ecb_decrypted(posted, plan.aeskey_bytes@) == Some(plaintext),
        file.aeskey@ == plan.aeskey_hex@,
        file.ciphertext_size == plan.filesize,
        file.file_size == plan.rawsize,
    ensures
        spec_hex_decode(encode_utf8(file.aeskey@)) == Some(k),
        aes128_ecb_decrypted(posted, k) == Some(plaintext),
        posted.len() == file.ciphertext_size,
        plaintext.len() == file.file_size,
{
    lemma_hex_roundtrip(k);
}

// ── Retrying the CDN post ───────────────────────────────────────────────────

/// What to do after one CDN post.
#[derive(Debug)]
pub enum RetryStep {
    /// The upload succeeded with this download parameter.
    Done(String),
    /// Try again after this many milliseconds.
    RetryAfter(u64),
    /// Stop with this error.
    GiveUp(Error),
}

/// The retry loop of the CDN post: at most `CDN_UPLOAD_MAX_RETRIES` tries, a
/// pause between tries, and no retry after a 4xx answer.
#[derive(Debug)]
pub struct CdnUploadRetry {
    attempts: u32,
}

impl CdnUploadRetry {
    pub closed spec fn spec_attempts(&self) -> nat {
        self.attempts as nat
    }

    /// No post made yet.
    pub fn new() -> (r: Self)
        ensures
            r.spec_attempts() == 0,
    {
        CdnUploadRetry { attempts: 0 }
    }

    /// Posts made so far.
    pub fn attempts(&self) -> (r: u32)
        ensures
            r == self.spec_attempts(),
    {
        self.attempts
    }

    /// Decide after a post: success ends the loop; a 4xx error, or any error
    /// on the last try, gives up with that error; any other error retries
    /// after the pause.
    pub fn on_result(&mut self, result: Result<String, Error>) -> (r: RetryStep)
        requires
            old(self).spec_attempts() < CDN_UPLOAD_MAX_RETRIES,
        ensures
            final(self).spec_attempts() == old(self).spec_attempts() + 1,
            final(self).spec_attempts() <= CDN_UPLOAD_MAX_RETRIES,
            match result {
                Ok(p) => r matches RetryStep::Done(q) && q == p,
                Err(e) => if e.spec_is_cdn_4xx() || final(self).spec_attempts() == CDN_UPLOAD_MAX_RETRIES {
                    r matches RetryStep::GiveUp(g) && g == e
                } else {
                    r matches RetryStep::RetryAfter(ms) && ms == CDN_UPLOAD_RETRY_DELAY_MS
                },
            },
            r is RetryAfter ==> final(self).spec_attempts() < CDN_UPLOAD_MAX_RETRIES,
    {
        self.attempts = self.attempts + 1;
        match result {
            Ok(p) => RetryStep::Done(p),
            Err(e) => {
                if e.is_cdn_4xx_error() || self.attempts == CDN_UPLOAD_MAX_RETRIES {
                    RetryStep::GiveUp(e)
                } else {
                    RetryStep::RetryAfter(CDN_UPLOAD_RETRY_DELAY_MS)
                }
            },
        }
    }
}

} // verus!
