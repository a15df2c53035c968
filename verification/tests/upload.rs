use weixin_ilink_sdk::aes_ecb::decrypt_aes_ecb;
use weixin_ilink_sdk::error::Error;
use weixin_ilink_sdk::types::{GetUploadUrlResponse, UploadMediaType};
use weixin_ilink_sdk::upload::{
    plan_upload, plan_upload_with, upload_ciphertext, upload_param_from, upload_url_request,
    uploaded_file, CdnUploadRetry, RetryStep, CDN_UPLOAD_RETRY_DELAY_MS,
};

#[test]
fn plan_sizes_hashes_and_keys() {
    let plan = plan_upload_with(b"hello world", [0xAB; 16], [0x01; 16]);
    assert_eq!(plan.rawsize, 11);
    assert_eq!(plan.filesize, 16);
    assert_eq!(plan.rawfilemd5, "5eb63bbbe01eeed093cb22bb8f5acdc3");
    assert_eq!(plan.filekey, "abababababababababababababababab");
    assert_eq!(plan.aeskey_hex, "01010101010101010101010101010101");
    let ct = upload_ciphertext(&plan, b"hello world");
    assert_eq!(ct.len() as u64, plan.filesize);
    assert_eq!(decrypt_aes_ecb(&ct, &plan.aeskey_bytes).unwrap(), b"hello world".to_vec());
    let random = plan_upload(b"");
    assert_eq!(random.filesize, 16);
    assert_eq!(random.filekey.len(), 32);
}

#[test]
fn upload_url_request_announces_plan() {
    let plan = plan_upload_with(&[0u8; 16], [1; 16], [2; 16]);
    let req = upload_url_request(&plan, "bob", UploadMediaType::File);
    assert_eq!(req.filekey.as_deref(), Some(plan.filekey.as_str()));
    assert_eq!(req.media_type, Some(UploadMediaType::File));
    assert_eq!(req.rawsize, Some(16));
    assert_eq!(req.filesize, Some(32));
    assert_eq!(req.no_need_thumb, Some(true));
    assert_eq!(req.aeskey.as_deref(), Some(plan.aeskey_hex.as_str()));
    assert!(req.base_info.is_none());
    let done = uploaded_file(plan, "dl".into());
    assert_eq!(done.download_param, "dl");
    assert_eq!(done.file_size, 16);
    assert_eq!(done.ciphertext_size, 32);
}

#[test]
fn upload_param_checks() {
    let ok = GetUploadUrlResponse { ret: Some(0), errmsg: None, upload_param: Some("p".into()), thumb_upload_param: None };
    assert_eq!(upload_param_from(ok).unwrap(), "p");
    let failed = GetUploadUrlResponse { ret: Some(5), errmsg: None, upload_param: Some("p".into()), thumb_upload_param: None };
    match upload_param_from(failed) {
        Err(Error::Api { ret, errcode, message }) => {
            assert_eq!((ret, errcode, message.as_str()), (5, None, "getUploadUrl failed"));
        }
        other => panic!("{:?}", other),
    }
    let missing = GetUploadUrlResponse { ret: None, errmsg: None, upload_param: None, thumb_upload_param: None };
    assert!(matches!(upload_param_from(missing), Err(Error::Cdn { status_code: None, .. })));
}

fn server_error() -> Error {
    Error::Cdn { message: "boom".into(), status_code: Some(500) }
}

#[test]
fn retry_at_most_three_times() {
    let mut r = CdnUploadRetry::new();
    assert!(matches!(r.on_result(Err(server_error())), RetryStep::RetryAfter(CDN_UPLOAD_RETRY_DELAY_MS)));
    assert!(matches!(r.on_result(Err(server_error())), RetryStep::RetryAfter(_)));
    assert!(matches!(r.on_result(Err(server_error())), RetryStep::GiveUp(Error::Cdn { .. })));
    assert_eq!(r.attempts(), 3);
}

#[test]
fn no_retry_after_client_error_and_success_ends() {
    let mut r = CdnUploadRetry::new();
    let e = Error::Cdn { message: "bad".into(), status_code: Some(400) };
    assert!(matches!(r.on_result(Err(e)), RetryStep::GiveUp(_)));
    let mut r = CdnUploadRetry::new();
    r.on_result(Err(server_error()));
    match r.on_result(Ok("param".into())) {
        RetryStep::Done(p) => assert_eq!(p, "param"),
        other => panic!("{:?}", other),
    }
}

#[test]
fn returned_key_decrypts_what_was_posted() {
    let plaintext = b"some file contents";
    let plan = plan_upload_with(plaintext, [3; 16], [0x5A; 16]);
    let posted = upload_ciphertext(&plan, plaintext);
    let file = uploaded_file(plan, "dp".into());
    let key: [u8; 16] = hex::decode(&file.aeskey).unwrap().try_into().unwrap();
    assert_eq!(decrypt_aes_ecb(&posted, &key).unwrap(), plaintext.to_vec());
    assert_eq!(posted.len() as u64, file.ciphertext_size);
}
