use base64::engine::general_purpose::STANDARD;
use base64::Engine;
use weixin_ilink_sdk::aes_ecb::{encrypt_aes_ecb, parse_aes_key};
use weixin_ilink_sdk::download::{decrypt_download, hex_key_to_base64};
use weixin_ilink_sdk::error::Error;
use weixin_ilink_sdk::store::remove_account_statements;

#[test]
fn decrypt_with_base64_key() {
    let key = [9u8; 16];
    let ct = encrypt_aes_ecb(b"media bytes", &key);
    let b64 = STANDARD.encode(key);
    assert_eq!(decrypt_download(&ct, &b64).unwrap(), b"media bytes".to_vec());
    assert!(matches!(decrypt_download(&ct, "???"), Err(Error::Aes(_))));
    assert!(matches!(decrypt_download(&ct[..5], &b64), Err(Error::Aes(_))));
}

#[test]
fn hex_key_path() {
    let key = [0x3Cu8; 16];
    let text = hex_key_to_base64(&hex::encode(key)).unwrap();
    assert_eq!(text, STANDARD.encode(key));
    assert_eq!(parse_aes_key(&text).unwrap(), key);
    assert!(matches!(hex_key_to_base64("xyz"), Err(Error::Aes(_))));
}

#[test]
fn remove_account_statement() {
    let sql = remove_account_statements();
    assert_eq!(
        sql,
        vec![
            "DELETE FROM context_tokens WHERE ilink_bot_id = ?1",
            "DELETE FROM sync_state WHERE ilink_bot_id = ?1",
            "DELETE FROM accounts WHERE ilink_bot_id = ?1",
        ]
    );
    // The id is bound, never written into the statements.
    assert!(sql.iter().all(|s| !s.contains('\'')));
}
