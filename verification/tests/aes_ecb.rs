use base64::engine::general_purpose::{STANDARD, URL_SAFE_NO_PAD};
use base64::Engine;
use weixin_ilink_sdk::aes_ecb::{aes_ecb_padded_size, aes_key_from_decoded, decrypt_aes_ecb, encrypt_aes_ecb, parse_aes_key};
use weixin_ilink_sdk::error::Error;

#[test]
fn encrypt_decrypt_roundtrip() {
    let key = [0x42u8; 16];
    let plaintext = b"hello, weixin ilink!";
    let ciphertext = encrypt_aes_ecb(plaintext, &key);
    let decrypted = decrypt_aes_ecb(&ciphertext, &key).unwrap();
    assert_eq!(decrypted, plaintext);
}

#[test]
fn padded_size() {
    assert_eq!(aes_ecb_padded_size(0), 16);
    assert_eq!(aes_ecb_padded_size(1), 16);
    assert_eq!(aes_ecb_padded_size(15), 16);
    assert_eq!(aes_ecb_padded_size(16), 32);
}

#[test]
fn parse_key_raw_16() {
    let raw = [0xABu8; 16];
    let b64 = STANDARD.encode(raw);
    let key = parse_aes_key(&b64).unwrap();
    assert_eq!(key, raw);
}

#[test]
fn parse_key_hex_32() {
    let raw = [0xCDu8; 16];
    let hex_str = hex::encode(raw);
    let b64 = STANDARD.encode(hex_str.as_bytes());
    let key = parse_aes_key(&b64).unwrap();
    assert_eq!(key, raw);
}

#[test]
fn ciphertext_has_padded_size() {
    let key = [7u8; 16];
    for n in [0usize, 1, 15, 16, 17, 100] {
        let pt = vec![0x11u8; n];
        let ct = encrypt_aes_ecb(&pt, &key);
        assert_eq!(ct.len(), aes_ecb_padded_size(n));
        assert_eq!(ct.len() % 16, 0);
        assert_ne!(ct, pt);
        assert_eq!(decrypt_aes_ecb(&ct, &key).unwrap(), pt);
    }
}

#[test]
fn decrypt_rejects_bad_length() {
    let key = [1u8; 16];
    match decrypt_aes_ecb(&[0u8; 15], &key) {
        Err(Error::Aes(_)) => {}
        other => panic!("unexpected {:?}", other),
    }
}

#[test]
fn parse_key_url_safe_without_padding() {
    let raw = [0xFBu8; 16];
    let b64 = URL_SAFE_NO_PAD.encode(raw);
    assert_eq!(parse_aes_key(&b64).unwrap(), raw);
}

#[test]
fn parse_key_errors() {
    assert!(matches!(parse_aes_key("!!!"), Err(Error::Aes(_))));
    let short = STANDARD.encode([1u8; 8]);
    match parse_aes_key(&short) {
        Err(Error::Aes(m)) => assert_eq!(m, "aes_key must decode to 16 raw bytes or 32-char hex, got 8 bytes"),
        other => panic!("unexpected: {:?}", other),
    }
    let not_hex = STANDARD.encode([b'z'; 32]);
    assert!(matches!(parse_aes_key(&not_hex), Err(Error::Aes(_))));
    let not_utf8 = STANDARD.encode([0xFFu8; 32]);
    match parse_aes_key(&not_utf8) {
        Err(Error::Aes(m)) => assert_eq!(m, "aes_key 32-byte decode is not valid UTF-8"),
        other => panic!("unexpected: {:?}", other),
    }
}

#[test]
fn key_from_decoded_bytes() {
    assert_eq!(aes_key_from_decoded(&[7u8; 16]).unwrap(), [7u8; 16]);
    let hex_text = "000102030405060708090a0b0c0d0e0f";
    let expected: [u8; 16] = core::array::from_fn(|i| i as u8);
    assert_eq!(aes_key_from_decoded(hex_text.as_bytes()).unwrap(), expected);
    match aes_key_from_decoded(&[1u8; 5]) {
        Err(Error::Aes(m)) => assert_eq!(m, "aes_key must decode to 16 raw bytes or 32-char hex, got 5 bytes"),
        other => panic!("unexpected: {:?}", other),
    }
    assert!(matches!(aes_key_from_decoded(&[b'z'; 32]), Err(Error::Aes(_))));
}
