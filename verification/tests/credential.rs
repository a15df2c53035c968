use weixin_ilink_sdk::credential::{
    account_ids_from_index, index_json, index_with, index_without, merge_account_data,
    normalize_account_id, AccountData, CredentialStore,
};

#[test]
fn normalize_ids() {
    assert_eq!(normalize_account_id("abc@im.bot"), "abc-im-bot");
    assert_eq!(normalize_account_id("abc@im.wechat"), "abc-im-wechat");
    assert_eq!(normalize_account_id("plain-id"), "plain-id");
}

#[test]
fn normalize_is_idempotent_and_keeps_length() {
    let once = normalize_account_id("b0f5860fdecb@im.bot");
    assert_eq!(once, "b0f5860fdecb-im-bot");
    assert_eq!(normalize_account_id(&once), once);
    assert_eq!(normalize_account_id("a.b@c").len(), "a.b@c".len());
    assert_eq!(normalize_account_id(""), "");
}

#[test]
fn store_paths() {
    let store = CredentialStore::new("/tmp/state");
    assert_eq!(store.base_dir(), "/tmp/state");
    assert_eq!(store.accounts_dir(), "/tmp/state/accounts");
    assert_eq!(store.index_path(), "/tmp/state/accounts.json");
    assert_eq!(store.account_path("test-id"), "/tmp/state/accounts/test-id.json");
    let slash = CredentialStore::new("/tmp/state/");
    assert_eq!(slash.index_path(), "/tmp/state/accounts.json");
    let empty = CredentialStore::new("");
    assert_eq!(empty.accounts_dir(), "accounts");
    assert_eq!(store.account_path("/abs"), "/abs.json");
}

#[test]
fn index_register_and_remove() {
    let ids: Vec<String> = vec![];
    let (ids, changed) = index_with(ids, "test-id");
    assert!(changed);
    assert_eq!(ids, vec!["test-id".to_string()]);
    let (ids, changed) = index_with(ids, "test-id");
    assert!(!changed);
    assert_eq!(ids, vec!["test-id".to_string()]);
    let (ids, _) = index_with(ids, "other");
    assert_eq!(ids, vec!["test-id".to_string(), "other".to_string()]);
    let removed = index_without(&ids, "test-id");
    assert_eq!(removed, vec!["other".to_string()]);
    let removed_again = index_without(&removed, "test-id");
    assert_eq!(removed_again, removed);
}

#[test]
fn index_file_text_roundtrip() {
    assert!(account_ids_from_index(None).is_empty());
    assert!(account_ids_from_index(Some("not json")).is_empty());
    let ids = vec!["a-im-bot".to_string(), "b".to_string()];
    let text = index_json(&ids);
    assert_eq!(account_ids_from_index(Some(&text)), ids);
    assert_eq!(account_ids_from_index(Some("[\"x\"]")), vec!["x".to_string()]);
}

#[test]
fn save_merges_with_stored_data() {
    let stored = AccountData {
        token: Some("old".into()),
        saved_at: Some("2024-01-01T00:00:00Z".into()),
        base_url: Some("https://a".into()),
        user_id: Some("u".into()),
    };
    let update = AccountData { token: Some("new".into()), saved_at: None, base_url: None, user_id: Some("v".into()) };
    let merged = merge_account_data(Some(&stored), &update);
    assert_eq!(merged.token.as_deref(), Some("new"));
    assert_eq!(merged.saved_at.as_deref(), Some("2024-01-01T00:00:00Z"));
    assert_eq!(merged.base_url.as_deref(), Some("https://a"));
    assert_eq!(merged.user_id.as_deref(), Some("v"));
    let fresh = merge_account_data(None, &update);
    assert_eq!(fresh.token.as_deref(), Some("new"));
    assert_eq!(fresh.base_url, None);
}
