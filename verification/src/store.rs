//! The SQL storage of SDK state (accounts, sync cursors, context tokens): its
//! schema, its statements and the rows it reads. The database itself is
//! driven outside the library.
use vstd::prelude::*;


verus! {

/// Account row from the database.
#[derive(Debug, Clone)]
pub struct AccountRow {
    pub ilink_bot_id: String,
    pub token: String,
    pub base_url: Option<String>,
    pub user_id: Option<String>,
    pub saved_at: String,
}

/// Sync state row from the database.
#[derive(Debug, Clone)]
pub struct SyncStateRow {
    pub get_updates_buf: String,
    pub updated_at: String,
}

/// The schema, created where missing.
pub const MIGRATION_SQL: &'static str = "
                CREATE TABLE IF NOT EXISTS accounts (
                    ilink_bot_id TEXT PRIMARY KEY,
                    token        TEXT NOT NULL,
                    base_url     TEXT,
                    user_id      TEXT,
                    saved_at     TEXT NOT NULL DEFAULT (datetime('now'))
                );

                CREATE TABLE IF NOT EXISTS sync_state (
                    ilink_bot_id    TEXT PRIMARY KEY,
                    get_updates_buf TEXT NOT NULL,
                    updated_at      TEXT NOT NULL DEFAULT (datetime('now'))
                );

                CREATE TABLE IF NOT EXISTS context_tokens (
                    ilink_bot_id TEXT NOT NULL,
                    user_id      TEXT NOT NULL,
                    token        TEXT NOT NULL,
                    updated_at   TEXT NOT NULL DEFAULT (datetime('now')),
                    PRIMARY KEY (ilink_bot_id, user_id)
                );
                ";

pub const LIST_ACCOUNTS_SQL: &'static str = "SELECT ilink_bot_id FROM accounts";

pub const LOAD_ACCOUNT_SQL: &'static str =
    "SELECT token, base_url, user_id, saved_at FROM accounts WHERE ilink_bot_id = ?1";

pub const SAVE_ACCOUNT_SQL: &'static str = "INSERT INTO accounts (ilink_bot_id, token, base_url, user_id, saved_at)
                 VALUES (?1, ?2, ?3, ?4, datetime('now'))
                 ON CONFLICT(ilink_bot_id) DO UPDATE SET
                     token = excluded.token,
                     base_url = excluded.base_url,
                     user_id = excluded.user_id,
                     saved_at = excluded.saved_at";

pub const LOAD_SYNC_BUF_SQL: &'static str =
    "SELECT get_updates_buf, updated_at FROM sync_state WHERE ilink_bot_id = ?1";

pub const SAVE_SYNC_BUF_SQL: &'static str = "INSERT INTO sync_state (ilink_bot_id, get_updates_buf, updated_at)
                 VALUES (?1, ?2, datetime('now'))
                 ON CONFLICT(ilink_bot_id) DO UPDATE SET
                     get_updates_buf = excluded.get_updates_buf,
                     updated_at = excluded.updated_at";

pub const LOAD_CONTEXT_TOKEN_SQL: &'static str =
    "SELECT token FROM context_tokens WHERE ilink_bot_id = ?1 AND user_id = ?2";

pub const SAVE_CONTEXT_TOKEN_SQL: &'static str = "INSERT INTO context_tokens (ilink_bot_id, user_id, token, updated_at)
                 VALUES (?1, ?2, ?3, datetime('now'))
                 ON CONFLICT(ilink_bot_id, user_id) DO UPDATE SET
                     token = excluded.token,
                     updated_at = excluded.updated_at";

/// Removes the context tokens of the account bound as `?1`.
pub const REMOVE_CONTEXT_TOKENS_SQL: &'static str = "DELETE FROM context_tokens WHERE ilink_bot_id = ?1";

/// Removes the sync cursor of the account bound as `?1`.
pub const REMOVE_SYNC_STATE_SQL: &'static str = "DELETE FROM sync_state WHERE ilink_bot_id = ?1";

/// Removes the account row bound as `?1`.
pub const REMOVE_ACCOUNT_ROW_SQL: &'static str = "DELETE FROM accounts WHERE ilink_bot_id = ?1";

/// The statements that remove an account and all related data, in the order
/// they run: context tokens, sync cursor, account row. Each deletes only the
/// rows whose `ilink_bot_id` equals its one parameter `?1`, to which the
/// account id is bound; the id never becomes part of the statement text, so
/// no id can widen what is deleted.
pub fn remove_account_statements() -> (r: Vec<&'static str>)
    ensures
        r@.len() == 3,
        r@[0]@ == "DELETE FROM context_tokens WHERE ilink_bot_id = ?1"@,
        r@[1]@ == "DELETE FROM sync_state WHERE ilink_bot_id = ?1"@,
        r@[2]@ == "DELETE FROM accounts WHERE ilink_bot_id = ?1"@,
{
    let mut v: Vec<&'static str> = Vec::new();
    v.push(REMOVE_CONTEXT_TOKENS_SQL);
    v.push(REMOVE_SYNC_STATE_SQL);
    v.push(REMOVE_ACCOUNT_ROW_SQL);
    v
}

} // verus!
