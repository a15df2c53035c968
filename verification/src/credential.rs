//! Account credentials: the on-disk layout of the credential store, the
//! account index, and account-id normalisation.
//!
//! Layout:
//! ```text
//! base_dir/
//!   accounts.json          # ["account-id-1", "account-id-2"]
//!   accounts/
//!     account-id-1.json    # AccountData
//!     account-id-2.json
//! ```
use vstd::prelude::*;
use vstd::string::{StrSliceExecFns, StringExecFns};

use crate::encoding::{json_pretty_string_list, json_pretty_strings, json_string_list, parse_json_string_list};
use crate::client::opt_view;
use crate::text::{replace2, spec_replace2, str_eq};

verus! {

/// Per-account credential data. `saved_at` is an RFC 3339 timestamp.
#[derive(Debug, Clone)]
pub struct AccountData {
    pub token: Option<String>,
    pub saved_at: Option<String>,
    pub base_url: Option<String>,
    pub user_id: Option<String>,
}

/// A field after a save: the new value where one is given, else the stored
/// one.
pub open spec fn merged_field(stored: Option<Option<String>>, update: Option<String>) -> Option<Seq<char>> {
    match update {
        Some(v) => Some(v@),
        None => match stored {
            Some(Some(v)) => Some(v@),
            _ => None,
        },
    }
}

fn merge_field(stored: Option<&Option<String>>, update: &Option<String>) -> (r: Option<String>)
    ensures
        opt_view(r) == merged_field(
            match stored {
                Some(o) => Some(*o),
                None => None,
            },
            *update,
        ),
{
    match update {
        Some(v) => Some(v.clone()),
        None => match stored {
            Some(Some(v)) => Some(v.clone()),
            _ => None,
        },
    }
}

/// The account data a save writes: each field of `update` that is present,
/// and the stored value (if any) of each field that is absent.
pub fn merge_account_data(stored: Option<&AccountData>, update: &AccountData) -> (r: AccountData)
    ensures
        opt_view(r.token) == merged_field(
            match stored {
                Some(d) => Some(d.token),
                None => None,
            },
            update.token,
        ),
        opt_view(r.saved_at) == merged_field(
            match stored {
                Some(d) => Some(d.saved_at),
                None => None,
            },
            update.saved_at,
        ),
        opt_view(r.base_url) == merged_field(
            match stored {
                Some(d) => Some(d.base_url),
                None => None,
            },
            update.base_url,
        ),
        opt_view(r.user_id) == merged_field(
            match stored {
                Some(d) => Some(d.user_id),
                None => None,
            },
            update.user_id,
        ),
{
    let (t, s, b, u) = match stored {
        Some(d) => (Some(&d.token), Some(&d.saved_at), Some(&d.base_url), Some(&d.user_id)),
        None => (None, None, None, None),
    };
    AccountData {
        token: merge_field(t, &update.token),
        saved_at: merge_field(s, &update.saved_at),
        base_url: merge_field(b, &update.base_url),
        user_id: merge_field(u, &update.user_id),
    }
}

/// Persistent store for account credentials, rooted at a directory.
pub struct CredentialStore {
    base_dir: String,
}

/// `base.join(name)` for Unix paths: an absolute `name` replaces `base`, an
/// empty `base` gives `name`, and otherwise one `/` separates them unless
/// `base` already ends with one.
pub open spec fn join_path(base: Seq<char>, name: Seq<char>) -> Seq<char> {
    if name.len() > 0 && name[0] == '/' {
        name
    } else if base.len() == 0 {
        name
    } else if base.last() == '/' {
        base + name
    } else {
        base + "/"@ + name
    }
}

fn join(base: &str, name: &str) -> (r: String)
    ensures
        r@ == join_path(base@, name@),
{
    let nb = base.unicode_len();
    let nn = name.unicode_len();
    if nn > 0 && name.get_char(0) == '/' {
        return String::from_str(name);
    }
    if nb == 0 {
        return String::from_str(name);
    }
    let mut s = String::from_str(base);
    if base.get_char(nb - 1) != '/' {
        s.append("/");
    }
    s.append(name);
    s
}

impl CredentialStore {
    pub closed spec fn spec_base_dir(&self) -> Seq<char> {
        self.base_dir@
    }

    pub open spec fn spec_accounts_dir(&self) -> Seq<char> {
        join_path(self.spec_base_dir(), "accounts"@)
    }

    pub open spec fn spec_index_path(&self) -> Seq<char> {
        join_path(self.spec_base_dir(), "accounts.json"@)
    }

    pub open spec fn spec_account_path(&self, id: Seq<char>) -> Seq<char> {
        join_path(self.spec_accounts_dir(), id + ".json"@)
    }

    pub fn new(base_dir: &str) -> (r: Self)
        ensures
            r.spec_base_dir() == base_dir@,
    {
        CredentialStore { base_dir: String::from_str(base_dir) }
    }

    /// The directory the store is rooted at.
    pub fn base_dir(&self) -> (r: &str)
        ensures
            r@ == self.spec_base_dir(),
    {
        self.base_dir.as_str()
    }

    /// `base_dir/accounts`.
    pub fn accounts_dir(&self) -> (r: String)
        ensures
            r@ == self.spec_accounts_dir(),
    {
        join(self.base_dir.as_str(), "accounts")
    }

    /// `base_dir/accounts.json`, the index of account ids.
    pub fn index_path(&self) -> (r: String)
        ensures
            r@ == self.spec_index_path(),
    {
        join(self.base_dir.as_str(), "accounts.json")
    }

    /// `base_dir/accounts/<id>.json`.
    pub fn account_path(&self, id: &str) -> (r: String)
        ensures
            r@ == self.spec_account_path(id@),
    {
        let dir = self.accounts_dir();
        let mut file = String::from_str(id);
        file.append(".json");
        join(dir.as_str(), file.as_str())
    }
}

// ── The account index ───────────────────────────────────────────────────────

/// The account ids an index file lists: none where there is no file or its
/// text is not a JSON list of strings.
pub open spec fn spec_ids_from_index(raw: Option<Seq<char>>) -> Seq<Seq<char>> {
    match raw {
        Some(t) => match json_string_list(t) {
            Some(ids) => ids,
            None => Seq::empty(),
        },
        None => Seq::empty(),
    }
}

/// The account ids listed by the index file's text (`None`: no file).
pub fn account_ids_from_index(raw: Option<&str>) -> (r: Vec<String>)
    ensures
        r.deep_view() == spec_ids_from_index(
            match raw {
                Some(t) => Some(t@),
                None => None,
            },
        ),
{
    match raw {
        Some(t) => match parse_json_string_list(t) {
            Some(ids) => ids,
            None => {
                let r: Vec<String> = Vec::new();
                assert(r.deep_view() =~= Seq::<Seq<char>>::empty());
                r
            },
        },
        None => {
            let r: Vec<String> = Vec::new();
            assert(r.deep_view() =~= Seq::<Seq<char>>::empty());
            r
        },
    }
}

/// The text of the index file listing `ids` (pretty-printed JSON). Reading
/// it back lists the same ids.
pub fn index_json(ids: &Vec<String>) -> (r: String)
    ensures
        r@ == json_pretty_string_list(ids.deep_view()),
        spec_ids_from_index(Some(r@)) == ids.deep_view(),
{
    json_pretty_strings(ids)
}

/// The index after registering `id`: unchanged where `id` is listed, else
/// `id` appended.
pub open spec fn spec_index_with(ids: Seq<Seq<char>>, id: Seq<char>) -> Seq<Seq<char>> {
    if ids.contains(id) {
        ids
    } else {
        ids.push(id)
    }
}

/// The index after removing `id`: every other entry, in order.
pub open spec fn spec_index_without(ids: Seq<Seq<char>>, id: Seq<char>) -> Seq<Seq<char>> {
    ids.filter(|s: Seq<char>| s != id)
}

fn index_contains(ids: &Vec<String>, id: &str) -> (r: bool)
    ensures
        r == ids.deep_view().contains(id@),
{
    let n = ids.len();
    let mut i: usize = 0;
    while i < n
        invariant
            n == ids@.len(),
            0 <= i <= n,
            forall|j: int| 0 <= j < i ==> ids.deep_view()[j] != id@,
        decreases n - i,
    {
        if str_eq(ids[i].as_str(), id) {
            proof {
                assert(ids.deep_view()[i as int] == id@);
            }
            return true;
        }
        i += 1;
    }
    false
}

/// Register `id` in the index. The flag says whether the index changed (and
/// so must be written back).
pub fn index_with(ids: Vec<String>, id: &str) -> (r: (Vec<String>, bool))
    ensures
        r.0.deep_view() == spec_index_with(ids.deep_view(), id@),
        r.1 == !ids.deep_view().contains(id@),
{
    if index_contains(&ids, id) {
        (ids, false)
    } else {
        let mut ids = ids;
        let ghost before = ids.deep_view();
        ids.push(String::from_str(id));
        proof {
            assert(ids.deep_view() =~= before.push(id@));
        }
        (ids, true)
    }
}

/// Remove every entry equal to `id` from the index, keeping the order of the
/// others (`retain(|i| i != id)`).
pub fn index_without(ids: &Vec<String>, id: &str) -> (r: Vec<String>)
    ensures
        r.deep_view() == spec_index_without(ids.deep_view(), id@),
{
    let n = ids.len();
    let mut out: Vec<String> = Vec::new();
    let mut i: usize = 0;
    let ghost keep = |s: Seq<char>| s != id@;
    while i < n
        invariant
            n == ids@.len(),
            0 <= i <= n,
            keep == (|s: Seq<char>| s != id@),
            out.deep_view() == ids.deep_view().take(i as int).filter(keep),
        decreases n - i,
    {
        let ghost prev = out.deep_view();
        proof {
            assert(ids.deep_view().take(i + 1).drop_last() =~= ids.deep_view().take(i as int));
            reveal_with_fuel(Seq::filter, 1);
        }
        if !str_eq(ids[i].as_str(), id) {
            out.push(ids[i].clone());
            proof {
                assert(out.deep_view() =~= prev.push(ids.deep_view()[i as int]));
            }
        }
        i += 1;
    }
    proof {
        assert(ids.deep_view().take(n as int) =~= ids.deep_view());
    }
    out
}

/// Registering an id lists it, registering twice changes nothing more, and
/// removing an id after registering it leaves the index as removing it alone
/// would.
pub proof fn lemma_index_laws(ids: Seq<Seq<char>>, id: Seq<char>)
    ensures
        spec_index_with(ids, id).contains(id),
        spec_index_with(spec_index_with(ids, id), id) == spec_index_with(ids, id),
        !spec_index_without(ids, id).contains(id),
        spec_index_without(spec_index_with(ids, id), id) == spec_index_without(ids, id),
        forall|other: Seq<char>| other != id && ids.contains(other) ==> spec_index_without(ids, id).contains(other),
{
    let keep = |s: Seq<char>| s != id;
    if !ids.contains(id) {
        assert(ids.push(id).last() == id);
        assert(ids.push(id).drop_last() =~= ids);
        reveal_with_fuel(Seq::filter, 1);
        assert(ids.push(id).filter(keep) =~= ids.filter(keep));
    }
    assert(!ids.filter(keep).contains(id)) by {
        if ids.filter(keep).contains(id) {
            ids.lemma_filter_contains_rev(keep, id);
            let k = choose|k: int| 0 <= k < ids.filter(keep).len() && ids.filter(keep)[k] == id;
            ids.lemma_filter_pred(keep, k);
            assert(keep(ids.filter(keep)[k]));
        }
    }
    assert forall|other: Seq<char>| other != id && ids.contains(other) implies ids.filter(
        keep,
    ).contains(other) by {
        let k = choose|k: int| 0 <= k < ids.len() && ids[k] == other;
        ids.lemma_filter_contains(keep, k);
    }
}

// ── Account ids ─────────────────────────────────────────────────────────────

/// `raw` with every `@` and `.` replaced by `-`.
pub open spec fn spec_normalize_account_id(raw: Seq<char>) -> Seq<char> {
    spec_replace2(raw, '@', '.', '-')
}

/// Normalize an account ID to a filesystem-safe string.
///
/// e.g. `"b0f5860fdecb@im.bot"` → `"b0f5860fdecb-im-bot"`
pub fn normalize_account_id(raw: &str) -> (r: String)
    ensures
        r@ == spec_normalize_account_id(raw@),
{
    replace2(raw, '@', '.', '-')
}

/// A normalized id keeps the length of the raw one, holds no `@` or `.`,
/// keeps every other character in place, and normalizing it again changes
/// nothing.
pub proof fn lemma_normalize_account_id(raw: Seq<char>)
    ensures
        spec_normalize_account_id(raw).len() == raw.len(),
        forall|i: int|
            0 <= i < raw.len() ==> #[trigger] spec_normalize_account_id(raw)[i] != '@'
                && spec_normalize_account_id(raw)[i] != '.',
        forall|i: int|
            0 <= i < raw.len() && raw[i] != '@' && raw[i] != '.' ==> #[trigger] spec_normalize_account_id(
                raw,
            )[i] == raw[i],
        forall|i: int|
            0 <= i < raw.len() && (raw[i] == '@' || raw[i] == '.') ==> #[trigger] spec_normalize_account_id(
                raw,
            )[i] == '-',
        spec_normalize_account_id(spec_normalize_account_id(raw)) == spec_normalize_account_id(raw),
{
    assert(spec_normalize_account_id(spec_normalize_account_id(raw)) =~= spec_normalize_account_id(
        raw,
    ));
}

} // verus!
