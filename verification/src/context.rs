//! The per-user cache of context tokens (user id → context token).
use vstd::prelude::*;

use vstd::string::StringExecFns;

use crate::text::str_eq;

verus! {

/// The value of the first entry with key `k` among the first `n` entries.
pub open spec fn lookup_in(entries: Seq<(Seq<char>, Seq<char>)>, k: Seq<char>, n: int) -> Option<
    Seq<char>,
>
    decreases n,
{
    if n <= 0 {
        None
    } else {
        match lookup_in(entries, k, n - 1) {
            Some(v) => Some(v),
            None => if entries[n - 1].0 == k {
                Some(entries[n - 1].1)
            } else {
                None
            },
        }
    }
}

pub open spec fn lookup(entries: Seq<(Seq<char>, Seq<char>)>, k: Seq<char>) -> Option<Seq<char>> {
    lookup_in(entries, k, entries.len() as int)
}

/// Context tokens by user id.
#[derive(Debug)]
pub struct ContextTokens {
    entries: Vec<(String, String)>,
}

impl ContextTokens {
    pub closed spec fn spec_entries(&self) -> Seq<(Seq<char>, Seq<char>)> {
        self.entries@.map_values(|e: (String, String)| (e.0@, e.1@))
    }
}

impl View for ContextTokens {
    type V = Map<Seq<char>, Seq<char>>;

    closed spec fn view(&self) -> Map<Seq<char>, Seq<char>> {
        Map::new(
            |k: Seq<char>| lookup(self.spec_entries(), k) is Some,
            |k: Seq<char>| lookup(self.spec_entries(), k)->0,
        )
    }
}

proof fn lemma_lookup_prefix_none(
    entries: Seq<(Seq<char>, Seq<char>)>,
    k: Seq<char>,
    n: int,
)
    requires
        0 <= n <= entries.len(),
        forall|j: int| 0 <= j < n ==> #[trigger] entries[j].0 != k,
    ensures
        lookup_in(entries, k, n) is None,
    decreases n,
{
    if n > 0 {
        lemma_lookup_prefix_none(entries, k, n - 1);
    }
}

proof fn lemma_lookup_found(entries: Seq<(Seq<char>, Seq<char>)>, k: Seq<char>, i: int, n: int)
    requires
        0 <= i < n <= entries.len(),
        entries[i].0 == k,
        forall|j: int| 0 <= j < i ==> #[trigger] entries[j].0 != k,
    ensures
        lookup_in(entries, k, n) == Some(entries[i].1),
    decreases n,
{
    if n == i + 1 {
        lemma_lookup_prefix_none(entries, k, i);
    } else {
        lemma_lookup_found(entries, k, i, n - 1);
    }
}

/// Changing entry `i` to another entry with the same key changes only what
/// that key looks up to.
proof fn lemma_lookup_update(
    entries: Seq<(Seq<char>, Seq<char>)>,
    i: int,
    v: Seq<char>,
    k2: Seq<char>,
    n: int,
)
    requires
        0 <= i < entries.len(),
        0 <= n <= entries.len(),
        k2 != entries[i].0,
    ensures
        lookup_in(entries.update(i, (entries[i].0, v)), k2, n) == lookup_in(entries, k2, n),
    decreases n,
{
    if n > 0 {
        lemma_lookup_update(entries, i, v, k2, n - 1);
    }
}

/// Appending an entry leaves what every earlier key looks up to.
proof fn lemma_lookup_push(entries: Seq<(Seq<char>, Seq<char>)>, e: (Seq<char>, Seq<char>), k2: Seq<char>, n: int)
    requires
        0 <= n <= entries.len(),
    ensures
        lookup_in(entries.push(e), k2, n) == lookup_in(entries, k2, n),
    decreases n,
{
    if n > 0 {
        lemma_lookup_push(entries, e, k2, n - 1);
    }
}

impl ContextTokens {
    pub fn new() -> (r: Self)
        ensures
            r@ == Map::<Seq<char>, Seq<char>>::empty(),
    {
        let r = ContextTokens { entries: Vec::new() };
        assert(r@ =~= Map::<Seq<char>, Seq<char>>::empty());
        r
    }

    fn find(&self, user_id: &str) -> (r: Option<usize>)
        ensures
            match r {
                Some(i) => i < self.spec_entries().len() && self.spec_entries()[i as int].0 == user_id@
                    && forall|j: int| 0 <= j < i ==> #[trigger] self.spec_entries()[j].0 != user_id@,
                None => forall|j: int|
                    0 <= j < self.spec_entries().len() ==> #[trigger] self.spec_entries()[j].0 != user_id@,
            },
    {
        let n = self.entries.len();
        let mut i: usize = 0;
        while i < n
            invariant
                n == self.entries@.len(),
                n == self.spec_entries().len(),
                0 <= i <= n,
                forall|j: int| 0 <= j < i ==> #[trigger] self.spec_entries()[j].0 != user_id@,
            decreases n - i,
        {
            if str_eq(self.entries[i].0.as_str(), user_id) {
                return Some(i);
            }
            i += 1;
        }
        None
    }

    /// The cached context token of a user.
    pub fn get(&self, user_id: &str) -> (r: Option<String>)
        ensures
            match r {
                Some(t) => self@.contains_key(user_id@) && self@[user_id@] == t@,
                None => !self@.contains_key(user_id@),
            },
    {
        match self.find(user_id) {
            Some(i) => {
                proof {
                    lemma_lookup_found(self.spec_entries(), user_id@, i as int, self.spec_entries().len() as int);
                }
                Some(self.entries[i].1.clone())
            },
            None => {
                proof {
                    lemma_lookup_prefix_none(self.spec_entries(), user_id@, self.spec_entries().len() as int);
                }
                None
            },
        }
    }

    /// Cache the context token of a user, replacing an earlier one.
    pub fn set(&mut self, user_id: &str, context_token: &str)
        ensures
            final(self)@ == old(self)@.insert(user_id@, context_token@),
    {
        let ghost old_entries = self.spec_entries();
        let k = String::from_str(user_id);
        let v = String::from_str(context_token);
        match self.find(user_id) {
            Some(i) => {
                self.entries.set(i, (k, v));
                proof {
                    let new_entries = self.spec_entries();
                    assert(new_entries =~= old_entries.update(i as int, (user_id@, context_token@)));
                    assert forall|k2: Seq<char>| #![auto] k2 != user_id@ implies lookup(new_entries, k2) == lookup(old_entries, k2) by {
                        lemma_lookup_update(old_entries, i as int, context_token@, k2, old_entries.len() as int);
                    }
                    lemma_lookup_found(new_entries, user_id@, i as int, new_entries.len() as int);
                    assert(self@ =~= old(self)@.insert(user_id@, context_token@));
                }
            },
            None => {
                self.entries.push((k, v));
                proof {
                    let new_entries = self.spec_entries();
                    assert(new_entries =~= old_entries.push((user_id@, context_token@)));
                    assert forall|k2: Seq<char>| #![auto] k2 != user_id@ implies lookup(new_entries, k2) == lookup(old_entries, k2) by {
                        lemma_lookup_push(old_entries, (user_id@, context_token@), k2, old_entries.len() as int);
                    }
                    lemma_lookup_prefix_none(old_entries, user_id@, old_entries.len() as int);
                    lemma_lookup_push(old_entries, (user_id@, context_token@), user_id@, old_entries.len() as int);
                    assert(self@ =~= old(self)@.insert(user_id@, context_token@));
                }
            },
        }
    }
}

/// Reading a user's token after caching one gives the cached token, and
/// caching one user's token leaves every other user's token as it was.
pub proof fn lemma_set_then_get(m: Map<Seq<char>, Seq<char>>, user: Seq<char>, token: Seq<char>, other: Seq<char>)
    requires
        other != user,
    ensures
        m.insert(user, token).contains_key(user),
        m.insert(user, token)[user] == token,
        m.insert(user, token).contains_key(other) == m.contains_key(other),
        m.contains_key(other) ==> m.insert(user, token)[other] == m[other],
{
}

} // verus!
