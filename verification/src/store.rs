//! Key/value store for the connector's session state: the remote server
//! hostname and the bearer token written by a successful login, and the
//! operator-supplied client id and client secret read at login time.
//!
//! The store is a single-session object: callers hold one store and thread it
//! through every operation. It offers no synchronization of its own; racing
//! concurrent callers on one store is outside its contract.

use vstd::prelude::*;

verus! {

/// Key under which the operator supplies the OAuth client id.
pub open spec fn client_id_key() -> Seq<char> {
    "PG_MASTO_CLIENT_ID"@
}

/// Key under which the operator supplies the OAuth client secret.
pub open spec fn client_secret_key() -> Seq<char> {
    "PG_MASTO_CLIENT_SECRET"@
}

/// Key under which a successful login stores the remote server hostname.
pub open spec fn server_key() -> Seq<char> {
    "PG_MASTO_SERVER"@
}

/// Key under which a successful login stores the bearer token.
pub open spec fn bearer_key() -> Seq<char> {
    "PG_MASTO_BEARER"@
}

/// The value a store holds for a key: the stored string, or the empty string
/// where the key is unset. Reads never fail.
pub open spec fn env_value(m: Map<Seq<char>, Seq<char>>, key: Seq<char>) -> Seq<char> {
    if m.contains_key(key) {
        m[key]
    } else {
        Seq::<char>::empty()
    }
}

/// Mutable key/value store holding the connector's session state between
/// calls. Bindings are appended; the newest binding for a key wins.
pub struct CredentialStore {
    entries: Vec<(String, String)>,
}

/// The map described by a binding list, newest binding last.
spec fn bindings_map(s: Seq<(String, String)>) -> Map<Seq<char>, Seq<char>>
    decreases s.len(),
{
    if s.len() == 0 {
        Map::<Seq<char>, Seq<char>>::empty()
    } else {
        bindings_map(s.drop_last()).insert(s.last().0@, s.last().1@)
    }
}

impl View for CredentialStore {
    type V = Map<Seq<char>, Seq<char>>;

    closed spec fn view(&self) -> Map<Seq<char>, Seq<char>> {
        bindings_map(self.entries@)
    }
}

impl CredentialStore {
    /// A fresh store with no key bound.
    pub fn new() -> (r: CredentialStore)
        ensures
            r@ == Map::<Seq<char>, Seq<char>>::empty(),
    {
        CredentialStore { entries: Vec::new() }
    }

    /// Returns the value stored under `key`, or the empty string where the
    /// key is unset. Total: it never fails.
    pub fn fetch_env(&self, key: &str) -> (r: String)
        ensures
            r@ == env_value(self@, key@),
    {
        let k: String = key.to_owned();
        let mut i: usize = self.entries.len();
        proof {
            assert(self.entries@.take(i as int) =~= self.entries@);
        }
        while i > 0
            invariant
                i <= self.entries.len(),
                k@ == key@,
                bindings_map(self.entries@).contains_key(key@) == bindings_map(
                    self.entries@.take(i as int),
                ).contains_key(key@),
                bindings_map(self.entries@).contains_key(key@) ==> bindings_map(self.entries@)[key@]
                    == bindings_map(self.entries@.take(i as int))[key@],
            decreases i,
        {
            i = i - 1;
            proof {
                assert(self.entries@.take(i as int + 1).drop_last() =~= self.entries@.take(
                    i as int,
                ));
                assert(self.entries@.take(i as int + 1).last() == self.entries@[i as int]);
            }
            if self.entries[i].0 == k {
                return self.entries[i].1.clone();
            }
        }
        proof {
            assert(self.entries@.take(0) =~= Seq::<(String, String)>::empty());
        }
        String::new()
    }

    /// Stores `value` under `key` and returns the value as now stored
    /// (write-then-read). Keys must be non-empty.
    pub fn set_env(&mut self, key: &str, value: &str) -> (r: String)
        requires
            key@.len() > 0,
        ensures
            final(self)@ == old(self)@.insert(key@, value@),
            r@ == value@,
    {
        self.entries.push((key.to_owned(), value.to_owned()));
        proof {
            assert(self.entries@.drop_last() =~= old(self).entries@);
        }
        self.fetch_env(key)
    }
}

/// Law: storing a value and then fetching the same key yields exactly the
/// value just stored, for every non-empty key and every value, the empty
/// string included.
pub proof fn lemma_set_then_fetch(m: Map<Seq<char>, Seq<char>>, k: Seq<char>, v: Seq<char>)
    requires
        k.len() > 0,
    ensures
        env_value(m.insert(k, v), k) == v,
{
}

} // verus!
