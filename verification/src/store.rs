//! Durable per-account records, modelled as a key-value store.
//!
//! The bot persists two small records per account: the sync cursor and the
//! control-channel id, each a single string keyed by the account's own
//! identity, so that accounts never collide. This module gives that
//! persistence an explicit get/put interface with map semantics; the
//! process edge mirrors the store to disk.

use crate::text::str_eq;
use vstd::prelude::*;
use vstd::string::*;

verus! {

/// The map an entry list denotes: a later entry for a key shadows an
/// earlier one.
pub open spec fn entries_map(s: Seq<(String, String)>) -> Map<Seq<char>, Seq<char>>
    decreases s.len(),
{
    if s.len() == 0 {
        Map::empty()
    } else {
        entries_map(s.drop_last()).insert(s.last().0@, s.last().1@)
    }
}

/// A list with no entry for `k` denotes a map without `k`.
proof fn lemma_no_match_absent(s: Seq<(String, String)>, k: Seq<char>)
    requires
        forall|j: int| 0 <= j < s.len() ==> (#[trigger] s[j]).0@ != k,
    ensures
        !entries_map(s).contains_key(k),
    decreases s.len(),
{
    if s.len() > 0 {
        assert forall|j: int| 0 <= j < s.drop_last().len() implies (#[trigger] s.drop_last()[j]).0@
            != k by {
            assert(s.drop_last()[j] == s[j]);
        }
        lemma_no_match_absent(s.drop_last(), k);
    }
}

/// The value for `k` is the one of the last entry whose key is `k`.
proof fn lemma_last_match(s: Seq<(String, String)>, k: Seq<char>, i: int)
    requires
        0 <= i < s.len(),
        s[i].0@ == k,
        forall|j: int| i < j < s.len() ==> (#[trigger] s[j]).0@ != k,
    ensures
        entries_map(s).contains_key(k),
        entries_map(s)[k] == s[i].1@,
    decreases s.len(),
{
    if i == s.len() - 1 {
        assert(s.last() == s[i]);
    } else {
        assert(s.last().0@ != k);
        assert forall|j: int| i < j < s.drop_last().len() implies (#[trigger] s.drop_last()[j]).0@
            != k by {
            assert(s.drop_last()[j] == s[j]);
        }
        assert(s.drop_last()[i] == s[i]);
        lemma_last_match(s.drop_last(), k, i);
    }
}

/// In-memory model of the bot's durable records: an append-only list of
/// key/value bindings, read as a map where the latest binding wins.
pub struct KvStore {
    entries: Vec<(String, String)>,
}

impl View for KvStore {
    type V = Map<Seq<char>, Seq<char>>;

    closed spec fn view(&self) -> Map<Seq<char>, Seq<char>> {
        entries_map(self.entries@)
    }
}

impl KvStore {
    /// An empty store.
    pub fn new() -> (s: KvStore)
        ensures
            s@ == Map::<Seq<char>, Seq<char>>::empty(),
    {
        KvStore { entries: Vec::new() }
    }

    /// Looks a key up; `None` means the store holds no record for it.
    pub fn get<'a>(&'a self, key: &str) -> (r: Option<&'a String>)
        ensures
            match r {
                Some(v) => self@.contains_key(key@) && v@ == self@[key@],
                None => !self@.contains_key(key@),
            },
    {
        let mut i: usize = self.entries.len();
        while i > 0
            invariant
                i <= self.entries.len(),
                forall|j: int|
                    i <= j < self.entries@.len() ==> (#[trigger] self.entries@[j]).0@ != key@,
            decreases i,
        {
            i -= 1;
            if str_eq(self.entries[i].0.as_str(), key) {
                proof {
                    lemma_last_match(self.entries@, key@, i as int);
                }
                return Some(&self.entries[i].1);
            }
        }
        proof {
            lemma_no_match_absent(self.entries@, key@);
        }
        None
    }

    /// Binds `key` to `value`, shadowing any earlier binding.
    pub fn put(&mut self, key: &str, value: String)
        ensures
            final(self)@ == old(self)@.insert(key@, value@),
    {
        self.entries.push((key.to_owned(), value));
        proof {
            assert(self.entries@.drop_last() =~= old(self).entries@);
        }
    }
}

/// The store key of an account's sync cursor, derived from its identity.
pub open spec fn cursor_key_of(account: Seq<char>) -> Seq<char> {
    "next_batch_"@ + account
}

/// The store key of an account's control-channel record.
pub open spec fn control_room_key_of(account: Seq<char>) -> Seq<char> {
    "control_room_"@ + account
}

/// Builds the cursor key for the account `account`.
pub(crate) fn cursor_key(account: &str) -> (k: String)
    ensures
        k@ == cursor_key_of(account@),
{
    let mut k = String::from_str("next_batch_");
    k.append(account);
    k
}

/// Builds the control-channel key for the account `account`.
pub(crate) fn control_room_key(account: &str) -> (k: String)
    ensures
        k@ == control_room_key_of(account@),
{
    let mut k = String::from_str("control_room_");
    k.append(account);
    k
}

/// Law: the persisted records of two accounts never collide — distinct
/// identities give distinct cursor keys and distinct control-channel keys,
/// and a cursor key is never a control-channel key.
pub proof fn lemma_store_keys_disjoint(a1: Seq<char>, a2: Seq<char>)
    ensures
        a1 != a2 ==> cursor_key_of(a1) != cursor_key_of(a2),
        a1 != a2 ==> control_room_key_of(a1) != control_room_key_of(a2),
        cursor_key_of(a1) != control_room_key_of(a2),
{
    reveal_strlit("next_batch_");
    reveal_strlit("control_room_");
    if cursor_key_of(a1) == cursor_key_of(a2) {
        assert(("next_batch_"@ + a1).skip(11) =~= a1);
        assert(("next_batch_"@ + a2).skip(11) =~= a2);
    }
    if control_room_key_of(a1) == control_room_key_of(a2) {
        assert(("control_room_"@ + a1).skip(13) =~= a1);
        assert(("control_room_"@ + a2).skip(13) =~= a2);
    }
    assert(cursor_key_of(a1)[0] == 'n');
    assert(control_room_key_of(a2)[0] == 'c');
}

/// Reads the persisted cursor for the account `account`; absence is the
/// signal to start from the server's live edge, not an error.
pub fn load_cursor<'a>(store: &'a KvStore, account: &str) -> (r: Option<&'a String>)
    ensures
        match r {
            Some(c) => store@.contains_key(cursor_key_of(account@)) && c@ == store@[cursor_key_of(
                account@,
            )],
            None => !store@.contains_key(cursor_key_of(account@)),
        },
{
    let k = cursor_key(account);
    store.get(k.as_str())
}

/// Persists `cursor` as the resumption point for the account `account`.
pub fn save_cursor(store: &mut KvStore, account: &str, cursor: &str)
    ensures
        final(store)@ == old(store)@.insert(cursor_key_of(account@), cursor@),
{
    let k = cursor_key(account);
    store.put(k.as_str(), cursor.to_owned());
}

} // verus!
