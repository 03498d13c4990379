//! Insertion-ordered configuration store: string keys, string values,
//! set-or-update in place, read by key.

use vstd::prelude::*;

use crate::text::str_eq;

verus! {

/// Index of the first entry for `key`, if one exists.
pub open spec fn kv_index(entries: Seq<(String, String)>, key: Seq<char>) -> Option<int>
    decreases entries.len(),
{
    if entries.len() == 0 {
        None
    } else if entries[0].0@ == key {
        Some(0int)
    } else {
        match kv_index(entries.drop_first(), key) {
            Some(i) => Some(i + 1),
            None => None,
        }
    }
}

/// What setting `key` to `value` leaves of a store's entries: the
/// first entry for the key updated in place, or a new entry appended
/// when the key was unset.
pub open spec fn kv_set_post(
    e0: Seq<(String, String)>,
    key: Seq<char>,
    value: Seq<char>,
    e1: Seq<(String, String)>,
) -> bool {
    match kv_index(e0, key) {
        Some(i) => {
            &&& e1.len() == e0.len()
            &&& e1[i].0@ == key
            &&& e1[i].1@ == value
            &&& forall|j: int| 0 <= j < e0.len() && j != i ==> e1[j] == e0[j]
        },
        None => {
            &&& e1.len() == e0.len() + 1
            &&& e1.drop_last() =~= e0
            &&& e1.last().0@ == key
            &&& e1.last().1@ == value
        },
    }
}

/// What a read of `key` answers: the value of the first entry for the
/// key, or none when the key is unset.
pub open spec fn kv_get_post(e: Seq<(String, String)>, key: Seq<char>, r: Option<String>) -> bool {
    match kv_index(e, key) {
        Some(i) => r is Some && r->0@ == e[i].1@,
        None => r is None,
    }
}

/// A configuration scope: its keys and their current values.
pub struct KvStore {
    entries: Vec<(String, String)>,
}

impl View for KvStore {
    type V = Seq<(String, String)>;

    closed spec fn view(&self) -> Seq<(String, String)> {
        self.entries@
    }
}

impl KvStore {
    /// Create an empty store.
    pub fn new() -> (r: KvStore)
        ensures
            r@ == Seq::<(String, String)>::empty(),
    {
        KvStore { entries: Vec::new() }
    }

    /// The current value of `key`, or none when the key is unset.
    pub fn get(&self, key: &str) -> (r: Option<String>)
        ensures
            kv_get_post(self@, key@, r),
    {
        let n = self.entries.len();
        let mut i: usize = 0;
        while i < n
            invariant
                n == self.entries@.len(),
                0 <= i <= n,
                forall|j: int| 0 <= j < i ==> self.entries@[j].0@ != key@,
            decreases n - i,
        {
            if str_eq(self.entries[i].0.as_str(), key) {
                proof {
                    lemma_kv_first_match(self.entries@, key@, i as int);
                }
                return Some(self.entries[i].1.clone());
            }
            i = i + 1;
        }
        proof {
            lemma_kv_index_characterizes(self.entries@, key@);
        }
        None
    }

    /// Set `key` to `value`: the first entry for the key is updated in
    /// place, or a new entry is appended when the key was unset.
    pub fn set(&mut self, key: &str, value: &str)
        ensures
            kv_set_post(old(self)@, key@, value@, final(self)@),
    {
        let n = self.entries.len();
        let mut i: usize = 0;
        while i < n
            invariant
                n == self.entries@.len(),
                0 <= i <= n,
                *self == *old(self),
                forall|j: int| 0 <= j < i ==> self.entries@[j].0@ != key@,
            decreases n - i,
        {
            if str_eq(self.entries[i].0.as_str(), key) {
                proof {
                    lemma_kv_first_match(self.entries@, key@, i as int);
                }
                self.entries[i] = (key.to_owned(), value.to_owned());
                return ;
            }
            i = i + 1;
        }
        proof {
            lemma_kv_index_characterizes(self.entries@, key@);
        }
        self.entries.push((key.to_owned(), value.to_owned()));
    }
}

/// `kv_index` finds the first entry for the key and nothing else.
pub proof fn lemma_kv_index_characterizes(entries: Seq<(String, String)>, key: Seq<char>)
    ensures
        match kv_index(entries, key) {
            Some(i) => {
                &&& 0 <= i < entries.len()
                &&& entries[i].0@ == key
                &&& forall|j: int| 0 <= j < i ==> entries[j].0@ != key
            },
            None => forall|j: int| 0 <= j < entries.len() ==> entries[j].0@ != key,
        },
    decreases entries.len(),
{
    if entries.len() > 0 && entries[0].0@ != key {
        let rest = entries.drop_first();
        lemma_kv_index_characterizes(rest, key);
        match kv_index(rest, key) {
            Some(i) => {
                assert(entries[i + 1] == rest[i]);
                assert forall|j: int| 0 <= j < i + 1 implies entries[j].0@ != key by {
                    if j > 0 {
                        assert(entries[j] == rest[j - 1]);
                    }
                }
            },
            None => {
                assert forall|j: int| 0 <= j < entries.len() implies entries[j].0@ != key by {
                    if j > 0 {
                        assert(entries[j] == rest[j - 1]);
                    }
                }
            },
        }
    }
}

/// The first entry for the key is the one found.
pub proof fn lemma_kv_first_match(entries: Seq<(String, String)>, key: Seq<char>, i: int)
    requires
        0 <= i < entries.len(),
        entries[i].0@ == key,
        forall|j: int| 0 <= j < i ==> entries[j].0@ != key,
    ensures
        kv_index(entries, key) == Some(i),
    decreases i,
{
    if i > 0 {
        let rest = entries.drop_first();
        assert(forall|j: int| 0 <= j < rest.len() ==> rest[j] == entries[j + 1]);
        lemma_kv_first_match(rest, key, i - 1);
    }
}

/// Reading a key back after setting it yields the value just set.
pub proof fn lemma_set_then_get(
    entries0: Seq<(String, String)>,
    entries1: Seq<(String, String)>,
    key: Seq<char>,
    value: Seq<char>,
)
    requires
        kv_set_post(entries0, key, value, entries1),
    ensures
        kv_index(entries1, key) is Some,
        entries1[kv_index(entries1, key)->0].1@ == value,
{
    lemma_kv_index_characterizes(entries0, key);
    match kv_index(entries0, key) {
        Some(i) => {
            assert(forall|j: int| 0 <= j < i ==> entries1[j].0@ != key);
            lemma_kv_first_match(entries1, key, i);
        },
        None => {
            assert(forall|j: int|
                0 <= j < entries0.len() ==> entries1[j] == entries0[j]);
            lemma_kv_first_match(entries1, key, entries0.len() as int);
        },
    }
}

} // verus!
