//! The host's raw configuration: string keys mapped to scalar values, kept in
//! the order in which they were inserted, plus the cross-language defaults.

use crate::text::str_eq;
use vstd::prelude::*;

verus! {

/// A raw configuration value as supplied by the host.
#[derive(Debug)]
pub enum ConfigKeyValue {
    String(String),
    Number(i32),
    Bool(bool),
    Array(Vec<ConfigKeyValue>),
    Object(ConfigKeyMap),
    Null,
}

/// The entries of a raw configuration, as (key, value) pairs.
pub type Entries = Seq<(Seq<char>, ConfigKeyValue)>;

/// Whether no key occurs twice.
pub open spec fn keys_unique(m: Entries) -> bool {
    forall|i: int, j: int| 0 <= i < j < m.len() ==> m[i].0 != m[j].0
}

/// Whether `i` is the first position holding key `k`.
pub open spec fn is_first_position(m: Entries, k: Seq<char>, i: int) -> bool {
    &&& 0 <= i < m.len()
    &&& m[i].0 == k
    &&& forall|j: int| 0 <= j < i ==> m[j].0 != k
}

/// The value stored under `k` (its first occurrence), if any.
pub open spec fn lookup(m: Entries, k: Seq<char>) -> Option<ConfigKeyValue> {
    if exists|i: int| is_first_position(m, k, i) {
        Some(m[choose|i: int| is_first_position(m, k, i)].1)
    } else {
        None
    }
}

/// Whether some entry has key `k`.
pub open spec fn has_key(m: Entries, k: Seq<char>) -> bool {
    exists|i: int| 0 <= i < m.len() && m[i].0 == k
}

/// A mapping from dotted string keys to raw values. Keys are unique and the
/// order of first insertion is kept.
#[derive(Debug)]
pub struct ConfigKeyMap {
    entries: Vec<(String, ConfigKeyValue)>,
}

impl ConfigKeyMap {
    pub closed spec fn view(&self) -> Entries {
        self.entries@.map_values(|e: (String, ConfigKeyValue)| (e.0@, e.1))
    }

    #[verifier::type_invariant]
    spec fn keys_distinct(&self) -> bool {
        keys_unique(self.view())
    }

    /// No key of a map occurs twice.
    pub fn check_keys_unique(&self)
        ensures
            keys_unique(self.view()),
    {
        proof {
            use_type_invariant(self);
        }
    }

    /// An empty map.
    pub fn new() -> (r: ConfigKeyMap)
        ensures
            r.view() == Seq::<(Seq<char>, ConfigKeyValue)>::empty(),
            keys_unique(r.view()),
    {
        let entries: Vec<(String, ConfigKeyValue)> = Vec::new();
        assert(entries@.map_values(|e: (String, ConfigKeyValue)| (e.0@, e.1)) =~= Seq::<
            (Seq<char>, ConfigKeyValue),
        >::empty());
        let r = ConfigKeyMap { entries };
        r
    }

    /// Number of entries.
    pub fn len(&self) -> (r: usize)
        ensures
            r == self.view().len(),
    {
        self.entries.len()
    }

    /// Position of the first entry with key `k`, if any.
    pub fn position(&self, k: &str) -> (r: Option<usize>)
        ensures
            match r {
                Some(i) => is_first_position(self.view(), k@, i as int),
                None => !has_key(self.view(), k@),
            },
    {
        let n = self.entries.len();
        let mut i: usize = 0;
        while i < n
            invariant
                n == self.entries@.len(),
                0 <= i <= n,
                forall|j: int| 0 <= j < i ==> self.view()[j].0 != k@,
            decreases n - i,
        {
            if str_eq(self.entries[i].0.as_str(), k) {
                return Some(i);
            }
            i = i + 1;
        }
        None
    }

    /// Key of the entry at position `i`.
    pub fn key_at(&self, i: usize) -> (r: &str)
        requires
            i < self.view().len(),
        ensures
            r@ == self.view()[i as int].0,
    {
        self.entries[i].0.as_str()
    }

    /// Value of the entry at position `i`.
    pub fn value_at(&self, i: usize) -> (r: &ConfigKeyValue)
        requires
            i < self.view().len(),
        ensures
            *r == self.view()[i as int].1,
    {
        &self.entries[i].1
    }

    /// The value stored under `k`, if any.
    pub fn get(&self, k: &str) -> (r: Option<&ConfigKeyValue>)
        ensures
            match r {
                Some(v) => lookup(self.view(), k@) == Some(*v),
                None => lookup(self.view(), k@) is None,
            },
    {
        match self.position(k) {
            Some(i) => {
                proof { lemma_first_position_unique(self.view(), k@, i as int); }
                Some(&self.entries[i].1)
            },
            None => {
                assert(!exists|i: int| is_first_position(self.view(), k@, i));
                None
            },
        }
    }

    /// Stores `value` under `key`: an existing entry keeps its position and
    /// takes the new value, a new key goes last.
    pub fn insert(&mut self, key: String, value: ConfigKeyValue)
        ensures
            has_key(old(self).view(), key@) ==> exists|i: int|
                is_first_position(old(self).view(), key@, i) && final(self).view() == old(
                    self,
                ).view().update(i, (key@, value)),
            !has_key(old(self).view(), key@) ==> final(self).view() == old(self).view().push(
                (key@, value),
            ),
            keys_unique(final(self).view()),
    {
        let ghost before = self.view();
        let ghost k = key@;
        let found = self.position(key.as_str());
        let mut taken = ConfigKeyMap::new();
        std::mem::swap(self, &mut taken);
        proof {
            use_type_invariant(&taken);
        }
        assert(taken.view() == before);
        let mut entries = taken.entries;
        match found {
            Some(i) => {
                entries.set(i, (key, value));
            },
            None => {
                entries.push((key, value));
            },
        }
        let ghost after = entries@.map_values(|e: (String, ConfigKeyValue)| (e.0@, e.1));
        if found.is_some() {
            assert(after =~= before.update(found.unwrap() as int, (k, value)));
        } else {
            assert(after =~= before.push((k, value)));
        }
        proof {
            lemma_insert_keeps_keys_unique(before, after, k, value);
        }
        *self = ConfigKeyMap { entries };
    }
}

/// Only one position is the first one holding a key.
pub proof fn lemma_first_position_unique(m: Entries, k: Seq<char>, i: int)
    requires
        is_first_position(m, k, i),
    ensures
        forall|j: int| is_first_position(m, k, j) ==> j == i,
        lookup(m, k) == Some(m[i].1),
{
    assert forall|j: int| is_first_position(m, k, j) implies j == i by {
        if j < i {
            assert(m[j].0 == k);
        } else if j > i {
            assert(m[i].0 == k);
        }
    }
}

/// Keys of a map built by `new` and `insert` never repeat.
pub proof fn lemma_insert_keeps_keys_unique(
    before: Entries,
    after: Entries,
    key: Seq<char>,
    value: ConfigKeyValue,
)
    requires
        keys_unique(before),
        has_key(before, key) ==> exists|i: int|
            is_first_position(before, key, i) && after == before.update(i, (key, value)),
        !has_key(before, key) ==> after == before.push((key, value)),
    ensures
        keys_unique(after),
{
    if has_key(before, key) {
        let i = choose|i: int| is_first_position(before, key, i) && after == before.update(i, (key, value));
        assert forall|a: int, b: int| 0 <= a < b < after.len() implies after[a].0 != after[b].0 by {
            if a != i && b != i {
                assert(before[a].0 != before[b].0);
            }
        }
    } else {
        assert forall|a: int, b: int| 0 <= a < b < after.len() implies after[a].0 != after[b].0 by {
            if b == before.len() {
                assert(before[a].0 != key);
            } else {
                assert(before[a].0 != before[b].0);
            }
        }
    }
}

/// The host's choice of newline.
#[derive(Clone, Copy, PartialEq, Eq, Structural, Debug)]
pub enum NewLineKind {
    Auto,
    LineFeed,
    CarriageReturnLineFeed,
}

/// Formatting defaults shared by every plugin of the host.
#[derive(Clone, Copy, PartialEq, Eq, Structural, Debug)]
pub struct GlobalConfiguration {
    pub line_width: Option<u32>,
    pub use_tabs: Option<bool>,
    pub indent_width: Option<u8>,
    pub new_line_kind: Option<NewLineKind>,
}

/// A problem found in the configuration: the key and a message.
#[derive(Debug)]
pub struct ConfigurationDiagnostic {
    pub property_name: String,
    pub message: String,
}

impl ConfigurationDiagnostic {
    pub open spec fn view(&self) -> (Seq<char>, Seq<char>) {
        (self.property_name@, self.message@)
    }
}

} // verus!
