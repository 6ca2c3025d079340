//! The small stores the launcher keeps between runs: values kept by a text
//! key (the pinned commands and the saved custom commands of each project),
//! and the list of recently opened projects.

use vstd::prelude::*;
use crate::model::{ScriptInfo, ScriptView, clone_strings, copy_script, script_view};
use crate::text::{owned, starts_with, starts_with_str, str_eq, trim, trim_str};

verus! {

/// Whether no two entries have keys with the same text.
pub open spec fn keys_unique<V>(s: Seq<(String, V)>) -> bool {
    forall|i: int, j: int| 0 <= i < j < s.len() ==> (#[trigger] s[i].0@) != (#[trigger] s[j].0@)
}

/// Whether some entry has a key with the text `k`.
pub open spec fn has_key<V>(s: Seq<(String, V)>, k: Seq<char>) -> bool {
    exists|i: int| 0 <= i < s.len() && (#[trigger] s[i].0@) == k
}

/// The map from the text of each key to its value.
pub open spec fn entries_map<V>(s: Seq<(String, V)>) -> Map<Seq<char>, V> {
    Map::new(
        |k: Seq<char>| has_key(s, k),
        |k: Seq<char>| s[choose|i: int| 0 <= i < s.len() && (#[trigger] s[i].0@) == k].1,
    )
}

/// An entry of a store with unique keys is what the map gives for its key.
pub proof fn lemma_entry_in_map<V>(s: Seq<(String, V)>, i: int)
    requires
        keys_unique(s),
        0 <= i < s.len(),
    ensures
        entries_map(s).contains_key(s[i].0@),
        entries_map(s)[s[i].0@] == s[i].1,
{
    let k = s[i].0@;
    assert(has_key(s, k));
    let j = choose|j: int| 0 <= j < s.len() && (#[trigger] s[j].0@) == k;
    if j < i {
        assert(s[j].0@ != s[i].0@);
    } else if j > i {
        assert(s[i].0@ != s[j].0@);
    }
}

/// Appending an entry with a new key adds it to the map.
pub proof fn lemma_map_push<V>(s: Seq<(String, V)>, e: (String, V))
    requires
        keys_unique(s.push(e)),
    ensures
        entries_map(s.push(e)) == entries_map(s).insert(e.0@, e.1),
{
    let t = s.push(e);
    let n = s.len() as int;
    assert(keys_unique(s)) by {
        assert forall|a: int, b: int| 0 <= a < b < s.len() implies (#[trigger] s[a].0@) != (
        #[trigger] s[b].0@) by {
            assert(t[a] == s[a] && t[b] == s[b]);
        }
    }
    lemma_entry_in_map(t, n);
    assert forall|k: Seq<char>| #[trigger] entries_map(s).insert(e.0@, e.1).contains_key(k)
        implies entries_map(t).contains_key(k) && entries_map(t)[k] == entries_map(s).insert(
        e.0@,
        e.1,
    )[k] by {
        if k != e.0@ {
            let j = choose|j: int| 0 <= j < s.len() && (#[trigger] s[j].0@) == k;
            lemma_entry_in_map(s, j);
            assert(t[j] == s[j]);
            lemma_entry_in_map(t, j);
        }
    }
    assert forall|k: Seq<char>| #[trigger] entries_map(t).contains_key(k) implies entries_map(
        s,
    ).insert(e.0@, e.1).contains_key(k) by {
        let j = choose|j: int| 0 <= j < t.len() && (#[trigger] t[j].0@) == k;
        if j != n {
            assert(s[j].0@ == k);
        }
    }
    assert(entries_map(t) =~= entries_map(s).insert(e.0@, e.1));
}

/// The first `i + 1` entries map what the first `i` map, and the entry at
/// `i`.
pub proof fn lemma_map_take<V>(s: Seq<(String, V)>, i: int)
    requires
        keys_unique(s),
        0 <= i < s.len(),
    ensures
        keys_unique(s.take(i + 1)),
        keys_unique(s.take(i)),
        entries_map(s.take(i + 1)) == entries_map(s.take(i)).insert(s[i].0@, s[i].1),
        !entries_map(s.take(i)).contains_key(s[i].0@),
{
    assert(s.take(i + 1) =~= s.take(i).push(s[i]));
    assert(keys_unique(s.take(i + 1))) by {
        assert forall|a: int, b: int| 0 <= a < b < s.take(i + 1).len() implies (#[trigger] s.take(
            i + 1,
        )[a].0@) != (#[trigger] s.take(i + 1)[b].0@) by {
            assert(s[a].0@ != s[b].0@);
        }
    }
    assert(keys_unique(s.take(i))) by {
        assert forall|a: int, b: int| 0 <= a < b < s.take(i).len() implies (#[trigger] s.take(
            i,
        )[a].0@) != (#[trigger] s.take(i)[b].0@) by {
            assert(s[a].0@ != s[b].0@);
        }
    }
    lemma_map_push(s.take(i), s[i]);
    if entries_map(s.take(i)).contains_key(s[i].0@) {
        let j = choose|j: int| 0 <= j < s.take(i).len() && (#[trigger] s.take(i)[j].0@) == s[i].0@;
        assert(s[j].0@ != s[i].0@);
    }
}

/// Removing the entry at `i` removes its key from the map.
pub proof fn lemma_map_remove<V>(s: Seq<(String, V)>, i: int)
    requires
        keys_unique(s),
        0 <= i < s.len(),
    ensures
        keys_unique(s.remove(i)),
        entries_map(s.remove(i)) == entries_map(s).remove(s[i].0@),
{
    let t = s.remove(i);
    assert(keys_unique(t)) by {
        assert forall|a: int, b: int| 0 <= a < b < t.len() implies (#[trigger] t[a].0@) != (
        #[trigger] t[b].0@) by {
            let a2 = if a < i { a } else { a + 1 };
            let b2 = if b < i { b } else { b + 1 };
            assert(t[a] == s[a2] && t[b] == s[b2]);
            assert(s[a2].0@ != s[b2].0@);
        }
    }
    assert forall|k: Seq<char>| #[trigger] entries_map(s).remove(s[i].0@).contains_key(k)
        implies entries_map(t).contains_key(k) && entries_map(t)[k] == entries_map(s).remove(
        s[i].0@,
    )[k] by {
        let j = choose|j: int| 0 <= j < s.len() && (#[trigger] s[j].0@) == k;
        lemma_entry_in_map(s, j);
        let j2 = if j < i { j } else { j - 1 };
        assert(j != i);
        assert(t[j2] == s[j]);
        lemma_entry_in_map(t, j2);
    }
    assert forall|k: Seq<char>| #[trigger] entries_map(t).contains_key(k) implies entries_map(
        s,
    ).remove(s[i].0@).contains_key(k) by {
        let j = choose|j: int| 0 <= j < t.len() && (#[trigger] t[j].0@) == k;
        let j2 = if j < i { j } else { j + 1 };
        assert(t[j] == s[j2]);
        assert(j2 != i);
        if j2 < i {
            assert(s[j2].0@ != s[i].0@);
        } else {
            assert(s[i].0@ != s[j2].0@);
        }
    }
    assert(entries_map(t) =~= entries_map(s).remove(s[i].0@));
}

/// Values kept by the text of their keys, each key once.
pub struct KeyedStore<V> {
    entries: Vec<(String, V)>,
}

impl<V> KeyedStore<V> {
    #[verifier::type_invariant]
    spec fn unique_keys(self) -> bool {
        keys_unique(self.entries@)
    }

    /// The values of the store, by the text of their keys.
    pub closed spec fn view(&self) -> Map<Seq<char>, V> {
        entries_map(self.entries@)
    }

    /// An empty store.
    pub fn new() -> (r: Self)
        ensures
            r.view() == Map::<Seq<char>, V>::empty(),
    {
        let r = KeyedStore { entries: Vec::new() };
        assert(r.view() =~= Map::<Seq<char>, V>::empty());
        r
    }

    /// The position of the entry with the key `key`.
    fn position(&self, key: &str) -> (r: Option<usize>)
        ensures
            match r {
                Some(i) => i < self.entries@.len() && self.entries@[i as int].0@ == key@,
                None => !has_key(self.entries@, key@),
            },
    {
        let mut i: usize = 0;
        while i < self.entries.len()
            invariant
                i <= self.entries@.len(),
                forall|j: int| 0 <= j < i ==> (#[trigger] self.entries@[j].0@) != key@,
            decreases self.entries@.len() - i,
        {
            if str_eq(self.entries[i].0.as_str(), key) {
                return Some(i);
            }
            i = i + 1;
        }
        None
    }

    /// How many keys the store has.
    pub fn len(&self) -> (r: usize)
        ensures
            r == self.view().dom().len(),
    {
        proof {
            use_type_invariant(self);
            self.lemma_dom_len();
        }
        self.entries.len()
    }

    proof fn lemma_dom_len(&self)
        requires
            keys_unique(self.entries@),
        ensures
            self.view().dom().len() == self.entries@.len(),
            self.view().dom().finite(),
    {
        let s = self.entries@;
        let keys = Seq::new(s.len(), |i: int| s[i].0@);
        assert(keys.no_duplicates()) by {
            assert forall|i: int, j: int| 0 <= i < keys.len() && 0 <= j < keys.len() && i != j
                implies keys[i] != keys[j] by {
                if i < j {
                    assert(s[i].0@ != s[j].0@);
                } else {
                    assert(s[j].0@ != s[i].0@);
                }
            }
        }
        assert(self.view().dom() =~= keys.to_set()) by {
            assert forall|k: Seq<char>| self.view().dom().contains(k) implies keys.to_set().contains(
                k,
            ) by {
                let i = choose|i: int| 0 <= i < s.len() && (#[trigger] s[i].0@) == k;
                assert(keys[i] == k);
            }
            assert forall|k: Seq<char>| keys.to_set().contains(k) implies self.view().dom().contains(
                k,
            ) by {
                let i = choose|i: int| 0 <= i < keys.len() && keys[i] == k;
                assert(s[i].0@ == k);
            }
        }
        keys.unique_seq_to_set();
    }

    /// Whether the store has the key `key`.
    pub fn contains_key(&self, key: &str) -> (r: bool)
        ensures
            r == self.view().contains_key(key@),
    {
        self.position(key).is_some()
    }

    /// The value of the key `key`.
    pub fn get(&self, key: &str) -> (r: Option<&V>)
        ensures
            match r {
                Some(v) => self.view().contains_key(key@) && *v == self.view()[key@],
                None => !self.view().contains_key(key@),
            },
    {
        proof {
            use_type_invariant(self);
        }
        match self.position(key) {
            Some(i) => {
                proof {
                    lemma_entry_in_map(self.entries@, i as int);
                }
                Some(&self.entries[i].1)
            },
            None => None,
        }
    }

    /// Sets the value of the key `key`, in place of the one it had.
    pub fn insert(&mut self, key: String, value: V)
        ensures
            final(self).view() == old(self).view().insert(key@, value),
    {
        proof {
            use_type_invariant(&*self);
        }
        let ghost old_s = self.entries@;
        let found = self.position(key.as_str());
        let mut entries: Vec<(String, V)> = Vec::new();
        std::mem::swap(&mut entries, &mut self.entries);
        match found {
            Some(i) => {
                entries.set(i, (key, value));
                assert(keys_unique(entries@)) by {
                    assert forall|a: int, b: int| 0 <= a < b < entries@.len() implies (
                    #[trigger] entries@[a].0@) != (#[trigger] entries@[b].0@) by {
                        assert(old_s[a].0@ != old_s[b].0@);
                    }
                }
                self.entries = entries;
                proof {
                    let s = self.entries@;
                    assert(self.view() =~= entries_map(old_s).insert(key@, value)) by {
                        lemma_entry_in_map(s, i as int);
                        assert forall|k: Seq<char>| #[trigger]
                            entries_map(old_s).insert(key@, value).contains_key(k)
                            implies self.view().contains_key(k) && self.view()[k]
                            == entries_map(old_s).insert(key@, value)[k] by {
                            if k != key@ {
                                let j = choose|j: int|
                                    0 <= j < old_s.len() && (#[trigger] old_s[j].0@) == k;
                                lemma_entry_in_map(old_s, j);
                                lemma_entry_in_map(s, j);
                            }
                        }
                        assert forall|k: Seq<char>| #[trigger] self.view().contains_key(k)
                            implies entries_map(old_s).insert(key@, value).contains_key(k) by {
                            let j = choose|j: int| 0 <= j < s.len() && (#[trigger] s[j].0@) == k;
                            if j != i {
                                assert(old_s[j].0@ == k);
                            }
                        }
                    }
                }
            },
            None => {
                entries.push((key, value));
                assert(keys_unique(entries@)) by {
                    assert forall|a: int, b: int| 0 <= a < b < entries@.len() implies (
                    #[trigger] entries@[a].0@) != (#[trigger] entries@[b].0@) by {
                        if b < old_s.len() {
                            assert(old_s[a].0@ != old_s[b].0@);
                        } else {
                            assert(entries@[a] == old_s[a]);
                        }
                    }
                }
                self.entries = entries;
                proof {
                    let s = self.entries@;
                    let n = old_s.len() as int;
                    assert(self.view() =~= entries_map(old_s).insert(key@, value)) by {
                        lemma_entry_in_map(s, n);
                        assert forall|k: Seq<char>| #[trigger]
                            entries_map(old_s).insert(key@, value).contains_key(k)
                            implies self.view().contains_key(k) && self.view()[k]
                            == entries_map(old_s).insert(key@, value)[k] by {
                            if k != key@ {
                                let j = choose|j: int|
                                    0 <= j < old_s.len() && (#[trigger] old_s[j].0@) == k;
                                lemma_entry_in_map(old_s, j);
                                assert(s[j] == old_s[j]);
                                lemma_entry_in_map(s, j);
                            }
                        }
                        assert forall|k: Seq<char>| #[trigger] self.view().contains_key(k)
                            implies entries_map(old_s).insert(key@, value).contains_key(k) by {
                            let j = choose|j: int| 0 <= j < s.len() && (#[trigger] s[j].0@) == k;
                            if j != n {
                                assert(old_s[j].0@ == k);
                            }
                        }
                    }
                }
            },
        }
    }

    /// Removes the key `key`, giving back its value.
    pub fn remove(&mut self, key: &str) -> (r: Option<V>)
        ensures
            final(self).view() == old(self).view().remove(key@),
            match r {
                Some(v) => old(self).view().contains_key(key@) && v == old(self).view()[key@],
                None => !old(self).view().contains_key(key@),
            },
    {
        proof {
            use_type_invariant(&*self);
        }
        let ghost old_s = self.entries@;
        match self.position(key) {
            Some(i) => {
                let mut entries: Vec<(String, V)> = Vec::new();
                std::mem::swap(&mut entries, &mut self.entries);
                proof {
                    lemma_entry_in_map(old_s, i as int);
                    lemma_map_remove(old_s, i as int);
                }
                let (_, v) = entries.remove(i);
                self.entries = entries;
                Some(v)
            },
            None => {
                assert(self.view().remove(key@) =~= self.view());
                None
            },
        }
    }

    /// The keys of the store, each once.
    pub fn keys(&self) -> (r: Vec<String>)
        ensures
            r.deep_view().no_duplicates(),
            forall|k: Seq<char>| r.deep_view().contains(k) <==> self.view().contains_key(k),
    {
        proof {
            use_type_invariant(self);
        }
        let mut out: Vec<String> = Vec::new();
        let mut i: usize = 0;
        while i < self.entries.len()
            invariant
                i <= self.entries@.len(),
                keys_unique(self.entries@),
                out@.len() == i,
                forall|j: int| 0 <= j < i ==> (#[trigger] out@[j])@ == self.entries@[j].0@,
            decreases self.entries@.len() - i,
        {
            out.push(self.entries[i].0.clone());
            i = i + 1;
        }
        let ghost s = self.entries@;
        assert forall|a: int, b: int|
            0 <= a < out.deep_view().len() && 0 <= b < out.deep_view().len() && a != b implies
            out.deep_view()[a] != out.deep_view()[b] by {
            assert(out.deep_view()[a] == s[a].0@ && out.deep_view()[b] == s[b].0@);
            if a < b {
                assert(s[a].0@ != s[b].0@);
            } else {
                assert(s[b].0@ != s[a].0@);
            }
        }
        assert forall|k: Seq<char>| out.deep_view().contains(k) <==> self.view().contains_key(k) by {
            if out.deep_view().contains(k) {
                let j = choose|j: int| 0 <= j < out.deep_view().len() && out.deep_view()[j] == k;
                assert(s[j].0@ == k);
            }
            if self.view().contains_key(k) {
                let j = choose|j: int| 0 <= j < s.len() && (#[trigger] s[j].0@) == k;
                assert(out.deep_view()[j] == k);
            }
        }
        out
    }

    /// Removes every key that starts with `prefix`, giving back those
    /// entries; the others stay.
    pub fn remove_prefixed(&mut self, prefix: &str) -> (r: Vec<(String, V)>)
        ensures
            keys_unique(r@),
            entries_map(r@) == old(self).view().restrict(
                old(self).view().dom().filter(|k: Seq<char>| starts_with(k, prefix@)),
            ),
            final(self).view() == old(self).view().restrict(
                old(self).view().dom().filter(|k: Seq<char>| !starts_with(k, prefix@)),
            ),
    {
        proof {
            use_type_invariant(&*self);
        }
        let ghost s = self.entries@;
        let mut entries: Vec<(String, V)> = Vec::new();
        std::mem::swap(&mut entries, &mut self.entries);
        let mut kept: Vec<(String, V)> = Vec::new();
        let mut removed: Vec<(String, V)> = Vec::new();
        let ghost pre = |k: Seq<char>| starts_with(k, prefix@);
        let ghost not_pre = |k: Seq<char>| !starts_with(k, prefix@);
        let n = entries.len();
        let mut i: usize = 0;
        while i < n
            invariant
                n == s.len(),
                i <= n,
                keys_unique(s),
                entries@ == s.skip(i as int),
                pre == (|k: Seq<char>| starts_with(k, prefix@)),
                not_pre == (|k: Seq<char>| !starts_with(k, prefix@)),
                keys_unique(kept@),
                keys_unique(removed@),
                entries_map(kept@) == entries_map(s.take(i as int)).restrict(
                    entries_map(s.take(i as int)).dom().filter(not_pre),
                ),
                entries_map(removed@) == entries_map(s.take(i as int)).restrict(
                    entries_map(s.take(i as int)).dom().filter(pre),
                ),
            decreases n - i,
        {
            let e = entries.remove(0);
            proof {
                assert(e == s[i as int]);
                assert(entries@ =~= s.skip(i + 1));
                lemma_map_take(s, i as int);
            }
            let ghost m0 = entries_map(s.take(i as int));
            let ghost m1 = entries_map(s.take(i + 1));
            if starts_with_str(e.0.as_str(), prefix) {
                proof {
                    assert(!entries_map(removed@).contains_key(e.0@));
                    assert(!has_key(removed@, e.0@));
                    assert(keys_unique(removed@.push(e))) by {
                        assert forall|a: int, b: int| 0 <= a < b < removed@.push(e).len() implies (
                        #[trigger] removed@.push(e)[a].0@) != (#[trigger] removed@.push(e)[b].0@) by {
                            if b < removed@.len() {
                                assert(removed@[a].0@ != removed@[b].0@);
                            } else {
                                assert(removed@.push(e)[a] == removed@[a]);
                            }
                        }
                    }
                    lemma_map_push(removed@, e);
                    assert(m1.restrict(m1.dom().filter(pre)) =~= m0.restrict(m0.dom().filter(pre)).insert(e.0@, e.1));
                    assert(m1.restrict(m1.dom().filter(not_pre)) =~= m0.restrict(m0.dom().filter(not_pre)));
                }
                removed.push(e);
            } else {
                proof {
                    assert(!entries_map(kept@).contains_key(e.0@));
                    assert(!has_key(kept@, e.0@));
                    assert(keys_unique(kept@.push(e))) by {
                        assert forall|a: int, b: int| 0 <= a < b < kept@.push(e).len() implies (
                        #[trigger] kept@.push(e)[a].0@) != (#[trigger] kept@.push(e)[b].0@) by {
                            if b < kept@.len() {
                                assert(kept@[a].0@ != kept@[b].0@);
                            } else {
                                assert(kept@.push(e)[a] == kept@[a]);
                            }
                        }
                    }
                    lemma_map_push(kept@, e);
                    assert(m1.restrict(m1.dom().filter(not_pre)) =~= m0.restrict(m0.dom().filter(not_pre)).insert(e.0@, e.1));
                    assert(m1.restrict(m1.dom().filter(pre)) =~= m0.restrict(m0.dom().filter(pre)));
                }
                kept.push(e);
            }
            i = i + 1;
        }
        assert(s.take(n as int) =~= s);
        self.entries = kept;
        removed
    }

    /// Empties the store, giving back all its entries.
    pub fn take_all(&mut self) -> (r: Vec<(String, V)>)
        ensures
            keys_unique(r@),
            entries_map(r@) == old(self).view(),
            final(self).view() == Map::<Seq<char>, V>::empty(),
    {
        proof {
            use_type_invariant(&*self);
        }
        let mut entries: Vec<(String, V)> = Vec::new();
        std::mem::swap(&mut entries, &mut self.entries);
        assert(self.view() =~= Map::<Seq<char>, V>::empty());
        entries
    }

    /// A store of the given entries; of two entries with the same key, the
    /// later one counts.
    pub fn from_entries(entries: Vec<(String, V)>) -> (r: Self)
        ensures
            keys_unique(entries@) ==> r.view() == entries_map(entries@),
    {
        let ghost s = entries@;
        let mut store = KeyedStore::new();
        let mut rest = entries;
        let mut i: usize = 0;
        let n = rest.len();
        while i < n
            invariant
                n == s.len(),
                i <= n,
                rest@ == s.skip(i as int),
                keys_unique(s) ==> store.view() == entries_map(s.take(i as int)),
            decreases n - i,
        {
            let e = rest.remove(0);
            proof {
                assert(e == s[i as int]);
                assert(rest@ =~= s.skip(i + 1));
                if keys_unique(s) {
                    lemma_map_take(s, i as int);
                }
            }
            store.insert(e.0, e.1);
            i = i + 1;
        }
        assert(s.take(n as int) =~= s);
        store
    }
}

/// At most this many projects are remembered as recently opened.
pub const MAX_RECENT_PROJECTS: usize = 10;

/// The paths other than `path`.
pub open spec fn other_than(path: Seq<char>) -> spec_fn(Seq<char>) -> bool {
    |p: Seq<char>| p != path
}

/// The recent projects after opening `path`: it comes first, is not listed
/// twice, and the list keeps at most the ten latest.
pub open spec fn recent_after_open(list: Seq<Seq<char>>, path: Seq<char>) -> Seq<Seq<char>> {
    let full = seq![path] + list.filter(other_than(path));
    if full.len() > MAX_RECENT_PROJECTS {
        full.take(MAX_RECENT_PROJECTS as int)
    } else {
        full
    }
}

/// The paths of `list` other than `path`, in order.
fn paths_other_than(list: &Vec<String>, path: &str) -> (r: Vec<String>)
    ensures
        r.deep_view() == list.deep_view().filter(other_than(path@)),
{
    let ghost lv = list.deep_view();
    let mut out: Vec<String> = Vec::new();
    let mut i: usize = 0;
    while i < list.len()
        invariant
            lv == list.deep_view(),
            i <= list@.len(),
            out.deep_view() == lv.take(i as int).filter(other_than(path@)),
        decreases list@.len() - i,
    {
        proof {
            reveal(Seq::filter);
            assert(lv.take(i + 1).drop_last() =~= lv.take(i as int));
            assert(lv.take(i + 1).last() == list@[i as int]@);
        }
        if !str_eq(list[i].as_str(), path) {
            let ghost before = out.deep_view();
            out.push(list[i].clone());
            assert(out.deep_view() =~= before.push(list@[i as int]@));
        }
        i = i + 1;
    }
    assert(lv.take(list@.len() as int) =~= lv);
    out
}

/// Puts `path` first in the recent projects, drops its older place, and
/// keeps at most the ten latest.
pub fn open_recent_project(list: &mut Vec<String>, path: String)
    ensures
        final(list).deep_view() == recent_after_open(old(list).deep_view(), path@),
{
    let rest = paths_other_than(list, path.as_str());
    let mut out: Vec<String> = Vec::new();
    out.push(path);
    let ghost head = out.deep_view();
    let mut all = crate::model::append_strings(out, rest);
    if all.len() > MAX_RECENT_PROJECTS {
        all.truncate(MAX_RECENT_PROJECTS);
        assert(all.deep_view() =~= (head + old(list).deep_view().filter(other_than(path@))).take(
            MAX_RECENT_PROJECTS as int,
        ));
    }
    assert(head =~= seq![path@]);
    *list = all;
}

/// Drops `path` from the recent projects.
pub fn forget_recent_project(list: &mut Vec<String>, path: &str)
    ensures
        final(list).deep_view() == old(list).deep_view().filter(other_than(path@)),
{
    let rest = paths_other_than(list, path);
    *list = rest;
}

/// The values a store has for `key`, or none.
pub fn saved_pins(store: &KeyedStore<Vec<String>>, key: &str) -> (r: Vec<String>)
    ensures
        r.deep_view() == if store.view().contains_key(key@) {
            store.view()[key@].deep_view()
        } else {
            Seq::empty()
        },
{
    match store.get(key) {
        Some(v) => clone_strings(v),
        None => {
            let r: Vec<String> = Vec::new();
            assert(r.deep_view() =~= Seq::<Seq<char>>::empty());
            r
        },
    }
}

/// Copies of the scripts, in order.
fn copy_scripts(v: &Vec<ScriptInfo>) -> (r: Vec<ScriptInfo>)
    ensures
        r.deep_view() == v.deep_view(),
{
    let mut out: Vec<ScriptInfo> = Vec::new();
    let mut i: usize = 0;
    while i < v.len()
        invariant
            i <= v@.len(),
            out.deep_view() == v.deep_view().take(i as int),
        decreases v@.len() - i,
    {
        let ghost before = out.deep_view();
        out.push(copy_script(&v[i]));
        assert(v.deep_view().take(i + 1) =~= v.deep_view().take(i as int).push(v@[i as int].deep_view()));
        assert(out.deep_view() =~= before.push(v@[i as int].deep_view()));
        i = i + 1;
    }
    assert(v.deep_view().take(v@.len() as int) =~= v.deep_view());
    out
}

/// The custom commands a store has for `key`, or none.
pub fn saved_custom_commands(store: &KeyedStore<Vec<ScriptInfo>>, key: &str) -> (r: Vec<ScriptInfo>)
    ensures
        r.deep_view() == if store.view().contains_key(key@) {
            store.view()[key@].deep_view()
        } else {
            Seq::empty()
        },
{
    match store.get(key) {
        Some(v) => copy_scripts(v),
        None => {
            let r: Vec<ScriptInfo> = Vec::new();
            assert(r.deep_view() =~= Seq::<ScriptView>::empty());
            r
        },
    }
}

/// A custom command as it is saved: kept when its name and its command are
/// not blank, and then run by `custom` from the `Custom` source.
pub open spec fn cleaned_command(c: ScriptView) -> Option<ScriptView> {
    if trim(c.name).len() > 0 && trim(c.command).len() > 0 {
        Some(script_view(c.name, c.command, "custom"@, "Custom"@))
    } else {
        None
    }
}

/// The custom commands as they are saved, in order.
pub open spec fn cleaned_commands(commands: Seq<ScriptView>) -> Seq<ScriptView>
    decreases commands.len(),
{
    if commands.len() == 0 {
        Seq::empty()
    } else {
        let rest = cleaned_commands(commands.drop_last());
        match cleaned_command(commands.last()) {
            Some(c) => rest.push(c),
            None => rest,
        }
    }
}

/// The custom commands as they are saved: those with a name and a command
/// that are not blank, each run by `custom` from the `Custom` source.
pub fn clean_custom_commands(commands: Vec<ScriptInfo>) -> (r: Vec<ScriptInfo>)
    ensures
        r.deep_view() == cleaned_commands(commands.deep_view()),
{
    let ghost cv = commands.deep_view();
    let mut out: Vec<ScriptInfo> = Vec::new();
    let mut i: usize = 0;
    while i < commands.len()
        invariant
            cv == commands.deep_view(),
            i <= commands@.len(),
            out.deep_view() == cleaned_commands(cv.take(i as int)),
        decreases commands@.len() - i,
    {
        proof {
            assert(cv.take(i + 1).drop_last() =~= cv.take(i as int));
            assert(cv.take(i + 1).last() == commands@[i as int].deep_view());
        }
        let c = &commands[i];
        let name = trim_str(c.name.as_str());
        let command = trim_str(c.command.as_str());
        if !name.as_str().is_empty() && !command.as_str().is_empty() {
            let ghost before = out.deep_view();
            out.push(
                ScriptInfo {
                    name: c.name.clone(),
                    command: c.command.clone(),
                    package_manager: Some(owned("custom")),
                    source: Some(owned("Custom")),
                },
            );
            assert(out.deep_view() =~= before.push(
                script_view(cv[i as int].name, cv[i as int].command, "custom"@, "Custom"@),
            ));
        }
        i = i + 1;
    }
    assert(cv.take(commands@.len() as int) =~= cv);
    out
}

/// The position of the first command named `name`.
pub open spec fn first_named(commands: Seq<ScriptView>, name: Seq<char>) -> Option<int> {
    if exists|i: int| 0 <= i < commands.len() && #[trigger] commands[i].name == name {
        Some(
            choose|i: int|
                0 <= i < commands.len() && #[trigger] commands[i].name == name && forall|j: int|
                    0 <= j < i ==> commands[j].name != name,
        )
    } else {
        None
    }
}

/// The command line of a project's custom command: that of the first one
/// with the name, when it is not blank.
pub open spec fn custom_command_of(commands: Option<Seq<ScriptView>>, name: Seq<char>) -> Option<
    Seq<char>,
> {
    match commands {
        Some(cs) => match first_named(cs, name) {
            Some(i) => if trim(cs[i].command).len() > 0 {
                Some(cs[i].command)
            } else {
                None
            },
            None => None,
        },
        None => None,
    }
}

/// The command line of a project's custom command, or that there is none.
pub fn custom_script_command(commands: Option<&Vec<ScriptInfo>>, script_name: &str) -> (r: Result<
    String,
    String,
>)
    ensures
        match custom_command_of(
            match commands {
                Some(cs) => Some(cs.deep_view()),
                None => None,
            },
            script_name@,
        ) {
            Some(c) => r matches Ok(s) && s@ == c,
            None => r matches Err(e) && e@ == "Custom command '"@ + script_name@ + "' was not found"@,
        },
{
    let ghost cv: Option<Seq<ScriptView>> = match commands {
        Some(cs) => Some(cs.deep_view()),
        None => None,
    };
    if let Some(cs) = commands {
        let ghost v = cs.deep_view();
        assert(cv == Some(v));
        let mut i: usize = 0;
        while i < cs.len()
            invariant
                v == cs.deep_view(),
                commands == Some(cs),
                i <= cs@.len(),
                forall|j: int| 0 <= j < i ==> v[j].name != script_name@,
            decreases cs@.len() - i,
        {
            if str_eq(cs[i].name.as_str(), script_name) {
                proof {
                    assert(v[i as int].name == script_name@);
                    let w = choose|w: int|
                        0 <= w < v.len() && #[trigger] v[w].name == script_name@ && forall|j: int|
                            0 <= j < w ==> v[j].name != script_name@;
                    if w < i {
                        assert(v[w].name != script_name@);
                    } else if w > i {
                        assert(v[i as int].name != script_name@);
                    }
                    assert(first_named(v, script_name@) == Some(i as int));
                }
                let t = trim_str(cs[i].command.as_str());
                if !t.as_str().is_empty() {
                    return Ok(cs[i].command.clone());
                }
                return Err(crate::text::concat3("Custom command '", script_name, "' was not found"));
            }
            i = i + 1;
        }
        assert(!exists|j: int| 0 <= j < v.len() && #[trigger] v[j].name == script_name@);
        assert(first_named(v, script_name@) is None);
    }
    Err(crate::text::concat3("Custom command '", script_name, "' was not found"))
}

/// What a store gives after a value was set for a key: that value for the
/// key; every other key keeps what it had.
pub proof fn law_store_read_after_write<V>(
    before: Map<Seq<char>, V>,
    key: Seq<char>,
    value: V,
    other: Seq<char>,
)
    ensures
        before.insert(key, value).contains_key(key),
        before.insert(key, value)[key] == value,
        other != key ==> before.insert(key, value).contains_key(other) == before.contains_key(
            other,
        ),
        other != key && before.contains_key(other) ==> before.insert(key, value)[other]
            == before[other],
{
}

/// What a store gives after a key was removed: nothing for that key; every
/// other key keeps what it had.
pub proof fn law_store_remove<V>(before: Map<Seq<char>, V>, key: Seq<char>, other: Seq<char>)
    ensures
        !before.remove(key).contains_key(key),
        other != key ==> before.remove(key).contains_key(other) == before.contains_key(other),
        other != key && before.contains_key(other) ==> before.remove(key)[other] == before[other],
{
}

/// Removing the keys with a prefix splits a store in two: the entries given
/// back are exactly those with the prefix, those kept exactly the others.
pub proof fn law_remove_prefixed_splits<V>(before: Map<Seq<char>, V>, prefix: Seq<char>, k: Seq<char>)
    ensures
        ({
            let taken = before.restrict(before.dom().filter(|x: Seq<char>| starts_with(x, prefix)));
            let kept = before.restrict(before.dom().filter(|x: Seq<char>| !starts_with(x, prefix)));
            &&& before.contains_key(k) <==> (taken.contains_key(k) || kept.contains_key(k))
            &&& !(taken.contains_key(k) && kept.contains_key(k))
            &&& taken.contains_key(k) ==> taken[k] == before[k] && starts_with(k, prefix)
            &&& kept.contains_key(k) ==> kept[k] == before[k] && !starts_with(k, prefix)
        }),
{
}

/// A sequence without repeats keeps none when filtered.
proof fn lemma_filter_no_duplicates<A>(s: Seq<A>, pred: spec_fn(A) -> bool)
    requires
        s.no_duplicates(),
    ensures
        s.filter(pred).no_duplicates(),
    decreases s.len(),
{
    reveal(Seq::filter);
    if s.len() > 0 {
        let rest = s.drop_last();
        assert(rest.no_duplicates());
        lemma_filter_no_duplicates(rest, pred);
        if pred(s.last()) {
            let f = rest.filter(pred);
            assert(!f.contains(s.last())) by {
                if f.contains(s.last()) {
                    rest.lemma_filter_contains_rev(pred, s.last());
                    let j = choose|j: int| 0 <= j < rest.len() && rest[j] == s.last();
                    assert(s[j] == s[s.len() - 1]);
                }
            }
            assert forall|a: int, b: int|
                0 <= a < f.push(s.last()).len() && 0 <= b < f.push(s.last()).len() && a != b
                implies f.push(s.last())[a] != f.push(s.last())[b] by {
                if a < f.len() && b < f.len() {
                } else if a == f.len() {
                    assert(f[b] != s.last());
                } else {
                    assert(f[a] != s.last());
                }
            }
        }
    }
}

/// Opening a project puts it first, lists it once, keeps at most ten
/// projects, lists none it did not list before, and repeats none when it
/// repeated none.
pub proof fn law_recent_after_open(list: Seq<Seq<char>>, path: Seq<char>)
    ensures
        ({
            let r = recent_after_open(list, path);
            &&& 1 <= r.len() <= MAX_RECENT_PROJECTS
            &&& r[0] == path
            &&& forall|i: int| 1 <= i < r.len() ==> r[i] != path && list.contains(r[i])
            &&& list.no_duplicates() ==> r.no_duplicates()
        }),
{
    let f = list.filter(other_than(path));
    let full = seq![path] + f;
    let r = recent_after_open(list, path);
    assert forall|i: int| 1 <= i < r.len() implies r[i] != path && list.contains(r[i]) by {
        assert(r[i] == full[i]);
        assert(full[i] == f[i - 1]);
        list.lemma_filter_pred(other_than(path), i - 1);
        list.lemma_filter_contains_rev(other_than(path), f[i - 1]);
    }
    if list.no_duplicates() {
        lemma_filter_no_duplicates(list, other_than(path));
        assert forall|a: int, b: int| 0 <= a < r.len() && 0 <= b < r.len() && a != b implies r[a]
            != r[b] by {
            if a == 0 {
                assert(r[b] != path);
            } else if b == 0 {
                assert(r[a] != path);
            } else {
                assert(r[a] == f[a - 1] && r[b] == f[b - 1]);
            }
        }
    }
}

/// Filtering keeps a sequence whose items all pass.
proof fn lemma_filter_all_pass<A>(s: Seq<A>, pred: spec_fn(A) -> bool)
    requires
        forall|i: int| 0 <= i < s.len() ==> pred(s[i]),
    ensures
        s.filter(pred) == s,
    decreases s.len(),
{
    reveal(Seq::filter);
    if s.len() > 0 {
        lemma_filter_all_pass(s.drop_last(), pred);
        assert(s.drop_last().push(s.last()) =~= s);
    } else {
        assert(s.filter(pred) =~= s);
    }
}

/// Opening the project that was opened last changes nothing.
pub proof fn law_recent_open_again(list: Seq<Seq<char>>, path: Seq<char>)
    ensures
        recent_after_open(recent_after_open(list, path), path) == recent_after_open(list, path),
{
    let r = recent_after_open(list, path);
    law_recent_after_open(list, path);
    let tail = r.drop_first();
    assert(r =~= seq![path] + tail);
    assert(seq![path].filter(other_than(path)) =~= Seq::<Seq<char>>::empty()) by {
        reveal(Seq::filter);
        let e = Seq::<Seq<char>>::empty();
        assert(seq![path].drop_last() =~= e);
        assert(e.filter(other_than(path)) =~= e);
        assert(seq![path].last() == path);
    }
    Seq::filter_distributes_over_add(seq![path], tail, other_than(path));
    lemma_filter_all_pass(tail, other_than(path));
    assert(r.filter(other_than(path)) =~= tail);
    assert(seq![path] + r.filter(other_than(path)) =~= r);
}

/// Forgetting a project leaves it out and keeps the others in order.
pub proof fn law_forget_recent(list: Seq<Seq<char>>, path: Seq<char>)
    ensures
        !list.filter(other_than(path)).contains(path),
        forall|q: Seq<char>| q != path ==> (list.filter(other_than(path)).contains(q) <==> list.contains(q)),
{
    let f = list.filter(other_than(path));
    if f.contains(path) {
        let i = choose|i: int| 0 <= i < f.len() && f[i] == path;
        list.lemma_filter_pred(other_than(path), i);
    }
    assert forall|q: Seq<char>| q != path implies (f.contains(q) <==> list.contains(q)) by {
        if f.contains(q) {
            list.lemma_filter_contains_rev(other_than(path), q);
        }
        if list.contains(q) {
            let i = choose|i: int| 0 <= i < list.len() && list[i] == q;
            list.lemma_filter_contains(other_than(path), i);
        }
    }
}

} // verus!
