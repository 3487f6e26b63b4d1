//! The key/value pairs that enrichers attach to a listing.

use vstd::prelude::*;
use crate::text::same;

verus! {

/// A map from enrichment keys to values. Every key occurs once.
#[derive(Debug)]
pub struct Enrichments {
    entries: Vec<(String, String)>,
}

/// Whether one of `entries` has the key `key`.
pub open spec fn has_key(entries: Seq<(String, String)>, key: Seq<char>) -> bool {
    exists|i: int| 0 <= i < entries.len() && (#[trigger] entries[i]).0@ == key
}

/// The place of an entry with the key `key`.
pub open spec fn index_of(entries: Seq<(String, String)>, key: Seq<char>) -> int {
    choose|i: int| 0 <= i < entries.len() && (#[trigger] entries[i]).0@ == key
}

/// Whether no two of `entries` share a key.
pub open spec fn unique_keys(entries: Seq<(String, String)>) -> bool {
    forall|i: int, j: int|
        0 <= i < entries.len() && 0 <= j < entries.len() && i != j ==> (#[trigger] entries[i]).0@
            != (#[trigger] entries[j]).0@
}

/// The map that a list of entries with unique keys stands for.
pub open spec fn map_of(entries: Seq<(String, String)>) -> Map<Seq<char>, Seq<char>> {
    Map::new(|k: Seq<char>| has_key(entries, k), |k: Seq<char>| entries[index_of(entries, k)].1@)
}

/// With unique keys, the entry at `i` is the one found for its key.
pub proof fn lemma_map_of_entry(entries: Seq<(String, String)>, i: int)
    requires
        unique_keys(entries),
        0 <= i < entries.len(),
    ensures
        map_of(entries).contains_key(entries[i].0@),
        map_of(entries)[entries[i].0@] == entries[i].1@,
{
    let k = entries[i].0@;
    assert(has_key(entries, k));
    let j = index_of(entries, k);
    assert(0 <= j < entries.len() && entries[j].0@ == k);
    assert(j == i);
}

/// Adding an entry with a new key inserts it into the map.
pub proof fn lemma_map_of_push(entries: Seq<(String, String)>, entry: (String, String))
    requires
        unique_keys(entries),
        !has_key(entries, entry.0@),
    ensures
        unique_keys(entries.push(entry)),
        map_of(entries.push(entry)) == map_of(entries).insert(entry.0@, entry.1@),
{
    let after = entries.push(entry);
    assert forall|i: int, j: int|
        0 <= i < after.len() && 0 <= j < after.len() && i != j implies (#[trigger] after[i]).0@ != (
    #[trigger] after[j]).0@ by {
        if i < entries.len() {
            assert(after[i] == entries[i]);
        }
        if j < entries.len() {
            assert(after[j] == entries[j]);
        }
    }
    let expected = map_of(entries).insert(entry.0@, entry.1@);
    assert forall|k: Seq<char>| map_of(after).contains_key(k) <==> expected.contains_key(k) by {
        if has_key(after, k) {
            let i = index_of(after, k);
            if i < entries.len() {
                assert(entries[i] == after[i]);
            }
        }
        if has_key(entries, k) {
            let i = index_of(entries, k);
            assert(after[i] == entries[i]);
        }
        if k == entry.0@ {
            assert(after[entries.len() as int] == entry);
        }
    }
    assert forall|k: Seq<char>| map_of(after).contains_key(k) implies map_of(after)[k]
        == expected[k] by {
        let i = index_of(after, k);
        lemma_map_of_entry(after, i);
        if i < entries.len() {
            assert(entries[i] == after[i]);
            lemma_map_of_entry(entries, i);
        }
    }
    assert(map_of(after) =~= expected);
}

/// Replacing the value of the entry at `i` updates the map at its key.
pub proof fn lemma_map_of_update(entries: Seq<(String, String)>, i: int, entry: (String, String))
    requires
        unique_keys(entries),
        0 <= i < entries.len(),
        entries[i].0@ == entry.0@,
    ensures
        unique_keys(entries.update(i, entry)),
        map_of(entries.update(i, entry)) == map_of(entries).insert(entry.0@, entry.1@),
{
    let after = entries.update(i, entry);
    assert forall|a: int, b: int|
        0 <= a < after.len() && 0 <= b < after.len() && a != b implies (#[trigger] after[a]).0@ != (
    #[trigger] after[b]).0@ by {
        assert(after[a].0@ == entries[a].0@);
        assert(after[b].0@ == entries[b].0@);
    }
    let expected = map_of(entries).insert(entry.0@, entry.1@);
    assert forall|k: Seq<char>| map_of(after).contains_key(k) <==> expected.contains_key(k) by {
        if has_key(after, k) {
            let j = index_of(after, k);
            assert(entries[j].0@ == after[j].0@);
        }
        if has_key(entries, k) {
            let j = index_of(entries, k);
            assert(after[j].0@ == entries[j].0@);
        }
        if k == entry.0@ {
            assert(after[i] == entry);
        }
    }
    assert forall|k: Seq<char>| map_of(after).contains_key(k) implies map_of(after)[k]
        == expected[k] by {
        let j = index_of(after, k);
        lemma_map_of_entry(after, j);
        if j != i {
            assert(entries[j] == after[j]);
            lemma_map_of_entry(entries, j);
        }
    }
    assert(map_of(after) =~= expected);
}

impl View for Enrichments {
    type V = Map<Seq<char>, Seq<char>>;

    closed spec fn view(&self) -> Map<Seq<char>, Seq<char>> {
        map_of(self.entries@)
    }
}

impl Enrichments {
    #[verifier::type_invariant]
    spec fn well_formed(self) -> bool {
        unique_keys(self.entries@)
    }

    /// No enrichments.
    pub fn new() -> (r: Enrichments)
        ensures
            r@ == Map::<Seq<char>, Seq<char>>::empty(),
    {
        let r = Enrichments { entries: Vec::new() };
        assert(r@ =~= Map::<Seq<char>, Seq<char>>::empty());
        r
    }

    /// Where the entry for `key` is, if there is one.
    fn position(&self, key: &str) -> (r: Option<usize>)
        ensures
            r matches Some(i) ==> i < self.entries.len() && self.entries@[i as int].0@ == key@,
            r is None ==> !has_key(self.entries@, key@),
    {
        let mut i: usize = 0;
        while i < self.entries.len()
            invariant
                i <= self.entries.len(),
                forall|j: int| 0 <= j < i ==> (#[trigger] self.entries@[j]).0@ != key@,
            decreases self.entries.len() - i,
        {
            if same(self.entries[i].0.as_str(), key) {
                return Some(i);
            }
            i += 1;
        }
        None
    }

    /// Whether there is a value for `key`.
    pub fn contains_key(&self, key: &str) -> (r: bool)
        ensures
            r == self@.contains_key(key@),
    {
        proof {
            use_type_invariant(self);
        }
        match self.position(key) {
            Some(i) => {
                proof {
                    lemma_map_of_entry(self.entries@, i as int);
                }
                true
            },
            None => false,
        }
    }

    /// The value for `key`, if there is one.
    pub fn get(&self, key: &str) -> (r: Option<&String>)
        ensures
            r matches Some(v) ==> self@.contains_key(key@) && v@ == self@[key@],
            r is None ==> !self@.contains_key(key@),
    {
        proof {
            use_type_invariant(self);
        }
        match self.position(key) {
            Some(i) => {
                proof {
                    lemma_map_of_entry(self.entries@, i as int);
                }
                Some(&self.entries[i].1)
            },
            None => None,
        }
    }

    /// Sets the value for `key`, replacing an earlier one.
    pub fn insert(&mut self, key: String, value: String)
        ensures
            final(self)@ == old(self)@.insert(key@, value@),
    {
        proof {
            use_type_invariant(&*self);
        }
        let found = self.position(key.as_str());
        let mut entries: Vec<(String, String)> = Vec::new();
        core::mem::swap(&mut self.entries, &mut entries);
        match found {
            Some(i) => {
                proof {
                    lemma_map_of_update(entries@, i as int, (key, value));
                }
                entries.set(i, (key, value));
            },
            None => {
                proof {
                    lemma_map_of_push(entries@, (key, value));
                }
                entries.push((key, value));
            },
        }
        core::mem::swap(&mut self.entries, &mut entries);
    }

    /// Whether there are no enrichments.
    pub fn is_empty(&self) -> (r: bool)
        ensures
            r == (self@ == Map::<Seq<char>, Seq<char>>::empty()),
    {
        proof {
            use_type_invariant(self);
            if self.entries@.len() > 0 {
                lemma_map_of_entry(self.entries@, 0);
            } else {
                assert(self@ =~= Map::<Seq<char>, Seq<char>>::empty());
            }
        }
        self.entries.len() == 0
    }

    /// The entries, each key once.
    pub fn entries(&self) -> (out: Vec<(String, String)>)
        ensures
            unique_keys(out@),
            map_of(out@) == self@,
    {
        proof {
            use_type_invariant(self);
        }
        let mut out: Vec<(String, String)> = Vec::new();
        let mut i: usize = 0;
        while i < self.entries.len()
            invariant
                i <= self.entries.len(),
                out@ == self.entries@.take(i as int),
            decreases self.entries.len() - i,
        {
            let key = self.entries[i].0.clone();
            let value = self.entries[i].1.clone();
            out.push((key, value));
            assert(out@ =~= self.entries@.take(i + 1));
            i += 1;
        }
        assert(out@ =~= self.entries@);
        out
    }

    /// Adds every entry of `other`, replacing the values of keys that both
    /// have.
    pub fn merge(&mut self, other: &Enrichments)
        ensures
            final(self)@ == old(self)@.union_prefer_right(other@),
    {
        let added = other.entries();
        let mut i: usize = 0;
        assert(self@ =~= old(self)@.union_prefer_right(map_of(added@.take(0))));
        while i < added.len()
            invariant
                i <= added.len(),
                unique_keys(added@),
                self@ == old(self)@.union_prefer_right(map_of(added@.take(i as int))),
            decreases added.len() - i,
        {
            let key = added[i].0.clone();
            let value = added[i].1.clone();
            proof {
                let before = added@.take(i as int);
                assert(added@.take(i + 1) =~= before.push(added@[i as int]));
                assert(unique_keys(before)) by {
                    assert forall|a: int, b: int|
                        0 <= a < before.len() && 0 <= b < before.len() && a != b implies (
                    #[trigger] before[a]).0@ != (#[trigger] before[b]).0@ by {
                        assert(before[a] == added@[a]);
                        assert(before[b] == added@[b]);
                    }
                }
                assert(!has_key(before, added@[i as int].0@)) by {
                    if has_key(before, added@[i as int].0@) {
                        let j = index_of(before, added@[i as int].0@);
                        assert(before[j] == added@[j]);
                    }
                }
                lemma_map_of_push(before, added@[i as int]);
            }
            self.insert(key, value);
            assert(self@ =~= old(self)@.union_prefer_right(map_of(added@.take(i + 1))));
            i += 1;
        }
        assert(added@.take(added@.len() as int) =~= added@);
    }
}

impl Clone for Enrichments {
    fn clone(&self) -> (r: Enrichments)
        ensures
            r@ == self@,
    {
        let mut r = Enrichments::new();
        r.merge(self);
        assert(r@ =~= self@);
        r
    }
}

} // verus!
