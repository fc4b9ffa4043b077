//! A small map from strings to values, kept as a list in which no key
//! occurs twice. Entries stay in the order in which their keys first came.

use vstd::prelude::*;
use vstd::string::*;

verus! {

/// The map that a list of entries stands for, a later entry winning over an
/// earlier one with the same key.
pub open spec fn assoc<V: View>(entries: Seq<(String, V)>) -> Map<Seq<char>, V::V>
    decreases entries.len(),
{
    if entries.len() == 0 {
        Map::empty()
    } else {
        assoc(entries.drop_last()).insert(entries.last().0@, entries.last().1@)
    }
}

/// No key occurs twice in the list.
pub open spec fn distinct_keys<V>(entries: Seq<(String, V)>) -> bool {
    forall|i: int, j: int|
        0 <= i < j < entries.len() ==> (#[trigger] entries[i]).0@ != (#[trigger] entries[j]).0@
}

/// In a list without repeated keys, the map holds exactly the list's keys,
/// each with the value that stands beside it.
pub proof fn assoc_of_distinct<V: View>(entries: Seq<(String, V)>)
    requires
        distinct_keys(entries),
    ensures
        forall|i: int|
            0 <= i < entries.len() ==> assoc(entries).contains_key((#[trigger] entries[i]).0@)
                && assoc(entries)[entries[i].0@] == entries[i].1@,
        forall|k: Seq<char>| #[trigger]
            assoc(entries).contains_key(k) ==> exists|i: int|
                0 <= i < entries.len() && (#[trigger] entries[i]).0@ == k,
        assoc(entries).dom().finite(),
        assoc(entries).dom().len() == entries.len(),
    decreases entries.len(),
{
    if entries.len() > 0 {
        let front = entries.drop_last();
        assoc_of_distinct(front);
        let last = entries.last();
        assert forall|i: int| 0 <= i < entries.len() implies assoc(entries).contains_key(
            (#[trigger] entries[i]).0@,
        ) && assoc(entries)[entries[i].0@] == entries[i].1@ by {
            if i < entries.len() - 1 {
                assert(front[i] == entries[i]);
                assert(entries[i].0@ != entries[entries.len() - 1].0@);
            }
        }
        assert forall|k: Seq<char>| #[trigger] assoc(entries).contains_key(k) implies exists|i: int|
            0 <= i < entries.len() && (#[trigger] entries[i]).0@ == k by {
            if k == last.0@ {
                assert(entries[entries.len() - 1].0@ == k);
            } else {
                assert(assoc(front).contains_key(k));
                let i = choose|i: int| 0 <= i < front.len() && (#[trigger] front[i]).0@ == k;
                assert(entries[i].0@ == k);
            }
        }
        if assoc(front).contains_key(last.0@) {
            let i = choose|i: int| 0 <= i < front.len() && (#[trigger] front[i]).0@ == last.0@;
            assert(entries[i].0@ == entries[entries.len() - 1].0@);
        }
        assert(assoc(entries).dom() =~= assoc(front).dom().insert(last.0@));
    }
}

/// Replacing the value beside a key changes the map at that key alone.
pub proof fn assoc_of_update<V: View>(entries: Seq<(String, V)>, at: int, entry: (String, V))
    requires
        distinct_keys(entries),
        0 <= at < entries.len(),
        entry.0@ == entries[at].0@,
    ensures
        distinct_keys(entries.update(at, entry)),
        assoc(entries.update(at, entry)) == assoc(entries).insert(entry.0@, entry.1@),
    decreases entries.len(),
{
    let updated = entries.update(at, entry);
    assert(distinct_keys(updated)) by {
        assert forall|i: int, j: int| 0 <= i < j < updated.len() implies (#[trigger] updated[i]).0@
            != (#[trigger] updated[j]).0@ by {
            assert(updated[i].0@ == entries[i].0@);
            assert(updated[j].0@ == entries[j].0@);
        }
    }
    let front = entries.drop_last();
    if at == entries.len() - 1 {
        assert(updated.drop_last() =~= front);
        assert(assoc(updated) =~= assoc(entries).insert(entry.0@, entry.1@));
    } else {
        assert(updated.drop_last() =~= front.update(at, entry));
        assert(front[at] == entries[at]);
        assoc_of_update(front, at, entry);
        assert(entries[at].0@ != entries[entries.len() - 1].0@);
        assert(updated.last() == entries.last());
        assert(assoc(updated) =~= assoc(entries).insert(entry.0@, entry.1@));
    }
}

/// A map from strings to values.
pub struct TextMap<V> {
    entries: Vec<(String, V)>,
}

impl<V: View> View for TextMap<V> {
    type V = Map<Seq<char>, V::V>;

    open spec fn view(&self) -> Map<Seq<char>, V::V> {
        assoc(self.listing())
    }
}

impl<V> TextMap<V> {
    #[verifier::type_invariant]
    spec fn keys_are_distinct(self) -> bool {
        distinct_keys(self.entries@)
    }

    /// The entries in the order in which their keys first came.
    pub closed spec fn listing(self) -> Seq<(String, V)> {
        self.entries@
    }
}

impl<V: View> TextMap<V> {
    /// A map without entries.
    pub fn new() -> (map: Self)
        ensures
            map@ == Map::<Seq<char>, V::V>::empty(),
            map.listing().len() == 0,
    {
        TextMap { entries: Vec::new() }
    }

    /// The number of entries.
    pub fn len(&self) -> (n: usize)
        ensures
            n == self@.dom().len(),
            n == self.listing().len(),
            distinct_keys(self.listing()),
    {
        proof {
            use_type_invariant(self);
            assoc_of_distinct(self.entries@);
        }
        self.entries.len()
    }

    /// Whether the map has no entry.
    pub fn is_empty(&self) -> (empty: bool)
        ensures
            empty == (self@.dom().len() == 0),
            empty == (self@ == Map::<Seq<char>, V::V>::empty()),
    {
        proof {
            use_type_invariant(self);
            assoc_of_distinct(self.entries@);
            if self.entries@.len() == 0 {
                assert(self@ =~= Map::<Seq<char>, V::V>::empty());
            } else {
                assert(self@.contains_key(self.entries@[0].0@));
            }
        }
        self.entries.len() == 0
    }

    /// Where `key` stands in the list, if it does.
    fn position(&self, key: &str) -> (at: Option<usize>)
        ensures
            match at {
                Some(i) => i < self.entries@.len() && self.entries@[i as int].0@ == key@,
                None => forall|i: int|
                    0 <= i < self.entries@.len() ==> (#[trigger] self.entries@[i]).0@ != key@,
            },
    {
        let wanted = String::from_str(key);
        let mut i: usize = 0;
        while i < self.entries.len()
            invariant
                0 <= i <= self.entries@.len(),
                wanted@ == key@,
                forall|j: int| 0 <= j < i ==> (#[trigger] self.entries@[j]).0@ != key@,
            decreases self.entries.len() - i,
        {
            if self.entries[i].0 == wanted {
                return Some(i);
            }
            i = i + 1;
        }
        None
    }

    /// Whether `key` has a value.
    pub fn contains_key(&self, key: &str) -> (found: bool)
        ensures
            found == self@.contains_key(key@),
    {
        proof {
            use_type_invariant(self);
            assoc_of_distinct(self.entries@);
        }
        self.position(key).is_some()
    }

    /// The value of `key`, if it has one.
    pub fn get(&self, key: &str) -> (value: Option<&V>)
        ensures
            match value {
                Some(v) => self@.contains_key(key@) && self@[key@] == v@,
                None => !self@.contains_key(key@),
            },
    {
        proof {
            use_type_invariant(self);
            assoc_of_distinct(self.entries@);
        }
        match self.position(key) {
            Some(i) => Some(&self.entries[i].1),
            None => None,
        }
    }

    /// The map with `key` given the value `value`, in place of the one it
    /// had if it had one.
    pub fn with(self, key: String, value: V) -> (map: Self)
        ensures
            map@ == self@.insert(key@, value@),
            forall|i: int|
                0 <= i < self.listing().len() && (#[trigger] self.listing()[i]).0@ == key@
                    ==> map.listing() == self.listing().update(i, (key, value)),
            !self@.contains_key(key@) ==> map.listing() == self.listing().push((key, value)),
    {
        proof {
            use_type_invariant(&self);
            assoc_of_distinct(self.entries@);
        }
        let at = self.position(key.as_str());
        let ghost before = self.entries@;
        let mut entries = self.entries;
        match at {
            Some(i) => {
                proof {
                    assoc_of_update(before, i as int, (key, value));
                }
                entries.set(i, (key, value));
            },
            None => {
                entries.push((key, value));
                assert(entries@.drop_last() =~= before);
                assert(distinct_keys(entries@)) by {
                    assert forall|i: int, j: int| 0 <= i < j < entries@.len() implies (
                    #[trigger] entries@[i]).0@ != (#[trigger] entries@[j]).0@ by {
                        assert(entries@[i] == before[i]);
                        if j < before.len() {
                            assert(entries@[j] == before[j]);
                        }
                    }
                }
            },
        }
        TextMap { entries }
    }

    /// Gives `key` the value `value`, in place of the one it had if it had
    /// one.
    pub fn insert(&mut self, key: String, value: V)
        ensures
            final(self)@ == old(self)@.insert(key@, value@),
            forall|i: int|
                0 <= i < old(self).listing().len() && (#[trigger] old(self).listing()[i]).0@ == key@
                    ==> final(self).listing() == old(self).listing().update(i, (key, value)),
            !old(self)@.contains_key(key@) ==> final(self).listing() == old(self).listing().push(
                (key, value),
            ),
    {
        let mut taken = TextMap::new();
        std::mem::swap(self, &mut taken);
        *self = taken.with(key, value);
    }

    /// The key of the entry at position `i` of the listing.
    pub fn key_at(&self, i: usize) -> (key: &String)
        requires
            i < self.listing().len(),
        ensures
            *key == self.listing()[i as int].0,
    {
        &self.entries[i].0
    }

    /// The value of the entry at position `i` of the listing.
    pub fn value_at(&self, i: usize) -> (value: &V)
        requires
            i < self.listing().len(),
        ensures
            *value == self.listing()[i as int].1,
    {
        &self.entries[i].1
    }
}

impl<V: View> Default for TextMap<V> {
    fn default() -> (map: Self)
        ensures
            map@ == Map::<Seq<char>, V::V>::empty(),
    {
        TextMap::new()
    }
}

} // verus!
