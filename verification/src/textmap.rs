//! A map from strings to values of any type, kept as a list of entries with distinct keys.

use crate::text::same;
use vstd::prelude::*;

verus! {

/// A map from strings to values. Its view is a `Map<Seq<char>, V>`.
#[verifier::reject_recursive_types(V)]
#[derive(Debug)]
pub struct TextMap<V> {
    entries: Vec<(String, V)>,
}

/// No two entries have the same key.
pub open spec fn keys_differ<V>(entries: Seq<(String, V)>) -> bool {
    forall|i: int, j: int|
        0 <= i < j < entries.len() ==> (#[trigger] entries[i]).0@ != (#[trigger] entries[j]).0@
}

/// The map that a list of entries stands for.
pub open spec fn map_of_entries<V>(entries: Seq<(String, V)>) -> Map<Seq<char>, V>
    decreases entries.len(),
{
    if entries.len() == 0 {
        Map::empty()
    } else {
        map_of_entries(entries.drop_last()).insert(entries.last().0@, entries.last().1)
    }
}

/// The keys of the map are those of its entries, and where these differ, so are the values.
pub proof fn lemma_map_of_entries<V>(entries: Seq<(String, V)>, key: Seq<char>)
    ensures
        map_of_entries(entries).contains_key(key) <==> exists|i: int|
            0 <= i < entries.len() && (#[trigger] entries[i]).0@ == key,
        keys_differ(entries) ==> forall|i: int|
            0 <= i < entries.len() && (#[trigger] entries[i]).0@ == key ==> map_of_entries(
                entries,
            )[key] == entries[i].1,
    decreases entries.len(),
{
    if entries.len() > 0 {
        let head = entries.drop_last();
        lemma_map_of_entries(head, key);
        assert(forall|i: int| 0 <= i < head.len() ==> head[i] == entries[i]);
        if entries.last().0@ == key {
            assert(entries[entries.len() - 1].0@ == key);
        } else if map_of_entries(head).contains_key(key) {
            let i = choose|i: int| 0 <= i < head.len() && (#[trigger] head[i]).0@ == key;
            assert(entries[i].0@ == key);
        }
        if map_of_entries(entries).contains_key(key) && entries.last().0@ != key {
            assert(map_of_entries(head).contains_key(key));
        }
        if keys_differ(entries) {
            assert(keys_differ(head));
            assert forall|i: int|
                0 <= i < entries.len() && (#[trigger] entries[i]).0@ == key implies map_of_entries(
                entries,
            )[key] == entries[i].1 by {
                if i < entries.len() - 1 {
                    assert(head[i].0@ == key);
                    assert(entries[i].0@ != entries[entries.len() - 1].0@);
                }
            }
        }
    }
}

impl<V> View for TextMap<V> {
    type V = Map<Seq<char>, V>;

    closed spec fn view(&self) -> Map<Seq<char>, V> {
        map_of_entries(self.entries@)
    }
}

impl<V> TextMap<V> {
    #[verifier::type_invariant]
    spec fn keys_are_distinct(self) -> bool {
        keys_differ(self.entries@)
    }

    /// The empty map.
    pub fn new() -> (map: TextMap<V>)
        ensures
            map@ == Map::<Seq<char>, V>::empty(),
    {
        TextMap { entries: Vec::new() }
    }

    fn position(entries: &Vec<(String, V)>, key: &str) -> (at: Option<usize>)
        ensures
            match at {
                Some(i) => i < entries@.len() && entries@[i as int].0@ == key@,
                None => forall|i: int|
                    0 <= i < entries@.len() ==> (#[trigger] entries@[i]).0@ != key@,
            },
    {
        let mut i: usize = 0;
        while i < entries.len()
            invariant
                i <= entries@.len(),
                forall|j: int| 0 <= j < i ==> (#[trigger] entries@[j]).0@ != key@,
            decreases entries@.len() - i,
        {
            if same(&entries[i].0, key) {
                return Some(i);
            }
            i += 1;
        }
        None
    }

    /// The value of a key.
    pub fn get(&self, key: &str) -> (value: Option<&V>)
        ensures
            match value {
                Some(v) => self@.contains_key(key@) && self@[key@] == *v,
                None => !self@.contains_key(key@),
            },
    {
        proof {
            use_type_invariant(self);
            lemma_map_of_entries(self.entries@, key@);
        }
        match Self::position(&self.entries, key) {
            Some(i) => Some(&self.entries[i].1),
            None => None,
        }
    }

    /// Takes a key out, and hands its value back.
    pub fn remove(&mut self, key: &str) -> (value: Option<V>)
        ensures
            final(self)@ == old(self)@.remove(key@),
            match value {
                Some(v) => old(self)@.contains_key(key@) && old(self)@[key@] == v,
                None => !old(self)@.contains_key(key@),
            },
    {
        proof {
            use_type_invariant(&*self);
            lemma_map_of_entries(self.entries@, key@);
        }
        let mut entries: Vec<(String, V)> = Vec::new();
        let ghost before = self.entries@;
        core::mem::swap(&mut entries, &mut self.entries);
        match Self::position(&entries, key) {
            Some(i) => {
                let taken = entries.remove(i);
                proof {
                    lemma_remove_entry(before, i as int);
                }
                self.entries = entries;
                Some(taken.1)
            },
            None => {
                self.entries = entries;
                assert(self@ =~= old(self)@.remove(key@));
                None
            },
        }
    }

    /// Gives `key` the value `value`.
    pub fn insert(&mut self, key: String, value: V)
        ensures
            final(self)@ == old(self)@.insert(key@, value),
    {
        let ghost before = self@;
        let _ = self.remove(&key);
        proof {
            use_type_invariant(&*self);
            lemma_map_of_entries(self.entries@, key@);
        }
        let mut entries: Vec<(String, V)> = Vec::new();
        let ghost kept = self.entries@;
        core::mem::swap(&mut entries, &mut self.entries);
        let ghost k = key@;
        entries.push((key, value));
        proof {
            assert(entries@.drop_last() == kept);
            assert forall|i: int, j: int| 0 <= i < j < entries@.len() implies (
            #[trigger] entries@[i]).0@ != (#[trigger] entries@[j]).0@ by {
                if j == entries@.len() - 1 {
                    assert(kept[i].0@ != k);
                } else {
                    assert(kept[i] == entries@[i] && kept[j] == entries@[j]);
                }
            }
        }
        self.entries = entries;
        assert(self@ =~= before.insert(k, value));
    }

    /// The number of keys.
    pub fn len(&self) -> (n: usize)
        ensures
            n == self.listed().len(),
            keys_differ(self.listed()),
            map_of_entries(self.listed()) == self@,
    {
        proof {
            use_type_invariant(self);
        }
        self.entries.len()
    }

    /// The key of an entry.
    pub fn key_at(&self, i: usize) -> (key: &String)
        requires
            i < self.listed().len(),
        ensures
            *key == self.listed()[i as int].0,
    {
        &self.entries[i].0
    }

    /// The value of an entry.
    pub fn value_at(&self, i: usize) -> (value: &V)
        requires
            i < self.listed().len(),
        ensures
            *value == self.listed()[i as int].1,
    {
        &self.entries[i].1
    }

    /// The entries in some order.
    pub closed spec fn listed(&self) -> Seq<(String, V)> {
        self.entries@
    }
}

proof fn lemma_remove_entry<V>(entries: Seq<(String, V)>, at: int)
    requires
        keys_differ(entries),
        0 <= at < entries.len(),
    ensures
        keys_differ(entries.remove(at)),
        map_of_entries(entries.remove(at)) == map_of_entries(entries).remove(entries[at].0@),
{
    let rest = entries.remove(at);
    let key = entries[at].0@;
    assert forall|i: int, j: int| 0 <= i < j < rest.len() implies (#[trigger] rest[i]).0@ != (
    #[trigger] rest[j]).0@ by {
        let a = if i < at {
            i
        } else {
            i + 1
        };
        let b = if j < at {
            j
        } else {
            j + 1
        };
        assert(rest[i] == entries[a] && rest[j] == entries[b]);
    }
    let all = map_of_entries(entries);
    let left = map_of_entries(rest);
    assert forall|x: Seq<char>| #[trigger]
        left.contains_key(x) <==> all.remove(key).contains_key(x) by {
        lemma_map_of_entries(entries, x);
        lemma_map_of_entries(rest, x);
        if left.contains_key(x) {
            let i = choose|i: int| 0 <= i < rest.len() && (#[trigger] rest[i]).0@ == x;
            let a = if i < at {
                i
            } else {
                i + 1
            };
            assert(entries[a].0@ == x);
            assert(entries[a].0@ != entries[at].0@);
        }
        if all.remove(key).contains_key(x) {
            let i = choose|i: int| 0 <= i < entries.len() && (#[trigger] entries[i]).0@ == x;
            if i < at {
                assert(rest[i].0@ == x);
            } else {
                assert(rest[i - 1].0@ == x);
            }
        }
    }
    assert forall|x: Seq<char>| #[trigger] left.contains_key(x) implies left[x] == all.remove(
        key,
    )[x] by {
        lemma_map_of_entries(entries, x);
        lemma_map_of_entries(rest, x);
        let i = choose|i: int| 0 <= i < rest.len() && (#[trigger] rest[i]).0@ == x;
        let a = if i < at {
            i
        } else {
            i + 1
        };
        assert(entries[a].0@ == x);
    }
    assert(left =~= all.remove(key));
}

/// Each entry of a list is found under its key, and a key that is in no entry is not found.
pub proof fn law_values_are_found_by_key<V>(entries: Seq<(String, V)>, key: Seq<char>)
    requires
        keys_differ(entries),
    ensures
        forall|i: int|
            0 <= i < entries.len() ==> map_of_entries(entries).contains_key(
                (#[trigger] entries[i]).0@,
            ) && map_of_entries(entries)[entries[i].0@] == entries[i].1,
        (forall|i: int| 0 <= i < entries.len() ==> (#[trigger] entries[i]).0@ != key)
            ==> !map_of_entries(entries).contains_key(key),
    decreases entries.len(),
{
    if entries.len() > 0 {
        let head = entries.drop_last();
        assert forall|i: int, j: int| 0 <= i < j < head.len() implies (#[trigger] head[i]).0@ != (
        #[trigger] head[j]).0@ by {
            assert(entries[i].0@ != entries[j].0@);
        }
        law_values_are_found_by_key(head, key);
        assert forall|i: int| 0 <= i < entries.len() implies map_of_entries(entries).contains_key(
            (#[trigger] entries[i]).0@,
        ) && map_of_entries(entries)[entries[i].0@] == entries[i].1 by {
            if i < head.len() {
                assert(head[i] == entries[i]);
                assert(entries[i].0@ != entries[entries.len() - 1].0@);
            }
        }
        if forall|i: int| 0 <= i < entries.len() ==> (#[trigger] entries[i]).0@ != key {
            assert(entries[entries.len() - 1].0@ != key);
            assert forall|i: int| 0 <= i < head.len() implies (#[trigger] head[i]).0@ != key by {
                assert(entries[i].0@ != key);
            }
        }
    }
}

} // verus!
