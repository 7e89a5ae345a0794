//! A map from strings to strings, kept as a list of entries with distinct keys.

use crate::text::same;
use vstd::prelude::*;

verus! {

/// A map from strings to strings. Its view is a `Map<Seq<char>, Seq<char>>`.
#[derive(Debug)]
pub struct StringMap {
    entries: Vec<(String, String)>,
}

/// No two entries have the same key.
pub open spec fn distinct_keys(entries: Seq<(String, String)>) -> bool {
    forall|i: int, j: int|
        0 <= i < j < entries.len() ==> (#[trigger] entries[i]).0@ != (#[trigger] entries[j]).0@
}

/// The map that a list of entries stands for; a later entry takes the place of an earlier one.
pub open spec fn entries_map(entries: Seq<(String, String)>) -> Map<Seq<char>, Seq<char>>
    decreases entries.len(),
{
    if entries.len() == 0 {
        Map::empty()
    } else {
        entries_map(entries.drop_last()).insert(entries.last().0@, entries.last().1@)
    }
}

/// The list holds the entries of a map, each once.
pub open spec fn lists(entries: Seq<(String, String)>, map: Map<Seq<char>, Seq<char>>) -> bool {
    distinct_keys(entries) && entries_map(entries) == map
}

/// A key is in the map where an entry has it, and with distinct keys it has that entry's value.
pub proof fn lemma_listed_entry(entries: Seq<(String, String)>, key: Seq<char>)
    ensures
        entries_map(entries).contains_key(key) <==> exists|i: int|
            0 <= i < entries.len() && (#[trigger] entries[i]).0@ == key,
        distinct_keys(entries) ==> forall|i: int|
            0 <= i < entries.len() && (#[trigger] entries[i]).0@ == key ==> entries_map(
                entries,
            )[key] == entries[i].1@,
    decreases entries.len(),
{
    if entries.len() > 0 {
        let head = entries.drop_last();
        lemma_listed_entry(head, key);
        assert(forall|i: int| 0 <= i < head.len() ==> head[i] == entries[i]);
        if entries.last().0@ == key {
            assert(entries[entries.len() - 1].0@ == key);
        } else if entries_map(head).contains_key(key) {
            let i = choose|i: int| 0 <= i < head.len() && (#[trigger] head[i]).0@ == key;
            assert(entries[i].0@ == key);
        }
        if entries_map(entries).contains_key(key) && entries.last().0@ != key {
            assert(entries_map(head).contains_key(key));
        }
        if distinct_keys(entries) {
            assert(distinct_keys(head));
            assert forall|i: int|
                0 <= i < entries.len() && (#[trigger] entries[i]).0@ == key implies entries_map(
                entries,
            )[key] == entries[i].1@ by {
                if i < entries.len() - 1 {
                    assert(head[i].0@ == key);
                    assert(entries[i].0@ != entries[entries.len() - 1].0@);
                }
            }
        }
    }
}

/// The entries that have neither the key `key` nor the value `wanted`.
spec fn kept_entries(
    entries: Seq<(String, String)>,
    key: Seq<char>,
    wanted: Option<Seq<char>>,
) -> Seq<(String, String)>
    decreases entries.len(),
{
    if entries.len() == 0 {
        Seq::empty()
    } else {
        let head = kept_entries(entries.drop_last(), key, wanted);
        let last = entries.last();
        if last.0@ == key || wanted == Some(last.1@) {
            head
        } else {
            head.push(last)
        }
    }
}

proof fn lemma_kept_entries(
    entries: Seq<(String, String)>,
    key: Seq<char>,
    wanted: Option<Seq<char>>,
)
    requires
        distinct_keys(entries),
    ensures
        distinct_keys(kept_entries(entries, key, wanted)),
        entries_map(kept_entries(entries, key, wanted)) == entries_map(entries).remove(
            key,
        ).remove_keys(keys_with_value(entries_map(entries), wanted)),
    decreases entries.len(),
{
    let kept = kept_entries(entries, key, wanted);
    let all = entries_map(entries);
    if entries.len() > 0 {
        let head = entries.drop_last();
        let last = entries.last();
        let kept_head = kept_entries(head, key, wanted);
        let before = entries_map(head);
        assert(distinct_keys(head));
        lemma_kept_entries(head, key, wanted);
        lemma_listed_entry(head, last.0@);
        if before.contains_key(last.0@) {
            let i = choose|i: int| 0 <= i < head.len() && (#[trigger] head[i]).0@ == last.0@;
            assert(entries[i].0@ == entries[entries.len() - 1].0@);
        }
        if !(last.0@ == key || wanted == Some(last.1@)) {
            assert(kept.drop_last() == kept_head);
            lemma_listed_entry(kept_head, last.0@);
            assert forall|i: int, j: int| 0 <= i < j < kept.len() implies (#[trigger] kept[i]).0@
                != (#[trigger] kept[j]).0@ by {
                if j == kept.len() - 1 {
                    assert(kept_head[i].0@ != last.0@);
                } else {
                    assert(kept_head[i] == kept[i] && kept_head[j] == kept[j]);
                }
            }
        }
        assert(entries_map(kept) =~= all.remove(key).remove_keys(keys_with_value(all, wanted)));
    } else {
        assert(entries_map(kept) =~= all.remove(key).remove_keys(keys_with_value(all, wanted)));
    }
}

impl View for StringMap {
    type V = Map<Seq<char>, Seq<char>>;

    closed spec fn view(&self) -> Map<Seq<char>, Seq<char>> {
        entries_map(self.entries@)
    }
}

impl StringMap {
    #[verifier::type_invariant]
    spec fn keys_are_distinct(self) -> bool {
        distinct_keys(self.entries@)
    }

    /// The entries in the order in which their keys came in.
    pub closed spec fn listed(&self) -> Seq<(String, String)> {
        self.entries@
    }

    /// The empty map.
    pub fn new() -> (map: StringMap)
        ensures
            map@ == Map::<Seq<char>, Seq<char>>::empty(),
    {
        StringMap { entries: Vec::new() }
    }

    /// The position of the entry with the given key.
    fn position(entries: &Vec<(String, String)>, key: &str) -> (at: Option<usize>)
        ensures
            match at {
                Some(i) => i < entries@.len() && entries@[i as int].0@ == key@,
                None => forall|i: int|
                    0 <= i < entries@.len() ==> (#[trigger] entries@[i]).0@ != key@,
            },
    {
        let mut i: usize = 0;
        while i < entries.len()
            invariant
                i <= entries@.len(),
                forall|j: int| 0 <= j < i ==> (#[trigger] entries@[j]).0@ != key@,
            decreases entries@.len() - i,
        {
            if same(&entries[i].0, key) {
                return Some(i);
            }
            i += 1;
        }
        None
    }

    /// The value of a key.
    pub fn get(&self, key: &str) -> (value: Option<&String>)
        ensures
            match value {
                Some(v) => self@.contains_key(key@) && self@[key@] == v@,
                None => !self@.contains_key(key@),
            },
    {
        proof {
            use_type_invariant(self);
            lemma_listed_entry(self.entries@, key@);
        }
        match Self::position(&self.entries, key) {
            Some(i) => Some(&self.entries[i].1),
            None => None,
        }
    }

    /// Whether the map has the key.
    pub fn contains_key(&self, key: &str) -> (has: bool)
        ensures
            has == self@.contains_key(key@),
    {
        match self.get(key) {
            Some(_) => true,
            None => false,
        }
    }

    /// Gives `key` the value `value`.
    pub fn insert(&mut self, key: String, value: String)
        ensures
            final(self)@ == old(self)@.insert(key@, value@),
    {
        proof {
            use_type_invariant(&*self);
        }
        let mut entries: Vec<(String, String)> = Vec::new();
        let ghost before = self.entries@;
        core::mem::swap(&mut entries, &mut self.entries);
        let ghost k = key@;
        let ghost v = value@;
        match Self::position(&entries, &key) {
            Some(i) => {
                entries[i] = (key, value);
                proof {
                    assert forall|x: Seq<char>| #[trigger]
                        entries_map(entries@).contains_key(x) <==> entries_map(before).insert(
                            k,
                            v,
                        ).contains_key(x) by {
                        lemma_listed_entry(entries@, x);
                        lemma_listed_entry(before, x);
                        if x == k {
                            assert(entries@[i as int].0@ == x);
                        } else {
                            if entries_map(before).contains_key(x) {
                                let j = choose|j: int|
                                    0 <= j < before.len() && (#[trigger] before[j]).0@ == x;
                                assert(entries@[j].0@ == x);
                            }
                            if entries_map(entries@).contains_key(x) {
                                let j = choose|j: int|
                                    0 <= j < entries@.len() && (#[trigger] entries@[j]).0@ == x;
                                assert(before[j].0@ == x);
                            }
                        }
                    }
                    assert forall|x: Seq<char>| #[trigger]
                        entries_map(entries@).contains_key(x) implies entries_map(entries@)[x]
                        == entries_map(before).insert(k, v)[x] by {
                        lemma_listed_entry(entries@, x);
                        lemma_listed_entry(before, x);
                        let j = choose|j: int|
                            0 <= j < entries@.len() && (#[trigger] entries@[j]).0@ == x;
                        if x == k {
                            assert(entries@[i as int].0@ == x);
                        } else {
                            assert(before[j].0@ == x);
                        }
                    }
                    assert(entries_map(entries@) =~= entries_map(before).insert(k, v));
                }
            },
            None => {
                entries.push((key, value));
                proof {
                    assert(entries@.drop_last() == before);
                }
            },
        }
        self.entries = entries;
    }

    /// Takes out the entries that have the given key or, where `value` is given, that value.
    fn without(entries: &Vec<(String, String)>, key: &str, value: Option<&str>) -> (kept: Vec<
        (String, String),
    >)
        requires
            distinct_keys(entries@),
        ensures
            distinct_keys(kept@),
            entries_map(kept@) == entries_map(entries@).remove(key@).remove_keys(
                keys_with_value(
                    entries_map(entries@),
                    match value {
                        Some(v) => Some(v@),
                        None => None,
                    },
                ),
            ),
    {
        let mut kept: Vec<(String, String)> = Vec::new();
        let ghost wanted = match value {
            Some(v) => Some(v@),
            None => None,
        };
        let mut i: usize = 0;
        while i < entries.len()
            invariant
                i <= entries@.len(),
                wanted == (match value {
                    Some(v) => Some(v@),
                    None => None,
                }),
                kept@ == kept_entries(entries@.take(i as int), key@, wanted),
            decreases entries@.len() - i,
        {
            let drop_it: bool = same(&entries[i].0, key) || match value {
                Some(v) => same(&entries[i].1, v),
                None => false,
            };
            if !drop_it {
                kept.push((entries[i].0.clone(), entries[i].1.clone()));
            }
            i += 1;
            assert(entries@.take(i as int).drop_last() == entries@.take(i - 1));
        }
        assert(entries@.take(entries@.len() as int) == entries@);
        proof {
            lemma_kept_entries(entries@, key@, wanted);
        }
        kept
    }

    /// Takes a key out.
    pub fn remove(&mut self, key: &str)
        ensures
            final(self)@ == old(self)@.remove(key@),
    {
        proof {
            use_type_invariant(&*self);
        }
        let kept = Self::without(&self.entries, key, None);
        self.entries = kept;
        assert(self@ =~= old(self)@.remove(key@));
    }

    /// Takes out a key, and every key that has the given value.
    pub fn remove_key_and_value(&mut self, key: &str, value: &str)
        ensures
            final(self)@ == old(self)@.remove(key@).remove_keys(
                keys_with_value(old(self)@, Some(value@)),
            ),
    {
        proof {
            use_type_invariant(&*self);
        }
        let kept = Self::without(&self.entries, key, Some(value));
        self.entries = kept;
    }

    /// A copy of the map.
    pub fn copy(&self) -> (map: StringMap)
        ensures
            map@ == self@,
            map.listed() == self.listed(),
    {
        proof {
            use_type_invariant(self);
        }
        let mut entries: Vec<(String, String)> = Vec::new();
        let mut i: usize = 0;
        while i < self.entries.len()
            invariant
                i <= self.entries@.len(),
                entries@ == self.entries@.take(i as int),
            decreases self.entries@.len() - i,
        {
            entries.push((self.entries[i].0.clone(), self.entries[i].1.clone()));
            i += 1;
            assert(self.entries@.take(i as int) == self.entries@.take(i - 1).push(
                self.entries@[i - 1],
            ));
        }
        assert(entries@ == self.entries@);
        StringMap { entries }
    }

    /// The number of entries.
    pub fn len(&self) -> (n: usize)
        ensures
            n == self.listed().len(),
            distinct_keys(self.listed()),
            self@ == entries_map(self.listed()),
    {
        proof {
            use_type_invariant(self);
        }
        self.entries.len()
    }

    /// The key of the entry at a position.
    pub fn key_at(&self, i: usize) -> (key: &String)
        requires
            i < self.listed().len(),
        ensures
            key@ == self.listed()[i as int].0@,
    {
        &self.entries[i].0
    }

    /// The value of the entry at a position.
    pub fn value_at(&self, i: usize) -> (value: &String)
        requires
            i < self.listed().len(),
        ensures
            value@ == self.listed()[i as int].1@,
    {
        &self.entries[i].1
    }
}

/// The keys that a map gives the value `value`; none where `value` is not given.
pub open spec fn keys_with_value(
    map: Map<Seq<char>, Seq<char>>,
    value: Option<Seq<char>>,
) -> Set<Seq<char>> {
    match value {
        Some(v) => map.dom().filter(|k: Seq<char>| map[k] == v),
        None => Set::empty(),
    }
}

/// The value that a map has for a key, where it has one.
pub open spec fn looked_up(map: Map<Seq<char>, Seq<char>>, key: Seq<char>) -> Option<Seq<char>> {
    if map.contains_key(key) {
        Some(map[key])
    } else {
        None
    }
}

/// Each entry of a list is found under its key, and a key that is in no entry is not found.
pub proof fn law_entries_are_found_by_key(entries: Seq<(String, String)>, key: Seq<char>)
    requires
        distinct_keys(entries),
    ensures
        forall|i: int|
            0 <= i < entries.len() ==> looked_up(
                entries_map(entries),
                (#[trigger] entries[i]).0@,
            ) == Some(entries[i].1@),
        (forall|i: int| 0 <= i < entries.len() ==> (#[trigger] entries[i]).0@ != key) ==> looked_up(
            entries_map(entries),
            key,
        ) is None,
    decreases entries.len(),
{
    if entries.len() > 0 {
        let head = entries.drop_last();
        assert forall|i: int, j: int| 0 <= i < j < head.len() implies (#[trigger] head[i]).0@ != (
        #[trigger] head[j]).0@ by {
            assert(entries[i].0@ != entries[j].0@);
        }
        law_entries_are_found_by_key(head, key);
        assert forall|i: int| 0 <= i < entries.len() implies looked_up(
            entries_map(entries),
            (#[trigger] entries[i]).0@,
        ) == Some(entries[i].1@) by {
            if i < head.len() {
                assert(head[i] == entries[i]);
                assert(entries[i].0@ != entries[entries.len() - 1].0@);
            }
        }
        if forall|i: int| 0 <= i < entries.len() ==> (#[trigger] entries[i]).0@ != key {
            assert(entries[entries.len() - 1].0@ != key);
            assert forall|i: int| 0 <= i < head.len() implies (#[trigger] head[i]).0@ != key by {
                assert(entries[i].0@ != key);
            }
        }
    }
}

/// What is looked up is what the map holds, and the keys of a value are those that the map leads to it.
pub proof fn law_lookup_is_what_map_holds(
    map: Map<Seq<char>, Seq<char>>,
    key: Seq<char>,
    value: Seq<char>,
)
    ensures
        looked_up(map, key) is Some <==> map.contains_key(key),
        map.contains_key(key) ==> looked_up(map, key) == Some(map[key]),
        keys_with_value(map, Some(value)).contains(key) <==> map.contains_key(key) && map[key]
            == value,
        !keys_with_value(map, None).contains(key),
{
}

} // verus!
