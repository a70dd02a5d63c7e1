//! A map from texts to texts that keeps the order in which the keys came.

use vstd::prelude::*;

use crate::text::same_text;

verus! {

/// Keys with their values, each key held once, oldest key first.
pub struct TextMap {
    entries: Vec<(String, String)>,
}

/// A key and its value.
pub type Entry = (Seq<char>, Seq<char>);

/// Some entry has the key.
pub open spec fn has_key(entries: Seq<Entry>, key: Seq<char>) -> bool {
    exists|i: int| 0 <= i < entries.len() && (#[trigger] entries[i]).0 == key
}

/// No two entries have the same key.
pub open spec fn unique_keys(entries: Seq<Entry>) -> bool {
    forall|i: int, j: int|
        0 <= i < j < entries.len() ==> (#[trigger] entries[i]).0 != (#[trigger] entries[j]).0
}

/// The map that the entries make up.
pub open spec fn as_map(entries: Seq<Entry>) -> Map<Seq<char>, Seq<char>>
    decreases entries.len(),
{
    if entries.len() == 0 {
        Map::empty()
    } else {
        as_map(entries.drop_last()).insert(entries.last().0, entries.last().1)
    }
}

/// The entries with one more: a key that is there already keeps its place and takes the new value.
pub open spec fn with_entry(entries: Seq<Entry>, key: Seq<char>, value: Seq<char>) -> Seq<Entry> {
    if has_key(entries, key) {
        entries.map_values(
            |e: Entry|
                if e.0 == key {
                    (key, value)
                } else {
                    e
                },
        )
    } else {
        entries.push((key, value))
    }
}

/// The map has the keys of the entries, each with the value that stands beside it.
pub proof fn lemma_as_map(entries: Seq<Entry>)
    requires
        unique_keys(entries),
    ensures
        forall|k: Seq<char>| #[trigger] as_map(entries).contains_key(k) <==> has_key(entries, k),
        forall|i: int|
            0 <= i < entries.len() ==> as_map(entries)[(#[trigger] entries[i]).0] == entries[i].1,
    decreases entries.len(),
{
    if entries.len() > 0 {
        let front = entries.drop_last();
        assert(unique_keys(front));
        lemma_as_map(front);
        assert forall|k: Seq<char>| #[trigger] as_map(entries).contains_key(k) implies has_key(
            entries,
            k,
        ) by {
            if k == entries.last().0 {
                assert(entries[entries.len() - 1].0 == k);
            } else {
                assert(as_map(front).contains_key(k));
                let i = choose|i: int| 0 <= i < front.len() && (#[trigger] front[i]).0 == k;
                assert(entries[i].0 == k);
            }
        }
        assert forall|k: Seq<char>| has_key(entries, k) implies #[trigger] as_map(
            entries,
        ).contains_key(k) by {
            let i = choose|i: int| 0 <= i < entries.len() && (#[trigger] entries[i]).0 == k;
            if i < front.len() {
                assert(front[i].0 == k);
                assert(has_key(front, k));
            }
        }
        assert forall|i: int| 0 <= i < entries.len() implies as_map(entries)[(
        #[trigger] entries[i]).0] == entries[i].1 by {
            if i < front.len() {
                assert(front[i] == entries[i]);
                assert(has_key(front, entries[i].0));
            }
        }
    }
}

pub proof fn lemma_with_entry(entries: Seq<Entry>, key: Seq<char>, value: Seq<char>)
    requires
        unique_keys(entries),
    ensures
        unique_keys(with_entry(entries, key, value)),
        as_map(with_entry(entries, key, value)) == as_map(entries).insert(key, value),
{
    let after = with_entry(entries, key, value);
    if has_key(entries, key) {
        assert forall|i: int| 0 <= i < after.len() implies (#[trigger] after[i]).0
            == entries[i].0 by {}
        assert(unique_keys(after));
        lemma_as_map(entries);
        lemma_as_map(after);
        assert forall|k: Seq<char>| has_key(after, k) == has_key(entries, k) by {
            if has_key(after, k) {
                let i = choose|i: int| 0 <= i < after.len() && (#[trigger] after[i]).0 == k;
                assert(entries[i].0 == k);
            }
            if has_key(entries, k) {
                let i = choose|i: int| 0 <= i < entries.len() && (#[trigger] entries[i]).0 == k;
                assert(after[i].0 == k);
            }
        }
        assert forall|k: Seq<char>| as_map(after).contains_key(k) implies #[trigger] as_map(
            after,
        )[k] == as_map(entries).insert(key, value)[k] by {
            assert(has_key(after, k));
            let i = choose|i: int| 0 <= i < after.len() && (#[trigger] after[i]).0 == k;
            assert(entries[i].0 == k);
        }
        assert(as_map(after) =~= as_map(entries).insert(key, value));
    } else {
        assert(after.drop_last() == entries);
        assert forall|i: int, j: int| 0 <= i < j < after.len() implies (#[trigger] after[i]).0 != (
        #[trigger] after[j]).0 by {
            assert(entries[i].0 == after[i].0);
        }
    }
}

impl View for TextMap {
    type V = Map<Seq<char>, Seq<char>>;

    open spec fn view(&self) -> Map<Seq<char>, Seq<char>> {
        as_map(self.order())
    }
}

impl TextMap {
    /// The entries in the order in which their keys came.
    pub closed spec fn order(&self) -> Seq<Entry> {
        self.entries@.map_values(|e: (String, String)| (e.0@, e.1@))
    }

    /// Each key is held once.
    pub open spec fn wf(&self) -> bool {
        unique_keys(self.order())
    }

    /// No entries.
    pub fn new() -> (map: TextMap)
        ensures
            map.wf(),
            map.order() == Seq::<Entry>::empty(),
            map@ == Map::<Seq<char>, Seq<char>>::empty(),
    {
        let map = TextMap { entries: Vec::new() };
        assert(map.order() == Seq::<Entry>::empty());
        map
    }

    /// How many entries there are.
    pub fn len(&self) -> (len: usize)
        ensures
            len == self.order().len(),
    {
        self.entries.len()
    }

    /// The entry at an index.
    pub fn entry(&self, i: usize) -> (entry: (&str, &str))
        requires
            i < self.order().len(),
        ensures
            (entry.0@, entry.1@) == self.order()[i as int],
    {
        (self.entries[i].0.as_str(), self.entries[i].1.as_str())
    }

    /// Where the key stands, `None` if it is not there.
    fn position(&self, key: &str) -> (position: Option<usize>)
        ensures
            position is Some <==> has_key(self.order(), key@),
            position matches Some(i) ==> i < self.order().len() && self.order()[i as int].0 == key@,
    {
        let mut i: usize = 0;
        while i < self.entries.len()
            invariant
                i <= self.entries.len(),
                forall|j: int| 0 <= j < i ==> (#[trigger] self.order()[j]).0 != key@,
            decreases self.entries.len() - i,
        {
            if same_text(self.entries[i].0.as_str(), key) {
                assert(self.order()[i as int].0 == key@);
                return Some(i);
            }
            i = i + 1;
        }
        None
    }

    /// The value of a key, `None` if the key is not there.
    pub fn get(&self, key: &str) -> (value: Option<&str>)
        requires
            self.wf(),
        ensures
            value is Some <==> self@.contains_key(key@),
            value matches Some(v) ==> v@ == self@[key@],
    {
        proof {
            lemma_as_map(self.order());
        }
        match self.position(key) {
            Some(i) => {
                assert(self.order()[i as int].1 == self.entries@[i as int].1@);
                Some(self.entries[i].1.as_str())
            },
            None => None,
        }
    }

    /// Gives the key a value; an older value is dropped.
    pub fn insert(&mut self, key: String, value: String)
        requires
            old(self).wf(),
        ensures
            final(self).wf(),
            final(self).order() == with_entry(old(self).order(), key@, value@),
            final(self)@ == old(self)@.insert(key@, value@),
    {
        let ghost (k, v) = (key@, value@);
        let ghost before = self.order();
        proof {
            lemma_with_entry(before, k, v);
        }
        match self.position(key.as_str()) {
            Some(i) => {
                self.entries[i] = (key, value);
                assert(self.order() =~= with_entry(before, k, v)) by {
                    assert forall|j: int| 0 <= j < before.len() implies self.order()[j]
                        == with_entry(before, k, v)[j] by {
                        if j < i {
                            assert(before[j].0 != before[i as int].0);
                        } else if i < j {
                            assert(before[i as int].0 != before[j].0);
                        }
                    }
                }
            },
            None => {
                self.entries.push((key, value));
                assert(self.order() =~= before.push((k, v)));
            },
        }
    }
}

} // verus!
