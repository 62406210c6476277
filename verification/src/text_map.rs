//! A map from texts to values that hands its values out by move.
use vstd::prelude::*;

use crate::text::same_text;

verus! {

/// The map that a list of entries stands for; of two entries under one key the later counts.
pub open spec fn entries_map<V>(entries: Seq<(String, V)>) -> Map<Seq<char>, V>
    decreases entries.len(),
{
    if entries.len() == 0 {
        Map::empty()
    } else {
        entries_map(entries.drop_last()).insert(entries.last().0@, entries.last().1)
    }
}

/// No two entries have the same key.
pub open spec fn keys_are_distinct<V>(entries: Seq<(String, V)>) -> bool {
    forall|i: int, j: int|
        0 <= i < j < entries.len() ==> #[trigger] entries[i].0@ != #[trigger] entries[j].0@
}

proof fn lemma_entry<V>(entries: Seq<(String, V)>, index: int)
    requires
        keys_are_distinct(entries),
        0 <= index < entries.len(),
    ensures
        entries_map(entries).contains_key(entries[index].0@),
        entries_map(entries)[entries[index].0@] == entries[index].1,
    decreases entries.len(),
{
    if index < entries.len() - 1 {
        lemma_entry(entries.drop_last(), index);
        assert(entries.drop_last()[index] == entries[index]);
    }
}

proof fn lemma_key<V>(entries: Seq<(String, V)>, key: Seq<char>)
    requires
        entries_map(entries).contains_key(key),
    ensures
        exists|i: int| 0 <= i < entries.len() && #[trigger] entries[i].0@ == key,
    decreases entries.len(),
{
    if entries.last().0@ == key {
        assert(entries[entries.len() - 1].0@ == key);
    } else {
        lemma_key(entries.drop_last(), key);
        let i = choose|i: int|
            0 <= i < entries.drop_last().len() && #[trigger] entries.drop_last()[i].0@ == key;
        assert(entries[i].0@ == key);
    }
}

/// A map from texts to values. Keys are compared by their characters.
pub struct TextMap<V> {
    entries: Vec<(String, V)>,
}

impl<V> View for TextMap<V> {
    type V = Map<Seq<char>, V>;

    closed spec fn view(&self) -> Map<Seq<char>, V> {
        entries_map(self.entries@)
    }
}

impl<V: DeepView> DeepView for TextMap<V> {
    type V = Map<Seq<char>, V::V>;

    open spec fn deep_view(&self) -> Map<Seq<char>, V::V> {
        self@.map_values(|value: V| value.deep_view())
    }
}

impl<V> TextMap<V> {
    /// Every key stands in at most one entry.
    pub closed spec fn wf(&self) -> bool {
        keys_are_distinct(self.entries@)
    }

    /// The empty map.
    pub fn new() -> (map: Self)
        ensures
            map.wf(),
            map@ == Map::<Seq<char>, V>::empty(),
    {
        TextMap { entries: Vec::new() }
    }

    /// The index of the entry under a key.
    fn position(&self, key: &str) -> (index: Option<usize>)
        requires
            self.wf(),
        ensures
            match index {
                Some(i) => i < self.entries@.len() && self.entries@[i as int].0@ == key@
                    && self@.contains_key(key@) && self@[key@] == self.entries@[i as int].1,
                None => !self@.contains_key(key@) && forall|j: int|
                    0 <= j < self.entries@.len() ==> #[trigger] self.entries@[j].0@ != key@,
            },
    {
        let mut index: usize = 0;
        while index < self.entries.len()
            invariant
                index <= self.entries@.len(),
                self.wf(),
                forall|j: int| 0 <= j < index ==> #[trigger] self.entries@[j].0@ != key@,
            decreases self.entries@.len() - index,
        {
            if same_text(self.entries[index].0.as_str(), key) {
                proof {
                    lemma_entry(self.entries@, index as int);
                }
                return Some(index);
            }
            index = index + 1;
        }
        proof {
            if self@.contains_key(key@) {
                lemma_key(self.entries@, key@);
            }
        }
        None
    }

    /// Whether there is a value under a key.
    pub fn contains_key(&self, key: &str) -> (found: bool)
        requires
            self.wf(),
        ensures
            found == self@.contains_key(key@),
    {
        self.position(key).is_some()
    }

    /// The value under a key.
    pub fn get(&self, key: &str) -> (value: Option<&V>)
        requires
            self.wf(),
        ensures
            match value {
                Some(found) => self@.contains_key(key@) && *found == self@[key@],
                None => !self@.contains_key(key@),
            },
    {
        match self.position(key) {
            Some(index) => Some(&self.entries[index].1),
            None => None,
        }
    }

    /// Takes the value under a key out of the map.
    pub fn remove(&mut self, key: &str) -> (value: Option<V>)
        requires
            old(self).wf(),
        ensures
            final(self).wf(),
            final(self)@ == old(self)@.remove(key@),
            match value {
                Some(taken) => old(self)@.contains_key(key@) && taken == old(self)@[key@],
                None => !old(self)@.contains_key(key@),
            },
    {
        let ghost before = self.entries@;
        match self.position(key) {
            Some(index) => {
                let (_, value) = self.entries.remove(index);
                proof {
                    let after = self.entries@;
                    assert(after == before.remove(index as int));
                    assert forall|i: int, j: int| 0 <= i < j < after.len() implies #[trigger] after[i].0@
                        != #[trigger] after[j].0@ by {
                        let a = if i < index {
                            i
                        } else {
                            i + 1
                        };
                        let b = if j < index {
                            j
                        } else {
                            j + 1
                        };
                        assert(after[i] == before[a] && after[j] == before[b]);
                    }
                    let smaller = entries_map(before).remove(key@);
                    assert forall|k: Seq<char>| entries_map(after).contains_key(k)
                        == smaller.contains_key(k) by {
                        if entries_map(after).contains_key(k) {
                            lemma_key(after, k);
                            let i = choose|i: int| 0 <= i < after.len() && #[trigger] after[i].0@ == k;
                            let a = if i < index {
                                i
                            } else {
                                i + 1
                            };
                            assert(after[i] == before[a]);
                            lemma_entry(before, a);
                            assert(before[a].0@ != before[index as int].0@);
                        }
                        if smaller.contains_key(k) {
                            lemma_key(before, k);
                            let a = choose|a: int|
                                0 <= a < before.len() && #[trigger] before[a].0@ == k;
                            let i = if a < index {
                                a
                            } else {
                                a - 1
                            };
                            assert(after[i] == before[a]);
                            lemma_entry(after, i);
                        }
                    }
                    assert forall|k: Seq<char>| smaller.contains_key(k) implies entries_map(after)[k]
                        == smaller[k] by {
                        lemma_key(before, k);
                        let a = choose|a: int| 0 <= a < before.len() && #[trigger] before[a].0@ == k;
                        let i = if a < index {
                            a
                        } else {
                            a - 1
                        };
                        assert(after[i] == before[a]);
                        lemma_entry(before, a);
                        lemma_entry(after, i);
                    }
                    assert(entries_map(after) =~= smaller);
                }
                Some(value)
            },
            None => {
                assert(self@ =~= old(self)@.remove(key@));
                None
            },
        }
    }

    /// Puts a value under a key and hands out the one that stood there.
    pub fn insert(&mut self, key: String, value: V) -> (previous: Option<V>)
        requires
            old(self).wf(),
        ensures
            final(self).wf(),
            final(self)@ == old(self)@.insert(key@, value),
            match previous {
                Some(taken) => old(self)@.contains_key(key@) && taken == old(self)@[key@],
                None => !old(self)@.contains_key(key@),
            },
    {
        let previous = self.remove(key.as_str());
        let ghost middle = self.entries@;
        let ghost middle_view = self@;
        let ghost key_view = key@;
        proof {
            assert forall|i: int| 0 <= i < middle.len() implies #[trigger] middle[i].0@ != key_view by {
                lemma_entry(middle, i);
            }
        }
        self.entries.push((key, value));
        proof {
            assert(self.entries@.drop_last() =~= middle);
            assert(self@ == middle_view.insert(key_view, value));
            assert(self@ =~= old(self)@.insert(key_view, value));
        }
        previous
    }

    /// Removes every entry.
    pub fn clear(&mut self)
        ensures
            final(self).wf(),
            final(self)@ == Map::<Seq<char>, V>::empty(),
    {
        self.entries.clear();
    }
}

} // verus!
