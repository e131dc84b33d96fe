//! A table from strings to values.
use crate::text::equal;
use vstd::prelude::*;

verus! {

/// A table with at most one value for each key, in the order of insertion.
#[derive(Clone, Debug)]
pub struct Table<V> {
    entries: Vec<(String, V)>,
}

/// No key stands twice in the list.
pub open spec fn distinct_keys<V>(entries: Seq<(String, V)>) -> bool {
    forall|i: int, j: int|
        0 <= i < j < entries.len() ==> (#[trigger] entries[i]).0@ != (#[trigger] entries[j]).0@
}

/// Whether the key stands in the list.
pub open spec fn has_key<V>(entries: Seq<(String, V)>, key: Seq<char>) -> bool {
    exists|i: int| 0 <= i < entries.len() && (#[trigger] entries[i]).0@ == key
}

/// A place where the key stands in the list.
pub open spec fn key_index<V>(entries: Seq<(String, V)>, key: Seq<char>) -> int {
    choose|i: int| 0 <= i < entries.len() && (#[trigger] entries[i]).0@ == key
}

/// The list as a map.
pub open spec fn entries_map<V>(entries: Seq<(String, V)>) -> Map<Seq<char>, V> {
    Map::new(
        |key: Seq<char>| has_key(entries, key),
        |key: Seq<char>| entries[key_index(entries, key)].1,
    )
}

/// A list with distinct keys makes a map of as many keys.
pub proof fn lemma_entries_map_len<V>(entries: Seq<(String, V)>)
    requires
        distinct_keys(entries),
    ensures
        entries_map(entries).dom().finite(),
        entries_map(entries).dom().len() == entries.len(),
    decreases entries.len(),
{
    let m = entries_map(entries);
    if entries.len() == 0 {
        assert(m.dom() =~= Set::empty());
    } else {
        let front = entries.drop_last();
        assert(distinct_keys(front)) by {
            assert forall|i: int, j: int| 0 <= i < j < front.len() implies (
            #[trigger] front[i]).0@ != (#[trigger] front[j]).0@ by {
                assert(front[i] == entries[i] && front[j] == entries[j]);
            }
        }
        lemma_entries_map_len(front);
        let key = entries.last().0@;
        assert(!has_key(front, key)) by {
            if has_key(front, key) {
                let i = key_index(front, key);
                assert(front[i] == entries[i]);
            }
        }
        assert(m.dom() =~= entries_map(front).dom().insert(key)) by {
            assert forall|k: Seq<char>| has_key(entries, k) <==> has_key(front, k) || k
                == key by {
                if has_key(entries, k) {
                    let i = key_index(entries, k);
                    if i < front.len() {
                        assert(front[i] == entries[i]);
                    }
                }
                if has_key(front, k) {
                    let i = key_index(front, k);
                    assert(entries[i] == front[i]);
                }
                if k == key {
                    assert(entries[entries.len() - 1].0@ == k);
                }
            }
        }
    }
}

/// In a list with distinct keys the entry with a key holds the key's value.
pub proof fn lemma_entry<V>(entries: Seq<(String, V)>, i: int)
    requires
        distinct_keys(entries),
        0 <= i < entries.len(),
    ensures
        entries_map(entries).dom().contains(entries[i].0@),
        entries_map(entries)[entries[i].0@] == entries[i].1,
{
    let key = entries[i].0@;
    assert(has_key(entries, key));
    let j = key_index(entries, key);
    if i < j {
        assert(entries[i].0@ != entries[j].0@);
    } else if j < i {
        assert(entries[j].0@ != entries[i].0@);
    }
}

impl<V> View for Table<V> {
    type V = Map<Seq<char>, V>;

    closed spec fn view(&self) -> Map<Seq<char>, V> {
        entries_map(self.entries@)
    }
}

impl<V> Table<V> {
    /// No key has two entries.
    pub closed spec fn wf(&self) -> bool {
        distinct_keys(self.entries@)
    }

    /// The entries in their order.
    pub closed spec fn listed(&self) -> Seq<(String, V)> {
        self.entries@
    }

    /// The table and its list say the same.
    pub proof fn lemma_listed(&self)
        requires
            self.wf(),
        ensures
            self@ == entries_map(self.listed()),
            distinct_keys(self.listed()),
            self@.dom().finite(),
            self@.dom().len() == self.listed().len(),
    {
        lemma_entries_map_len(self.entries@);
    }

    /// An empty table.
    pub fn new() -> (t: Table<V>)
        ensures
            t.wf(),
            t@ == Map::<Seq<char>, V>::empty(),
            t.listed() == Seq::<(String, V)>::empty(),
    {
        let t = Table { entries: Vec::new() };
        assert(t@ =~= Map::<Seq<char>, V>::empty());
        t
    }

    /// The number of keys.
    pub fn len(&self) -> (n: usize)
        requires
            self.wf(),
        ensures
            n == self@.dom().len(),
            n == self.listed().len(),
    {
        proof {
            self.lemma_listed();
        }
        self.entries.len()
    }

    /// The entry at a place in the order of the table.
    pub fn entry(&self, i: usize) -> (e: &(String, V))
        requires
            i < self.listed().len(),
        ensures
            *e == self.listed()[i as int],
    {
        &self.entries[i]
    }

    /// The place of a key, or the number of entries where it has none.
    pub fn position(&self, key: &str) -> (i: usize)
        requires
            self.wf(),
        ensures
            i <= self.listed().len(),
            i < self.listed().len() <==> self@.dom().contains(key@),
            i < self.listed().len() ==> self.listed()[i as int].0@ == key@
                && self.listed()[i as int].1 == self@[key@],
    {
        let mut i: usize = 0;
        while i < self.entries.len()
            invariant
                self.wf(),
                i <= self.entries@.len(),
                forall|j: int| 0 <= j < i ==> (#[trigger] self.entries@[j]).0@ != key@,
            decreases self.entries@.len() - i,
        {
            if equal(self.entries[i].0.as_str(), key) {
                proof {
                    lemma_entry(self.entries@, i as int);
                }
                return i;
            }
            i = i + 1;
        }
        i
    }

    /// The value of a key.
    pub fn get(&self, key: &str) -> (v: Option<&V>)
        requires
            self.wf(),
        ensures
            match v {
                Some(x) => self@.dom().contains(key@) && *x == self@[key@],
                None => !self@.dom().contains(key@),
            },
    {
        let i: usize = self.position(key);
        if i < self.entries.len() {
            Some(&self.entries[i].1)
        } else {
            None
        }
    }

    /// Whether the table has the key.
    pub fn contains_key(&self, key: &str) -> (r: bool)
        requires
            self.wf(),
        ensures
            r == self@.dom().contains(key@),
    {
        let i: usize = self.position(key);
        i < self.entries.len()
    }

    /// Gives a key a value, in place of the one that it had.
    pub fn insert(&mut self, key: String, value: V)
        requires
            old(self).wf(),
        ensures
            final(self).wf(),
            final(self)@ == old(self)@.insert(key@, value),
    {
        let i: usize = self.position(key.as_str());
        let ghost before = self.entries@;
        if i < self.entries.len() {
            self.entries.set(i, (key, value));
            proof {
                let after = self.entries@;
                assert(distinct_keys(after)) by {
                    assert forall|a: int, b: int| 0 <= a < b < after.len() implies (
                    #[trigger] after[a]).0@ != (#[trigger] after[b]).0@ by {
                        assert(before[a].0@ != before[b].0@);
                    }
                }
                lemma_entry(after, i as int);
                assert(entries_map(after) =~= entries_map(before).insert(key@, value)) by {
                    assert forall|k: Seq<char>|
                        #![trigger has_key(after, k)]
                        #![trigger has_key(before, k)]
                        has_key(after, k) <==> has_key(before, k) by {
                        if has_key(before, k) {
                            let j = key_index(before, k);
                            assert(after[j].0@ == k);
                        }
                        if has_key(after, k) {
                            let j = key_index(after, k);
                            assert(before[j].0@ == k);
                        }
                    }
                    assert forall|k: Seq<char>| has_key(after, k) && k != key@ implies
                        entries_map(after)[k] == entries_map(before)[k] by {
                        let j = key_index(after, k);
                        assert(before[j].0@ == k);
                        lemma_entry(before, j);
                        lemma_entry(after, j);
                    }
                }
            }
        } else {
            self.entries.push((key, value));
            proof {
                let after = self.entries@;
                assert(distinct_keys(after)) by {
                    assert forall|a: int, b: int| 0 <= a < b < after.len() implies (
                    #[trigger] after[a]).0@ != (#[trigger] after[b]).0@ by {
                        assert(before[a] == after[a]);
                        if b < before.len() {
                            assert(before[b] == after[b]);
                        } else {
                            assert(has_key(before, before[a].0@));
                        }
                    }
                }
                lemma_entry(after, before.len() as int);
                assert(entries_map(after) =~= entries_map(before).insert(key@, value)) by {
                    assert forall|k: Seq<char>|
                        #![trigger has_key(after, k)]
                        #![trigger has_key(before, k)]
                        has_key(after, k) <==> has_key(before, k) || k == key@ by {
                        if has_key(before, k) {
                            let j = key_index(before, k);
                            assert(after[j].0@ == k);
                        }
                        if has_key(after, k) {
                            let j = key_index(after, k);
                            if j < before.len() {
                                assert(before[j].0@ == k);
                            }
                        }
                    }
                    assert forall|k: Seq<char>| has_key(before, k) && k != key@ implies
                        entries_map(after)[k] == entries_map(before)[k] by {
                        let j = key_index(before, k);
                        assert(after[j].0@ == k);
                        lemma_entry(before, j);
                        lemma_entry(after, j);
                    }
                }
            }
        }
    }

    /// Takes a key and its value out of the table.
    pub fn remove(&mut self, key: &str) -> (v: Option<V>)
        requires
            old(self).wf(),
        ensures
            final(self).wf(),
            final(self)@ == old(self)@.remove(key@),
            match v {
                Some(x) => old(self)@.dom().contains(key@) && x == old(self)@[key@],
                None => !old(self)@.dom().contains(key@),
            },
            match v {
                Some(_) => exists|i: int|
                    0 <= i < old(self).listed().len() && (#[trigger] old(self).listed()[i]).0@
                        == key@ && final(self).listed() == old(self).listed().remove(i),
                None => final(self).listed() == old(self).listed(),
            },
    {
        let i: usize = self.position(key);
        let ghost before = self.entries@;
        if i < self.entries.len() {
            let (_, value) = self.entries.remove(i);
            proof {
                let after = self.entries@;
                assert(forall|j: int|
                    0 <= j < after.len() ==> #[trigger] after[j] == before[if j < i {
                        j
                    } else {
                        j + 1
                    }]);
                assert(distinct_keys(after)) by {
                    assert forall|a: int, b: int| 0 <= a < b < after.len() implies (
                    #[trigger] after[a]).0@ != (#[trigger] after[b]).0@ by {
                        let x = if a < i {
                            a
                        } else {
                            a + 1
                        };
                        let y = if b < i {
                            b
                        } else {
                            b + 1
                        };
                        assert(before[x].0@ != before[y].0@);
                    }
                }
                assert(entries_map(after) =~= entries_map(before).remove(key@)) by {
                    assert forall|k: Seq<char>|
                        #![trigger has_key(after, k)]
                        #![trigger has_key(before, k)]
                        has_key(after, k) <==> has_key(before, k) && k != key@ by {
                        if has_key(before, k) && k != key@ {
                            let j = key_index(before, k);
                            if j < i {
                                assert(after[j].0@ == k);
                            } else {
                                assert(after[j - 1].0@ == k);
                            }
                        }
                        if has_key(after, k) {
                            let j = key_index(after, k);
                            let x = if j < i {
                                j
                            } else {
                                j + 1
                            };
                            assert(before[x].0@ == k);
                            if k == key@ {
                                if x < i {
                                    assert(before[x].0@ != before[i as int].0@);
                                } else {
                                    assert(before[i as int].0@ != before[x].0@);
                                }
                            }
                        }
                    }
                    assert forall|k: Seq<char>| has_key(after, k) implies entries_map(after)[k]
                        == entries_map(before)[k] by {
                        let j = key_index(after, k);
                        let x = if j < i {
                            j
                        } else {
                            j + 1
                        };
                        lemma_entry(before, x);
                        lemma_entry(after, j);
                    }
                }
            }
            assert(self.listed() == old(self).listed().remove(i as int));
            Some(value)
        } else {
            proof {
                assert(self@ =~= old(self)@.remove(key@));
            }
            None
        }
    }

    /// Takes every key out of the table.
    pub fn clear(&mut self)
        ensures
            final(self).wf(),
            final(self)@ == Map::<Seq<char>, V>::empty(),
    {
        self.entries.clear();
        assert(self@ =~= Map::<Seq<char>, V>::empty());
    }
}

/// A table gives back what was put under a key, until that is taken out again; the other
/// keys keep what they have. A cleared one has nothing.
pub proof fn law_a_table_gives_back_what_was_put<V>(
    t: &mut Table<V>,
    key: String,
    value: V,
    name: &str,
    other: &str,
    found: Option<&V>,
    elsewhere: Option<&V>,
    known: bool,
)
    requires
        call_ensures(Table::<V>::insert, (t, key, value), ()),
        call_ensures(Table::<V>::get, (&*final(t), name), found),
        call_ensures(Table::<V>::get, (&*final(t), other), elsewhere),
        call_ensures(Table::<V>::contains_key, (&*final(t), name), known),
        name@ == key@,
        other@ != key@,
    ensures
        known,
        found is Some,
        *found->0 == value,
        elsewhere is Some <==> old(t)@.dom().contains(other@),
        elsewhere is Some ==> *elsewhere->0 == old(t)@[other@],
{
}

/// What is taken out of a table is what it had there, and is there no more; what is left
/// stays, and one that was cleared has nothing to take.
pub proof fn law_what_is_taken_is_gone<V>(
    t: &mut Table<V>,
    name: &str,
    other: Seq<char>,
    taken: Option<V>,
    found: Option<&V>,
    c: &mut Table<V>,
    count: usize,
)
    requires
        call_ensures(Table::<V>::remove, (t, name), taken),
        call_ensures(Table::<V>::get, (&*final(t), name), found),
        call_ensures(Table::<V>::clear, (c,), ()),
        call_ensures(Table::<V>::len, (&*final(c),), count),
        other != name@,
    ensures
        found is None,
        taken is Some <==> old(t)@.dom().contains(name@),
        taken is Some ==> taken->0 == old(t)@[name@],
        final(t)@.dom().contains(other) == old(t)@.dom().contains(other),
        old(t)@.dom().contains(other) ==> final(t)@[other] == old(t)@[other],
        count == 0,
{
}

} // verus!
