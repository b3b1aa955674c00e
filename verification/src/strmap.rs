//! A map from texts to values that remembers the order in which its keys
//! arrived. No key occurs twice.

use vstd::prelude::*;

verus! {

/// An insertion-ordered map keyed by text.
#[derive(Debug, PartialEq)]
pub struct StrMap<V> {
    entries: Vec<(String, V)>,
}

/// The map that a list of entries stands for; of two entries with one key,
/// the later counts.
pub open spec fn map_of<V>(entries: Seq<(Seq<char>, V)>) -> Map<Seq<char>, V>
    decreases entries.len(),
{
    if entries.len() == 0 {
        Map::empty()
    } else {
        map_of(entries.drop_last()).insert(entries.last().0, entries.last().1)
    }
}

/// Whether no key occurs twice in a list of entries.
pub open spec fn distinct_keys<V>(entries: Seq<(Seq<char>, V)>) -> bool {
    forall|i: int, j: int|
        0 <= i < j < entries.len() ==> (#[trigger] entries[i]).0 != (#[trigger] entries[j]).0
}

/// A key is in the map exactly if some entry holds it.
pub proof fn lemma_map_of_dom<V>(entries: Seq<(Seq<char>, V)>, key: Seq<char>)
    ensures
        map_of(entries).contains_key(key) <==> exists|i: int|
            0 <= i < entries.len() && (#[trigger] entries[i]).0 == key,
    decreases entries.len(),
{
    if entries.len() > 0 {
        let front = entries.drop_last();
        lemma_map_of_dom(front, key);
        if exists|i: int| 0 <= i < entries.len() && (#[trigger] entries[i]).0 == key {
            let i = choose|i: int| 0 <= i < entries.len() && (#[trigger] entries[i]).0 == key;
            if i < front.len() {
                assert(front[i].0 == key);
            }
        }
    }
}

/// A list of distinct keys stays one without its last entry, and the key
/// of that entry is not in the map of the rest.
pub proof fn lemma_distinct_front<V>(entries: Seq<(Seq<char>, V)>)
    requires
        distinct_keys(entries),
        entries.len() > 0,
    ensures
        distinct_keys(entries.drop_last()),
        !map_of(entries.drop_last()).contains_key(entries.last().0),
{
    lemma_map_of_dom(entries.drop_last(), entries.last().0);
}

/// Where keys are distinct, each entry is what the map holds for its key.
pub proof fn lemma_map_of_entry<V>(entries: Seq<(Seq<char>, V)>, i: int)
    requires
        distinct_keys(entries),
        0 <= i < entries.len(),
    ensures
        map_of(entries).contains_key(entries[i].0),
        map_of(entries)[entries[i].0] == entries[i].1,
    decreases entries.len(),
{
    if i < entries.len() - 1 {
        lemma_distinct_front(entries);
        lemma_map_of_entry(entries.drop_last(), i);
    }
}

/// Replacing the value of entry `i` is `insert` with that entry's key.
pub proof fn lemma_map_of_update<V>(entries: Seq<(Seq<char>, V)>, i: int, value: V)
    requires
        distinct_keys(entries),
        0 <= i < entries.len(),
    ensures
        map_of(entries.update(i, (entries[i].0, value))) == map_of(entries).insert(
            entries[i].0,
            value,
        ),
    decreases entries.len(),
{
    let after = entries.update(i, (entries[i].0, value));
    let front = entries.drop_last();
    if i == entries.len() - 1 {
        assert(after.drop_last() == front);
    } else {
        lemma_distinct_front(entries);
        lemma_map_of_update(front, i, value);
        assert(after.drop_last() == front.update(i, (front[i].0, value)));
    }
}

/// Taking entry `i` out is `remove` with that entry's key.
pub proof fn lemma_map_of_remove<V>(entries: Seq<(Seq<char>, V)>, i: int)
    requires
        distinct_keys(entries),
        0 <= i < entries.len(),
    ensures
        map_of(entries.remove(i)) == map_of(entries).remove(entries[i].0),
        distinct_keys(entries.remove(i)),
    decreases entries.len(),
{
    let after = entries.remove(i);
    let front = entries.drop_last();
    lemma_distinct_front(entries);
    if i < entries.len() - 1 {
        lemma_map_of_remove(front, i);
        assert(after.drop_last() == front.remove(i));
    }
}

/// Where keys are distinct, the map has as many keys as the list has
/// entries.
pub proof fn lemma_map_of_len<V>(entries: Seq<(Seq<char>, V)>)
    requires
        distinct_keys(entries),
    ensures
        map_of(entries).dom().finite(),
        map_of(entries).dom().len() == entries.len(),
    decreases entries.len(),
{
    if entries.len() > 0 {
        lemma_distinct_front(entries);
        lemma_map_of_len(entries.drop_last());
    }
}

/// The index of the first entry among the first `n` that holds the key;
/// -1 where there is none.
pub open spec fn index_upto<V>(entries: Seq<(Seq<char>, V)>, key: Seq<char>, n: int) -> int
    decreases n,
{
    if n <= 0 {
        -1
    } else if index_upto(entries, key, n - 1) >= 0 {
        index_upto(entries, key, n - 1)
    } else if entries[n - 1].0 == key {
        n - 1
    } else {
        -1
    }
}

/// The index of the first entry that holds the key; -1 where there is none.
pub open spec fn index_of<V>(entries: Seq<(Seq<char>, V)>, key: Seq<char>) -> int {
    index_upto(entries, key, entries.len() as int)
}

/// The entries after a value was stored under a key: a key that is
/// present keeps its place, a new key goes last.
pub open spec fn put<V>(entries: Seq<(Seq<char>, V)>, key: Seq<char>, value: V) -> Seq<
    (Seq<char>, V),
> {
    let i = index_of(entries, key);
    if i >= 0 {
        entries.update(i, (key, value))
    } else {
        entries.push((key, value))
    }
}

/// The entries after a key was taken out.
pub open spec fn cut<V>(entries: Seq<(Seq<char>, V)>, key: Seq<char>) -> Seq<(Seq<char>, V)> {
    let i = index_of(entries, key);
    if i >= 0 {
        entries.remove(i)
    } else {
        entries
    }
}

/// What `index_upto` finds is the first entry with the key.
pub proof fn lemma_index_upto<V>(entries: Seq<(Seq<char>, V)>, key: Seq<char>, n: int)
    requires
        0 <= n <= entries.len(),
    ensures
        ({
            let i = index_upto(entries, key, n);
            &&& -1 <= i < n
            &&& i >= 0 ==> entries[i].0 == key
            &&& forall|k: int| 0 <= k < n && (i < 0 || k < i) ==> (#[trigger] entries[k]).0 != key
        }),
    decreases n,
{
    if n > 0 {
        lemma_index_upto(entries, key, n - 1);
    }
}

/// A list of stored entries with each key as its characters.
spec fn listed<V>(list: Seq<(String, V)>) -> Seq<(Seq<char>, V)> {
    Seq::new(list.len(), |i: int| (list[i].0@, list[i].1))
}

impl<V> StrMap<V> {
    #[verifier::type_invariant]
    spec fn inv(&self) -> bool {
        distinct_keys(self.entries())
    }

    /// The entries in the order in which their keys first arrived.
    pub closed spec fn entries(&self) -> Seq<(Seq<char>, V)> {
        listed(self.entries@)
    }

    /// The map from key to value.
    pub open spec fn view(&self) -> Map<Seq<char>, V> {
        map_of(self.entries())
    }

    /// An empty map.
    pub fn new() -> (m: Self)
        ensures
            m.entries() == Seq::<(Seq<char>, V)>::empty(),
            m@ == Map::<Seq<char>, V>::empty(),
    {
        let m = StrMap { entries: Vec::new() };
        m
    }

    /// The number of entries, which is the number of keys.
    pub fn len(&self) -> (n: usize)
        ensures
            n == self.entries().len(),
            self@.dom().finite(),
            self@.dom().len() == n,
    {
        proof {
            use_type_invariant(self);
            lemma_map_of_len(self.entries());
        }
        self.entries.len()
    }

    /// The key of entry `i`.
    pub fn key_at(&self, i: usize) -> (k: &String)
        requires
            i < self.entries().len(),
        ensures
            k@ == self.entries()[i as int].0,
    {
        &self.entries[i].0
    }

    /// The value of entry `i`.
    pub fn value_at(&self, i: usize) -> (v: &V)
        requires
            i < self.entries().len(),
        ensures
            *v == self.entries()[i as int].1,
    {
        &self.entries[i].1
    }

    /// The position of the entry with the given key.
    pub fn position(&self, key: &String) -> (r: Option<usize>)
        ensures
            match r {
                Some(i) => i < self.entries().len() && self.entries()[i as int].0 == key@
                    && index_of(self.entries(), key@) == i,
                None => !self@.contains_key(key@) && index_of(self.entries(), key@) == -1,
            },
            r is Some <==> self@.contains_key(key@),
    {
        let mut i: usize = 0;
        while i < self.entries.len()
            invariant
                i <= self.entries.len(),
                forall|k: int| 0 <= k < i ==> (#[trigger] self.entries()[k]).0 != key@,
            decreases self.entries.len() - i,
        {
            if self.entries[i].0 == *key {
                proof {
                    lemma_map_of_dom(self.entries(), key@);
                    lemma_index_upto(self.entries(), key@, self.entries().len() as int);
                    assert(self.entries()[i as int].0 == key@);
                }
                return Some(i);
            }
            i = i + 1;
        }
        proof {
            lemma_map_of_dom(self.entries(), key@);
            lemma_index_upto(self.entries(), key@, self.entries().len() as int);
        }
        None
    }

    /// The value stored under a key.
    pub fn get(&self, key: &String) -> (r: Option<&V>)
        ensures
            match r {
                Some(v) => self@.contains_key(key@) && *v == self@[key@],
                None => !self@.contains_key(key@),
            },
    {
        match self.position(key) {
            Some(i) => {
                proof {
                    use_type_invariant(self);
                    lemma_map_of_entry(self.entries(), i as int);
                }
                Some(&self.entries[i].1)
            },
            None => None,
        }
    }

    /// Whether a key is present.
    pub fn contains_key(&self, key: &String) -> (r: bool)
        ensures
            r == self@.contains_key(key@),
    {
        self.position(key).is_some()
    }

    /// Stores a value under a key. A key that is already present keeps its
    /// place in the order and has its value replaced; a new key goes last.
    pub fn insert(&mut self, key: String, value: V)
        ensures
            final(self)@ == old(self)@.insert(key@, value),
            final(self).entries() == put(old(self).entries(), key@, value),
    {
        proof {
            use_type_invariant(&*self);
        }
        let ghost before = self.entries();
        match self.position(&key) {
            Some(i) => {
                let mut list: Vec<(String, V)> = Vec::new();
                std::mem::swap(&mut self.entries, &mut list);
                list[i] = (key, value);
                proof {
                    assert(listed(list@) =~= before.update(i as int, (before[i as int].0, value)));
                    lemma_map_of_update(before, i as int, value);
                }
                self.entries = list;
            },
            None => {
                let mut list: Vec<(String, V)> = Vec::new();
                std::mem::swap(&mut self.entries, &mut list);
                list.push((key, value));
                proof {
                    let after = listed(list@);
                    assert(after =~= before.push((key@, value)));
                    assert(after.drop_last() =~= before);
                    lemma_map_of_dom(before, key@);
                }
                self.entries = list;
            },
        }
    }

    /// Takes a key and its value out; the other entries keep their order.
    pub fn remove(&mut self, key: &String) -> (r: Option<V>)
        ensures
            final(self)@ == old(self)@.remove(key@),
            final(self).entries() == cut(old(self).entries(), key@),
            match r {
                Some(v) => old(self)@.contains_key(key@) && v == old(self)@[key@],
                None => !old(self)@.contains_key(key@),
            },
    {
        proof {
            use_type_invariant(&*self);
        }
        let ghost before = self.entries();
        match self.position(key) {
            Some(i) => {
                let mut list: Vec<(String, V)> = Vec::new();
                std::mem::swap(&mut self.entries, &mut list);
                let gone = list.remove(i);
                proof {
                    assert(listed(list@) =~= before.remove(i as int));
                    lemma_map_of_remove(before, i as int);
                    lemma_map_of_entry(before, i as int);
                }
                self.entries = list;
                Some(gone.1)
            },
            None => None,
        }
    }
}

impl<V: Clone> StrMap<V> {
    /// A copy of the map: the same keys in the same order, each with a
    /// clone of its value.
    pub fn duplicate(&self) -> (r: Self)
        ensures
            r.entries().len() == self.entries().len(),
            forall|i: int|
                0 <= i < self.entries().len() ==> (#[trigger] r.entries()[i]).0
                    == self.entries()[i].0 && cloned(self.entries()[i].1, r.entries()[i].1),
    {
        proof {
            use_type_invariant(self);
        }
        let mut list: Vec<(String, V)> = Vec::new();
        let mut i: usize = 0;
        while i < self.entries.len()
            invariant
                i <= self.entries.len(),
                list.len() == i,
                forall|k: int|
                    0 <= k < i ==> (#[trigger] list[k]).0@ == self.entries[k].0@ && cloned(
                        self.entries[k].1,
                        list[k].1,
                    ),
            decreases self.entries.len() - i,
        {
            let key = self.entries[i].0.clone();
            let value = self.entries[i].1.clone();
            list.push((key, value));
            i = i + 1;
        }
        proof {
            let mine = self.entries();
            let copy = listed(list@);
            assert forall|a: int, b: int| 0 <= a < b < copy.len() implies (#[trigger] copy[a]).0 != (
            #[trigger] copy[b]).0 by {
                assert(mine[a].0 != mine[b].0);
            }
        }
        StrMap { entries: list }
    }
}

} // verus!
