//! A list of entries keyed by field key, each key at most once.

use vstd::prelude::*;

verus! {

/// The keys of a list of entries, in order.
pub open spec fn keys_of<L>(links: Seq<(String, L)>) -> Seq<Seq<char>> {
    links.map_values(|e: (String, L)| e.0@)
}

/// The value of each key in a list of entries; a later entry for a key
/// replaces an earlier one.
pub open spec fn map_of<L>(links: Seq<(String, L)>) -> Map<Seq<char>, L>
    decreases links.len(),
{
    if links.len() == 0 {
        Map::empty()
    } else {
        map_of(links.drop_last()).insert(links.last().0@, links.last().1)
    }
}

pub proof fn lemma_map_of_dom<L>(links: Seq<(String, L)>)
    ensures
        map_of(links).dom() == keys_of(links).to_set(),
    decreases links.len(),
{
    if links.len() > 0 {
        lemma_map_of_dom(links.drop_last());
        assert(keys_of(links) =~= keys_of(links.drop_last()).push(links.last().0@));
        keys_of(links.drop_last()).lemma_push_to_set_commute(links.last().0@);
    } else {
        assert(keys_of(links).to_set() =~= Set::<Seq<char>>::empty());
    }
    assert(map_of(links).dom() =~= keys_of(links).to_set());
}

pub proof fn lemma_map_of_index<L>(links: Seq<(String, L)>, i: int)
    requires
        keys_of(links).no_duplicates(),
        0 <= i < links.len(),
    ensures
        map_of(links).contains_key(links[i].0@),
        map_of(links)[links[i].0@] == links[i].1,
    decreases links.len(),
{
    let init = links.drop_last();
    assert(keys_of(init) =~= keys_of(links).drop_last());
    if i < links.len() - 1 {
        assert(keys_of(links)[i] != keys_of(links)[links.len() - 1]);
        lemma_map_of_index(init, i);
    }
}

pub proof fn lemma_map_of_update<L>(links: Seq<(String, L)>, i: int, key: String, link: L)
    requires
        keys_of(links).no_duplicates(),
        0 <= i < links.len(),
        links[i].0@ == key@,
    ensures
        map_of(links.update(i, (key, link))) == map_of(links).insert(key@, link),
        keys_of(links.update(i, (key, link))) == keys_of(links),
    decreases links.len(),
{
    let s2 = links.update(i, (key, link));
    let init = links.drop_last();
    assert(keys_of(s2) =~= keys_of(links));
    assert(keys_of(init) =~= keys_of(links).drop_last());
    if i == links.len() - 1 {
        assert(s2.drop_last() =~= init);
        lemma_map_of_dom(init);
        assert(!keys_of(init).contains(key@)) by {
            if keys_of(init).contains(key@) {
                let j = choose|j: int| 0 <= j < keys_of(init).len() && keys_of(init)[j] == key@;
                assert(keys_of(links)[j] == keys_of(links)[i]);
            }
        }
        assert(map_of(s2) =~= map_of(links).insert(key@, link));
    } else {
        assert(s2.drop_last() =~= init.update(i, (key, link)));
        assert(keys_of(links)[i] != keys_of(links)[links.len() - 1]);
        lemma_map_of_update(init, i, key, link);
        assert(map_of(s2) =~= map_of(links).insert(key@, link));
    }
}

/// Entries keyed by field key, in the order in which their keys first came.
pub struct KeyedList<V> {
    entries: Vec<(String, V)>,
}

impl<V> KeyedList<V> {
    /// Each key is present at most once.
    pub open spec fn wf(&self) -> bool {
        keys_of(self.entries()).no_duplicates()
    }

    pub closed spec fn entries(&self) -> Seq<(String, V)> {
        self.entries@
    }

    /// The value of each key.
    pub open spec fn map(&self) -> Map<Seq<char>, V> {
        map_of(self.entries())
    }

    /// The keys present.
    pub open spec fn keys(&self) -> Set<Seq<char>> {
        self.map().dom()
    }

    pub fn new() -> (r: Self)
        ensures
            r.wf(),
            r.entries().len() == 0,
            r.map() == Map::<Seq<char>, V>::empty(),
    {
        let r = KeyedList { entries: Vec::new() };
        assert(keys_of(r.entries()) =~= Seq::<Seq<char>>::empty());
        assert(r.map() =~= Map::<Seq<char>, V>::empty());
        r
    }

    /// The position of `key` among the entries, if it is present.
    fn position(&self, key: &String) -> (r: Option<usize>)
        requires
            self.wf(),
        ensures
            r is None <==> !self.keys().contains(key@),
            r matches Some(i) ==> i < self.entries().len() && self.entries()[i as int].0@ == key@,
    {
        proof {
            lemma_map_of_dom(self.entries());
        }
        let mut i: usize = 0;
        while i < self.entries.len()
            invariant
                self.wf(),
                self.keys() == keys_of(self.entries()).to_set(),
                i <= self.entries.len(),
                forall|j: int| 0 <= j < i ==> keys_of(self.entries())[j] != key@,
            decreases self.entries.len() - i,
        {
            if self.entries[i].0 == *key {
                assert(keys_of(self.entries())[i as int] == key@);
                assert(keys_of(self.entries()).contains(key@));
                return Some(i);
            }
            i += 1;
        }
        proof {
            let ks = keys_of(self.entries());
            if ks.to_set().contains(key@) {
                assert(ks.contains(key@));
                let j = choose|j: int| 0 <= j < ks.len() && ks[j] == key@;
                assert(ks[j] != key@);
            }
        }
        None
    }

    pub fn contains_key(&self, key: &String) -> (r: bool)
        requires
            self.wf(),
        ensures
            r == self.keys().contains(key@),
    {
        self.position(key).is_some()
    }

    /// The keys, each once, in order.
    pub fn keys_vec(&self) -> (r: Vec<String>)
        requires
            self.wf(),
        ensures
            r@.map_values(|s: String| s@) == keys_of(self.entries()),
            r@.map_values(|s: String| s@).no_duplicates(),
            r@.map_values(|s: String| s@).to_set() == self.keys(),
    {
        let mut r: Vec<String> = Vec::new();
        let mut i: usize = 0;
        while i < self.entries.len()
            invariant
                i <= self.entries.len(),
                r@.map_values(|s: String| s@) == keys_of(self.entries()).take(i as int),
            decreases self.entries.len() - i,
        {
            let k = self.entries[i].0.clone();
            let ghost before = r@;
            r.push(k);
            proof {
                before.lemma_push_map_commute(|s: String| s@, k);
                assert(keys_of(self.entries()).take(i + 1) =~= keys_of(self.entries()).take(
                    i as int,
                ).push(k@));
            }
            i += 1;
        }
        assert(keys_of(self.entries()).take(i as int) =~= keys_of(self.entries()));
        proof {
            lemma_map_of_dom(self.entries());
        }
        r
    }

    /// Sets the value of `key`; an entry already present under that key is
    /// replaced in place, a new key goes last.
    pub fn insert(&mut self, key: String, value: V)
        requires
            old(self).wf(),
        ensures
            final(self).wf(),
            final(self).map() == old(self).map().insert(key@, value),
            old(self).keys().contains(key@) ==> exists|i: int|
                0 <= i < old(self).entries().len() && old(self).entries()[i].0@ == key@
                    && final(self).entries() == old(self).entries().update(i, (key, value)),
            !old(self).keys().contains(key@) ==> final(self).entries() == old(
                self,
            ).entries().push((key, value)),
    {
        proof {
            lemma_map_of_dom(self.entries());
        }
        match self.position(&key) {
            Some(i) => {
                let ghost before = self.entries();
                proof {
                    lemma_map_of_update(before, i as int, key, value);
                }
                self.entries.set(i, (key, value));
                assert(self.entries() == before.update(i as int, (key, value)));
            },
            None => {
                let ghost ks = keys_of(self.entries());
                let ghost k = key@;
                let ghost before = self.entries();
                self.entries.push((key, value));
                proof {
                    let ks2 = keys_of(self.entries());
                    assert(ks2 =~= ks.push(k));
                    assert(self.entries().drop_last() =~= before);
                    assert(!ks.contains(k));
                    assert(ks2.no_duplicates()) by {
                        assert forall|a: int, b: int|
                            0 <= a < ks2.len() && 0 <= b < ks2.len() && a != b implies ks2[a]
                            != ks2[b] by {
                            if a < ks.len() && b < ks.len() {
                                assert(ks[a] != ks[b]);
                            } else if a < ks.len() {
                                assert(ks[a] != k);
                            } else if b < ks.len() {
                                assert(ks[b] != k);
                            }
                        }
                    }
                }
            },
        }
    }

    /// The value of `key`, if it is present.
    pub fn get(&self, key: &String) -> (r: Option<&V>)
        requires
            self.wf(),
        ensures
            r is None <==> !self.keys().contains(key@),
            r matches Some(v) ==> *v == self.map()[key@],
    {
        match self.position(key) {
            Some(i) => {
                proof {
                    lemma_map_of_index(self.entries(), i as int);
                }
                Some(&self.entries[i].1)
            },
            None => None,
        }
    }

    /// Removes every entry.
    pub fn clear(&mut self)
        ensures
            final(self).wf(),
            final(self).entries().len() == 0,
            final(self).map() == Map::<Seq<char>, V>::empty(),
    {
        self.entries.clear();
        assert(keys_of(self.entries()) =~= Seq::<Seq<char>>::empty());
        assert(self.map() =~= Map::<Seq<char>, V>::empty());
    }

    pub fn as_vec(&self) -> (r: &Vec<(String, V)>)
        ensures
            r@ == self.entries(),
    {
        &self.entries
    }
}

} // verus!
