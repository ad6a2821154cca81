//! A map from language keys to values, kept as a list of unique keys. One
//! holds the workers of each analyzer kind; another the preferences of each
//! grammar checker, and each preference set is one from tag to description.
use vstd::prelude::*;

use crate::text::str_eq;

verus! {

/// A map from language keys to values of type `W`.
pub struct Registry<W> {
    entries: Vec<(String, W)>,
    contents: Ghost<Map<Seq<char>, W>>,
}

impl<W> View for Registry<W> {
    type V = Map<Seq<char>, W>;

    closed spec fn view(&self) -> Map<Seq<char>, W> {
        self.contents@
    }
}

impl<W> Registry<W> {
    /// The keys are unique, and the entries hold exactly the map's contents.
    pub closed spec fn wf(self) -> bool {
        &&& forall|i: int, j: int|
            0 <= i < j < self.entries@.len() ==> #[trigger] self.entries@[i].0@
                != #[trigger] self.entries@[j].0@
        &&& forall|i: int|
            0 <= i < self.entries@.len() ==> {
                &&& self.contents@.contains_key(#[trigger] self.entries@[i].0@)
                &&& self.contents@[self.entries@[i].0@] == self.entries@[i].1
            }
        &&& forall|k: Seq<char>|
            #[trigger] self.contents@.contains_key(k) ==> exists|i: int|
                0 <= i < self.entries@.len() && #[trigger] self.entries@[i].0@ == k
    }

    /// An empty map.
    pub fn new() -> (r: Registry<W>)
        ensures
            r@ == Map::<Seq<char>, W>::empty(),
            r.wf(),
    {
        Registry { entries: Vec::new(), contents: Ghost(Map::empty()) }
    }

    fn find(&self, key: &str) -> (r: Option<usize>)
        requires
            self.wf(),
        ensures
            r matches Some(i) ==> i < self.entries@.len() && self.entries@[i as int].0@ == key@,
            r is None ==> forall|i: int|
                0 <= i < self.entries@.len() ==> self.entries@[i].0@ != key@,
    {
        let mut i: usize = 0;
        while i < self.entries.len()
            invariant
                i <= self.entries@.len(),
                forall|j: int| 0 <= j < i ==> self.entries@[j].0@ != key@,
            decreases self.entries@.len() - i,
        {
            if str_eq(self.entries[i].0.as_str(), key) {
                return Some(i);
            }
            i = i + 1;
        }
        None
    }

    /// Whether `key` has a value.
    pub fn contains(&self, key: &str) -> (r: bool)
        requires
            self.wf(),
        ensures
            r == self@.contains_key(key@),
    {
        match self.find(key) {
            Some(_) => true,
            None => {
                proof {
                    if self@.contains_key(key@) {
                        let i = choose|i: int|
                            0 <= i < self.entries@.len() && #[trigger] self.entries@[i].0@
                                == key@;
                        assert(self.entries@[i].0@ != key@);
                    }
                }
                false
            },
        }
    }

    /// The value of `key`, if it has one.
    pub fn get(&self, key: &str) -> (r: Option<&W>)
        requires
            self.wf(),
        ensures
            r matches Some(w) ==> self@.contains_key(key@) && *w == self@[key@],
            r is None ==> !self@.contains_key(key@),
    {
        match self.find(key) {
            Some(i) => Some(&self.entries[i].1),
            None => {
                proof {
                    if self@.contains_key(key@) {
                        let i = choose|i: int|
                            0 <= i < self.entries@.len() && #[trigger] self.entries@[i].0@
                                == key@;
                        assert(self.entries@[i].0@ != key@);
                    }
                }
                None
            },
        }
    }

    /// Takes the value of `key` out of the map, and hands it back.
    pub fn remove(&mut self, key: &str) -> (r: Option<W>)
        requires
            old(self).wf(),
        ensures
            final(self).wf(),
            final(self)@ == old(self)@.remove(key@),
            r matches Some(w) ==> old(self)@.contains_key(key@) && w == old(self)@[key@],
            r is None ==> !old(self)@.contains_key(key@),
    {
        match self.find(key) {
            Some(i) => {
                let ghost old_entries = self.entries@;
                let (_, w) = self.entries.remove(i);
                self.contents = Ghost(self.contents@.remove(key@));
                proof {
                    let es = self.entries@;
                    assert(es == old_entries.remove(i as int));
                    assert forall|j: int| 0 <= j < es.len() implies #[trigger] es[j] == (if j < i {
                        old_entries[j]
                    } else {
                        old_entries[j + 1]
                    }) by {}
                    assert forall|j: int| 0 <= j < es.len() implies {
                        &&& self.contents@.contains_key(#[trigger] es[j].0@)
                        &&& self.contents@[es[j].0@] == es[j].1
                    } by {
                        if j < i {
                            assert(old_entries[j].0@ != old_entries[i as int].0@);
                        } else {
                            assert(old_entries[j + 1].0@ != old_entries[i as int].0@);
                        }
                    }
                    assert forall|k: Seq<char>| #[trigger]
                        self.contents@.contains_key(k) implies exists|j: int|
                        0 <= j < es.len() && #[trigger] es[j].0@ == k by {
                        let m = choose|m: int|
                            0 <= m < old_entries.len() && #[trigger] old_entries[m].0@ == k;
                        if m < i {
                            assert(es[m].0@ == k);
                        } else {
                            assert(m != i);
                            assert(es[m - 1].0@ == k);
                        }
                    }
                }
                Some(w)
            },
            None => {
                proof {
                    if self@.contains_key(key@) {
                        let i = choose|i: int|
                            0 <= i < self.entries@.len() && #[trigger] self.entries@[i].0@
                                == key@;
                        assert(self.entries@[i].0@ != key@);
                    }
                    assert(self.contents@.remove(key@) =~= self.contents@);
                }
                None
            },
        }
    }

    /// Sets the value of `key` to `value`, and hands back the value it replaces.
    pub fn insert(&mut self, key: String, value: W) -> (r: Option<W>)
        requires
            old(self).wf(),
        ensures
            final(self).wf(),
            final(self)@ == old(self)@.insert(key@, value),
            r matches Some(w) ==> old(self)@.contains_key(key@) && w == old(self)@[key@],
            r is None ==> !old(self)@.contains_key(key@),
    {
        let r = self.remove(key.as_str());
        let ghost old_entries = self.entries@;
        let ghost k = key@;
        self.entries.push((key, value));
        self.contents = Ghost(self.contents@.insert(k, value));
        proof {
            let es = self.entries@;
            assert(!old(self)@.remove(k).contains_key(k));
            assert forall|j: int| 0 <= j < old_entries.len() implies old_entries[j].0@ != k by {
                assert(old(self)@.remove(k).contains_key(old_entries[j].0@));
            }
            assert forall|i: int, j: int| 0 <= i < j < es.len() implies #[trigger] es[i].0@
                != #[trigger] es[j].0@ by {
                if j == old_entries.len() {
                    assert(es[i] == old_entries[i]);
                } else {
                    assert(es[i] == old_entries[i]);
                    assert(es[j] == old_entries[j]);
                }
            }
            assert forall|j: int| 0 <= j < es.len() implies {
                &&& self.contents@.contains_key(#[trigger] es[j].0@)
                &&& self.contents@[es[j].0@] == es[j].1
            } by {
                if j < old_entries.len() {
                    assert(es[j] == old_entries[j]);
                }
            }
            assert forall|q: Seq<char>| #[trigger]
                self.contents@.contains_key(q) implies exists|j: int|
                0 <= j < es.len() && #[trigger] es[j].0@ == q by {
                if q == k {
                    assert(es[old_entries.len() as int].0@ == q);
                } else {
                    let m = choose|m: int|
                        0 <= m < old_entries.len() && #[trigger] old_entries[m].0@ == q;
                    assert(es[m] == old_entries[m]);
                }
            }
            assert(old(self)@.remove(k).insert(k, value) =~= old(self)@.insert(k, value));
        }
        r
    }

    /// The number of keys.
    pub fn len(&self) -> (r: usize)
        requires
            self.wf(),
        ensures
            r == self@.dom().len(),
    {
        proof {
            self.lemma_dom_is_keys();
        }
        self.entries.len()
    }

    proof fn lemma_dom_is_keys(&self)
        requires
            self.wf(),
        ensures
            self@.dom() == self.entries@.map_values(|e: (String, W)| e.0@).to_set(),
            self.entries@.map_values(|e: (String, W)| e.0@).no_duplicates(),
            self@.dom().len() == self.entries@.len(),
    {
        let ks = self.entries@.map_values(|e: (String, W)| e.0@);
        assert forall|i: int, j: int| 0 <= i < ks.len() && 0 <= j < ks.len() && i != j implies ks[i]
            != ks[j] by {
            if i < j {
                assert(self.entries@[i].0@ != self.entries@[j].0@);
            } else {
                assert(self.entries@[j].0@ != self.entries@[i].0@);
            }
        }
        assert forall|k: Seq<char>| self@.dom().contains(k) <==> ks.to_set().contains(k) by {
            if self@.dom().contains(k) {
                let i = choose|i: int|
                    0 <= i < self.entries@.len() && #[trigger] self.entries@[i].0@ == k;
                assert(ks[i] == k);
            }
            if ks.to_set().contains(k) {
                let i = choose|i: int| 0 <= i < ks.len() && ks[i] == k;
                assert(self.contents@.contains_key(self.entries@[i].0@));
            }
        }
        assert(self@.dom() =~= ks.to_set());
        ks.unique_seq_to_set();
    }

    /// The keys, each once.
    pub fn keys(&self) -> (r: Vec<String>)
        requires
            self.wf(),
        ensures
            r@.map_values(|s: String| s@).to_set() == self@.dom(),
            r@.map_values(|s: String| s@).no_duplicates(),
    {
        proof {
            self.lemma_dom_is_keys();
        }
        let mut r: Vec<String> = Vec::new();
        let mut i: usize = 0;
        while i < self.entries.len()
            invariant
                i <= self.entries@.len(),
                r@.map_values(|s: String| s@) == self.entries@.map_values(|e: (String, W)| e.0@).take(
                    i as int,
                ),
            decreases self.entries@.len() - i,
        {
            let k = self.entries[i].0.clone();
            let ghost ks = self.entries@.map_values(|e: (String, W)| e.0@);
            assert(ks[i as int] == k@);
            assert(ks.take(i + 1) =~= ks.take(i as int).push(k@));
            assert(r@.push(k).map_values(|s: String| s@) =~= r@.map_values(|s: String| s@).push(k@));
            assert(r@.push(k).map_values(|s: String| s@) =~= self.entries@.map_values(
                |e: (String, W)| e.0@,
            ).take(i + 1));
            r.push(k);
            i = i + 1;
        }
        assert(self.entries@.map_values(|e: (String, W)| e.0@).take(i as int) =~= self.entries@.map_values(
            |e: (String, W)| e.0@,
        ));
        r
    }
}

} // verus!
