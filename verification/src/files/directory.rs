//! An in-memory model of the directory namespace that stored files live in:
//! a flat map from identifier to content with an atomic "create if absent"
//! operation. It stands for the storage collaborator that persists uploaded
//! ciphertext blobs; a production deployment backs the same surface with a
//! real filesystem directory.

use vstd::prelude::*;

verus! {

/// A flat namespace of named byte blobs with unique names.
pub struct Directory {
    entries: Vec<(String, Vec<u8>)>,
    contents: Ghost<Map<Seq<char>, Seq<u8>>>,
}

impl View for Directory {
    type V = Map<Seq<char>, Seq<u8>>;

    closed spec fn view(&self) -> Map<Seq<char>, Seq<u8>> {
        self.contents@
    }
}

impl Directory {
    /// Well-formedness: entry names are unique, and the entries and the
    /// abstract map hold exactly the same pairs.
    pub closed spec fn wf(&self) -> bool {
        &&& forall|i: int, j: int|
            0 <= i < j < self.entries@.len() ==> self.entries@[i].0@ != self.entries@[j].0@
        &&& forall|i: int|
            0 <= i < self.entries@.len() ==> self.contents@.contains_pair(
                #[trigger] self.entries@[i].0@,
                self.entries@[i].1@,
            )
        &&& forall|k: Seq<char>|
            self.contents@.dom().contains(k) ==> exists|i: int|
                0 <= i < self.entries@.len() && #[trigger] self.entries@[i].0@ == k
    }

    /// The longest name in the directory; collisions are impossible beyond it.
    pub closed spec fn max_name_len(&self) -> nat {
        names_max_len(self.entries@)
    }

    /// An empty directory.
    pub fn new() -> (r: Self)
        ensures
            r.wf(),
            r@ == Map::<Seq<char>, Seq<u8>>::empty(),
    {
        Directory { entries: Vec::new(), contents: Ghost(Map::empty()) }
    }

    /// The index of the entry named `name`, if one exists.
    fn find(&self, name: &String) -> (r: Option<usize>)
        requires
            self.wf(),
        ensures
            match r {
                Some(i) => i < self.entries@.len() && self.entries@[i as int].0@ == name@
                    && self@.dom().contains(name@),
                None => !self@.dom().contains(name@),
            },
    {
        let mut i: usize = 0;
        while i < self.entries.len()
            invariant
                self.wf(),
                0 <= i <= self.entries@.len(),
                forall|j: int| 0 <= j < i ==> self.entries@[j].0@ != name@,
            decreases self.entries@.len() - i,
        {
            if self.entries[i].0 == *name {
                return Some(i);
            }
            i += 1;
        }
        proof {
            if self@.dom().contains(name@) {
                let w = choose|w: int|
                    0 <= w < self.entries@.len() && #[trigger] self.entries@[w].0@ == name@;
                assert(self.entries@[w].0@ != name@);
            }
        }
        None
    }

    /// Whether an entry of that name exists.
    pub fn contains(&self, name: &String) -> (r: bool)
        requires
            self.wf(),
        ensures
            r == self@.dom().contains(name@),
    {
        self.find(name).is_some()
    }

    /// Atomic "create if absent": when no entry of that name exists, creates
    /// an empty one and reports true; when one exists, changes nothing and
    /// reports false. Never overwrites.
    pub fn create_new(&mut self, name: &String) -> (r: bool)
        requires
            old(self).wf(),
        ensures
            final(self).wf(),
            r == !old(self)@.dom().contains(name@),
            r ==> final(self)@ == old(self)@.insert(name@, Seq::<u8>::empty()),
            !r ==> *final(self) == *old(self),
            !r ==> name@.len() <= old(self).max_name_len(),
    {
        if self.contains(name) {
            proof {
                let w = choose|w: int|
                    0 <= w < self.entries@.len() && #[trigger] self.entries@[w].0@ == name@;
                lemma_names_max_len(self.entries@, w);
            }
            return false;
        }
        let ghost old_entries = self.entries@;
        let empty_content: Vec<u8> = Vec::new();
        self.entries.push((name.clone(), empty_content));
        proof {
            self.contents@ = self.contents@.insert(name@, Seq::<u8>::empty());
            assert forall|i: int, j: int|
                0 <= i < j < self.entries@.len() implies self.entries@[i].0@
                != self.entries@[j].0@ by {
                if j < old_entries.len() {
                } else {
                    if self.entries@[i].0@ == name@ {
                        assert(old(self).wf());
                        assert(old(self)@.contains_pair(old_entries[i].0@, old_entries[i].1@));
                        assert(old(self)@.dom().contains(name@));
                    }
                }
            }
            assert forall|k: Seq<char>|
                self.contents@.dom().contains(k) implies exists|w: int|
                0 <= w < self.entries@.len() && #[trigger] self.entries@[w].0@ == k by {
                if k == name@ {
                    assert(self.entries@[self.entries@.len() - 1].0@ == k);
                } else {
                    let w0 = choose|w0: int|
                        0 <= w0 < old_entries.len() && #[trigger] old_entries[w0].0@ == k;
                    assert(self.entries@[w0].0@ == k);
                }
            }
            assert(self.entries@.last().1@ =~= Seq::<u8>::empty());
        }
        true
    }

    /// Removes the entry of that name if present; swaps in the last entry to
    /// fill the hole.
    fn remove_entry(&mut self, name: &String) -> (r: bool)
        requires
            old(self).wf(),
        ensures
            final(self).wf(),
            r == old(self)@.dom().contains(name@),
            final(self)@ == old(self)@.remove(name@),
    {
        let found = self.find(name);
        match found {
            Some(i) => {
                let ghost old_entries = self.entries@;
                let ghost n = old_entries.len() as int;
                self.entries.swap_remove(i);
                proof {
                    self.contents@ = self.contents@.remove(name@);
                    // Each surviving entry is an old entry at a position other
                    // than `i`, so its name is not `name` and its pair stays
                    // in the map.
                    assert forall|k: int| 0 <= k < self.entries@.len() implies self.entries@[k]
                        == old_entries[if k == i { n - 1 } else { k }] && old_entries[
                        if k == i {
                            n - 1
                        } else {
                            k
                        }
                    ].0@ != name@ by {
                        let w = if k == i { n - 1 } else { k as int };
                        assert(self.entries@[k] == old_entries[w]);
                        if old_entries[w].0@ == name@ {
                            assert(w != i as int);
                            assert(old_entries[i as int].0@ == old_entries[w].0@);
                        }
                    }
                    assert forall|a: int, b: int|
                        0 <= a < b < self.entries@.len() implies self.entries@[a].0@
                        != self.entries@[b].0@ by {
                        let wa = if a == i { n - 1 } else { a };
                        let wb = if b == i { n - 1 } else { b };
                        assert(self.entries@[a] == old_entries[wa]);
                        assert(self.entries@[b] == old_entries[wb]);
                        assert(wa != wb);
                    }
                    assert forall|k: int|
                        0 <= k < self.entries@.len() implies self.contents@.contains_pair(
                        #[trigger] self.entries@[k].0@,
                        self.entries@[k].1@,
                    ) by {
                        let w = if k == i { n - 1 } else { k };
                        assert(old(self)@.contains_pair(old_entries[w].0@, old_entries[w].1@));
                    }
                    assert forall|k: Seq<char>|
                        self.contents@.dom().contains(k) implies exists|w: int|
                        0 <= w < self.entries@.len() && #[trigger] self.entries@[w].0@
                            == k by {
                        let w0 = choose|w0: int|
                            0 <= w0 < old_entries.len() && #[trigger] old_entries[w0].0@ == k;
                        assert(w0 != i as int);
                        if w0 == n - 1 {
                            assert(i < n - 1);
                            assert(self.entries@[i as int].0@ == k);
                        } else {
                            assert(self.entries@[w0].0@ == k);
                        }
                    }
                }
                true
            },
            None => {
                proof {
                    assert(self.contents@.remove(name@) =~= self.contents@);
                }
                false
            },
        }
    }

    /// Removes the entry of that name; removing an absent name is a no-op.
    pub fn remove(&mut self, name: &String)
        requires
            old(self).wf(),
        ensures
            final(self).wf(),
            final(self)@ == old(self)@.remove(name@),
    {
        let _removed = self.remove_entry(name);
    }

    /// Replaces the content of an existing entry. When no entry of that name
    /// exists, changes nothing and reports false: writing never creates.
    pub fn write(&mut self, name: &String, data: &[u8]) -> (r: bool)
        requires
            old(self).wf(),
        ensures
            final(self).wf(),
            r == old(self)@.dom().contains(name@),
            r ==> final(self)@ == old(self)@.insert(name@, data@),
            !r ==> *final(self) == *old(self),
    {
        if !self.contains(name) {
            return false;
        }
        let _removed = self.remove_entry(name);
        let ghost mid = *self;
        let ghost mid_entries = self.entries@;
        self.entries.push((name.clone(), vstd::slice::slice_to_vec(data)));
        proof {
            self.contents@ = self.contents@.insert(name@, data@);
            assert(self.contents@ =~= old(self)@.insert(name@, data@));
            assert forall|k: Seq<char>|
                self.contents@.dom().contains(k) implies exists|w: int|
                0 <= w < self.entries@.len() && #[trigger] self.entries@[w].0@ == k by {
                if k == name@ {
                    assert(self.entries@[self.entries@.len() - 1].0@ == k);
                } else {
                    let w0 = choose|w0: int|
                        0 <= w0 < mid_entries.len() && #[trigger] mid_entries[w0].0@ == k;
                    assert(self.entries@[w0].0@ == k);
                }
            }
            assert forall|i: int, j: int|
                0 <= i < j < self.entries@.len() implies self.entries@[i].0@
                != self.entries@[j].0@ by {
                if j < mid_entries.len() {
                } else {
                    if self.entries@[i].0@ == name@ {
                        assert(mid.wf());
                        assert(mid@.contains_pair(mid_entries[i].0@, mid_entries[i].1@));
                        assert(mid@.dom().contains(name@));
                    }
                }
            }
        }
        true
    }

    /// The content of the entry of that name, if one exists.
    pub fn read(&self, name: &String) -> (r: Option<Vec<u8>>)
        requires
            self.wf(),
        ensures
            match r {
                Some(data) => self@.dom().contains(name@) && data@ == self@[name@],
                None => !self@.dom().contains(name@),
            },
    {
        match self.find(name) {
            Some(i) => {
                let data = vstd::slice::slice_to_vec(self.entries[i].1.as_slice());
                proof {
                    assert(self.contents@.contains_pair(
                        self.entries@[i as int].0@,
                        self.entries@[i as int].1@,
                    ));
                }
                Some(data)
            },
            None => None,
        }
    }

    /// How many entries the directory holds.
    pub fn len(&self) -> (r: usize)
        requires
            self.wf(),
        ensures
            r == self.entries_len(),
    {
        self.entries.len()
    }

    /// The number of entries.
    pub closed spec fn entries_len(&self) -> nat {
        self.entries@.len()
    }
}

/// The length of the longest name among the entries.
spec fn names_max_len(s: Seq<(String, Vec<u8>)>) -> nat
    decreases s.len(),
{
    if s.len() == 0 {
        0
    } else {
        let rest = names_max_len(s.drop_last());
        if s.last().0@.len() > rest {
            s.last().0@.len()
        } else {
            rest
        }
    }
}

/// Every entry's name is at most `names_max_len` long.
proof fn lemma_names_max_len(s: Seq<(String, Vec<u8>)>, i: int)
    requires
        0 <= i < s.len(),
    ensures
        s[i].0@.len() <= names_max_len(s),
    decreases s.len(),
{
    if i == s.len() - 1 {
    } else {
        lemma_names_max_len(s.drop_last(), i);
    }
}

} // verus!
