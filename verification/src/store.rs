//! A string-keyed association map with an exact `Map<Seq<char>, Seq<char>>`
//! view. It backs each of the registry's three keyspaces.

use vstd::prelude::*;

verus! {

/// True when some entry of `entries` carries the key `k`.
pub open spec fn has_key(entries: Seq<(String, String)>, k: Seq<char>) -> bool {
    exists|i: int| 0 <= i < entries.len() && entries[i].0@ == k
}

/// An index of an entry of `entries` carrying the key `k`; meaningful only
/// when `has_key(entries, k)` holds.
pub open spec fn key_index(entries: Seq<(String, String)>, k: Seq<char>) -> int {
    choose|i: int| 0 <= i < entries.len() && entries[i].0@ == k
}

/// The mathematical map that a sequence of entries denotes.
pub open spec fn assoc_map(entries: Seq<(String, String)>) -> Map<Seq<char>, Seq<char>> {
    Map::new(
        |k: Seq<char>| has_key(entries, k),
        |k: Seq<char>| entries[key_index(entries, k)].1@,
    )
}

/// No two entries carry the same key.
pub open spec fn distinct_keys(entries: Seq<(String, String)>) -> bool {
    forall|i: int, j: int|
        0 <= i < j < entries.len() ==> entries[i].0@ != entries[j].0@
}

/// An exclusively owned key-value store over strings. Entries live in a
/// vector with pairwise-distinct keys, and every operation is specified
/// against the map the vector denotes.
pub struct StrMap {
    entries: Vec<(String, String)>,
}

impl View for StrMap {
    type V = Map<Seq<char>, Seq<char>>;

    closed spec fn view(&self) -> Map<Seq<char>, Seq<char>> {
        assoc_map(self.entries@)
    }
}

/// The index of the first entry whose key equals `k`, if any entry's does.
fn find_key(entries: &Vec<(String, String)>, k: &String) -> (r: Option<usize>)
    ensures
        match r {
            Some(i) => i < entries@.len() && entries@[i as int].0@ == k@,
            None => !has_key(entries@, k@),
        },
{
    let mut i: usize = 0;
    while i < entries.len()
        invariant
            i <= entries@.len(),
            forall|j: int| 0 <= j < i ==> entries@[j].0@ != k@,
        decreases entries@.len() - i,
    {
        if entries[i].0 == *k {
            return Some(i);
        }
        i = i + 1;
    }
    None
}

/// Removing the entry at `i` removes exactly its key from the denoted map.
proof fn lemma_remove_entry(e: Seq<(String, String)>, i: int, k: Seq<char>)
    requires
        distinct_keys(e),
        0 <= i < e.len(),
        e[i].0@ == k,
    ensures
        distinct_keys(e.remove(i)),
        assoc_map(e.remove(i)) =~= assoc_map(e).remove(k),
{
    let e2 = e.remove(i);
    e.remove_ensures(i);
    assert forall|a: int, b: int| 0 <= a < b < e2.len() implies e2[a].0@ != e2[b].0@ by {
        let a0 = if a < i { a } else { a + 1 };
        let b0 = if b < i { b } else { b + 1 };
        assert(e2[a] == e[a0]);
        assert(e2[b] == e[b0]);
    }
    assert forall|k2: Seq<char>| has_key(e2, k2) implies has_key(e, k2) && k2 != k by {
        let j = choose|j: int| 0 <= j < e2.len() && e2[j].0@ == k2;
        let j0 = if j < i { j } else { j + 1 };
        assert(e2[j] == e[j0]);
        assert(0 <= j0 < e.len() && e[j0].0@ == k2);
        if j0 < i {
            assert(e[j0].0@ != e[i].0@);
        } else {
            assert(e[i].0@ != e[j0].0@);
        }
    }
    assert forall|k2: Seq<char>| has_key(e, k2) && k2 != k implies has_key(e2, k2) by {
        let j0 = choose|j: int| 0 <= j < e.len() && e[j].0@ == k2;
        if j0 < i {
            assert(e2[j0] == e[j0]);
            assert(e2[j0].0@ == k2);
        } else {
            assert(e2[j0 - 1] == e[j0]);
            assert(e2[j0 - 1].0@ == k2);
        }
    }
    assert forall|k2: Seq<char>| has_key(e2, k2) implies assoc_map(e2)[k2] == assoc_map(e)[k2] by {
        let j = key_index(e2, k2);
        assert(0 <= j < e2.len() && e2[j].0@ == k2);
        let j0 = if j < i { j } else { j + 1 };
        assert(e2[j] == e[j0]);
        let m = key_index(e, k2);
        assert(0 <= m < e.len() && e[m].0@ == k2);
        if m < j0 {
            assert(e[m].0@ != e[j0].0@);
        } else if j0 < m {
            assert(e[j0].0@ != e[m].0@);
        }
        assert(m == j0);
    }
}

/// Pushing an entry with a fresh key adds exactly that binding to the
/// denoted map.
proof fn lemma_push_entry(e: Seq<(String, String)>, k: String, v: String)
    requires
        distinct_keys(e),
        !has_key(e, k@),
    ensures
        distinct_keys(e.push((k, v))),
        assoc_map(e.push((k, v))) =~= assoc_map(e).insert(k@, v@),
{
    let e2 = e.push((k, v));
    let n = e.len() as int;
    assert forall|a: int, b: int| 0 <= a < b < e2.len() implies e2[a].0@ != e2[b].0@ by {
        if b < n {
            assert(e2[a] == e[a]);
            assert(e2[b] == e[b]);
        } else {
            assert(e2[a] == e[a]);
            assert(e2[b] == (k, v));
            assert(e[a].0@ != k@);
        }
    }
    assert forall|k2: Seq<char>| has_key(e2, k2) implies has_key(e, k2) || k2 == k@ by {
        let j = choose|j: int| 0 <= j < e2.len() && e2[j].0@ == k2;
        if j < n {
            assert(e2[j] == e[j]);
            assert(e[j].0@ == k2);
        } else {
            assert(e2[j] == (k, v));
        }
    }
    assert forall|k2: Seq<char>| has_key(e, k2) implies has_key(e2, k2) by {
        let j = choose|j: int| 0 <= j < e.len() && e[j].0@ == k2;
        assert(e2[j] == e[j]);
        assert(e2[j].0@ == k2);
    }
    assert(e2[n] == (k, v));
    assert(has_key(e2, k@));
    let m2 = assoc_map(e).insert(k@, v@);
    assert forall|k2: Seq<char>| has_key(e2, k2) implies assoc_map(e2)[k2] == m2[k2] by {
        let j = key_index(e2, k2);
        assert(0 <= j < e2.len() && e2[j].0@ == k2);
        if k2 == k@ {
            if j < n {
                assert(e2[j] == e[j]);
                assert(has_key(e, k@));
            }
            assert(j == n);
            assert(e2[j].1@ == v@);
        } else {
            assert(j != n);
            assert(e2[j] == e[j]);
            let m = key_index(e, k2);
            assert(0 <= m < e.len() && e[m].0@ == k2);
            if m < j {
                assert(e[m].0@ != e[j].0@);
            } else if j < m {
                assert(e[j].0@ != e[m].0@);
            }
            assert(m == j);
        }
    }
}

impl StrMap {
    #[verifier::type_invariant]
    spec fn inv(self) -> bool {
        distinct_keys(self.entries@)
    }

    /// An empty store.
    pub fn new() -> (r: Self)
        ensures
            r@ == Map::<Seq<char>, Seq<char>>::empty(),
    {
        let r = StrMap { entries: Vec::new() };
        proof {
            assert(r@ =~= Map::<Seq<char>, Seq<char>>::empty());
        }
        r
    }

    /// Whether `k` is bound in the store.
    pub fn contains(&self, k: &String) -> (r: bool)
        ensures
            r == self@.dom().contains(k@),
    {
        match find_key(&self.entries, k) {
            Some(i) => {
                proof {
                    assert(has_key(self.entries@, k@));
                }
                true
            },
            None => false,
        }
    }

    /// The value bound to `k`, if any.
    pub fn get(&self, k: &String) -> (r: Option<&String>)
        ensures
            match r {
                Some(v) => self@.dom().contains(k@) && v@ == self@[k@],
                None => !self@.dom().contains(k@),
            },
    {
        proof {
            use_type_invariant(&*self);
        }
        match find_key(&self.entries, k) {
            Some(i) => {
                proof {
                    let e = self.entries@;
                    assert(has_key(e, k@));
                    let m = key_index(e, k@);
                    assert(0 <= m < e.len() && e[m].0@ == k@);
                    if m < i {
                        assert(e[m].0@ != e[i as int].0@);
                    } else if i < m {
                        assert(e[i as int].0@ != e[m].0@);
                    }
                    assert(m == i as int);
                }
                Some(&self.entries[i].1)
            },
            None => None,
        }
    }

    /// Binds `k` to `v`, replacing any existing binding.
    pub fn insert(&mut self, k: String, v: String)
        ensures
            final(self)@ == old(self)@.insert(k@, v@),
    {
        self.remove(&k);
        proof {
            use_type_invariant(&*self);
            assert(!self@.dom().contains(k@));
            assert(!has_key(self.entries@, k@));
        }
        let ghost mid = self@;
        let mut e: Vec<(String, String)> = Vec::new();
        std::mem::swap(&mut e, &mut self.entries);
        proof {
            lemma_push_entry(e@, k, v);
        }
        e.push((k, v));
        self.entries = e;
        proof {
            assert(self@ == mid.insert(k@, v@));
            assert(old(self)@.remove(k@).insert(k@, v@) =~= old(self)@.insert(k@, v@));
        }
    }

    /// Unbinds `k`; a no-op when `k` is not bound.
    pub fn remove(&mut self, k: &String)
        ensures
            final(self)@ == old(self)@.remove(k@),
    {
        proof {
            use_type_invariant(&*self);
        }
        match find_key(&self.entries, k) {
            Some(i) => {
                let mut e: Vec<(String, String)> = Vec::new();
                std::mem::swap(&mut e, &mut self.entries);
                proof {
                    lemma_remove_entry(e@, i as int, k@);
                }
                e.remove(i);
                self.entries = e;
            },
            None => {
                proof {
                    assert(!self@.dom().contains(k@));
                    assert(self@.remove(k@) =~= self@);
                }
            },
        }
    }
}

} // verus!
