//! A finite map keyed by byte strings, kept as two parallel vectors in
//! which no key occurs twice.

use vstd::prelude::*;

verus! {

/// Compares two byte vectors.
pub fn bytes_eq(a: &Vec<u8>, b: &Vec<u8>) -> (same: bool)
    ensures
        same == (a@ == b@),
{
    if a.len() != b.len() {
        return false;
    }
    let mut i: usize = 0;
    while i < a.len()
        invariant
            a.len() == b.len(),
            i <= a.len(),
            forall|j: int| 0 <= j < i ==> a[j] == b[j],
        decreases a.len() - i,
    {
        if a[i] != b[i] {
            return false;
        }
        i += 1;
    }
    assert(a@ =~= b@);
    true
}

/// Copies a byte vector.
pub fn copy_bytes(a: &Vec<u8>) -> (out: Vec<u8>)
    ensures
        out@ == a@,
{
    let mut out: Vec<u8> = Vec::new();
    let mut i: usize = 0;
    while i < a.len()
        invariant
            i <= a.len(),
            out@ == a@.subrange(0, i as int),
        decreases a.len() - i,
    {
        out.push(a[i]);
        assert(out@ =~= a@.subrange(0, i + 1));
        i += 1;
    }
    assert(out@ =~= a@);
    out
}

pub struct ByteMap<V> {
    keys: Vec<Vec<u8>>,
    vals: Vec<V>,
}

impl<V> ByteMap<V> {
    /// The two vectors have one length and the keys are pairwise distinct.
    pub closed spec fn wf(&self) -> bool {
        &&& self.keys.len() == self.vals.len()
        &&& forall|i: int, j: int|
            0 <= i < j < self.keys.len() ==> self.keys[i]@ != self.keys[j]@
    }

    pub closed spec fn has_at(&self, k: Seq<u8>, i: int) -> bool {
        0 <= i < self.keys.len() && self.keys[i]@ == k
    }

    /// The map that the entries stand for.
    pub closed spec fn view(&self) -> Map<Seq<u8>, V> {
        Map::new(
            |k: Seq<u8>| exists|i: int| self.has_at(k, i),
            |k: Seq<u8>| self.vals[choose|i: int| self.has_at(k, i)],
        )
    }

    proof fn lemma_at(&self, i: int)
        requires
            self.wf(),
            0 <= i < self.keys.len(),
        ensures
            self@.contains_key(self.keys[i]@),
            self@[self.keys[i]@] == self.vals[i],
    {
        let k = self.keys[i]@;
        assert(self.has_at(k, i));
        let j = choose|j: int| self.has_at(k, j);
        assert(self.has_at(k, j));
        assert(j == i);
    }

    pub fn new() -> (m: ByteMap<V>)
        ensures
            m.wf(),
            m@ == Map::<Seq<u8>, V>::empty(),
    {
        let m = ByteMap { keys: Vec::new(), vals: Vec::new() };
        assert(forall|k: Seq<u8>, i: int| !m.has_at(k, i));
        assert(m@ =~= Map::<Seq<u8>, V>::empty());
        m
    }

    fn find(&self, k: &Vec<u8>) -> (r: Option<usize>)
        requires
            self.wf(),
        ensures
            match r {
                Some(i) => self.has_at(k@, i as int),
                None => forall|i: int| !self.has_at(k@, i),
            },
    {
        let mut i: usize = 0;
        while i < self.keys.len()
            invariant
                i <= self.keys.len(),
                forall|j: int| 0 <= j < i ==> self.keys[j]@ != k@,
            decreases self.keys.len() - i,
        {
            if bytes_eq(&self.keys[i], k) {
                return Some(i);
            }
            i += 1;
        }
        None
    }

    /// Whether the key has an entry.
    pub fn contains_key(&self, k: &Vec<u8>) -> (b: bool)
        requires
            self.wf(),
        ensures
            b == self@.contains_key(k@),
    {
        self.find(k).is_some()
    }

    /// The value stored under the key, if any.
    pub fn get(&self, k: &Vec<u8>) -> (r: Option<&V>)
        requires
            self.wf(),
        ensures
            match r {
                Some(v) => self@.contains_key(k@) && self@[k@] == *v,
                None => !self@.contains_key(k@),
            },
    {
        match self.find(k) {
            Some(i) => {
                proof {
                    self.lemma_at(i as int);
                }
                Some(&self.vals[i])
            },
            None => None,
        }
    }

    /// Stores the value under the key, replacing an earlier one.
    pub fn insert(&mut self, k: Vec<u8>, v: V)
        requires
            old(self).wf(),
        ensures
            final(self).wf(),
            final(self)@ == old(self)@.insert(k@, v),
    {
        let ghost before = *self;
        match self.find(&k) {
            Some(i) => {
                self.vals.set(i, v);
                proof {
                    let after = *self;
                    assert(after.wf());
                    assert forall|q: Seq<u8>| #[trigger]
                        after@.contains_key(q) == before@.insert(k@, v).contains_key(q) by {
                        if before@.contains_key(q) {
                            let j = choose|j: int| before.has_at(q, j);
                            assert(after.has_at(q, j));
                        }
                        if after@.contains_key(q) {
                            let j = choose|j: int| after.has_at(q, j);
                            assert(before.has_at(q, j));
                        }
                        assert(before.has_at(k@, i as int));
                        assert(after.has_at(k@, i as int));
                    }
                    assert forall|q: Seq<u8>| #[trigger]
                        after@.contains_key(q) implies after@[q] == before@.insert(k@, v)[q] by {
                        let j = choose|j: int| after.has_at(q, j);
                        assert(after.has_at(q, j));
                        after.lemma_at(j);
                        before.lemma_at(j);
                    }
                    assert(after@ =~= before@.insert(k@, v));
                }
            },
            None => {
                self.keys.push(k);
                self.vals.push(v);
                proof {
                    let after = *self;
                    let n = before.keys.len() as int;
                    assert(after.keys@ == before.keys@.push(k));
                    assert forall|a: int, b: int| 0 <= a < b < after.keys.len() implies after.keys[a]@
                        != after.keys[b]@ by {
                        assert(after.keys[a] == before.keys[a]);
                        if b == n {
                            assert(!before.has_at(k@, a));
                        } else {
                            assert(after.keys[b] == before.keys[b]);
                        }
                    }
                    assert(after.wf());
                    assert(after.has_at(k@, n));
                    assert forall|q: Seq<u8>| #[trigger]
                        after@.contains_key(q) == before@.insert(k@, v).contains_key(q) by {
                        if before@.contains_key(q) {
                            let j = choose|j: int| before.has_at(q, j);
                            assert(after.has_at(q, j));
                        }
                        if after@.contains_key(q) && q != k@ {
                            let j = choose|j: int| after.has_at(q, j);
                            assert(before.has_at(q, j));
                        }
                    }
                    assert forall|q: Seq<u8>| #[trigger]
                        after@.contains_key(q) implies after@[q] == before@.insert(k@, v)[q] by {
                        let j = choose|j: int| after.has_at(q, j);
                        assert(after.has_at(q, j));
                        after.lemma_at(j);
                        if j < n {
                            before.lemma_at(j);
                        }
                    }
                    assert(after@ =~= before@.insert(k@, v));
                }
            },
        }
    }

    /// Takes the entry of the key out, and hands back its value.
    pub fn remove(&mut self, k: &Vec<u8>) -> (r: Option<V>)
        requires
            old(self).wf(),
        ensures
            final(self).wf(),
            final(self)@ == old(self)@.remove(k@),
            r == (if old(self)@.contains_key(k@) {
                Some(old(self)@[k@])
            } else {
                None
            }),
    {
        let ghost before = *self;
        match self.find(k) {
            Some(i) => {
                proof {
                    before.lemma_at(i as int);
                }
                self.keys.remove(i);
                let v = self.vals.remove(i);
                proof {
                    let after = *self;
                    let ii = i as int;
                    assert(after.keys@ == before.keys@.remove(ii));
                    assert(after.vals@ == before.vals@.remove(ii));
                    assert forall|a: int, b: int| 0 <= a < b < after.keys.len() implies after.keys[a]@
                        != after.keys[b]@ by {
                        let a0 = if a < ii { a } else { a + 1 };
                        let b0 = if b < ii { b } else { b + 1 };
                        assert(after.keys[a] == before.keys[a0]);
                        assert(after.keys[b] == before.keys[b0]);
                    }
                    assert(after.wf());
                    assert forall|q: Seq<u8>| #[trigger]
                        after@.contains_key(q) == before@.remove(k@).contains_key(q) by {
                        if before@.contains_key(q) && q != k@ {
                            let j = choose|j: int| before.has_at(q, j);
                            assert(before.has_at(q, j));
                            assert(j != ii);
                            if j < ii {
                                assert(after.has_at(q, j));
                            } else {
                                assert(after.has_at(q, j - 1));
                            }
                        }
                        if after@.contains_key(q) {
                            let j = choose|j: int| after.has_at(q, j);
                            assert(after.has_at(q, j));
                            if j < ii {
                                assert(before.has_at(q, j));
                            } else {
                                assert(before.has_at(q, j + 1));
                            }
                            assert(q != k@);
                        }
                    }
                    assert forall|q: Seq<u8>| #[trigger]
                        after@.contains_key(q) implies after@[q] == before@.remove(k@)[q] by {
                        let j = choose|j: int| after.has_at(q, j);
                        assert(after.has_at(q, j));
                        after.lemma_at(j);
                        if j < ii {
                            before.lemma_at(j);
                        } else {
                            before.lemma_at(j + 1);
                        }
                    }
                    assert(after@ =~= before@.remove(k@));
                }
                Some(v)
            },
            None => {
                proof {
                    assert(!before@.contains_key(k@));
                    assert(before@ =~= before@.remove(k@));
                }
                None
            },
        }
    }
}

} // verus!
