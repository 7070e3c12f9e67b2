//! A map from text keys to values, kept as two parallel vectors with no key
//! repeated. It stands where the service keeps `BTreeMap<String, _>` values:
//! what a key maps to is all that the service reads of them, and the sorted
//! order that serialisation gives is restored where the map is serialised.
use vstd::prelude::*;
use crate::text::same_text;

verus! {

#[derive(Debug)]
pub struct AssocMap<V: View> {
    keys: Vec<String>,
    vals: Vec<V>,
}

impl<V: View> AssocMap<V> {
    /// Keys and values pair up, and no key occurs twice.
    #[verifier::type_invariant]
    spec fn well_formed(self) -> bool {
        &&& self.keys@.len() == self.vals@.len()
        &&& forall|i: int, j: int|
            0 <= i < j < self.keys@.len() ==> #[trigger] self.keys@[i]@ != #[trigger] self.keys@[j]@
    }

    /// `k` is one of the keys.
    pub closed spec fn has_key(&self, k: Seq<char>) -> bool {
        exists|i: int| 0 <= i < self.keys@.len() && #[trigger] self.keys@[i]@ == k
    }

    /// The position at which `k` is stored.
    pub closed spec fn position(&self, k: Seq<char>) -> int {
        choose|i: int| 0 <= i < self.keys@.len() && #[trigger] self.keys@[i]@ == k
    }

    /// The number of entries.
    pub closed spec fn size(&self) -> nat {
        self.keys@.len()
    }
}

impl<V: View> View for AssocMap<V> {
    type V = Map<Seq<char>, V::V>;

    closed spec fn view(&self) -> Map<Seq<char>, V::V> {
        Map::new(|k: Seq<char>| self.has_key(k), |k: Seq<char>| self.vals@[self.position(k)]@)
    }
}

impl<V: View> AssocMap<V> {
    /// The position of a key is where it is stored, and no other.
    proof fn lemma_position(&self, i: int)
        requires
            self.well_formed(),
            0 <= i < self.keys@.len(),
        ensures
            self.has_key(self.keys@[i]@),
            self.position(self.keys@[i]@) == i,
            self@.contains_key(self.keys@[i]@),
            self@[self.keys@[i]@] == self.vals@[i]@,
    {
        let k = self.keys@[i]@;
        assert(self.has_key(k));
        let p = self.position(k);
        if p != i {
            if p < i {
                assert(self.keys@[p]@ != self.keys@[i]@);
            } else {
                assert(self.keys@[i]@ != self.keys@[p]@);
            }
        }
    }

    /// A map with no entries.
    pub fn new() -> (r: Self)
        ensures
            r@ == Map::<Seq<char>, V::V>::empty(),
            r.size() == 0,
    {
        let r = AssocMap { keys: Vec::new(), vals: Vec::new() };
        assert(r@ =~= Map::<Seq<char>, V::V>::empty());
        r
    }

    /// The number of entries, one per key of the view.
    pub fn len(&self) -> (n: usize)
        ensures
            n == self.size(),
            n == self@.dom().len(),
    {
        proof {
            use_type_invariant(self);
            self.lemma_size_is_dom_len();
        }
        self.keys.len()
    }

    /// The domain of the view has as many keys as the map has entries.
    proof fn lemma_size_is_dom_len(&self)
        requires
            self.well_formed(),
        ensures
            self@.dom().finite(),
            self@.dom().len() == self.size(),
    {
        let ks = self.keys@.map_values(|s: String| s@);
        assert forall|i: int, j: int| 0 <= i < j < ks.len() implies ks[i] != ks[j] by {
            assert(self.keys@[i]@ != self.keys@[j]@);
        }
        assert(ks.no_duplicates());
        ks.unique_seq_to_set();
        assert forall|k: Seq<char>| #[trigger] self@.dom().contains(k) <==> ks.to_set().contains(k) by {
            if self@.dom().contains(k) {
                let i = self.position(k);
                assert(ks[i] == k);
            }
            if ks.to_set().contains(k) {
                let i = choose|i: int| 0 <= i < ks.len() && ks[i] == k;
                assert(self.keys@[i]@ == k);
            }
        }
        assert(self@.dom() =~= ks.to_set());
    }

    /// The position of `k`, if it is a key.
    pub fn find(&self, k: &str) -> (r: Option<usize>)
        ensures
            match r {
                Some(i) => i < self.size() && self@.contains_key(k@) && self.position(k@) == i,
                None => !self@.contains_key(k@),
            },
    {
        proof {
            use_type_invariant(self);
        }
        let mut i: usize = 0;
        while i < self.keys.len()
            invariant
                self.well_formed(),
                i <= self.keys@.len(),
                forall|j: int| 0 <= j < i ==> #[trigger] self.keys@[j]@ != k@,
            decreases self.keys@.len() - i,
        {
            if same_text(self.keys[i].as_str(), k) {
                proof {
                    self.lemma_position(i as int);
                }
                return Some(i);
            }
            i = i + 1;
        }
        None
    }

    /// What `k` maps to, if anything.
    pub fn get(&self, k: &str) -> (r: Option<&V>)
        ensures
            match r {
                Some(v) => self@.contains_key(k@) && self@[k@] == v@,
                None => !self@.contains_key(k@),
            },
    {
        proof {
            use_type_invariant(self);
        }
        match self.find(k) {
            Some(i) => {
                proof {
                    self.lemma_position(i as int);
                }
                Some(&self.vals[i])
            },
            None => None,
        }
    }

    /// Takes out the entry at position `i`; the view loses its key.
    fn remove_at(&mut self, i: usize) -> (r: (String, V))
        requires
            i < old(self).size(),
        ensures
            old(self)@.contains_key(r.0@),
            old(self).position(r.0@) == i,
            r.1@ == old(self)@[r.0@],
            final(self)@ == old(self)@.remove(r.0@),
            final(self).size() + 1 == old(self).size(),
    {
        proof {
            use_type_invariant(&*self);
            self.lemma_position(i as int);
        }
        let ghost before = *self;
        let mut taken = AssocMap { keys: Vec::new(), vals: Vec::new() };
        std::mem::swap(self, &mut taken);
        let AssocMap { mut keys, mut vals } = taken;
        let k = keys.remove(i);
        let v = vals.remove(i);
        proof {
            assert forall|a: int, b: int| 0 <= a < b < keys@.len() implies #[trigger] keys@[a]@
                != #[trigger] keys@[b]@ by {
                let oa = if a < i { a } else { a + 1 };
                let ob = if b < i { b } else { b + 1 };
                assert(keys@[a] == before.keys@[oa]);
                assert(keys@[b] == before.keys@[ob]);
                assert(before.keys@[oa]@ != before.keys@[ob]@);
            }
        }
        *self = AssocMap { keys, vals };
        proof {
            let after = *self;
            assert forall|key: Seq<char>| #[trigger] after@.contains_key(key)
                <==> before@.remove(k@).contains_key(key) by {
                if after@.contains_key(key) {
                    let p = after.position(key);
                    let op = if p < i { p } else { p + 1 };
                    assert(before.keys@[op]@ == key);
                    assert(before.has_key(key));
                    if key == k@ {
                        before.lemma_position(op);
                    }
                }
                if before@.remove(k@).contains_key(key) {
                    let op = before.position(key);
                    assert(op != i);
                    let p = if op < i { op } else { op - 1 };
                    assert(after.keys@[p]@ == key);
                }
            }
            assert forall|key: Seq<char>| #[trigger] after@.contains_key(key)
                implies after@[key] == before@.remove(k@)[key] by {
                let p = after.position(key);
                let op = if p < i { p } else { p + 1 };
                assert(after.keys@[p] == before.keys@[op]);
                assert(after.vals@[p] == before.vals@[op]);
                before.lemma_position(op);
            }
            assert(after@ =~= before@.remove(k@));
        }
        (k, v)
    }

    /// Adds an entry under a key that is not in the map yet.
    fn push_new(&mut self, k: String, v: V)
        requires
            !old(self)@.contains_key(k@),
        ensures
            final(self)@ == old(self)@.insert(k@, v@),
            final(self).size() == old(self).size() + 1,
    {
        proof {
            use_type_invariant(&*self);
        }
        let ghost before = *self;
        let mut taken = AssocMap { keys: Vec::new(), vals: Vec::new() };
        std::mem::swap(self, &mut taken);
        let AssocMap { mut keys, mut vals } = taken;
        let ghost kv = k@;
        keys.push(k);
        vals.push(v);
        proof {
            assert forall|a: int, b: int| 0 <= a < b < keys@.len() implies #[trigger] keys@[a]@
                != #[trigger] keys@[b]@ by {
                if b == keys@.len() - 1 {
                    assert(keys@[a] == before.keys@[a]);
                    if before.keys@[a]@ == kv {
                        assert(before.has_key(kv));
                    }
                } else {
                    assert(before.keys@[a]@ != before.keys@[b]@);
                }
            }
        }
        *self = AssocMap { keys, vals };
        proof {
            let after = *self;
            let n = before.keys@.len() as int;
            assert forall|key: Seq<char>| #[trigger] after@.contains_key(key)
                <==> before@.insert(kv, v@).contains_key(key) by {
                if after@.contains_key(key) {
                    let p = after.position(key);
                    if p < n {
                        assert(before.keys@[p]@ == key);
                        assert(before.has_key(key));
                    }
                }
                if key == kv {
                    assert(after.keys@[n]@ == key);
                } else if before@.contains_key(key) {
                    let p = before.position(key);
                    assert(after.keys@[p]@ == key);
                }
            }
            assert forall|key: Seq<char>| #[trigger] after@.contains_key(key)
                implies after@[key] == before@.insert(kv, v@)[key] by {
                let p = after.position(key);
                after.lemma_position(p);
                if p < n {
                    before.lemma_position(p);
                }
            }
            assert(after@ =~= before@.insert(kv, v@));
        }
    }

    /// Maps `k` to `v`, in place of what it mapped to before.
    pub fn insert(&mut self, k: String, v: V)
        ensures
            final(self)@ == old(self)@.insert(k@, v@),
    {
        match self.find(k.as_str()) {
            Some(i) => {
                let _ = self.remove_at(i);
                self.push_new(k, v);
                proof {
                    assert(old(self)@.remove(k@).insert(k@, v@) =~= old(self)@.insert(k@, v@));
                }
            },
            None => {
                self.push_new(k, v);
            },
        }
    }

    /// Takes out what `k` maps to, leaving the rest of the map.
    pub fn remove(&mut self, k: &str) -> (r: Option<V>)
        ensures
            match r {
                Some(v) => old(self)@.contains_key(k@) && v@ == old(self)@[k@],
                None => !old(self)@.contains_key(k@),
            },
            final(self)@ == old(self)@.remove(k@),
    {
        match self.find(k) {
            Some(i) => {
                let (_, v) = self.remove_at(i);
                Some(v)
            },
            None => {
                assert(old(self)@.remove(k@) =~= old(self)@);
                None
            },
        }
    }

    /// The entries, each key once, in the order they are stored.
    pub fn into_entries(self) -> (r: Vec<(String, V)>)
        ensures
            r@.len() == self@.dom().len(),
            forall|i: int| 0 <= i < r@.len() ==> self@.contains_key(#[trigger] r@[i].0@)
                && self@[r@[i].0@] == r@[i].1@,
            forall|i: int, j: int| 0 <= i < j < r@.len() ==> #[trigger] r@[i].0@ != #[trigger] r@[j].0@,
    {
        proof {
            use_type_invariant(&self);
            self.lemma_size_is_dom_len();
        }
        let ghost orig = self;
        let AssocMap { mut keys, mut vals } = self;
        let mut out: Vec<(String, V)> = Vec::new();
        let ghost n = keys@.len();
        while keys.len() > 0
            invariant
                keys@.len() == vals@.len(),
                keys@.len() + out@.len() == n,
                n == orig.keys@.len(),
                n == orig.vals@.len(),
                keys@ == orig.keys@.take(keys@.len() as int),
                vals@ == orig.vals@.take(vals@.len() as int),
                forall|i: int| 0 <= i < out@.len() ==> #[trigger] out@[i].0 == orig.keys@[n - 1 - i]
                    && out@[i].1 == orig.vals@[n - 1 - i],
            decreases keys@.len(),
        {
            let ghost m = keys@.len() as int;
            assert(orig.keys@.take(m)[m - 1] == orig.keys@[m - 1]);
            assert(orig.vals@.take(m)[m - 1] == orig.vals@[m - 1]);
            let k = keys.pop().unwrap();
            let v = vals.pop().unwrap();
            proof {
                assert(k == orig.keys@[m - 1]);
                assert(v == orig.vals@[m - 1]);
                assert(keys@ =~= orig.keys@.take(m - 1));
                assert(vals@ =~= orig.vals@.take(m - 1));
            }
            let ghost before = out@;
            out.push((k, v));
            proof {
                assert forall|i: int| 0 <= i < out@.len() implies #[trigger] out@[i].0 == orig.keys@[n - 1 - i]
                    && out@[i].1 == orig.vals@[n - 1 - i] by {
                    if i < before.len() {
                        assert(out@[i] == before[i]);
                    }
                }
            }
        }
        proof {
            assert forall|i: int| 0 <= i < out@.len() implies orig@.contains_key(#[trigger] out@[i].0@)
                && orig@[out@[i].0@] == out@[i].1@ by {
                orig.lemma_position(n - 1 - i);
            }
            assert forall|i: int, j: int| 0 <= i < j < out@.len() implies #[trigger] out@[i].0@
                != #[trigger] out@[j].0@ by {
                assert(orig.keys@[n - 1 - j]@ != orig.keys@[n - 1 - i]@);
            }
        }
        out
    }
}

} // verus!
