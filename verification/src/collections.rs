//! Small vector-backed sets and maps with a mathematical view.
//!
//! The analysis state keys everything by small integer identifiers (locals,
//! object ids, protocol ids). These containers keep their elements in a `Vec`
//! without duplicates, so every operation is a verified loop and every
//! container is viewed as a `Set` or a `Map`.

use vstd::prelude::*;

verus! {

/// A key type whose executable equality coincides with spec equality.
pub trait Key: Copy {
    fn same(&self, other: &Self) -> (r: bool)
        ensures
            r == (*self == *other),
    ;
}

impl Key for u32 {
    fn same(&self, other: &Self) -> (r: bool) {
        *self == *other
    }
}

impl Key for usize {
    fn same(&self, other: &Self) -> (r: bool) {
        *self == *other
    }
}

/// An unordered pair of locals, stored with `lo <= hi` by its producers.
#[derive(Clone, Copy, PartialEq, Eq, Structural, Debug)]
pub struct LocalPair {
    pub lo: u32,
    pub hi: u32,
}

impl Key for LocalPair {
    fn same(&self, other: &Self) -> (r: bool) {
        self.lo == other.lo && self.hi == other.hi
    }
}

/// If `s` has no duplicates and `s[i] == k`, the first index of `k` is `i`.
pub proof fn lemma_index_of_unique<K>(s: Seq<K>, i: int)
    requires
        s.no_duplicates(),
        0 <= i < s.len(),
    ensures
        s.index_of(s[i]) == i,
        s.contains(s[i]),
{
    let k = s[i];
    assert(s[i] == k);
    let j = s.index_of(k);
    assert(0 <= j < s.len() && s[j] == k);
}

/// Growing a prefix by one element adds that element to its set.
pub proof fn lemma_prefix_step<K>(s: Seq<K>, i: int)
    requires
        0 <= i < s.len(),
    ensures
        s.subrange(0, i + 1).to_set() == s.subrange(0, i).to_set().insert(s[i]),
        forall|y: K| s.subrange(0, i + 1).contains(y) <==> (s.subrange(0, i).contains(y) || y == s[i]),
{
    let q = s.subrange(0, i + 1);
    let p = s.subrange(0, i);
    assert forall|y: K| q.contains(y) <==> (p.contains(y) || y == s[i]) by {
        if q.contains(y) {
            let k = choose|k: int| 0 <= k < q.len() && q[k] == y;
            if k < i {
                assert(p[k] == y);
            }
        }
        if p.contains(y) {
            let k = choose|k: int| 0 <= k < p.len() && p[k] == y;
            assert(q[k] == y);
        }
        if y == s[i] {
            assert(q[i] == y);
        }
    }
    assert(q.to_set() =~= p.to_set().insert(s[i]));
}

// ───────────────────────────── sets ─────────────────────────────

/// A finite set of keys, stored without duplicates.
pub struct VecSet<K: Key> {
    items: Vec<K>,
}

impl<K: Key> View for VecSet<K> {
    type V = Set<K>;

    closed spec fn view(&self) -> Set<K> {
        self.items@.to_set()
    }
}

impl<K: Key> VecSet<K> {
    #[verifier::type_invariant]
    closed spec fn inv(&self) -> bool {
        self.items@.no_duplicates()
    }

    /// The elements in storage order.
    pub closed spec fn elems(&self) -> Seq<K> {
        self.items@
    }

    pub fn lemma_elems(&self)
        ensures
            self.elems().no_duplicates(),
            self.elems().to_set() == self@,
            forall|x: K| self@.contains(x) <==> self.elems().contains(x),
            self@.finite(),
            self@.len() == self.elems().len(),
    {
        proof {
            use_type_invariant(self);
            self.items@.unique_seq_to_set();
        }
    }

    pub fn new() -> (r: Self)
        ensures
            r@ == Set::<K>::empty(),
    {
        let r = VecSet { items: Vec::new() };
        assert(r@ =~= Set::<K>::empty());
        r
    }

    pub fn singleton(x: K) -> (r: Self)
        ensures
            r@ == set![x],
    {
        let mut v = Vec::new();
        v.push(x);
        let r = VecSet { items: v };
        assert(r.items@ =~= seq![x]);
        assert(r.items@[0] == x);
        assert(r@ =~= set![x]);
        r
    }

    pub fn len(&self) -> (r: usize)
        ensures
            r == self.elems().len(),
    {
        self.items.len()
    }

    pub fn at(&self, i: usize) -> (r: K)
        requires
            i < self.elems().len(),
        ensures
            r == self.elems()[i as int],
    {
        self.items[i]
    }

    pub fn is_empty(&self) -> (r: bool)
        ensures
            r == (self@ == Set::<K>::empty()),
    {
        if self.items.len() == 0 {
            assert(self@ =~= Set::<K>::empty());
            true
        } else {
            assert(self.items@.contains(self.items@[0]));
            assert(self@.contains(self.items@[0]));
            false
        }
    }

    fn find(&self, x: K) -> (r: Option<usize>)
        ensures
            match r {
                Some(i) => i < self.items@.len() && self.items@[i as int] == x,
                None => !self.items@.contains(x),
            },
    {
        let mut i: usize = 0;
        while i < self.items.len()
            invariant
                i <= self.items@.len(),
                forall|j: int| 0 <= j < i ==> self.items@[j] != x,
            decreases self.items@.len() - i,
        {
            if self.items[i].same(&x) {
                return Some(i);
            }
            i = i + 1;
        }
        None
    }

    pub fn contains(&self, x: K) -> (r: bool)
        ensures
            r == self@.contains(x),
    {
        match self.find(x) {
            Some(i) => {
                assert(self.items@.contains(self.items@[i as int]));
                true
            },
            None => false,
        }
    }

    /// Adds `x`; returns whether it was absent before.
    pub fn insert(&mut self, x: K) -> (r: bool)
        ensures
            final(self)@ == old(self)@.insert(x),
            r == !old(self)@.contains(x),
    {
        proof { use_type_invariant(&*self); }
        match self.find(x) {
            Some(i) => {
                assert(self.items@.contains(self.items@[i as int]));
                assert(self@.insert(x) =~= self@);
                false
            },
            None => {
                let ghost old_items = self.items@;
                let mut v = self.copy_items();
                v.push(x);
                *self = VecSet { items: v };
                proof {
                    assert(self.items@ == old_items.push(x));
                    assert forall|a: int, b: int|
                        0 <= a < self.items@.len() && 0 <= b < self.items@.len() && a != b
                        implies self.items@[a] != self.items@[b] by {
                        if a == old_items.len() as int {
                            assert(old_items.contains(self.items@[b]));
                        } else if b == old_items.len() as int {
                            assert(old_items.contains(self.items@[a]));
                        }
                    }
                    assert forall|y: K| self@.contains(y) <==> old_items.to_set().insert(x).contains(y) by {
                        if old_items.contains(y) {
                            let k = choose|k: int| 0 <= k < old_items.len() && old_items[k] == y;
                            assert(self.items@[k] == y);
                        }
                        if self.items@.contains(y) && y != x {
                            let k = choose|k: int| 0 <= k < self.items@.len() && self.items@[k] == y;
                            assert(old_items[k] == y);
                        }
                        if y == x {
                            assert(self.items@[old_items.len() as int] == x);
                        }
                    }
                    assert(self@ =~= old_items.to_set().insert(x));
                }
                true
            },
        }
    }

    /// Removes `x`; returns whether it was present before.
    pub fn remove(&mut self, x: K) -> (r: bool)
        ensures
            final(self)@ == old(self)@.remove(x),
            r == old(self)@.contains(x),
    {
        proof { use_type_invariant(&*self); }
        match self.find(x) {
            Some(i) => {
                let ghost old_items = self.items@;
                let mut v = self.copy_items();
                v.remove(i);
                *self = VecSet { items: v };
                proof {
                    assert(self.items@ == old_items.remove(i as int));
                    assert forall|a: int, b: int|
                        0 <= a < self.items@.len() && 0 <= b < self.items@.len() && a != b
                        implies self.items@[a] != self.items@[b] by {
                        let a2 = if a < i { a } else { a + 1 };
                        let b2 = if b < i { b } else { b + 1 };
                        assert(self.items@[a] == old_items[a2]);
                        assert(self.items@[b] == old_items[b2]);
                    }
                    assert forall|y: K| self@.contains(y) <==> old_items.to_set().remove(x).contains(y) by {
                        if self.items@.contains(y) {
                            let k = choose|k: int| 0 <= k < self.items@.len() && self.items@[k] == y;
                            let k2 = if k < i { k } else { k + 1 };
                            assert(old_items[k2] == y);
                            assert(k2 != i as int);
                            assert(old_items.contains(y));
                        }
                        if old_items.contains(y) && y != x {
                            let k = choose|k: int| 0 <= k < old_items.len() && old_items[k] == y;
                            assert(k != i as int);
                            let k2 = if k < i { k } else { k - 1 };
                            assert(self.items@[k2] == y);
                        }
                    }
                    assert(self@ =~= old_items.to_set().remove(x));
                    assert(old_items.contains(old_items[i as int]));
                }
                true
            },
            None => {
                assert(self@.remove(x) =~= self@);
                false
            },
        }
    }

    /// An independent copy with the same elements.
    pub fn duplicate(&self) -> (r: Self)
        ensures
            r@ == self@,
            r.elems() == self.elems(),
    {
        proof { use_type_invariant(self); }
        VecSet { items: self.copy_items() }
    }

    fn copy_items(&self) -> (v: Vec<K>)
        ensures
            v@ == self.items@,
    {
        let mut v: Vec<K> = Vec::new();
        let mut i: usize = 0;
        while i < self.items.len()
            invariant
                i <= self.items@.len(),
                v@ == self.items@.subrange(0, i as int),
            decreases self.items@.len() - i,
        {
            v.push(self.items[i]);
            i = i + 1;
            assert(v@ =~= self.items@.subrange(0, i as int));
        }
        assert(v@ =~= self.items@);
        v
    }

    /// `self := self ∪ other`; returns whether `self` grew.
    pub fn union_with(&mut self, other: &Self) -> (changed: bool)
        ensures
            final(self)@ == old(self)@.union(other@),
            changed == (final(self)@ != old(self)@),
    {
        other.lemma_elems();
        let ghost start = self@;
        let ghost mut w: K = other.elems()[0];
        let mut changed = false;
        let mut i: usize = 0;
        while i < other.len()
            invariant
                i <= other.elems().len(),
                self@ == start.union(other.elems().subrange(0, i as int).to_set()),
                changed ==> (self@.contains(w) && !start.contains(w)),
                !changed ==> self@ == start,
                other.elems().to_set() == other@,
            decreases other.elems().len() - i,
        {
            let x = other.at(i);
            let added = self.insert(x);
            if added {
                changed = true;
                proof { w = x; }
            }
            proof {
                lemma_prefix_step(other.elems(), i as int);
                if added {
                    assert(!start.contains(x));
                }
                assert(self@ =~= start.union(other.elems().subrange(0, i + 1).to_set()));
            }
            i = i + 1;
        }
        proof {
            assert(other.elems().subrange(0, i as int) =~= other.elems());
        }
        changed
    }

    /// Keeps the elements for which `keep` holds, in storage order.
    /// `dropped` reports whether any element was removed.
    fn filtered(&self, keep: Ghost<spec_fn(K) -> bool>, decide: Vec<bool>) -> (r: (Self, bool))
        requires
            decide@.len() == self.elems().len(),
            forall|j: int| 0 <= j < decide@.len() ==> decide@[j] == (keep@)(self.elems()[j]),
        ensures
            forall|y: K| #[trigger] r.0@.contains(y) <==> (self@.contains(y) && (keep@)(y)),
            r.1 == exists|y: K| self@.contains(y) && !(keep@)(y),
    {
        proof { use_type_invariant(self); }
        let mut v: Vec<K> = Vec::new();
        let mut dropped = false;
        let ghost mut w: K = self.items@[0];
        let mut i: usize = 0;
        while i < self.items.len()
            invariant
                i <= self.items@.len(),
                decide@.len() == self.items@.len(),
                forall|j: int| 0 <= j < decide@.len() ==> decide@[j] == (keep@)(self.items@[j]),
                self.items@.no_duplicates(),
                v@.no_duplicates(),
                forall|y: K| v@.contains(y) <==> (self.items@.subrange(0, i as int).contains(y) && (keep@)(y)),
                dropped ==> (self.items@.contains(w) && !(keep@)(w)),
                !dropped ==> forall|j: int| 0 <= j < i ==> (keep@)(self.items@[j]),
            decreases self.items@.len() - i,
        {
            let x = self.items[i];
            let ghost next_prefix = self.items@.subrange(0, i + 1);
            let ghost v_before = v@;
            proof {
                lemma_prefix_step(self.items@, i as int);
                assert(decide@[i as int] == (keep@)(x));
            }
            if decide[i] {
                proof {
                    if v@.contains(x) {
                        let k = choose|k: int| 0 <= k < i && self.items@.subrange(0, i as int)[k] == x;
                        assert(self.items@[k] == self.items@[i as int]);
                    }
                }
                let ghost before = v@;
                v.push(x);
                proof {
                    assert forall|a: int, b: int| 0 <= a < v@.len() && 0 <= b < v@.len() && a != b
                        implies v@[a] != v@[b] by {
                        if a == before.len() as int {
                            assert(before.contains(v@[b]));
                        } else if b == before.len() as int {
                            assert(before.contains(v@[a]));
                        }
                    }
                    assert forall|y: K| v@.contains(y) <==> (before.contains(y) || y == x) by {
                        if v@.contains(y) {
                            let k = choose|k: int| 0 <= k < v@.len() && v@[k] == y;
                            if k < before.len() {
                                assert(before[k] == y);
                            }
                        }
                        if before.contains(y) {
                            let k = choose|k: int| 0 <= k < before.len() && before[k] == y;
                            assert(v@[k] == y);
                        }
                        if y == x {
                            assert(v@[before.len() as int] == y);
                        }
                    }
                }
            } else {
                dropped = true;
                proof {
                    w = x;
                    assert(self.items@.contains(self.items@[i as int]));
                }
            }
            proof {
                assert forall|y: K| v@.contains(y) <==> (next_prefix.contains(y) && (keep@)(y)) by {
                    assert(next_prefix.contains(y) <==> (self.items@.subrange(0, i as int).contains(y) || y == x));
                    assert(v_before.contains(y) <==> (self.items@.subrange(0, i as int).contains(y) && (keep@)(y)));
                    if decide@[i as int] {
                        assert(v@.contains(y) <==> (v_before.contains(y) || y == x));
                    } else {
                        assert(v@ == v_before);
                    }
                }
            }
            i = i + 1;
            assert(self.items@.subrange(0, i as int) == next_prefix);
        }
        proof {
            assert(self.items@.subrange(0, i as int) =~= self.items@);
            assert forall|y: K| (VecSet { items: v })@.contains(y) <==> (self@.contains(y) && (keep@)(y)) by {}
            if dropped {
                assert(self@.contains(w) && !(keep@)(w));
            }
            if !dropped {
                assert forall|y: K| self@.contains(y) implies (keep@)(y) by {
                    let k = choose|k: int| 0 <= k < self.items@.len() && self.items@[k] == y;
                }
            }
        }
        (VecSet { items: v }, dropped)
    }

    fn membership_in(&self, other: &Self) -> (d: Vec<bool>)
        ensures
            d@.len() == self.elems().len(),
            forall|j: int| 0 <= j < d@.len() ==> d@[j] == other@.contains(self.elems()[j]),
    {
        let mut decide: Vec<bool> = Vec::new();
        let mut i: usize = 0;
        while i < self.len()
            invariant
                i <= self.elems().len(),
                decide@.len() == i,
                forall|j: int| 0 <= j < i ==> decide@[j] == other@.contains(self.elems()[j]),
            decreases self.elems().len() - i,
        {
            decide.push(other.contains(self.at(i)));
            i = i + 1;
        }
        decide
    }

    /// `self := self ∩ other`; returns whether `self` shrank.
    pub fn intersect_with(&mut self, other: &Self) -> (changed: bool)
        ensures
            final(self)@ == old(self)@.intersect(other@),
            changed == (final(self)@ != old(self)@),
    {
        let ghost keep = |y: K| other@.contains(y);
        let decide = self.membership_in(other);
        let res = self.filtered(Ghost(keep), decide);
        let r = res.0;
        let dropped = res.1;
        proof {
            assert forall|y: K| r@.contains(y) <==> self@.intersect(other@).contains(y) by {
                assert(keep(y) == other@.contains(y));
                assert(r@.contains(y) <==> (self@.contains(y) && keep(y)));
            }
            assert(r@ =~= self@.intersect(other@));
            if dropped {
                let y = choose|y: K| self@.contains(y) && !keep(y);
                assert(!r@.contains(y));
            } else {
                assert forall|y: K| self@.contains(y) implies other@.contains(y) by {
                    assert(keep(y) == other@.contains(y));
                }
                assert(r@ =~= self@);
            }
        }
        *self = r;
        dropped
    }
}

impl VecSet<LocalPair> {
    fn not_touching(&self, l: u32) -> (d: Vec<bool>)
        ensures
            d@.len() == self.elems().len(),
            forall|j: int| 0 <= j < d@.len() ==> d@[j] == (self.elems()[j].lo != l && self.elems()[j].hi != l),
    {
        let mut decide: Vec<bool> = Vec::new();
        let mut i: usize = 0;
        while i < self.len()
            invariant
                i <= self.elems().len(),
                decide@.len() == i,
                forall|j: int| 0 <= j < i ==> decide@[j] == (self.elems()[j].lo != l && self.elems()[j].hi != l),
            decreases self.elems().len() - i,
        {
            let p = self.at(i);
            decide.push(p.lo != l && p.hi != l);
            i = i + 1;
        }
        decide
    }

    /// Drops every pair that mentions `l`.
    pub fn retain_not_touching(&mut self, l: u32)
        ensures
            forall|p: LocalPair| final(self)@.contains(p) <==> (old(self)@.contains(p) && p.lo != l && p.hi != l),
    {
        let ghost keep = |p: LocalPair| p.lo != l && p.hi != l;
        let decide = self.not_touching(l);
        let (r, _) = self.filtered(Ghost(keep), decide);
        *self = r;
    }
}

// ───────────────────────────── maps ─────────────────────────────

/// A finite map from keys to values, stored as parallel vectors with
/// distinct keys.
pub struct VecMap<K: Key, V> {
    keys: Vec<K>,
    vals: Vec<V>,
}

impl<K: Key, V> View for VecMap<K, V> {
    type V = Map<K, V>;

    closed spec fn view(&self) -> Map<K, V> {
        Map::new(|k: K| self.keys@.contains(k), |k: K| self.vals@[self.keys@.index_of(k)])
    }
}

impl<K: Key, V> VecMap<K, V> {
    #[verifier::type_invariant]
    closed spec fn inv(&self) -> bool {
        &&& self.keys@.no_duplicates()
        &&& self.keys@.len() == self.vals@.len()
    }

    /// Keys in storage order.
    pub closed spec fn key_seq(&self) -> Seq<K> {
        self.keys@
    }

    /// Values in storage order, aligned with `key_seq`.
    pub closed spec fn val_seq(&self) -> Seq<V> {
        self.vals@
    }

    /// Relates the storage order to the map view.
    pub fn lemma_seqs(&self)
        ensures
            self.key_seq().no_duplicates(),
            self.key_seq().len() == self.val_seq().len(),
            forall|i: int| 0 <= i < self.key_seq().len() ==> #[trigger] self@.contains_key(self.key_seq()[i])
                && self@[self.key_seq()[i]] == self.val_seq()[i],
            forall|k: K| #[trigger] self@.contains_key(k) <==> self.key_seq().contains(k),
            self@.dom().finite(),
    {
        proof {
            use_type_invariant(self);
            assert forall|i: int| 0 <= i < self.key_seq().len() implies #[trigger] self@.contains_key(self.key_seq()[i])
                && self@[self.key_seq()[i]] == self.val_seq()[i] by {
                lemma_index_of_unique(self.keys@, i);
            }
            assert(self@.dom() =~= self.keys@.to_set());
        }
    }

    pub fn new() -> (r: Self)
        ensures
            r@ == Map::<K, V>::empty(),
    {
        let r = VecMap { keys: Vec::new(), vals: Vec::new() };
        assert(r@ =~= Map::<K, V>::empty());
        r
    }

    pub fn len(&self) -> (r: usize)
        ensures
            r == self.key_seq().len(),
    {
        self.keys.len()
    }

    pub fn key_at(&self, i: usize) -> (r: K)
        requires
            i < self.key_seq().len(),
        ensures
            r == self.key_seq()[i as int],
    {
        self.keys[i]
    }

    pub fn val_at(&self, i: usize) -> (r: &V)
        requires
            i < self.key_seq().len(),
        ensures
            *r == self.val_seq()[i as int],
    {
        proof { use_type_invariant(self); }
        &self.vals[i]
    }

    fn find(&self, k: K) -> (r: Option<usize>)
        ensures
            match r {
                Some(i) => i < self.keys@.len() && self.keys@[i as int] == k,
                None => !self.keys@.contains(k),
            },
    {
        let mut i: usize = 0;
        while i < self.keys.len()
            invariant
                i <= self.keys@.len(),
                forall|j: int| 0 <= j < i ==> self.keys@[j] != k,
            decreases self.keys@.len() - i,
        {
            if self.keys[i].same(&k) {
                return Some(i);
            }
            i = i + 1;
        }
        None
    }

    pub fn is_empty(&self) -> (r: bool)
        ensures
            r == (self@.dom() == Set::<K>::empty()),
    {
        self.lemma_seqs();
        if self.keys.len() == 0 {
            assert(self@.dom() =~= Set::<K>::empty());
            true
        } else {
            assert(self@.contains_key(self.key_seq()[0]));
            false
        }
    }

    pub fn contains_key(&self, k: K) -> (r: bool)
        ensures
            r == self@.contains_key(k),
    {
        match self.find(k) {
            Some(i) => {
                assert(self.keys@.contains(self.keys@[i as int]));
                true
            },
            None => false,
        }
    }

    pub fn get(&self, k: K) -> (r: Option<&V>)
        ensures
            match r {
                Some(v) => self@.contains_key(k) && *v == self@[k],
                None => !self@.contains_key(k),
            },
    {
        proof { use_type_invariant(self); }
        match self.find(k) {
            Some(i) => {
                proof { lemma_index_of_unique(self.keys@, i as int); }
                Some(&self.vals[i])
            },
            None => None,
        }
    }

    fn take_parts(&mut self) -> (r: (Vec<K>, Vec<V>))
        ensures
            r.0@ == old(self).keys@,
            r.1@ == old(self).vals@,
            r.0@.no_duplicates(),
            r.0@.len() == r.1@.len(),
            final(self)@ == Map::<K, V>::empty(),
    {
        proof { use_type_invariant(&*self); }
        let mut tmp = VecMap::new();
        core::mem::swap(self, &mut tmp);
        let VecMap { keys, vals } = tmp;
        (keys, vals)
    }

    /// `self[k] := v`.
    pub fn insert(&mut self, k: K, v: V)
        ensures
            final(self)@ == old(self)@.insert(k, v),
    {
        let ghost old_map = self@;
        let f = self.find(k);
        let (mut keys, mut vals) = self.take_parts();
        let ghost ok = keys@;
        let ghost ov = vals@;
        match f {
            Some(i) => {
                vals.set(i, v);
                let r = VecMap { keys, vals };
                proof {
                    assert forall|x: K| r@.contains_key(x) <==> old_map.insert(k, v).contains_key(x) by {
                        if x == k {
                            assert(ok.contains(ok[i as int]));
                        }
                    }
                    assert forall|x: K| #[trigger] r@.contains_key(x) implies r@[x] == old_map.insert(k, v)[x] by {
                        let j = ok.index_of(x);
                        assert(0 <= j < ok.len() && ok[j] == x);
                        if x == k {
                            lemma_index_of_unique(ok, i as int);
                        }
                    }
                    assert(r@ =~= old_map.insert(k, v));
                }
                *self = r;
            },
            None => {
                keys.push(k);
                vals.push(v);
                proof {
                    assert forall|a: int, b: int|
                        0 <= a < keys@.len() && 0 <= b < keys@.len() && a != b
                        implies keys@[a] != keys@[b] by {
                        if a == ok.len() as int {
                            assert(ok.contains(keys@[b]));
                        } else if b == ok.len() as int {
                            assert(ok.contains(keys@[a]));
                        }
                    }
                }
                let r = VecMap { keys, vals };
                proof {
                    assert forall|x: K| r@.contains_key(x) <==> old_map.insert(k, v).contains_key(x) by {
                        if r.keys@.contains(x) && x != k {
                            let j = choose|j: int| 0 <= j < r.keys@.len() && r.keys@[j] == x;
                            assert(ok[j] == x);
                        }
                        if ok.contains(x) {
                            let j = choose|j: int| 0 <= j < ok.len() && ok[j] == x;
                            assert(r.keys@[j] == x);
                        }
                        if x == k {
                            assert(r.keys@[ok.len() as int] == x);
                        }
                    }
                    assert forall|x: K| #[trigger] r@.contains_key(x) implies r@[x] == old_map.insert(k, v)[x] by {
                        if x == k {
                            lemma_index_of_unique(r.keys@, ok.len() as int);
                        } else {
                            let j = r.keys@.index_of(x);
                            assert(0 <= j < r.keys@.len() && r.keys@[j] == x);
                            assert(j < ok.len());
                            assert(ok[j] == x);
                            lemma_index_of_unique(ok, j);
                            lemma_index_of_unique(r.keys@, j);
                        }
                    }
                    assert(r@ =~= old_map.insert(k, v));
                }
                *self = r;
            },
        }
    }

    /// Removes `k`, returning its value if it was present.
    pub fn remove(&mut self, k: K) -> (r: Option<V>)
        ensures
            final(self)@ == old(self)@.remove(k),
            match r {
                Some(v) => old(self)@.contains_key(k) && v == old(self)@[k],
                None => !old(self)@.contains_key(k),
            },
    {
        let ghost old_map = self@;
        proof { use_type_invariant(&*self); }
        match self.find(k) {
            None => {
                assert(old_map.remove(k) =~= old_map);
                None
            },
            Some(i) => {
                proof { lemma_index_of_unique(self.keys@, i as int); }
                let (mut keys, mut vals) = self.take_parts();
                let ghost ok = keys@;
                let ghost ov = vals@;
                keys.remove(i);
                let v = vals.remove(i);
                proof {
                    assert forall|a: int, b: int|
                        0 <= a < keys@.len() && 0 <= b < keys@.len() && a != b
                        implies keys@[a] != keys@[b] by {
                        let a2 = if a < i { a } else { a + 1 };
                        let b2 = if b < i { b } else { b + 1 };
                        assert(keys@[a] == ok[a2]);
                        assert(keys@[b] == ok[b2]);
                    }
                }
                let r = VecMap { keys, vals };
                proof {
                    assert forall|x: K| r@.contains_key(x) <==> old_map.remove(k).contains_key(x) by {
                        if r.keys@.contains(x) {
                            let j = choose|j: int| 0 <= j < r.keys@.len() && r.keys@[j] == x;
                            let j2 = if j < i { j } else { j + 1 };
                            assert(ok[j2] == x);
                            assert(j2 != i as int);
                        }
                        if ok.contains(x) && x != k {
                            let j = choose|j: int| 0 <= j < ok.len() && ok[j] == x;
                            assert(j != i as int);
                            let j2 = if j < i { j } else { j - 1 };
                            assert(r.keys@[j2] == x);
                        }
                    }
                    assert forall|x: K| #[trigger] r@.contains_key(x) implies r@[x] == old_map.remove(k)[x] by {
                        let j = r.keys@.index_of(x);
                        assert(0 <= j < r.keys@.len() && r.keys@[j] == x);
                        let j2 = if j < i { j } else { j + 1 };
                        assert(ok[j2] == x);
                        lemma_index_of_unique(ok, j2);
                    }
                    assert(r@ =~= old_map.remove(k));
                }
                *self = r;
                Some(v)
            },
        }
    }
}

// ─────────────────────── joins over maps ───────────────────────

/// Values with a join operation.
pub trait Lattice: Copy {
    spec fn spec_join(a: Self, b: Self) -> Self;

    fn join_value(&self, other: &Self) -> (r: Self)
        ensures
            r == Self::spec_join(*self, *other),
    ;

    fn same_value(&self, other: &Self) -> (r: bool)
        ensures
            r == (*self == *other),
    ;
}

/// Whether joining `v` into the map entry for `k` changes the map.
pub open spec fn join_changes<K, V: Lattice>(a: Map<K, V>, k: K, v: V) -> bool {
    !a.contains_key(k) || V::spec_join(a[k], v) != a[k]
}

/// Pointwise join of two maps: keys of either side, values joined where both
/// sides have the key.
pub open spec fn map_join<K, V: Lattice>(a: Map<K, V>, b: Map<K, V>) -> Map<K, V> {
    Map::new(
        |k: K| a.contains_key(k) || b.contains_key(k),
        |k: K|
            if a.contains_key(k) && b.contains_key(k) {
                V::spec_join(a[k], b[k])
            } else if a.contains_key(k) {
                a[k]
            } else {
                b[k]
            },
    )
}

/// Union of two maps where the left map's values win.
pub open spec fn map_union_keep<K, V>(a: Map<K, V>, b: Map<K, V>) -> Map<K, V> {
    b.union_prefer_right(a)
}

/// Keys on which both maps agree.
pub open spec fn map_agree<K, V>(a: Map<K, V>, b: Map<K, V>) -> Map<K, V> {
    a.restrict(a.dom().filter(|k: K| b.contains_key(k) && b[k] == a[k]))
}

/// Pointwise union of set-valued maps (an absent key is an empty set).
pub open spec fn sets_union<K, T>(a: Map<K, Set<T>>, b: Map<K, Set<T>>) -> Map<K, Set<T>> {
    Map::new(
        |k: K| a.contains_key(k) || b.contains_key(k),
        |k: K|
            if a.contains_key(k) && b.contains_key(k) {
                a[k].union(b[k])
            } else if a.contains_key(k) {
                a[k]
            } else {
                b[k]
            },
    )
}

/// `b` holds an element under some key that `a` lacks under that key.
pub open spec fn sets_grow<K, T>(a: Map<K, Set<T>>, b: Map<K, Set<T>>) -> bool {
    exists|k: K, x: T| b.contains_key(k) && b[k].contains(x) && !(a.contains_key(k) && a[k].contains(x))
}

/// The set-valued view of a map whose values are sets.
pub open spec fn deep_sets<K: Key, T: Key>(m: Map<K, VecSet<T>>) -> Map<K, Set<T>> {
    Map::new(|k: K| m.contains_key(k), |k: K| m[k]@)
}

/// Pointwise union is absorbing: adding `b` twice is the same as once, and
/// the second time nothing grows.
pub proof fn lemma_sets_union_absorbs<K, T>(a: Map<K, Set<T>>, b: Map<K, Set<T>>)
    ensures
        sets_union(sets_union(a, b), b) == sets_union(a, b),
        !sets_grow(sets_union(a, b), b),
        sets_union(a, a) == a,
        !sets_grow(a, a),
{
    let j = sets_union(a, b);
    assert forall|k: K| j.contains_key(k) implies #[trigger] sets_union(j, b)[k] == j[k] by {
        if b.contains_key(k) {
            assert(j[k].union(b[k]) =~= j[k]);
        }
    }
    assert(sets_union(j, b) =~= j);
    assert forall|k: K| a.contains_key(k) implies #[trigger] sets_union(a, a)[k] == a[k] by {
        assert(a[k].union(a[k]) =~= a[k]);
    }
    assert(sets_union(a, a) =~= a);
}

/// A join that is commutative, associative and idempotent on `V`.
pub open spec fn is_semilattice<V: Lattice>() -> bool {
    &&& forall|x: V, y: V| #[trigger] V::spec_join(x, y) == V::spec_join(y, x)
    &&& forall|x: V, y: V, z: V| #[trigger] V::spec_join(V::spec_join(x, y), z) == V::spec_join(x, V::spec_join(y, z))
    &&& forall|x: V| #[trigger] V::spec_join(x, x) == x
}

/// If joining `c` into `a` changes nothing, joining `c` into any join of `a`
/// changes nothing either.
pub proof fn lemma_map_join_keeps_absorbing<K, V: Lattice>(a: Map<K, V>, b: Map<K, V>, c: Map<K, V>)
    requires
        is_semilattice::<V>(),
        map_join(a, c) == a,
    ensures
        map_join(map_join(a, b), c) == map_join(a, b),
{
    let j = map_join(a, b);
    assert forall|k: K| #[trigger] c.contains_key(k) implies a.contains_key(k) by {
        assert(map_join(a, c).contains_key(k));
    }
    assert forall|k: K| #[trigger] j.contains_key(k) && c.contains_key(k) implies V::spec_join(j[k], c[k]) == j[k] by {
        assert(map_join(a, c)[k] == a[k]);
        if b.contains_key(k) {
            let (x, y, z) = (a[k], b[k], c[k]);
            assert(V::spec_join(V::spec_join(x, y), z) == V::spec_join(x, V::spec_join(y, z)));
            assert(V::spec_join(y, z) == V::spec_join(z, y));
            assert(V::spec_join(V::spec_join(x, z), y) == V::spec_join(x, V::spec_join(z, y)));
        }
    }
    assert(map_join(j, c) =~= j);
}

/// Agreement with `c` survives dropping more disagreeing keys.
pub proof fn lemma_map_agree_keeps_absorbing<K, V>(a: Map<K, V>, b: Map<K, V>, c: Map<K, V>)
    requires
        map_agree(a, c) == a,
    ensures
        map_agree(map_agree(a, b), c) == map_agree(a, b),
{
    assert forall|k: K| #[trigger] a.contains_key(k) implies c.contains_key(k) && c[k] == a[k] by {
        assert(map_agree(a, c).contains_key(k));
    }
    assert(map_agree(map_agree(a, b), c) =~= map_agree(a, b));
}

/// `c` adds no element to `a`, hence none to any pointwise union of `a`.
pub proof fn lemma_sets_union_keeps_absorbing<K, T>(a: Map<K, Set<T>>, b: Map<K, Set<T>>, c: Map<K, Set<T>>)
    requires
        !sets_grow(a, c),
    ensures
        !sets_grow(sets_union(a, b), c),
{
    let j = sets_union(a, b);
    assert forall|k: K, x: T| c.contains_key(k) && c[k].contains(x) implies j.contains_key(k) && #[trigger] j[k].contains(x) by {
        assert(a.contains_key(k) && a[k].contains(x));
    }
}

/// A meet that `c` leaves unchanged stays unchanged after meeting with `b`.
pub proof fn lemma_map_meet_keeps_absorbing<K>(a: Map<K, u64>, b: Map<K, u64>, c: Map<K, u64>, take_max: bool)
    requires
        map_meet(a, c, take_max) == a,
    ensures
        map_meet(map_meet(a, b, take_max), c, take_max) == map_meet(a, b, take_max),
{
    assert forall|k: K| #[trigger] a.contains_key(k) implies c.contains_key(k)
        && (if take_max { a[k] >= c[k] } else { a[k] <= c[k] }) by {
        assert(map_meet(a, c, take_max).contains_key(k));
        assert(map_meet(a, c, take_max)[k] == a[k]);
    }
    assert(map_meet(map_meet(a, b, take_max), c, take_max) =~= map_meet(a, b, take_max));
}

impl<K: Key, V: Copy> VecMap<K, V> {
    /// `self[k]`, copied out.
    pub fn get_copy(&self, k: K) -> (r: Option<V>)
        ensures
            match r {
                Some(v) => self@.contains_key(k) && v == self@[k],
                None => !self@.contains_key(k),
            },
    {
        match self.get(k) {
            Some(v) => Some(*v),
            None => None,
        }
    }

    /// An independent copy.
    pub fn duplicate(&self) -> (r: Self)
        ensures
            r@ == self@,
    {
        self.lemma_seqs();
        let mut r = VecMap::new();
        let mut i: usize = 0;
        while i < self.len()
            invariant
                i <= self.key_seq().len(),
                self.key_seq().no_duplicates(),
                self.key_seq().len() == self.val_seq().len(),
                forall|j: int| 0 <= j < self.key_seq().len() ==> #[trigger] self@.contains_key(self.key_seq()[j])
                    && self@[self.key_seq()[j]] == self.val_seq()[j],
                forall|k: K| #[trigger] self@.contains_key(k) <==> self.key_seq().contains(k),
                r@ == self@.restrict(self.key_seq().subrange(0, i as int).to_set()),
            decreases self.key_seq().len() - i,
        {
            let k = self.key_at(i);
            let v = *self.val_at(i);
            r.insert(k, v);
            proof {
                lemma_prefix_step(self.key_seq(), i as int);
                assert(r@ =~= self@.restrict(self.key_seq().subrange(0, i + 1).to_set()));
            }
            i = i + 1;
        }
        proof {
            assert(self.key_seq().subrange(0, i as int) =~= self.key_seq());
            assert(r@ =~= self@);
        }
        r
    }

    /// `self := other ∪ self` (values already in `self` win); returns whether
    /// a key was added.
    pub fn union_keep(&mut self, other: &Self) -> (changed: bool)
        ensures
            final(self)@ == map_union_keep(old(self)@, other@),
            changed == !other@.dom().subset_of(old(self)@.dom()),
    {
        other.lemma_seqs();
        let ghost start = self@;
        let mut changed = false;
        let mut i: usize = 0;
        while i < other.len()
            invariant
                i <= other.key_seq().len(),
                other.key_seq().no_duplicates(),
                other.key_seq().len() == other.val_seq().len(),
                forall|j: int| 0 <= j < other.key_seq().len() ==> #[trigger] other@.contains_key(other.key_seq()[j])
                    && other@[other.key_seq()[j]] == other.val_seq()[j],
                forall|k: K| #[trigger] other@.contains_key(k) <==> other.key_seq().contains(k),
                self@ == map_union_keep(start, other@.restrict(other.key_seq().subrange(0, i as int).to_set())),
                changed == !other.key_seq().subrange(0, i as int).to_set().subset_of(start.dom()),
            decreases other.key_seq().len() - i,
        {
            let k = other.key_at(i);
            if !self.contains_key(k) {
                let v = *other.val_at(i);
                self.insert(k, v);
                changed = true;
            }
            proof {
                lemma_prefix_step(other.key_seq(), i as int);
                assert(self@ =~= map_union_keep(start, other@.restrict(other.key_seq().subrange(0, i + 1).to_set())));
            }
            i = i + 1;
        }
        proof {
            assert(other.key_seq().subrange(0, i as int) =~= other.key_seq());
            assert(other.key_seq().to_set() =~= other@.dom());
            assert(other@.restrict(other@.dom()) =~= other@);
        }
        changed
    }

    /// Keeps only the keys whose value satisfies `keep`; returns whether any
    /// key was dropped.
    fn retain_where(&mut self, keep: Ghost<spec_fn(K, V) -> bool>, decide: Vec<bool>) -> (changed: bool)
        requires
            decide@.len() == old(self).key_seq().len(),
            forall|j: int| 0 <= j < decide@.len() ==> decide@[j] == (keep@)(old(self).key_seq()[j], old(self).val_seq()[j]),
        ensures
            final(self)@ == old(self)@.restrict(old(self)@.dom().filter(|k: K| (keep@)(k, old(self)@[k]))),
            changed == exists|k: K| old(self)@.contains_key(k) && !(keep@)(k, old(self)@[k]),
    {
        self.lemma_seqs();
        let ghost start = self@;
        let ghost ks = self.key_seq();
        let ghost vs = self.val_seq();
        let mut r = VecMap::new();
        let mut changed = false;
        let mut i: usize = 0;
        while i < self.len()
            invariant
                self@ == start,
                self.key_seq() == ks,
                self.val_seq() == vs,
                i <= ks.len(),
                decide@.len() == ks.len(),
                ks.no_duplicates(),
                ks.len() == vs.len(),
                forall|j: int| 0 <= j < decide@.len() ==> decide@[j] == (keep@)(ks[j], vs[j]),
                forall|j: int| 0 <= j < ks.len() ==> #[trigger] start.contains_key(ks[j]) && start[ks[j]] == vs[j],
                forall|k: K| #[trigger] start.contains_key(k) <==> ks.contains(k),
                r@ == start.restrict(ks.subrange(0, i as int).to_set().filter(|k: K| (keep@)(k, start[k]))),
                changed == exists|j: int| 0 <= j < i && !(keep@)(ks[j], vs[j]),
            decreases ks.len() - i,
        {
            let k = self.key_at(i);
            if decide[i] {
                let v = *self.val_at(i);
                r.insert(k, v);
            } else {
                changed = true;
            }
            proof {
                lemma_prefix_step(ks, i as int);
                assert(r@ =~= start.restrict(ks.subrange(0, i + 1).to_set().filter(|k: K| (keep@)(k, start[k]))));
            }
            i = i + 1;
        }
        proof {
            assert(ks.subrange(0, i as int) =~= ks);
            assert(ks.to_set() =~= start.dom());
            if changed {
                let j = choose|j: int| 0 <= j < i && !(keep@)(ks[j], vs[j]);
                assert(start.contains_key(ks[j]));
            } else {
                assert forall|k: K| start.contains_key(k) implies (keep@)(k, start[k]) by {
                    let j = choose|j: int| 0 <= j < ks.len() && ks[j] == k;
                    assert(start.contains_key(ks[j]));
                }
            }
        }
        *self = r;
        changed
    }

    /// Pointwise join with `other`; returns whether `self` changed.
    pub fn join_with_map(&mut self, other: &Self) -> (changed: bool)
        where V: Lattice
        requires
            forall|x: V| #[trigger] V::spec_join(x, x) == x,
        ensures
            final(self)@ == map_join(old(self)@, other@),
            changed == (final(self)@ != old(self)@),
    {
        other.lemma_seqs();
        let ghost start = self@;
        let ghost ks = other.key_seq();
        let ghost vs = other.val_seq();
        let mut changed = false;
        let mut i: usize = 0;
        while i < other.len()
            invariant
                forall|x: V| #[trigger] V::spec_join(x, x) == x,
                ks == other.key_seq(),
                vs == other.val_seq(),
                i <= ks.len(),
                ks.no_duplicates(),
                ks.len() == vs.len(),
                forall|j: int| 0 <= j < ks.len() ==> #[trigger] other@.contains_key(ks[j]) && other@[ks[j]] == vs[j],
                forall|k: K| #[trigger] other@.contains_key(k) <==> ks.contains(k),
                self@ == map_join(start, other@.restrict(ks.subrange(0, i as int).to_set())),
                changed == exists|j: int| 0 <= j < i && join_changes(start, ks[j], vs[j]),
            decreases ks.len() - i,
        {
            let k = other.key_at(i);
            let ov = *other.val_at(i);
            proof {
                assert(!ks.subrange(0, i as int).contains(k)) by {
                    if ks.subrange(0, i as int).contains(k) {
                        let t = choose|t: int| 0 <= t < i && ks.subrange(0, i as int)[t] == k;
                        assert(ks[t] == ks[i as int]);
                    }
                }
                assert(self@.contains_key(k) == start.contains_key(k));
                assert(start.contains_key(k) ==> self@[k] == start[k]);
            }
            match self.get_copy(k) {
                None => {
                    self.insert(k, ov);
                    changed = true;
                },
                Some(sv) => {
                    let j = sv.join_value(&ov);
                    if !j.same_value(&sv) {
                        self.insert(k, j);
                        changed = true;
                    }
                },
            }
            proof {
                lemma_prefix_step(ks, i as int);
                assert(self@ =~= map_join(start, other@.restrict(ks.subrange(0, i + 1).to_set())));
            }
            i = i + 1;
        }
        proof {
            assert(ks.subrange(0, i as int) =~= ks);
            assert(ks.to_set() =~= other@.dom());
            assert(other@.restrict(other@.dom()) =~= other@);
            if changed {
                let j = choose|j: int| 0 <= j < i && join_changes(start, ks[j], vs[j]);
                assert(self@.contains_key(ks[j]));
                if start.contains_key(ks[j]) {
                    assert(self@[ks[j]] != start[ks[j]]);
                }
            } else {
                assert forall|k: K| #[trigger] other@.contains_key(k) implies !join_changes(start, k, other@[k]) by {
                    let j = choose|j: int| 0 <= j < ks.len() && ks[j] == k;
                    assert(other@.contains_key(ks[j]));
                }
                assert(self@ =~= start);
            }
        }
        changed
    }
}

// ───────────────────────── set-valued maps ─────────────────────────

impl<T: Key> VecMap<u32, VecSet<T>> {
    /// The set stored under `k`, or the empty set.
    pub fn set_of(&self, k: u32) -> (r: VecSet<T>)
        ensures
            r@ == (if self@.contains_key(k) { self@[k]@ } else { Set::<T>::empty() }),
    {
        match self.get(k) {
            Some(s) => s.duplicate(),
            None => VecSet::new(),
        }
    }

    /// Deep copy.
    pub fn duplicate_sets(&self) -> (r: Self)
        ensures
            deep_sets(r@) == deep_sets(self@),
    {
        self.lemma_seqs();
        let ghost ks = self.key_seq();
        let mut r: Self = VecMap::new();
        let mut i: usize = 0;
        while i < self.len()
            invariant
                ks == self.key_seq(),
                i <= ks.len(),
                ks.no_duplicates(),
                ks.len() == self.val_seq().len(),
                forall|j: int| 0 <= j < ks.len() ==> #[trigger] self@.contains_key(ks[j]) && self@[ks[j]] == self.val_seq()[j],
                forall|k: u32| #[trigger] self@.contains_key(k) <==> ks.contains(k),
                deep_sets(r@) == deep_sets(self@.restrict(ks.subrange(0, i as int).to_set())),
            decreases ks.len() - i,
        {
            let k = self.key_at(i);
            let v = self.val_at(i).duplicate();
            let ghost r0 = r@;
            r.insert(k, v);
            proof {
                lemma_prefix_step(ks, i as int);
                let target = deep_sets(self@.restrict(ks.subrange(0, i + 1).to_set()));
                let prev = deep_sets(self@.restrict(ks.subrange(0, i as int).to_set()));
                assert(self@.contains_key(ks[i as int]));
                assert forall|q: u32| #[trigger] deep_sets(r@).contains_key(q) <==> target.contains_key(q) by {
                    assert(deep_sets(r0).contains_key(q) == prev.contains_key(q));
                }
                assert forall|q: u32| #[trigger] deep_sets(r@).contains_key(q) implies deep_sets(r@)[q] == target[q] by {
                    if q != k {
                        assert(deep_sets(r0).contains_key(q));
                        assert(deep_sets(r0)[q] == prev[q]);
                    }
                }
                assert(deep_sets(r@) =~= target);
            }
            i = i + 1;
        }
        proof {
            assert(ks.subrange(0, i as int) =~= ks);
            assert(ks.to_set() =~= self@.dom());
            assert(self@.restrict(self@.dom()) =~= self@);
        }
        r
    }

    /// `self[k] := self[k] ∪ {x}`, creating the entry if needed.
    pub fn add_to(&mut self, k: u32, x: T)
        ensures
            deep_sets(final(self)@) == deep_sets(old(self)@).insert(k,
                (if old(self)@.contains_key(k) { old(self)@[k]@ } else { Set::<T>::empty() }).insert(x)),
    {
        let mut s = match self.remove(k) {
            Some(s) => s,
            None => VecSet::new(),
        };
        s.insert(x);
        self.insert(k, s);
        proof {
            assert(deep_sets(self@) =~= deep_sets(old(self)@).insert(k,
                (if old(self)@.contains_key(k) { old(self)@[k]@ } else { Set::<T>::empty() }).insert(x)));
        }
    }

    /// `self[k] := s`.
    pub fn put(&mut self, k: u32, s: VecSet<T>)
        ensures
            deep_sets(final(self)@) == deep_sets(old(self)@).insert(k, s@),
    {
        self.insert(k, s);
        proof {
            assert(deep_sets(self@) =~= deep_sets(old(self)@).insert(k, s@));
        }
    }

    /// Removes the entry for `k`.
    pub fn drop_key(&mut self, k: u32)
        ensures
            deep_sets(final(self)@) == deep_sets(old(self)@).remove(k),
    {
        self.remove(k);
        proof {
            assert(deep_sets(self@) =~= deep_sets(old(self)@).remove(k));
        }
    }

    /// Pointwise union with `other`; returns whether any set grew.
    pub fn union_sets(&mut self, other: &Self) -> (changed: bool)
        ensures
            deep_sets(final(self)@) == sets_union(deep_sets(old(self)@), deep_sets(other@)),
            changed == sets_grow(deep_sets(old(self)@), deep_sets(other@)),
    {
        other.lemma_seqs();
        let ghost start = deep_sets(self@);
        let ghost od = deep_sets(other@);
        let ghost ks = other.key_seq();
        let mut changed = false;
        let mut i: usize = 0;
        while i < other.len()
            invariant
                ks == other.key_seq(),
                od == deep_sets(other@),
                i <= ks.len(),
                ks.no_duplicates(),
                ks.len() == other.val_seq().len(),
                forall|j: int| 0 <= j < ks.len() ==> #[trigger] other@.contains_key(ks[j]) && other@[ks[j]] == other.val_seq()[j],
                forall|k: u32| #[trigger] other@.contains_key(k) <==> ks.contains(k),
                deep_sets(self@) == sets_union(start, od.restrict(ks.subrange(0, i as int).to_set())),
                changed == sets_grow(start, od.restrict(ks.subrange(0, i as int).to_set())),
            decreases ks.len() - i,
        {
            let k = other.key_at(i);
            let ghost pre = self@;
            let ghost before = od.restrict(ks.subrange(0, i as int).to_set());
            let ghost after = od.restrict(ks.subrange(0, i + 1).to_set());
            proof {
                lemma_prefix_step(ks, i as int);
                assert(!ks.subrange(0, i as int).contains(k)) by {
                    if ks.subrange(0, i as int).contains(k) {
                        let t = choose|t: int| 0 <= t < i && ks.subrange(0, i as int)[t] == k;
                        assert(ks[t] == ks[i as int]);
                    }
                }
                assert(!before.contains_key(k));
                assert(deep_sets(pre).contains_key(k) == start.contains_key(k));
                if start.contains_key(k) {
                    assert(deep_sets(pre)[k] == start[k]);
                }
                assert(other@.contains_key(ks[i as int]));
                assert(after.contains_key(k) && after[k] == other@[k]@);
            }
            let removed = self.remove(k);
            let mut cur = match removed {
                Some(c) => c,
                None => VecSet::new(),
            };
            let ghost cur0 = cur@;
            proof {
                assert(cur0 == (if start.contains_key(k) { start[k] } else { Set::<T>::empty() }));
            }
            let grew = cur.union_with(other.val_at(i));
            let ghost mid = self@;
            self.insert(k, cur);
            if grew {
                changed = true;
            }
            proof {
                assert forall|q: u32| #[trigger] deep_sets(self@).contains_key(q) <==> sets_union(start, after).contains_key(q) by {
                    if q != k {
                        assert(mid.contains_key(q) == pre.contains_key(q));
                        assert(deep_sets(pre).contains_key(q) == sets_union(start, before).contains_key(q));
                        assert(before.contains_key(q) == after.contains_key(q));
                    }
                }
                assert forall|q: u32| #[trigger] deep_sets(self@).contains_key(q) implies deep_sets(self@)[q] == sets_union(start, after)[q] by {
                    if q != k {
                        assert(mid[q] == pre[q]);
                        assert(deep_sets(pre)[q] == sets_union(start, before)[q]);
                        assert(before.contains_key(q) == after.contains_key(q));
                        if before.contains_key(q) {
                            assert(before[q] == after[q]);
                        }
                    } else {
                        assert(deep_sets(self@)[k] == cur0.union(other@[k]@));
                    }
                }
                assert(deep_sets(self@) =~= sets_union(start, after));
                if grew {
                    assert(exists|x: T| cur@.contains(x) && !cur0.contains(x)) by {
                        if !(exists|x: T| cur@.contains(x) && !cur0.contains(x)) {
                            assert(cur@ =~= cur0);
                        }
                    }
                    let x = choose|x: T| cur@.contains(x) && !cur0.contains(x);
                    assert(after.contains_key(k) && after[k].contains(x));
                    assert(sets_grow(start, after));
                }
                if sets_grow(start, after) && !sets_grow(start, before) {
                    let (k2, x) = choose|k2: u32, x: T| after.contains_key(k2) && after[k2].contains(x)
                        && !(start.contains_key(k2) && start[k2].contains(x));
                    if k2 != k {
                        assert(before.contains_key(k2) && before[k2].contains(x));
                    }
                    assert(k2 == k);
                    assert(!cur0.contains(x));
                    assert(cur@.contains(x));
                }
                if sets_grow(start, before) {
                    let (k2, x) = choose|k2: u32, x: T| before.contains_key(k2) && before[k2].contains(x)
                        && !(start.contains_key(k2) && start[k2].contains(x));
                    assert(after.contains_key(k2) && after[k2].contains(x));
                }
            }
            i = i + 1;
        }
        proof {
            assert(ks.subrange(0, i as int) =~= ks);
            assert(ks.to_set() =~= other@.dom());
            assert(od.dom() =~= other@.dom());
            assert(od.restrict(od.dom()) =~= od);
        }
        changed
    }
}

impl VecMap<u32, VecSet<u32>> {
    /// Removes `x` from every set, then drops keys whose set became empty.
    pub fn remove_everywhere(&mut self, x: u32)
        ensures
            forall|k: u32| #[trigger] deep_sets(final(self)@).contains_key(k) <==>
                (deep_sets(old(self)@).contains_key(k) && deep_sets(old(self)@)[k].remove(x) != Set::<u32>::empty()),
            forall|k: u32| #[trigger] deep_sets(final(self)@).contains_key(k) ==>
                deep_sets(final(self)@)[k] == deep_sets(old(self)@)[k].remove(x),
    {
        self.lemma_seqs();
        let ghost start = deep_sets(self@);
        let ghost ks = self.key_seq();
        let mut r: Self = VecMap::new();
        let mut i: usize = 0;
        while i < self.len()
            invariant
                ks == self.key_seq(),
                start == deep_sets(self@),
                i <= ks.len(),
                ks.no_duplicates(),
                ks.len() == self.val_seq().len(),
                forall|j: int| 0 <= j < ks.len() ==> #[trigger] self@.contains_key(ks[j]) && self@[ks[j]] == self.val_seq()[j],
                forall|k: u32| #[trigger] self@.contains_key(k) <==> ks.contains(k),
                forall|k: u32| #[trigger] deep_sets(r@).contains_key(k) <==>
                    (ks.subrange(0, i as int).contains(k) && start[k].remove(x) != Set::<u32>::empty()),
                forall|k: u32| #[trigger] deep_sets(r@).contains_key(k) ==> deep_sets(r@)[k] == start[k].remove(x),
            decreases ks.len() - i,
        {
            let k = self.key_at(i);
            let mut s = self.val_at(i).duplicate();
            s.remove(x);
            let ghost kept = s@;
            let ghost r0 = r@;
            proof {
                lemma_prefix_step(ks, i as int);
                assert(!ks.subrange(0, i as int).contains(k)) by {
                    if ks.subrange(0, i as int).contains(k) {
                        let t = choose|t: int| 0 <= t < i && ks.subrange(0, i as int)[t] == k;
                        assert(ks[t] == ks[i as int]);
                    }
                }
                assert(self@.contains_key(ks[i as int]));
                assert(kept == start[k].remove(x));
                assert(!deep_sets(r0).contains_key(k));
            }
            let nonempty = !s.is_empty();
            if nonempty {
                r.insert(k, s);
            }
            proof {
                assert forall|q: u32| #[trigger] deep_sets(r@).contains_key(q) <==>
                    (ks.subrange(0, i + 1).contains(q) && start[q].remove(x) != Set::<u32>::empty()) by {
                    if q != k {
                        assert(deep_sets(r0).contains_key(q) == deep_sets(r@).contains_key(q));
                    }
                }
                assert forall|q: u32| #[trigger] deep_sets(r@).contains_key(q) implies deep_sets(r@)[q] == start[q].remove(x) by {
                    if q != k {
                        assert(deep_sets(r0).contains_key(q));
                        assert(deep_sets(r0)[q] == deep_sets(r@)[q]);
                    }
                }
            }
            i = i + 1;
        }
        proof {
            assert(ks.subrange(0, i as int) =~= ks);
        }
        *self = r;
    }

    /// Whether `x` occurs in any set.
    pub fn mentions(&self, x: u32) -> (r: bool)
        ensures
            r == exists|k: u32| self@.contains_key(k) && #[trigger] self@[k]@.contains(x),
    {
        self.lemma_seqs();
        let ghost ks = self.key_seq();
        let mut i: usize = 0;
        while i < self.len()
            invariant
                ks == self.key_seq(),
                i <= ks.len(),
                ks.len() == self.val_seq().len(),
                forall|j: int| 0 <= j < ks.len() ==> #[trigger] self@.contains_key(ks[j]) && self@[ks[j]] == self.val_seq()[j],
                forall|k: u32| #[trigger] self@.contains_key(k) <==> ks.contains(k),
                forall|j: int| 0 <= j < i ==> !self.val_seq()[j]@.contains(x),
            decreases ks.len() - i,
        {
            if self.val_at(i).contains(x) {
                proof { assert(self@.contains_key(ks[i as int])); }
                return true;
            }
            i = i + 1;
        }
        proof {
            assert forall|k: u32| self@.contains_key(k) implies !#[trigger] self@[k]@.contains(x) by {
                let j = choose|j: int| 0 <= j < ks.len() && ks[j] == k;
                assert(self@.contains_key(ks[j]));
            }
        }
        false
    }
}

// ─────────────────────── meets over maps ───────────────────────

/// Keys present in both maps, with the values combined by `f`.
pub open spec fn map_meet<K>(a: Map<K, u64>, b: Map<K, u64>, take_max: bool) -> Map<K, u64> {
    Map::new(
        |k: K| a.contains_key(k) && b.contains_key(k),
        |k: K|
            if take_max {
                if a[k] >= b[k] { a[k] } else { b[k] }
            } else {
                if a[k] <= b[k] { a[k] } else { b[k] }
            },
    )
}

/// The sequence-valued view of a map whose values are vectors.
pub open spec fn deep_seqs<K: Key>(m: Map<K, Vec<u32>>) -> Map<K, Seq<u32>> {
    Map::new(|k: K| m.contains_key(k), |k: K| m[k]@)
}

impl<K: Key, V: Key> VecMap<K, V> {
    fn agreement(&self, other: &Self) -> (d: Vec<bool>)
        ensures
            d@.len() == self.key_seq().len(),
            forall|j: int| 0 <= j < d@.len() ==> d@[j] == (other@.contains_key(self.key_seq()[j])
                && other@[self.key_seq()[j]] == self.val_seq()[j]),
    {
        self.lemma_seqs();
        let mut decide: Vec<bool> = Vec::new();
        let mut i: usize = 0;
        while i < self.len()
            invariant
                i <= self.key_seq().len(),
                self.key_seq().len() == self.val_seq().len(),
                decide@.len() == i,
                forall|j: int| 0 <= j < i ==> decide@[j] == (other@.contains_key(self.key_seq()[j])
                    && other@[self.key_seq()[j]] == self.val_seq()[j]),
            decreases self.key_seq().len() - i,
        {
            let k = self.key_at(i);
            let v = *self.val_at(i);
            let d = match other.get_copy(k) {
                Some(ov) => ov.same(&v),
                None => false,
            };
            decide.push(d);
            i = i + 1;
        }
        decide
    }

    /// Keeps the keys on which `other` holds the same value.
    pub fn retain_agreeing(&mut self, other: &Self) -> (changed: bool)
        ensures
            final(self)@ == map_agree(old(self)@, other@),
            changed == (final(self)@ != old(self)@),
    {
        let ghost keep = |k: K, v: V| other@.contains_key(k) && other@[k] == v;
        let decide = self.agreement(other);
        self.lemma_seqs();
        let ghost start = self@;
        let changed = self.retain_where(Ghost(keep), decide);
        proof {
            assert(self@ =~= map_agree(start, other@));
            if changed {
                let k = choose|k: K| start.contains_key(k) && !keep(k, start[k]);
                assert(!self@.contains_key(k));
            } else {
                assert(self@ =~= start);
            }
        }
        changed
    }
}

impl<K: Key> VecMap<K, u64> {
    /// Keeps the keys present in both maps, combining values with max
    /// (`take_max`) or min; returns whether `self` changed.
    pub fn meet(&mut self, other: &Self, take_max: bool) -> (changed: bool)
        ensures
            final(self)@ == map_meet(old(self)@, other@, take_max),
            changed == (final(self)@ != old(self)@),
    {
        self.lemma_seqs();
        let ghost start = self@;
        let ghost ks = self.key_seq();
        let ghost vs = self.val_seq();
        let ghost target = map_meet(start, other@, take_max);
        let ghost differs = |j: int| !other@.contains_key(ks[j]) || target[ks[j]] != vs[j];
        let mut r: Self = VecMap::new();
        let mut changed = false;
        let ghost mut wj: int = 0;
        let mut i: usize = 0;
        while i < self.len()
            invariant
                self@ == start,
                ks == self.key_seq(),
                vs == self.val_seq(),
                target == map_meet(start, other@, take_max),
                differs == (|j: int| !other@.contains_key(ks[j]) || target[ks[j]] != vs[j]),
                i <= ks.len(),
                ks.no_duplicates(),
                ks.len() == vs.len(),
                forall|j: int| 0 <= j < ks.len() ==> #[trigger] start.contains_key(ks[j]) && start[ks[j]] == vs[j],
                forall|k: K| #[trigger] start.contains_key(k) <==> ks.contains(k),
                r@ == target.restrict(ks.subrange(0, i as int).to_set()),
                changed ==> 0 <= wj < i && differs(wj),
                !changed ==> forall|j: int| 0 <= j < i ==> !#[trigger] differs(j),
            decreases ks.len() - i,
        {
            let k = self.key_at(i);
            let v = *self.val_at(i);
            proof {
                assert(start.contains_key(ks[i as int]));
                assert(start[k] == v);
            }
            match other.get_copy(k) {
                Some(ov) => {
                    let m = if take_max {
                        if v >= ov { v } else { ov }
                    } else {
                        if v <= ov { v } else { ov }
                    };
                    r.insert(k, m);
                    if m != v {
                        changed = true;
                        proof { wj = i as int; }
                    }
                },
                None => {
                    changed = true;
                    proof { wj = i as int; }
                },
            }
            proof {
                lemma_prefix_step(ks, i as int);
                assert(r@ =~= target.restrict(ks.subrange(0, i + 1).to_set()));
            }
            i = i + 1;
        }
        proof {
            assert(ks.subrange(0, i as int) =~= ks);
            assert(ks.to_set() =~= start.dom());
            assert(r@ =~= target);
            if changed {
                assert(start.contains_key(ks[wj]));
                if r@.contains_key(ks[wj]) {
                    assert(r@[ks[wj]] != start[ks[wj]]);
                }
            } else {
                assert forall|k: K| start.contains_key(k) implies other@.contains_key(k) && target[k] == start[k] by {
                    let j = choose|j: int| 0 <= j < ks.len() && ks[j] == k;
                    assert(start.contains_key(ks[j]));
                    assert(!differs(j));
                }
                assert(r@ =~= start);
            }
        }
        *self = r;
        changed
    }
}

fn copy_u32s(v: &Vec<u32>) -> (r: Vec<u32>)
    ensures
        r@ == v@,
{
    let mut r: Vec<u32> = Vec::new();
    let mut i: usize = 0;
    while i < v.len()
        invariant
            i <= v@.len(),
            r@ == v@.subrange(0, i as int),
        decreases v@.len() - i,
    {
        r.push(v[i]);
        i = i + 1;
        assert(r@ =~= v@.subrange(0, i as int));
    }
    assert(r@ =~= v@);
    r
}

impl VecMap<u32, Vec<u32>> {
    /// The sequence stored under `k`, copied out.
    pub fn seq_of(&self, k: u32) -> (r: Option<Vec<u32>>)
        ensures
            match r {
                Some(v) => self@.contains_key(k) && v@ == self@[k]@,
                None => !self@.contains_key(k),
            },
    {
        match self.get(k) {
            Some(v) => Some(copy_u32s(v)),
            None => None,
        }
    }

    pub fn put_seq(&mut self, k: u32, v: Vec<u32>)
        ensures
            deep_seqs(final(self)@) == deep_seqs(old(self)@).insert(k, v@),
    {
        self.insert(k, v);
        proof { assert(deep_seqs(self@) =~= deep_seqs(old(self)@).insert(k, v@)); }
    }

    pub fn drop_seq(&mut self, k: u32)
        ensures
            deep_seqs(final(self)@) == deep_seqs(old(self)@).remove(k),
    {
        self.remove(k);
        proof { assert(deep_seqs(self@) =~= deep_seqs(old(self)@).remove(k)); }
    }

    /// `self := other ∪ self` (entries already in `self` win).
    pub fn union_keep_seqs(&mut self, other: &Self) -> (changed: bool)
        ensures
            deep_seqs(final(self)@) == map_union_keep(deep_seqs(old(self)@), deep_seqs(other@)),
            changed == !other@.dom().subset_of(old(self)@.dom()),
    {
        other.lemma_seqs();
        let ghost start = self@;
        let ghost ks = other.key_seq();
        let mut changed = false;
        let mut i: usize = 0;
        while i < other.len()
            invariant
                ks == other.key_seq(),
                i <= ks.len(),
                ks.no_duplicates(),
                ks.len() == other.val_seq().len(),
                forall|j: int| 0 <= j < ks.len() ==> #[trigger] other@.contains_key(ks[j]) && other@[ks[j]] == other.val_seq()[j],
                forall|k: u32| #[trigger] other@.contains_key(k) <==> ks.contains(k),
                deep_seqs(self@) == map_union_keep(deep_seqs(start), deep_seqs(other@).restrict(ks.subrange(0, i as int).to_set())),
                changed == !ks.subrange(0, i as int).to_set().subset_of(start.dom()),
            decreases ks.len() - i,
        {
            let k = other.key_at(i);
            let ghost pre = self@;
            proof {
                assert(!ks.subrange(0, i as int).contains(k)) by {
                    if ks.subrange(0, i as int).contains(k) {
                        let t = choose|t: int| 0 <= t < i && ks.subrange(0, i as int)[t] == k;
                        assert(ks[t] == ks[i as int]);
                    }
                }
                assert(deep_seqs(pre).contains_key(k) == pre.contains_key(k));
                assert(deep_seqs(start).contains_key(k) == start.contains_key(k));
                assert(pre.contains_key(k) == start.contains_key(k));
            }
            if !self.contains_key(k) {
                let v = copy_u32s(other.val_at(i));
                self.insert(k, v);
                changed = true;
            }
            proof {
                lemma_prefix_step(ks, i as int);
                assert(other@.contains_key(ks[i as int]));
                let target = map_union_keep(deep_seqs(start), deep_seqs(other@).restrict(ks.subrange(0, i + 1).to_set()));
                let prev = map_union_keep(deep_seqs(start), deep_seqs(other@).restrict(ks.subrange(0, i as int).to_set()));
                assert(self@.dom() =~= pre.dom().insert(k));
                assert forall|q: u32| #[trigger] deep_seqs(self@).contains_key(q) <==> target.contains_key(q) by {
                    assert(deep_seqs(pre).contains_key(q) == prev.contains_key(q));
                }
                assert forall|q: u32| #[trigger] deep_seqs(self@).contains_key(q) implies deep_seqs(self@)[q] == target[q] by {
                    if q != k || pre.contains_key(k) {
                        assert(pre.contains_key(q));
                        assert(self@[q] == pre[q]);
                        assert(deep_seqs(pre)[q] == prev[q]);
                    }
                }
                assert(deep_seqs(self@) =~= target);
            }
            i = i + 1;
        }
        proof {
            assert(ks.subrange(0, i as int) =~= ks);
            assert(ks.to_set() =~= other@.dom());
            assert(deep_seqs(other@).restrict(ks.to_set()) =~= deep_seqs(other@));
        }
        changed
    }
}

} // verus!
