//! A bound on how often a block state can change under joins.
//!
//! Every field of a state lives in a finite universe (locals, objects and
//! protocols are `u32` identifiers, bounds are `u64`), and each field's join
//! only moves one way: sets joined by union grow, sets joined by
//! intersection shrink, lattice values climb, bounds weaken. `height` counts,
//! field by field, how far each can still move, so a join that reports a
//! change strictly lowers it. This is what makes the worklist iteration stop.

use vstd::prelude::*;
use vstd::set_lib::*;
use crate::analysis::object::{HeapState, InitState, ObjectId};
use crate::analysis::state::{StateView, adds_key, join_changed, join_view};
use crate::analysis::typestate::{ProtocolId, ProtocolState};
use crate::collections::{LocalPair, map_agree, map_join, map_meet, map_union_keep, sets_grow, sets_union};
use crate::mir::Local;

verus! {

broadcast use vstd::set::group_set_axioms;

// ───────────────────────── finite universes ─────────────────────────

/// Every `u32`.
pub open spec fn all_u32() -> Set<u32> {
    Set::<u32>::full()
}

/// All pairs of an element of `sa` and an element of `sb`.
pub open spec fn product<A, B>(sa: Set<A>, sb: Set<B>) -> Set<(A, B)> {
    Set::new(|p: (A, B)| sa.contains(p.0) && sb.contains(p.1))
}

pub proof fn lemma_all_u32_finite()
    ensures
        all_u32().finite(),
{
    <u32 as FiniteFull>::full_properties();
}

pub proof fn lemma_all_u64_finite()
    ensures
        Set::<u64>::full().finite(),
{
    <u64 as FiniteFull>::full_properties();
}

pub proof fn lemma_product_finite<A, B>(sa: Set<A>, sb: Set<B>)
    requires
        sa.finite(),
        sb.finite(),
    ensures
        product(sa, sb).finite(),
{
    let rows = sa.map(|a: A| sb.map(|b: B| (a, b)));
    sa.lemma_map_finite(|a: A| sb.map(|b: B| (a, b)));
    assert forall|s: Set<(A, B)>| rows.contains(s) implies #[trigger] s.finite() by {
        let a = choose|a: A| sa.contains(a) && sb.map(|b: B| (a, b)) == s;
        sb.lemma_map_finite(|b: B| (a, b));
    }
    rows.lemma_flatten_finite();
    assert forall|p: (A, B)| product(sa, sb).contains(p) implies #[trigger] rows.flatten().contains(p) by {
        let row = sb.map(|b: B| (p.0, b));
        assert(row.contains(p));
        assert(rows.contains(row));
    }
    lemma_len_subset(product(sa, sb), rows.flatten());
}

/// Every object identifier.
pub open spec fn all_objects() -> Set<ObjectId> {
    all_u32().map(|i: u32| ObjectId(i))
}

/// Every protocol identifier.
pub open spec fn all_protocols() -> Set<ProtocolId> {
    all_u32().map(|i: u32| ProtocolId(i))
}

/// Every ordered pair of locals.
pub open spec fn all_pairs() -> Set<LocalPair> {
    product(all_u32(), all_u32()).map(|p: (u32, u32)| LocalPair { lo: p.0, hi: p.1 })
}

pub proof fn lemma_universes()
    ensures
        all_u32().finite(),
        all_objects().finite(),
        all_protocols().finite(),
        all_pairs().finite(),
        forall|o: ObjectId| #[trigger] all_objects().contains(o),
        forall|p: ProtocolId| #[trigger] all_protocols().contains(p),
        forall|p: LocalPair| #[trigger] all_pairs().contains(p),
{
    lemma_all_u32_finite();
    all_u32().lemma_map_finite(|i: u32| ObjectId(i));
    all_u32().lemma_map_finite(|i: u32| ProtocolId(i));
    lemma_product_finite(all_u32(), all_u32());
    product(all_u32(), all_u32()).lemma_map_finite(|p: (u32, u32)| LocalPair { lo: p.0, hi: p.1 });
    assert forall|o: ObjectId| #[trigger] all_objects().contains(o) by {
        assert(all_u32().contains(o.0));
    }
    assert forall|p: ProtocolId| #[trigger] all_protocols().contains(p) by {
        assert(all_u32().contains(p.0));
    }
    assert forall|p: LocalPair| #[trigger] all_pairs().contains(p) by {
        assert(product(all_u32(), all_u32()).contains((p.lo, p.hi)));
    }
}

// ───────────────────────── one field at a time ─────────────────────────

/// A subset of a finite set is no larger, and strictly smaller unless equal.
pub proof fn lemma_shrinks<A>(small: Set<A>, big: Set<A>)
    requires
        big.finite(),
        small.subset_of(big),
    ensures
        small.finite(),
        small.len() <= big.len(),
        small != big ==> small.len() < big.len(),
{
    lemma_len_subset(small, big);
    if small != big {
        if forall|x: A| big.contains(x) ==> small.contains(x) {
            assert(small =~= big);
        }
        let x = choose|x: A| big.contains(x) && !small.contains(x);
        lemma_len_subset(small, big.remove(x));
    }
}

/// What a set joined by union can still gain.
pub open spec fn room<A>(u: Set<A>, s: Set<A>) -> Set<A> {
    u.difference(s)
}

pub proof fn lemma_union_room<A>(u: Set<A>, a: Set<A>, b: Set<A>)
    requires
        u.finite(),
        forall|x: A| #[trigger] u.contains(x),
    ensures
        room(u, a.union(b)).len() <= room(u, a).len(),
        a.union(b) != a ==> room(u, a.union(b)).len() < room(u, a).len(),
{
    lemma_shrinks(room(u, a.union(b)), room(u, a));
    if a.union(b) != a {
        if forall|x: A| #[trigger] a.union(b).contains(x) == a.contains(x) {
            assert(a.union(b) =~= a);
        }
        let x = choose|x: A| #[trigger] a.union(b).contains(x) != a.contains(x);
        assert(room(u, a).contains(x) && !room(u, a.union(b)).contains(x));
    }
}

pub proof fn lemma_intersect_len<A>(u: Set<A>, a: Set<A>, b: Set<A>)
    requires
        u.finite(),
        forall|x: A| #[trigger] u.contains(x),
    ensures
        a.finite(),
        a.intersect(b).len() <= a.len(),
        a.intersect(b) != a ==> a.intersect(b).len() < a.len(),
{
    lemma_len_subset(a, u);
    lemma_shrinks(a.intersect(b), a);
}

/// Keys a map joined by key union can still gain.
pub open spec fn key_room<V>(m: Map<Local, V>) -> Set<Local> {
    room(all_u32(), m.dom())
}

pub proof fn lemma_union_keep_room<V>(a: Map<Local, V>, b: Map<Local, V>)
    ensures
        key_room(map_union_keep(a, b)).len() <= key_room(a).len(),
        adds_key(a, b) ==> key_room(map_union_keep(a, b)).len() < key_room(a).len(),
{
    lemma_all_u32_finite();
    assert(map_union_keep(a, b).dom() =~= a.dom().union(b.dom()));
    lemma_union_room(all_u32(), a.dom(), b.dom());
    if adds_key(a, b) {
        let k = choose|k: Local| b.dom().contains(k) && !a.dom().contains(k);
        assert(a.dom().union(b.dom()).contains(k));
    }
}

pub proof fn lemma_agree_len<V>(a: Map<Local, V>, b: Map<Local, V>)
    ensures
        a.dom().finite(),
        map_agree(a, b).dom().len() <= a.dom().len(),
        map_agree(a, b) != a ==> map_agree(a, b).dom().len() < a.dom().len(),
{
    lemma_all_u32_finite();
    lemma_len_subset(a.dom(), all_u32());
    let j = map_agree(a, b);
    lemma_shrinks(j.dom(), a.dom());
    if j.dom() == a.dom() {
        assert(j =~= a);
    }
}

/// The (key, element) pairs of a set-valued map.
pub open spec fn flat<X>(m: Map<Local, Set<X>>) -> Set<(Local, X)> {
    Set::new(|p: (Local, X)| m.contains_key(p.0) && m[p.0].contains(p.1))
}

/// What a set-valued map joined by pointwise union can still gain: keys,
/// then (key, element) pairs.
pub open spec fn sets_room<X>(ux: Set<X>, m: Map<Local, Set<X>>) -> nat {
    key_room(m).len() + room(product(all_u32(), ux), flat(m)).len()
}

pub proof fn lemma_sets_union_room<X>(ux: Set<X>, a: Map<Local, Set<X>>, b: Map<Local, Set<X>>)
    requires
        ux.finite(),
        forall|x: X| #[trigger] ux.contains(x),
    ensures
        sets_room(ux, sets_union(a, b)) <= sets_room(ux, a),
        sets_grow(a, b) ==> sets_room(ux, sets_union(a, b)) < sets_room(ux, a),
{
    lemma_all_u32_finite();
    lemma_product_finite(all_u32(), ux);
    let u = product(all_u32(), ux);
    let j = sets_union(a, b);
    assert(j.dom() =~= a.dom().union(b.dom()));
    lemma_union_room(all_u32(), a.dom(), b.dom());
    assert forall|p: (Local, X)| #[trigger] u.contains(p) by {
        assert(all_u32().contains(p.0) && ux.contains(p.1));
    }
    assert(flat(j) =~= flat(a).union(flat(b)));
    lemma_union_room(u, flat(a), flat(b));
    if sets_grow(a, b) {
        let (k, x) = choose|k: Local, x: X| b.contains_key(k) && b[k].contains(x) && !(a.contains_key(k) && a[k].contains(x));
        assert(flat(b).contains((k, x)) && !flat(a).contains((k, x)));
        assert(flat(a).union(flat(b)) != flat(a));
    }
}

/// A rank for a lattice value: joins never lower it, and raise it whenever
/// they change the value.
pub open spec fn heap_rank(h: HeapState) -> nat {
    match h {
        HeapState::RawOwned => 0,
        HeapState::Reconstituted => 0,
        HeapState::MaybeFreed => 1,
        HeapState::Escaped => 2,
    }
}

pub open spec fn proto_rank(p: ProtocolState) -> nat {
    match p {
        ProtocolState::MaybeActive => 1,
        _ => 0,
    }
}

pub open spec fn init_rank(i: InitState) -> nat {
    match i {
        InitState::Initialized => 0,
        InitState::Unknown => 1,
    }
}

pub open spec fn levels() -> Set<nat> {
    set![0nat, 1nat, 2nat, 3nat]
}

/// The (key, level) pairs a lattice-valued map has reached: a key counts at
/// level 0, and at each level up to its value's rank plus one.
pub open spec fn reached<K, V>(m: Map<K, V>, rank: spec_fn(V) -> nat) -> Set<(K, nat)> {
    Set::new(|p: (K, nat)| m.contains_key(p.0) && p.1 <= rank(m[p.0]) + 1 && p.1 <= 3)
}

pub open spec fn lattice_room<K, V>(uk: Set<K>, m: Map<K, V>, rank: spec_fn(V) -> nat) -> nat {
    room(product(uk, levels()), reached(m, rank)).len()
}

/// The maps differ at key `k`.
pub open spec fn differs_at<K, V>(m: Map<K, V>, n: Map<K, V>, k: K) -> bool {
    m.contains_key(k) != n.contains_key(k) || (n.contains_key(k) && m[k] != n[k])
}

pub proof fn lemma_map_join_room<K, V: crate::collections::Lattice>(
    uk: Set<K>,
    a: Map<K, V>,
    b: Map<K, V>,
    rank: spec_fn(V) -> nat,
)
    requires
        uk.finite(),
        forall|k: K| #[trigger] uk.contains(k),
        forall|x: V| #[trigger] rank(x) <= 2,
        forall|x: V, y: V| #[trigger] rank(V::spec_join(x, y)) >= rank(x),
        forall|x: V, y: V| V::spec_join(x, y) != x ==> #[trigger] rank(V::spec_join(x, y)) > rank(x),
    ensures
        lattice_room(uk, map_join(a, b), rank) <= lattice_room(uk, a, rank),
        map_join(a, b) != a ==> lattice_room(uk, map_join(a, b), rank) < lattice_room(uk, a, rank),
{
    let u = product(uk, levels());
    let j = map_join(a, b);
    lemma_product_finite(uk, levels());
    assert forall|p: (K, nat)| reached(a, rank).contains(p) implies #[trigger] reached(j, rank).contains(p) by {
        if b.contains_key(p.0) {
            assert(rank(V::spec_join(a[p.0], b[p.0])) >= rank(a[p.0]));
        }
    }
    assert(room(u, reached(j, rank)).subset_of(room(u, reached(a, rank))));
    lemma_shrinks(room(u, reached(j, rank)), room(u, reached(a, rank)));
    if j != a {
        assert(exists|k: K| #[trigger] differs_at(j, a, k)) by {
            if !(exists|k: K| #[trigger] differs_at(j, a, k)) {
                assert forall|k: K| #[trigger] j.contains_key(k) == a.contains_key(k) by {
                    assert(!differs_at(j, a, k));
                }
                assert forall|k: K| #[trigger] j.contains_key(k) implies j[k] == a[k] by {
                    assert(!differs_at(j, a, k));
                }
                assert(j =~= a);
            }
        }
        let k = choose|k: K| #[trigger] differs_at(j, a, k);
        if !a.contains_key(k) {
            assert(j.contains_key(k));
            assert(reached(j, rank).contains((k, 0nat)) && !reached(a, rank).contains((k, 0nat)));
            assert(u.contains((k, 0nat)));
            assert(room(u, reached(a, rank)).contains((k, 0nat)));
        } else {
            assert(b.contains_key(k));
            let x = a[k];
            let y = b[k];
            assert(rank(V::spec_join(x, y)) > rank(x));
            let l = rank(x) + 2;
            assert(rank(V::spec_join(x, y)) <= 2);
            assert(reached(j, rank).contains((k, l)) && !reached(a, rank).contains((k, l)));
            assert(levels().contains(l));
            assert(room(u, reached(a, rank)).contains((k, l)));
        }
    }
}

/// The (key, value) pairs a bound map still allows: for upper bounds every
/// value at or above the bound, for lower bounds every value at or below.
pub open spec fn bound_pairs(m: Map<Local, u64>, upper: bool) -> Set<(Local, u64)> {
    Set::new(|p: (Local, u64)| m.contains_key(p.0) && (if upper { p.1 >= m[p.0] } else { p.1 <= m[p.0] }))
}

pub proof fn lemma_meet_len(a: Map<Local, u64>, b: Map<Local, u64>, upper: bool)
    ensures
        bound_pairs(map_meet(a, b, upper), upper).len() <= bound_pairs(a, upper).len(),
        map_meet(a, b, upper) != a ==> bound_pairs(map_meet(a, b, upper), upper).len() < bound_pairs(a, upper).len(),
{
    let j = map_meet(a, b, upper);
    let u = product(all_u32(), Set::<u64>::full());
    lemma_all_u32_finite();
    lemma_all_u64_finite();
    lemma_product_finite(all_u32(), Set::<u64>::full());
    assert(bound_pairs(a, upper).subset_of(u));
    lemma_len_subset(bound_pairs(a, upper), u);
    lemma_shrinks(bound_pairs(j, upper), bound_pairs(a, upper));
    if j != a {
        assert(exists|k: Local| #[trigger] differs_at(j, a, k)) by {
            if !(exists|k: Local| #[trigger] differs_at(j, a, k)) {
                assert forall|k: Local| #[trigger] j.contains_key(k) == a.contains_key(k) by {
                    assert(!differs_at(j, a, k));
                }
                assert forall|k: Local| #[trigger] j.contains_key(k) implies j[k] == a[k] by {
                    assert(!differs_at(j, a, k));
                }
                assert(j =~= a);
            }
        }
        let k = choose|k: Local| #[trigger] differs_at(j, a, k);
        assert(a.contains_key(k));
        assert(bound_pairs(a, upper).contains((k, a[k])));
        assert(!bound_pairs(j, upper).contains((k, a[k])));
    }
}

/// What a flag joined by `||` can still change.
pub open spec fn flag_room(b: bool) -> nat {
    if b { 0 } else { 1 }
}

/// How far the fields of `v` can still move under joins, summed.
pub open spec fn height(v: StateView) -> nat {
    lattice_room(all_objects(), v.heap, |h: HeapState| heap_rank(h))
        + sets_room(all_objects(), v.points_to)
        + sets_room(all_protocols(), v.local_proto)
        + lattice_room(all_protocols(), v.typestate, |p: ProtocolState| proto_rank(p))
        + flag_room(v.untracked_forget_seen)
        + lattice_room(all_u32(), v.init, |i: InitState| init_rank(i))
        + sets_room(all_u32(), v.owner_alias)
        + v.fn_ptr_targets.dom().len()
        + bound_pairs(v.const_upper, true).len()
        + bound_pairs(v.const_lower, false).len()
        + flag_room(v.thread_spawned)
        + key_room(v.lt_facts).len()
        + key_room(v.ge_facts).len()
        + key_room(v.le_facts).len()
        + key_room(v.gt_facts).len()
        + key_room(v.ref_base).len()
        + key_room(v.len_of).len()
        + key_room(v.cap_of).len()
        + key_room(v.spare_if_true).len()
        + key_room(v.spare_if_false).len()
        + key_room(v.full_if_true).len()
        + key_room(v.full_if_false).len()
        + key_room(v.nonzero_if_true).len()
        + key_room(v.nonzero_if_false).len()
        + key_room(v.finite_if_true).len()
        + key_room(v.nan_if_true).len()
        + key_room(v.const_lt).len()
        + key_room(v.const_le).len()
        + key_room(v.const_gt).len()
        + key_room(v.const_ge).len()
        + key_room(v.cast_origin).len()
        + key_room(v.ne_pair_if_true).len()
        + key_room(v.eq_pair_if_true).len()
        + key_room(v.array_components).len()
        + v.buf_written.len()
        + v.bounded.len()
        + v.bounded_or_eq.len()
        + v.has_spare.len()
        + v.is_full.len()
        + v.nonzero.len()
        + v.finite.len()
        + v.fd_origin.len()
        + v.eq_locals.len()
        + v.keys_are_ne.len()
        + room(all_u32(), v.realloced_params).len()
        + room(all_u32(), v.fd_consumed).len()
        + room(all_u32(), v.mul_overflow).len()
        + room(all_u32(), v.const_ptr_cast).len()
}

/// A join never raises the height, and a join that reports a change lowers
/// it.
pub proof fn lemma_join_lowers_height(a: StateView, b: StateView)
    ensures
        height(join_view(a, b)) <= height(a),
        join_changed(a, b) ==> height(join_view(a, b)) < height(a),
{
    lemma_universes();
    lemma_map_join_room(all_objects(), a.heap, b.heap, |h: HeapState| heap_rank(h));
    lemma_sets_union_room(all_objects(), a.points_to, b.points_to);
    lemma_sets_union_room(all_protocols(), a.local_proto, b.local_proto);
    lemma_map_join_room(all_protocols(), a.typestate, b.typestate, |p: ProtocolState| proto_rank(p));
    lemma_map_join_room(all_u32(), a.init, b.init, |i: InitState| init_rank(i));
    lemma_sets_union_room(all_u32(), a.owner_alias, b.owner_alias);
    lemma_agree_len(a.fn_ptr_targets, b.fn_ptr_targets);
    lemma_meet_len(a.const_upper, b.const_upper, true);
    lemma_meet_len(a.const_lower, b.const_lower, false);
    lemma_union_keep_room(a.lt_facts, b.lt_facts);
    lemma_union_keep_room(a.ge_facts, b.ge_facts);
    lemma_union_keep_room(a.le_facts, b.le_facts);
    lemma_union_keep_room(a.gt_facts, b.gt_facts);
    lemma_union_keep_room(a.ref_base, b.ref_base);
    lemma_union_keep_room(a.len_of, b.len_of);
    lemma_union_keep_room(a.cap_of, b.cap_of);
    lemma_union_keep_room(a.spare_if_true, b.spare_if_true);
    lemma_union_keep_room(a.spare_if_false, b.spare_if_false);
    lemma_union_keep_room(a.full_if_true, b.full_if_true);
    lemma_union_keep_room(a.full_if_false, b.full_if_false);
    lemma_union_keep_room(a.nonzero_if_true, b.nonzero_if_true);
    lemma_union_keep_room(a.nonzero_if_false, b.nonzero_if_false);
    lemma_union_keep_room(a.finite_if_true, b.finite_if_true);
    lemma_union_keep_room(a.nan_if_true, b.nan_if_true);
    lemma_union_keep_room(a.const_lt, b.const_lt);
    lemma_union_keep_room(a.const_le, b.const_le);
    lemma_union_keep_room(a.const_gt, b.const_gt);
    lemma_union_keep_room(a.const_ge, b.const_ge);
    lemma_union_keep_room(a.cast_origin, b.cast_origin);
    lemma_union_keep_room(a.ne_pair_if_true, b.ne_pair_if_true);
    lemma_union_keep_room(a.eq_pair_if_true, b.eq_pair_if_true);
    lemma_union_keep_room(a.array_components, b.array_components);
    lemma_intersect_len(all_u32(), a.buf_written, b.buf_written);
    lemma_intersect_len(all_u32(), a.bounded, b.bounded);
    lemma_intersect_len(all_u32(), a.bounded_or_eq, b.bounded_or_eq);
    lemma_intersect_len(all_u32(), a.has_spare, b.has_spare);
    lemma_intersect_len(all_u32(), a.is_full, b.is_full);
    lemma_intersect_len(all_u32(), a.nonzero, b.nonzero);
    lemma_intersect_len(all_u32(), a.finite, b.finite);
    lemma_intersect_len(all_u32(), a.fd_origin, b.fd_origin);
    lemma_intersect_len(all_pairs(), a.eq_locals, b.eq_locals);
    lemma_intersect_len(all_pairs(), a.keys_are_ne, b.keys_are_ne);
    lemma_union_room(all_u32(), a.realloced_params, b.realloced_params);
    lemma_union_room(all_u32(), a.fd_consumed, b.fd_consumed);
    lemma_union_room(all_u32(), a.mul_overflow, b.mul_overflow);
    lemma_union_room(all_u32(), a.const_ptr_cast, b.const_ptr_cast);
}

} // verus!
