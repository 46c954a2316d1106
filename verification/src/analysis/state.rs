//! The abstract state at a program point and its join.

use vstd::prelude::*;
use crate::analysis::object::{HeapState, InitState, ObjectId};
use crate::analysis::typestate::{ProtocolId, ProtocolState, proto_hazard};
use crate::analysis::object::{lemma_heap_join_semilattice, lemma_init_join_semilattice};
use crate::analysis::typestate::lemma_proto_join_semilattice;
use crate::collections::{
    LocalPair, Lattice, VecMap, VecSet, deep_seqs, deep_sets, is_semilattice, lemma_map_agree_keeps_absorbing,
    lemma_map_join_keeps_absorbing, lemma_map_meet_keeps_absorbing, lemma_sets_union_absorbs,
    lemma_sets_union_keeps_absorbing, map_agree, map_join, map_meet, map_union_keep, sets_grow, sets_union,
};
use crate::mir::{DefId, Local};

verus! {

/// The abstract state at the entry (or any point) of a basic block.
///
/// Each field documents how it is joined: UNION fields keep facts from
/// either path (for maps, the left side's value wins), INTERSECTION fields
/// keep only facts proven on every path.
pub struct BlockState {
    /// Ownership state of every abstract heap object.
    pub heap: VecMap<ObjectId, HeapState>,
    /// Each local may point to a set of abstract objects (join = union).
    pub points_to: VecMap<Local, VecSet<ObjectId>>,
    /// A local may hold several protocol instances at a merge point (union).
    pub local_proto: VecMap<Local, VecSet<ProtocolId>>,
    pub typestate: VecMap<ProtocolId, ProtocolState>,
    /// A `mem::forget` of an untracked guard-typed local was seen (OR).
    pub untracked_forget_seen: bool,
    /// Initialization of `MaybeUninit` locals; absence means unknown.
    pub init: VecMap<Local, InitState>,
    /// Locals whose `BufMut` was written on every path (intersection).
    pub buf_written: VecSet<Local>,
    /// comparison result → its left operand for `<`, `>=`, `<=`, `>` (union).
    pub lt_facts: VecMap<Local, Local>,
    pub ge_facts: VecMap<Local, Local>,
    pub le_facts: VecMap<Local, Local>,
    pub gt_facts: VecMap<Local, Local>,
    /// Locals proven `<` some length (intersection).
    pub bounded: VecSet<Local>,
    /// Locals proven `<=` some length (intersection).
    pub bounded_or_eq: VecSet<Local>,
    /// pointer local → owner locals whose interior it aliases (union).
    pub owner_alias: VecMap<Local, VecSet<Local>>,
    /// fn-pointer local → the function it was reified from (kept where both
    /// paths agree).
    pub fn_ptr_targets: VecMap<Local, DefId>,
    /// Parameters whose buffer was reallocated (union).
    pub realloced_params: VecSet<Local>,
    /// borrow → borrowed base local (union).
    pub ref_base: VecMap<Local, Local>,
    /// `len()` result → collection (union).
    pub len_of: VecMap<Local, Local>,
    /// `capacity()` result → collection (union).
    pub cap_of: VecMap<Local, Local>,
    /// comparison → collection with spare capacity when it is true (union).
    pub spare_if_true: VecMap<Local, Local>,
    /// comparison → collection with spare capacity when it is false (union).
    pub spare_if_false: VecMap<Local, Local>,
    /// Collections proven to have spare capacity (intersection).
    pub has_spare: VecSet<Local>,
    pub full_if_true: VecMap<Local, Local>,
    pub full_if_false: VecMap<Local, Local>,
    /// Collections proven exactly full (intersection).
    pub is_full: VecSet<Local>,
    /// Locals proven nonzero (intersection).
    pub nonzero: VecSet<Local>,
    pub nonzero_if_true: VecMap<Local, Local>,
    pub nonzero_if_false: VecMap<Local, Local>,
    /// Floats proven not NaN (intersection).
    pub finite: VecSet<Local>,
    pub finite_if_true: VecMap<Local, Local>,
    pub nan_if_true: VecMap<Local, Local>,
    /// Proven `local <= bound` (keys intersected, values max).
    pub const_upper: VecMap<Local, u64>,
    /// Proven `local >= bound` (keys intersected, values min).
    pub const_lower: VecMap<Local, u64>,
    /// comparison → (local, k) for `local < k`, `<=`, `>`, `>=` (union).
    pub const_lt: VecMap<Local, (Local, u64)>,
    pub const_le: VecMap<Local, (Local, u64)>,
    pub const_gt: VecMap<Local, (Local, u64)>,
    pub const_ge: VecMap<Local, (Local, u64)>,
    /// Ordered pairs proven equal (intersection).
    pub eq_locals: VecSet<LocalPair>,
    /// integer-cast result → its source (union).
    pub cast_origin: VecMap<Local, Local>,
    /// comparison → (a, b) for `a != b` and `a == b` (union).
    pub ne_pair_if_true: VecMap<Local, (Local, Local)>,
    pub eq_pair_if_true: VecMap<Local, (Local, Local)>,
    /// Ordered pairs proven different (intersection).
    pub keys_are_ne: VecSet<LocalPair>,
    /// array/tuple aggregate → its component locals (union).
    pub array_components: VecMap<Local, Vec<Local>>,
    /// Raw fds produced by `into_raw_fd` on every path (intersection).
    pub fd_origin: VecSet<Local>,
    /// Raw fds already handed to `from_raw_fd` on some path (union).
    pub fd_consumed: VecSet<Local>,
    /// Locals holding the result of a multiplication or addition that the
    /// operands' proven upper bounds do not keep within `isize::MAX`, on
    /// some path (union); carried through copies and moves.
    pub mul_overflow: VecSet<Local>,
    /// `*mut` pointers obtained by casting a `*const` pointer, on some path
    /// (union); carried through copies and moves.
    pub const_ptr_cast: VecSet<Local>,
    /// A thread was spawned on some path (OR).
    pub thread_spawned: bool,
}

/// The mathematical content of a `BlockState`.
#[verifier::ext_equal]
pub struct StateView {
    pub heap: Map<ObjectId, HeapState>,
    pub points_to: Map<Local, Set<ObjectId>>,
    pub local_proto: Map<Local, Set<ProtocolId>>,
    pub typestate: Map<ProtocolId, ProtocolState>,
    pub untracked_forget_seen: bool,
    pub init: Map<Local, InitState>,
    pub buf_written: Set<Local>,
    pub lt_facts: Map<Local, Local>,
    pub ge_facts: Map<Local, Local>,
    pub le_facts: Map<Local, Local>,
    pub gt_facts: Map<Local, Local>,
    pub bounded: Set<Local>,
    pub bounded_or_eq: Set<Local>,
    pub owner_alias: Map<Local, Set<Local>>,
    pub fn_ptr_targets: Map<Local, DefId>,
    pub realloced_params: Set<Local>,
    pub ref_base: Map<Local, Local>,
    pub len_of: Map<Local, Local>,
    pub cap_of: Map<Local, Local>,
    pub spare_if_true: Map<Local, Local>,
    pub spare_if_false: Map<Local, Local>,
    pub has_spare: Set<Local>,
    pub full_if_true: Map<Local, Local>,
    pub full_if_false: Map<Local, Local>,
    pub is_full: Set<Local>,
    pub nonzero: Set<Local>,
    pub nonzero_if_true: Map<Local, Local>,
    pub nonzero_if_false: Map<Local, Local>,
    pub finite: Set<Local>,
    pub finite_if_true: Map<Local, Local>,
    pub nan_if_true: Map<Local, Local>,
    pub const_upper: Map<Local, u64>,
    pub const_lower: Map<Local, u64>,
    pub const_lt: Map<Local, (Local, u64)>,
    pub const_le: Map<Local, (Local, u64)>,
    pub const_gt: Map<Local, (Local, u64)>,
    pub const_ge: Map<Local, (Local, u64)>,
    pub eq_locals: Set<LocalPair>,
    pub cast_origin: Map<Local, Local>,
    pub ne_pair_if_true: Map<Local, (Local, Local)>,
    pub eq_pair_if_true: Map<Local, (Local, Local)>,
    pub keys_are_ne: Set<LocalPair>,
    pub array_components: Map<Local, Seq<Local>>,
    pub fd_origin: Set<Local>,
    pub fd_consumed: Set<Local>,
    pub mul_overflow: Set<Local>,
    pub const_ptr_cast: Set<Local>,
    pub thread_spawned: bool,
}

impl View for BlockState {
    type V = StateView;

    open spec fn view(&self) -> StateView {
        StateView {
            heap: self.heap@,
            points_to: deep_sets(self.points_to@),
            local_proto: deep_sets(self.local_proto@),
            typestate: self.typestate@,
            untracked_forget_seen: self.untracked_forget_seen,
            init: self.init@,
            buf_written: self.buf_written@,
            lt_facts: self.lt_facts@,
            ge_facts: self.ge_facts@,
            le_facts: self.le_facts@,
            gt_facts: self.gt_facts@,
            bounded: self.bounded@,
            bounded_or_eq: self.bounded_or_eq@,
            owner_alias: deep_sets(self.owner_alias@),
            fn_ptr_targets: self.fn_ptr_targets@,
            realloced_params: self.realloced_params@,
            ref_base: self.ref_base@,
            len_of: self.len_of@,
            cap_of: self.cap_of@,
            spare_if_true: self.spare_if_true@,
            spare_if_false: self.spare_if_false@,
            has_spare: self.has_spare@,
            full_if_true: self.full_if_true@,
            full_if_false: self.full_if_false@,
            is_full: self.is_full@,
            nonzero: self.nonzero@,
            nonzero_if_true: self.nonzero_if_true@,
            nonzero_if_false: self.nonzero_if_false@,
            finite: self.finite@,
            finite_if_true: self.finite_if_true@,
            nan_if_true: self.nan_if_true@,
            const_upper: self.const_upper@,
            const_lower: self.const_lower@,
            const_lt: self.const_lt@,
            const_le: self.const_le@,
            const_gt: self.const_gt@,
            const_ge: self.const_ge@,
            eq_locals: self.eq_locals@,
            cast_origin: self.cast_origin@,
            ne_pair_if_true: self.ne_pair_if_true@,
            eq_pair_if_true: self.eq_pair_if_true@,
            keys_are_ne: self.keys_are_ne@,
            array_components: deep_seqs(self.array_components@),
            fd_origin: self.fd_origin@,
            fd_consumed: self.fd_consumed@,
            mul_overflow: self.mul_overflow@,
            const_ptr_cast: self.const_ptr_cast@,
            thread_spawned: self.thread_spawned,
        }
    }
}

/// The state with no facts at all.
pub open spec fn empty_view() -> StateView {
    StateView {
        heap: Map::empty(),
        points_to: Map::empty(),
        local_proto: Map::empty(),
        typestate: Map::empty(),
        untracked_forget_seen: false,
        init: Map::empty(),
        buf_written: Set::empty(),
        lt_facts: Map::empty(),
        ge_facts: Map::empty(),
        le_facts: Map::empty(),
        gt_facts: Map::empty(),
        bounded: Set::empty(),
        bounded_or_eq: Set::empty(),
        owner_alias: Map::empty(),
        fn_ptr_targets: Map::empty(),
        realloced_params: Set::empty(),
        ref_base: Map::empty(),
        len_of: Map::empty(),
        cap_of: Map::empty(),
        spare_if_true: Map::empty(),
        spare_if_false: Map::empty(),
        has_spare: Set::empty(),
        full_if_true: Map::empty(),
        full_if_false: Map::empty(),
        is_full: Set::empty(),
        nonzero: Set::empty(),
        nonzero_if_true: Map::empty(),
        nonzero_if_false: Map::empty(),
        finite: Set::empty(),
        finite_if_true: Map::empty(),
        nan_if_true: Map::empty(),
        const_upper: Map::empty(),
        const_lower: Map::empty(),
        const_lt: Map::empty(),
        const_le: Map::empty(),
        const_gt: Map::empty(),
        const_ge: Map::empty(),
        eq_locals: Set::empty(),
        cast_origin: Map::empty(),
        ne_pair_if_true: Map::empty(),
        eq_pair_if_true: Map::empty(),
        keys_are_ne: Set::empty(),
        array_components: Map::empty(),
        fd_origin: Set::empty(),
        fd_consumed: Set::empty(),
        mul_overflow: Set::empty(),
        const_ptr_cast: Set::empty(),
        thread_spawned: false,
    }
}

/// The join of two states (see the field documentation of `BlockState`).
pub open spec fn join_view(a: StateView, b: StateView) -> StateView {
    StateView {
        heap: map_join(a.heap, b.heap),
        points_to: sets_union(a.points_to, b.points_to),
        local_proto: sets_union(a.local_proto, b.local_proto),
        typestate: map_join(a.typestate, b.typestate),
        untracked_forget_seen: a.untracked_forget_seen || b.untracked_forget_seen,
        init: map_join(a.init, b.init),
        buf_written: a.buf_written.intersect(b.buf_written),
        lt_facts: map_union_keep(a.lt_facts, b.lt_facts),
        ge_facts: map_union_keep(a.ge_facts, b.ge_facts),
        le_facts: map_union_keep(a.le_facts, b.le_facts),
        gt_facts: map_union_keep(a.gt_facts, b.gt_facts),
        bounded: a.bounded.intersect(b.bounded),
        bounded_or_eq: a.bounded_or_eq.intersect(b.bounded_or_eq),
        owner_alias: sets_union(a.owner_alias, b.owner_alias),
        fn_ptr_targets: map_agree(a.fn_ptr_targets, b.fn_ptr_targets),
        realloced_params: a.realloced_params.union(b.realloced_params),
        ref_base: map_union_keep(a.ref_base, b.ref_base),
        len_of: map_union_keep(a.len_of, b.len_of),
        cap_of: map_union_keep(a.cap_of, b.cap_of),
        spare_if_true: map_union_keep(a.spare_if_true, b.spare_if_true),
        spare_if_false: map_union_keep(a.spare_if_false, b.spare_if_false),
        has_spare: a.has_spare.intersect(b.has_spare),
        full_if_true: map_union_keep(a.full_if_true, b.full_if_true),
        full_if_false: map_union_keep(a.full_if_false, b.full_if_false),
        is_full: a.is_full.intersect(b.is_full),
        nonzero: a.nonzero.intersect(b.nonzero),
        nonzero_if_true: map_union_keep(a.nonzero_if_true, b.nonzero_if_true),
        nonzero_if_false: map_union_keep(a.nonzero_if_false, b.nonzero_if_false),
        finite: a.finite.intersect(b.finite),
        finite_if_true: map_union_keep(a.finite_if_true, b.finite_if_true),
        nan_if_true: map_union_keep(a.nan_if_true, b.nan_if_true),
        const_upper: map_meet(a.const_upper, b.const_upper, true),
        const_lower: map_meet(a.const_lower, b.const_lower, false),
        const_lt: map_union_keep(a.const_lt, b.const_lt),
        const_le: map_union_keep(a.const_le, b.const_le),
        const_gt: map_union_keep(a.const_gt, b.const_gt),
        const_ge: map_union_keep(a.const_ge, b.const_ge),
        eq_locals: a.eq_locals.intersect(b.eq_locals),
        cast_origin: map_union_keep(a.cast_origin, b.cast_origin),
        ne_pair_if_true: map_union_keep(a.ne_pair_if_true, b.ne_pair_if_true),
        eq_pair_if_true: map_union_keep(a.eq_pair_if_true, b.eq_pair_if_true),
        keys_are_ne: a.keys_are_ne.intersect(b.keys_are_ne),
        array_components: map_union_keep(a.array_components, b.array_components),
        fd_origin: a.fd_origin.intersect(b.fd_origin),
        fd_consumed: a.fd_consumed.union(b.fd_consumed),
        mul_overflow: a.mul_overflow.union(b.mul_overflow),
        const_ptr_cast: a.const_ptr_cast.union(b.const_ptr_cast),
        thread_spawned: a.thread_spawned || b.thread_spawned,
    }
}

/// `b` has a key that `a` lacks.
pub open spec fn adds_key<K, V>(a: Map<K, V>, b: Map<K, V>) -> bool {
    !b.dom().subset_of(a.dom())
}

/// Whether joining `b` into `a` reports a change: every field whose joined
/// value differs from `a`'s, except that a set-valued map only counts a new
/// element (a new key bound to the empty set is recorded silently).
pub open spec fn join_changed(a: StateView, b: StateView) -> bool {
    let j = join_view(a, b);
    ||| j.heap != a.heap
    ||| sets_grow(a.points_to, b.points_to)
    ||| sets_grow(a.local_proto, b.local_proto)
    ||| j.typestate != a.typestate
    ||| j.untracked_forget_seen != a.untracked_forget_seen
    ||| j.init != a.init
    ||| j.buf_written != a.buf_written
    ||| adds_key(a.lt_facts, b.lt_facts)
    ||| adds_key(a.ge_facts, b.ge_facts)
    ||| adds_key(a.le_facts, b.le_facts)
    ||| adds_key(a.gt_facts, b.gt_facts)
    ||| j.bounded != a.bounded
    ||| j.bounded_or_eq != a.bounded_or_eq
    ||| sets_grow(a.owner_alias, b.owner_alias)
    ||| j.fn_ptr_targets != a.fn_ptr_targets
    ||| j.realloced_params != a.realloced_params
    ||| adds_key(a.ref_base, b.ref_base)
    ||| adds_key(a.len_of, b.len_of)
    ||| adds_key(a.cap_of, b.cap_of)
    ||| adds_key(a.spare_if_true, b.spare_if_true)
    ||| adds_key(a.spare_if_false, b.spare_if_false)
    ||| j.has_spare != a.has_spare
    ||| adds_key(a.full_if_true, b.full_if_true)
    ||| adds_key(a.full_if_false, b.full_if_false)
    ||| j.is_full != a.is_full
    ||| j.nonzero != a.nonzero
    ||| adds_key(a.nonzero_if_true, b.nonzero_if_true)
    ||| adds_key(a.nonzero_if_false, b.nonzero_if_false)
    ||| j.finite != a.finite
    ||| adds_key(a.finite_if_true, b.finite_if_true)
    ||| adds_key(a.nan_if_true, b.nan_if_true)
    ||| j.const_upper != a.const_upper
    ||| j.const_lower != a.const_lower
    ||| adds_key(a.const_lt, b.const_lt)
    ||| adds_key(a.const_le, b.const_le)
    ||| adds_key(a.const_gt, b.const_gt)
    ||| adds_key(a.const_ge, b.const_ge)
    ||| j.eq_locals != a.eq_locals
    ||| adds_key(a.cast_origin, b.cast_origin)
    ||| adds_key(a.ne_pair_if_true, b.ne_pair_if_true)
    ||| adds_key(a.eq_pair_if_true, b.eq_pair_if_true)
    ||| j.keys_are_ne != a.keys_are_ne
    ||| adds_key(a.array_components, b.array_components)
    ||| j.fd_origin != a.fd_origin
    ||| j.fd_consumed != a.fd_consumed
    ||| j.mul_overflow != a.mul_overflow
    ||| j.const_ptr_cast != a.const_ptr_cast
    ||| j.thread_spawned != a.thread_spawned
}

impl BlockState {
    /// The state with no facts (the entry state of an ordinary analysis).
    pub fn new() -> (r: Self)
        ensures
            r@ == empty_view(),
    {
        let r = BlockState {
            heap: VecMap::new(),
            points_to: VecMap::new(),
            local_proto: VecMap::new(),
            typestate: VecMap::new(),
            untracked_forget_seen: false,
            init: VecMap::new(),
            buf_written: VecSet::new(),
            lt_facts: VecMap::new(),
            ge_facts: VecMap::new(),
            le_facts: VecMap::new(),
            gt_facts: VecMap::new(),
            bounded: VecSet::new(),
            bounded_or_eq: VecSet::new(),
            owner_alias: VecMap::new(),
            fn_ptr_targets: VecMap::new(),
            realloced_params: VecSet::new(),
            ref_base: VecMap::new(),
            len_of: VecMap::new(),
            cap_of: VecMap::new(),
            spare_if_true: VecMap::new(),
            spare_if_false: VecMap::new(),
            has_spare: VecSet::new(),
            full_if_true: VecMap::new(),
            full_if_false: VecMap::new(),
            is_full: VecSet::new(),
            nonzero: VecSet::new(),
            nonzero_if_true: VecMap::new(),
            nonzero_if_false: VecMap::new(),
            finite: VecSet::new(),
            finite_if_true: VecMap::new(),
            nan_if_true: VecMap::new(),
            const_upper: VecMap::new(),
            const_lower: VecMap::new(),
            const_lt: VecMap::new(),
            const_le: VecMap::new(),
            const_gt: VecMap::new(),
            const_ge: VecMap::new(),
            eq_locals: VecSet::new(),
            cast_origin: VecMap::new(),
            ne_pair_if_true: VecMap::new(),
            eq_pair_if_true: VecMap::new(),
            keys_are_ne: VecSet::new(),
            array_components: VecMap::new(),
            fd_origin: VecSet::new(),
            fd_consumed: VecSet::new(),
            mul_overflow: VecSet::new(),
            const_ptr_cast: VecSet::new(),
            thread_spawned: false,
        };
        assert(r@ =~= empty_view());
        r
    }

    /// An independent copy.
    pub fn duplicate(&self) -> (r: Self)
        ensures
            r@ == self@,
    {
        let mut comps: VecMap<Local, Vec<Local>> = VecMap::new();
        comps.union_keep_seqs(&self.array_components);
        let r = BlockState {
            heap: self.heap.duplicate(),
            points_to: self.points_to.duplicate_sets(),
            local_proto: self.local_proto.duplicate_sets(),
            typestate: self.typestate.duplicate(),
            untracked_forget_seen: self.untracked_forget_seen,
            init: self.init.duplicate(),
            buf_written: self.buf_written.duplicate(),
            lt_facts: self.lt_facts.duplicate(),
            ge_facts: self.ge_facts.duplicate(),
            le_facts: self.le_facts.duplicate(),
            gt_facts: self.gt_facts.duplicate(),
            bounded: self.bounded.duplicate(),
            bounded_or_eq: self.bounded_or_eq.duplicate(),
            owner_alias: self.owner_alias.duplicate_sets(),
            fn_ptr_targets: self.fn_ptr_targets.duplicate(),
            realloced_params: self.realloced_params.duplicate(),
            ref_base: self.ref_base.duplicate(),
            len_of: self.len_of.duplicate(),
            cap_of: self.cap_of.duplicate(),
            spare_if_true: self.spare_if_true.duplicate(),
            spare_if_false: self.spare_if_false.duplicate(),
            has_spare: self.has_spare.duplicate(),
            full_if_true: self.full_if_true.duplicate(),
            full_if_false: self.full_if_false.duplicate(),
            is_full: self.is_full.duplicate(),
            nonzero: self.nonzero.duplicate(),
            nonzero_if_true: self.nonzero_if_true.duplicate(),
            nonzero_if_false: self.nonzero_if_false.duplicate(),
            finite: self.finite.duplicate(),
            finite_if_true: self.finite_if_true.duplicate(),
            nan_if_true: self.nan_if_true.duplicate(),
            const_upper: self.const_upper.duplicate(),
            const_lower: self.const_lower.duplicate(),
            const_lt: self.const_lt.duplicate(),
            const_le: self.const_le.duplicate(),
            const_gt: self.const_gt.duplicate(),
            const_ge: self.const_ge.duplicate(),
            eq_locals: self.eq_locals.duplicate(),
            cast_origin: self.cast_origin.duplicate(),
            ne_pair_if_true: self.ne_pair_if_true.duplicate(),
            eq_pair_if_true: self.eq_pair_if_true.duplicate(),
            keys_are_ne: self.keys_are_ne.duplicate(),
            array_components: comps,
            fd_origin: self.fd_origin.duplicate(),
            fd_consumed: self.fd_consumed.duplicate(),
            mul_overflow: self.mul_overflow.duplicate(),
            const_ptr_cast: self.const_ptr_cast.duplicate(),
            thread_spawned: self.thread_spawned,
        };
        proof {
            assert(deep_seqs(comps@) =~= deep_seqs(self.array_components@));
            assert(r@ =~= self@);
        }
        r
    }

    /// Merges `other` into `self`; returns whether anything changed.
    pub fn join_with_in_place(&mut self, other: &Self) -> (changed: bool)
        ensures
            final(self)@ == join_view(old(self)@, other@),
            changed == join_changed(old(self)@, other@),
    {
        let ghost a = self@;
        let ghost b = other@;
        let mut changed = false;
        if self.heap.join_with_map(&other.heap) { changed = true; }
        if self.points_to.union_sets(&other.points_to) { changed = true; }
        if self.local_proto.union_sets(&other.local_proto) { changed = true; }
        if self.typestate.join_with_map(&other.typestate) { changed = true; }
        if other.untracked_forget_seen && !self.untracked_forget_seen {
            self.untracked_forget_seen = true;
            changed = true;
        }
        if self.init.join_with_map(&other.init) { changed = true; }
        if self.buf_written.intersect_with(&other.buf_written) { changed = true; }
        if self.lt_facts.union_keep(&other.lt_facts) { changed = true; }
        if self.ge_facts.union_keep(&other.ge_facts) { changed = true; }
        if self.le_facts.union_keep(&other.le_facts) { changed = true; }
        if self.gt_facts.union_keep(&other.gt_facts) { changed = true; }
        if self.bounded.intersect_with(&other.bounded) { changed = true; }
        if self.bounded_or_eq.intersect_with(&other.bounded_or_eq) { changed = true; }
        if self.owner_alias.union_sets(&other.owner_alias) { changed = true; }
        if self.fn_ptr_targets.retain_agreeing(&other.fn_ptr_targets) { changed = true; }
        if self.realloced_params.union_with(&other.realloced_params) { changed = true; }
        if self.ref_base.union_keep(&other.ref_base) { changed = true; }
        if self.len_of.union_keep(&other.len_of) { changed = true; }
        if self.cap_of.union_keep(&other.cap_of) { changed = true; }
        if self.spare_if_true.union_keep(&other.spare_if_true) { changed = true; }
        if self.spare_if_false.union_keep(&other.spare_if_false) { changed = true; }
        if self.full_if_true.union_keep(&other.full_if_true) { changed = true; }
        if self.full_if_false.union_keep(&other.full_if_false) { changed = true; }
        if self.has_spare.intersect_with(&other.has_spare) { changed = true; }
        if self.is_full.intersect_with(&other.is_full) { changed = true; }
        if self.nonzero.intersect_with(&other.nonzero) { changed = true; }
        if self.finite.intersect_with(&other.finite) { changed = true; }
        if self.nonzero_if_true.union_keep(&other.nonzero_if_true) { changed = true; }
        if self.nonzero_if_false.union_keep(&other.nonzero_if_false) { changed = true; }
        if self.finite_if_true.union_keep(&other.finite_if_true) { changed = true; }
        if self.nan_if_true.union_keep(&other.nan_if_true) { changed = true; }
        if self.const_lt.union_keep(&other.const_lt) { changed = true; }
        if self.const_le.union_keep(&other.const_le) { changed = true; }
        if self.const_gt.union_keep(&other.const_gt) { changed = true; }
        if self.const_ge.union_keep(&other.const_ge) { changed = true; }
        if self.const_upper.meet(&other.const_upper, true) { changed = true; }
        if self.const_lower.meet(&other.const_lower, false) { changed = true; }
        if self.eq_locals.intersect_with(&other.eq_locals) { changed = true; }
        if self.cast_origin.union_keep(&other.cast_origin) { changed = true; }
        if self.ne_pair_if_true.union_keep(&other.ne_pair_if_true) { changed = true; }
        if self.eq_pair_if_true.union_keep(&other.eq_pair_if_true) { changed = true; }
        if self.keys_are_ne.intersect_with(&other.keys_are_ne) { changed = true; }
        if self.array_components.union_keep_seqs(&other.array_components) { changed = true; }
        if self.fd_origin.intersect_with(&other.fd_origin) { changed = true; }
        if self.fd_consumed.union_with(&other.fd_consumed) { changed = true; }
        if self.mul_overflow.union_with(&other.mul_overflow) { changed = true; }
        if self.const_ptr_cast.union_with(&other.const_ptr_cast) { changed = true; }
        if other.thread_spawned && !self.thread_spawned {
            self.thread_spawned = true;
            changed = true;
        }
        proof {
            assert(deep_seqs(other.array_components@).dom() == other.array_components@.dom());
            assert(deep_seqs(old(self).array_components@).dom() == old(self).array_components@.dom());
            assert(self@ =~= join_view(a, b));
        }
        changed
    }

    /// Merges `other` into a copy of `self`. Returns `(merged, changed)`.
    pub fn join_with(&self, other: &Self) -> (r: (Self, bool))
        ensures
            r.0@ == join_view(self@, other@),
            r.1 == join_changed(self@, other@),
    {
        let mut result = self.duplicate();
        let changed = result.join_with_in_place(other);
        (result, changed)
    }
}

impl StateView {
    pub open spec fn with_heap(self, h: Map<ObjectId, HeapState>) -> StateView {
        StateView { heap: h, ..self }
    }

    pub open spec fn with_owner_alias(self, m: Map<Local, Set<Local>>) -> StateView {
        StateView { owner_alias: m, ..self }
    }
}

/// The set a set-valued map holds under `k` (empty when absent).
pub open spec fn set_at<K, T>(m: Map<K, Set<T>>, k: K) -> Set<T> {
    if m.contains_key(k) { m[k] } else { Set::empty() }
}

/// Marks `objs` escaped, except objects already freed (`Reconstituted` or
/// `MaybeFreed`), whose staleness must stay visible through other aliases.
pub open spec fn escape_heap(heap: Map<ObjectId, HeapState>, objs: Set<ObjectId>) -> Map<ObjectId, HeapState> {
    Map::new(
        |o: ObjectId| heap.contains_key(o) || objs.contains(o),
        |o: ObjectId|
            if objs.contains(o) && !(heap.contains_key(o) && (heap[o] == HeapState::Reconstituted
                || heap[o] == HeapState::MaybeFreed)) {
                HeapState::Escaped
            } else {
                heap[o]
            },
    )
}

/// `escape_local` on the view.
pub open spec fn escape_local_view(v: StateView, l: Local) -> StateView {
    StateView {
        heap: escape_heap(v.heap, set_at(v.points_to, l)),
        points_to: v.points_to.remove(l),
        local_proto: v.local_proto.remove(l),
        owner_alias: v.owner_alias.remove(l),
        ..v
    }
}

/// The map with `dst` bound to what `src` is bound to, or `dst` unbound
/// when `src` is.
pub open spec fn copy_entry<V>(m: Map<Local, V>, dst: Local, src: Local) -> Map<Local, V> {
    if m.contains_key(src) { m.insert(dst, m[src]) } else { m.remove(dst) }
}

/// `invalidate_owner` on an owner-alias map: `owner` leaves every set and
/// emptied entries disappear.
pub open spec fn drop_owner(m: Map<Local, Set<Local>>, owner: Local) -> Map<Local, Set<Local>> {
    Map::new(|k: Local| m.contains_key(k) && m[k].remove(owner) != Set::<Local>::empty(), |k: Local| m[k].remove(owner))
}

/// A protocol was forgotten (`mem::forget`), tracked or not.
pub open spec fn spec_has_forgotten_protocol(v: StateView) -> bool {
    v.untracked_forget_seen || exists|p: ProtocolId| v.typestate.contains_key(p) && v.typestate[p] == ProtocolState::Forgotten
}

/// Some protocol is in a hazard state (consumed or maybe still active).
pub open spec fn spec_has_hazard_protocol(v: StateView) -> bool {
    exists|p: ProtocolId| v.typestate.contains_key(p) && proto_hazard(v.typestate[p])
}

/// Whether dereferencing a pointer is a use-after-free.
#[derive(Clone, Copy, PartialEq, Eq, Structural, Debug)]
pub enum FreedKind {
    /// No tracked object is freed (or the pointer is untracked / escaped).
    NotFreed,
    /// Every tracked object was reconstituted on all paths — a definite UAF.
    Definite,
    /// Freed on some path / some object — a potential UAF.
    Potential,
}

pub open spec fn is_freed_state(h: Map<ObjectId, HeapState>, o: ObjectId) -> bool {
    h.contains_key(o) && (h[o] == HeapState::Reconstituted || h[o] == HeapState::MaybeFreed)
}

/// The classification `freed_kind` computes for `l`.
pub open spec fn spec_freed_kind(v: StateView, l: Local) -> FreedKind {
    let objs = set_at(v.points_to, l);
    let any_freed = exists|o: ObjectId| objs.contains(o) && is_freed_state(v.heap, o);
    let all_recon = forall|o: ObjectId| objs.contains(o) ==> v.heap.contains_key(o) && v.heap[o] == HeapState::Reconstituted;
    if objs == Set::<ObjectId>::empty() {
        FreedKind::NotFreed
    } else if any_freed && all_recon {
        FreedKind::Definite
    } else if any_freed {
        FreedKind::Potential
    } else {
        FreedKind::NotFreed
    }
}

/// `l` holds a pointer into a live allocation: it tracks at least one object
/// and every tracked object is `RawOwned`.
pub open spec fn spec_ptr_is_raw_owned(v: StateView, l: Local) -> bool {
    let objs = set_at(v.points_to, l);
    objs != Set::<ObjectId>::empty() && forall|o: ObjectId| objs.contains(o) ==> v.heap.contains_key(o)
        && v.heap[o] == HeapState::RawOwned
}

/// The canonical (smaller index first) form of an unordered pair.
pub open spec fn canon(a: Local, b: Local) -> LocalPair {
    if a <= b { LocalPair { lo: a, hi: b } } else { LocalPair { lo: b, hi: a } }
}

pub fn canon_pair(a: Local, b: Local) -> (r: LocalPair)
    ensures
        r == canon(a, b),
{
    if a <= b { LocalPair { lo: a, hi: b } } else { LocalPair { lo: b, hi: a } }
}

/// `a` and `b` are proven equal, looking through one integer cast.
pub open spec fn spec_locals_are_eq(v: StateView, a: Local, b: Local) -> bool {
    if a == b {
        true
    } else if v.eq_locals.contains(canon(a, b)) {
        true
    } else {
        let ha = v.cast_origin.contains_key(a);
        let hb = v.cast_origin.contains_key(b);
        if ha && v.cast_origin[a] == b {
            true
        } else if hb && v.cast_origin[b] == a {
            true
        } else if ha && hb && v.cast_origin[a] == v.cast_origin[b] {
            true
        } else {
            (ha && v.eq_locals.contains(canon(v.cast_origin[a], b)))
                || (hb && v.eq_locals.contains(canon(a, v.cast_origin[b])))
        }
    }
}

/// The equality query does not depend on the order of its arguments.
pub proof fn lemma_locals_are_eq_symmetric(v: StateView, a: Local, b: Local)
    ensures
        spec_locals_are_eq(v, a, b) == spec_locals_are_eq(v, b, a),
{
    assert(canon(a, b) == canon(b, a));
}

/// `l` is a valid Unicode scalar: at most 0x10FFFF and outside the
/// surrogate range, by its proven bounds.
pub open spec fn spec_local_is_valid_scalar(v: StateView, l: Local) -> bool {
    let has_u = v.const_upper.contains_key(l);
    let has_l = v.const_lower.contains_key(l);
    has_u && v.const_upper[l] <= 0x10FFFF && ((v.const_upper[l] < 0xD800) || (has_l && v.const_lower[l] > 0xDFFF))
}

impl BlockState {
    /// Record that `ptr` aliases the interior of owner `owner`.
    pub fn set_owner_alias(&mut self, ptr: Local, owner: Local)
        ensures
            final(self)@ == old(self)@.with_owner_alias(
                old(self)@.owner_alias.insert(ptr, set_at(old(self)@.owner_alias, ptr).insert(owner))),
    {
        self.owner_alias.add_to(ptr, owner);
        proof { assert(self@ =~= old(self)@.with_owner_alias(
                old(self)@.owner_alias.insert(ptr, set_at(old(self)@.owner_alias, ptr).insert(owner)))); }
    }

    /// Propagate any owner-alias from `src` onto `dst`. Clears `dst`'s entry
    /// if `src` has none.
    pub fn copy_owner_alias(&mut self, dst: Local, src: Local)
        ensures
            final(self)@ == old(self)@.with_owner_alias(copy_entry(old(self)@.owner_alias, dst, src)),
    {
        if self.owner_alias.contains_key(src) {
            let s = self.owner_alias.set_of(src);
            self.owner_alias.put(dst, s);
        } else {
            self.owner_alias.drop_key(dst);
        }
        proof { assert(self@ =~= old(self)@.with_owner_alias(copy_entry(old(self)@.owner_alias, dst, src))); }
    }

    /// A write to `owner` may reassign the field an alias referred to, so
    /// every alias to `owner` is broken.
    pub fn invalidate_owner(&mut self, owner: Local)
        ensures
            final(self)@ == old(self)@.with_owner_alias(drop_owner(old(self)@.owner_alias, owner)),
    {
        self.owner_alias.remove_everywhere(owner);
        proof {
            assert(deep_sets(self.owner_alias@) =~= drop_owner(old(self)@.owner_alias, owner));
            assert(self@ =~= old(self)@.with_owner_alias(drop_owner(old(self)@.owner_alias, owner)));
        }
    }

    /// The owner locals whose interior `ptr` currently aliases.
    pub fn owners_of(&self, ptr: Local) -> (r: VecSet<Local>)
        ensures
            r@ == set_at(self@.owner_alias, ptr),
    {
        self.owner_alias.set_of(ptr)
    }

    /// The abstract objects `local` may point to.
    pub fn objects_for(&self, local: Local) -> (r: VecSet<ObjectId>)
        ensures
            r@ == set_at(self@.points_to, local),
    {
        self.points_to.set_of(local)
    }

    /// Marks each object of `objs` escaped unless it is already freed.
    pub fn escape_objects(&mut self, objs: &VecSet<ObjectId>)
        ensures
            final(self)@ == old(self)@.with_heap(escape_heap(old(self)@.heap, objs@)),
    {
        objs.lemma_elems();
        let ghost start = self.heap@;
        let ghost es = objs.elems();
        let mut i: usize = 0;
        while i < objs.len()
            invariant
                es == objs.elems(),
                i <= es.len(),
                forall|x: ObjectId| objs@.contains(x) <==> es.contains(x),
                self.heap@ == escape_heap(start, es.subrange(0, i as int).to_set()),
                self@ == old(self)@.with_heap(self.heap@),
            decreases es.len() - i,
        {
            let o = objs.at(i);
            proof {
                crate::collections::lemma_prefix_step(es, i as int);
            }
            match self.heap.get_copy(o) {
                Some(HeapState::Reconstituted) | Some(HeapState::MaybeFreed) => {},
                _ => {
                    self.heap.insert(o, HeapState::Escaped);
                },
            }
            proof {
                assert(self.heap@ =~= escape_heap(start, es.subrange(0, i + 1).to_set()));
            }
            i = i + 1;
        }
        proof {
            assert(es.subrange(0, i as int) =~= es);
            assert(es.to_set() =~= objs@);
            assert(self@ =~= old(self)@.with_heap(escape_heap(old(self)@.heap, objs@)));
        }
    }

    /// Marks all objects reachable from `local` as escaped and stops
    /// tracking `local`.
    pub fn escape_local(&mut self, local: Local)
        ensures
            final(self)@ == escape_local_view(old(self)@, local),
    {
        let objs = self.points_to.set_of(local);
        self.points_to.drop_key(local);
        self.escape_objects(&objs);
        self.local_proto.drop_key(local);
        self.owner_alias.drop_key(local);
        proof { assert(self@ =~= escape_local_view(old(self)@, local)); }
    }

    /// Some protocol in scope was explicitly forgotten (`mem::forget`),
    /// including guards that arrived as parameters.
    pub fn has_forgotten_protocol(&self) -> (r: bool)
        ensures
            r == spec_has_forgotten_protocol(self@),
    {
        if self.untracked_forget_seen {
            return true;
        }
        let found = self.find_protocol(false);
        proof {
            if found {
                let p = choose|p: ProtocolId| self@.typestate.contains_key(p) && self@.typestate[p] == ProtocolState::Forgotten;
            }
        }
        found
    }

    /// Some protocol in scope is in a hazard state (consumed or maybe active).
    pub fn has_hazard_protocol(&self) -> (r: bool)
        ensures
            r == spec_has_hazard_protocol(self@),
    {
        self.find_protocol(true)
    }

    /// Searches the protocol states for a hazard (`hazard`) or for a
    /// forgotten protocol (`!hazard`).
    fn find_protocol(&self, hazard: bool) -> (r: bool)
        ensures
            hazard ==> (r == exists|p: ProtocolId| self@.typestate.contains_key(p) && proto_hazard(self@.typestate[p])),
            !hazard ==> (r == exists|p: ProtocolId| self@.typestate.contains_key(p)
                && self@.typestate[p] == ProtocolState::Forgotten),
    {
        self.typestate.lemma_seqs();
        let ghost ks = self.typestate.key_seq();
        let ghost vs = self.typestate.val_seq();
        let ghost m = self.typestate@;
        let ghost hit = |x: ProtocolState| if hazard { proto_hazard(x) } else { x == ProtocolState::Forgotten };
        let mut i: usize = 0;
        while i < self.typestate.len()
            invariant
                ks == self.typestate.key_seq(),
                vs == self.typestate.val_seq(),
                m == self.typestate@,
                hit == (|x: ProtocolState| if hazard { proto_hazard(x) } else { x == ProtocolState::Forgotten }),
                i <= ks.len(),
                ks.len() == vs.len(),
                forall|j: int| 0 <= j < ks.len() ==> #[trigger] m.contains_key(ks[j]) && m[ks[j]] == vs[j],
                forall|k: ProtocolId| #[trigger] m.contains_key(k) <==> ks.contains(k),
                forall|j: int| 0 <= j < i ==> !hit(#[trigger] vs[j]),
            decreases ks.len() - i,
        {
            let v = *self.typestate.val_at(i);
            let h = if hazard { v.is_hazard() } else { v == ProtocolState::Forgotten };
            if h {
                proof {
                    assert(m.contains_key(ks[i as int]));
                    assert(hit(m[ks[i as int]]));
                }
                return true;
            }
            i = i + 1;
        }
        proof {
            assert forall|p: ProtocolId| m.contains_key(p) implies !hit(m[p]) by {
                let j = choose|j: int| 0 <= j < ks.len() && ks[j] == p;
                assert(m.contains_key(ks[j]));
                assert(!hit(vs[j]));
            }
        }
        false
    }

    /// Every tracked object reachable from `local` is `RawOwned`, and there is
    /// at least one.
    pub fn ptr_is_raw_owned(&self, local: Local) -> (r: bool)
        ensures
            r == spec_ptr_is_raw_owned(self@, local),
    {
        let objs = self.objects_for(local);
        objs.lemma_elems();
        if objs.len() == 0 {
            proof { assert(objs@ =~= Set::<ObjectId>::empty()); }
            return false;
        }
        proof { assert(objs@.contains(objs.elems()[0])); }
        let mut i: usize = 0;
        while i < objs.len()
            invariant
                i <= objs.elems().len(),
                objs@ == set_at(self@.points_to, local),
                forall|x: ObjectId| objs@.contains(x) <==> objs.elems().contains(x),
                forall|j: int| 0 <= j < i ==> self@.heap.contains_key(#[trigger] objs.elems()[j])
                    && self@.heap[objs.elems()[j]] == HeapState::RawOwned,
            decreases objs.elems().len() - i,
        {
            let o = objs.at(i);
            match self.heap.get_copy(o) {
                Some(HeapState::RawOwned) => {},
                _ => {
                    proof {
                        assert(objs.elems()[i as int] == o);
                        assert(objs.elems().contains(o));
                        assert(set_at(self@.points_to, local).contains(o));
                        assert(!(self@.heap.contains_key(o) && self@.heap[o] == HeapState::RawOwned));
                    }
                    return false;
                },
            }
            i = i + 1;
        }
        proof {
            assert forall|o: ObjectId| objs@.contains(o) implies self@.heap.contains_key(o) && self@.heap[o] == HeapState::RawOwned by {
                let j = choose|j: int| 0 <= j < objs.elems().len() && objs.elems()[j] == o;
            }
        }
        true
    }

    /// `local` was proven strictly below some tracked length.
    pub fn local_is_bounded(&self, local: Local) -> (r: bool)
        ensures
            r == self@.bounded.contains(local),
    {
        self.bounded.contains(local)
    }

    /// `local` was proven at most some value (strict bounds count too).
    pub fn local_is_bounded_or_eq(&self, local: Local) -> (r: bool)
        ensures
            r == (self@.bounded.contains(local) || self@.bounded_or_eq.contains(local)),
    {
        self.bounded.contains(local) || self.bounded_or_eq.contains(local)
    }

    /// The collection in `local` was proven to have spare capacity.
    pub fn collection_has_spare(&self, local: Local) -> (r: bool)
        ensures
            r == self@.has_spare.contains(local),
    {
        self.has_spare.contains(local)
    }

    /// `local` is proven nonzero: by a guard, or by a lower bound of at least 1.
    pub fn local_is_nonzero(&self, local: Local) -> (r: bool)
        ensures
            r == (self@.nonzero.contains(local) || (self@.const_lower.contains_key(local)
                && self@.const_lower[local] >= 1)),
    {
        if self.nonzero.contains(local) {
            return true;
        }
        match self.const_lower.get_copy(local) {
            Some(lb) => lb >= 1,
            None => false,
        }
    }

    /// `local` is proven to be at most 127.
    pub fn local_is_ascii(&self, local: Local) -> (r: bool)
        ensures
            r == (self@.const_upper.contains_key(local) && self@.const_upper[local] <= 127),
    {
        match self.const_upper.get_copy(local) {
            Some(ub) => ub <= 127,
            None => false,
        }
    }

    /// The float in `local` is proven not NaN.
    pub fn local_is_finite(&self, local: Local) -> (r: bool)
        ensures
            r == self@.finite.contains(local),
    {
        self.finite.contains(local)
    }

    /// `local` is proven to be a valid Unicode scalar value.
    pub fn local_is_valid_scalar(&self, local: Local) -> (r: bool)
        ensures
            r == spec_local_is_valid_scalar(self@, local),
    {
        let upper = self.const_upper.get_copy(local);
        let lower = self.const_lower.get_copy(local);
        let in_range = match upper {
            Some(u) => u <= 0x10FFFF,
            None => false,
        };
        if !in_range {
            return false;
        }
        let below_surrogates = match upper {
            Some(u) => u < 0xD800,
            None => false,
        };
        let above_surrogates = match lower {
            Some(l) => l > 0xDFFF,
            None => false,
        };
        below_surrogates || above_surrogates
    }

    /// Proven constant upper bound for `local`, if any.
    pub fn local_upper_bound(&self, local: Local) -> (r: Option<u64>)
        ensures
            r == (if self@.const_upper.contains_key(local) { Some(self@.const_upper[local]) } else { None }),
    {
        self.const_upper.get_copy(local)
    }

    /// Proven constant lower bound for `local`, if any.
    pub fn local_lower_bound(&self, local: Local) -> (r: Option<u64>)
        ensures
            r == (if self@.const_lower.contains_key(local) { Some(self@.const_lower[local]) } else { None }),
    {
        self.const_lower.get_copy(local)
    }

    /// The collection in `local` was proven exactly full.
    pub fn collection_is_full(&self, local: Local) -> (r: bool)
        ensures
            r == self@.is_full.contains(local),
    {
        self.is_full.contains(local)
    }

    /// The collection a (possibly reborrowed) local refers to, following one
    /// `ref_base` hop.
    pub fn deref_base(&self, local: Local) -> (r: Local)
        ensures
            r == (if self@.ref_base.contains_key(local) { self@.ref_base[local] } else { local }),
    {
        match self.ref_base.get_copy(local) {
            Some(b) => b,
            None => local,
        }
    }

    /// `a` and `b` are proven equal on all reaching paths. Looks through one
    /// integer cast on either side, so the answer does not depend on the
    /// order of the arguments.
    pub fn locals_are_eq(&self, a: Local, b: Local) -> (r: bool)
        ensures
            r == spec_locals_are_eq(self@, a, b),
    {
        if a == b {
            return true;
        }
        if self.eq_locals.contains(canon_pair(a, b)) {
            return true;
        }
        let a0 = self.cast_origin.get_copy(a);
        let b0 = self.cast_origin.get_copy(b);
        match (a0, b0) {
            (Some(sa), _) if sa == b => true,
            (_, Some(sb)) if sb == a => true,
            (Some(sa), Some(sb)) if sa == sb => true,
            (Some(sa), Some(sb)) => {
                self.eq_locals.contains(canon_pair(sa, b)) || self.eq_locals.contains(canon_pair(a, sb))
            },
            (Some(sa), None) => self.eq_locals.contains(canon_pair(sa, b)),
            (None, Some(sb)) => self.eq_locals.contains(canon_pair(a, sb)),
            (None, None) => false,
        }
    }

    /// `a` and `b` are proven different on all reaching paths.
    pub fn locals_are_ne(&self, a: Local, b: Local) -> (r: bool)
        ensures
            r == self@.keys_are_ne.contains(canon(a, b)),
    {
        self.keys_are_ne.contains(canon_pair(a, b))
    }

    /// The component locals of an array/tuple aggregate, if recorded.
    pub fn array_components_of(&self, local: Local) -> (r: Option<Vec<Local>>)
        ensures
            match r {
                Some(v) => self@.array_components.contains_key(local) && v@ == self@.array_components[local],
                None => !self@.array_components.contains_key(local),
            },
    {
        self.array_components.seq_of(local)
    }

    /// `local` is a fully bounded index: a bounded scalar, or an aggregate
    /// whose components are all bounded (and there is at least one).
    pub fn index_is_fully_bounded(&self, local: Local) -> (r: bool)
        ensures
            r == (if self@.array_components.contains_key(local) {
                let c = self@.array_components[local];
                c.len() > 0 && forall|j: int| 0 <= j < c.len() ==> self@.bounded.contains(#[trigger] c[j])
            } else {
                self@.bounded.contains(local)
            }),
    {
        match self.array_components.seq_of(local) {
            Some(components) => {
                if components.len() == 0 {
                    return false;
                }
                let mut i: usize = 0;
                while i < components.len()
                    invariant
                        i <= components@.len(),
                        self@.array_components.contains_key(local),
                        components@ == self@.array_components[local],
                        forall|j: int| 0 <= j < i ==> self@.bounded.contains(#[trigger] components@[j]),
                    decreases components@.len() - i,
                {
                    if !self.bounded.contains(components[i]) {
                        proof {
                            assert(!self@.bounded.contains(self@.array_components[local][i as int]));
                        }
                        return false;
                    }
                    i = i + 1;
                }
                true
            },
            None => self.bounded.contains(local),
        }
    }

    /// `local` holds a raw fd produced by `into_raw_fd` on all paths.
    pub fn fd_was_transferred(&self, local: Local) -> (r: bool)
        ensures
            r == self@.fd_origin.contains(local),
    {
        self.fd_origin.contains(local)
    }

    /// `local` holds a raw fd already handed to `from_raw_fd` on some path.
    pub fn fd_is_consumed(&self, local: Local) -> (r: bool)
        ensures
            r == self@.fd_consumed.contains(local),
    {
        self.fd_consumed.contains(local)
    }

    /// Classifies whether using the pointer in `local` is a use-after-free.
    pub fn freed_kind(&self, local: Local) -> (r: FreedKind)
        ensures
            r == spec_freed_kind(self@, local),
    {
        let objs = self.objects_for(local);
        objs.lemma_elems();
        if objs.len() == 0 {
            proof { assert(objs@ =~= Set::<ObjectId>::empty()); }
            return FreedKind::NotFreed;
        }
        proof { assert(objs@.contains(objs.elems()[0])); }
        let ghost es = objs.elems();
        let mut any_freed = false;
        let mut all_reconstituted = true;
        let mut i: usize = 0;
        while i < objs.len()
            invariant
                es == objs.elems(),
                i <= es.len(),
                forall|x: ObjectId| objs@.contains(x) <==> es.contains(x),
                any_freed == exists|j: int| 0 <= j < i && is_freed_state(self@.heap, #[trigger] es[j]),
                all_reconstituted == forall|j: int| 0 <= j < i ==> self@.heap.contains_key(#[trigger] es[j])
                    && self@.heap[es[j]] == HeapState::Reconstituted,
            decreases es.len() - i,
        {
            let o = objs.at(i);
            match self.heap.get_copy(o) {
                Some(HeapState::Reconstituted) => {
                    any_freed = true;
                },
                Some(HeapState::MaybeFreed) => {
                    any_freed = true;
                    all_reconstituted = false;
                },
                _ => {
                    all_reconstituted = false;
                },
            }
            proof {
                if any_freed {
                    if is_freed_state(self@.heap, es[i as int]) {
                        assert(0 <= i < i + 1);
                    }
                }
            }
            i = i + 1;
        }
        proof {
            let objs_v = set_at(self@.points_to, local);
            assert(objs_v == objs@);
            if any_freed {
                let j = choose|j: int| 0 <= j < i && is_freed_state(self@.heap, #[trigger] es[j]);
                assert(objs@.contains(es[j]));
            } else {
                assert forall|o: ObjectId| objs@.contains(o) implies !is_freed_state(self@.heap, o) by {
                    let j = choose|j: int| 0 <= j < es.len() && es[j] == o;
                }
            }
            if all_reconstituted {
                assert forall|o: ObjectId| objs@.contains(o) implies self@.heap.contains_key(o)
                    && self@.heap[o] == HeapState::Reconstituted by {
                    let j = choose|j: int| 0 <= j < es.len() && es[j] == o;
                }
            } else {
                let j = choose|j: int| 0 <= j < i && !(self@.heap.contains_key(#[trigger] es[j])
                    && self@.heap[es[j]] == HeapState::Reconstituted);
                assert(objs@.contains(es[j]));
            }
        }
        if any_freed && all_reconstituted {
            FreedKind::Definite
        } else if any_freed {
            FreedKind::Potential
        } else {
            FreedKind::NotFreed
        }
    }
}

/// Joining a state with itself changes nothing.
pub proof fn lemma_join_idempotent(a: StateView)
    ensures
        join_view(a, a) == a,
        !join_changed(a, a),
{
    assert(map_join(a.heap, a.heap) =~= a.heap);
    assert(map_join(a.typestate, a.typestate) =~= a.typestate);
    assert(map_join(a.init, a.init) =~= a.init);
    lemma_sets_union_absorbs(a.points_to, a.points_to);
    lemma_sets_union_absorbs(a.local_proto, a.local_proto);
    lemma_sets_union_absorbs(a.owner_alias, a.owner_alias);
    assert(map_agree(a.fn_ptr_targets, a.fn_ptr_targets) =~= a.fn_ptr_targets);
    assert(map_meet(a.const_upper, a.const_upper, true) =~= a.const_upper);
    assert(map_meet(a.const_lower, a.const_lower, false) =~= a.const_lower);
    assert(join_view(a, a) =~= a);
}

/// Once `b` has been joined into `a`, joining `b` again changes nothing: the
/// join is absorbing, which is what makes the worklist iteration stabilise.
pub proof fn lemma_join_absorbs(a: StateView, b: StateView)
    ensures
        join_view(join_view(a, b), b) == join_view(a, b),
        !join_changed(join_view(a, b), b),
{
    let j = join_view(a, b);
    assert(map_join(j.heap, b.heap) =~= j.heap);
    assert(map_join(j.typestate, b.typestate) =~= j.typestate);
    assert(map_join(j.init, b.init) =~= j.init);
    lemma_sets_union_absorbs(a.points_to, b.points_to);
    lemma_sets_union_absorbs(a.local_proto, b.local_proto);
    lemma_sets_union_absorbs(a.owner_alias, b.owner_alias);
    assert(map_agree(j.fn_ptr_targets, b.fn_ptr_targets) =~= j.fn_ptr_targets);
    assert(map_meet(j.const_upper, b.const_upper, true) =~= j.const_upper);
    assert(map_meet(j.const_lower, b.const_lower, false) =~= j.const_lower);
    assert(j.buf_written.intersect(b.buf_written) =~= j.buf_written);
    assert(j.bounded.intersect(b.bounded) =~= j.bounded);
    assert(j.bounded_or_eq.intersect(b.bounded_or_eq) =~= j.bounded_or_eq);
    assert(j.has_spare.intersect(b.has_spare) =~= j.has_spare);
    assert(j.is_full.intersect(b.is_full) =~= j.is_full);
    assert(j.nonzero.intersect(b.nonzero) =~= j.nonzero);
    assert(j.finite.intersect(b.finite) =~= j.finite);
    assert(j.eq_locals.intersect(b.eq_locals) =~= j.eq_locals);
    assert(j.keys_are_ne.intersect(b.keys_are_ne) =~= j.keys_are_ne);
    assert(j.fd_origin.intersect(b.fd_origin) =~= j.fd_origin);
    assert(j.realloced_params.union(b.realloced_params) =~= j.realloced_params);
    assert(j.fd_consumed.union(b.fd_consumed) =~= j.fd_consumed);
    assert(j.mul_overflow.union(b.mul_overflow) =~= j.mul_overflow);
    assert(j.const_ptr_cast.union(b.const_ptr_cast) =~= j.const_ptr_cast);
    assert(join_view(j, b) =~= j);
}

/// Once a state absorbs `c` (joining `c` into it reports no change), every
/// later join of that state still absorbs `c`: the entry state of a block,
/// which only ever grows by joins, stays stable with respect to a
/// predecessor it has taken in.
pub proof fn lemma_absorption_persists(a: StateView, b: StateView, c: StateView)
    requires
        !join_changed(a, c),
    ensures
        !join_changed(join_view(a, b), c),
{
    let j = join_view(a, b);
    assert(is_semilattice::<HeapState>()) by {
        assert forall|x: HeapState, y: HeapState, z: HeapState| #[trigger] HeapState::spec_join(HeapState::spec_join(x, y), z)
            == HeapState::spec_join(x, HeapState::spec_join(y, z)) by { lemma_heap_join_semilattice(x, y, z); }
        assert forall|x: HeapState, y: HeapState| #[trigger] HeapState::spec_join(x, y) == HeapState::spec_join(y, x) by {
            lemma_heap_join_semilattice(x, y, x);
        }
        assert forall|x: HeapState| #[trigger] HeapState::spec_join(x, x) == x by { lemma_heap_join_semilattice(x, x, x); }
    }
    assert(is_semilattice::<InitState>()) by {
        assert forall|x: InitState, y: InitState, z: InitState| #[trigger] InitState::spec_join(InitState::spec_join(x, y), z)
            == InitState::spec_join(x, InitState::spec_join(y, z)) by { lemma_init_join_semilattice(x, y, z); }
        assert forall|x: InitState, y: InitState| #[trigger] InitState::spec_join(x, y) == InitState::spec_join(y, x) by {
            lemma_init_join_semilattice(x, y, x);
        }
        assert forall|x: InitState| #[trigger] InitState::spec_join(x, x) == x by { lemma_init_join_semilattice(x, x, x); }
    }
    assert(is_semilattice::<ProtocolState>()) by {
        assert forall|x: ProtocolState, y: ProtocolState, z: ProtocolState|
            #[trigger] ProtocolState::spec_join(ProtocolState::spec_join(x, y), z)
            == ProtocolState::spec_join(x, ProtocolState::spec_join(y, z)) by { lemma_proto_join_semilattice(x, y, z); }
        assert forall|x: ProtocolState, y: ProtocolState| #[trigger] ProtocolState::spec_join(x, y) == ProtocolState::spec_join(y, x) by {
            lemma_proto_join_semilattice(x, y, x);
        }
        assert forall|x: ProtocolState| #[trigger] ProtocolState::spec_join(x, x) == x by { lemma_proto_join_semilattice(x, x, x); }
    }
    lemma_map_join_keeps_absorbing(a.heap, b.heap, c.heap);
    lemma_map_join_keeps_absorbing(a.typestate, b.typestate, c.typestate);
    lemma_map_join_keeps_absorbing(a.init, b.init, c.init);
    lemma_sets_union_keeps_absorbing(a.points_to, b.points_to, c.points_to);
    lemma_sets_union_keeps_absorbing(a.local_proto, b.local_proto, c.local_proto);
    lemma_sets_union_keeps_absorbing(a.owner_alias, b.owner_alias, c.owner_alias);
    lemma_map_agree_keeps_absorbing(a.fn_ptr_targets, b.fn_ptr_targets, c.fn_ptr_targets);
    lemma_map_meet_keeps_absorbing(a.const_upper, b.const_upper, c.const_upper, true);
    lemma_map_meet_keeps_absorbing(a.const_lower, b.const_lower, c.const_lower, false);
    assert(a.buf_written.intersect(c.buf_written) == a.buf_written);
    assert(j.buf_written.intersect(c.buf_written) =~= j.buf_written);
    assert(j.bounded.intersect(c.bounded) =~= j.bounded);
    assert(j.bounded_or_eq.intersect(c.bounded_or_eq) =~= j.bounded_or_eq);
    assert(j.has_spare.intersect(c.has_spare) =~= j.has_spare);
    assert(j.is_full.intersect(c.is_full) =~= j.is_full);
    assert(j.nonzero.intersect(c.nonzero) =~= j.nonzero);
    assert(j.finite.intersect(c.finite) =~= j.finite);
    assert(j.eq_locals.intersect(c.eq_locals) =~= j.eq_locals);
    assert(j.keys_are_ne.intersect(c.keys_are_ne) =~= j.keys_are_ne);
    assert(j.fd_origin.intersect(c.fd_origin) =~= j.fd_origin);
    assert(j.realloced_params.union(c.realloced_params) =~= j.realloced_params);
    assert(j.fd_consumed.union(c.fd_consumed) =~= j.fd_consumed);
    assert(j.mul_overflow.union(c.mul_overflow) =~= j.mul_overflow);
    assert(j.const_ptr_cast.union(c.const_ptr_cast) =~= j.const_ptr_cast);
}

/// Escaping never downgrades a freed object: an object that is
/// `Reconstituted` or `MaybeFreed` keeps its state, so its staleness stays
/// visible through every other alias; any other escaped object becomes
/// `Escaped`, and no object disappears.
pub proof fn lemma_escape_keeps_freed(h: Map<ObjectId, HeapState>, objs: Set<ObjectId>, o: ObjectId)
    ensures
        h.contains_key(o) ==> escape_heap(h, objs).contains_key(o),
        h.contains_key(o) && (h[o] == HeapState::Reconstituted || h[o] == HeapState::MaybeFreed)
            ==> escape_heap(h, objs)[o] == h[o],
        objs.contains(o) && !(h.contains_key(o) && (h[o] == HeapState::Reconstituted || h[o] == HeapState::MaybeFreed))
            ==> escape_heap(h, objs)[o] == HeapState::Escaped,
{
}

/// A Unicode scalar value: at most 0x10FFFF and not a surrogate.
pub open spec fn is_unicode_scalar(x: int) -> bool {
    0 <= x <= 0x10FFFF && !(0xD800 <= x <= 0xDFFF)
}

/// When the valid-scalar query holds for `l`, every value its proven bounds
/// allow is a Unicode scalar: an upper bound of 0x10FFFF alone leaves the
/// surrogates possible and is not enough.
pub proof fn lemma_valid_scalar_sound(v: StateView, l: Local, x: int)
    requires
        spec_local_is_valid_scalar(v, l),
        0 <= x,
        v.const_upper.contains_key(l) ==> x <= v.const_upper[l],
        v.const_lower.contains_key(l) ==> x >= v.const_lower[l],
    ensures
        v.const_upper.contains_key(l),
        is_unicode_scalar(x),
{
}

/// Conversely, when an upper bound is proven and every value the bounds
/// allow is a Unicode scalar, the query holds.
pub proof fn lemma_valid_scalar_complete(v: StateView, l: Local)
    requires
        v.const_upper.contains_key(l),
        v.const_lower.contains_key(l) ==> v.const_lower[l] <= v.const_upper[l],
        forall|x: int| #![trigger is_unicode_scalar(x)]
            0 <= x <= v.const_upper[l] && (v.const_lower.contains_key(l) ==> x >= v.const_lower[l])
                ==> is_unicode_scalar(x),
    ensures
        spec_local_is_valid_scalar(v, l),
{
    let u = v.const_upper[l] as int;
    assert(is_unicode_scalar(u));
    if u >= 0xD800 {
        if v.const_lower.contains_key(l) {
            let lo = v.const_lower[l] as int;
            if lo <= 0xDFFF {
                let x = if lo >= 0xD800 { lo } else { 0xD800 };
                assert(is_unicode_scalar(x));
            }
        } else {
            assert(is_unicode_scalar(0xD800));
        }
    }
}

} // verus!
