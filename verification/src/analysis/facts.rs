//! Elementary updates of the abstract state, each stated on the view and
//! implemented on `BlockState`.

use vstd::prelude::*;

use crate::analysis::state::{BlockState, StateView, set_at};
use crate::collections::LocalPair;
use crate::mir::{Body, Local, Mutability, Operand, Place, ProjectionElem, Rvalue, Ty, UintTy};
use crate::text::{contains, str_contains};

verus! {

// ───────────────────────── operands ─────────────────────────

/// The local an operand reads directly (a copy or move of a bare local).
pub open spec fn spec_operand_local(op: &Operand) -> Option<Local> {
    match op {
        Operand::Copy(p) => if p.projection@.len() == 0 { Some(p.local) } else { None },
        Operand::Move(p) => if p.projection@.len() == 0 { Some(p.local) } else { None },
        _ => None,
    }
}

pub fn operand_local(op: &Operand) -> (r: Option<Local>)
    ensures
        r == spec_operand_local(op),
{
    match op {
        Operand::Copy(p) | Operand::Move(p) => if p.projection.len() == 0 { Some(p.local) } else { None },
        _ => None,
    }
}

/// The value of an integer constant operand, if it fits in a `u64`.
pub open spec fn spec_const_u64(op: &Operand) -> Option<u64> {
    match op {
        Operand::Constant(c) => match c.scalar_bits {
            Some(b) => if b <= u64::MAX as u128 { Some(b as u64) } else { None },
            None => None,
        },
        _ => None,
    }
}

pub fn const_u64(op: &Operand) -> (r: Option<u64>)
    ensures
        r == spec_const_u64(op),
{
    match op {
        Operand::Constant(c) => match c.scalar_bits {
            Some(b) => if b <= u64::MAX as u128 { Some(b as u64) } else { None },
            None => None,
        },
        _ => None,
    }
}

/// The local a `Use` right-hand side reads directly.
pub open spec fn spec_rvalue_local(rv: &Rvalue) -> Option<Local> {
    match rv {
        Rvalue::Use(op) => spec_operand_local(op),
        _ => None,
    }
}

pub fn rvalue_local(rv: &Rvalue) -> (r: Option<Local>)
    ensures
        r == spec_rvalue_local(rv),
{
    match rv {
        Rvalue::Use(op) => operand_local(op),
        _ => None,
    }
}

/// The local of the first argument, read directly.
pub open spec fn spec_first_arg_local(args: Seq<Operand>) -> Option<Local> {
    if args.len() > 0 { spec_operand_local(&args[0]) } else { None }
}

pub fn first_arg_local(args: &Vec<Operand>) -> (r: Option<Local>)
    ensures
        r == spec_first_arg_local(args@),
{
    if args.len() > 0 { operand_local(&args[0]) } else { None }
}

/// The base local of the first argument, projections allowed.
pub open spec fn spec_first_arg_base_local(args: Seq<Operand>) -> Option<Local> {
    if args.len() > 0 {
        match &args[0] {
            Operand::Copy(p) => Some(p.local),
            Operand::Move(p) => Some(p.local),
            _ => None,
        }
    } else {
        None
    }
}

pub fn first_arg_base_local(args: &Vec<Operand>) -> (r: Option<Local>)
    ensures
        r == spec_first_arg_base_local(args@),
{
    if args.len() > 0 {
        match &args[0] {
            Operand::Copy(p) | Operand::Move(p) => Some(p.local),
            _ => None,
        }
    } else {
        None
    }
}

/// The local of the argument at `idx`, read directly.
pub open spec fn spec_nth_arg_local(args: Seq<Operand>, idx: int) -> Option<Local> {
    if 0 <= idx < args.len() { spec_operand_local(&args[idx]) } else { None }
}

pub fn nth_arg_local(args: &Vec<Operand>, idx: usize) -> (r: Option<Local>)
    ensures
        r == spec_nth_arg_local(args@, idx as int),
{
    if idx < args.len() { operand_local(&args[idx]) } else { None }
}

pub open spec fn has_deref(proj: Seq<ProjectionElem>) -> bool {
    exists|i: int| 0 <= i < proj.len() && proj[i] == ProjectionElem::Deref
}

pub open spec fn has_field(proj: Seq<ProjectionElem>) -> bool {
    exists|i: int| 0 <= i < proj.len() && proj[i] is Field
}

/// No `Deref` after the first projection element.
pub open spec fn deref_only_first(proj: Seq<ProjectionElem>) -> bool {
    forall|i: int| 1 <= i < proj.len() ==> proj[i] != ProjectionElem::Deref
}

pub fn place_has_deref(p: &Place) -> (r: bool)
    ensures
        r == has_deref(p.projection@),
{
    let mut i: usize = 0;
    while i < p.projection.len()
        invariant
            i <= p.projection@.len(),
            forall|j: int| 0 <= j < i ==> p.projection@[j] != ProjectionElem::Deref,
        decreases p.projection@.len() - i,
    {
        if p.projection[i] == ProjectionElem::Deref {
            return true;
        }
        i = i + 1;
    }
    false
}

pub fn place_has_field(p: &Place) -> (r: bool)
    ensures
        r == has_field(p.projection@),
{
    let mut i: usize = 0;
    while i < p.projection.len()
        invariant
            i <= p.projection@.len(),
            forall|j: int| 0 <= j < i ==> !(p.projection@[j] is Field),
        decreases p.projection@.len() - i,
    {
        if let ProjectionElem::Field(_) = p.projection[i] {
            return true;
        }
        i = i + 1;
    }
    false
}

pub fn place_deref_only_first(p: &Place) -> (r: bool)
    ensures
        r == deref_only_first(p.projection@),
{
    let mut i: usize = 1;
    while i < p.projection.len()
        invariant
            1 <= i,
            forall|j: int| 1 <= j < i && j < p.projection@.len() ==> p.projection@[j] != ProjectionElem::Deref,
        decreases p.projection@.len() - i,
    {
        if p.projection[i] == ProjectionElem::Deref {
            return false;
        }
        i = i + 1;
    }
    true
}

/// The projection is exactly one `Deref`.
pub open spec fn is_single_deref(proj: Seq<ProjectionElem>) -> bool {
    proj.len() == 1 && proj[0] == ProjectionElem::Deref
}

pub fn place_is_single_deref(p: &Place) -> (r: bool)
    ensures
        r == is_single_deref(p.projection@),
{
    p.projection.len() == 1 && p.projection[0] == ProjectionElem::Deref
}

// ───────────────────────── types ─────────────────────────

/// Maximum representable value of unsigned integer, `bool` and `char` types.
pub open spec fn spec_uint_type_max(ty: &Ty) -> Option<u64> {
    match ty {
        Ty::Bool => Some(1),
        Ty::Char => Some(0x10FFFF),
        Ty::Uint(UintTy::U8) => Some(255),
        Ty::Uint(UintTy::U16) => Some(65535),
        Ty::Uint(UintTy::U32) => Some(4294967295),
        Ty::Uint(UintTy::U64) => Some(u64::MAX),
        Ty::Uint(UintTy::Usize) => Some(u64::MAX),
        _ => None,
    }
}

pub fn uint_type_max(ty: &Ty) -> (r: Option<u64>)
    ensures
        r == spec_uint_type_max(ty),
{
    match ty {
        Ty::Bool => Some(1),
        Ty::Char => Some(0x10FFFF),
        Ty::Uint(UintTy::U8) => Some(255),
        Ty::Uint(UintTy::U16) => Some(65535),
        Ty::Uint(UintTy::U32) => Some(4294967295),
        Ty::Uint(UintTy::U64) => Some(u64::MAX),
        Ty::Uint(UintTy::Usize) => Some(u64::MAX),
        _ => None,
    }
}

/// The type structurally excludes zero: its path names `NonZero` or
/// `NonNull`.
pub open spec fn spec_ty_is_nonzero(ty: &Ty) -> bool {
    match ty {
        Ty::Adt { path, name: _ } => contains(path@, "NonZero"@) || contains(path@, "NonNull"@),
        _ => false,
    }
}

pub fn ty_is_nonzero(ty: &Ty) -> (r: bool)
    ensures
        r == spec_ty_is_nonzero(ty),
{
    match ty {
        Ty::Adt { path, name: _ } => str_contains(path.as_str(), "NonZero") || str_contains(path.as_str(), "NonNull"),
        _ => false,
    }
}

/// The type is a guard: a struct whose name contains `Guard`, or a reference
/// to one.
pub open spec fn spec_is_guard_type(ty: &Ty) -> bool {
    match ty {
        Ty::Adt { path: _, name } => contains(name@, "Guard"@),
        Ty::Ref(_, inner) => match &**inner {
            Ty::Adt { path: _, name } => contains(name@, "Guard"@),
            _ => false,
        },
        _ => false,
    }
}

pub fn is_guard_type(ty: &Ty) -> (r: bool)
    ensures
        r == spec_is_guard_type(ty),
{
    match ty {
        Ty::Adt { path: _, name } => str_contains(name.as_str(), "Guard"),
        Ty::Ref(_, inner) => match &**inner {
            Ty::Adt { path: _, name } => str_contains(name.as_str(), "Guard"),
            _ => false,
        },
        _ => false,
    }
}

pub open spec fn is_ref_ty(ty: &Ty) -> bool {
    ty is Ref
}

pub open spec fn is_raw_ptr_ty(ty: &Ty) -> bool {
    ty is RawPtr
}

/// `&mut T`: the only argument shape through which a callee can reassign
/// the owner's field.
pub open spec fn is_mut_ref_ty(ty: &Ty) -> bool {
    match ty {
        Ty::Ref(m, _) => *m == Mutability::Mut,
        _ => false,
    }
}

/// `&mut T` or `*mut T`: a callee may change the collection behind it.
pub open spec fn is_mut_ref_or_ptr_ty(ty: &Ty) -> bool {
    match ty {
        Ty::Ref(m, _) => *m == Mutability::Mut,
        Ty::RawPtr(m) => *m == Mutability::Mut,
        _ => false,
    }
}

/// Integer, float, `bool` and `char` locals never alias a buffer.
pub open spec fn is_scalar_ty(ty: &Ty) -> bool {
    ty is Int || ty is Uint || ty is Float || ty is Bool || ty is Char
}

pub open spec fn spec_is_param(body: &Body, l: Local) -> bool {
    1 <= l && l <= body.arg_count
}

pub fn is_param(body: &Body, l: Local) -> (r: bool)
    ensures
        r == spec_is_param(body, l),
{
    1 <= l && (l as usize) <= body.arg_count
}

/// A reference-typed parameter (`&self` / `&mut self`-style).
pub open spec fn spec_is_reference_param(body: &Body, l: Local) -> bool {
    spec_is_param(body, l) && is_ref_ty(body.spec_ty(l))
}

pub fn is_reference_param(body: &Body, l: Local) -> (r: bool)
    ensures
        r == spec_is_reference_param(body, l),
{
    is_param(body, l) && matches!(body.ty_of(l), Ty::Ref(..))
}

// ───────────────────────── map/set updates ─────────────────────────

/// Moves the entry of `src` to `dst` (dropping `dst`'s entry when `src` has none).
pub open spec fn move_entry<V>(m: Map<Local, V>, src: Local, dst: Local) -> Map<Local, V> {
    if m.contains_key(src) { m.remove(src).insert(dst, m[src]) } else { m.remove(dst) }
}

/// Moves membership of `src` to `dst`.
pub open spec fn move_member(s: Set<Local>, src: Local, dst: Local) -> Set<Local> {
    if s.contains(src) { s.remove(src).insert(dst) } else { s.remove(dst) }
}

/// Copies membership of `src` to `dst`.
pub open spec fn copy_member(s: Set<Local>, src: Local, dst: Local) -> Set<Local> {
    if s.contains(src) { s.insert(dst) } else { s.remove(dst) }
}

/// Copies the entry of `src` to `dst`.
pub open spec fn copy_entry<V>(m: Map<Local, V>, dst: Local, src: Local) -> Map<Local, V> {
    if m.contains_key(src) { m.insert(dst, m[src]) } else { m.remove(dst) }
}

/// Binds `dst` to `s` when `s` is non-empty, and unbinds it otherwise.
pub open spec fn bind_nonempty<T>(m: Map<Local, Set<T>>, dst: Local, s: Set<T>) -> Map<Local, Set<T>> {
    if s != Set::<T>::empty() { m.insert(dst, s) } else { m.remove(dst) }
}

/// Copies `src`'s set to `dst` if it is non-empty, otherwise unbinds `dst`.
pub open spec fn copy_nonempty<T>(m: Map<Local, Set<T>>, dst: Local, src: Local) -> Map<Local, Set<T>> {
    bind_nonempty(m, dst, set_at(m, src))
}

/// Extends `dst`'s membership from `src` (and drops `src` on a move).
pub open spec fn prop_member(s: Set<Local>, src: Local, dst: Local, mv: bool) -> Set<Local> {
    if s.contains(src) {
        if mv { s.insert(dst).remove(src) } else { s.insert(dst) }
    } else {
        s
    }
}

/// Extends `dst`'s entry from `src` (and drops `src` on a move).
pub open spec fn prop_entry<V>(m: Map<Local, V>, src: Local, dst: Local, mv: bool) -> Map<Local, V> {
    if m.contains_key(src) {
        if mv { m.insert(dst, m[src]).remove(src) } else { m.insert(dst, m[src]) }
    } else {
        m
    }
}

/// Lowers the bound recorded for `l` to `k` (absence counts as `u64::MAX`).
pub open spec fn lower_upper(m: Map<Local, u64>, l: Local, k: u64) -> Map<Local, u64> {
    let cur = if m.contains_key(l) { m[l] } else { u64::MAX };
    m.insert(l, if cur <= k { cur } else { k })
}

/// Raises the bound recorded for `l` to `k` (absence counts as `0`).
pub open spec fn raise_lower(m: Map<Local, u64>, l: Local, k: u64) -> Map<Local, u64> {
    let cur = if m.contains_key(l) { m[l] } else { 0 };
    m.insert(l, if cur >= k { cur } else { k })
}

pub open spec fn no_pairs_with(s: Set<LocalPair>, l: Local) -> Set<LocalPair> {
    s.filter(|p: LocalPair| p.lo != l && p.hi != l)
}

// ───────────────────────── grouped clears ─────────────────────────

/// Forgets the non-pointer facts recorded for `l`: protocols,
/// initialization, buffer writes, comparison facts and bounds.
pub open spec fn clear_scalar(v: StateView, l: Local) -> StateView {
    StateView {
        local_proto: v.local_proto.remove(l),
        init: v.init.remove(l),
        buf_written: v.buf_written.remove(l),
        lt_facts: v.lt_facts.remove(l),
        ge_facts: v.ge_facts.remove(l),
        le_facts: v.le_facts.remove(l),
        gt_facts: v.gt_facts.remove(l),
        bounded: v.bounded.remove(l),
        bounded_or_eq: v.bounded_or_eq.remove(l),
        ..v
    }
}

/// Forgets everything `clear_scalar` does and what `l` points to.
pub open spec fn clear_basic(v: StateView, l: Local) -> StateView {
    StateView { points_to: v.points_to.remove(l), ..clear_scalar(v, l) }
}

/// Forgets every capacity, value-range, pair, descriptor, pointer-cast and
/// size-overflow fact about `l`, as a redefinition of `l` requires.
pub open spec fn clear_range(v: StateView, l: Local) -> StateView {
    StateView {
        ref_base: v.ref_base.remove(l),
        len_of: v.len_of.remove(l),
        cap_of: v.cap_of.remove(l),
        spare_if_true: v.spare_if_true.remove(l),
        spare_if_false: v.spare_if_false.remove(l),
        has_spare: v.has_spare.remove(l),
        full_if_true: v.full_if_true.remove(l),
        full_if_false: v.full_if_false.remove(l),
        is_full: v.is_full.remove(l),
        nonzero: v.nonzero.remove(l),
        nonzero_if_true: v.nonzero_if_true.remove(l),
        nonzero_if_false: v.nonzero_if_false.remove(l),
        finite: v.finite.remove(l),
        finite_if_true: v.finite_if_true.remove(l),
        nan_if_true: v.nan_if_true.remove(l),
        const_upper: v.const_upper.remove(l),
        const_lower: v.const_lower.remove(l),
        const_lt: v.const_lt.remove(l),
        const_le: v.const_le.remove(l),
        const_gt: v.const_gt.remove(l),
        const_ge: v.const_ge.remove(l),
        fd_origin: v.fd_origin.remove(l),
        fd_consumed: v.fd_consumed.remove(l),
        array_components: v.array_components.remove(l),
        ne_pair_if_true: v.ne_pair_if_true.remove(l),
        eq_pair_if_true: v.eq_pair_if_true.remove(l),
        keys_are_ne: no_pairs_with(v.keys_are_ne, l),
        eq_locals: no_pairs_with(v.eq_locals, l),
        cast_origin: v.cast_origin.remove(l),
        const_ptr_cast: v.const_ptr_cast.remove(l),
        mul_overflow: v.mul_overflow.remove(l),
        ..v
    }
}

/// Facts that hold for every value of `ty`, recorded for `l`.
pub open spec fn type_facts(v: StateView, l: Local, ty: &Ty) -> StateView {
    let v1 = if spec_ty_is_nonzero(ty) { StateView { nonzero: v.nonzero.insert(l), ..v } } else { v };
    match spec_uint_type_max(ty) {
        Some(m) => StateView { const_upper: lower_upper(v1.const_upper, l, m), ..v1 },
        None => v1,
    }
}

impl BlockState {
    pub fn clear_scalar_facts(&mut self, l: Local)
        ensures
            final(self)@ == clear_scalar(old(self)@, l),
    {
        self.local_proto.drop_key(l);
        self.init.remove(l);
        self.buf_written.remove(l);
        self.lt_facts.remove(l);
        self.ge_facts.remove(l);
        self.le_facts.remove(l);
        self.gt_facts.remove(l);
        self.bounded.remove(l);
        self.bounded_or_eq.remove(l);
        proof { assert(self@ =~= clear_scalar(old(self)@, l)); }
    }

    pub fn clear_basic_facts(&mut self, l: Local)
        ensures
            final(self)@ == clear_basic(old(self)@, l),
    {
        self.points_to.drop_key(l);
        self.clear_scalar_facts(l);
        proof { assert(self@ =~= clear_basic(old(self)@, l)); }
    }

    pub fn clear_range_facts(&mut self, l: Local)
        ensures
            final(self)@ == clear_range(old(self)@, l),
    {
        self.ref_base.remove(l);
        self.len_of.remove(l);
        self.cap_of.remove(l);
        self.spare_if_true.remove(l);
        self.spare_if_false.remove(l);
        self.has_spare.remove(l);
        self.full_if_true.remove(l);
        self.full_if_false.remove(l);
        self.is_full.remove(l);
        self.nonzero.remove(l);
        self.nonzero_if_true.remove(l);
        self.nonzero_if_false.remove(l);
        self.finite.remove(l);
        self.finite_if_true.remove(l);
        self.nan_if_true.remove(l);
        self.const_upper.remove(l);
        self.const_lower.remove(l);
        self.const_lt.remove(l);
        self.const_le.remove(l);
        self.const_gt.remove(l);
        self.const_ge.remove(l);
        self.fd_origin.remove(l);
        self.fd_consumed.remove(l);
        self.array_components.drop_seq(l);
        self.ne_pair_if_true.remove(l);
        self.eq_pair_if_true.remove(l);
        self.keys_are_ne.retain_not_touching(l);
        self.eq_locals.retain_not_touching(l);
        self.cast_origin.remove(l);
        self.const_ptr_cast.remove(l);
        self.mul_overflow.remove(l);
        proof {
            assert(self.keys_are_ne@ =~= no_pairs_with(old(self)@.keys_are_ne, l));
            assert(self.eq_locals@ =~= no_pairs_with(old(self)@.eq_locals, l));
            assert(self@ =~= clear_range(old(self)@, l));
        }
    }

    /// Records the facts every value of `ty` satisfies for `l`.
    pub fn enforce_type_facts(&mut self, l: Local, ty: &Ty)
        ensures
            final(self)@ == type_facts(old(self)@, l, ty),
    {
        if ty_is_nonzero(ty) {
            self.nonzero.insert(l);
        }
        match uint_type_max(ty) {
            Some(m) => self.lower_upper_bound(l, m),
            None => {},
        }
        proof { assert(self@ =~= type_facts(old(self)@, l, ty)); }
    }

    /// `const_upper[l] := min(const_upper[l], k)`.
    pub fn lower_upper_bound(&mut self, l: Local, k: u64)
        ensures
            final(self)@ == (StateView { const_upper: lower_upper(old(self)@.const_upper, l, k), ..old(self)@ }),
    {
        let cur = match self.const_upper.get_copy(l) {
            Some(c) => c,
            None => u64::MAX,
        };
        self.const_upper.insert(l, if cur <= k { cur } else { k });
        proof { assert(self@ =~= StateView { const_upper: lower_upper(old(self)@.const_upper, l, k), ..old(self)@ }); }
    }
}

/// `type_facts` for the first `n` parameters, in order.
pub open spec fn param_type_facts(v: StateView, body: &Body, n: int) -> StateView
    decreases n,
{
    if n <= 0 {
        v
    } else {
        type_facts(param_type_facts(v, body, n - 1), n as Local, body.spec_ty(n as Local))
    }
}

/// Seeds the entry state with what every parameter's type guarantees: a
/// `NonZero*` parameter is nonzero, a `u8` parameter is at most 255, and
/// so on, with no guard needed.
pub fn seed_param_type_facts(state: &mut BlockState, body: &Body)
    requires
        body.arg_count <= u32::MAX,
    ensures
        final(state)@ == param_type_facts(old(state)@, body, body.arg_count as int),
{
    let ghost start = state@;
    let mut i: usize = 0;
    while i < body.arg_count
        invariant
            body.arg_count <= u32::MAX,
            i <= body.arg_count,
            state@ == param_type_facts(start, body, i as int),
        decreases body.arg_count - i,
    {
        let local = (i + 1) as Local;
        state.enforce_type_facts(local, body.ty_of(local));
        i = i + 1;
    }
}

} // verus!
