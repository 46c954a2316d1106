//! The transfer function of assignments.

use vstd::prelude::*;
use crate::analysis::facts::{
    bind_nonempty, clear_basic, clear_range, clear_scalar, copy_entry, copy_member, copy_nonempty,
    deref_only_first, has_deref, has_field, is_scalar_ty, is_single_deref, lower_upper, move_entry,
    move_member, operand_local, place_has_deref, place_has_field, place_is_single_deref, prop_entry,
    prop_member, rvalue_local, spec_const_u64, spec_is_param, spec_is_reference_param,
    spec_operand_local, spec_rvalue_local, spec_uint_type_max, type_facts, uint_type_max, is_param,
    is_reference_param,
};
use crate::analysis::object::ObjectId;
use crate::analysis::state::{BlockState, StateView, escape_local_view, set_at};
use crate::collections::{VecMap, VecSet, deep_sets};
use crate::mir::{
    AggregateKind, BinOp, Body, CastKind, DefId, Local, Mutability, Operand, Place, Rvalue, Statement, Ty, UnOp,
};
use crate::analysis::facts::{const_u64, place_deref_only_first};

verus! {

// ───────────────────── assignment to a projection ─────────────────────

/// A store into a projection: a field write to the return place passes the
/// source's objects on to `_0`; any other store escapes the source.
pub open spec fn st_projected(v: StateView, dst: &Place, rv: &Rvalue) -> StateView {
    if dst.local == 0 && !has_deref(dst.projection@) {
        match spec_rvalue_local(rv) {
            Some(src) => if v.points_to.contains_key(src) && v.points_to[src] != Set::<ObjectId>::empty() {
                StateView { points_to: v.points_to.insert(0, set_at(v.points_to, 0).union(v.points_to[src])), ..v }
            } else {
                v
            },
            None => v,
        }
    } else {
        match spec_rvalue_local(rv) {
            Some(src) => escape_local_view(v, src),
            None => v,
        }
    }
}

// ───────────────────── owner aliases and fn pointers ─────────────────────

/// Union of the sets `m` holds for the directly read operands.
pub open spec fn operands_union<T>(m: Map<Local, Set<T>>, ops: Seq<Operand>) -> Set<T> {
    Set::new(|x: T| exists|i: int| 0 <= i < ops.len() && #[trigger] spec_operand_local(&ops[i]) is Some
        && set_at(m, spec_operand_local(&ops[i])->0).contains(x))
}

/// The place whose provenance an assignment carries, if any.
pub open spec fn alias_source(rv: &Rvalue) -> Option<&Place> {
    match rv {
        Rvalue::Use(op) => op.spec_place(),
        Rvalue::Ref(p) => Some(p),
        Rvalue::RawPtr(p) => Some(p),
        Rvalue::Cast(_, op, _) => op.spec_place(),
        _ => None,
    }
}

/// The owners `dst` aliases after the assignment.
pub open spec fn owners_after(v: StateView, body: &Body, dst: Local, p: &Place) -> Set<Local> {
    let root = p.local;
    if v.owner_alias.contains_key(root) {
        v.owner_alias[root]
    } else if has_deref(p.projection@) && spec_is_reference_param(body, root) {
        set![root]
    } else if has_field(p.projection@) && spec_is_param(body, root) {
        set![root]
    } else {
        Set::empty()
    }
}

/// The owner-alias map after assigning `rv` to `dst`.
pub open spec fn owner_alias_after(v: StateView, body: &Body, dst: Local, rv: &Rvalue) -> Map<Local, Set<Local>> {
    match rv {
        Rvalue::Aggregate(_, ops) => bind_nonempty(v.owner_alias, dst, operands_union(v.owner_alias, ops@)),
        _ => match alias_source(rv) {
            None => v.owner_alias.remove(dst),
            Some(p) => if is_scalar_ty(body.spec_ty(dst)) {
                v.owner_alias.remove(dst)
            } else {
                bind_nonempty(v.owner_alias, dst, owners_after(v, body, dst, p))
            },
        },
    }
}

/// The fn-pointer targets after assigning `rv` to `dst`.
pub open spec fn fn_ptr_after(m: Map<Local, DefId>, dst: Local, rv: &Rvalue) -> Map<Local, DefId> {
    match rv {
        Rvalue::Cast(CastKind::ReifyFnPointer, op, _) => match op.spec_const_fn_def() {
            Some(did) => m.insert(dst, did),
            None => m.remove(dst),
        },
        Rvalue::Use(op) => match spec_operand_local(op) {
            Some(src) => copy_entry(m, dst, src),
            None => m.remove(dst),
        },
        _ => m.remove(dst),
    }
}

// ───────────────────── facts carried by a plain use ─────────────────────

/// `dst = &base` or `dst = &(*base)`: `dst` refers to `base`'s collection.
pub open spec fn st_ref_base(v: StateView, dst: Local, rv: &Rvalue) -> StateView {
    match rv {
        Rvalue::Ref(p) => if p.projection@.len() == 0 || is_single_deref(p.projection@) {
            StateView { ref_base: v.ref_base.insert(dst, p.local), ..v }
        } else {
            v
        },
        _ => v,
    }
}

/// A move or copy of a bare local carries capacity, value-range, fd, cast
/// and component facts to `dst` (a move takes them from the source).
pub open spec fn st_propagate(v: StateView, dst: Local, rv: &Rvalue) -> StateView {
    match rv {
        Rvalue::Use(op) => match op {
            Operand::Copy(p) => if p.projection@.len() == 0 { propagate_facts(v, p.local, dst, false) } else { v },
            Operand::Move(p) => if p.projection@.len() == 0 { propagate_facts(v, p.local, dst, true) } else { v },
            _ => v,
        },
        _ => v,
    }
}

pub open spec fn propagate_facts(v: StateView, src: Local, dst: Local, mv: bool) -> StateView {
    StateView {
        has_spare: prop_member(v.has_spare, src, dst, mv),
        is_full: prop_member(v.is_full, src, dst, mv),
        nonzero: prop_member(v.nonzero, src, dst, mv),
        finite: prop_member(v.finite, src, dst, mv),
        fd_origin: prop_member(v.fd_origin, src, dst, mv),
        fd_consumed: prop_member(v.fd_consumed, src, dst, mv),
        cast_origin: prop_entry(v.cast_origin, src, dst, mv),
        array_components: prop_entry(v.array_components, src, dst, mv),
        const_upper: prop_entry(v.const_upper, src, dst, mv),
        const_lower: prop_entry(v.const_lower, src, dst, mv),
        ..v
    }
}

/// `dst = PtrMetadata(l)`: the length of `l`'s collection.
pub open spec fn st_ptr_metadata(v: StateView, dst: Local, rv: &Rvalue) -> StateView {
    match rv {
        Rvalue::UnaryOp(UnOp::PtrMetadata, op) => match spec_operand_local(op) {
            Some(l) => StateView {
                len_of: v.len_of.insert(dst, if v.ref_base.contains_key(l) { v.ref_base[l] } else { l }),
                ..v
            },
            None => v,
        },
        _ => v,
    }
}

// ───────────────────── the right-hand side proper ─────────────────────

pub open spec fn move_local(v: StateView, src: Local, dst: Local) -> StateView {
    StateView {
        points_to: bind_nonempty(v.points_to.remove(src), dst, set_at(v.points_to, src)),
        local_proto: bind_nonempty(v.local_proto.remove(src), dst, set_at(v.local_proto, src)),
        init: move_entry(v.init, src, dst),
        buf_written: move_member(v.buf_written, src, dst),
        lt_facts: move_entry(v.lt_facts, src, dst),
        ge_facts: move_entry(v.ge_facts, src, dst),
        le_facts: move_entry(v.le_facts, src, dst),
        gt_facts: move_entry(v.gt_facts, src, dst),
        bounded: move_member(v.bounded, src, dst),
        bounded_or_eq: move_member(v.bounded_or_eq, src, dst),
        ..v
    }
}

pub open spec fn copy_local(v: StateView, src: Local, dst: Local) -> StateView {
    StateView {
        points_to: copy_entry(v.points_to, dst, src),
        local_proto: copy_entry(v.local_proto, dst, src),
        init: copy_entry(v.init, dst, src),
        buf_written: copy_member(v.buf_written, src, dst),
        lt_facts: copy_entry(v.lt_facts, dst, src),
        ge_facts: copy_entry(v.ge_facts, dst, src),
        le_facts: copy_entry(v.le_facts, dst, src),
        gt_facts: copy_entry(v.gt_facts, dst, src),
        bounded: copy_member(v.bounded, src, dst),
        bounded_or_eq: copy_member(v.bounded_or_eq, src, dst),
        ..v
    }
}

/// `dst` now points where `src` points (the whole entry, even an empty one).
pub open spec fn alias_objects(v: StateView, src: Local, dst: Local) -> StateView {
    clear_scalar(StateView { points_to: copy_entry(v.points_to, dst, src), ..v }, dst)
}

/// `dst` now points where `src` points, if that is anywhere at all.
pub open spec fn alias_objects_nonempty(v: StateView, src: Local, dst: Local) -> StateView {
    clear_scalar(StateView { points_to: copy_nonempty(v.points_to, dst, src), ..v }, dst)
}

/// The locals of an aggregate's operands, if every operand is a bare local.
pub open spec fn all_plain(ops: Seq<Operand>) -> bool {
    forall|i: int| 0 <= i < ops.len() ==> #[trigger] spec_operand_local(&ops[i]) is Some
}

pub open spec fn plain_locals(ops: Seq<Operand>) -> Seq<Local> {
    Seq::new(ops.len(), |i: int| spec_operand_local(&ops[i])->0)
}

pub open spec fn st_aggregate(v: StateView, dst: Local, kind: AggregateKind, ops: Seq<Operand>) -> StateView {
    let v1 = clear_scalar(StateView { points_to: bind_nonempty(v.points_to, dst, operands_union(v.points_to, ops)), ..v }, dst);
    if (kind == AggregateKind::Array || kind == AggregateKind::Tuple) && all_plain(ops) && ops.len() > 0 {
        StateView { array_components: v1.array_components.insert(dst, plain_locals(ops)), ..v1 }
    } else {
        v1
    }
}

/// A numeric cast records its origin and, for integer casts, the bounds of
/// the destination type and of the source.
pub open spec fn st_numeric_cast(v: StateView, dst: Local, src: Local, kind: CastKind, ty: &crate::mir::Ty) -> StateView {
    let v1 = StateView { cast_origin: v.cast_origin.insert(dst, src), ..v };
    if kind == CastKind::IntToInt {
        let v2 = match spec_uint_type_max(ty) {
            Some(m) => StateView { const_upper: lower_upper(v1.const_upper, dst, m), ..v1 },
            None => v1,
        };
        let v3 = if v2.nonzero.contains(src) { StateView { nonzero: v2.nonzero.insert(dst), ..v2 } } else { v2 };
        if v3.const_upper.contains_key(src) {
            StateView { const_upper: lower_upper(v3.const_upper, dst, v3.const_upper[src]), ..v3 }
        } else {
            v3
        }
    } else {
        v1
    }
}

/// The first operand (of two) that is a bare local with tracked objects.
pub open spec fn tracked_operand(v: StateView, op1: &Operand, op2: &Operand) -> Option<Local> {
    match spec_operand_local(op1) {
        Some(l) if v.points_to.contains_key(l) => Some(l),
        _ => match spec_operand_local(op2) {
            Some(l) if v.points_to.contains_key(l) => Some(l),
            _ => None,
        },
    }
}

/// The collection a `len`/`capacity` comparison is about, when both sides
/// are `len()` and `capacity()` results of the same collection.
pub open spec fn spare_coll(v: StateView, op1: &Operand, op2: &Operand, cap_first: bool) -> Option<Local> {
    match (spec_operand_local(op1), spec_operand_local(op2)) {
        (Some(a), Some(b)) => {
            let len_l = if cap_first { b } else { a };
            let cap_l = if cap_first { a } else { b };
            if v.len_of.contains_key(len_l) && v.cap_of.contains_key(cap_l) && v.len_of[len_l] == v.cap_of[cap_l] {
                Some(v.len_of[len_l])
            } else {
                None
            }
        },
        _ => None,
    }
}

pub open spec fn record_spare(v: StateView, dst: Local, op1: &Operand, op2: &Operand, on_true: bool, cap_first: bool) -> StateView {
    match spare_coll(v, op1, op2, cap_first) {
        Some(c) => if on_true {
            StateView { spare_if_true: v.spare_if_true.insert(dst, c), ..v }
        } else {
            StateView { spare_if_false: v.spare_if_false.insert(dst, c), ..v }
        },
        None => v,
    }
}

/// The collection an equality of `len()` and `capacity()` (either order) is about.
pub open spec fn full_coll(v: StateView, op1: &Operand, op2: &Operand) -> Option<Local> {
    match (spec_operand_local(op1), spec_operand_local(op2)) {
        (Some(a), Some(b)) => if v.len_of.contains_key(a) && v.cap_of.contains_key(b) && v.len_of[a] == v.cap_of[b] {
            Some(v.len_of[a])
        } else if v.cap_of.contains_key(a) && v.len_of.contains_key(b) && v.len_of[b] == v.cap_of[a] {
            Some(v.len_of[b])
        } else {
            None
        },
        _ => None,
    }
}

pub open spec fn record_full(v: StateView, dst: Local, op1: &Operand, op2: &Operand, on_true: bool) -> StateView {
    match full_coll(v, op1, op2) {
        Some(c) => if on_true {
            StateView { full_if_true: v.full_if_true.insert(dst, c), ..v }
        } else {
            StateView { full_if_false: v.full_if_false.insert(dst, c), ..v }
        },
        None => v,
    }
}

/// The local compared against the constant zero, in either operand order.
pub open spec fn zero_compared(op1: &Operand, op2: &Operand) -> Option<Local> {
    match (spec_operand_local(op1), spec_const_u64(op2)) {
        (Some(l), Some(k)) if k == 0 => Some(l),
        _ => match (spec_const_u64(op1), spec_operand_local(op2)) {
            (Some(k), Some(l)) if k == 0 => Some(l),
            _ => None,
        },
    }
}

/// `local OP k` and `k OP local` facts of an ordering comparison.
pub open spec fn st_const_cmp(v: StateView, dst: Local, op: BinOp, op1: &Operand, op2: &Operand) -> StateView {
    let v1 = match (spec_operand_local(op1), spec_const_u64(op2)) {
        (Some(l), Some(k)) => match op {
            BinOp::Lt => StateView { const_lt: v.const_lt.insert(dst, (l, k)), ..v },
            BinOp::Ge => {
                let w = StateView { const_ge: v.const_ge.insert(dst, (l, k)), ..v };
                if k >= 1 { StateView { nonzero_if_true: w.nonzero_if_true.insert(dst, l), ..w } } else { w }
            },
            BinOp::Le => StateView { const_le: v.const_le.insert(dst, (l, k)), ..v },
            _ => {
                let w = StateView { const_gt: v.const_gt.insert(dst, (l, k)), ..v };
                if k == 0 { StateView { nonzero_if_true: w.nonzero_if_true.insert(dst, l), ..w } } else { w }
            },
        },
        _ => v,
    };
    match (spec_const_u64(op1), spec_operand_local(op2)) {
        (Some(k), Some(l)) => match op {
            BinOp::Lt => {
                let w = StateView { const_gt: v1.const_gt.insert(dst, (l, k)), ..v1 };
                if k == 0 { StateView { nonzero_if_true: w.nonzero_if_true.insert(dst, l), ..w } } else { w }
            },
            BinOp::Ge => StateView { const_le: v1.const_le.insert(dst, (l, k)), ..v1 },
            BinOp::Le => {
                let w = StateView { const_ge: v1.const_ge.insert(dst, (l, k)), ..v1 };
                if k >= 1 { StateView { nonzero_if_true: w.nonzero_if_true.insert(dst, l), ..w } } else { w }
            },
            _ => StateView { const_lt: v1.const_lt.insert(dst, (l, k)), ..v1 },
        },
        _ => v1,
    }
}

/// The four ordering-comparison maps with `dst` bound in `keep` (to the
/// left operand, if it is a bare local) and unbound in the others.
pub open spec fn set_cmp_fact(v: StateView, dst: Local, op: BinOp, op1: &Operand) -> StateView {
    let bind = |m: Map<Local, Local>, which: BinOp| if op == which {
        match spec_operand_local(op1) {
            Some(l) => m.insert(dst, l),
            None => m.remove(dst),
        }
    } else {
        m.remove(dst)
    };
    StateView {
        lt_facts: bind(v.lt_facts, BinOp::Lt),
        ge_facts: bind(v.ge_facts, BinOp::Ge),
        le_facts: bind(v.le_facts, BinOp::Le),
        gt_facts: bind(v.gt_facts, BinOp::Gt),
        ..v
    }
}

pub open spec fn is_ordering(op: BinOp) -> bool {
    op == BinOp::Lt || op == BinOp::Ge || op == BinOp::Le || op == BinOp::Gt
}

pub open spec fn st_binary(v: StateView, dst: Local, op: BinOp, op1: &Operand, op2: &Operand) -> StateView {
    let pts = if op == BinOp::Offset || op == BinOp::Add || op == BinOp::Sub {
        match tracked_operand(v, op1, op2) {
            Some(l) => v.points_to.insert(dst, v.points_to[l]),
            None => v.points_to.remove(dst),
        }
    } else {
        v.points_to.remove(dst)
    };
    let v1 = StateView {
        points_to: pts,
        local_proto: v.local_proto.remove(dst),
        init: v.init.remove(dst),
        buf_written: v.buf_written.remove(dst),
        bounded: v.bounded.remove(dst),
        bounded_or_eq: v.bounded_or_eq.remove(dst),
        ..v
    };
    let v2 = set_cmp_fact(v1, dst, op, op1);
    if is_ordering(op) {
        let v3 = if op == BinOp::Lt {
            record_spare(v2, dst, op1, op2, true, false)
        } else if op == BinOp::Ge {
            record_spare(v2, dst, op1, op2, false, false)
        } else if op == BinOp::Le {
            record_spare(v2, dst, op1, op2, false, true)
        } else {
            record_spare(v2, dst, op1, op2, true, true)
        };
        st_const_cmp(v3, dst, op, op1, op2)
    } else if op == BinOp::Eq || op == BinOp::Ne {
        let eq = op == BinOp::Eq;
        let v3 = record_full(v2, dst, op1, op2, eq);
        let v4 = match zero_compared(op1, op2) {
            Some(l) => if eq {
                StateView { nonzero_if_false: v3.nonzero_if_false.insert(dst, l), ..v3 }
            } else {
                StateView { nonzero_if_true: v3.nonzero_if_true.insert(dst, l), ..v3 }
            },
            None => v3,
        };
        match (spec_operand_local(op1), spec_operand_local(op2)) {
            (Some(a), Some(b)) => if eq {
                StateView { eq_pair_if_true: v4.eq_pair_if_true.insert(dst, (a, b)), ..v4 }
            } else {
                StateView { ne_pair_if_true: v4.ne_pair_if_true.insert(dst, (a, b)), ..v4 }
            },
            _ => v4,
        }
    } else if op == BinOp::BitOr {
        let nz = |o: &Operand| (match spec_operand_local(o) {
            Some(l) => v2.nonzero.contains(l),
            None => false,
        }) || (match spec_const_u64(o) {
            Some(k) => k != 0,
            None => false,
        });
        if nz(op1) || nz(op2) { StateView { nonzero: v2.nonzero.insert(dst), ..v2 } } else { v2 }
    } else {
        v2
    }
}

/// `dst = const k`: the value is known exactly.
pub open spec fn st_constant(v: StateView, dst: Local, op: &Operand) -> StateView {
    let v1 = match spec_const_u64(op) {
        Some(k) => StateView {
            nonzero: if k != 0 { v.nonzero.insert(dst) } else { v.nonzero.remove(dst) },
            const_upper: v.const_upper.insert(dst, k),
            const_lower: v.const_lower.insert(dst, k),
            ..v
        },
        None => v,
    };
    clear_basic(v1, dst)
}

/// Anything else: forget `dst`; a projected move also clears its base.
pub open spec fn st_unknown(v: StateView, dst: Local, rv: &Rvalue) -> StateView {
    let v1 = clear_basic(v, dst);
    match rv {
        Rvalue::Use(Operand::Move(p)) => if p.projection@.len() != 0 { clear_basic(v1, p.local) } else { v1 },
        _ => v1,
    }
}

pub open spec fn is_numeric_cast(k: CastKind) -> bool {
    k == CastKind::IntToInt || k == CastKind::IntToFloat || k == CastKind::FloatToInt || k == CastKind::FloatToFloat
}

/// The effect of the right-hand side itself on `dst`.
pub open spec fn st_rvalue(v: StateView, body: &Body, dst: Local, rv: &Rvalue) -> StateView {
    match rv {
        Rvalue::Use(Operand::Move(p)) if p.projection@.len() == 0 => move_local(v, p.local, dst),
        Rvalue::Use(Operand::Copy(p)) if p.projection@.len() == 0 => copy_local(v, p.local, dst),
        Rvalue::Use(Operand::Copy(p)) if deref_only_first(p.projection@) => alias_objects(v, p.local, dst),
        Rvalue::Use(Operand::Move(p)) if deref_only_first(p.projection@) => alias_objects(v, p.local, dst),
        Rvalue::Ref(p) if p.projection@.len() == 0 => alias_objects_nonempty(v, p.local, dst),
        Rvalue::RawPtr(p) if is_single_deref(p.projection@) || p.projection@.len() == 0 =>
            alias_objects_nonempty(v, p.local, dst),
        Rvalue::Aggregate(kind, ops) => st_aggregate(v, dst, *kind, ops@),
        Rvalue::Cast(kind, Operand::Copy(p), ty) if p.projection@.len() == 0 && (*kind == CastKind::PtrToPtr || *kind == CastKind::Transmute) =>
            alias_objects(v, p.local, dst),
        Rvalue::Cast(kind, Operand::Move(p), ty) if p.projection@.len() == 0 && (*kind == CastKind::PtrToPtr || *kind == CastKind::Transmute) =>
            alias_objects(v, p.local, dst),
        Rvalue::Cast(kind, Operand::Copy(p), ty) if p.projection@.len() == 0 && is_numeric_cast(*kind) =>
            st_numeric_cast(v, dst, p.local, *kind, ty),
        Rvalue::Cast(kind, Operand::Move(p), ty) if p.projection@.len() == 0 && is_numeric_cast(*kind) =>
            st_numeric_cast(v, dst, p.local, *kind, ty),
        Rvalue::BinaryOp(op, op1, op2) => st_binary(v, dst, *op, op1, op2),
        Rvalue::Use(op) if op is Constant => st_constant(v, dst, op),
        _ => st_unknown(v, dst, rv),
    }
}

// ───────────────────── derived pointer and size facts ─────────────────────

/// The largest `isize`.
pub const ISIZE_MAX: u64 = 0x7FFF_FFFF_FFFF_FFFF;

/// What the state proves as an upper bound of an operand: its value for a
/// constant, its `const_upper` for a bare local.
pub open spec fn operand_upper(v: StateView, op: &Operand) -> Option<u64> {
    match spec_const_u64(op) {
        Some(k) => Some(k),
        None => match spec_operand_local(op) {
            Some(l) => if v.const_upper.contains_key(l) { Some(v.const_upper[l]) } else { None },
            None => None,
        },
    }
}

/// The bounds of both operands keep `op1 op op2` within `isize::MAX`.
pub open spec fn arith_proven_small(v: StateView, op: BinOp, op1: &Operand, op2: &Operand) -> bool {
    match (operand_upper(v, op1), operand_upper(v, op2)) {
        (Some(a), Some(b)) => if op == BinOp::Mul { a * b <= ISIZE_MAX } else { a + b <= ISIZE_MAX },
        _ => false,
    }
}

/// `dst = rv` for a set of locals that copies and moves carry: a bare copy
/// or move passes membership from the source (a move takes it from the
/// source), `starts` puts `dst` in, and anything else takes `dst` out.
pub open spec fn carried_after(s: Set<Local>, dst: Local, rv: &Rvalue, starts: bool) -> Set<Local> {
    match rv {
        Rvalue::Use(Operand::Copy(p)) if p.projection@.len() == 0 =>
            if s.contains(p.local) { s.insert(dst) } else { s.remove(dst) },
        Rvalue::Use(Operand::Move(p)) if p.projection@.len() == 0 =>
            if s.contains(p.local) { s.remove(p.local).insert(dst) } else { s.remove(dst) },
        _ => if starts { s.insert(dst) } else { s.remove(dst) },
    }
}

/// `rv` casts a `*const` local to a `*mut` pointer.
pub open spec fn casts_away_const(body: &Body, rv: &Rvalue) -> bool {
    match rv {
        Rvalue::Cast(CastKind::PtrToPtr, op, ty) => match spec_operand_local(op) {
            Some(src) => *body.spec_ty(src) == Ty::RawPtr(Mutability::Not) && *ty == Ty::RawPtr(Mutability::Mut),
            None => false,
        },
        _ => false,
    }
}

/// `rv` is a multiplication or addition that the state does not prove to
/// stay within `isize::MAX`.
pub open spec fn may_overflow(v: StateView, rv: &Rvalue) -> bool {
    match rv {
        Rvalue::BinaryOp(op, op1, op2) => (*op == BinOp::Mul || *op == BinOp::Add) && !arith_proven_small(v, *op, op1, op2),
        _ => false,
    }
}

/// The pointer-cast and size-overflow sets after `dst = rv`, given the
/// state `pre` before the assignment and `v` after the rest of it.
pub open spec fn st_derived(pre: StateView, v: StateView, body: &Body, dst: Local, rv: &Rvalue) -> StateView {
    StateView {
        const_ptr_cast: carried_after(pre.const_ptr_cast, dst, rv, casts_away_const(body, rv)),
        mul_overflow: carried_after(pre.mul_overflow, dst, rv, may_overflow(pre, rv)),
        ..v
    }
}

/// The effect of the assignment `dst = rv`.
pub open spec fn spec_apply_assign(v: StateView, body: &Body, dst: &Place, rv: &Rvalue) -> StateView {
    let v0 = StateView { owner_alias: crate::analysis::state::drop_owner(v.owner_alias, dst.local), ..v };
    if dst.projection@.len() != 0 {
        st_projected(v0, dst, rv)
    } else {
        let d = dst.local;
        let v1 = StateView {
            owner_alias: owner_alias_after(v0, body, d, rv),
            fn_ptr_targets: fn_ptr_after(v0.fn_ptr_targets, d, rv),
            ..v0
        };
        let v2 = clear_range(v1, d);
        let v3 = st_ref_base(v2, d, rv);
        let v4 = st_propagate(v3, d, rv);
        let v5 = st_ptr_metadata(v4, d, rv);
        let v6 = st_rvalue(v5, body, d, rv);
        st_derived(v, type_facts(v6, d, body.spec_ty(d)), body, d, rv)
    }
}

/// The effect of a statement on the state.
pub open spec fn spec_apply_statement(v: StateView, body: &Body, stmt: &Statement) -> StateView {
    match stmt {
        Statement::Assign(dst, rv) => spec_apply_assign(v, body, dst, rv),
        Statement::Other => v,
    }
}

// ───────────────────────── implementation ─────────────────────────

impl BlockState {
    /// `m[dst] := m[src]` on a set-valued map, or unbind `dst`.
    fn copy_set_entry<T: crate::collections::Key>(m: &mut VecMap<Local, VecSet<T>>, dst: Local, src: Local)
        ensures
            deep_sets(final(m)@) == copy_entry(deep_sets(old(m)@), dst, src),
    {
        if m.contains_key(src) {
            let s = m.set_of(src);
            m.put(dst, s);
        } else {
            m.drop_key(dst);
        }
        proof { assert(deep_sets(m@) =~= copy_entry(deep_sets(old(m)@), dst, src)); }
    }

    /// `m[dst] := s` if `s` is non-empty, else unbind `dst`.
    fn bind_set<T: crate::collections::Key>(m: &mut VecMap<Local, VecSet<T>>, dst: Local, s: VecSet<T>)
        ensures
            deep_sets(final(m)@) == bind_nonempty(deep_sets(old(m)@), dst, s@),
    {
        if !s.is_empty() {
            m.put(dst, s);
        } else {
            m.drop_key(dst);
        }
    }

    /// Union of the sets bound to the directly read operands.
    fn union_over_operands<T: crate::collections::Key>(m: &VecMap<Local, VecSet<T>>, ops: &Vec<Operand>) -> (r: VecSet<T>)
        ensures
            r@ == operands_union(deep_sets(m@), ops@),
    {
        let mut acc: VecSet<T> = VecSet::new();
        let mut i: usize = 0;
        while i < ops.len()
            invariant
                i <= ops@.len(),
                acc@ == operands_union(deep_sets(m@), ops@.subrange(0, i as int)),
            decreases ops@.len() - i,
        {
            let ghost before = acc@;
            match operand_local(&ops[i]) {
                Some(l) => {
                    let s = m.set_of(l);
                    acc.union_with(&s);
                },
                None => {},
            }
            proof {
                let pre = ops@.subrange(0, i as int);
                let post = ops@.subrange(0, i + 1);
                assert forall|x: T| acc@.contains(x) <==> operands_union(deep_sets(m@), post).contains(x) by {
                    if operands_union(deep_sets(m@), post).contains(x) {
                        let j = choose|j: int| 0 <= j < post.len() && #[trigger] spec_operand_local(&post[j]) is Some
                            && set_at(deep_sets(m@), spec_operand_local(&post[j])->0).contains(x);
                        if j < i {
                            assert(pre[j] == post[j]);
                            assert(operands_union(deep_sets(m@), pre).contains(x));
                        }
                    }
                    if before.contains(x) {
                        let j = choose|j: int| 0 <= j < pre.len() && #[trigger] spec_operand_local(&pre[j]) is Some
                            && set_at(deep_sets(m@), spec_operand_local(&pre[j])->0).contains(x);
                        assert(pre[j] == post[j]);
                    }
                    if acc@.contains(x) && !before.contains(x) {
                        assert(post[i as int] == ops@[i as int]);
                        assert(spec_operand_local(&post[i as int]) is Some);
                    }
                }
                assert(acc@ =~= operands_union(deep_sets(m@), post));
            }
            i = i + 1;
        }
        proof { assert(ops@.subrange(0, i as int) =~= ops@); }
        acc
    }

    /// A store into a projection (see `st_projected`).
    fn projected_store(&mut self, dst: &Place, rv: &Rvalue)
        ensures
            final(self)@ == st_projected(old(self)@, dst, rv),
    {
        let is_return_place = dst.local == 0;
        let has_d = place_has_deref(dst);
        if is_return_place && !has_d {
            match rvalue_local(rv) {
                Some(src) => {
                    if self.points_to.contains_key(src) {
                        let objs = self.points_to.set_of(src);
                        if !objs.is_empty() {
                            let mut cur = self.points_to.set_of(0);
                            cur.union_with(&objs);
                            self.points_to.put(0, cur);
                        }
                    }
                },
                None => {},
            }
        } else {
            match rvalue_local(rv) {
                Some(src) => self.escape_local(src),
                None => {},
            }
        }
        proof { assert(self@ =~= st_projected(old(self)@, dst, rv)); }
    }

    /// Recomputes the owners `dst` aliases after `dst = rv`.
    fn update_owner_alias(&mut self, body: &Body, dst: Local, rv: &Rvalue)
        ensures
            final(self)@ == (StateView { owner_alias: owner_alias_after(old(self)@, body, dst, rv), ..old(self)@ }),
    {
        if let Rvalue::Aggregate(_, ops) = rv {
            let owners = Self::union_over_operands(&self.owner_alias, ops);
            Self::bind_set(&mut self.owner_alias, dst, owners);
            proof { assert(self@ =~= (StateView { owner_alias: owner_alias_after(old(self)@, body, dst, rv), ..old(self)@ })); }
            return;
        }
        let place: Option<&Place> = match rv {
            Rvalue::Use(Operand::Copy(p)) | Rvalue::Use(Operand::Move(p)) => Some(p),
            Rvalue::Ref(p) => Some(p),
            Rvalue::RawPtr(p) => Some(p),
            Rvalue::Cast(_, Operand::Copy(p), _) | Rvalue::Cast(_, Operand::Move(p), _) => Some(p),
            _ => None,
        };
        match place {
            None => {
                self.owner_alias.drop_key(dst);
            },
            Some(p) => {
                let dst_ty = body.ty_of(dst);
                if matches!(dst_ty, crate::mir::Ty::Int | crate::mir::Ty::Uint(_) | crate::mir::Ty::Float
                    | crate::mir::Ty::Bool | crate::mir::Ty::Char) {
                    self.owner_alias.drop_key(dst);
                } else {
                    let root = p.local;
                    let owners = if self.owner_alias.contains_key(root) {
                        self.owner_alias.set_of(root)
                    } else if place_has_deref(p) && is_reference_param(body, root) {
                        VecSet::singleton(root)
                    } else if place_has_field(p) && is_param(body, root) {
                        VecSet::singleton(root)
                    } else {
                        VecSet::new()
                    };
                    Self::bind_set(&mut self.owner_alias, dst, owners);
                }
            },
        }
        proof { assert(self@ =~= (StateView { owner_alias: owner_alias_after(old(self)@, body, dst, rv), ..old(self)@ })); }
    }

    /// Tracks which function a fn-pointer local was reified from.
    fn update_fn_ptr_target(&mut self, dst: Local, rv: &Rvalue)
        ensures
            final(self)@ == (StateView { fn_ptr_targets: fn_ptr_after(old(self)@.fn_ptr_targets, dst, rv), ..old(self)@ }),
    {
        match rv {
            Rvalue::Cast(CastKind::ReifyFnPointer, op, _) => match op.const_fn_def() {
                Some(did) => { self.fn_ptr_targets.insert(dst, did); },
                None => { self.fn_ptr_targets.remove(dst); },
            },
            Rvalue::Use(op) => match operand_local(op) {
                Some(src) => match self.fn_ptr_targets.get_copy(src) {
                    Some(did) => { self.fn_ptr_targets.insert(dst, did); },
                    None => { self.fn_ptr_targets.remove(dst); },
                },
                None => { self.fn_ptr_targets.remove(dst); },
            },
            _ => { self.fn_ptr_targets.remove(dst); },
        }
        proof { assert(self@ =~= (StateView { fn_ptr_targets: fn_ptr_after(old(self)@.fn_ptr_targets, dst, rv), ..old(self)@ })); }
    }

    fn record_ref_base(&mut self, dst: Local, rv: &Rvalue)
        ensures
            final(self)@ == st_ref_base(old(self)@, dst, rv),
    {
        if let Rvalue::Ref(p) = rv {
            if p.projection.len() == 0 || place_is_single_deref(p) {
                self.ref_base.insert(dst, p.local);
            }
        }
        proof { assert(self@ =~= st_ref_base(old(self)@, dst, rv)); }
    }

    fn prop_set(s: &mut VecSet<Local>, src: Local, dst: Local, mv: bool)
        ensures
            final(s)@ == prop_member(old(s)@, src, dst, mv),
    {
        if s.contains(src) {
            s.insert(dst);
            if mv {
                s.remove(src);
            }
        }
    }

    fn prop_map<V: Copy>(m: &mut VecMap<Local, V>, src: Local, dst: Local, mv: bool)
        ensures
            final(m)@ == prop_entry(old(m)@, src, dst, mv),
    {
        match m.get_copy(src) {
            Some(v) => {
                m.insert(dst, v);
                if mv {
                    m.remove(src);
                }
            },
            None => {},
        }
    }

    fn propagate_use(&mut self, dst: Local, rv: &Rvalue)
        ensures
            final(self)@ == st_propagate(old(self)@, dst, rv),
    {
        let (src, mv) = match rv {
            Rvalue::Use(Operand::Copy(p)) => {
                if p.projection.len() != 0 {
                    return;
                }
                (p.local, false)
            },
            Rvalue::Use(Operand::Move(p)) => {
                if p.projection.len() != 0 {
                    return;
                }
                (p.local, true)
            },
            _ => {
                return;
            },
        };
        Self::prop_set(&mut self.has_spare, src, dst, mv);
        Self::prop_set(&mut self.is_full, src, dst, mv);
        Self::prop_set(&mut self.nonzero, src, dst, mv);
        Self::prop_set(&mut self.finite, src, dst, mv);
        Self::prop_set(&mut self.fd_origin, src, dst, mv);
        Self::prop_set(&mut self.fd_consumed, src, dst, mv);
        Self::prop_map(&mut self.cast_origin, src, dst, mv);
        match self.array_components.seq_of(src) {
            Some(comps) => {
                self.array_components.put_seq(dst, comps);
                if mv {
                    self.array_components.drop_seq(src);
                }
            },
            None => {},
        }
        Self::prop_map(&mut self.const_upper, src, dst, mv);
        Self::prop_map(&mut self.const_lower, src, dst, mv);
        proof { assert(self@ =~= st_propagate(old(self)@, dst, rv)); }
    }

    fn record_ptr_metadata(&mut self, dst: Local, rv: &Rvalue)
        ensures
            final(self)@ == st_ptr_metadata(old(self)@, dst, rv),
    {
        if let Rvalue::UnaryOp(UnOp::PtrMetadata, op) = rv {
            if let Some(l) = operand_local(op) {
                let base = self.deref_base(l);
                self.len_of.insert(dst, base);
            }
        }
        proof { assert(self@ =~= st_ptr_metadata(old(self)@, dst, rv)); }
    }

    fn move_map(m: &mut VecMap<Local, Local>, src: Local, dst: Local)
        ensures
            final(m)@ == move_entry(old(m)@, src, dst),
    {
        match m.remove(src) {
            Some(v) => { m.insert(dst, v); },
            None => { m.remove(dst); },
        }
    }

    fn move_set(s: &mut VecSet<Local>, src: Local, dst: Local)
        ensures
            final(s)@ == move_member(old(s)@, src, dst),
    {
        if s.remove(src) {
            s.insert(dst);
        } else {
            s.remove(dst);
        }
    }

    fn copy_map<V: Copy>(m: &mut VecMap<Local, V>, src: Local, dst: Local)
        ensures
            final(m)@ == copy_entry(old(m)@, dst, src),
    {
        match m.get_copy(src) {
            Some(v) => { m.insert(dst, v); },
            None => { m.remove(dst); },
        }
    }

    fn copy_set(s: &mut VecSet<Local>, src: Local, dst: Local)
        ensures
            final(s)@ == copy_member(old(s)@, src, dst),
    {
        if s.contains(src) {
            s.insert(dst);
        } else {
            s.remove(dst);
        }
    }

    fn move_local_facts(&mut self, src: Local, dst: Local)
        ensures
            final(self)@ == move_local(old(self)@, src, dst),
    {
        let objs = self.points_to.set_of(src);
        self.points_to.drop_key(src);
        Self::bind_set(&mut self.points_to, dst, objs);
        let protos = self.local_proto.set_of(src);
        self.local_proto.drop_key(src);
        Self::bind_set(&mut self.local_proto, dst, protos);
        match self.init.remove(src) {
            Some(i) => { self.init.insert(dst, i); },
            None => { self.init.remove(dst); },
        }
        Self::move_set(&mut self.buf_written, src, dst);
        Self::move_map(&mut self.lt_facts, src, dst);
        Self::move_map(&mut self.ge_facts, src, dst);
        Self::move_map(&mut self.le_facts, src, dst);
        Self::move_map(&mut self.gt_facts, src, dst);
        Self::move_set(&mut self.bounded, src, dst);
        Self::move_set(&mut self.bounded_or_eq, src, dst);
        proof { assert(self@ =~= move_local(old(self)@, src, dst)); }
    }

    fn copy_local_facts(&mut self, src: Local, dst: Local)
        ensures
            final(self)@ == copy_local(old(self)@, src, dst),
    {
        Self::copy_set_entry(&mut self.points_to, dst, src);
        Self::copy_set_entry(&mut self.local_proto, dst, src);
        Self::copy_map(&mut self.init, src, dst);
        Self::copy_set(&mut self.buf_written, src, dst);
        Self::copy_map(&mut self.lt_facts, src, dst);
        Self::copy_map(&mut self.ge_facts, src, dst);
        Self::copy_map(&mut self.le_facts, src, dst);
        Self::copy_map(&mut self.gt_facts, src, dst);
        Self::copy_set(&mut self.bounded, src, dst);
        Self::copy_set(&mut self.bounded_or_eq, src, dst);
        proof { assert(self@ =~= copy_local(old(self)@, src, dst)); }
    }

    fn alias_objects(&mut self, src: Local, dst: Local)
        ensures
            final(self)@ == alias_objects(old(self)@, src, dst),
    {
        Self::copy_set_entry(&mut self.points_to, dst, src);
        self.clear_scalar_facts(dst);
    }

    fn alias_objects_nonempty(&mut self, src: Local, dst: Local)
        ensures
            final(self)@ == alias_objects_nonempty(old(self)@, src, dst),
    {
        let objs = self.points_to.set_of(src);
        Self::bind_set(&mut self.points_to, dst, objs);
        proof {
            assert(self@ =~= (StateView { points_to: copy_nonempty(old(self)@.points_to, dst, src), ..old(self)@ }));
        }
        self.clear_scalar_facts(dst);
    }

    fn aggregate(&mut self, dst: Local, kind: AggregateKind, ops: &Vec<Operand>)
        ensures
            final(self)@ == st_aggregate(old(self)@, dst, kind, ops@),
    {
        let objs = Self::union_over_operands(&self.points_to, ops);
        Self::bind_set(&mut self.points_to, dst, objs);
        self.clear_scalar_facts(dst);
        if kind == AggregateKind::Array || kind == AggregateKind::Tuple {
            let mut comps: Vec<Local> = Vec::new();
            let mut all = true;
            let mut i: usize = 0;
            while i < ops.len()
                invariant
                    i <= ops@.len(),
                    all ==> comps@ == plain_locals(ops@).subrange(0, i as int),
                    all == forall|j: int| 0 <= j < i ==> #[trigger] spec_operand_local(&ops@[j]) is Some,
                decreases ops@.len() - i,
            {
                match operand_local(&ops[i]) {
                    Some(l) => {
                        comps.push(l);
                    },
                    None => {
                        all = false;
                    },
                }
                proof {
                    if all {
                        assert(comps@ =~= plain_locals(ops@).subrange(0, i + 1));
                    }
                }
                i = i + 1;
            }
            if all && comps.len() > 0 {
                proof { assert(comps@ =~= plain_locals(ops@)); }
                self.array_components.put_seq(dst, comps);
            }
        }
        proof { assert(self@ =~= st_aggregate(old(self)@, dst, kind, ops@)); }
    }

    fn numeric_cast(&mut self, dst: Local, src: Local, kind: CastKind, ty: &crate::mir::Ty)
        ensures
            final(self)@ == st_numeric_cast(old(self)@, dst, src, kind, ty),
    {
        self.cast_origin.insert(dst, src);
        if kind == CastKind::IntToInt {
            match uint_type_max(ty) {
                Some(m) => self.lower_upper_bound(dst, m),
                None => {},
            }
            if self.nonzero.contains(src) {
                self.nonzero.insert(dst);
            }
            match self.const_upper.get_copy(src) {
                Some(ub) => self.lower_upper_bound(dst, ub),
                None => {},
            }
        }
        proof { assert(self@ =~= st_numeric_cast(old(self)@, dst, src, kind, ty)); }
    }
}

impl BlockState {
    fn bind_cmp(m: &mut VecMap<Local, Local>, dst: Local, here: bool, lhs: Option<Local>)
        ensures
            final(m)@ == (if here {
                match lhs {
                    Some(l) => old(m)@.insert(dst, l),
                    None => old(m)@.remove(dst),
                }
            } else {
                old(m)@.remove(dst)
            }),
    {
        if here {
            match lhs {
                Some(l) => { m.insert(dst, l); },
                None => { m.remove(dst); },
            }
        } else {
            m.remove(dst);
        }
    }

    fn set_cmp_facts(&mut self, dst: Local, op: BinOp, op1: &Operand)
        ensures
            final(self)@ == set_cmp_fact(old(self)@, dst, op, op1),
    {
        let lhs = operand_local(op1);
        Self::bind_cmp(&mut self.lt_facts, dst, op == BinOp::Lt, lhs);
        Self::bind_cmp(&mut self.ge_facts, dst, op == BinOp::Ge, lhs);
        Self::bind_cmp(&mut self.le_facts, dst, op == BinOp::Le, lhs);
        Self::bind_cmp(&mut self.gt_facts, dst, op == BinOp::Gt, lhs);
        proof { assert(self@ =~= set_cmp_fact(old(self)@, dst, op, op1)); }
    }

    fn record_spare(&mut self, dst: Local, op1: &Operand, op2: &Operand, on_true: bool, cap_first: bool)
        ensures
            final(self)@ == record_spare(old(self)@, dst, op1, op2, on_true, cap_first),
    {
        let (a, b) = match (operand_local(op1), operand_local(op2)) {
            (Some(a), Some(b)) => (a, b),
            _ => { return; },
        };
        let (len_l, cap_l) = if cap_first { (b, a) } else { (a, b) };
        let (cl, cc) = match (self.len_of.get_copy(len_l), self.cap_of.get_copy(cap_l)) {
            (Some(cl), Some(cc)) => (cl, cc),
            _ => { return; },
        };
        if cl != cc {
            return;
        }
        if on_true {
            self.spare_if_true.insert(dst, cl);
        } else {
            self.spare_if_false.insert(dst, cl);
        }
        proof { assert(self@ =~= record_spare(old(self)@, dst, op1, op2, on_true, cap_first)); }
    }

    fn record_full(&mut self, dst: Local, op1: &Operand, op2: &Operand, on_true: bool)
        ensures
            final(self)@ == record_full(old(self)@, dst, op1, op2, on_true),
    {
        let (a, b) = match (operand_local(op1), operand_local(op2)) {
            (Some(a), Some(b)) => (a, b),
            _ => { return; },
        };
        let coll = match (self.len_of.get_copy(a), self.cap_of.get_copy(b)) {
            (Some(cl), Some(cc)) if cl == cc => Some(cl),
            _ => match (self.cap_of.get_copy(a), self.len_of.get_copy(b)) {
                (Some(cc), Some(cl)) if cl == cc => Some(cl),
                _ => None,
            },
        };
        let coll = match coll {
            Some(c) => c,
            None => { return; },
        };
        if on_true {
            self.full_if_true.insert(dst, coll);
        } else {
            self.full_if_false.insert(dst, coll);
        }
        proof { assert(self@ =~= record_full(old(self)@, dst, op1, op2, on_true)); }
    }

    fn const_cmp(&mut self, dst: Local, op: BinOp, op1: &Operand, op2: &Operand)
        requires
            is_ordering(op),
        ensures
            final(self)@ == st_const_cmp(old(self)@, dst, op, op1, op2),
    {
        let ghost v0 = self@;
        match (operand_local(op1), const_u64(op2)) {
            (Some(l), Some(k)) => {
                if op == BinOp::Lt {
                    self.const_lt.insert(dst, (l, k));
                } else if op == BinOp::Ge {
                    self.const_ge.insert(dst, (l, k));
                    if k >= 1 { self.nonzero_if_true.insert(dst, l); }
                } else if op == BinOp::Le {
                    self.const_le.insert(dst, (l, k));
                } else {
                    self.const_gt.insert(dst, (l, k));
                    if k == 0 { self.nonzero_if_true.insert(dst, l); }
                }
            },
            _ => {},
        }
        let ghost v1 = self@;
        proof {
            assert(v1 =~= ({
                let v = v0;
                match (spec_operand_local(op1), spec_const_u64(op2)) {
                    (Some(l), Some(k)) => match op {
                        BinOp::Lt => StateView { const_lt: v.const_lt.insert(dst, (l, k)), ..v },
                        BinOp::Ge => {
                            let w = StateView { const_ge: v.const_ge.insert(dst, (l, k)), ..v };
                            if k >= 1 { StateView { nonzero_if_true: w.nonzero_if_true.insert(dst, l), ..w } } else { w }
                        },
                        BinOp::Le => StateView { const_le: v.const_le.insert(dst, (l, k)), ..v },
                        _ => {
                            let w = StateView { const_gt: v.const_gt.insert(dst, (l, k)), ..v };
                            if k == 0 { StateView { nonzero_if_true: w.nonzero_if_true.insert(dst, l), ..w } } else { w }
                        },
                    },
                    _ => v,
                }
            }));
        }
        match (const_u64(op1), operand_local(op2)) {
            (Some(k), Some(l)) => {
                if op == BinOp::Lt {
                    self.const_gt.insert(dst, (l, k));
                    if k == 0 { self.nonzero_if_true.insert(dst, l); }
                } else if op == BinOp::Ge {
                    self.const_le.insert(dst, (l, k));
                } else if op == BinOp::Le {
                    self.const_ge.insert(dst, (l, k));
                    if k >= 1 { self.nonzero_if_true.insert(dst, l); }
                } else {
                    self.const_lt.insert(dst, (l, k));
                }
            },
            _ => {},
        }
        proof { assert(self@ =~= st_const_cmp(v0, dst, op, op1, op2)); }
    }

    fn binary(&mut self, dst: Local, op: BinOp, op1: &Operand, op2: &Operand)
        ensures
            final(self)@ == st_binary(old(self)@, dst, op, op1, op2),
    {
        let ghost v = self@;
        if op == BinOp::Offset || op == BinOp::Add || op == BinOp::Sub {
            let src = match operand_local(op1) {
                Some(l) if self.points_to.contains_key(l) => Some(l),
                _ => match operand_local(op2) {
                    Some(l) if self.points_to.contains_key(l) => Some(l),
                    _ => None,
                },
            };
            match src {
                Some(l) => {
                    let objs = self.points_to.set_of(l);
                    self.points_to.put(dst, objs);
                },
                None => self.points_to.drop_key(dst),
            }
        } else {
            self.points_to.drop_key(dst);
        }
        self.local_proto.drop_key(dst);
        self.init.remove(dst);
        self.buf_written.remove(dst);
        self.bounded.remove(dst);
        self.bounded_or_eq.remove(dst);
        let ghost v1 = self@;
        proof {
            let pts = if op == BinOp::Offset || op == BinOp::Add || op == BinOp::Sub {
                match tracked_operand(v, op1, op2) {
                    Some(l) => v.points_to.insert(dst, v.points_to[l]),
                    None => v.points_to.remove(dst),
                }
            } else {
                v.points_to.remove(dst)
            };
            assert(v1 =~= StateView {
                points_to: pts,
                local_proto: v.local_proto.remove(dst),
                init: v.init.remove(dst),
                buf_written: v.buf_written.remove(dst),
                bounded: v.bounded.remove(dst),
                bounded_or_eq: v.bounded_or_eq.remove(dst),
                ..v
            });
        }
        self.set_cmp_facts(dst, op, op1);
        if op == BinOp::Lt || op == BinOp::Ge || op == BinOp::Le || op == BinOp::Gt {
            if op == BinOp::Lt {
                self.record_spare(dst, op1, op2, true, false);
            } else if op == BinOp::Ge {
                self.record_spare(dst, op1, op2, false, false);
            } else if op == BinOp::Le {
                self.record_spare(dst, op1, op2, false, true);
            } else {
                self.record_spare(dst, op1, op2, true, true);
            }
            self.const_cmp(dst, op, op1, op2);
        } else if op == BinOp::Eq || op == BinOp::Ne {
            let eq = op == BinOp::Eq;
            self.record_full(dst, op1, op2, eq);
            let zl = match (operand_local(op1), const_u64(op2)) {
                (Some(l), Some(k)) if k == 0 => Some(l),
                _ => match (const_u64(op1), operand_local(op2)) {
                    (Some(k), Some(l)) if k == 0 => Some(l),
                    _ => None,
                },
            };
            match zl {
                Some(l) => {
                    if eq {
                        self.nonzero_if_false.insert(dst, l);
                    } else {
                        self.nonzero_if_true.insert(dst, l);
                    }
                },
                None => {},
            }
            match (operand_local(op1), operand_local(op2)) {
                (Some(a), Some(b)) => {
                    if eq {
                        self.eq_pair_if_true.insert(dst, (a, b));
                    } else {
                        self.ne_pair_if_true.insert(dst, (a, b));
                    }
                },
                _ => {},
            }
        } else if op == BinOp::BitOr {
            let lhs_nz = (match operand_local(op1) {
                Some(l) => self.nonzero.contains(l),
                None => false,
            }) || (match const_u64(op1) {
                Some(k) => k != 0,
                None => false,
            });
            let rhs_nz = (match operand_local(op2) {
                Some(l) => self.nonzero.contains(l),
                None => false,
            }) || (match const_u64(op2) {
                Some(k) => k != 0,
                None => false,
            });
            if lhs_nz || rhs_nz {
                self.nonzero.insert(dst);
            }
        }
        proof { assert(self@ =~= st_binary(v, dst, op, op1, op2)); }
    }

    fn constant(&mut self, dst: Local, op: &Operand)
        ensures
            final(self)@ == st_constant(old(self)@, dst, op),
    {
        match const_u64(op) {
            Some(k) => {
                if k != 0 {
                    self.nonzero.insert(dst);
                } else {
                    self.nonzero.remove(dst);
                }
                self.const_upper.insert(dst, k);
                self.const_lower.insert(dst, k);
            },
            None => {},
        }
        proof {
            assert(self@ =~= (match spec_const_u64(op) {
                Some(k) => StateView {
                    nonzero: if k != 0 { old(self)@.nonzero.insert(dst) } else { old(self)@.nonzero.remove(dst) },
                    const_upper: old(self)@.const_upper.insert(dst, k),
                    const_lower: old(self)@.const_lower.insert(dst, k),
                    ..old(self)@
                },
                None => old(self)@,
            }));
        }
        self.clear_basic_facts(dst);
    }

    fn unknown(&mut self, dst: Local, rv: &Rvalue)
        ensures
            final(self)@ == st_unknown(old(self)@, dst, rv),
    {
        self.clear_basic_facts(dst);
        if let Rvalue::Use(Operand::Move(p)) = rv {
            if p.projection.len() != 0 {
                self.clear_basic_facts(p.local);
            }
        }
    }

    fn rvalue_effect(&mut self, body: &Body, dst: Local, rv: &Rvalue)
        ensures
            final(self)@ == st_rvalue(old(self)@, body, dst, rv),
    {
        match rv {
            Rvalue::Use(Operand::Move(p)) if p.projection.len() == 0 => self.move_local_facts(p.local, dst),
            Rvalue::Use(Operand::Copy(p)) if p.projection.len() == 0 => self.copy_local_facts(p.local, dst),
            Rvalue::Use(Operand::Copy(p)) if place_deref_only_first(p) => self.alias_objects(p.local, dst),
            Rvalue::Use(Operand::Move(p)) if place_deref_only_first(p) => self.alias_objects(p.local, dst),
            Rvalue::Ref(p) if p.projection.len() == 0 => self.alias_objects_nonempty(p.local, dst),
            Rvalue::RawPtr(p) if place_is_single_deref(p) || p.projection.len() == 0 =>
                self.alias_objects_nonempty(p.local, dst),
            Rvalue::Aggregate(kind, ops) => self.aggregate(dst, *kind, ops),
            Rvalue::Cast(kind, Operand::Copy(p), _) if p.projection.len() == 0 && (*kind == CastKind::PtrToPtr || *kind == CastKind::Transmute) =>
                self.alias_objects(p.local, dst),
            Rvalue::Cast(kind, Operand::Move(p), _) if p.projection.len() == 0 && (*kind == CastKind::PtrToPtr || *kind == CastKind::Transmute) =>
                self.alias_objects(p.local, dst),
            Rvalue::Cast(kind, Operand::Copy(p), ty) if p.projection.len() == 0 && (*kind == CastKind::IntToInt
                || *kind == CastKind::IntToFloat || *kind == CastKind::FloatToInt || *kind == CastKind::FloatToFloat) =>
                self.numeric_cast(dst, p.local, *kind, ty),
            Rvalue::Cast(kind, Operand::Move(p), ty) if p.projection.len() == 0 && (*kind == CastKind::IntToInt
                || *kind == CastKind::IntToFloat || *kind == CastKind::FloatToInt || *kind == CastKind::FloatToFloat) =>
                self.numeric_cast(dst, p.local, *kind, ty),
            Rvalue::BinaryOp(op, op1, op2) => self.binary(dst, *op, op1, op2),
            Rvalue::Use(op) if matches!(op, Operand::Constant(_)) => self.constant(dst, op),
            _ => self.unknown(dst, rv),
        }
    }
}

fn operand_upper_of(state: &BlockState, op: &Operand) -> (r: Option<u64>)
    ensures
        r == operand_upper(state@, op),
{
    match const_u64(op) {
        Some(k) => Some(k),
        None => match operand_local(op) {
            Some(l) => state.const_upper.get_copy(l),
            None => None,
        },
    }
}

fn arith_small(state: &BlockState, op: BinOp, op1: &Operand, op2: &Operand) -> (r: bool)
    ensures
        r == arith_proven_small(state@, op, op1, op2),
{
    match (operand_upper_of(state, op1), operand_upper_of(state, op2)) {
        (Some(a), Some(b)) => if op == BinOp::Mul {
            match a.checked_mul(b) {
                Some(p) => p <= ISIZE_MAX,
                None => false,
            }
        } else {
            match a.checked_add(b) {
                Some(p) => p <= ISIZE_MAX,
                None => false,
            }
        },
        _ => false,
    }
}

fn carry_set(s: &mut VecSet<Local>, dst: Local, rv: &Rvalue, starts: bool)
    ensures
        final(s)@ == carried_after(old(s)@, dst, rv, starts),
{
    match rv {
        Rvalue::Use(Operand::Copy(p)) if p.projection.len() == 0 => {
            if s.contains(p.local) { s.insert(dst); } else { s.remove(dst); }
        },
        Rvalue::Use(Operand::Move(p)) if p.projection.len() == 0 => {
            if s.contains(p.local) {
                s.remove(p.local);
                s.insert(dst);
            } else {
                s.remove(dst);
            }
        },
        _ => {
            if starts { s.insert(dst); } else { s.remove(dst); }
        },
    }
}

fn casts_const_to_mut(body: &Body, rv: &Rvalue) -> (r: bool)
    ensures
        r == casts_away_const(body, rv),
{
    match rv {
        Rvalue::Cast(CastKind::PtrToPtr, op, ty) => match operand_local(op) {
            Some(src) => {
                let from_const = match body.ty_of(src) {
                    Ty::RawPtr(Mutability::Not) => true,
                    _ => false,
                };
                let to_mut = match ty {
                    Ty::RawPtr(Mutability::Mut) => true,
                    _ => false,
                };
                from_const && to_mut
            },
            None => false,
        },
        _ => false,
    }
}

fn overflowing_arith(state: &BlockState, rv: &Rvalue) -> (r: bool)
    ensures
        r == may_overflow(state@, rv),
{
    match rv {
        Rvalue::BinaryOp(op, op1, op2) => (*op == BinOp::Mul || *op == BinOp::Add) && !arith_small(state, *op, op1, op2),
        _ => false,
    }
}

/// Applies the effect of `stmt` to `state`.
pub fn apply_statement(state: &mut BlockState, body: &Body, stmt: &Statement)
    ensures
        final(state)@ == spec_apply_statement(old(state)@, body, stmt),
{
    let (dst, rvalue) = match stmt {
        Statement::Assign(dst, rv) => (dst, rv),
        Statement::Other => { return; },
    };
    // Any write to (a projection rooted at) a local breaks owner-aliases to it.
    state.invalidate_owner(dst.local);
    if dst.projection.len() != 0 {
        state.projected_store(dst, rvalue);
        return;
    }
    let d = dst.local;
    let ghost pre = state@;
    let starts_cast = casts_const_to_mut(body, rvalue);
    let starts_overflow = overflowing_arith(state, rvalue);
    let mut casts = state.const_ptr_cast.duplicate();
    let mut overflows = state.mul_overflow.duplicate();
    carry_set(&mut casts, d, rvalue, starts_cast);
    carry_set(&mut overflows, d, rvalue, starts_overflow);
    state.update_owner_alias(body, d, rvalue);
    state.update_fn_ptr_target(d, rvalue);
    // Redefining `d` invalidates every capacity and value-range fact about it.
    state.clear_range_facts(d);
    state.record_ref_base(d, rvalue);
    state.propagate_use(d, rvalue);
    state.record_ptr_metadata(d, rvalue);
    state.rvalue_effect(body, d, rvalue);
    // Facts every value of the declared type satisfies.
    state.enforce_type_facts(d, body.ty_of(d));
    // Pointers cast from `*const` and sizes that may have overflowed.
    state.const_ptr_cast = casts;
    state.mul_overflow = overflows;
    proof {
        assert(state@ =~= spec_apply_statement(old(state)@, body, stmt));
    }
}

} // verus!
