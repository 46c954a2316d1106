//! The transfer function of terminators: calls, assertions and drops.

use vstd::prelude::*;
use crate::analysis::facts::{
    clear_basic, clear_range, clear_scalar, copy_nonempty, first_arg_base_local, first_arg_local,
    is_guard_type, is_mut_ref_or_ptr_ty, is_mut_ref_ty, is_param, is_raw_ptr_ty, is_ref_ty,
    nth_arg_local, operand_local, spec_first_arg_base_local, spec_first_arg_local,
    spec_is_guard_type, spec_is_param, spec_nth_arg_local, spec_operand_local, type_facts,
};
use crate::analysis::object::{HeapState, InitState, ObjectId};
use crate::analysis::paths::{
    is_buf_write, is_epoch_pin, is_from_raw, is_from_raw_fd_call, is_global_ptr_copy_to_second_arg,
    is_into_raw, is_into_raw_fd, is_lock_acquire, is_maybe_uninit_assume_init, is_maybe_uninit_init,
    is_mem_forget, is_owned_buffer_accessor, is_ptr_pure_read, is_ptr_read, is_ptr_write_to_first_arg,
    is_raw_realloc, is_reallocating_method, spec_is_buf_write, spec_is_epoch_pin, spec_is_from_raw,
    spec_is_from_raw_fd_call, spec_is_global_ptr_copy_to_second_arg, spec_is_into_raw,
    spec_is_into_raw_fd, spec_is_lock_acquire, spec_is_maybe_uninit_assume_init,
    spec_is_maybe_uninit_init, spec_is_mem_forget, spec_is_owned_buffer_accessor,
    spec_is_ptr_pure_read, spec_is_ptr_read, spec_is_ptr_write_to_first_arg, spec_is_raw_realloc,
    spec_is_reallocating_method,
};
use crate::analysis::state::{BlockState, StateView, drop_owner, escape_local_view, set_at};
use crate::analysis::summary::{FnSummary, SummaryMap, apply_fn_summary, reconstitute, spec_apply_fn_summary};
use crate::analysis::typestate::{ProtocolId, ProtocolState};
use crate::collections::{VecSet, lemma_prefix_step};
use crate::mir::{BasicBlock, Body, DefId, Local, Operand, Place, TerminatorKind, Ty};
use crate::text::{ends_with, str_ends_with};

verus! {

/// Object ids for pointers made stale by a reallocation start here, clear of
/// block-index ids and summary ids.
pub const REALLOC_BASE: u32 = 0x4000_0000;

// ───────────────────────── the callee ─────────────────────────

/// The function a call reaches: a direct function item (or the
/// implementation its trait method resolves to), or the function a called
/// fn-pointer local was reified from.
pub open spec fn spec_callee(v: StateView, func: &Operand, resolved: Option<DefId>) -> Option<DefId> {
    match func.spec_const_fn_def() {
        Some(id) => Some(
            match resolved {
                Some(r) => r,
                None => id,
            },
        ),
        None => match spec_operand_local(func) {
            Some(l) => if v.fn_ptr_targets.contains_key(l) { Some(v.fn_ptr_targets[l]) } else { None },
            None => None,
        },
    }
}

// ───────────────────────── reallocation ─────────────────────────

/// The argument whose buffer the call may reallocate.
pub open spec fn realloc_recv(body: &Body, callee: Option<DefId>, args: Seq<Operand>, sums: Map<DefId, crate::analysis::summary::FnSummary>) -> Option<Local> {
    match callee {
        Some(id) => if spec_is_reallocating_method(body.spec_path_of(id)) {
            spec_first_arg_local(args)
        } else if sums.contains_key(id) && sums[id].reallocs_param is Some {
            spec_nth_arg_local(args, sums[id].reallocs_param->0 as int)
        } else {
            None
        },
        None => None,
    }
}

/// The owners of a reallocated receiver: what it aliases, or itself.
pub open spec fn realloc_owners(v: StateView, recv: Local) -> Set<Local> {
    if set_at(v.owner_alias, recv) != Set::<Local>::empty() { set_at(v.owner_alias, recv) } else { set![recv] }
}

pub open spec fn realloc_obj(p: Local) -> ObjectId {
    ObjectId(p.wrapping_add(REALLOC_BASE))
}

/// Non-reference handles aliasing one of `owners`.
pub open spec fn stale_handles(v: StateView, body: &Body, owners: Set<Local>) -> Set<Local> {
    Set::new(|p: Local| v.owner_alias.contains_key(p) && !v.owner_alias[p].disjoint(owners)
        && !is_ref_ty(body.spec_ty(p)))
}

pub open spec fn is_stale_obj(stale: Set<Local>, o: ObjectId) -> bool {
    exists|p: Local| stale.contains(p) && realloc_obj(p) == o
}

/// Every stale handle gets its own `MaybeFreed` object and loses its aliases.
pub open spec fn mark_stale(v: StateView, stale: Set<Local>) -> StateView {
    StateView {
        heap: Map::new(|o: ObjectId| v.heap.contains_key(o) || is_stale_obj(stale, o),
            |o: ObjectId| if is_stale_obj(stale, o) { HeapState::MaybeFreed } else { v.heap[o] }),
        points_to: Map::new(|l: Local| v.points_to.contains_key(l) || stale.contains(l),
            |l: Local| if stale.contains(l) { set![realloc_obj(l)] } else { v.points_to[l] }),
        owner_alias: v.owner_alias.remove_keys(stale),
        ..v
    }
}

/// The effect of reallocating the buffer behind `recv`.
pub open spec fn realloc_effect(v: StateView, body: &Body, recv: Local) -> StateView {
    let owners = realloc_owners(v, recv);
    let v1 = StateView {
        realloced_params: v.realloced_params.union(owners.filter(|o: Local| spec_is_param(body, o))),
        ..v
    };
    mark_stale(v1, stale_handles(v1, body, owners))
}

// ───────────────────────── broken aliases ─────────────────────────

/// `o` occurs in some alias set.
pub open spec fn is_live_owner(oa: Map<Local, Set<Local>>, o: Local) -> bool {
    exists|k: Local| oa.contains_key(k) && #[trigger] oa[k].contains(o)
}

/// Argument `i` is passed by `&mut` and is not the skipped one.
pub open spec fn mut_arg(body: &Body, args: Seq<Operand>, skip: Option<usize>, i: int) -> bool {
    0 <= i < args.len() && skip != Some(i as usize) && args[i].spec_place() is Some
        && is_mut_ref_ty(body.spec_ty(args[i].spec_place()->0.local))
}

/// Owners a call may reassign through its `&mut` arguments.
pub open spec fn reassigned_owners(v: StateView, body: &Body, args: Seq<Operand>, skip: Option<usize>) -> Set<Local> {
    Set::new(|o: Local| exists|i: int| #[trigger] mut_arg(body, args, skip, i) && {
        let l = args[i].spec_place()->0.local;
        set_at(v.owner_alias, l).contains(o) || (o == l && is_live_owner(v.owner_alias, o))
    })
}

/// Removes every owner of `s` from every alias set, dropping the entries this
/// empties (with no owner to remove, nothing changes).
pub open spec fn drop_owners(m: Map<Local, Set<Local>>, s: Set<Local>) -> Map<Local, Set<Local>> {
    if s == Set::<Local>::empty() {
        m
    } else {
        Map::new(|k: Local| m.contains_key(k) && m[k].difference(s) != Set::<Local>::empty(), |k: Local| m[k].difference(s))
    }
}

pub proof fn lemma_drop_owners_step(m: Map<Local, Set<Local>>, s: Set<Local>, o: Local)
    ensures
        drop_owner(drop_owners(m, s), o) == drop_owners(m, s.insert(o)),
{
    let a = drop_owner(drop_owners(m, s), o);
    let b = drop_owners(m, s.insert(o));
    assert(s.insert(o).contains(o));
    if s == Set::<Local>::empty() {
        assert forall|k: Local| m.contains_key(k) implies #[trigger] m[k].remove(o) =~= m[k].difference(s.insert(o)) by {}
        assert(a =~= b);
        return;
    }
    assert forall|k: Local| #[trigger] a.contains_key(k) implies a[k] == b[k] by {
        assert(m[k].difference(s).remove(o) =~= m[k].difference(s.insert(o)));
    }
    assert forall|k: Local| a.contains_key(k) <==> #[trigger] b.contains_key(k) by {
        if m.contains_key(k) {
            assert(m[k].difference(s).remove(o) =~= m[k].difference(s.insert(o)));
            if m[k].difference(s) == Set::<Local>::empty() {
                assert(m[k].difference(s.insert(o)) =~= Set::<Local>::empty()) by {
                    assert forall|x: Local| !m[k].difference(s.insert(o)).contains(x) by {
                        assert(!m[k].difference(s).contains(x));
                    }
                }
            }
        }
    }
    assert(a =~= b);
}

// ───────────────────────── capacity facts ─────────────────────────

/// Collections passed by `&mut` / `*mut` (through any reborrow).
pub open spec fn mutated_collections(v: StateView, body: &Body, args: Seq<Operand>) -> Set<Local> {
    Set::new(|b: Local| exists|i: int| 0 <= i < args.len() && #[trigger] spec_operand_local(&args[i]) is Some && {
        let l = spec_operand_local(&args[i])->0;
        is_mut_ref_or_ptr_ty(body.spec_ty(l)) && b == (if v.ref_base.contains_key(l) { v.ref_base[l] } else { l })
    })
}

// ───────────────────────── escaping arguments ─────────────────────────

/// Escapes, in order, the first `n` arguments that are raw pointers or
/// carry tracked objects.
pub open spec fn escape_args(v: StateView, body: &Body, args: Seq<Operand>, n: nat) -> StateView
    decreases n,
{
    if n == 0 || n > args.len() {
        v
    } else {
        let w = escape_args(v, body, args, (n - 1) as nat);
        match spec_operand_local(&args[n - 1]) {
            Some(l) => if is_raw_ptr_ty(body.spec_ty(l)) || w.points_to.contains_key(l) { escape_local_view(w, l) } else { w },
            None => w,
        }
    }
}

// ───────────────────────── facts about the result ─────────────────────────

pub open spec fn base_of(v: StateView, l: Local) -> Local {
    if v.ref_base.contains_key(l) { v.ref_base[l] } else { l }
}

/// A `len()` / `capacity()` result is attributed to the receiver collection.
pub open spec fn size_facts(v: StateView, args: Seq<Operand>, dest: Local, path: Seq<char>) -> StateView {
    if ends_with(path, "::len"@) || ends_with(path, "::capacity"@) {
        match spec_first_arg_local(args) {
            Some(recv) => if ends_with(path, "::capacity"@) {
                StateView { cap_of: v.cap_of.insert(dest, base_of(v, recv)), ..v }
            } else {
                StateView { len_of: v.len_of.insert(dest, base_of(v, recv)), ..v }
            },
            None => v,
        }
    } else {
        v
    }
}

/// `is_nan()` / `is_finite()` results, for the finiteness domain.
pub open spec fn float_test_facts(v: StateView, args: Seq<Operand>, dest: Local, path: Seq<char>) -> StateView {
    if ends_with(path, "::is_nan"@) {
        match spec_first_arg_local(args) {
            Some(recv) => StateView { nan_if_true: v.nan_if_true.insert(dest, recv), ..v },
            None => v,
        }
    } else if ends_with(path, "::is_finite"@) {
        match spec_first_arg_local(args) {
            Some(recv) => StateView { finite_if_true: v.finite_if_true.insert(dest, recv), ..v },
            None => v,
        }
    } else {
        v
    }
}

/// `deref()` / `deref_mut()` yield a view of the receiver's collection.
pub open spec fn deref_facts(v: StateView, args: Seq<Operand>, dest: Local, path: Seq<char>) -> StateView {
    if ends_with(path, "::deref"@) || ends_with(path, "::deref_mut"@) {
        match spec_first_arg_local(args) {
            Some(recv) => StateView { ref_base: v.ref_base.insert(dest, base_of(v, recv)), ..v },
            None => v,
        }
    } else {
        v
    }
}

/// Raw file descriptors: `into_raw_fd` produces one, `from_raw_fd` consumes it.
pub open spec fn fd_facts(v: StateView, args: Seq<Operand>, dest: Local, path: Seq<char>) -> StateView {
    if spec_is_into_raw_fd(path) {
        StateView { fd_origin: v.fd_origin.insert(dest), ..v }
    } else if spec_is_from_raw_fd_call(path) {
        match spec_first_arg_local(args) {
            Some(a) => StateView { fd_consumed: v.fd_consumed.insert(a), ..v },
            None => v,
        }
    } else {
        v
    }
}

/// A spawned thread makes later environment access concurrent.
pub open spec fn spawn_facts(v: StateView, path: Seq<char>) -> StateView {
    if ends_with(path, "thread::spawn"@) || ends_with(path, "Builder::spawn"@) || ends_with(path, "Builder::spawn_unchecked"@) {
        StateView { thread_spawned: true, ..v }
    } else {
        v
    }
}

/// `PartialEq::ne` / `eq` calls record the compared referents.
pub open spec fn pair_facts(v: StateView, args: Seq<Operand>, dest: Local, path: Seq<char>) -> StateView {
    if (ends_with(path, "::ne"@) || ends_with(path, "::eq"@)) && args.len() == 2 {
        match (spec_nth_arg_local(args, 0), spec_nth_arg_local(args, 1)) {
            (Some(a), Some(b)) => if ends_with(path, "::ne"@) {
                StateView { ne_pair_if_true: v.ne_pair_if_true.insert(dest, (base_of(v, a), base_of(v, b))), ..v }
            } else {
                StateView { eq_pair_if_true: v.eq_pair_if_true.insert(dest, (base_of(v, a), base_of(v, b))), ..v }
            },
            _ => v,
        }
    } else {
        v
    }
}

/// What the callee's name says about the result: a `len()` / `capacity()`
/// of a collection, a NaN / finiteness test, a deref view, a raw fd, a thread
/// spawn, or an (in)equality of two values.
pub open spec fn dest_facts(v: StateView, args: Seq<Operand>, dest: Local, path: Seq<char>) -> StateView {
    pair_facts(
        spawn_facts(fd_facts(deref_facts(float_test_facts(size_facts(v, args, dest, path), args, dest, path), args, dest, path), args, dest, path), path),
        args, dest, path)
}

// ───────────────────────── the callee's effect ─────────────────────────

/// `clear_scalar` without the protocol entry.
pub open spec fn clear_facts(v: StateView, l: Local) -> StateView {
    StateView { local_proto: v.local_proto, ..clear_scalar(v, l) }
}

/// All objects of `objs` become `Escaped`, whatever their state.
pub open spec fn forget_objects(h: Map<ObjectId, HeapState>, objs: Set<ObjectId>) -> Map<ObjectId, HeapState> {
    Map::new(|o: ObjectId| h.contains_key(o) || objs.contains(o),
        |o: ObjectId| if objs.contains(o) { HeapState::Escaped } else { h[o] })
}

/// Every protocol of `ps` enters state `st`.
pub open spec fn mark_protocols(t: Map<ProtocolId, ProtocolState>, ps: Set<ProtocolId>, st: ProtocolState) -> Map<ProtocolId, ProtocolState> {
    Map::new(|p: ProtocolId| t.contains_key(p) || ps.contains(p), |p: ProtocolId| if ps.contains(p) { st } else { t[p] })
}

/// `dest` receives a fresh `RawOwned` object for block `bb`.
pub open spec fn fresh_owned(v: StateView, dest: Local, bb: BasicBlock) -> StateView {
    StateView {
        points_to: v.points_to.insert(dest, set![ObjectId(bb)]),
        heap: v.heap.insert(ObjectId(bb), HeapState::RawOwned),
        ..v
    }
}

/// `dest` takes what the first argument points to, if it points anywhere.
pub open spec fn take_first_arg_objects(v: StateView, args: Seq<Operand>, dest: Local) -> StateView {
    match spec_first_arg_local(args) {
        Some(src) => StateView { points_to: copy_nonempty(v.points_to, dest, src), ..v },
        None => StateView { points_to: v.points_to.remove(dest), ..v },
    }
}

pub open spec fn eff_realloc(v: StateView, args: Seq<Operand>, dest: Local, bb: BasicBlock) -> StateView {
    let v1 = match spec_first_arg_local(args) {
        Some(src) => v.with_heap(reconstitute(v.heap, set_at(v.points_to, src))),
        None => v,
    };
    clear_facts(fresh_owned(v1, dest, bb), dest)
}

pub open spec fn eff_from_raw(v: StateView, args: Seq<Operand>, dest: Local) -> StateView {
    let src = match spec_first_arg_local(args) {
        Some(l) => Some(l),
        None => spec_first_arg_base_local(args),
    };
    let v1 = match src {
        Some(l) => v.with_heap(reconstitute(v.heap, set_at(v.points_to, l))),
        None => v,
    };
    let oa = v1.owner_alias.remove(dest);
    let oa2 = match src {
        Some(l) => if oa.contains_key(l) { oa.insert(dest, oa[l]) } else { oa },
        None => oa,
    };
    clear_facts(StateView {
        points_to: v1.points_to.remove(dest),
        local_proto: v1.local_proto.remove(dest),
        owner_alias: oa2,
        ..v1
    }, dest)
}

pub open spec fn eff_forget(v: StateView, body: &Body, args: Seq<Operand>, dest: Local) -> StateView {
    let v1 = match spec_first_arg_base_local(args) {
        Some(src) => {
            let protos = set_at(v.local_proto, src);
            StateView {
                heap: forget_objects(v.heap, set_at(v.points_to, src)),
                points_to: v.points_to.remove(src),
                local_proto: v.local_proto.remove(src),
                typestate: mark_protocols(v.typestate, protos, ProtocolState::Forgotten),
                untracked_forget_seen: v.untracked_forget_seen || (protos == Set::<ProtocolId>::empty()
                    && spec_is_guard_type(body.spec_ty(src))),
                init: v.init.remove(src),
                buf_written: v.buf_written.remove(src),
                ..v
            }
        },
        None => v,
    };
    clear_basic(v1, dest)
}

/// A protocol instance for block `bb` starts, held by `dest`.
pub open spec fn eff_protocol(v: StateView, dest: Local, bb: BasicBlock) -> StateView {
    clear_facts(StateView {
        local_proto: v.local_proto.insert(dest, set_at(v.local_proto, dest).insert(ProtocolId(bb))),
        typestate: v.typestate.insert(ProtocolId(bb), ProtocolState::Active),
        ..v
    }, dest)
}

pub open spec fn eff_assume_init(v: StateView, args: Seq<Operand>, dest: Local) -> StateView {
    let v1 = match spec_first_arg_local(args) {
        Some(src) => StateView { init: v.init.remove(src), ..v },
        None => v,
    };
    clear_scalar(take_first_arg_objects(v1, args, dest), dest)
}

pub open spec fn eff_uninit_init(v: StateView, args: Seq<Operand>, dest: Local) -> StateView {
    let v1 = clear_scalar(take_first_arg_objects(v, args, dest), dest);
    StateView { init: v1.init.insert(dest, InitState::Initialized), ..v1 }
}

pub open spec fn eff_buf_write(v: StateView, args: Seq<Operand>, dest: Local) -> StateView {
    let v1 = match spec_first_arg_local(args) {
        Some(b) => StateView { buf_written: v.buf_written.insert(b), ..v },
        None => v,
    };
    clear_basic(v1, dest)
}

pub open spec fn eff_summary(v: StateView, args: Seq<Operand>, dest: Local, bb: BasicBlock,
    s: crate::analysis::summary::FnSummary, path: Seq<char>) -> StateView
{
    let v1 = spec_apply_fn_summary(v, args, dest, bb, s.param_effects@, s.returns_raw_owned);
    let v2 = if spec_is_owned_buffer_accessor(path) && !v1.points_to.contains_key(dest) {
        match spec_first_arg_local(args) {
            Some(a) => if v1.points_to.contains_key(a) && v1.points_to[a] != Set::<ObjectId>::empty() {
                StateView { points_to: v1.points_to.insert(dest, v1.points_to[a]), ..v1 }
            } else {
                v1
            },
            None => v1,
        }
    } else {
        v1
    };
    clear_facts(v2, dest)
}

pub open spec fn eff_unknown(v: StateView, body: &Body, args: Seq<Operand>, dest: Local, path: Seq<char>) -> StateView {
    let v1 = if spec_is_owned_buffer_accessor(path) {
        match spec_first_arg_local(args) {
            Some(a) => {
                let oa = if v.owner_alias.contains_key(a) && v.owner_alias[a] != Set::<Local>::empty() {
                    v.owner_alias.insert(dest, v.owner_alias[a])
                } else {
                    v.owner_alias
                };
                let pts = if v.points_to.contains_key(a) && v.points_to[a] != Set::<ObjectId>::empty() {
                    v.points_to.insert(dest, v.points_to[a])
                } else {
                    v.points_to
                };
                StateView { owner_alias: oa, points_to: pts, ..v }
            },
            None => v,
        }
    } else if spec_is_ptr_write_to_first_arg(path) {
        match spec_first_arg_local(args) {
            Some(d) => StateView { buf_written: v.buf_written.union(set_at(v.owner_alias, d)), ..v },
            None => v,
        }
    } else if spec_is_global_ptr_copy_to_second_arg(path) {
        match spec_nth_arg_local(args, 1) {
            Some(d) => StateView { buf_written: v.buf_written.union(set_at(v.owner_alias, d)), ..v },
            None => v,
        }
    } else if spec_is_ptr_pure_read(path) {
        v
    } else {
        escape_args(v, body, args, args.len())
    };
    clear_scalar(v1, dest)
}

/// What the callee named `path` does, by the first rule that applies.
pub open spec fn call_effect(v: StateView, body: &Body, bb: BasicBlock, args: Seq<Operand>, dest: Local,
    path: Seq<char>, id: DefId, sums: Map<DefId, crate::analysis::summary::FnSummary>) -> StateView
{
    if spec_is_raw_realloc(path) {
        eff_realloc(v, args, dest, bb)
    } else if spec_is_into_raw(path) {
        clear_facts(fresh_owned(v, dest, bb), dest)
    } else if spec_is_from_raw(path) {
        eff_from_raw(v, args, dest)
    } else if spec_is_mem_forget(path) {
        eff_forget(v, body, args, dest)
    } else if spec_is_epoch_pin(path) || spec_is_lock_acquire(path) {
        eff_protocol(v, dest, bb)
    } else if spec_is_maybe_uninit_assume_init(path) {
        eff_assume_init(v, args, dest)
    } else if spec_is_maybe_uninit_init(path) {
        eff_uninit_init(v, args, dest)
    } else if spec_is_buf_write(path) {
        eff_buf_write(v, args, dest)
    } else if spec_is_ptr_read(path) {
        clear_scalar(take_first_arg_objects(v, args, dest), dest)
    } else if sums.contains_key(id) {
        eff_summary(v, args, dest, bb, sums[id], path)
    } else {
        eff_unknown(v, body, args, dest, path)
    }
}

/// The effect of a call terminator in block `bb`.
pub open spec fn spec_call(v: StateView, body: &Body, bb: BasicBlock, func: &Operand, resolved: Option<DefId>,
    args: Seq<Operand>, destination: &Place, sums: Map<DefId, crate::analysis::summary::FnSummary>) -> StateView
{
    let callee = spec_callee(v, func, resolved);
    let v1 = match realloc_recv(body, callee, args, sums) {
        Some(r) => realloc_effect(v, body, r),
        None => v,
    };
    let skip = match callee {
        Some(id) => if sums.contains_key(id) { sums[id].returns_alias_of_param } else { None },
        None => None,
    };
    let v2 = v1.with_owner_alias(drop_owners(v1.owner_alias, reassigned_owners(v1, body, args, skip)));
    let v3 = v2.with_owner_alias(drop_owner(v2.owner_alias, destination.local).remove(destination.local));
    let gone = mutated_collections(v3, body, args);
    let v4 = StateView { has_spare: v3.has_spare.difference(gone), is_full: v3.is_full.difference(gone), ..v3 };
    match callee {
        None => escape_args(v4, body, args, args.len()),
        Some(id) => if destination.projection@.len() != 0 {
            escape_args(v4, body, args, args.len())
        } else {
            let dest = destination.local;
            let path = body.spec_path_of(id);
            let v5 = dest_facts(clear_range(v4, dest), args, dest, path);
            let v6 = call_effect(v5, body, bb, args, dest, path, id, sums);
            type_facts(v6, dest, body.spec_ty(dest))
        },
    }
}

/// `assert(cond == expected)` proves the comparison behind `cond`.
pub open spec fn spec_assert(v: StateView, cond: &Operand, expected: bool) -> StateView {
    match cond.spec_place() {
        Some(p) => if p.projection@.len() == 0 {
            let c = p.local;
            if expected {
                let b1 = if v.lt_facts.contains_key(c) { v.bounded.insert(v.lt_facts[c]) } else { v.bounded };
                let b2 = if v.le_facts.contains_key(c) { v.bounded_or_eq.insert(v.le_facts[c]) } else { v.bounded_or_eq };
                StateView { bounded: b1, bounded_or_eq: b2, ..v }
            } else {
                let b1 = if v.ge_facts.contains_key(c) { v.bounded.insert(v.ge_facts[c]) } else { v.bounded };
                let b2 = if v.gt_facts.contains_key(c) { v.bounded_or_eq.insert(v.gt_facts[c]) } else { v.bounded_or_eq };
                StateView { bounded: b1, bounded_or_eq: b2, ..v }
            }
        } else {
            v
        },
        None => v,
    }
}

/// Dropping a local consumes the protocols it holds and stops tracking it
/// (its objects stay in the heap, so a leak remains visible).
pub open spec fn spec_drop(v: StateView, place: &Place) -> StateView {
    if place.projection@.len() == 0 {
        let l = place.local;
        StateView {
            typestate: mark_protocols(v.typestate, set_at(v.local_proto, l), ProtocolState::Consumed),
            local_proto: v.local_proto.remove(l),
            points_to: v.points_to.remove(l),
            init: v.init.remove(l),
            buf_written: v.buf_written.remove(l),
            ..v
        }
    } else {
        v
    }
}

/// The effect of the terminator of block `bb`.
pub open spec fn spec_apply_terminator(v: StateView, body: &Body, bb: BasicBlock, term: &TerminatorKind,
    sums: Map<DefId, crate::analysis::summary::FnSummary>) -> StateView
{
    match term {
        TerminatorKind::Call { func, resolved, args, destination, .. } =>
            spec_call(v, body, bb, func, *resolved, args@, destination, sums),
        TerminatorKind::Assert { cond, expected, .. } => spec_assert(v, cond, *expected),
        TerminatorKind::Drop { place, .. } => spec_drop(v, place),
        _ => v,
    }
}

// ───────────────────────── implementation ─────────────────────────

pub fn callee(state: &BlockState, func: &Operand, resolved: Option<DefId>) -> (r: Option<DefId>)
    ensures
        r == spec_callee(state@, func, resolved),
{
    match func.const_fn_def() {
        Some(id) => Some(
            match resolved {
                Some(r) => r,
                None => id,
            },
        ),
        None => match operand_local(func) {
            Some(l) => state.fn_ptr_targets.get_copy(l),
            None => None,
        },
    }
}

fn realloc_receiver(body: &Body, callee: Option<DefId>, args: &Vec<Operand>, sums: &SummaryMap) -> (r: Option<Local>)
    ensures
        r == realloc_recv(body, callee, args@, sums@),
{
    match callee {
        Some(id) => {
            let path = body.path_of(id);
            if is_reallocating_method(path.as_str()) {
                first_arg_local(args)
            } else {
                match sums.get(id) {
                    Some(s) => match s.reallocs_param {
                        Some(n) => nth_arg_local(args, n),
                        None => None,
                    },
                    None => None,
                }
            }
        },
        None => None,
    }
}

fn is_mut_ref(body: &Body, l: Local) -> (r: bool)
    ensures
        r == is_mut_ref_ty(body.spec_ty(l)),
{
    match body.ty_of(l) {
        Ty::Ref(m, _) => *m == crate::mir::Mutability::Mut,
        _ => false,
    }
}

fn is_mut_ref_or_ptr(body: &Body, l: Local) -> (r: bool)
    ensures
        r == is_mut_ref_or_ptr_ty(body.spec_ty(l)),
{
    match body.ty_of(l) {
        Ty::Ref(m, _) => *m == crate::mir::Mutability::Mut,
        Ty::RawPtr(m) => *m == crate::mir::Mutability::Mut,
        _ => false,
    }
}

fn operand_place(op: &Operand) -> (r: Option<&Place>)
    ensures
        r == op.spec_place(),
{
    match op {
        Operand::Copy(p) | Operand::Move(p) => Some(p),
        _ => None,
    }
}

fn sets_disjoint(a: &VecSet<Local>, b: &VecSet<Local>) -> (r: bool)
    ensures
        r == a@.disjoint(b@),
{
    a.lemma_elems();
    let mut i: usize = 0;
    while i < a.len()
        invariant
            i <= a.elems().len(),
            forall|x: Local| a@.contains(x) <==> a.elems().contains(x),
            forall|j: int| 0 <= j < i ==> !b@.contains(#[trigger] a.elems()[j]),
        decreases a.elems().len() - i,
    {
        if b.contains(a.at(i)) {
            proof { assert(a@.contains(a.elems()[i as int])); }
            return false;
        }
        i = i + 1;
    }
    proof {
        assert forall|x: Local| a@.contains(x) implies !b@.contains(x) by {
            let j = choose|j: int| 0 <= j < a.elems().len() && a.elems()[j] == x;
        }
    }
    true
}

impl BlockState {
    /// The owners of `recv`'s buffer, recorded when they are parameters.
    fn record_realloced_params(&mut self, body: &Body, owners: &VecSet<Local>)
        ensures
            final(self)@ == (StateView {
                realloced_params: old(self)@.realloced_params.union(owners@.filter(|o: Local| spec_is_param(body, o))),
                ..old(self)@
            }),
    {
        owners.lemma_elems();
        let ghost es = owners.elems();
        let ghost start = self@;
        let mut i: usize = 0;
        while i < owners.len()
            invariant
                es == owners.elems(),
                i <= es.len(),
                forall|x: Local| owners@.contains(x) <==> es.contains(x),
                self@ == (StateView {
                    realloced_params: start.realloced_params.union(es.subrange(0, i as int).to_set().filter(|o: Local| spec_is_param(body, o))),
                    ..start
                }),
            decreases es.len() - i,
        {
            let o = owners.at(i);
            if is_param(body, o) {
                self.realloced_params.insert(o);
            }
            proof {
                lemma_prefix_step(es, i as int);
                assert(self.realloced_params@ =~= start.realloced_params.union(es.subrange(0, i + 1).to_set().filter(|o: Local| spec_is_param(body, o))));
                assert(self@ =~= (StateView {
                    realloced_params: start.realloced_params.union(es.subrange(0, i + 1).to_set().filter(|o: Local| spec_is_param(body, o))),
                    ..start
                }));
            }
            i = i + 1;
        }
        proof {
            assert(es.subrange(0, i as int) =~= es);
            assert(es.to_set() =~= owners@);
        }
    }

    /// The non-reference handles aliasing one of `owners`.
    fn stale_handles(&self, body: &Body, owners: &VecSet<Local>) -> (r: VecSet<Local>)
        ensures
            r@ == stale_handles(self@, body, owners@),
    {
        self.owner_alias.lemma_seqs();
        let ghost ks = self.owner_alias.key_seq();
        let mut r: VecSet<Local> = VecSet::new();
        let mut i: usize = 0;
        while i < self.owner_alias.len()
            invariant
                ks == self.owner_alias.key_seq(),
                i <= ks.len(),
                ks.len() == self.owner_alias.val_seq().len(),
                forall|j: int| 0 <= j < ks.len() ==> #[trigger] self.owner_alias@.contains_key(ks[j])
                    && self.owner_alias@[ks[j]] == self.owner_alias.val_seq()[j],
                forall|k: Local| #[trigger] self.owner_alias@.contains_key(k) <==> ks.contains(k),
                r@ == stale_handles(self@, body, owners@).intersect(ks.subrange(0, i as int).to_set()),
            decreases ks.len() - i,
        {
            let p = self.owner_alias.key_at(i);
            let stale = !sets_disjoint(self.owner_alias.val_at(i), owners)
                && !matches!(body.ty_of(p), Ty::Ref(..));
            if stale {
                r.insert(p);
            }
            proof {
                lemma_prefix_step(ks, i as int);
                assert(self.owner_alias@.contains_key(ks[i as int]));
                assert(r@ =~= stale_handles(self@, body, owners@).intersect(ks.subrange(0, i + 1).to_set()));
            }
            i = i + 1;
        }
        proof {
            assert(ks.subrange(0, i as int) =~= ks);
            assert(r@ =~= stale_handles(self@, body, owners@));
        }
        r
    }

    /// Gives each stale handle its own `MaybeFreed` object.
    fn mark_stale(&mut self, stale: &VecSet<Local>)
        ensures
            final(self)@ == mark_stale(old(self)@, stale@),
    {
        stale.lemma_elems();
        let ghost es = stale.elems();
        let ghost start = self@;
        let mut i: usize = 0;
        while i < stale.len()
            invariant
                es == stale.elems(),
                i <= es.len(),
                forall|x: Local| stale@.contains(x) <==> es.contains(x),
                self@ == mark_stale(start, es.subrange(0, i as int).to_set()),
            decreases es.len() - i,
        {
            let p = stale.at(i);
            let obj = ObjectId(p.wrapping_add(REALLOC_BASE));
            self.heap.insert(obj, HeapState::MaybeFreed);
            self.points_to.put(p, VecSet::singleton(obj));
            self.owner_alias.drop_key(p);
            proof {
                lemma_prefix_step(es, i as int);
                let s0 = es.subrange(0, i as int).to_set();
                let s1 = es.subrange(0, i + 1).to_set();
                assert forall|o: ObjectId| is_stale_obj(s1, o) <==> (is_stale_obj(s0, o) || o == realloc_obj(p)) by {
                    if is_stale_obj(s1, o) {
                        let q = choose|q: Local| s1.contains(q) && realloc_obj(q) == o;
                        if q != p {
                            assert(s0.contains(q));
                        }
                    }
                    if o == realloc_obj(p) {
                        assert(s1.contains(p));
                    }
                }
                assert(self@ =~= mark_stale(start, s1));
            }
            i = i + 1;
        }
        proof {
            assert(es.subrange(0, i as int) =~= es);
            assert(es.to_set() =~= stale@);
        }
    }

    /// The effect of reallocating the buffer behind `recv`.
    fn realloc_effect(&mut self, body: &Body, recv: Local)
        ensures
            final(self)@ == realloc_effect(old(self)@, body, recv),
    {
        let aliased = self.owners_of(recv);
        let owners = if aliased.is_empty() { VecSet::singleton(recv) } else { aliased };
        self.record_realloced_params(body, &owners);
        let stale = self.stale_handles(body, &owners);
        self.mark_stale(&stale);
    }

    /// Owners a call may reassign through its `&mut` arguments.
    fn reassigned_owners(&self, body: &Body, args: &Vec<Operand>, skip: Option<usize>) -> (r: VecSet<Local>)
        ensures
            r@ == reassigned_owners(self@, body, args@, skip),
    {
        let mut r: VecSet<Local> = VecSet::new();
        let mut i: usize = 0;
        while i < args.len()
            invariant
                i <= args@.len(),
                forall|o: Local| r@.contains(o) <==> exists|j: int| 0 <= j < i && #[trigger] mut_arg(body, args@, skip, j) && {
                    let l = args@[j].spec_place()->0.local;
                    set_at(self@.owner_alias, l).contains(o) || (o == l && is_live_owner(self@.owner_alias, o))
                },
            decreases args@.len() - i,
        {
            let ghost before = r@;
            if skip != Some(i) {
                match operand_place(&args[i]) {
                    Some(p) => {
                        if is_mut_ref(body, p.local) {
                            let l = p.local;
                            let owners = self.owners_of(l);
                            r.union_with(&owners);
                            let live = self.owner_alias.mentions(l);
                            proof {
                                if live {
                                    let k = choose|k: Local| self.owner_alias@.contains_key(k) && #[trigger] self.owner_alias@[k]@.contains(l);
                                    assert(self@.owner_alias.contains_key(k) && self@.owner_alias[k].contains(l));
                                } else {
                                    assert forall|k: Local| self@.owner_alias.contains_key(k) implies !#[trigger] self@.owner_alias[k].contains(l) by {
                                        assert(self.owner_alias@.contains_key(k));
                                    }
                                }
                                assert(live == is_live_owner(self@.owner_alias, l));
                            }
                            if live {
                                r.insert(l);
                            }
                        }
                    },
                    None => {},
                }
            }
            proof {
                assert forall|o: Local| r@.contains(o) <==> exists|j: int| 0 <= j < i + 1 && #[trigger] mut_arg(body, args@, skip, j) && {
                    let l = args@[j].spec_place()->0.local;
                    set_at(self@.owner_alias, l).contains(o) || (o == l && is_live_owner(self@.owner_alias, o))
                } by {
                    if r@.contains(o) && !before.contains(o) {
                        assert(mut_arg(body, args@, skip, i as int));
                    }
                }
            }
            i = i + 1;
        }
        proof {
            assert(r@ =~= reassigned_owners(self@, body, args@, skip));
        }
        r
    }

    /// Breaks every alias to each owner of `owners`.
    fn drop_owners(&mut self, owners: &VecSet<Local>)
        ensures
            final(self)@ == old(self)@.with_owner_alias(drop_owners(old(self)@.owner_alias, owners@)),
    {
        owners.lemma_elems();
        let ghost es = owners.elems();
        let ghost start = self@;
        proof {
            assert(es.subrange(0, 0).to_set() =~= Set::<Local>::empty());
            assert(self@ =~= start.with_owner_alias(start.owner_alias));
        }
        let mut i: usize = 0;
        while i < owners.len()
            invariant
                es == owners.elems(),
                i <= es.len(),
                forall|x: Local| owners@.contains(x) <==> es.contains(x),
                self@ == start.with_owner_alias(drop_owners(start.owner_alias, es.subrange(0, i as int).to_set())),
            decreases es.len() - i,
        {
            let o = owners.at(i);
            self.invalidate_owner(o);
            proof {
                lemma_prefix_step(es, i as int);
                lemma_drop_owners_step(start.owner_alias, es.subrange(0, i as int).to_set(), o);
                assert(self@ =~= start.with_owner_alias(drop_owners(start.owner_alias, es.subrange(0, i + 1).to_set())));
            }
            i = i + 1;
        }
        proof {
            assert(es.subrange(0, i as int) =~= es);
            assert(es.to_set() =~= owners@);
        }
    }

    /// Forgets spare-capacity and fullness proofs of collections passed by
    /// `&mut` / `*mut`.
    fn forget_capacity_of_mut_args(&mut self, body: &Body, args: &Vec<Operand>)
        ensures
            final(self)@ == (StateView {
                has_spare: old(self)@.has_spare.difference(mutated_collections(old(self)@, body, args@)),
                is_full: old(self)@.is_full.difference(mutated_collections(old(self)@, body, args@)),
                ..old(self)@
            }),
    {
        let ghost start = self@;
        let mut i: usize = 0;
        while i < args.len()
            invariant
                i <= args@.len(),
                self.ref_base@ == start.ref_base,
                self@ == (StateView {
                    has_spare: start.has_spare.difference(mutated_collections(start, body, args@.subrange(0, i as int))),
                    is_full: start.is_full.difference(mutated_collections(start, body, args@.subrange(0, i as int))),
                    ..start
                }),
            decreases args@.len() - i,
        {
            let ghost pre = args@.subrange(0, i as int);
            let ghost post = args@.subrange(0, i + 1);
            let ghost bpre = mutated_collections(start, body, pre);
            let ghost bpost = mutated_collections(start, body, post);
            match operand_local(&args[i]) {
                Some(l) => {
                    if is_mut_ref_or_ptr(body, l) {
                        let base = self.deref_base(l);
                        self.has_spare.remove(base);
                        self.is_full.remove(base);
                        proof {
                            assert forall|b: Local| bpost.contains(b) <==> (bpre.contains(b) || b == base) by {
                                if bpost.contains(b) {
                                    let j = choose|j: int| 0 <= j < post.len() && #[trigger] spec_operand_local(&post[j]) is Some && {
                                        let l2 = spec_operand_local(&post[j])->0;
                                        is_mut_ref_or_ptr_ty(body.spec_ty(l2)) && b == (if start.ref_base.contains_key(l2) { start.ref_base[l2] } else { l2 })
                                    };
                                    if j < i {
                                        assert(pre[j] == post[j]);
                                    }
                                }
                                if bpre.contains(b) {
                                    let j = choose|j: int| 0 <= j < pre.len() && #[trigger] spec_operand_local(&pre[j]) is Some && {
                                        let l2 = spec_operand_local(&pre[j])->0;
                                        is_mut_ref_or_ptr_ty(body.spec_ty(l2)) && b == (if start.ref_base.contains_key(l2) { start.ref_base[l2] } else { l2 })
                                    };
                                    assert(pre[j] == post[j]);
                                }
                                if b == base {
                                    assert(post[i as int] == args@[i as int]);
                                    assert(spec_operand_local(&post[i as int]) is Some);
                                }
                            }
                            assert(self.has_spare@ =~= start.has_spare.difference(bpost));
                            assert(self.is_full@ =~= start.is_full.difference(bpost));
                        }
                    } else {
                        proof {
                            assert forall|b: Local| bpost.contains(b) <==> bpre.contains(b) by {
                                if bpost.contains(b) {
                                    let j = choose|j: int| 0 <= j < post.len() && #[trigger] spec_operand_local(&post[j]) is Some && {
                                        let l2 = spec_operand_local(&post[j])->0;
                                        is_mut_ref_or_ptr_ty(body.spec_ty(l2)) && b == (if start.ref_base.contains_key(l2) { start.ref_base[l2] } else { l2 })
                                    };
                                    if j < i {
                                        assert(pre[j] == post[j]);
                                    } else {
                                        assert(post[j] == args@[i as int]);
                                    }
                                }
                                if bpre.contains(b) {
                                    let j = choose|j: int| 0 <= j < pre.len() && #[trigger] spec_operand_local(&pre[j]) is Some && {
                                        let l2 = spec_operand_local(&pre[j])->0;
                                        is_mut_ref_or_ptr_ty(body.spec_ty(l2)) && b == (if start.ref_base.contains_key(l2) { start.ref_base[l2] } else { l2 })
                                    };
                                    assert(pre[j] == post[j]);
                                }
                            }
                            assert(bpost =~= bpre);
                        }
                    }
                },
                None => {
                    proof {
                        assert forall|b: Local| bpost.contains(b) <==> bpre.contains(b) by {
                            if bpost.contains(b) {
                                let j = choose|j: int| 0 <= j < post.len() && #[trigger] spec_operand_local(&post[j]) is Some && {
                                    let l2 = spec_operand_local(&post[j])->0;
                                    is_mut_ref_or_ptr_ty(body.spec_ty(l2)) && b == (if start.ref_base.contains_key(l2) { start.ref_base[l2] } else { l2 })
                                };
                                if j < i {
                                    assert(pre[j] == post[j]);
                                } else {
                                    assert(post[j] == args@[i as int]);
                                }
                            }
                            if bpre.contains(b) {
                                let j = choose|j: int| 0 <= j < pre.len() && #[trigger] spec_operand_local(&pre[j]) is Some && {
                                    let l2 = spec_operand_local(&pre[j])->0;
                                    is_mut_ref_or_ptr_ty(body.spec_ty(l2)) && b == (if start.ref_base.contains_key(l2) { start.ref_base[l2] } else { l2 })
                                };
                                assert(pre[j] == post[j]);
                            }
                        }
                        assert(bpost =~= bpre);
                    }
                },
            }
            i = i + 1;
        }
        proof { assert(args@.subrange(0, i as int) =~= args@); }
    }

    /// Escapes, in order, the arguments that are raw pointers or carry
    /// tracked objects.
    fn escape_raw_ptr_args(&mut self, body: &Body, args: &Vec<Operand>)
        ensures
            final(self)@ == escape_args(old(self)@, body, args@, args@.len()),
    {
        let ghost start = self@;
        let mut i: usize = 0;
        while i < args.len()
            invariant
                i <= args@.len(),
                self@ == escape_args(start, body, args@, i as nat),
            decreases args@.len() - i,
        {
            match operand_local(&args[i]) {
                Some(l) => {
                    if matches!(body.ty_of(l), Ty::RawPtr(..)) || self.points_to.contains_key(l) {
                        self.escape_local(l);
                    }
                },
                None => {},
            }
            i = i + 1;
        }
    }
}

impl BlockState {
    fn record_size_facts(&mut self, args: &Vec<Operand>, dest: Local, path: &str)
        ensures
            final(self)@ == size_facts(old(self)@, args@, dest, path@),
    {
        let is_cap = str_ends_with(path, "::capacity");
        if str_ends_with(path, "::len") || is_cap {
            match first_arg_local(args) {
                Some(recv) => {
                    let coll = self.deref_base(recv);
                    if is_cap {
                        self.cap_of.insert(dest, coll);
                    } else {
                        self.len_of.insert(dest, coll);
                    }
                },
                None => {},
            }
        }
        proof { assert(self@ =~= size_facts(old(self)@, args@, dest, path@)); }
    }

    fn record_float_test_facts(&mut self, args: &Vec<Operand>, dest: Local, path: &str)
        ensures
            final(self)@ == float_test_facts(old(self)@, args@, dest, path@),
    {
        if str_ends_with(path, "::is_nan") {
            match first_arg_local(args) {
                Some(recv) => { self.nan_if_true.insert(dest, recv); },
                None => {},
            }
        } else if str_ends_with(path, "::is_finite") {
            match first_arg_local(args) {
                Some(recv) => { self.finite_if_true.insert(dest, recv); },
                None => {},
            }
        }
        proof { assert(self@ =~= float_test_facts(old(self)@, args@, dest, path@)); }
    }

    fn record_deref_facts(&mut self, args: &Vec<Operand>, dest: Local, path: &str)
        ensures
            final(self)@ == deref_facts(old(self)@, args@, dest, path@),
    {
        if str_ends_with(path, "::deref") || str_ends_with(path, "::deref_mut") {
            match first_arg_local(args) {
                Some(recv) => {
                    let base = self.deref_base(recv);
                    self.ref_base.insert(dest, base);
                },
                None => {},
            }
        }
        proof { assert(self@ =~= deref_facts(old(self)@, args@, dest, path@)); }
    }

    fn record_fd_facts(&mut self, args: &Vec<Operand>, dest: Local, path: &str)
        ensures
            final(self)@ == fd_facts(old(self)@, args@, dest, path@),
    {
        if is_into_raw_fd(path) {
            self.fd_origin.insert(dest);
        } else if is_from_raw_fd_call(path) {
            match first_arg_local(args) {
                Some(a) => { self.fd_consumed.insert(a); },
                None => {},
            }
        }
        proof { assert(self@ =~= fd_facts(old(self)@, args@, dest, path@)); }
    }

    fn record_pair_facts(&mut self, args: &Vec<Operand>, dest: Local, path: &str)
        ensures
            final(self)@ == pair_facts(old(self)@, args@, dest, path@),
    {
        let is_ne = str_ends_with(path, "::ne");
        if (is_ne || str_ends_with(path, "::eq")) && args.len() == 2 {
            match (nth_arg_local(args, 0), nth_arg_local(args, 1)) {
                (Some(a), Some(b)) => {
                    let pair = (self.deref_base(a), self.deref_base(b));
                    if is_ne {
                        self.ne_pair_if_true.insert(dest, pair);
                    } else {
                        self.eq_pair_if_true.insert(dest, pair);
                    }
                },
                _ => {},
            }
        }
        proof { assert(self@ =~= pair_facts(old(self)@, args@, dest, path@)); }
    }

    /// Records what the callee's name says about the call's result.
    fn record_dest_facts(&mut self, args: &Vec<Operand>, dest: Local, path: &str)
        ensures
            final(self)@ == dest_facts(old(self)@, args@, dest, path@),
    {
        self.record_size_facts(args, dest, path);
        self.record_float_test_facts(args, dest, path);
        self.record_deref_facts(args, dest, path);
        self.record_fd_facts(args, dest, path);
        if str_ends_with(path, "thread::spawn") || str_ends_with(path, "Builder::spawn")
            || str_ends_with(path, "Builder::spawn_unchecked") {
            self.thread_spawned = true;
        }
        self.record_pair_facts(args, dest, path);
    }

    /// `clear_scalar_facts` that keeps the protocols `l` holds.
    fn clear_result_facts(&mut self, l: Local)
        ensures
            final(self)@ == clear_facts(old(self)@, l),
    {
        self.init.remove(l);
        self.buf_written.remove(l);
        self.lt_facts.remove(l);
        self.ge_facts.remove(l);
        self.le_facts.remove(l);
        self.gt_facts.remove(l);
        self.bounded.remove(l);
        self.bounded_or_eq.remove(l);
        proof { assert(self@ =~= clear_facts(old(self)@, l)); }
    }

    /// `dest` receives the fresh `RawOwned` object of block `bb`.
    fn give_fresh_object(&mut self, dest: Local, bb: BasicBlock)
        ensures
            final(self)@ == fresh_owned(old(self)@, dest, bb),
    {
        self.points_to.put(dest, VecSet::singleton(ObjectId(bb)));
        self.heap.insert(ObjectId(bb), HeapState::RawOwned);
        proof { assert(self@ =~= fresh_owned(old(self)@, dest, bb)); }
    }

    /// `dest` takes the objects of the first argument, if it has any.
    fn take_first_arg_objects(&mut self, args: &Vec<Operand>, dest: Local)
        ensures
            final(self)@ == take_first_arg_objects(old(self)@, args@, dest),
    {
        match first_arg_local(args) {
            Some(src) => {
                let objs = self.objects_for(src);
                if objs.is_empty() {
                    self.points_to.drop_key(dest);
                } else {
                    self.points_to.put(dest, objs);
                }
            },
            None => self.points_to.drop_key(dest),
        }
        proof { assert(self@ =~= take_first_arg_objects(old(self)@, args@, dest)); }
    }

    /// Every object of `objs` becomes `Escaped`.
    fn forget_objects(&mut self, objs: &VecSet<ObjectId>)
        ensures
            final(self)@ == old(self)@.with_heap(forget_objects(old(self)@.heap, objs@)),
    {
        objs.lemma_elems();
        let ghost start = self@;
        let ghost es = objs.elems();
        let mut i: usize = 0;
        while i < objs.len()
            invariant
                es == objs.elems(),
                i <= es.len(),
                forall|x: ObjectId| objs@.contains(x) <==> es.contains(x),
                self@ == start.with_heap(forget_objects(start.heap, es.subrange(0, i as int).to_set())),
            decreases es.len() - i,
        {
            let o = objs.at(i);
            self.heap.insert(o, HeapState::Escaped);
            proof {
                lemma_prefix_step(es, i as int);
                assert(self@ =~= start.with_heap(forget_objects(start.heap, es.subrange(0, i + 1).to_set())));
            }
            i = i + 1;
        }
        proof {
            assert(es.subrange(0, i as int) =~= es);
            assert(es.to_set() =~= objs@);
        }
    }

    /// Every protocol of `ps` enters state `st`.
    fn mark_protocols(&mut self, ps: &VecSet<ProtocolId>, st: ProtocolState)
        ensures
            final(self)@ == (StateView { typestate: mark_protocols(old(self)@.typestate, ps@, st), ..old(self)@ }),
    {
        ps.lemma_elems();
        let ghost start = self@;
        let ghost es = ps.elems();
        let mut i: usize = 0;
        while i < ps.len()
            invariant
                es == ps.elems(),
                i <= es.len(),
                forall|x: ProtocolId| ps@.contains(x) <==> es.contains(x),
                self@ == (StateView { typestate: mark_protocols(start.typestate, es.subrange(0, i as int).to_set(), st), ..start }),
            decreases es.len() - i,
        {
            let p = ps.at(i);
            self.typestate.insert(p, st);
            proof {
                lemma_prefix_step(es, i as int);
                assert(self@ =~= (StateView { typestate: mark_protocols(start.typestate, es.subrange(0, i + 1).to_set(), st), ..start }));
            }
            i = i + 1;
        }
        proof {
            assert(es.subrange(0, i as int) =~= es);
            assert(es.to_set() =~= ps@);
        }
    }
}

impl BlockState {
    fn realloc_call(&mut self, args: &Vec<Operand>, dest: Local, bb: BasicBlock)
        ensures
            final(self)@ == eff_realloc(old(self)@, args@, dest, bb),
    {
        match first_arg_local(args) {
            Some(src) => {
                let objs = self.objects_for(src);
                self.reconstitute_objects(&objs);
            },
            None => {},
        }
        self.give_fresh_object(dest, bb);
        self.clear_result_facts(dest);
    }

    fn from_raw_call(&mut self, args: &Vec<Operand>, dest: Local)
        ensures
            final(self)@ == eff_from_raw(old(self)@, args@, dest),
    {
        let src = match first_arg_local(args) {
            Some(l) => Some(l),
            None => first_arg_base_local(args),
        };
        match src {
            Some(l) => {
                let objs = self.objects_for(l);
                self.reconstitute_objects(&objs);
            },
            None => {},
        }
        let ghost v1 = self@;
        self.points_to.drop_key(dest);
        self.local_proto.drop_key(dest);
        self.owner_alias.drop_key(dest);
        match src {
            Some(l) => {
                if self.owner_alias.contains_key(l) {
                    let owners = self.owner_alias.set_of(l);
                    self.owner_alias.put(dest, owners);
                }
            },
            None => {},
        }
        let ghost v2 = self@;
        proof {
            let oa = v1.owner_alias.remove(dest);
            let oa2 = match src {
                Some(l) => if oa.contains_key(l) { oa.insert(dest, oa[l]) } else { oa },
                None => oa,
            };
            assert(v2 =~= (StateView {
                points_to: v1.points_to.remove(dest),
                local_proto: v1.local_proto.remove(dest),
                owner_alias: oa2,
                ..v1
            }));
        }
        self.clear_result_facts(dest);
    }

    fn forget_call(&mut self, body: &Body, args: &Vec<Operand>, dest: Local)
        ensures
            final(self)@ == eff_forget(old(self)@, body, args@, dest),
    {
        match first_arg_base_local(args) {
            Some(src) => {
                let ghost v0 = self@;
                let objs = self.objects_for(src);
                self.forget_objects(&objs);
                self.points_to.drop_key(src);
                let protos = self.local_proto.set_of(src);
                self.local_proto.drop_key(src);
                self.mark_protocols(&protos, ProtocolState::Forgotten);
                if protos.is_empty() && is_guard_type(body.ty_of(src)) {
                    self.untracked_forget_seen = true;
                }
                self.init.remove(src);
                self.buf_written.remove(src);
                proof {
                    let ps = set_at(v0.local_proto, src);
                    assert(self@ =~= (StateView {
                        heap: forget_objects(v0.heap, set_at(v0.points_to, src)),
                        points_to: v0.points_to.remove(src),
                        local_proto: v0.local_proto.remove(src),
                        typestate: mark_protocols(v0.typestate, ps, ProtocolState::Forgotten),
                        untracked_forget_seen: v0.untracked_forget_seen || (ps == Set::<ProtocolId>::empty()
                            && spec_is_guard_type(body.spec_ty(src))),
                        init: v0.init.remove(src),
                        buf_written: v0.buf_written.remove(src),
                        ..v0
                    }));
                }
            },
            None => {},
        }
        self.clear_basic_facts(dest);
    }

    fn protocol_call(&mut self, dest: Local, bb: BasicBlock)
        ensures
            final(self)@ == eff_protocol(old(self)@, dest, bb),
    {
        self.local_proto.add_to(dest, ProtocolId(bb));
        self.typestate.insert(ProtocolId(bb), ProtocolState::Active);
        proof {
            assert(self@ =~= (StateView {
                local_proto: old(self)@.local_proto.insert(dest, set_at(old(self)@.local_proto, dest).insert(ProtocolId(bb))),
                typestate: old(self)@.typestate.insert(ProtocolId(bb), ProtocolState::Active),
                ..old(self)@
            }));
        }
        self.clear_result_facts(dest);
    }

    fn assume_init_call(&mut self, args: &Vec<Operand>, dest: Local)
        ensures
            final(self)@ == eff_assume_init(old(self)@, args@, dest),
    {
        match first_arg_local(args) {
            Some(src) => { self.init.remove(src); },
            None => {},
        }
        proof {
            assert(self@ =~= match spec_first_arg_local(args@) {
                Some(src) => StateView { init: old(self)@.init.remove(src), ..old(self)@ },
                None => old(self)@,
            });
        }
        self.take_first_arg_objects(args, dest);
        self.clear_scalar_facts(dest);
    }

    fn uninit_init_call(&mut self, args: &Vec<Operand>, dest: Local)
        ensures
            final(self)@ == eff_uninit_init(old(self)@, args@, dest),
    {
        self.take_first_arg_objects(args, dest);
        self.clear_scalar_facts(dest);
        self.init.insert(dest, InitState::Initialized);
        proof {
            let v1 = clear_scalar(take_first_arg_objects(old(self)@, args@, dest), dest);
            assert(self@ =~= StateView { init: v1.init.insert(dest, InitState::Initialized), ..v1 });
        }
    }

    fn buf_write_call(&mut self, args: &Vec<Operand>, dest: Local)
        ensures
            final(self)@ == eff_buf_write(old(self)@, args@, dest),
    {
        match first_arg_local(args) {
            Some(b) => { self.buf_written.insert(b); },
            None => {},
        }
        proof {
            assert(self@ =~= match spec_first_arg_local(args@) {
                Some(b) => StateView { buf_written: old(self)@.buf_written.insert(b), ..old(self)@ },
                None => old(self)@,
            });
        }
        self.clear_basic_facts(dest);
    }

    fn summarised_call(&mut self, args: &Vec<Operand>, dest: Local, bb: BasicBlock, summary: &FnSummary, path: &str)
        ensures
            final(self)@ == eff_summary(old(self)@, args@, dest, bb, *summary, path@),
    {
        apply_fn_summary(self, args, dest, bb, summary);
        let ghost v1 = self@;
        if is_owned_buffer_accessor(path) && !self.points_to.contains_key(dest) {
            match first_arg_local(args) {
                Some(a) => {
                    if self.points_to.contains_key(a) {
                        let objs = self.objects_for(a);
                        if !objs.is_empty() {
                            self.points_to.put(dest, objs);
                        }
                    }
                },
                None => {},
            }
        }
        proof {
            assert(self@ =~= (if spec_is_owned_buffer_accessor(path@) && !v1.points_to.contains_key(dest) {
                match spec_first_arg_local(args@) {
                    Some(a) => if v1.points_to.contains_key(a) && v1.points_to[a] != Set::<ObjectId>::empty() {
                        StateView { points_to: v1.points_to.insert(dest, v1.points_to[a]), ..v1 }
                    } else {
                        v1
                    },
                    None => v1,
                }
            } else {
                v1
            }));
        }
        self.clear_result_facts(dest);
    }

    fn unknown_call(&mut self, body: &Body, args: &Vec<Operand>, dest: Local, path: &str)
        ensures
            final(self)@ == eff_unknown(old(self)@, body, args@, dest, path@),
    {
        let ghost v0 = self@;
        if is_owned_buffer_accessor(path) {
            match first_arg_local(args) {
                Some(a) => {
                    let owners = self.owners_of(a);
                    if !owners.is_empty() {
                        self.owner_alias.put(dest, owners);
                    }
                    let objs = self.objects_for(a);
                    if !objs.is_empty() {
                        self.points_to.put(dest, objs);
                    }
                },
                None => {},
            }
            proof {
                assert(self@ =~= match spec_first_arg_local(args@) {
                    Some(a) => {
                        let oa = if v0.owner_alias.contains_key(a) && v0.owner_alias[a] != Set::<Local>::empty() {
                            v0.owner_alias.insert(dest, v0.owner_alias[a])
                        } else {
                            v0.owner_alias
                        };
                        let pts = if v0.points_to.contains_key(a) && v0.points_to[a] != Set::<ObjectId>::empty() {
                            v0.points_to.insert(dest, v0.points_to[a])
                        } else {
                            v0.points_to
                        };
                        StateView { owner_alias: oa, points_to: pts, ..v0 }
                    },
                    None => v0,
                });
            }
        } else if is_ptr_write_to_first_arg(path) {
            match first_arg_local(args) {
                Some(d) => {
                    let owners = self.owners_of(d);
                    self.buf_written.union_with(&owners);
                },
                None => {},
            }
            proof {
                assert(self@ =~= match spec_first_arg_local(args@) {
                    Some(d) => StateView { buf_written: v0.buf_written.union(set_at(v0.owner_alias, d)), ..v0 },
                    None => v0,
                });
            }
        } else if is_global_ptr_copy_to_second_arg(path) {
            match nth_arg_local(args, 1) {
                Some(d) => {
                    let owners = self.owners_of(d);
                    self.buf_written.union_with(&owners);
                },
                None => {},
            }
            proof {
                assert(self@ =~= match spec_nth_arg_local(args@, 1) {
                    Some(d) => StateView { buf_written: v0.buf_written.union(set_at(v0.owner_alias, d)), ..v0 },
                    None => v0,
                });
            }
        } else if is_ptr_pure_read(path) {
        } else {
            self.escape_raw_ptr_args(body, args);
        }
        self.clear_scalar_facts(dest);
    }

    /// What the callee named `path` does, by the first rule that applies.
    fn callee_effect(&mut self, body: &Body, bb: BasicBlock, args: &Vec<Operand>, dest: Local, path: &str,
        id: DefId, sums: &SummaryMap)
        ensures
            final(self)@ == call_effect(old(self)@, body, bb, args@, dest, path@, id, sums@),
    {
        if is_raw_realloc(path) {
            self.realloc_call(args, dest, bb);
        } else if is_into_raw(path) {
            self.give_fresh_object(dest, bb);
            self.clear_result_facts(dest);
        } else if is_from_raw(path) {
            self.from_raw_call(args, dest);
        } else if is_mem_forget(path) {
            self.forget_call(body, args, dest);
        } else if is_epoch_pin(path) || is_lock_acquire(path) {
            self.protocol_call(dest, bb);
        } else if is_maybe_uninit_assume_init(path) {
            self.assume_init_call(args, dest);
        } else if is_maybe_uninit_init(path) {
            self.uninit_init_call(args, dest);
        } else if is_buf_write(path) {
            self.buf_write_call(args, dest);
        } else if is_ptr_read(path) {
            self.take_first_arg_objects(args, dest);
            self.clear_scalar_facts(dest);
        } else {
            match sums.get(id) {
                Some(summary) => self.summarised_call(args, dest, bb, summary, path),
                None => self.unknown_call(body, args, dest, path),
            }
        }
    }
}

/// Applies a call terminator of block `bb`.
fn apply_call(state: &mut BlockState, body: &Body, bb: BasicBlock, func: &Operand, resolved: Option<DefId>,
    args: &Vec<Operand>, destination: &Place, sums: &SummaryMap)
    ensures
        final(state)@ == spec_call(old(state)@, body, bb, func, resolved, args@, destination, sums@),
{
    let callee = callee(state, func, resolved);
    match realloc_receiver(body, callee, args, sums) {
        Some(r) => state.realloc_effect(body, r),
        None => {},
    }
    let skip = match callee {
        Some(id) => match sums.get(id) {
            Some(s) => s.returns_alias_of_param,
            None => None,
        },
        None => None,
    };
    let reassigned = state.reassigned_owners(body, args, skip);
    state.drop_owners(&reassigned);
    state.invalidate_owner(destination.local);
    state.owner_alias.drop_key(destination.local);
    proof {
        let v1 = match realloc_recv(body, callee, args@, sums@) {
            Some(r) => realloc_effect(old(state)@, body, r),
            None => old(state)@,
        };
        let v2 = v1.with_owner_alias(drop_owners(v1.owner_alias, reassigned_owners(v1, body, args@, skip)));
        assert(state@ =~= v2.with_owner_alias(drop_owner(v2.owner_alias, destination.local).remove(destination.local)));
    }
    state.forget_capacity_of_mut_args(body, args);
    match callee {
        None => state.escape_raw_ptr_args(body, args),
        Some(id) => {
            if destination.projection.len() != 0 {
                state.escape_raw_ptr_args(body, args);
            } else {
                let dest = destination.local;
                let path = body.path_of(id);
                state.clear_range_facts(dest);
                state.record_dest_facts(args, dest, path.as_str());
                state.callee_effect(body, bb, args, dest, path.as_str(), id, sums);
                state.enforce_type_facts(dest, body.ty_of(dest));
            }
        },
    }
}

/// Applies the terminator of block `bb` to `state`: a call's effect on the
/// heap, protocols and facts, the bound an `Assert` proves, or the end of a
/// dropped local's protocols and tracking.
pub fn apply_terminator(state: &mut BlockState, body: &Body, bb: BasicBlock, term: &TerminatorKind, summaries: &SummaryMap)
    ensures
        final(state)@ == spec_apply_terminator(old(state)@, body, bb, term, summaries@),
{
    match term {
        TerminatorKind::Call { func, resolved, args, destination, .. } =>
            apply_call(state, body, bb, func, *resolved, args, destination, summaries),
        TerminatorKind::Assert { cond, expected, .. } => {
            match operand_place(cond) {
                Some(p) => {
                    if p.projection.len() == 0 {
                        let c = p.local;
                        if *expected {
                            match state.lt_facts.get_copy(c) {
                                Some(lhs) => { state.bounded.insert(lhs); },
                                None => {},
                            }
                            match state.le_facts.get_copy(c) {
                                Some(lhs) => { state.bounded_or_eq.insert(lhs); },
                                None => {},
                            }
                        } else {
                            match state.ge_facts.get_copy(c) {
                                Some(lhs) => { state.bounded.insert(lhs); },
                                None => {},
                            }
                            match state.gt_facts.get_copy(c) {
                                Some(lhs) => { state.bounded_or_eq.insert(lhs); },
                                None => {},
                            }
                        }
                    }
                },
                None => {},
            }
            proof { assert(state@ =~= spec_assert(old(state)@, cond, *expected)); }
        },
        TerminatorKind::Drop { place, .. } => {
            if place.projection.len() == 0 {
                let l = place.local;
                let protos = state.local_proto.set_of(l);
                state.local_proto.drop_key(l);
                state.mark_protocols(&protos, ProtocolState::Consumed);
                state.points_to.drop_key(l);
                state.init.remove(l);
                state.buf_written.remove(l);
            }
            proof { assert(state@ =~= spec_drop(old(state)@, place)); }
        },
        _ => {},
    }
}

// ───────────────────────── the ownership steps ─────────────────────────

/// `into_raw` hands `dest` a fresh `RawOwned` object for the call's block.
pub proof fn lemma_into_raw_owns(v: StateView, body: &Body, bb: BasicBlock, args: Seq<Operand>, dest: Local,
    path: Seq<char>, id: DefId, sums: Map<DefId, FnSummary>)
    requires
        !spec_is_raw_realloc(path),
        spec_is_into_raw(path),
    ensures
        call_effect(v, body, bb, args, dest, path, id, sums).heap[ObjectId(bb)] == HeapState::RawOwned,
        call_effect(v, body, bb, args, dest, path, id, sums).points_to[dest] == set![ObjectId(bb)],
{
}

/// `from_raw` on a plain local reconstitutes every `RawOwned` object it
/// points to, keeps its other objects as they were, and leaves the pointer
/// linked to them, so a later use of it is seen.
pub proof fn lemma_from_raw_reconstitutes(v: StateView, body: &Body, bb: BasicBlock, args: Seq<Operand>, dest: Local,
    path: Seq<char>, id: DefId, sums: Map<DefId, FnSummary>, a: Local)
    requires
        !spec_is_raw_realloc(path),
        !spec_is_into_raw(path),
        spec_is_from_raw(path),
        spec_first_arg_local(args) == Some(a),
        a != dest,
    ensures
        ({
            let r = call_effect(v, body, bb, args, dest, path, id, sums);
            &&& forall|o: ObjectId| #[trigger] set_at(v.points_to, a).contains(o) && v.heap.contains_key(o)
                ==> r.heap[o] == (if v.heap[o] == HeapState::RawOwned { HeapState::Reconstituted } else { v.heap[o] })
            &&& set_at(r.points_to, a) == set_at(v.points_to, a)
            &&& !r.points_to.contains_key(dest)
        }),
{
}

/// `mem::forget` escapes every object of its argument and marks every
/// protocol the argument holds `Forgotten`.
pub proof fn lemma_forget_escapes(v: StateView, body: &Body, bb: BasicBlock, args: Seq<Operand>, dest: Local,
    path: Seq<char>, id: DefId, sums: Map<DefId, FnSummary>, a: Local)
    requires
        !spec_is_raw_realloc(path),
        !spec_is_into_raw(path),
        !spec_is_from_raw(path),
        spec_is_mem_forget(path),
        spec_first_arg_base_local(args) == Some(a),
    ensures
        ({
            let r = call_effect(v, body, bb, args, dest, path, id, sums);
            &&& forall|o: ObjectId| #[trigger] set_at(v.points_to, a).contains(o) ==> r.heap[o] == HeapState::Escaped
            &&& forall|p: ProtocolId| #[trigger] set_at(v.local_proto, a).contains(p)
                ==> r.typestate[p] == ProtocolState::Forgotten
        }),
{
}

/// A lock acquisition or an epoch pin starts an `Active` protocol for the
/// call's block, held by `dest`.
pub proof fn lemma_guard_starts_active(v: StateView, body: &Body, bb: BasicBlock, args: Seq<Operand>, dest: Local,
    path: Seq<char>, id: DefId, sums: Map<DefId, FnSummary>)
    requires
        !spec_is_raw_realloc(path),
        !spec_is_into_raw(path),
        !spec_is_from_raw(path),
        !spec_is_mem_forget(path),
        spec_is_epoch_pin(path) || spec_is_lock_acquire(path),
    ensures
        call_effect(v, body, bb, args, dest, path, id, sums).typestate[ProtocolId(bb)] == ProtocolState::Active,
        set_at(call_effect(v, body, bb, args, dest, path, id, sums).local_proto, dest).contains(ProtocolId(bb)),
{
}

} // verus!
