use lib::analysis::dataflow::{block_successors, body_is_usable, compute_flow, compute_flow_for_summary};
use lib::analysis::object::{HeapState, ObjectId};
use lib::analysis::precond::extract_precond_summary;
use lib::analysis::state::BlockState;
use lib::analysis::summary::{extract_summary, summary_initial_state, FnSummary, ParamHeapEffect, SUMMARY_BASE};
use lib::checkers::flow::epoch_guard::EpochGuard;
use lib::checkers::flow::lock_state::LockState;
use lib::checkers::flow::ownership::OwnershipProtocol;
use lib::checkers::Severity;
use lib::collections::{VecMap, VecSet};
use lib::mir::{
    BasicBlockData, Body, Constant, DefId, Location, Mutability, Operand, Place, Span, SwitchTargets, TerminatorKind, Ty,
    UintTy, UnwindAction,
};

fn local(l: u32) -> Place {
    Place { local: l, projection: Vec::new() }
}

fn cp(l: u32) -> Operand {
    Operand::Copy(local(l))
}

fn mv(l: u32) -> Operand {
    Operand::Move(local(l))
}

fn func(id: u32) -> Operand {
    Operand::Constant(Constant { scalar_bits: None, fn_def: Some(DefId { krate: 0, index: id }) })
}

fn call(id: u32, args: Vec<Operand>, dest: u32, target: Option<u32>) -> TerminatorKind {
    TerminatorKind::Call {
        func: func(id),
        resolved: None,
        args,
        destination: local(dest),
        target,
        unwind: UnwindAction::Other,
    }
}

fn block(term: TerminatorKind, span: u32) -> BasicBlockData {
    BasicBlockData { statements: Vec::new(), terminator: Some(term), span: Span(span), statement_spans: Vec::new() }
}

fn switch(discr: u32, zero: u32, other: u32) -> TerminatorKind {
    TerminatorKind::SwitchInt { discr: cp(discr), targets: SwitchTargets { values: vec![(0, zero)], otherwise: other } }
}

fn body(arg_count: usize, tys: Vec<Ty>, blocks: Vec<BasicBlockData>, paths: &[(u32, &str)]) -> Body {
    let mut def_paths = VecMap::new();
    for (i, p) in paths {
        def_paths.insert(DefId { krate: 0, index: *i }, p.to_string());
    }
    Body {
        arg_count,
        local_decls: tys,
        basic_blocks: blocks,
        def_paths,
        is_drop_context: false,
        local_foreign_fns: VecSet::new(),
    }
}

fn raw() -> Ty {
    Ty::RawPtr(Mutability::Mut)
}

const INTO_RAW: (u32, &str) = (1, "alloc::boxed::Box::<T>::into_raw");
const FROM_RAW: (u32, &str) = (2, "alloc::boxed::Box::<T>::from_raw");

/// `let p = Box::into_raw(b); return;` leaks the box.
fn leaking_body() -> Body {
    body(
        0,
        vec![Ty::Other, raw(), Ty::Other],
        vec![block(call(1, vec![mv(2)], 1, Some(1)), 10), block(TerminatorKind::Return, 11)],
        &[INTO_RAW],
    )
}

#[test]
fn into_raw_without_from_raw_is_a_leak() {
    let b = leaking_body();
    let flow = compute_flow(&b, VecMap::new());
    let state = flow.state_at(1).unwrap();
    assert_eq!(state.heap.get_copy(ObjectId(0)), Some(HeapState::RawOwned));
    let findings = OwnershipProtocol.check(&b, &flow);
    assert_eq!(findings.len(), 1);
    assert_eq!(findings[0].rule_id, "ownership_leak");
    assert_eq!(findings[0].severity, Severity::Warning);
    assert_eq!(findings[0].span, Span(11));
    assert_eq!(
        findings[0].message,
        "raw pointer obtained from `into_raw` is never reconstituted via `from_raw` — memory leak"
    );
}

#[test]
fn returned_pointer_is_not_a_leak() {
    // `_0 = Box::into_raw(b); return;` hands ownership to the caller.
    let b = body(
        0,
        vec![raw(), Ty::Other],
        vec![block(call(1, vec![mv(1)], 0, Some(1)), 10), block(TerminatorKind::Return, 11)],
        &[INTO_RAW],
    );
    let flow = compute_flow(&b, VecMap::new());
    assert!(OwnershipProtocol.check(&b, &flow).is_empty());
}

#[test]
fn second_from_raw_on_a_path_is_a_double_free() {
    let b = body(
        0,
        vec![Ty::Other, raw(), Ty::Other, Ty::Other, Ty::Other],
        vec![
            block(call(1, vec![mv(2)], 1, Some(1)), 10),
            block(call(2, vec![cp(1)], 3, Some(2)), 11),
            block(call(2, vec![cp(1)], 4, Some(3)), 12),
            block(TerminatorKind::Return, 13),
        ],
        &[INTO_RAW, FROM_RAW],
    );
    let flow = compute_flow(&b, VecMap::new());
    let findings = OwnershipProtocol.check(&b, &flow);
    assert_eq!(findings.len(), 1);
    assert_eq!(findings[0].rule_id, "ownership_double_free");
    assert_eq!(findings[0].span, Span(12));
    assert_eq!(
        findings[0].message,
        "`Box::from_raw` called on a pointer that was already reconstituted on this path — double-free"
    );
}

#[test]
fn from_raw_after_a_conditional_free_is_a_potential_double_free() {
    let b = body(
        0,
        vec![Ty::Other, raw(), Ty::Other, Ty::Other, Ty::Other, Ty::Bool],
        vec![
            block(call(1, vec![mv(2)], 1, Some(1)), 10),
            block(switch(5, 2, 3), 11),
            block(call(2, vec![cp(1)], 3, Some(3)), 12),
            block(call(2, vec![cp(1)], 4, Some(4)), 13),
            block(TerminatorKind::Return, 14),
        ],
        &[INTO_RAW, FROM_RAW],
    );
    let flow = compute_flow(&b, VecMap::new());
    assert_eq!(flow.state_at(3).unwrap().heap.get_copy(ObjectId(0)), Some(HeapState::MaybeFreed));
    let findings = OwnershipProtocol.check(&b, &flow);
    assert_eq!(findings.len(), 1);
    assert_eq!(findings[0].span, Span(13));
    assert_eq!(
        findings[0].message,
        "`Box::from_raw` — potential double-free: pointer may have already been reconstituted on \
         another control-flow path"
    );
}

#[test]
fn unreachable_blocks_have_no_state() {
    let b = body(
        0,
        vec![Ty::Other],
        vec![block(TerminatorKind::Return, 1), block(TerminatorKind::Return, 2)],
        &[],
    );
    let flow = compute_flow(&b, VecMap::new());
    assert!(flow.state_at(0).is_some());
    assert!(flow.state_at(1).is_none());
    assert!(flow.state_before_terminator(&b, 1).is_none());
    assert!(flow.state_at_location(&b, &Location { block: 0, statement_index: 0 }).is_some());
    assert!(flow.state_at(7).is_none());
}

#[test]
fn a_loop_reaches_a_fixpoint_and_only_reachable_blocks_have_state() {
    // 0 -> 1; 1 -> {1, 2}; 2 returns; 3 -> 1 but nothing reaches 3.
    let b = body(
        0,
        vec![Ty::Other, Ty::Uint(UintTy::U8)],
        vec![
            block(TerminatorKind::Goto { target: 1 }, 1),
            block(switch(1, 1, 2), 2),
            block(TerminatorKind::Return, 3),
            block(TerminatorKind::Goto { target: 1 }, 4),
        ],
        &[],
    );
    let flow = compute_flow(&b, VecMap::new());
    assert!(flow.state_at(0).is_some());
    assert!(flow.state_at(1).is_some());
    assert!(flow.state_at(2).is_some());
    assert!(flow.state_at(3).is_none());
}

#[test]
fn successors_include_cleanup_edges() {
    let data = BasicBlockData {
        statements: Vec::new(),
        terminator: Some(TerminatorKind::Call {
            func: func(1),
            resolved: None,
            args: Vec::new(),
            destination: local(0),
            target: Some(3),
            unwind: UnwindAction::Cleanup(7),
        }),
        span: Span(0),
        statement_spans: Vec::new(),
    };
    assert_eq!(block_successors(&data), vec![3, 7]);
    let sw = block(TerminatorKind::SwitchInt {
        discr: cp(1),
        targets: SwitchTargets { values: vec![(0, 4), (1, 5)], otherwise: 6 },
    }, 0);
    assert_eq!(block_successors(&sw), vec![4, 5, 6]);
    assert!(block_successors(&block(TerminatorKind::Return, 0)).is_empty());
}

#[test]
fn summary_records_a_reconstituted_parameter() {
    // fn free(p: *mut T) { Box::from_raw(p); }
    let b = body(
        1,
        vec![Ty::Other, raw(), Ty::Other],
        vec![block(call(2, vec![cp(1)], 2, Some(1)), 10), block(TerminatorKind::Return, 11)],
        &[FROM_RAW],
    );
    let seed = summary_initial_state(&b);
    assert_eq!(seed.heap.get_copy(ObjectId(SUMMARY_BASE)), Some(HeapState::RawOwned));
    let flow = compute_flow_for_summary(&b, &VecMap::new());
    let summary = extract_summary(&b, &flow);
    assert_eq!(summary.param_effects, vec![(0, ParamHeapEffect::Reconstituted)]);
    assert!(!summary.returns_raw_owned);
    assert_eq!(summary.reallocs_param, None);
}

#[test]
fn summary_of_a_constructor_returns_raw_owned() {
    // fn make() -> *mut T { Box::into_raw(b) }
    let b = leaking_body_returning();
    let flow = compute_flow_for_summary(&b, &VecMap::new());
    let summary = extract_summary(&b, &flow);
    assert!(summary.param_effects.is_empty());
    assert!(summary.returns_raw_owned);
}

fn leaking_body_returning() -> Body {
    body(
        0,
        vec![raw(), Ty::Other],
        vec![block(call(1, vec![mv(1)], 0, Some(1)), 10), block(TerminatorKind::Return, 11)],
        &[INTO_RAW],
    )
}

#[test]
fn summarised_free_is_applied_at_the_call_site() {
    // Calling a function summarised as reconstituting its parameter twice.
    let callee = DefId { krate: 0, index: 9 };
    let mut sums = VecMap::new();
    sums.insert(callee, FnSummary {
        param_effects: vec![(0, ParamHeapEffect::Reconstituted)],
        returns_raw_owned: false,
        reallocs_param: None,
        returns_alias_of_param: None,
    });
    let b = body(
        0,
        vec![Ty::Other, raw(), Ty::Other, Ty::Other, Ty::Other],
        vec![
            block(call(1, vec![mv(2)], 1, Some(1)), 10),
            block(call(9, vec![cp(1)], 3, Some(2)), 11),
            block(TerminatorKind::Return, 12),
        ],
        &[INTO_RAW, (9, "mylib::dealloc_it")],
    );
    let flow = compute_flow(&b, sums);
    assert_eq!(flow.state_at(2).unwrap().heap.get_copy(ObjectId(0)), Some(HeapState::Reconstituted));
    assert!(OwnershipProtocol.check(&b, &flow).is_empty());
}

#[test]
fn unguarded_nonzero_parameter_is_a_precondition() {
    let b = body(
        1,
        vec![Ty::Other, Ty::Uint(UintTy::Usize)],
        vec![block(call(3, vec![cp(1)], 0, Some(1)), 10), block(TerminatorKind::Return, 11)],
        &[(3, "core::num::NonZero::<usize>::new_unchecked")],
    );
    let flow = compute_flow(&b, VecMap::new());
    let pre = extract_precond_summary(&b, &flow);
    assert!(!pre.is_empty());
    assert!(pre.nonzero_args.contains(0));
    assert!(!pre.ascii_args.contains(0));
}

#[test]
fn guarded_nonzero_parameter_is_not_a_precondition() {
    // `if x == 0 { return } NonZero::new_unchecked(x)`: the guard's fact is
    // recorded on the refined edge.
    let b = body(
        1,
        vec![Ty::Other, Ty::Uint(UintTy::Usize)],
        vec![block(call(3, vec![cp(1)], 0, Some(1)), 10), block(TerminatorKind::Return, 11)],
        &[(3, "core::num::NonZero::<usize>::new_unchecked")],
    );
    let mut flow = compute_flow(&b, VecMap::new());
    let mut state = BlockState::new();
    state.nonzero.insert(1);
    flow.entry_states[0] = Some(state);
    let pre = extract_precond_summary(&b, &flow);
    assert!(pre.is_empty());
}

#[test]
fn force_unlock_without_a_forgotten_guard_is_reported() {
    let b = body(
        0,
        vec![Ty::Other, Ty::Other],
        vec![block(call(4, vec![cp(1)], 0, Some(1)), 10), block(TerminatorKind::Return, 11)],
        &[(4, "lock_api::Mutex::<R, T>::force_unlock")],
    );
    let flow = compute_flow(&b, VecMap::new());
    let findings = LockState.check(&b, &flow);
    assert_eq!(findings.len(), 1);
    assert_eq!(findings[0].rule_id, "lock_force_unlock_unpaired");
    assert!(findings[0].message.starts_with("`force_unlock` called without a preceding"));
}

#[test]
fn force_unlock_after_forgetting_a_guard_is_fine() {
    // g = m.lock(); mem::forget(g); m.force_unlock();
    let b = body(
        0,
        vec![Ty::Other, Ty::Other, Ty::Other, Ty::Other],
        vec![
            block(call(5, vec![cp(1)], 2, Some(1)), 10),
            block(call(6, vec![mv(2)], 3, Some(2)), 11),
            block(call(4, vec![cp(1)], 0, Some(3)), 12),
            block(TerminatorKind::Return, 13),
        ],
        &[(4, "lock_api::Mutex::<R, T>::force_unlock"), (5, "lock_api::Mutex::<R, T>::lock"), (6, "std::mem::forget")],
    );
    let flow = compute_flow(&b, VecMap::new());
    assert!(flow.state_at(2).unwrap().has_forgotten_protocol());
    assert!(LockState.check(&b, &flow).is_empty());
}

#[test]
fn deref_after_dropping_the_guard_is_reported() {
    // g = epoch::pin(); drop(g); shared.deref();
    let b = body(
        0,
        vec![Ty::Other, Ty::Other, Ty::Other],
        vec![
            block(call(7, Vec::new(), 1, Some(1)), 10),
            block(TerminatorKind::Drop { place: local(1), target: 2, unwind: UnwindAction::Other }, 11),
            block(call(8, vec![cp(2)], 0, Some(3)), 12),
            block(TerminatorKind::Return, 13),
        ],
        &[(7, "crossbeam_epoch::default::pin"), (8, "crossbeam_epoch::Shared::<'g, T>::deref")],
    );
    let flow = compute_flow(&b, VecMap::new());
    assert!(flow.state_at(2).unwrap().has_hazard_protocol());
    let findings = EpochGuard.check_flow(&b, &flow);
    assert_eq!(findings.len(), 1);
    assert_eq!(findings[0].rule_id, "epoch_guard_expired");
    assert!(findings[0].message.starts_with("`Shared::deref` called but an epoch guard may have been dropped"));
}

#[test]
fn usable_bodies_have_their_successors_in_range() {
    let good = body(0, vec![Ty::Other], vec![block(TerminatorKind::Goto { target: 1 }, 1), block(TerminatorKind::Return, 2)], &[]);
    assert!(body_is_usable(&good));
    let bad = body(0, vec![Ty::Other], vec![block(TerminatorKind::Goto { target: 5 }, 1)], &[]);
    assert!(!body_is_usable(&bad));
    let empty = body(0, vec![Ty::Other], Vec::new(), &[]);
    assert!(!body_is_usable(&empty));
}

#[test]
fn location_states_at_the_edges_of_a_block() {
    let b = body(
        0,
        vec![Ty::Other, Ty::Uint(UintTy::U8)],
        vec![BasicBlockData {
            statements: vec![lib::mir::Statement::Assign(local(1), lib::mir::Rvalue::Use(Operand::Constant(Constant { scalar_bits: Some(7), fn_def: None })))],
            terminator: Some(TerminatorKind::Return),
            span: Span(1),
            statement_spans: Vec::new(),
        }],
        &[],
    );
    let flow = compute_flow(&b, VecMap::new());
    let at_start = flow.state_at_location(&b, &Location { block: 0, statement_index: 0 }).unwrap();
    assert_eq!(at_start.local_upper_bound(1), None);
    let at_end = flow.state_at_location(&b, &Location { block: 0, statement_index: 5 }).unwrap();
    assert_eq!(at_end.local_upper_bound(1), Some(7));
    assert_eq!(flow.state_before_terminator(&b, 0).unwrap().local_upper_bound(1), Some(7));
}
