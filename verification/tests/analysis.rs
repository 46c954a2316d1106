use lib::analysis::call::apply_terminator;
use lib::analysis::facts::seed_param_type_facts;
use lib::analysis::object::{HeapState, InitState, ObjectId};
use lib::analysis::paths::{is_epoch_pin, is_force_unlock, is_from_raw, is_into_raw, is_mem_forget, is_reallocating_method};
use lib::analysis::precond::{param_index, PrecondSummary};
use lib::analysis::refine::refine_switchint_edge;
use lib::analysis::state::{BlockState, FreedKind};
use lib::analysis::summary::{apply_fn_summary, FnSummary, ParamHeapEffect};
use lib::analysis::transfer::apply_statement;
use lib::analysis::typestate::{ProtocolId, ProtocolState};
use lib::collections::{VecMap, VecSet};
use lib::mir::{
    BasicBlockData, Body, Constant, DefId, Mutability, Operand, Place, Rvalue, Span, Statement, SwitchTargets,
    TerminatorKind, Ty, UintTy, UnwindAction,
};

fn local(l: u32) -> Place {
    Place { local: l, projection: Vec::new() }
}

fn empty_body(arg_count: usize, tys: Vec<Ty>) -> Body {
    Body {
        arg_count,
        local_decls: tys,
        basic_blocks: vec![BasicBlockData { statements: Vec::new(), terminator: Some(TerminatorKind::Return), span: Span(0), statement_spans: Vec::new() }],
        def_paths: VecMap::new(),
        is_drop_context: false,
        local_foreign_fns: VecSet::new(),
    }
}

const HEAP: [HeapState; 4] = [HeapState::RawOwned, HeapState::Reconstituted, HeapState::MaybeFreed, HeapState::Escaped];
const PROTO: [ProtocolState; 4] =
    [ProtocolState::Active, ProtocolState::Consumed, ProtocolState::Forgotten, ProtocolState::MaybeActive];

#[test]
fn heap_join_is_a_semilattice() {
    for a in HEAP {
        assert_eq!(a.join(&a), a);
        for b in HEAP {
            assert_eq!(a.join(&b), b.join(&a));
            for c in HEAP {
                assert_eq!(a.join(&b).join(&c), a.join(&b.join(&c)));
            }
        }
    }
    assert_eq!(HeapState::RawOwned.join(&HeapState::Reconstituted), HeapState::MaybeFreed);
    assert_eq!(HeapState::Escaped.join(&HeapState::MaybeFreed), HeapState::Escaped);
    assert!(HeapState::MaybeFreed.is_hazard());
    assert!(!HeapState::Reconstituted.is_hazard());
}

#[test]
fn init_and_protocol_joins_are_semilattices() {
    assert_eq!(InitState::Initialized.join(&InitState::Initialized), InitState::Initialized);
    assert_eq!(InitState::Initialized.join(&InitState::Unknown), InitState::Unknown);
    for a in PROTO {
        assert_eq!(a.join(&a), a);
        for b in PROTO {
            assert_eq!(a.join(&b), b.join(&a));
            if a.is_hazard() {
                assert!(a.join(&b).is_hazard());
            }
            for c in PROTO {
                assert_eq!(a.join(&b).join(&c), a.join(&b.join(&c)));
            }
        }
    }
    assert_eq!(ProtocolState::Active.join(&ProtocolState::Consumed), ProtocolState::MaybeActive);
}

fn sample_state() -> BlockState {
    let mut s = BlockState::new();
    s.points_to.put(1, VecSet::singleton(ObjectId(3)));
    s.heap.insert(ObjectId(3), HeapState::RawOwned);
    s.bounded.insert(4);
    s.const_upper.insert(5, 10);
    s
}

#[test]
fn joining_a_state_with_itself_changes_nothing() {
    let a = sample_state();
    let (j, changed) = a.join_with(&a);
    assert!(!changed);
    assert_eq!(j.heap.get_copy(ObjectId(3)), Some(HeapState::RawOwned));
    assert!(j.bounded.contains(4));
}

#[test]
fn join_is_absorbing() {
    let a = sample_state();
    let mut b = BlockState::new();
    b.points_to.put(1, VecSet::singleton(ObjectId(3)));
    b.heap.insert(ObjectId(3), HeapState::Reconstituted);
    b.const_upper.insert(5, 20);
    let (j, changed) = a.join_with(&b);
    assert!(changed);
    assert_eq!(j.heap.get_copy(ObjectId(3)), Some(HeapState::MaybeFreed));
    assert!(!j.bounded.contains(4));
    assert_eq!(j.const_upper.get_copy(5), Some(20));
    let (j2, changed2) = j.join_with(&b);
    assert!(!changed2);
    assert_eq!(j2.heap.get_copy(ObjectId(3)), Some(HeapState::MaybeFreed));
}

#[test]
fn freed_kind_distinguishes_definite_and_potential() {
    let mut s = BlockState::new();
    s.points_to.put(1, VecSet::singleton(ObjectId(0)));
    s.heap.insert(ObjectId(0), HeapState::Reconstituted);
    assert_eq!(s.freed_kind(1), FreedKind::Definite);
    s.heap.insert(ObjectId(0), HeapState::MaybeFreed);
    assert_eq!(s.freed_kind(1), FreedKind::Potential);
    assert_eq!(s.freed_kind(2), FreedKind::NotFreed);
}

#[test]
fn escaping_keeps_freed_objects_visible() {
    let mut s = BlockState::new();
    let mut objs = VecSet::new();
    objs.insert(ObjectId(0));
    objs.insert(ObjectId(1));
    s.points_to.put(1, objs);
    s.heap.insert(ObjectId(0), HeapState::Reconstituted);
    s.heap.insert(ObjectId(1), HeapState::RawOwned);
    s.escape_local(1);
    assert_eq!(s.heap.get_copy(ObjectId(0)), Some(HeapState::Reconstituted));
    assert_eq!(s.heap.get_copy(ObjectId(1)), Some(HeapState::Escaped));
    assert!(!s.points_to.contains_key(1));
}

#[test]
fn moving_a_pointer_moves_its_objects() {
    let body = empty_body(0, vec![Ty::Other, Ty::RawPtr(Mutability::Mut), Ty::RawPtr(Mutability::Mut)]);
    let mut s = sample_state();
    apply_statement(&mut s, &body, &Statement::Assign(local(2), Rvalue::Use(Operand::Move(local(1)))));
    assert!(s.objects_for(2).contains(ObjectId(3)));
    assert!(!s.points_to.contains_key(1));
    let mut t = sample_state();
    apply_statement(&mut t, &body, &Statement::Assign(local(2), Rvalue::Use(Operand::Copy(local(1)))));
    assert!(t.objects_for(2).contains(ObjectId(3)));
    assert!(t.objects_for(1).contains(ObjectId(3)));
}

#[test]
fn refining_a_switch_adds_the_comparison_on_each_edge() {
    let mut s = BlockState::new();
    s.lt_facts.insert(7, 2);
    s.ge_facts.insert(7, 3);
    let term = TerminatorKind::SwitchInt {
        discr: Operand::Copy(local(7)),
        targets: SwitchTargets { values: vec![(0, 5)], otherwise: 6 },
    };
    let mut on_true = s.duplicate();
    refine_switchint_edge(&mut on_true, &term, 6);
    assert!(on_true.local_is_bounded(2));
    assert!(!on_true.local_is_bounded(3));
    let mut on_false = s.duplicate();
    refine_switchint_edge(&mut on_false, &term, 5);
    assert!(on_false.local_is_bounded(3));
    assert!(!on_false.local_is_bounded(2));
    let mut elsewhere = s.duplicate();
    refine_switchint_edge(&mut elsewhere, &term, 9);
    assert!(!elsewhere.local_is_bounded(2) && !elsewhere.local_is_bounded(3));
}

#[test]
fn refining_constant_bounds_saturates() {
    let mut s = BlockState::new();
    s.const_lt.insert(7, (2, 0));
    s.const_gt.insert(8, (3, u64::MAX));
    let term = |d: u32| TerminatorKind::SwitchInt {
        discr: Operand::Copy(local(d)),
        targets: SwitchTargets { values: vec![(0, 5)], otherwise: 6 },
    };
    let mut a = s.duplicate();
    refine_switchint_edge(&mut a, &term(7), 6);
    assert_eq!(a.local_upper_bound(2), Some(0));
    let mut b = s.duplicate();
    refine_switchint_edge(&mut b, &term(8), 6);
    assert_eq!(b.local_lower_bound(3), Some(u64::MAX));
}

#[test]
fn assert_terminator_proves_a_bound() {
    let body = empty_body(0, vec![Ty::Other]);
    let mut s = BlockState::new();
    s.lt_facts.insert(9, 4);
    let term = TerminatorKind::Assert { cond: Operand::Copy(local(9)), expected: true, target: 1, unwind: UnwindAction::Other };
    apply_terminator(&mut s, &body, 0, &term, &VecMap::new());
    assert!(s.local_is_bounded(4));
}

#[test]
fn drop_consumes_the_protocols_of_a_local() {
    let body = empty_body(0, vec![Ty::Other, Ty::Other]);
    let mut s = BlockState::new();
    s.local_proto.put(1, VecSet::singleton(ProtocolId(2)));
    s.typestate.insert(ProtocolId(2), ProtocolState::Active);
    let term = TerminatorKind::Drop { place: local(1), target: 1, unwind: UnwindAction::Other };
    apply_terminator(&mut s, &body, 0, &term, &VecMap::new());
    assert_eq!(s.typestate.get_copy(ProtocolId(2)), Some(ProtocolState::Consumed));
    assert!(s.has_hazard_protocol());
}

#[test]
fn into_raw_call_creates_an_owned_object_per_call_site() {
    let mut def_paths = VecMap::new();
    def_paths.insert(DefId { krate: 0, index: 1 }, "alloc::boxed::Box::<T>::into_raw".to_string());
    let body = Body {
        arg_count: 0,
        local_decls: vec![Ty::Other, Ty::RawPtr(Mutability::Mut), Ty::Other],
        basic_blocks: Vec::new(),
        def_paths,
        is_drop_context: false,
        local_foreign_fns: VecSet::new(),
    };
    let term = TerminatorKind::Call {
        func: Operand::Constant(Constant { scalar_bits: None, fn_def: Some(DefId { krate: 0, index: 1 }) }),
        resolved: None,
        args: vec![Operand::Move(local(2))],
        destination: local(1),
        target: Some(4),
        unwind: UnwindAction::Other,
    };
    let mut s = BlockState::new();
    apply_terminator(&mut s, &body, 7, &term, &VecMap::new());
    assert!(s.ptr_is_raw_owned(1));
    assert_eq!(s.heap.get_copy(ObjectId(7)), Some(HeapState::RawOwned));
}

#[test]
fn summary_application_marks_arguments() {
    let mut s = BlockState::new();
    s.points_to.put(1, VecSet::singleton(ObjectId(0)));
    s.heap.insert(ObjectId(0), HeapState::RawOwned);
    let summary = FnSummary {
        param_effects: vec![(0, ParamHeapEffect::Reconstituted)],
        returns_raw_owned: true,
        reallocs_param: None,
        returns_alias_of_param: None,
    };
    apply_fn_summary(&mut s, &vec![Operand::Copy(local(1))], 2, 5, &summary);
    assert_eq!(s.heap.get_copy(ObjectId(0)), Some(HeapState::Reconstituted));
    assert_eq!(s.heap.get_copy(ObjectId(5)), Some(HeapState::RawOwned));
    assert!(s.objects_for(2).contains(ObjectId(5)));
    // The reconstituted argument no longer points anywhere.
    assert!(s.points_to.get(1).is_none());
    assert!(s.objects_for(1).is_empty());
}

#[test]
fn equality_through_casts_is_symmetric() {
    let mut s = BlockState::new();
    s.cast_origin.insert(1, 3);
    s.cast_origin.insert(2, 4);
    s.eq_locals.insert(lib::analysis::state::canon_pair(2, 3));
    assert!(s.locals_are_eq(1, 2));
    assert!(s.locals_are_eq(2, 1));
    assert!(!s.locals_are_eq(1, 5));
    assert!(!s.locals_are_eq(5, 1));
}

#[test]
fn parameter_types_seed_bounds() {
    let body = empty_body(3, vec![Ty::Other, Ty::Uint(UintTy::U8), Ty::Bool, Ty::Other]);
    let mut s = BlockState::new();
    seed_param_type_facts(&mut s, &body);
    assert_eq!(s.local_upper_bound(1), Some(255));
    assert_eq!(s.local_upper_bound(2), Some(1));
    assert_eq!(s.local_upper_bound(3), None);
}

#[test]
fn parameter_indices() {
    let body = empty_body(2, vec![Ty::Other, Ty::Other, Ty::Other, Ty::Other]);
    assert_eq!(param_index(&body, 0), None);
    assert_eq!(param_index(&body, 1), Some(0));
    assert_eq!(param_index(&body, 2), Some(1));
    assert_eq!(param_index(&body, 3), None);
    assert!(PrecondSummary::default().is_empty());
}

#[test]
fn path_classification() {
    assert!(is_into_raw("alloc::boxed::Box::<T>::into_raw"));
    assert!(is_into_raw("std::alloc::alloc"));
    assert!(!is_into_raw("mylib::into_raw"));
    assert!(is_from_raw("alloc::sync::Arc::<T>::from_raw"));
    assert!(is_from_raw("alloc::vec::Vec::<T>::from_raw_parts"));
    assert!(!is_from_raw("mylib::Thing::from_raw"));
    assert!(is_mem_forget("core::mem::forget"));
    assert!(!is_mem_forget("core::mem::forget_in"));
    assert!(is_epoch_pin("crossbeam_epoch::default::pin"));
    assert!(is_force_unlock("lock_api::RwLock::<R, T>::force_unlock_write_fair"));
    assert!(is_reallocating_method("alloc::vec::Vec::<T, A>::push"));
}

#[test]
fn vec_set_and_map_basics() {
    let mut s: VecSet<u32> = VecSet::new();
    assert!(s.insert(3));
    assert!(!s.insert(3));
    assert!(s.insert(5));
    assert_eq!(s.len(), 2);
    assert!(s.remove(3));
    assert!(!s.contains(3));
    let mut m: VecMap<u32, u64> = VecMap::new();
    m.insert(1, 10);
    m.insert(1, 11);
    assert_eq!(m.len(), 1);
    assert_eq!(m.get_copy(1), Some(11));
    assert_eq!(m.remove(1), Some(11));
    assert!(m.is_empty());
}
