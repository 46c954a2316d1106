use lib::analysis::dataflow::compute_flow;
use lib::analysis::object::{HeapState, ObjectId};
use lib::analysis::state::BlockState;
use lib::checkers::alloc_size_overflow::AllocSizeOverflow;
use lib::checkers::allocator_impl::AllocatorImpl;
use lib::checkers::cast_away_const::CastAwayConst;
use lib::checkers::bytemuck_unsafe_impl::BytemuckUnsafeImpl;
use lib::checkers::char_from_u32_unchecked::CharFromU32Unchecked;
use lib::checkers::clone_to_uninit_call::CloneToUninitCall;
use lib::checkers::clone_to_uninit_impl::CloneToUninitImpl;
use lib::checkers::crossbeam_epoch::CrossbeamEpoch;
use lib::checkers::foreign_fn::ForeignFn;
use lib::checkers::global_alloc_impl::GlobalAllocImpl;
use lib::checkers::inline_asm::InlineAsm;
use lib::checkers::layout_unchecked::LayoutUnchecked;
use lib::checkers::{path_last_segment, uaf_finding, Severity, TraitImpl};
use lib::collections::{VecMap, VecSet};
use lib::mir::{
    BasicBlockData, BinOp, Body, CastKind, Constant, DefId, InlineAsmOperand, Mutability, Operand, Place,
    ProjectionElem, Rvalue, Span, Statement, TerminatorKind, Ty, UintTy, UnwindAction,
};

fn local(l: u32) -> Place {
    Place { local: l, projection: Vec::new() }
}

fn fn_const(id: u32) -> Operand {
    Operand::Constant(Constant { scalar_bits: None, fn_def: Some(DefId { krate: 0, index: id }) })
}

fn int_const(v: u128) -> Operand {
    Operand::Constant(Constant { scalar_bits: Some(v), fn_def: None })
}

/// A body whose only block calls `path` with `args` and returns.
fn calling(path: &str, args: Vec<Operand>, tys: Vec<Ty>) -> Body {
    let mut def_paths = VecMap::new();
    def_paths.insert(DefId { krate: 0, index: 1 }, path.to_string());
    let call = TerminatorKind::Call {
        func: fn_const(1),
        resolved: None,
        args,
        destination: local(0),
        target: Some(1),
        unwind: UnwindAction::Other,
    };
    Body {
        arg_count: 1,
        local_decls: tys,
        basic_blocks: vec![
            BasicBlockData { statements: Vec::new(), terminator: Some(call), span: Span(3), statement_spans: Vec::new() },
            BasicBlockData { statements: Vec::new(), terminator: Some(TerminatorKind::Return), span: Span(4), statement_spans: Vec::new() },
        ],
        def_paths,
        is_drop_context: false,
        local_foreign_fns: VecSet::new(),
    }
}

#[test]
fn last_segment_of_a_path() {
    assert_eq!(path_last_segment("core::alloc::Layout::from_size_align_unchecked"), "from_size_align_unchecked");
    assert_eq!(path_last_segment("plain"), "plain");
    assert_eq!(path_last_segment("a:::b"), "b");
    assert_eq!(path_last_segment("ends::"), "");
}

#[test]
fn uaf_findings_name_the_access() {
    let f = uaf_finding(Span(2), "read", false);
    assert_eq!(f.rule_id, "use_after_free");
    assert_eq!(f.message, "use-after-free: the pointer was already freed on this path before this read");
    let g = uaf_finding(Span(2), "write", true);
    assert_eq!(
        g.message,
        "potential use-after-free: the pointer may already have been freed on another path before this write"
    );
}

#[test]
fn char_from_u32_unchecked_unguarded_is_reported() {
    let b = calling("core::char::methods::<impl char>::from_u32_unchecked", vec![Operand::Copy(local(1))],
        vec![Ty::Char, Ty::Uint(lib::mir::UintTy::U32)]);
    let flow = compute_flow(&b, VecMap::new());
    let findings = CharFromU32Unchecked.check(&b, &flow);
    assert_eq!(findings.len(), 1);
    assert_eq!(findings[0].rule_id, "char_from_u32_unchecked");
    assert_eq!(
        findings[0].message,
        "`char::from_u32_unchecked` — value must be a valid Unicode scalar: 0x0..=0xD7FF or 0xE000..=0x10FFFF; \
         surrogates (0xD800..=0xDFFF) and values > 0x10FFFF are UB; use `char::from_u32` (returns Option) instead"
    );
}

#[test]
fn char_from_u32_unchecked_in_range_is_suppressed() {
    let b = calling("core::char::methods::<impl char>::from_u32_unchecked", vec![Operand::Copy(local(1))],
        vec![Ty::Char, Ty::Uint(lib::mir::UintTy::U32)]);
    let mut flow = compute_flow(&b, VecMap::new());
    let mut state = BlockState::new();
    state.const_upper.insert(1, 0x7F);
    flow.entry_states[0] = Some(state);
    assert!(CharFromU32Unchecked.check(&b, &flow).is_empty());
}

#[test]
fn layout_with_a_small_size_is_suppressed() {
    let path = "core::alloc::Layout::from_size_align_unchecked";
    let b = calling(path, vec![Operand::Copy(local(1)), int_const(8)], vec![Ty::Other, Ty::Uint(lib::mir::UintTy::Usize)]);
    let mut flow = compute_flow(&b, VecMap::new());
    let findings = LayoutUnchecked.check(&b, &flow);
    assert_eq!(findings.len(), 1);
    assert_eq!(
        findings[0].message,
        "`from_size_align_unchecked` — align must be a power of two and size must not overflow isize::MAX \
         when rounded to align; use `Layout::from_size_align` (returns Result) instead"
    );
    let mut state = BlockState::new();
    state.const_upper.insert(1, 4096);
    flow.entry_states[0] = Some(state);
    assert!(LayoutUnchecked.check(&b, &flow).is_empty());
}

#[test]
fn layout_with_constant_size_and_power_of_two_align_is_suppressed() {
    let path = "core::alloc::Layout::from_size_align_unchecked";
    let b = calling(path, vec![int_const(64), int_const(8)], vec![Ty::Other]);
    let flow = compute_flow(&b, VecMap::new());
    assert!(LayoutUnchecked.check(&b, &flow).is_empty());
    let odd = calling(path, vec![int_const(64), int_const(6)], vec![Ty::Other]);
    let flow = compute_flow(&odd, VecMap::new());
    assert_eq!(LayoutUnchecked.check(&odd, &flow).len(), 1);
}

#[test]
fn alignment_new_unchecked_is_reported() {
    let b = calling("core::ptr::Alignment::new_unchecked", vec![int_const(3)], vec![Ty::Other]);
    let flow = compute_flow(&b, VecMap::new());
    let findings = LayoutUnchecked.check(&b, &flow);
    assert_eq!(findings.len(), 1);
    assert!(findings[0].message.starts_with("`Alignment::new_unchecked` — align must be a power of two"));
}

#[test]
fn clone_to_uninit_into_freed_memory_is_a_use_after_free() {
    let b = calling("core::clone::CloneToUninit::clone_to_uninit", vec![Operand::Copy(local(2)), Operand::Copy(local(1))],
        vec![Ty::Other, Ty::RawPtr(Mutability::Mut), Ty::Other]);
    let mut flow = compute_flow(&b, VecMap::new());
    let findings = CloneToUninitCall.check(&b, &flow);
    assert_eq!(findings.len(), 1);
    assert_eq!(findings[0].rule_id, "clone_to_uninit_call");
    let mut state = BlockState::new();
    state.points_to.put(1, VecSet::singleton(ObjectId(0)));
    state.heap.insert(ObjectId(0), HeapState::Reconstituted);
    flow.entry_states[0] = Some(state);
    let findings = CloneToUninitCall.check(&b, &flow);
    assert_eq!(findings.len(), 1);
    assert_eq!(findings[0].rule_id, "use_after_free");
    assert_eq!(findings[0].message, "use-after-free: the pointer was already freed on this path before this write");
}

#[test]
fn clone_to_uninit_into_owned_raw_memory_is_suppressed() {
    let b = calling("core::clone::CloneToUninit::clone_to_uninit", vec![Operand::Copy(local(2)), Operand::Copy(local(1))],
        vec![Ty::Other, Ty::RawPtr(Mutability::Mut), Ty::Other]);
    let mut flow = compute_flow(&b, VecMap::new());
    let mut state = BlockState::new();
    state.points_to.put(1, VecSet::singleton(ObjectId(0)));
    state.heap.insert(ObjectId(0), HeapState::RawOwned);
    flow.entry_states[0] = Some(state);
    assert!(CloneToUninitCall.check(&b, &flow).is_empty());
}

#[test]
fn foreign_functions_of_the_crate_are_reported() {
    let mut b = calling("ffi::c_strlen", vec![Operand::Copy(local(1))], vec![Ty::Other, Ty::Other]);
    let flow = compute_flow(&b, VecMap::new());
    assert!(ForeignFn.check(&b, &flow).is_empty());
    b.local_foreign_fns.insert(DefId { krate: 0, index: 1 });
    let findings = ForeignFn.check(&b, &flow);
    assert_eq!(findings.len(), 1);
    assert_eq!(
        findings[0].message,
        "`ffi::c_strlen` is a foreign (`extern`) function — verify ABI match, pointer validity, buffer sizes, \
         ownership transfer, error-code handling, and thread-safety per the foreign API contract"
    );
}

#[test]
fn crossbeam_deref_without_guard_information_is_reported() {
    let b = calling("crossbeam_epoch::Shared::<'g, T>::deref", vec![Operand::Copy(local(1))], vec![Ty::Other, Ty::Other]);
    let flow = compute_flow(&b, VecMap::new());
    let findings = CrossbeamEpoch.check(&b, &flow);
    assert_eq!(findings.len(), 1);
    assert_eq!(findings[0].rule_id, "crossbeam_epoch");
    assert!(findings[0].message.starts_with("`Shared::deref` — "));
}

#[test]
fn crossbeam_deref_under_a_live_guard_is_suppressed() {
    let b = calling("crossbeam_epoch::Shared::<'g, T>::deref", vec![Operand::Copy(local(1))], vec![Ty::Other, Ty::Other]);
    let mut flow = compute_flow(&b, VecMap::new());
    let mut state = BlockState::new();
    state.typestate.insert(lib::analysis::typestate::ProtocolId(0), lib::analysis::typestate::ProtocolState::Active);
    flow.entry_states[0] = Some(state);
    assert!(CrossbeamEpoch.check(&b, &flow).is_empty());
}

fn inline_asm_body(input: u32, ty: Ty) -> Body {
    let term = TerminatorKind::InlineAsm {
        operands: vec![InlineAsmOperand::In { value: Operand::Copy(local(input)) }, InlineAsmOperand::Other],
        targets: vec![1],
        unwind: UnwindAction::Other,
    };
    Body {
        arg_count: 0,
        local_decls: vec![Ty::Other, ty],
        basic_blocks: vec![
            BasicBlockData { statements: Vec::new(), terminator: Some(term), span: Span(8), statement_spans: Vec::new() },
            BasicBlockData { statements: Vec::new(), terminator: Some(TerminatorKind::Return), span: Span(9), statement_spans: Vec::new() },
        ],
        def_paths: VecMap::new(),
        is_drop_context: false,
        local_foreign_fns: VecSet::new(),
    }
}

#[test]
fn inline_asm_is_an_audit_point() {
    let b = inline_asm_body(1, Ty::RawPtr(Mutability::Mut));
    let flow = compute_flow(&b, VecMap::new());
    let findings = InlineAsm.check(&b, &flow);
    assert_eq!(findings.len(), 1);
    assert_eq!(findings[0].rule_id, "inline_asm");
    assert_eq!(findings[0].span, Span(8));
}

#[test]
fn inline_asm_reading_a_freed_pointer_is_a_use_after_free() {
    let b = inline_asm_body(1, Ty::RawPtr(Mutability::Mut));
    let mut flow = compute_flow(&b, VecMap::new());
    let mut state = BlockState::new();
    state.points_to.put(1, VecSet::singleton(ObjectId(4)));
    state.heap.insert(ObjectId(4), HeapState::MaybeFreed);
    flow.entry_states[0] = Some(state);
    let findings = InlineAsm.check(&b, &flow);
    assert_eq!(findings.len(), 1);
    assert_eq!(findings[0].rule_id, "use_after_free");
    assert_eq!(
        findings[0].message,
        "potential use-after-free: the pointer may already have been freed on another path before this read"
    );
}

fn impls(path: &str, is_unsafe: bool) -> Vec<TraitImpl> {
    vec![TraitImpl { trait_path: path.to_string(), is_unsafe, span: Span(21) }]
}

#[test]
fn unsafe_allocator_impl_is_reported() {
    let findings = AllocatorImpl.check_crate(&impls("core::alloc::Allocator", true));
    assert_eq!(findings.len(), 1);
    assert_eq!(findings[0].rule_id, "allocator_impl");
    assert_eq!(findings[0].span, Span(21));
    assert!(AllocatorImpl.check_crate(&impls("core::alloc::Allocator", false)).is_empty());
}

#[test]
fn unsafe_bytemuck_impls_are_reported() {
    let findings = BytemuckUnsafeImpl.check_crate(&impls("bytemuck::Pod", true));
    assert_eq!(findings.len(), 1);
    assert!(findings[0].message.starts_with("`unsafe impl bytemuck::Pod` — T must have no padding bytes"));
    assert!(BytemuckUnsafeImpl.check_crate(&impls("bytemuck::Unknown", true)).is_empty());
    assert_eq!(findings[0].severity, Severity::Warning);
}

#[test]
fn unsafe_clone_to_uninit_and_global_alloc_impls_are_reported() {
    assert_eq!(CloneToUninitImpl.check_crate(&impls("core::clone::CloneToUninit", true)).len(), 1);
    assert_eq!(GlobalAllocImpl.check_crate(&impls("core::alloc::GlobalAlloc", true)).len(), 1);
    assert!(GlobalAllocImpl.check_crate(&impls("core::alloc::Allocator", true)).is_empty());
}

#[test]
fn size_from_unchecked_arithmetic_is_reported() {
    let path = "core::alloc::Layout::from_size_align_unchecked";
    let b = calling(path, vec![Operand::Copy(local(1)), int_const(8)], vec![Ty::Other, Ty::Other]);
    let mut flow = compute_flow(&b, VecMap::new());
    assert!(AllocSizeOverflow.check(&b, &flow).is_empty());
    let mut state = BlockState::new();
    state.mul_overflow.insert(1);
    flow.entry_states[0] = Some(state);
    let findings = AllocSizeOverflow.check(&b, &flow);
    assert_eq!(findings.len(), 1);
    assert_eq!(findings[0].rule_id, "alloc_size_overflow");
    assert_eq!(findings[0].severity, Severity::Warning);
    assert_eq!(findings[0].span, Span(3));
    assert_eq!(
        findings[0].message,
        "`Layout::from_size_align_unchecked` — size argument came from arithmetic (mul/add) that can exceed \
         isize::MAX without overflow check; wrapping produces a too-small allocation and heap overflow on \
         subsequent writes; use `Layout::array::<T>(n)` or `n.checked_mul(size_of::<T>())` to handle overflow safely"
    );
    // With a power-of-two alignment the layout rule leaves this size to the overflow rule.
    assert!(LayoutUnchecked.check(&b, &flow).is_empty());
    let other = calling("core::alloc::Layout::new", vec![Operand::Copy(local(1))], vec![Ty::Other, Ty::Other]);
    let mut flow = compute_flow(&other, VecMap::new());
    let mut state = BlockState::new();
    state.mul_overflow.insert(1);
    flow.entry_states[0] = Some(state);
    assert!(AllocSizeOverflow.check(&other, &flow).is_empty());
}

#[test]
fn writes_through_a_pointer_cast_from_const_are_reported() {
    let mut def_paths = VecMap::new();
    def_paths.insert(DefId { krate: 0, index: 1 }, "core::ptr::write".to_string());
    let write = TerminatorKind::Call {
        func: fn_const(1),
        resolved: None,
        args: vec![Operand::Copy(local(2)), int_const(0)],
        destination: local(0),
        target: Some(1),
        unwind: UnwindAction::Other,
    };
    let store = Statement::Assign(
        Place { local: 2, projection: vec![ProjectionElem::Deref] },
        Rvalue::Use(int_const(1)),
    );
    let b = Body {
        arg_count: 0,
        local_decls: vec![Ty::Other, Ty::Other, Ty::RawPtr(Mutability::Mut)],
        basic_blocks: vec![
            BasicBlockData { statements: vec![store], terminator: Some(write), span: Span(3), statement_spans: vec![Span(9)] },
            BasicBlockData { statements: Vec::new(), terminator: Some(TerminatorKind::Return), span: Span(4), statement_spans: Vec::new() },
        ],
        def_paths,
        is_drop_context: false,
        local_foreign_fns: VecSet::new(),
    };
    let mut flow = compute_flow(&b, VecMap::new());
    assert!(CastAwayConst.check(&b, &flow).is_empty());
    let mut state = BlockState::new();
    state.const_ptr_cast.insert(2);
    flow.entry_states[0] = Some(state);
    let findings = CastAwayConst.check(&b, &flow);
    assert_eq!(findings.len(), 2);
    assert_eq!(findings[0].rule_id, "cast_away_const");
    assert_eq!(findings[0].span, Span(9));
    assert_eq!(
        findings[0].message,
        "`*_2 = ...` writes through a `*mut T` obtained by casting a `*const T`; if the pointee is not inside an \
         `UnsafeCell`, this is UB (aliased mutation without interior mutability). Common cause: \
         `Arc::as_ptr() as *mut T` or `&T as *const T as *mut T`."
    );
    assert_eq!(findings[1].span, Span(3));
    assert_eq!(
        findings[1].message,
        "`write(_2, ...)` writes through a `*mut T` obtained by casting a `*const T`; if the pointee is not inside \
         an `UnsafeCell`, this is UB (aliased mutation). Common cause: `Arc::as_ptr() as *mut T` or \
         `&T as *const T as *mut T`."
    );
}

#[test]
fn multi_digit_locals_are_written_in_decimal() {
    let store = Statement::Assign(Place { local: 305, projection: vec![ProjectionElem::Deref] }, Rvalue::Other);
    let b = Body {
        arg_count: 0,
        local_decls: vec![Ty::Other],
        basic_blocks: vec![BasicBlockData {
            statements: vec![store],
            terminator: Some(TerminatorKind::Return),
            span: Span(3),
            statement_spans: Vec::new(),
        }],
        def_paths: VecMap::new(),
        is_drop_context: false,
        local_foreign_fns: VecSet::new(),
    };
    let mut flow = compute_flow(&b, VecMap::new());
    let mut state = BlockState::new();
    state.const_ptr_cast.insert(305);
    flow.entry_states[0] = Some(state);
    let findings = CastAwayConst.check(&b, &flow);
    assert_eq!(findings.len(), 1);
    assert_eq!(findings[0].span, Span(3));
    assert!(findings[0].message.starts_with("`*_305 = ...`"));
}

/// A body whose entry block runs `stmts` (at spans 20, 21, ...) and then
/// calls `path` with `args` (or returns, when `path` is empty).
fn running(stmts: Vec<Statement>, path: &str, args: Vec<Operand>, tys: Vec<Ty>) -> Body {
    let mut def_paths = VecMap::new();
    def_paths.insert(DefId { krate: 0, index: 1 }, path.to_string());
    let term = if path.is_empty() {
        TerminatorKind::Return
    } else {
        TerminatorKind::Call {
            func: fn_const(1),
            resolved: None,
            args,
            destination: local(0),
            target: Some(1),
            unwind: UnwindAction::Other,
        }
    };
    let spans = (0..stmts.len()).map(|i| Span(20 + i as u32)).collect();
    Body {
        arg_count: 2,
        local_decls: tys,
        basic_blocks: vec![
            BasicBlockData { statements: stmts, terminator: Some(term), span: Span(3), statement_spans: spans },
            BasicBlockData { statements: Vec::new(), terminator: Some(TerminatorKind::Return), span: Span(4), statement_spans: Vec::new() },
        ],
        def_paths,
        is_drop_context: false,
        local_foreign_fns: VecSet::new(),
    }
}

fn deref(l: u32) -> Place {
    Place { local: l, projection: vec![ProjectionElem::Deref] }
}

#[test]
fn cast_from_const_pointer_is_tracked_through_copies() {
    // _2 = _1 as *mut T; _3 = copy _2; *_3 = 1; with _1: *const T.
    let stmts = vec![
        Statement::Assign(local(2), Rvalue::Cast(CastKind::PtrToPtr, Operand::Copy(local(1)), Ty::RawPtr(Mutability::Mut))),
        Statement::Assign(local(3), Rvalue::Use(Operand::Copy(local(2)))),
        Statement::Assign(deref(3), Rvalue::Use(int_const(1))),
    ];
    let tys = vec![Ty::Other, Ty::RawPtr(Mutability::Not), Ty::RawPtr(Mutability::Mut), Ty::RawPtr(Mutability::Mut)];
    let b = running(stmts, "", Vec::new(), tys);
    let flow = compute_flow(&b, VecMap::new());
    let findings = CastAwayConst.check(&b, &flow);
    assert_eq!(findings.len(), 1);
    assert_eq!(findings[0].span, Span(22));
    assert!(findings[0].message.starts_with("`*_3 = ...`"));
}

#[test]
fn cast_from_mut_pointer_is_not_tracked() {
    let stmts = vec![
        Statement::Assign(local(2), Rvalue::Cast(CastKind::PtrToPtr, Operand::Copy(local(1)), Ty::RawPtr(Mutability::Mut))),
        Statement::Assign(deref(2), Rvalue::Use(int_const(1))),
    ];
    let tys = vec![Ty::Other, Ty::RawPtr(Mutability::Mut), Ty::RawPtr(Mutability::Mut)];
    let b = running(stmts, "", Vec::new(), tys);
    let flow = compute_flow(&b, VecMap::new());
    assert!(CastAwayConst.check(&b, &flow).is_empty());
}

#[test]
fn reassigning_the_cast_pointer_clears_it() {
    let stmts = vec![
        Statement::Assign(local(2), Rvalue::Cast(CastKind::PtrToPtr, Operand::Copy(local(1)), Ty::RawPtr(Mutability::Mut))),
        Statement::Assign(local(2), Rvalue::Other),
    ];
    let tys = vec![Ty::Other, Ty::RawPtr(Mutability::Not), Ty::RawPtr(Mutability::Mut)];
    let b = running(stmts, "core::ptr::write", vec![Operand::Copy(local(2)), int_const(0)], tys);
    let flow = compute_flow(&b, VecMap::new());
    assert!(CastAwayConst.check(&b, &flow).is_empty());
}

#[test]
fn write_call_through_cast_pointer_is_reported() {
    let stmts = vec![
        Statement::Assign(local(2), Rvalue::Cast(CastKind::PtrToPtr, Operand::Move(local(1)), Ty::RawPtr(Mutability::Mut))),
    ];
    let tys = vec![Ty::Other, Ty::RawPtr(Mutability::Not), Ty::RawPtr(Mutability::Mut)];
    let b = running(stmts, "core::ptr::write", vec![Operand::Copy(local(2)), int_const(0)], tys);
    let flow = compute_flow(&b, VecMap::new());
    let findings = CastAwayConst.check(&b, &flow);
    assert_eq!(findings.len(), 1);
    assert_eq!(findings[0].span, Span(3));
    assert!(findings[0].message.starts_with("`write(_2, ...)`"));
}

fn u64t() -> Ty {
    Ty::Uint(UintTy::U64)
}

fn layout_args(size: u32) -> Vec<Operand> {
    vec![Operand::Move(local(size)), int_const(8)]
}

#[test]
fn unbounded_product_as_layout_size_is_reported() {
    // _3 = _1 * _2; Layout::from_size_align_unchecked(move _3, 8)
    let stmts = vec![Statement::Assign(
        local(3),
        Rvalue::BinaryOp(BinOp::Mul, Operand::Copy(local(1)), Operand::Copy(local(2))),
    )];
    let tys = vec![Ty::Other, u64t(), u64t(), u64t()];
    let b = running(stmts, "core::alloc::Layout::from_size_align_unchecked", layout_args(3), tys);
    let flow = compute_flow(&b, VecMap::new());
    let findings = AllocSizeOverflow.check(&b, &flow);
    assert_eq!(findings.len(), 1);
    assert_eq!(findings[0].rule_id, "alloc_size_overflow");
    assert_eq!(findings[0].span, Span(3));
    // The layout rule leaves a power-of-two alignment with this size to the overflow rule.
    assert!(LayoutUnchecked.check(&b, &flow).is_empty());
}

#[test]
fn copied_sum_keeps_its_overflow_mark() {
    let stmts = vec![
        Statement::Assign(local(3), Rvalue::BinaryOp(BinOp::Add, Operand::Copy(local(1)), int_const(1))),
        Statement::Assign(local(4), Rvalue::Use(Operand::Copy(local(3)))),
    ];
    let tys = vec![Ty::Other, u64t(), u64t(), u64t(), u64t()];
    let b = running(stmts, "core::alloc::Layout::from_size_align_unchecked", layout_args(4), tys);
    let flow = compute_flow(&b, VecMap::new());
    assert_eq!(AllocSizeOverflow.check(&b, &flow).len(), 1);
}

#[test]
fn product_of_small_bounds_is_not_reported() {
    let stmts = vec![Statement::Assign(
        local(3),
        Rvalue::BinaryOp(BinOp::Mul, int_const(4096), int_const(64)),
    )];
    let tys = vec![Ty::Other, u64t(), u64t(), u64t()];
    let b = running(stmts, "core::alloc::Layout::from_size_align_unchecked", layout_args(3), tys);
    let flow = compute_flow(&b, VecMap::new());
    assert!(AllocSizeOverflow.check(&b, &flow).is_empty());
    let huge = vec![Statement::Assign(
        local(3),
        Rvalue::BinaryOp(BinOp::Mul, int_const(0x1_0000_0000), int_const(0x8000_0000)),
    )];
    let tys = vec![Ty::Other, u64t(), u64t(), u64t()];
    let b = running(huge, "core::alloc::Layout::from_size_align_unchecked", layout_args(3), tys);
    let flow = compute_flow(&b, VecMap::new());
    assert_eq!(AllocSizeOverflow.check(&b, &flow).len(), 1);
}
