use lib::analysis::dataflow::compute_flow;
use lib::checkers::Severity;
use lib::collections::{VecMap, VecSet};
use lib::mir::{BasicBlockData, Body, Constant, DefId, Operand, Place, Span, TerminatorKind, Ty, UnwindAction};
use lib::checkers::allocator_methods::AllocatorMethods;
use lib::checkers::arc_from_raw::ArcFromRaw;
use lib::checkers::arc_get_mut_unchecked::ArcGetMutUnchecked;
use lib::checkers::arc_strong_count::ArcStrongCount;
use lib::checkers::arch_intrinsic::ArchIntrinsic;
use lib::checkers::arrayvec_unchecked::ArrayvecUnchecked;
use lib::checkers::ascii_unchecked::AsciiUnchecked;
use lib::checkers::assume_init::AssumeInit;
use lib::checkers::atomic_from_ptr::AtomicFromPtr;
use lib::checkers::atomic_ptr_arith::AtomicPtrArith;
use lib::checkers::binary_heap_unsafe::BinaryHeapUnsafe;
use lib::checkers::bitvec_unchecked::BitvecUnchecked;
use lib::checkers::borrowed_cursor_advance::BorrowedCursorAdvance;
use lib::checkers::box_from_raw::BoxFromRaw;
use lib::checkers::btree_cursor_unchecked::BTreeCursorUnchecked;
use lib::checkers::bytes_buf::BytesBuf;
use lib::checkers::cstr_from_bytes_unchecked::CStrFromBytesUnchecked;
use lib::checkers::cstr_from_ptr::CStrFromPtr;
use lib::checkers::cstring_as_ptr::CStringAsPtr;
use lib::checkers::cstring_from_raw::CStringFromRaw;
use lib::checkers::cstring_from_vec_unchecked::CStringFromVecUnchecked;
use lib::checkers::downcast_unchecked::DowncastUnchecked;
use lib::checkers::env_set_var::EnvSetVar;
use lib::checkers::fast_float_arith::FastFloatArith;
use lib::checkers::float_to_int_unchecked::FloatToIntUnchecked;
use lib::checkers::from_bytes_unchecked::FromBytesUnchecked;
use lib::checkers::hashbrown_map_unchecked::HashbrownMapUnchecked;
use lib::checkers::hashbrown_raw::HashbrownRaw;
use lib::checkers::hashmap_disjoint_unchecked::HashMapDisjointUnchecked;
use lib::checkers::heapless_unchecked::HeaplessUnchecked;
use lib::checkers::hint_assert_unchecked::HintAssertUnchecked;
use lib::checkers::http_unchecked::HttpUnchecked;
use lib::checkers::layout_for_value_raw::LayoutForValueRaw;
use lib::checkers::into_raw::IntoRaw;
use lib::checkers::ctlz_nonzero::CtlzNonzero;

/// A body whose only block calls the function at `path` and returns.
fn calling(path: &str) -> Body {
    let mut def_paths = VecMap::new();
    def_paths.insert(DefId { krate: 0, index: 1 }, path.to_string());
    let call = TerminatorKind::Call {
        func: Operand::Constant(Constant { scalar_bits: None, fn_def: Some(DefId { krate: 0, index: 1 }) }),
        resolved: None,
        args: vec![Operand::Copy(Place { local: 1, projection: Vec::new() })],
        destination: Place { local: 0, projection: Vec::new() },
        target: Some(1),
        unwind: UnwindAction::Other,
    };
    Body {
        arg_count: 1,
        local_decls: vec![Ty::Other, Ty::Other],
        basic_blocks: vec![
            BasicBlockData { statements: Vec::new(), terminator: Some(call), span: Span(5), statement_spans: Vec::new() },
            BasicBlockData { statements: Vec::new(), terminator: Some(TerminatorKind::Return), span: Span(6), statement_spans: Vec::new() },
        ],
        def_paths,
        is_drop_context: false,
        local_foreign_fns: VecSet::new(),
    }
}

#[test]
fn allocator_methods_reports_rule_0() {
    let b = calling("demo::::Allocator::deallocate");
    let flow = compute_flow(&b, VecMap::new());
    let findings = AllocatorMethods.check(&b, &flow);
    assert_eq!(findings.len(), 1);
    assert_eq!(findings[0].rule_id, "allocator_methods");
    assert_eq!(findings[0].severity, Severity::Warning);
    assert_eq!(findings[0].span, Span(5));
    assert_eq!(findings[0].message, "`Allocator::deallocate` — ptr must have been returned by this same allocator with the exact same layout; wrong allocator, wrong layout, or double-free is immediate UB; the allocation is consumed — do not use ptr after this call");
}

#[test]
fn allocator_methods_reports_rule_1() {
    let b = calling("demo::::Allocator::grow");
    let flow = compute_flow(&b, VecMap::new());
    let findings = AllocatorMethods.check(&b, &flow);
    assert_eq!(findings.len(), 1);
    assert_eq!(findings[0].rule_id, "allocator_methods");
    assert_eq!(findings[0].severity, Severity::Warning);
    assert_eq!(findings[0].span, Span(5));
    assert_eq!(findings[0].message, "`Allocator::grow` — ptr must come from this allocator with old_layout; new_layout.size() must be >= old_layout.size(); the old ptr is consumed on success — do not use it after a successful grow");
}

#[test]
fn allocator_methods_reports_rule_2() {
    let b = calling("demo::::Allocator::shrink");
    let flow = compute_flow(&b, VecMap::new());
    let findings = AllocatorMethods.check(&b, &flow);
    assert_eq!(findings.len(), 1);
    assert_eq!(findings[0].rule_id, "allocator_methods");
    assert_eq!(findings[0].severity, Severity::Warning);
    assert_eq!(findings[0].span, Span(5));
    assert_eq!(findings[0].message, "`Allocator::shrink` — ptr must come from this allocator with old_layout; new_layout.size() must be <= old_layout.size(); the old ptr is consumed on success — do not use it after a successful shrink");
}

#[test]
fn allocator_methods_ignores_unrelated_calls() {
    let b = calling("core::ptr::null");
    let flow = compute_flow(&b, VecMap::new());
    assert!(AllocatorMethods.check(&b, &flow).is_empty());
}

#[test]
fn arc_from_raw_reports_rule_0() {
    let b = calling("demo::::Arc::<T>::from_raw");
    let flow = compute_flow(&b, VecMap::new());
    let findings = ArcFromRaw.check(&b, &flow);
    assert_eq!(findings.len(), 1);
    assert_eq!(findings[0].rule_id, "arc_from_raw");
    assert_eq!(findings[0].severity, Severity::Warning);
    assert_eq!(findings[0].span, Span(5));
    assert_eq!(findings[0].message, "`Arc::from_raw` — pointer must come from Arc::into_raw; does NOT increment the count; calling twice on the same pointer creates two Arcs that will double-free on drop");
}

#[test]
fn arc_from_raw_reports_rule_1() {
    let b = calling("demo::::Rc::<T>::from_raw");
    let flow = compute_flow(&b, VecMap::new());
    let findings = ArcFromRaw.check(&b, &flow);
    assert_eq!(findings.len(), 1);
    assert_eq!(findings[0].rule_id, "arc_from_raw");
    assert_eq!(findings[0].severity, Severity::Warning);
    assert_eq!(findings[0].span, Span(5));
    assert_eq!(findings[0].message, "`Rc::from_raw` — pointer must come from Rc::into_raw; does NOT increment the count; calling twice on the same pointer causes double-free on drop");
}

#[test]
fn arc_from_raw_reports_rule_2() {
    let b = calling("demo::::Arc::<T>::increment_strong_count");
    let flow = compute_flow(&b, VecMap::new());
    let findings = ArcFromRaw.check(&b, &flow);
    assert_eq!(findings.len(), 1);
    assert_eq!(findings[0].rule_id, "arc_from_raw");
    assert_eq!(findings[0].severity, Severity::Warning);
    assert_eq!(findings[0].span, Span(5));
    assert_eq!(findings[0].message, "`Arc::increment_strong_count` — pointer must be valid for the lifetime of the call; every increment must be paired with exactly one decrement or from_raw — mismatches cause premature free (underflow) or memory leak (overflow)");
}

#[test]
fn arc_from_raw_ignores_unrelated_calls() {
    let b = calling("core::ptr::null");
    let flow = compute_flow(&b, VecMap::new());
    assert!(ArcFromRaw.check(&b, &flow).is_empty());
}

#[test]
fn arc_get_mut_unchecked_reports_rule_0() {
    let b = calling("demo::Arc::get_mut_unchecked");
    let flow = compute_flow(&b, VecMap::new());
    let findings = ArcGetMutUnchecked.check(&b, &flow);
    assert_eq!(findings.len(), 1);
    assert_eq!(findings[0].rule_id, "arc_get_mut_unchecked");
    assert_eq!(findings[0].severity, Severity::Warning);
    assert_eq!(findings[0].span, Span(5));
    assert_eq!(findings[0].message, "`Arc::get_mut_unchecked` — strong count must be exactly 1 and no Weak must be upgrading; also ensure no other Arc/Weak is dropped concurrently — the refcount write races with the returned &mut T (Issue #136322)");
}

#[test]
fn arc_get_mut_unchecked_reports_rule_1() {
    let b = calling("demo::Rc::get_mut_unchecked");
    let flow = compute_flow(&b, VecMap::new());
    let findings = ArcGetMutUnchecked.check(&b, &flow);
    assert_eq!(findings.len(), 1);
    assert_eq!(findings[0].rule_id, "arc_get_mut_unchecked");
    assert_eq!(findings[0].severity, Severity::Warning);
    assert_eq!(findings[0].span, Span(5));
    assert_eq!(findings[0].message, "`Rc::get_mut_unchecked` — strong count must be exactly 1 and no Weak must be upgrading; also ensure no Rc clone is dropped for the borrow duration — a concurrent refcount decrement to zero while the &mut T is live is unsound (Issue #136322)");
}

#[test]
fn arc_get_mut_unchecked_ignores_unrelated_calls() {
    let b = calling("core::ptr::null");
    let flow = compute_flow(&b, VecMap::new());
    assert!(ArcGetMutUnchecked.check(&b, &flow).is_empty());
}

#[test]
fn arc_strong_count_reports_rule_0() {
    let b = calling("demo::Arc::increment_strong_count");
    let flow = compute_flow(&b, VecMap::new());
    let findings = ArcStrongCount.check(&b, &flow);
    assert_eq!(findings.len(), 1);
    assert_eq!(findings[0].rule_id, "arc_strong_count");
    assert_eq!(findings[0].severity, Severity::Warning);
    assert_eq!(findings[0].span, Span(5));
    assert_eq!(findings[0].message, "`Arc::increment_strong_count` — manually increments the strong count of a raw `Arc` pointer; ptr must be valid and owned by a live `Arc`, and every manual increment must be balanced by a matching decrement or `Arc::from_raw`; an unbalanced increment causes a memory leak; an increment after the last `Arc` was dropped is use-after-free");
}

#[test]
fn arc_strong_count_reports_rule_1() {
    let b = calling("demo::Rc::increment_strong_count");
    let flow = compute_flow(&b, VecMap::new());
    let findings = ArcStrongCount.check(&b, &flow);
    assert_eq!(findings.len(), 1);
    assert_eq!(findings[0].rule_id, "arc_strong_count");
    assert_eq!(findings[0].severity, Severity::Warning);
    assert_eq!(findings[0].span, Span(5));
    assert_eq!(findings[0].message, "`Rc::increment_strong_count` — manually increments the strong count of a raw `Rc` pointer; ptr must be valid and owned by a live `Rc`, and every manual increment must be balanced by a matching decrement or `Rc::from_raw`; an unbalanced increment causes a memory leak; an increment after the last `Rc` was dropped is use-after-free");
}

#[test]
fn arc_strong_count_reports_rule_2() {
    let b = calling("demo::Arc::decrement_strong_count");
    let flow = compute_flow(&b, VecMap::new());
    let findings = ArcStrongCount.check(&b, &flow);
    assert_eq!(findings.len(), 1);
    assert_eq!(findings[0].rule_id, "arc_strong_count");
    assert_eq!(findings[0].severity, Severity::Warning);
    assert_eq!(findings[0].span, Span(5));
    assert_eq!(findings[0].message, "`Arc::decrement_strong_count` — manually decrements the strong count of a raw `Arc` pointer; if this brings the count to zero, the value is **dropped and freed** while the raw pointer still exists — any subsequent access is use-after-free; must be exactly balanced with prior increments or clones");
}

#[test]
fn arc_strong_count_ignores_unrelated_calls() {
    let b = calling("core::ptr::null");
    let flow = compute_flow(&b, VecMap::new());
    assert!(ArcStrongCount.check(&b, &flow).is_empty());
}

#[test]
fn arch_intrinsic_reports_rule_0() {
    let b = calling("demo::arch::x86::x86_64");
    let flow = compute_flow(&b, VecMap::new());
    let findings = ArchIntrinsic.check(&b, &flow);
    assert_eq!(findings.len(), 1);
    assert_eq!(findings[0].rule_id, "arch_intrinsic");
    assert_eq!(findings[0].severity, Severity::Warning);
    assert_eq!(findings[0].span, Span(5));
    assert_eq!(findings[0].message, "`x86_64` (x86/x86_64 intrinsic) — requires the correct CPU feature to be active (missing feature → SIGILL); pointer-based intrinsics require correct alignment and valid memory; use `is_x86_feature_detected!()` or `#[target_feature(enable)]` to guard");
}

#[test]
fn arch_intrinsic_ignores_unrelated_calls() {
    let b = calling("core::ptr::null");
    let flow = compute_flow(&b, VecMap::new());
    assert!(ArchIntrinsic.check(&b, &flow).is_empty());
}

#[test]
fn arrayvec_unchecked_reports_rule_0() {
    let b = calling("demo::arrayvec::into_inner_unchecked");
    let flow = compute_flow(&b, VecMap::new());
    let findings = ArrayvecUnchecked.check(&b, &flow);
    assert_eq!(findings.len(), 1);
    assert_eq!(findings[0].rule_id, "arrayvec_unchecked");
    assert_eq!(findings[0].severity, Severity::Warning);
    assert_eq!(findings[0].span, Span(5));
    assert_eq!(findings[0].message, "`ArrayVec::into_inner_unchecked` — the vector must be completely full (len == CAP) before calling; trailing uninitialized slots become uninitialized `T` values in the returned array (UB); use `into_inner()` for the checked version");
}

#[test]
fn arrayvec_unchecked_ignores_unrelated_calls() {
    let b = calling("core::ptr::null");
    let flow = compute_flow(&b, VecMap::new());
    assert!(ArrayvecUnchecked.check(&b, &flow).is_empty());
}

#[test]
fn ascii_unchecked_reports_rule_0() {
    let b = calling("demo::::Char::from_u8_unchecked");
    let flow = compute_flow(&b, VecMap::new());
    let findings = AsciiUnchecked.check(&b, &flow);
    assert_eq!(findings.len(), 1);
    assert_eq!(findings[0].rule_id, "ascii_unchecked");
    assert_eq!(findings[0].severity, Severity::Warning);
    assert_eq!(findings[0].span, Span(5));
    assert_eq!(findings[0].message, "`ascii::Char::from_u8_unchecked` — byte must be < 128; values >= 128 are not valid ASCII and produce an ascii::Char with an invalid bit pattern (UB); use from_u8() instead");
}

#[test]
fn ascii_unchecked_reports_rule_1() {
    let b = calling("demo::::Char::digit_unchecked");
    let flow = compute_flow(&b, VecMap::new());
    let findings = AsciiUnchecked.check(&b, &flow);
    assert_eq!(findings.len(), 1);
    assert_eq!(findings[0].rule_id, "ascii_unchecked");
    assert_eq!(findings[0].severity, Severity::Warning);
    assert_eq!(findings[0].span, Span(5));
    assert_eq!(findings[0].message, "`ascii::Char::digit_unchecked` — argument must be in 0..=9; any other value produces an invalid ascii::Char (UB); use Char::from_u8 or explicit matching instead");
}

#[test]
fn ascii_unchecked_reports_rule_2() {
    let b = calling("demo::str::as_ascii_unchecked");
    let flow = compute_flow(&b, VecMap::new());
    let findings = AsciiUnchecked.check(&b, &flow);
    assert_eq!(findings.len(), 1);
    assert_eq!(findings[0].rule_id, "ascii_unchecked");
    assert_eq!(findings[0].severity, Severity::Warning);
    assert_eq!(findings[0].span, Span(5));
    assert_eq!(findings[0].message, "`str::as_ascii_unchecked` — every byte in the string must be valid ASCII (< 128); a single non-ASCII byte is UB; use str::as_ascii() which returns Option");
}

#[test]
fn ascii_unchecked_ignores_unrelated_calls() {
    let b = calling("core::ptr::null");
    let flow = compute_flow(&b, VecMap::new());
    assert!(AsciiUnchecked.check(&b, &flow).is_empty());
}

#[test]
fn assume_init_reports_rule_0() {
    let b = calling("demo::MaybeUninit::assume_init");
    let flow = compute_flow(&b, VecMap::new());
    let findings = AssumeInit.check(&b, &flow);
    assert_eq!(findings.len(), 1);
    assert_eq!(findings[0].rule_id, "assume_init");
    assert_eq!(findings[0].severity, Severity::Warning);
    assert_eq!(findings[0].span, Span(5));
    assert_eq!(findings[0].message, "`assume_init` — assume_init");
}

#[test]
fn assume_init_reports_rule_1() {
    let b = calling("demo::ReadBuf::assume_init");
    let flow = compute_flow(&b, VecMap::new());
    let findings = AssumeInit.check(&b, &flow);
    assert_eq!(findings.len(), 1);
    assert_eq!(findings[0].rule_id, "assume_init");
    assert_eq!(findings[0].severity, Severity::Warning);
    assert_eq!(findings[0].span, Span(5));
    assert_eq!(findings[0].message, "`ReadBuf::assume_init` — marks the first n bytes of the unfilled region as initialized without writing to them; caller must have actually written n bytes before this call; unwritten bytes become readable by the buffer consumer (UB)");
}

#[test]
fn assume_init_reports_rule_2() {
    let b = calling("demo::ReadBuf::inner_mut");
    let flow = compute_flow(&b, VecMap::new());
    let findings = AssumeInit.check(&b, &flow);
    assert_eq!(findings.len(), 1);
    assert_eq!(findings[0].rule_id, "assume_init");
    assert_eq!(findings[0].severity, Severity::Warning);
    assert_eq!(findings[0].span, Span(5));
    assert_eq!(findings[0].message, "`ReadBuf::inner_mut` — returns the entire backing buffer as &mut [MaybeUninit<u8>], bypassing ReadBuf's initialization tracking; reading from uninitialized bytes is UB; writing fewer bytes than previously tracked shrinks the initialized region invisibly, causing future readers to observe stale uninitialized data");
}

#[test]
fn assume_init_ignores_unrelated_calls() {
    let b = calling("core::ptr::null");
    let flow = compute_flow(&b, VecMap::new());
    assert!(AssumeInit.check(&b, &flow).is_empty());
}

#[test]
fn atomic_from_ptr_reports_rule_0() {
    let b = calling("demo::sync::atomic::from_ptr");
    let flow = compute_flow(&b, VecMap::new());
    let findings = AtomicFromPtr.check(&b, &flow);
    assert_eq!(findings.len(), 1);
    assert_eq!(findings[0].rule_id, "atomic_from_ptr");
    assert_eq!(findings[0].severity, Severity::Warning);
    assert_eq!(findings[0].span, Span(5));
    assert_eq!(findings[0].message, "`Atomic::from_ptr` — pointer must be non-null, aligned, valid for the reference lifetime, and must not be aliased by non-atomic accesses; concurrent non-atomic access to the same memory is a data race (UB)");
}

#[test]
fn atomic_from_ptr_ignores_unrelated_calls() {
    let b = calling("core::ptr::null");
    let flow = compute_flow(&b, VecMap::new());
    assert!(AtomicFromPtr.check(&b, &flow).is_empty());
}

#[test]
fn atomic_ptr_arith_reports_rule_0() {
    let b = calling("demo::Atomic::fetch_ptr_add");
    let flow = compute_flow(&b, VecMap::new());
    let findings = AtomicPtrArith.check(&b, &flow);
    assert_eq!(findings.len(), 1);
    assert_eq!(findings[0].rule_id, "atomic_ptr_arith");
    assert_eq!(findings[0].severity, Severity::Info);
    assert_eq!(findings[0].span, Span(5));
    assert_eq!(findings[0].message, "`AtomicPtr::fetch_ptr_add` — atomically adds val*size_of::<T>() to the pointer; the result must remain within the same allocation (or one byte past its end) — dereferencing an out-of-bounds result is UB; unit is T elements, not bytes");
}

#[test]
fn atomic_ptr_arith_reports_rule_1() {
    let b = calling("demo::Atomic::fetch_ptr_sub");
    let flow = compute_flow(&b, VecMap::new());
    let findings = AtomicPtrArith.check(&b, &flow);
    assert_eq!(findings.len(), 1);
    assert_eq!(findings[0].rule_id, "atomic_ptr_arith");
    assert_eq!(findings[0].severity, Severity::Info);
    assert_eq!(findings[0].span, Span(5));
    assert_eq!(findings[0].message, "`AtomicPtr::fetch_ptr_sub` — atomically subtracts val*size_of::<T>() from the pointer; result must not go before the start of the allocation — dereferencing such a result is UB; unit is T elements, not bytes");
}

#[test]
fn atomic_ptr_arith_ignores_unrelated_calls() {
    let b = calling("core::ptr::null");
    let flow = compute_flow(&b, VecMap::new());
    assert!(AtomicPtrArith.check(&b, &flow).is_empty());
}

#[test]
fn binary_heap_unsafe_reports_rule_0() {
    let b = calling("demo::BinaryHeap::as_mut_slice");
    let flow = compute_flow(&b, VecMap::new());
    let findings = BinaryHeapUnsafe.check(&b, &flow);
    assert_eq!(findings.len(), 1);
    assert_eq!(findings[0].rule_id, "binary_heap_unsafe");
    assert_eq!(findings[0].severity, Severity::Warning);
    assert_eq!(findings[0].span, Span(5));
    assert_eq!(findings[0].message, "`BinaryHeap::as_mut_slice` — any write through the returned slice must leave a valid max-heap; if the heap property is violated, all subsequent pop/push/peek operations silently return wrong results; restore with rebuild() if needed");
}

#[test]
fn binary_heap_unsafe_reports_rule_1() {
    let b = calling("demo::BinaryHeap::from_raw_vec");
    let flow = compute_flow(&b, VecMap::new());
    let findings = BinaryHeapUnsafe.check(&b, &flow);
    assert_eq!(findings.len(), 1);
    assert_eq!(findings[0].rule_id, "binary_heap_unsafe");
    assert_eq!(findings[0].severity, Severity::Warning);
    assert_eq!(findings[0].span, Span(5));
    assert_eq!(findings[0].message, "`BinaryHeap::from_raw_vec` — the Vec's elements must already satisfy the max-heap invariant; if not, subsequent heap operations produce incorrect results silently; use `BinaryHeap::from(vec)` to re-heapify safely in O(n)");
}

#[test]
fn binary_heap_unsafe_ignores_unrelated_calls() {
    let b = calling("core::ptr::null");
    let flow = compute_flow(&b, VecMap::new());
    assert!(BinaryHeapUnsafe.check(&b, &flow).is_empty());
}

#[test]
fn bitvec_unchecked_reports_rule_0() {
    let b = calling("demo::::copy_within_unchecked");
    let flow = compute_flow(&b, VecMap::new());
    let findings = BitvecUnchecked.check(&b, &flow);
    assert_eq!(findings.len(), 1);
    assert_eq!(findings[0].rule_id, "bitvec_unchecked");
    assert_eq!(findings[0].severity, Severity::Warning);
    assert_eq!(findings[0].span, Span(5));
    assert_eq!(findings[0].message, "::set_aliased_unchecked");
}

#[test]
fn bitvec_unchecked_reports_rule_1() {
    let b = calling("demo::::set_aliased_unchecked");
    let flow = compute_flow(&b, VecMap::new());
    let findings = BitvecUnchecked.check(&b, &flow);
    assert_eq!(findings.len(), 1);
    assert_eq!(findings[0].rule_id, "bitvec_unchecked");
    assert_eq!(findings[0].severity, Severity::Warning);
    assert_eq!(findings[0].span, Span(5));
    assert_eq!(findings[0].message, "bitvec");
}

#[test]
fn bitvec_unchecked_reports_rule_2() {
    let b = calling("demo::bitvec::BitSlice::set_unchecked");
    let flow = compute_flow(&b, VecMap::new());
    let findings = BitvecUnchecked.check(&b, &flow);
    assert_eq!(findings.len(), 1);
    assert_eq!(findings[0].rule_id, "bitvec_unchecked");
    assert_eq!(findings[0].severity, Severity::Warning);
    assert_eq!(findings[0].span, Span(5));
    assert_eq!(findings[0].message, "`BitSlice::set_unchecked` — sets a bit without checking that index < self.len(); out-of-bounds access writes into adjacent storage words (UB); use index-checked bit assignment instead");
}

#[test]
fn bitvec_unchecked_ignores_unrelated_calls() {
    let b = calling("core::ptr::null");
    let flow = compute_flow(&b, VecMap::new());
    assert!(BitvecUnchecked.check(&b, &flow).is_empty());
}

#[test]
fn borrowed_cursor_advance_reports_rule_0() {
    let b = calling("demo::BorrowedCursor::advance");
    let flow = compute_flow(&b, VecMap::new());
    let findings = BorrowedCursorAdvance.check(&b, &flow);
    assert_eq!(findings.len(), 1);
    assert_eq!(findings[0].rule_id, "borrowed_cursor_advance");
    assert_eq!(findings[0].severity, Severity::Warning);
    assert_eq!(findings[0].span, Span(5));
    assert_eq!(findings[0].message, "`BorrowedCursor::advance(n)` — the first `n` bytes of the cursor's unfilled region must be fully initialized before this call; advancing without writing exposes uninitialized bytes to the caller; `n` must also be <= self.capacity()");
}

#[test]
fn borrowed_cursor_advance_reports_rule_1() {
    let b = calling("demo::BorrowedCursor::set_init");
    let flow = compute_flow(&b, VecMap::new());
    let findings = BorrowedCursorAdvance.check(&b, &flow);
    assert_eq!(findings.len(), 1);
    assert_eq!(findings[0].rule_id, "borrowed_cursor_advance");
    assert_eq!(findings[0].severity, Severity::Warning);
    assert_eq!(findings[0].span, Span(5));
    assert_eq!(findings[0].message, "`BorrowedCursor::set_init()` — marks the entire unfilled region as initialized; every byte must have been written before calling; if any byte is still uninitialized, readers of the buffer observe uninitialized memory (UB)");
}

#[test]
fn borrowed_cursor_advance_ignores_unrelated_calls() {
    let b = calling("core::ptr::null");
    let flow = compute_flow(&b, VecMap::new());
    assert!(BorrowedCursorAdvance.check(&b, &flow).is_empty());
}

#[test]
fn box_from_raw_reports_rule_0() {
    let b = calling("demo::::Box::<T>::from_raw");
    let flow = compute_flow(&b, VecMap::new());
    let findings = BoxFromRaw.check(&b, &flow);
    assert_eq!(findings.len(), 1);
    assert_eq!(findings[0].rule_id, "box_from_raw");
    assert_eq!(findings[0].severity, Severity::Warning);
    assert_eq!(findings[0].span, Span(5));
    assert_eq!(findings[0].message, "`Box::from_raw` — pointer must come from `Box::into_raw` for the same T, must not be used again, and must be called exactly once (double-free if called twice)");
}

#[test]
fn box_from_raw_reports_rule_1() {
    let b = calling("demo::::Box::<T, A>::from_raw_in");
    let flow = compute_flow(&b, VecMap::new());
    let findings = BoxFromRaw.check(&b, &flow);
    assert_eq!(findings.len(), 1);
    assert_eq!(findings[0].rule_id, "box_from_raw");
    assert_eq!(findings[0].severity, Severity::Warning);
    assert_eq!(findings[0].span, Span(5));
    assert_eq!(findings[0].message, "`Box::from_raw_in` — pointer must come from `Box::into_raw` for the same T and the allocator `A` must match the one that produced the pointer, must not be used again, and must be called exactly once (double-free if called twice)");
}

#[test]
fn box_from_raw_reports_rule_2() {
    let b = calling("demo::Box::from_non_null");
    let flow = compute_flow(&b, VecMap::new());
    let findings = BoxFromRaw.check(&b, &flow);
    assert_eq!(findings.len(), 1);
    assert_eq!(findings[0].rule_id, "box_from_raw");
    assert_eq!(findings[0].severity, Severity::Warning);
    assert_eq!(findings[0].span, Span(5));
    assert_eq!(findings[0].message, "`Box::from_non_null` — pointer must come from `Box::into_raw` for the same T; NonNull must have been produced by `Box::into_non_null` for the same T, must not be used again, and must be called exactly once (double-free if called twice)");
}

#[test]
fn box_from_raw_ignores_unrelated_calls() {
    let b = calling("core::ptr::null");
    let flow = compute_flow(&b, VecMap::new());
    assert!(BoxFromRaw.check(&b, &flow).is_empty());
}

#[test]
fn btree_cursor_unchecked_reports_rule_0() {
    let b = calling("demo::CursorMut::insert_after_unchecked");
    let flow = compute_flow(&b, VecMap::new());
    let findings = BTreeCursorUnchecked.check(&b, &flow);
    assert_eq!(findings.len(), 1);
    assert_eq!(findings[0].rule_id, "btree_cursor_unchecked");
    assert_eq!(findings[0].severity, Severity::Warning);
    assert_eq!(findings[0].span, Span(5));
    assert_eq!(findings[0].message, "`CursorMut::insert_after_unchecked` — key must not already exist in the map; key must be greater than all keys before the cursor and less than the key immediately after; invariant violation silently corrupts the BTree structure");
}

#[test]
fn btree_cursor_unchecked_reports_rule_1() {
    let b = calling("demo::CursorMut::insert_before_unchecked");
    let flow = compute_flow(&b, VecMap::new());
    let findings = BTreeCursorUnchecked.check(&b, &flow);
    assert_eq!(findings.len(), 1);
    assert_eq!(findings[0].rule_id, "btree_cursor_unchecked");
    assert_eq!(findings[0].severity, Severity::Warning);
    assert_eq!(findings[0].span, Span(5));
    assert_eq!(findings[0].message, "`CursorMut::insert_before_unchecked` — key must not already exist in the map; key must be greater than the key immediately before the cursor and less than all keys after; invariant violation silently corrupts the BTree structure");
}

#[test]
fn btree_cursor_unchecked_reports_rule_2() {
    let b = calling("demo::CursorMut::with_mutable_key");
    let flow = compute_flow(&b, VecMap::new());
    let findings = BTreeCursorUnchecked.check(&b, &flow);
    assert_eq!(findings.len(), 1);
    assert_eq!(findings[0].rule_id, "btree_cursor_unchecked");
    assert_eq!(findings[0].severity, Severity::Warning);
    assert_eq!(findings[0].span, Span(5));
    assert_eq!(findings[0].message, "`CursorMut::with_mutable_key` — returns CursorMutKey which allows direct mutation of keys; caller must maintain the BTree invariant: keys must remain in sorted order and be unique after any mutation; violating the ordering silently corrupts traversal and all subsequent map operations (nightly feature `btree_cursors`, tracking issue #107540)");
}

#[test]
fn btree_cursor_unchecked_ignores_unrelated_calls() {
    let b = calling("core::ptr::null");
    let flow = compute_flow(&b, VecMap::new());
    assert!(BTreeCursorUnchecked.check(&b, &flow).is_empty());
}

#[test]
fn bytes_buf_reports_rule_0() {
    let b = calling("demo::bytes::advance_mut");
    let flow = compute_flow(&b, VecMap::new());
    let findings = BytesBuf.check(&b, &flow);
    assert_eq!(findings.len(), 1);
    assert_eq!(findings[0].rule_id, "bytes_buf");
    assert_eq!(findings[0].severity, Severity::Warning);
    assert_eq!(findings[0].span, Span(5));
    assert_eq!(findings[0].message, "`BufMut::advance_mut` — the first cnt bytes of the unfilled region must be fully initialized BEFORE this call; unwritten bytes become visible to buffer readers (UB); cnt must be <= remaining_mut(); prefer put_slice/put_bytes which write and advance atomically");
}

#[test]
fn bytes_buf_reports_rule_1() {
    let b = calling("demo::bytes::set_len");
    let flow = compute_flow(&b, VecMap::new());
    let findings = BytesBuf.check(&b, &flow);
    assert_eq!(findings.len(), 1);
    assert_eq!(findings[0].rule_id, "bytes_buf");
    assert_eq!(findings[0].severity, Severity::Warning);
    assert_eq!(findings[0].span, Span(5));
    assert_eq!(findings[0].message, "`BytesMut::set_len` — sets buffer length without initializing bytes; if len > capacity this writes into unallocated memory (OOB, UB); if len > current_len without initialization, future reads access uninitialized memory (UB)");
}

#[test]
fn bytes_buf_reports_rule_2() {
    let b = calling("demo::UninitSlice::from_raw_parts_mut");
    let flow = compute_flow(&b, VecMap::new());
    let findings = BytesBuf.check(&b, &flow);
    assert_eq!(findings.len(), 1);
    assert_eq!(findings[0].rule_id, "bytes_buf");
    assert_eq!(findings[0].severity, Severity::Warning);
    assert_eq!(findings[0].span, Span(5));
    assert_eq!(findings[0].message, "`UninitSlice::from_raw_parts_mut` — creates a mutable uninit byte slice from a raw pointer without validity checks; ptr must be non-null, aligned, valid for len bytes of writes, and not aliased by any other reference for the slice's lifetime");
}

#[test]
fn bytes_buf_ignores_unrelated_calls() {
    let b = calling("core::ptr::null");
    let flow = compute_flow(&b, VecMap::new());
    assert!(BytesBuf.check(&b, &flow).is_empty());
}

#[test]
fn cstr_from_bytes_unchecked_reports_rule_0() {
    let b = calling("demo::::CStr::from_bytes_with_nul_unchecked");
    let flow = compute_flow(&b, VecMap::new());
    let findings = CStrFromBytesUnchecked.check(&b, &flow);
    assert_eq!(findings.len(), 1);
    assert_eq!(findings[0].rule_id, "cstr_from_bytes_unchecked");
    assert_eq!(findings[0].severity, Severity::Warning);
    assert_eq!(findings[0].span, Span(5));
    assert_eq!(findings[0].message, "`CStr::from_bytes_with_nul_unchecked` — bytes must end with exactly one \\0 byte and contain no interior nuls; missing terminator causes buffer overread, interior nuls silently truncate C strings; use `CStr::from_bytes_with_nul` (returns Result) instead");
}

#[test]
fn cstr_from_bytes_unchecked_ignores_unrelated_calls() {
    let b = calling("core::ptr::null");
    let flow = compute_flow(&b, VecMap::new());
    assert!(CStrFromBytesUnchecked.check(&b, &flow).is_empty());
}

#[test]
fn cstr_from_ptr_reports_rule_0() {
    let b = calling("demo::::CStr::from_ptr");
    let flow = compute_flow(&b, VecMap::new());
    let findings = CStrFromPtr.check(&b, &flow);
    assert_eq!(findings.len(), 1);
    assert_eq!(findings[0].rule_id, "cstr_from_ptr");
    assert_eq!(findings[0].severity, Severity::Warning);
    assert_eq!(findings[0].span, Span(5));
    assert_eq!(findings[0].message, "`CStr::from_ptr` — ptr must be non-null, point to a valid null-terminated C string, and remain valid for the returned &CStr's lifetime; embedded null bytes silently truncate the string (path injection risk)");
}

#[test]
fn cstr_from_ptr_reports_rule_1() {
    let b = calling("demo::::CStr::from_bytes_with_nul_unchecked");
    let flow = compute_flow(&b, VecMap::new());
    let findings = CStrFromPtr.check(&b, &flow);
    assert_eq!(findings.len(), 1);
    assert_eq!(findings[0].rule_id, "cstr_from_ptr");
    assert_eq!(findings[0].severity, Severity::Warning);
    assert_eq!(findings[0].span, Span(5));
    assert_eq!(findings[0].message, "`CStr::from_bytes_with_nul_unchecked` — bytes must end with exactly one b'\\0' and contain no interior null bytes; use CStr::from_bytes_with_nul (returns Result) instead");
}

#[test]
fn cstr_from_ptr_reports_rule_2() {
    let b = calling("demo::::CString::from_vec_unchecked");
    let flow = compute_flow(&b, VecMap::new());
    let findings = CStrFromPtr.check(&b, &flow);
    assert_eq!(findings.len(), 1);
    assert_eq!(findings[0].rule_id, "cstr_from_ptr");
    assert_eq!(findings[0].severity, Severity::Warning);
    assert_eq!(findings[0].span, Span(5));
    assert_eq!(findings[0].message, "`CString::from_vec_unchecked` — bytes must contain no null bytes (interior or trailing); use CString::new (returns Result) instead");
}

#[test]
fn cstr_from_ptr_ignores_unrelated_calls() {
    let b = calling("core::ptr::null");
    let flow = compute_flow(&b, VecMap::new());
    assert!(CStrFromPtr.check(&b, &flow).is_empty());
}

#[test]
fn cstring_as_ptr_reports_rule_0() {
    let b = calling("demo::::CString::as_ptr");
    let flow = compute_flow(&b, VecMap::new());
    let findings = CStringAsPtr.check(&b, &flow);
    assert_eq!(findings.len(), 1);
    assert_eq!(findings[0].rule_id, "cstring_as_ptr");
    assert_eq!(findings[0].severity, Severity::Warning);
    assert_eq!(findings[0].span, Span(5));
    assert_eq!(findings[0].message, "`CString::as_ptr` — pointer is only valid while the CString is alive; if called on a temporary (`CString::new(...).unwrap().as_ptr()`), the CString is dropped at the semicolon and the pointer is immediately dangling");
}

#[test]
fn cstring_as_ptr_reports_rule_1() {
    let b = calling("demo::::CString::into_raw");
    let flow = compute_flow(&b, VecMap::new());
    let findings = CStringAsPtr.check(&b, &flow);
    assert_eq!(findings.len(), 1);
    assert_eq!(findings[0].rule_id, "cstring_as_ptr");
    assert_eq!(findings[0].severity, Severity::Warning);
    assert_eq!(findings[0].span, Span(5));
    assert_eq!(findings[0].message, "`CString::into_raw` — leaks the CString — memory must be freed via `CString::from_raw` with the same pointer exactly once; double-free or leak if misused");
}

#[test]
fn cstring_as_ptr_reports_rule_2() {
    let b = calling("demo::::CString::from_vec_unchecked");
    let flow = compute_flow(&b, VecMap::new());
    let findings = CStringAsPtr.check(&b, &flow);
    assert_eq!(findings.len(), 1);
    assert_eq!(findings[0].rule_id, "cstring_as_ptr");
    assert_eq!(findings[0].severity, Severity::Warning);
    assert_eq!(findings[0].span, Span(5));
    assert_eq!(findings[0].message, "`CString::from_vec_unchecked` — bytes must not contain interior nul bytes; if they do, C functions receiving the pointer will stop at the first nul, causing truncation or security-relevant null-byte injection (e.g. in path construction); use `CString::new` for the checked version");
}

#[test]
fn cstring_as_ptr_ignores_unrelated_calls() {
    let b = calling("core::ptr::null");
    let flow = compute_flow(&b, VecMap::new());
    assert!(CStringAsPtr.check(&b, &flow).is_empty());
}

#[test]
fn cstring_from_raw_reports_rule_0() {
    let b = calling("demo::::CString::from_raw");
    let flow = compute_flow(&b, VecMap::new());
    let findings = CStringFromRaw.check(&b, &flow);
    assert_eq!(findings.len(), 1);
    assert_eq!(findings[0].rule_id, "cstring_from_raw");
    assert_eq!(findings[0].severity, Severity::Warning);
    assert_eq!(findings[0].span, Span(5));
    assert_eq!(findings[0].message, "`CString::from_raw` — ptr must have been obtained from `CString::into_raw` with the same allocator; do not call twice (double-free); do not use ptr after this call (use-after-free); buffer must be unmodified with nul terminator intact");
}

#[test]
fn cstring_from_raw_ignores_unrelated_calls() {
    let b = calling("core::ptr::null");
    let flow = compute_flow(&b, VecMap::new());
    assert!(CStringFromRaw.check(&b, &flow).is_empty());
}

#[test]
fn cstring_from_vec_unchecked_reports_rule_0() {
    let b = calling("demo::::CString::from_vec_unchecked");
    let flow = compute_flow(&b, VecMap::new());
    let findings = CStringFromVecUnchecked.check(&b, &flow);
    assert_eq!(findings.len(), 1);
    assert_eq!(findings[0].rule_id, "cstring_from_vec_unchecked");
    assert_eq!(findings[0].severity, Severity::Warning);
    assert_eq!(findings[0].span, Span(5));
    assert_eq!(findings[0].message, "`CString::from_vec_unchecked` — the byte vector must contain no interior nul bytes (0x00); any embedded nul will silently truncate the string when passed to C APIs, causing logic errors or path-traversal vulnerabilities; use `CString::new` for the checked alternative");
}

#[test]
fn cstring_from_vec_unchecked_reports_rule_1() {
    let b = calling("demo::::CString::from_vec_with_nul_unchecked");
    let flow = compute_flow(&b, VecMap::new());
    let findings = CStringFromVecUnchecked.check(&b, &flow);
    assert_eq!(findings.len(), 1);
    assert_eq!(findings[0].rule_id, "cstring_from_vec_unchecked");
    assert_eq!(findings[0].severity, Severity::Warning);
    assert_eq!(findings[0].span, Span(5));
    assert_eq!(findings[0].message, "`CString::from_vec_with_nul_unchecked` — the vector must end with exactly one 0x00 byte and have no interior nuls; missing or misplaced terminator produces a `CString` that violates C-string invariants, causing UB in any C API that reads until the first nul; use `CString::from_vec_with_nul` for the checked alternative");
}

#[test]
fn cstring_from_vec_unchecked_ignores_unrelated_calls() {
    let b = calling("core::ptr::null");
    let flow = compute_flow(&b, VecMap::new());
    assert!(CStringFromVecUnchecked.check(&b, &flow).is_empty());
}

#[test]
fn downcast_unchecked_reports_rule_0() {
    let b = calling("demo::Rc::downcast_unchecked::downcast_unchecked_ref");
    let flow = compute_flow(&b, VecMap::new());
    let findings = DowncastUnchecked.check(&b, &flow);
    assert_eq!(findings.len(), 1);
    assert_eq!(findings[0].rule_id, "downcast_unchecked");
    assert_eq!(findings[0].severity, Severity::Warning);
    assert_eq!(findings[0].span, Span(5));
    assert_eq!(findings[0].message, "`downcast_unchecked_ref` on `Rc<dyn Any>` (or `dyn Any`) — caller must guarantee the actual runtime type is exactly T; a type mismatch produces a reference to the wrong type (type-confusion UB); use the checked downcast or `Any::is::<T>()` guard first");
}

#[test]
fn downcast_unchecked_reports_rule_1() {
    let b = calling("demo::Arc::downcast_unchecked::downcast_unchecked_ref");
    let flow = compute_flow(&b, VecMap::new());
    let findings = DowncastUnchecked.check(&b, &flow);
    assert_eq!(findings.len(), 1);
    assert_eq!(findings[0].rule_id, "downcast_unchecked");
    assert_eq!(findings[0].severity, Severity::Warning);
    assert_eq!(findings[0].span, Span(5));
    assert_eq!(findings[0].message, "`downcast_unchecked_ref` on `Arc<dyn Any>` (or `dyn Any`) — caller must guarantee the actual runtime type is exactly T; a type mismatch produces a reference to the wrong type (type-confusion UB); use the checked downcast or `Any::is::<T>()` guard first");
}

#[test]
fn downcast_unchecked_reports_rule_2() {
    let b = calling("demo::::downcast_unchecked::downcast_unchecked_ref");
    let flow = compute_flow(&b, VecMap::new());
    let findings = DowncastUnchecked.check(&b, &flow);
    assert_eq!(findings.len(), 1);
    assert_eq!(findings[0].rule_id, "downcast_unchecked");
    assert_eq!(findings[0].severity, Severity::Warning);
    assert_eq!(findings[0].span, Span(5));
    assert_eq!(findings[0].message, "`downcast_unchecked_ref` on `Box<dyn Any>` (or `dyn Any`) — caller must guarantee the actual runtime type is exactly T; a type mismatch produces a reference to the wrong type (type-confusion UB); use the checked downcast or `Any::is::<T>()` guard first");
}

#[test]
fn downcast_unchecked_ignores_unrelated_calls() {
    let b = calling("core::ptr::null");
    let flow = compute_flow(&b, VecMap::new());
    assert!(DowncastUnchecked.check(&b, &flow).is_empty());
}

#[test]
fn env_set_var_reports_rule_0() {
    let b = calling("demo::::env::set_var");
    let flow = compute_flow(&b, VecMap::new());
    let findings = EnvSetVar.check(&b, &flow);
    assert_eq!(findings.len(), 1);
    assert_eq!(findings[0].rule_id, "env_set_var");
    assert_eq!(findings[0].severity, Severity::Warning);
    assert_eq!(findings[0].span, Span(5));
    assert_eq!(findings[0].message, "`env::set_var` — not thread-safe on POSIX: concurrent reads of the environment (from any thread, signal handler, or C code) are a data race; only safe before the first `thread::spawn` call; prefer `Command::env` to set vars for child processes");
}

#[test]
fn env_set_var_reports_rule_1() {
    let b = calling("demo::::env::remove_var");
    let flow = compute_flow(&b, VecMap::new());
    let findings = EnvSetVar.check(&b, &flow);
    assert_eq!(findings.len(), 1);
    assert_eq!(findings[0].rule_id, "env_set_var");
    assert_eq!(findings[0].severity, Severity::Warning);
    assert_eq!(findings[0].span, Span(5));
    assert_eq!(findings[0].message, "`env::remove_var` — not thread-safe on POSIX: concurrent reads of the environment (from any thread, signal handler, or C code) are a data race; only safe before the first `thread::spawn` call; prefer `Command::env_remove` to remove vars for child processes");
}

#[test]
fn env_set_var_ignores_unrelated_calls() {
    let b = calling("core::ptr::null");
    let flow = compute_flow(&b, VecMap::new());
    assert!(EnvSetVar.check(&b, &flow).is_empty());
}

#[test]
fn fast_float_arith_reports_rule_0() {
    let b = calling("demo::::fadd_fast");
    let flow = compute_flow(&b, VecMap::new());
    let findings = FastFloatArith.check(&b, &flow);
    assert_eq!(findings.len(), 1);
    assert_eq!(findings[0].rule_id, "fast_float_arith");
    assert_eq!(findings[0].severity, Severity::Warning);
    assert_eq!(findings[0].span, Span(5));
    assert_eq!(findings[0].message, "`fadd_fast` — both operands must be finite and non-NaN; uses LLVM `fast` flags (nnan + ninf + nsz), allowing the optimizer to assume finite results; NaN or Inf inputs are UB (nightly `core_intrinsics`)");
}

#[test]
fn fast_float_arith_reports_rule_1() {
    let b = calling("demo::::fsub_fast");
    let flow = compute_flow(&b, VecMap::new());
    let findings = FastFloatArith.check(&b, &flow);
    assert_eq!(findings.len(), 1);
    assert_eq!(findings[0].rule_id, "fast_float_arith");
    assert_eq!(findings[0].severity, Severity::Warning);
    assert_eq!(findings[0].span, Span(5));
    assert_eq!(findings[0].message, "`fsub_fast` — both operands must be finite and non-NaN; the optimizer may assume the result is never ±Inf or NaN; UB if either operand violates this (nightly `core_intrinsics`)");
}

#[test]
fn fast_float_arith_reports_rule_2() {
    let b = calling("demo::::fmul_fast");
    let flow = compute_flow(&b, VecMap::new());
    let findings = FastFloatArith.check(&b, &flow);
    assert_eq!(findings.len(), 1);
    assert_eq!(findings[0].rule_id, "fast_float_arith");
    assert_eq!(findings[0].severity, Severity::Warning);
    assert_eq!(findings[0].span, Span(5));
    assert_eq!(findings[0].message, "`fmul_fast` — both operands must be finite and non-NaN; multiplicative overflow to ±Inf is UB because the optimizer assumes finite results (nightly `core_intrinsics`)");
}

#[test]
fn fast_float_arith_ignores_unrelated_calls() {
    let b = calling("core::ptr::null");
    let flow = compute_flow(&b, VecMap::new());
    assert!(FastFloatArith.check(&b, &flow).is_empty());
}

#[test]
fn float_to_int_unchecked_reports_rule_0() {
    let b = calling("demo::to_int_unchecked");
    let flow = compute_flow(&b, VecMap::new());
    let findings = FloatToIntUnchecked.check(&b, &flow);
    assert_eq!(findings.len(), 1);
    assert_eq!(findings[0].rule_id, "float_to_int_unchecked");
    assert_eq!(findings[0].severity, Severity::Warning);
    assert_eq!(findings[0].span, Span(5));
    assert_eq!(findings[0].message, "`to_int_unchecked` — value must be finite (not NaN, not infinite) and fit within the target integer type's range when truncated toward zero; NaN and out-of-range values are immediate UB");
}

#[test]
fn float_to_int_unchecked_ignores_unrelated_calls() {
    let b = calling("core::ptr::null");
    let flow = compute_flow(&b, VecMap::new());
    assert!(FloatToIntUnchecked.check(&b, &flow).is_empty());
}

#[test]
fn from_bytes_unchecked_reports_rule_0() {
    let b = calling("demo::::from_bytes_unchecked");
    let flow = compute_flow(&b, VecMap::new());
    let findings = FromBytesUnchecked.check(&b, &flow);
    assert_eq!(findings.len(), 1);
    assert_eq!(findings[0].rule_id, "from_bytes_unchecked");
    assert_eq!(findings[0].severity, Severity::Warning);
    assert_eq!(findings[0].span, Span(5));
    assert_eq!(findings[0].message, "`demo::::from_bytes_unchecked` — bytes must be properly aligned for the target type, fully initialized, and contain a valid bit pattern; misaligned or invalid bytes are immediate UB; use the checked variant (returns Result/Option) for untrusted data");
}

#[test]
fn from_bytes_unchecked_ignores_unrelated_calls() {
    let b = calling("core::ptr::null");
    let flow = compute_flow(&b, VecMap::new());
    assert!(FromBytesUnchecked.check(&b, &flow).is_empty());
}

#[test]
fn hashbrown_map_unchecked_reports_rule_0() {
    let b = calling("demo::hashbrown::HashSet::insert_unique_unchecked");
    let flow = compute_flow(&b, VecMap::new());
    let findings = HashbrownMapUnchecked.check(&b, &flow);
    assert_eq!(findings.len(), 1);
    assert_eq!(findings[0].rule_id, "hashbrown_map_unchecked");
    assert_eq!(findings[0].severity, Severity::Warning);
    assert_eq!(findings[0].span, Span(5));
    assert_eq!(findings[0].message, "`HashSet::insert_unique_unchecked` — inserts without checking for duplicate values — if the value is already present, the set contains two identical entries, violating uniqueness invariants; use insert() instead");
}

#[test]
fn hashbrown_map_unchecked_reports_rule_1() {
    let b = calling("demo::hashbrown::HashMap::insert_unique_unchecked");
    let flow = compute_flow(&b, VecMap::new());
    let findings = HashbrownMapUnchecked.check(&b, &flow);
    assert_eq!(findings.len(), 1);
    assert_eq!(findings[0].rule_id, "hashbrown_map_unchecked");
    assert_eq!(findings[0].severity, Severity::Warning);
    assert_eq!(findings[0].span, Span(5));
    assert_eq!(findings[0].message, "`HashMap::insert_unique_unchecked` — inserts without checking for duplicate keys — if the key already exists, two entries with the same key are created, causing future lookups to return either one (logical UB); use insert() or entry() instead");
}

#[test]
fn hashbrown_map_unchecked_reports_rule_2() {
    let b = calling("demo::hashbrown::get_many_unchecked_mut");
    let flow = compute_flow(&b, VecMap::new());
    let findings = HashbrownMapUnchecked.check(&b, &flow);
    assert_eq!(findings.len(), 1);
    assert_eq!(findings[0].rule_id, "hashbrown_map_unchecked");
    assert_eq!(findings[0].severity, Severity::Warning);
    assert_eq!(findings[0].span, Span(5));
    assert_eq!(findings[0].message, "`get_many_unchecked_mut` — returns N mutable references without verifying that keys/indices are distinct; duplicate keys produce aliased &mut references to the same value (immediate UB); use get_many_mut() which checks for duplicates and returns None on conflict");
}

#[test]
fn hashbrown_map_unchecked_ignores_unrelated_calls() {
    let b = calling("core::ptr::null");
    let flow = compute_flow(&b, VecMap::new());
    assert!(HashbrownMapUnchecked.check(&b, &flow).is_empty());
}

#[test]
fn hashbrown_raw_reports_rule_0() {
    let b = calling("demo::hashbrown::insert_no_grow");
    let flow = compute_flow(&b, VecMap::new());
    let findings = HashbrownRaw.check(&b, &flow);
    assert_eq!(findings.len(), 1);
    assert_eq!(findings[0].rule_id, "hashbrown_raw");
    assert_eq!(findings[0].severity, Severity::Warning);
    assert_eq!(findings[0].span, Span(5));
    assert_eq!(findings[0].message, "`RawTable::insert_no_grow` — inserts without checking capacity — table must have a free slot; if full, this corrupts control bytes or overwrites an occupied slot (UB); hash must match the key stored in value, or future lookups will miss it; call reserve() before inserting if capacity is uncertain");
}

#[test]
fn hashbrown_raw_reports_rule_1() {
    let b = calling("demo::hashbrown::Bucket::as_mut");
    let flow = compute_flow(&b, VecMap::new());
    let findings = HashbrownRaw.check(&b, &flow);
    assert_eq!(findings.len(), 1);
    assert_eq!(findings[0].rule_id, "hashbrown_raw");
    assert_eq!(findings[0].severity, Severity::Warning);
    assert_eq!(findings[0].span, Span(5));
    assert_eq!(findings[0].message, "`Bucket::as_mut` — bucket must be occupied (not erased/empty) — reading an empty bucket is UB (uninitialized memory); no other reference to this element may exist simultaneously (aliased &mut T is UB); bucket pointer is invalidated by any subsequent table resize or rehash");
}

#[test]
fn hashbrown_raw_reports_rule_2() {
    let b = calling("demo::hashbrown::Bucket::as_ref");
    let flow = compute_flow(&b, VecMap::new());
    let findings = HashbrownRaw.check(&b, &flow);
    assert_eq!(findings.len(), 1);
    assert_eq!(findings[0].rule_id, "hashbrown_raw");
    assert_eq!(findings[0].severity, Severity::Warning);
    assert_eq!(findings[0].span, Span(5));
    assert_eq!(findings[0].message, "`Bucket::as_ref` — bucket must be occupied (not erased/empty) — reading an empty bucket is UB (uninitialized memory); bucket pointer is invalidated by any subsequent table resize or rehash (e.g. after insert or reserve)");
}

#[test]
fn hashbrown_raw_ignores_unrelated_calls() {
    let b = calling("core::ptr::null");
    let flow = compute_flow(&b, VecMap::new());
    assert!(HashbrownRaw.check(&b, &flow).is_empty());
}

#[test]
fn hashmap_disjoint_unchecked_reports_rule_0() {
    let b = calling("demo::HashMap::get_disjoint_unchecked_mut");
    let flow = compute_flow(&b, VecMap::new());
    let findings = HashMapDisjointUnchecked.check(&b, &flow);
    assert_eq!(findings.len(), 1);
    assert_eq!(findings[0].rule_id, "hashmap_disjoint_unchecked");
    assert_eq!(findings[0].severity, Severity::Warning);
    assert_eq!(findings[0].span, Span(5));
    assert_eq!(findings[0].message, "`HashMap::get_disjoint_unchecked_mut` — all keys in the array must be pairwise distinct; duplicate keys produce aliased `&mut V` references (immediate UB even if neither is written); use `get_disjoint_mut` for the checked version");
}

#[test]
fn hashmap_disjoint_unchecked_ignores_unrelated_calls() {
    let b = calling("core::ptr::null");
    let flow = compute_flow(&b, VecMap::new());
    assert!(HashMapDisjointUnchecked.check(&b, &flow).is_empty());
}

#[test]
fn heapless_unchecked_reports_rule_0() {
    let b = calling("demo::heapless::push_unchecked");
    let flow = compute_flow(&b, VecMap::new());
    let findings = HeaplessUnchecked.check(&b, &flow);
    assert_eq!(findings.len(), 1);
    assert_eq!(findings[0].rule_id, "heapless_unchecked");
    assert_eq!(findings[0].severity, Severity::Warning);
    assert_eq!(findings[0].span, Span(5));
    assert_eq!(findings[0].message, "`heapless::Vec::push_unchecked` — no bounds check — if len == N (compile-time capacity), this writes one element past the end of the inline array (OOB write, immediate UB); use push() which returns Err on overflow");
}

#[test]
fn heapless_unchecked_reports_rule_1() {
    let b = calling("demo::heapless::pop_unchecked");
    let flow = compute_flow(&b, VecMap::new());
    let findings = HeaplessUnchecked.check(&b, &flow);
    assert_eq!(findings.len(), 1);
    assert_eq!(findings[0].rule_id, "heapless_unchecked");
    assert_eq!(findings[0].severity, Severity::Warning);
    assert_eq!(findings[0].span, Span(5));
    assert_eq!(findings[0].message, "`heapless::Vec::pop_unchecked` — no empty check — if len == 0, this reads one slot before the start of the inline array (OOB read, immediate UB); use pop() → Option<T>");
}

#[test]
fn heapless_unchecked_reports_rule_2() {
    let b = calling("demo::heapless::swap_remove_unchecked");
    let flow = compute_flow(&b, VecMap::new());
    let findings = HeaplessUnchecked.check(&b, &flow);
    assert_eq!(findings.len(), 1);
    assert_eq!(findings[0].rule_id, "heapless_unchecked");
    assert_eq!(findings[0].severity, Severity::Warning);
    assert_eq!(findings[0].span, Span(5));
    assert_eq!(findings[0].message, "`heapless::Vec::swap_remove_unchecked` — no bounds check on index — if index >= len, this reads/writes past the end of the inline array (OOB, immediate UB); use swap_remove() which panics on out-of-bounds");
}

#[test]
fn heapless_unchecked_ignores_unrelated_calls() {
    let b = calling("core::ptr::null");
    let flow = compute_flow(&b, VecMap::new());
    assert!(HeaplessUnchecked.check(&b, &flow).is_empty());
}

#[test]
fn hint_assert_unchecked_reports_rule_0() {
    let b = calling("demo::::hint::assert_unchecked");
    let flow = compute_flow(&b, VecMap::new());
    let findings = HintAssertUnchecked.check(&b, &flow);
    assert_eq!(findings.len(), 1);
    assert_eq!(findings[0].rule_id, "hint_assert_unchecked");
    assert_eq!(findings[0].severity, Severity::Warning);
    assert_eq!(findings[0].span, Span(5));
    assert_eq!(findings[0].message, "`hint::assert_unchecked` — the condition must ALWAYS be true; if ever false, the optimizer may silently miscompile surrounding code (no panic, no error — pure UB); use `assert!` unless the invariant is provably unbreakable");
}

#[test]
fn hint_assert_unchecked_reports_rule_1() {
    let b = calling("demo::::intrinsics::assume");
    let flow = compute_flow(&b, VecMap::new());
    let findings = HintAssertUnchecked.check(&b, &flow);
    assert_eq!(findings.len(), 1);
    assert_eq!(findings[0].rule_id, "hint_assert_unchecked");
    assert_eq!(findings[0].severity, Severity::Warning);
    assert_eq!(findings[0].span, Span(5));
    assert_eq!(findings[0].message, "`intrinsics::assume` — the condition must ALWAYS be true; if ever false, the optimizer may silently miscompile surrounding code (no panic, no error — pure UB); use `assert!` unless the invariant is provably unbreakable");
}

#[test]
fn hint_assert_unchecked_ignores_unrelated_calls() {
    let b = calling("core::ptr::null");
    let flow = compute_flow(&b, VecMap::new());
    assert!(HintAssertUnchecked.check(&b, &flow).is_empty());
}

#[test]
fn http_unchecked_reports_rule_0() {
    let b = calling("http::HeaderValue::from_maybe_shared_unchecked");
    let flow = compute_flow(&b, VecMap::new());
    let findings = HttpUnchecked.check(&b, &flow);
    assert_eq!(findings.len(), 1);
    assert_eq!(findings[0].rule_id, "http_unchecked");
    assert_eq!(findings[0].severity, Severity::Warning);
    assert_eq!(findings[0].span, Span(5));
    assert_eq!(findings[0].message, "`HeaderValue::from_maybe_shared_unchecked` — skips byte validation; bytes outside visible ASCII or containing \\r\\n enable HTTP header injection (CRLF injection / response splitting); in release builds the debug-mode panic is silently absent; use from_bytes() or from_str() instead");
}

#[test]
fn http_unchecked_ignores_unrelated_calls() {
    let b = calling("core::ptr::null");
    let flow = compute_flow(&b, VecMap::new());
    assert!(HttpUnchecked.check(&b, &flow).is_empty());
}

#[test]
fn layout_for_value_raw_reports_rule_0() {
    let b = calling("demo::::Layout::for_value_raw");
    let flow = compute_flow(&b, VecMap::new());
    let findings = LayoutForValueRaw.check(&b, &flow);
    assert_eq!(findings.len(), 1);
    assert_eq!(findings[0].rule_id, "layout_for_value_raw");
    assert_eq!(findings[0].severity, Severity::Warning);
    assert_eq!(findings[0].span, Span(5));
    assert_eq!(findings[0].message, "`Layout::for_value_raw` — the pointer's metadata must be valid for the concrete type (correct vtable for trait objects, correct length for slices); invalid metadata produces wrong size/alignment and can corrupt allocations");
}

#[test]
fn layout_for_value_raw_reports_rule_1() {
    let b = calling("demo::::mem::size_of_val_raw");
    let flow = compute_flow(&b, VecMap::new());
    let findings = LayoutForValueRaw.check(&b, &flow);
    assert_eq!(findings.len(), 1);
    assert_eq!(findings[0].rule_id, "layout_for_value_raw");
    assert_eq!(findings[0].severity, Severity::Warning);
    assert_eq!(findings[0].span, Span(5));
    assert_eq!(findings[0].message, "`mem::size_of_val_raw` — the pointer's metadata must be valid for the concrete type (correct vtable for trait objects, correct length for slices); invalid metadata produces wrong size/alignment and can corrupt allocations");
}

#[test]
fn layout_for_value_raw_reports_rule_2() {
    let b = calling("demo::::mem::align_of_val_raw");
    let flow = compute_flow(&b, VecMap::new());
    let findings = LayoutForValueRaw.check(&b, &flow);
    assert_eq!(findings.len(), 1);
    assert_eq!(findings[0].rule_id, "layout_for_value_raw");
    assert_eq!(findings[0].severity, Severity::Warning);
    assert_eq!(findings[0].span, Span(5));
    assert_eq!(findings[0].message, "`mem::align_of_val_raw` — the pointer's metadata must be valid for the concrete type (correct vtable for trait objects, correct length for slices); invalid metadata produces wrong size/alignment and can corrupt allocations");
}

#[test]
fn layout_for_value_raw_ignores_unrelated_calls() {
    let b = calling("core::ptr::null");
    let flow = compute_flow(&b, VecMap::new());
    assert!(LayoutForValueRaw.check(&b, &flow).is_empty());
}

#[test]
fn into_raw_reports_rule_0() {
    let b = calling("demo::sync::Weak::into_raw");
    let flow = compute_flow(&b, VecMap::new());
    let findings = IntoRaw.check(&b, &flow);
    assert_eq!(findings.len(), 1);
    assert_eq!(findings[0].rule_id, "into_raw");
    assert_eq!(findings[0].severity, Severity::Info);
    assert_eq!(findings[0].span, Span(5));
    assert_eq!(findings[0].message, "`Arc::Weak::into_raw` — leaks the Weak reference without decrementing the weak count; the pointer must be passed to exactly one `Weak::from_raw` call — forgetting to call `from_raw` leaks the control block; the strong count is unaffected but the allocation will not be freed until all weak references are dropped");
}

#[test]
fn into_raw_reports_rule_1() {
    let b = calling("demo::rc::Weak::into_raw");
    let flow = compute_flow(&b, VecMap::new());
    let findings = IntoRaw.check(&b, &flow);
    assert_eq!(findings.len(), 1);
    assert_eq!(findings[0].rule_id, "into_raw");
    assert_eq!(findings[0].severity, Severity::Info);
    assert_eq!(findings[0].span, Span(5));
    assert_eq!(findings[0].message, "`Rc::Weak::into_raw` — leaks the Weak reference without decrementing the weak count; the pointer must be passed to exactly one `Weak::from_raw` call — forgetting to call `from_raw` leaks the control block; Rc::Weak is not thread-safe");
}

#[test]
fn into_raw_reports_rule_2() {
    let b = calling("demo::Box::into_raw");
    let flow = compute_flow(&b, VecMap::new());
    let findings = IntoRaw.check(&b, &flow);
    assert_eq!(findings.len(), 1);
    assert_eq!(findings[0].rule_id, "into_raw");
    assert_eq!(findings[0].severity, Severity::Info);
    assert_eq!(findings[0].span, Span(5));
    assert_eq!(findings[0].message, "`Box::into_raw` — leaks the Box; the pointer must be passed to exactly one `Box::from_raw` call with the same T; forgetting to call `from_raw` leaks memory; calling it twice causes double-free");
}

#[test]
fn into_raw_ignores_unrelated_calls() {
    let b = calling("core::ptr::null");
    let flow = compute_flow(&b, VecMap::new());
    assert!(IntoRaw.check(&b, &flow).is_empty());
}

#[test]
fn ctlz_nonzero_reports_rule_0() {
    let b = calling("demo::::ctlz_nonzero");
    let flow = compute_flow(&b, VecMap::new());
    let findings = CtlzNonzero.check(&b, &flow);
    assert_eq!(findings.len(), 1);
    assert_eq!(findings[0].rule_id, "ctlz_nonzero");
    assert_eq!(findings[0].severity, Severity::Warning);
    assert_eq!(findings[0].span, Span(5));
    assert_eq!(findings[0].message, "`ctlz_nonzero` — input must be non-zero; passing 0 produces LLVM poison that propagates silently through subsequent computations; safe alternative: `u32::leading_zeros()` or `NonZeroU32::leading_zeros()` (nightly `core_intrinsics`)");
}

#[test]
fn ctlz_nonzero_reports_rule_1() {
    let b = calling("demo::::cttz_nonzero");
    let flow = compute_flow(&b, VecMap::new());
    let findings = CtlzNonzero.check(&b, &flow);
    assert_eq!(findings.len(), 1);
    assert_eq!(findings[0].rule_id, "ctlz_nonzero");
    assert_eq!(findings[0].severity, Severity::Warning);
    assert_eq!(findings[0].span, Span(5));
    assert_eq!(findings[0].message, "`cttz_nonzero` — input must be non-zero; passing 0 produces LLVM poison; safe alternative: `u32::trailing_zeros()` or `NonZeroU32::trailing_zeros()` (nightly `core_intrinsics`)");
}

#[test]
fn ctlz_nonzero_ignores_unrelated_calls() {
    let b = calling("core::ptr::null");
    let flow = compute_flow(&b, VecMap::new());
    assert!(CtlzNonzero.check(&b, &flow).is_empty());
}
