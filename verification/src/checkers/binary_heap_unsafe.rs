//! Detects calls to `BinaryHeap::as_mut_slice` and `BinaryHeap::from_raw_vec`
//! (nightly, features `binary_heap_as_mut_slice` and
//! `binary_heap_from_raw_vec`).

use vstd::prelude::*;
use crate::analysis::dataflow::FlowResults;
use crate::analysis::state::{BlockState, StateView};
use crate::checkers::{CallRule, Finding, Flag, Severity, call_findings, findings_view, opt_chars, run_call_rule};
use crate::mir::{Body, DefId, Operand};
use crate::text::{contains, ends_with, str_contains, str_ends_with};

verus! {

/// Detects calls to `BinaryHeap::as_mut_slice` and `BinaryHeap::from_raw_vec`
/// (nightly, features `binary_heap_as_mut_slice` and
/// `binary_heap_from_raw_vec`).
pub struct BinaryHeapUnsafe;

/// The message `BinaryHeapUnsafe` gives a direct call of `path`, if it reports one.
pub open spec fn binary_heap_unsafe_message(path: Seq<char>) -> Option<Seq<char>> {
    if !(contains(path, "BinaryHeap"@)) {
        None
    } else if ends_with(path, "::as_mut_slice"@) {
        Some("`BinaryHeap::as_mut_slice` — any write through the returned slice must \
            leave a valid max-heap; if the heap property is violated, all \
            subsequent pop/push/peek operations silently return wrong results; \
            restore with rebuild() if needed"@)
    } else if ends_with(path, "::from_raw_vec"@) {
        Some("`BinaryHeap::from_raw_vec` — the Vec's elements must already satisfy \
            the max-heap invariant; if not, subsequent heap operations produce \
            incorrect results silently; use `BinaryHeap::from(vec)` to re-heapify \
            safely in O(n)"@)
    } else {
        None
    }
}

fn binary_heap_unsafe_message_of(path: &str) -> (r: Option<String>)
    ensures
        opt_chars(r) == binary_heap_unsafe_message(path@),
{
    if !(str_contains(path, "BinaryHeap")) {
        None
    } else if str_ends_with(path, "::as_mut_slice") {
        Some("`BinaryHeap::as_mut_slice` — any write through the returned slice must \
            leave a valid max-heap; if the heap property is violated, all \
            subsequent pop/push/peek operations silently return wrong results; \
            restore with rebuild() if needed".to_owned())
    } else if str_ends_with(path, "::from_raw_vec") {
        Some("`BinaryHeap::from_raw_vec` — the Vec's elements must already satisfy \
            the max-heap invariant; if not, subsequent heap operations produce \
            incorrect results silently; use `BinaryHeap::from(vec)` to re-heapify \
            safely in O(n)".to_owned())
    } else {
        None
    }
}

impl CallRule for BinaryHeapUnsafe {
    open spec fn spec_uses_state(&self) -> bool {
        false
    }

    open spec fn spec_flag(&self, body: &Body, callee: DefId, path: Seq<char>, args: Seq<Operand>, pre: Option<StateView>)
        -> Option<(Seq<char>, Severity, Seq<char>)>
    {
        match binary_heap_unsafe_message(path) {
            Some(m) => Some(("binary_heap_unsafe"@, Severity::Warning, m)),
            None => None,
        }
    }

    fn uses_state(&self) -> (r: bool) {
        false
    }

    fn flag(&self, body: &Body, callee: DefId, path: &str, args: &Vec<Operand>, pre: &Option<BlockState>) -> (r: Option<Flag>) {
        match binary_heap_unsafe_message_of(path) {
            Some(m) => Some(("binary_heap_unsafe", Severity::Warning, m)),
            None => None,
        }
    }
}

impl BinaryHeapUnsafe {
    /// Reports, in block order, each direct call in `body` that
    /// `binary_heap_unsafe_message` gives a message for.
    pub fn check(&self, body: &Body, flow: &FlowResults) -> (r: Vec<Finding>)
        requires
            body.basic_blocks@.len() <= 0x1_0000_0000,
        ensures
            findings_view(r@) == call_findings(self, body, flow.entry_states@, body.basic_blocks@.len() as int),
    {
        run_call_rule(self, body, flow)
    }
}

} // verus!
