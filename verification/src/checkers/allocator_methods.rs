//! Detects calls to the unsafe methods of the `Allocator` trait:
//! `Allocator::deallocate`, `Allocator::grow`, and `Allocator::shrink`.
//! (Nightly: `#![feature(allocator_api)]`)

use vstd::prelude::*;
use crate::analysis::dataflow::FlowResults;
use crate::analysis::state::{BlockState, StateView};
use crate::checkers::{CallRule, Finding, Flag, Severity, call_findings, findings_view, opt_chars, run_call_rule};
use crate::mir::{Body, DefId, Operand};
use crate::text::{ends_with, str_ends_with};

verus! {

/// Detects calls to the unsafe methods of the `Allocator` trait:
/// `Allocator::deallocate`, `Allocator::grow`, and `Allocator::shrink`.
/// (Nightly: `#![feature(allocator_api)]`)
pub struct AllocatorMethods;

/// The message `AllocatorMethods` gives a direct call of `path`, if it reports one.
pub open spec fn allocator_methods_message(path: Seq<char>) -> Option<Seq<char>> {
    if ends_with(path, "Allocator::deallocate"@) {
        Some("`Allocator::deallocate` — ptr must have been returned by this same \
            allocator with the exact same layout; wrong allocator, wrong layout, \
            or double-free is immediate UB; the allocation is consumed — do not \
            use ptr after this call"@)
    } else if ends_with(path, "Allocator::grow"@) || ends_with(path, "Allocator::grow_zeroed"@) {
        Some("`Allocator::grow` — ptr must come from this allocator with old_layout; \
            new_layout.size() must be >= old_layout.size(); the old ptr is \
            consumed on success — do not use it after a successful grow"@)
    } else if ends_with(path, "Allocator::shrink"@) {
        Some("`Allocator::shrink` — ptr must come from this allocator with \
            old_layout; new_layout.size() must be <= old_layout.size(); the old \
            ptr is consumed on success — do not use it after a successful shrink"@)
    } else {
        None
    }
}

fn allocator_methods_message_of(path: &str) -> (r: Option<String>)
    ensures
        opt_chars(r) == allocator_methods_message(path@),
{
    if str_ends_with(path, "Allocator::deallocate") {
        Some("`Allocator::deallocate` — ptr must have been returned by this same \
            allocator with the exact same layout; wrong allocator, wrong layout, \
            or double-free is immediate UB; the allocation is consumed — do not \
            use ptr after this call".to_owned())
    } else if str_ends_with(path, "Allocator::grow") || str_ends_with(path, "Allocator::grow_zeroed") {
        Some("`Allocator::grow` — ptr must come from this allocator with old_layout; \
            new_layout.size() must be >= old_layout.size(); the old ptr is \
            consumed on success — do not use it after a successful grow".to_owned())
    } else if str_ends_with(path, "Allocator::shrink") {
        Some("`Allocator::shrink` — ptr must come from this allocator with \
            old_layout; new_layout.size() must be <= old_layout.size(); the old \
            ptr is consumed on success — do not use it after a successful shrink".to_owned())
    } else {
        None
    }
}

impl CallRule for AllocatorMethods {
    open spec fn spec_uses_state(&self) -> bool {
        false
    }

    open spec fn spec_flag(&self, body: &Body, callee: DefId, path: Seq<char>, args: Seq<Operand>, pre: Option<StateView>)
        -> Option<(Seq<char>, Severity, Seq<char>)>
    {
        match allocator_methods_message(path) {
            Some(m) => Some(("allocator_methods"@, Severity::Warning, m)),
            None => None,
        }
    }

    fn uses_state(&self) -> (r: bool) {
        false
    }

    fn flag(&self, body: &Body, callee: DefId, path: &str, args: &Vec<Operand>, pre: &Option<BlockState>) -> (r: Option<Flag>) {
        match allocator_methods_message_of(path) {
            Some(m) => Some(("allocator_methods", Severity::Warning, m)),
            None => None,
        }
    }
}

impl AllocatorMethods {
    /// Reports, in block order, each direct call in `body` that
    /// `allocator_methods_message` gives a message for.
    pub fn check(&self, body: &Body, flow: &FlowResults) -> (r: Vec<Finding>)
        requires
            body.basic_blocks@.len() <= 0x1_0000_0000,
        ensures
            findings_view(r@) == call_findings(self, body, flow.entry_states@, body.basic_blocks@.len() as int),
    {
        run_call_rule(self, body, flow)
    }
}

} // verus!
