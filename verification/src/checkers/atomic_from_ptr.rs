//! Detects calls to `Atomic*::from_ptr` on std atomic types.

use vstd::prelude::*;
use crate::analysis::dataflow::FlowResults;
use crate::analysis::state::{BlockState, StateView};
use crate::checkers::{CallRule, Finding, Flag, Severity, call_findings, findings_view, opt_chars, run_call_rule};
use crate::mir::{Body, DefId, Operand};
use crate::text::{contains, ends_with, str_contains, str_ends_with};

verus! {

/// Detects calls to `Atomic*::from_ptr` on std atomic types.
pub struct AtomicFromPtr;

/// The message `AtomicFromPtr` gives a direct call of `path`, if it reports one.
pub open spec fn atomic_from_ptr_message(path: Seq<char>) -> Option<Seq<char>> {
    if !(ends_with(path, "::from_ptr"@)) {
        None
    } else if contains(path, "sync::atomic"@) || contains(path, "portable_atomic"@) {
        Some("`Atomic::from_ptr` — pointer must be non-null, aligned, valid for the \
            reference lifetime, and must not be aliased by non-atomic accesses; \
            concurrent non-atomic access to the same memory is a data race (UB)"@)
    } else {
        None
    }
}

fn atomic_from_ptr_message_of(path: &str) -> (r: Option<String>)
    ensures
        opt_chars(r) == atomic_from_ptr_message(path@),
{
    if !(str_ends_with(path, "::from_ptr")) {
        None
    } else if str_contains(path, "sync::atomic") || str_contains(path, "portable_atomic") {
        Some("`Atomic::from_ptr` — pointer must be non-null, aligned, valid for the \
            reference lifetime, and must not be aliased by non-atomic accesses; \
            concurrent non-atomic access to the same memory is a data race (UB)".to_owned())
    } else {
        None
    }
}

impl CallRule for AtomicFromPtr {
    open spec fn spec_uses_state(&self) -> bool {
        false
    }

    open spec fn spec_flag(&self, body: &Body, callee: DefId, path: Seq<char>, args: Seq<Operand>, pre: Option<StateView>)
        -> Option<(Seq<char>, Severity, Seq<char>)>
    {
        match atomic_from_ptr_message(path) {
            Some(m) => Some(("atomic_from_ptr"@, Severity::Warning, m)),
            None => None,
        }
    }

    fn uses_state(&self) -> (r: bool) {
        false
    }

    fn flag(&self, body: &Body, callee: DefId, path: &str, args: &Vec<Operand>, pre: &Option<BlockState>) -> (r: Option<Flag>) {
        match atomic_from_ptr_message_of(path) {
            Some(m) => Some(("atomic_from_ptr", Severity::Warning, m)),
            None => None,
        }
    }
}

impl AtomicFromPtr {
    /// Reports, in block order, each direct call in `body` that
    /// `atomic_from_ptr_message` gives a message for.
    pub fn check(&self, body: &Body, flow: &FlowResults) -> (r: Vec<Finding>)
        requires
            body.basic_blocks@.len() <= 0x1_0000_0000,
        ensures
            findings_view(r@) == call_findings(self, body, flow.entry_states@, body.basic_blocks@.len() as int),
    {
        run_call_rule(self, body, flow)
    }
}

} // verus!
