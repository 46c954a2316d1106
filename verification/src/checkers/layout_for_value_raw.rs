//! Detects calls to `Layout::for_value_raw`, `mem::size_of_val_raw`, and
//! `mem::align_of_val_raw` — all behind `#![feature(layout_for_ptr)]`.

use vstd::prelude::*;
use crate::analysis::dataflow::FlowResults;
use crate::analysis::state::{BlockState, StateView};
use crate::checkers::{CallRule, Finding, Flag, Severity, call_findings, findings_view, opt_chars, run_call_rule};
use crate::mir::{Body, DefId, Operand};
use crate::text::{ends_with, str_ends_with};

verus! {

/// Detects calls to `Layout::for_value_raw`, `mem::size_of_val_raw`, and
/// `mem::align_of_val_raw` — all behind `#![feature(layout_for_ptr)]`.
pub struct LayoutForValueRaw;

/// The message `LayoutForValueRaw` gives a direct call of `path`, if it reports one.
pub open spec fn layout_for_value_raw_message(path: Seq<char>) -> Option<Seq<char>> {
    if ends_with(path, "Layout::for_value_raw"@) {
        Some("`Layout::for_value_raw` — the pointer's metadata must be valid for the \
            concrete type (correct vtable for trait objects, correct length for \
            slices); invalid metadata produces wrong size/alignment and can \
            corrupt allocations"@)
    } else if ends_with(path, "mem::size_of_val_raw"@) {
        Some("`mem::size_of_val_raw` — the pointer's metadata must be valid for the \
            concrete type (correct vtable for trait objects, correct length for \
            slices); invalid metadata produces wrong size/alignment and can \
            corrupt allocations"@)
    } else if ends_with(path, "mem::align_of_val_raw"@) {
        Some("`mem::align_of_val_raw` — the pointer's metadata must be valid for the \
            concrete type (correct vtable for trait objects, correct length for \
            slices); invalid metadata produces wrong size/alignment and can \
            corrupt allocations"@)
    } else {
        None
    }
}

fn layout_for_value_raw_message_of(path: &str) -> (r: Option<String>)
    ensures
        opt_chars(r) == layout_for_value_raw_message(path@),
{
    if str_ends_with(path, "Layout::for_value_raw") {
        Some("`Layout::for_value_raw` — the pointer's metadata must be valid for the \
            concrete type (correct vtable for trait objects, correct length for \
            slices); invalid metadata produces wrong size/alignment and can \
            corrupt allocations".to_owned())
    } else if str_ends_with(path, "mem::size_of_val_raw") {
        Some("`mem::size_of_val_raw` — the pointer's metadata must be valid for the \
            concrete type (correct vtable for trait objects, correct length for \
            slices); invalid metadata produces wrong size/alignment and can \
            corrupt allocations".to_owned())
    } else if str_ends_with(path, "mem::align_of_val_raw") {
        Some("`mem::align_of_val_raw` — the pointer's metadata must be valid for the \
            concrete type (correct vtable for trait objects, correct length for \
            slices); invalid metadata produces wrong size/alignment and can \
            corrupt allocations".to_owned())
    } else {
        None
    }
}

impl CallRule for LayoutForValueRaw {
    open spec fn spec_uses_state(&self) -> bool {
        false
    }

    open spec fn spec_flag(&self, body: &Body, callee: DefId, path: Seq<char>, args: Seq<Operand>, pre: Option<StateView>)
        -> Option<(Seq<char>, Severity, Seq<char>)>
    {
        match layout_for_value_raw_message(path) {
            Some(m) => Some(("layout_for_value_raw"@, Severity::Warning, m)),
            None => None,
        }
    }

    fn uses_state(&self) -> (r: bool) {
        false
    }

    fn flag(&self, body: &Body, callee: DefId, path: &str, args: &Vec<Operand>, pre: &Option<BlockState>) -> (r: Option<Flag>) {
        match layout_for_value_raw_message_of(path) {
            Some(m) => Some(("layout_for_value_raw", Severity::Warning, m)),
            None => None,
        }
    }
}

impl LayoutForValueRaw {
    /// Reports, in block order, each direct call in `body` that
    /// `layout_for_value_raw_message` gives a message for.
    pub fn check(&self, body: &Body, flow: &FlowResults) -> (r: Vec<Finding>)
        requires
            body.basic_blocks@.len() <= 0x1_0000_0000,
        ensures
            findings_view(r@) == call_findings(self, body, flow.entry_states@, body.basic_blocks@.len() as int),
    {
        run_call_rule(self, body, flow)
    }
}

} // verus!
