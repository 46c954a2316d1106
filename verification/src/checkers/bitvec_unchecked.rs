//! Detects unsafe operations on `bitvec` types that skip bounds or invariant
//! checks.

use vstd::prelude::*;
use crate::analysis::dataflow::FlowResults;
use crate::analysis::state::{BlockState, StateView};
use crate::checkers::{CallRule, Finding, Flag, Severity, call_findings, findings_view, opt_chars, run_call_rule};
use crate::mir::{Body, DefId, Operand};
use crate::text::{contains, ends_with, str_contains, str_ends_with};

verus! {

/// Detects unsafe operations on `bitvec` types that skip bounds or invariant
/// checks.
pub struct BitvecUnchecked;

/// The message `BitvecUnchecked` gives a direct call of `path`, if it reports one.
pub open spec fn bitvec_unchecked_message(path: Seq<char>) -> Option<Seq<char>> {
    if ends_with(path, "::copy_within_unchecked"@) {
        Some("::set_aliased_unchecked"@)
    } else if ends_with(path, "::set_aliased_unchecked"@) {
        Some("bitvec"@)
    } else if contains(path, "bitvec"@) && ends_with(path, "::set_unchecked"@) && contains(path, "BitSlice"@) {
        Some("`BitSlice::set_unchecked` — sets a bit without checking that index < \
            self.len(); out-of-bounds access writes into adjacent storage words \
            (UB); use index-checked bit assignment instead"@)
    } else if contains(path, "bitvec"@) && ends_with(path, "::replace_unchecked"@) && contains(path, "BitSlice"@) {
        Some("`BitSlice::replace_unchecked` — replaces a bit without checking that \
            index < self.len(); out-of-bounds access is immediate UB; use the \
            checked replace() method instead"@)
    } else {
        None
    }
}

fn bitvec_unchecked_message_of(path: &str) -> (r: Option<String>)
    ensures
        opt_chars(r) == bitvec_unchecked_message(path@),
{
    if str_ends_with(path, "::copy_within_unchecked") {
        Some("::set_aliased_unchecked".to_owned())
    } else if str_ends_with(path, "::set_aliased_unchecked") {
        Some("bitvec".to_owned())
    } else if str_contains(path, "bitvec") && str_ends_with(path, "::set_unchecked") && str_contains(path, "BitSlice") {
        Some("`BitSlice::set_unchecked` — sets a bit without checking that index < \
            self.len(); out-of-bounds access writes into adjacent storage words \
            (UB); use index-checked bit assignment instead".to_owned())
    } else if str_contains(path, "bitvec") && str_ends_with(path, "::replace_unchecked") && str_contains(path, "BitSlice") {
        Some("`BitSlice::replace_unchecked` — replaces a bit without checking that \
            index < self.len(); out-of-bounds access is immediate UB; use the \
            checked replace() method instead".to_owned())
    } else {
        None
    }
}

impl CallRule for BitvecUnchecked {
    open spec fn spec_uses_state(&self) -> bool {
        false
    }

    open spec fn spec_flag(&self, body: &Body, callee: DefId, path: Seq<char>, args: Seq<Operand>, pre: Option<StateView>)
        -> Option<(Seq<char>, Severity, Seq<char>)>
    {
        match bitvec_unchecked_message(path) {
            Some(m) => Some(("bitvec_unchecked"@, Severity::Warning, m)),
            None => None,
        }
    }

    fn uses_state(&self) -> (r: bool) {
        false
    }

    fn flag(&self, body: &Body, callee: DefId, path: &str, args: &Vec<Operand>, pre: &Option<BlockState>) -> (r: Option<Flag>) {
        match bitvec_unchecked_message_of(path) {
            Some(m) => Some(("bitvec_unchecked", Severity::Warning, m)),
            None => None,
        }
    }
}

impl BitvecUnchecked {
    /// Reports, in block order, each direct call in `body` that
    /// `bitvec_unchecked_message` gives a message for.
    pub fn check(&self, body: &Body, flow: &FlowResults) -> (r: Vec<Finding>)
        requires
            body.basic_blocks@.len() <= 0x1_0000_0000,
        ensures
            findings_view(r@) == call_findings(self, body, flow.entry_states@, body.basic_blocks@.len() as int),
    {
        run_call_rule(self, body, flow)
    }
}

} // verus!
