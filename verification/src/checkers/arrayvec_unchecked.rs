//! Detects `arrayvec::ArrayVec::into_inner_unchecked` — converts an `ArrayVec`
//! into a fixed-size array without checking that the vector is fully populated.

use vstd::prelude::*;
use crate::analysis::dataflow::FlowResults;
use crate::analysis::state::{BlockState, StateView};
use crate::checkers::{CallRule, Finding, Flag, Severity, call_findings, findings_view, opt_chars, run_call_rule};
use crate::mir::{Body, DefId, Operand};
use crate::text::{contains, ends_with, str_contains, str_ends_with};

verus! {

/// Detects `arrayvec::ArrayVec::into_inner_unchecked` — converts an `ArrayVec`
/// into a fixed-size array without checking that the vector is fully populated.
pub struct ArrayvecUnchecked;

/// The message `ArrayvecUnchecked` gives a direct call of `path`, if it reports one.
pub open spec fn arrayvec_unchecked_message(path: Seq<char>) -> Option<Seq<char>> {
    if ends_with(path, "::into_inner_unchecked"@) && contains(path, "arrayvec"@) {
        Some("`ArrayVec::into_inner_unchecked` — the vector must be completely full \
            (len == CAP) before calling; trailing uninitialized slots become \
            uninitialized `T` values in the returned array (UB); use \
            `into_inner()` for the checked version"@)
    } else {
        None
    }
}

fn arrayvec_unchecked_message_of(path: &str) -> (r: Option<String>)
    ensures
        opt_chars(r) == arrayvec_unchecked_message(path@),
{
    if str_ends_with(path, "::into_inner_unchecked") && str_contains(path, "arrayvec") {
        Some("`ArrayVec::into_inner_unchecked` — the vector must be completely full \
            (len == CAP) before calling; trailing uninitialized slots become \
            uninitialized `T` values in the returned array (UB); use \
            `into_inner()` for the checked version".to_owned())
    } else {
        None
    }
}

impl CallRule for ArrayvecUnchecked {
    open spec fn spec_uses_state(&self) -> bool {
        false
    }

    open spec fn spec_flag(&self, body: &Body, callee: DefId, path: Seq<char>, args: Seq<Operand>, pre: Option<StateView>)
        -> Option<(Seq<char>, Severity, Seq<char>)>
    {
        match arrayvec_unchecked_message(path) {
            Some(m) => Some(("arrayvec_unchecked"@, Severity::Warning, m)),
            None => None,
        }
    }

    fn uses_state(&self) -> (r: bool) {
        false
    }

    fn flag(&self, body: &Body, callee: DefId, path: &str, args: &Vec<Operand>, pre: &Option<BlockState>) -> (r: Option<Flag>) {
        match arrayvec_unchecked_message_of(path) {
            Some(m) => Some(("arrayvec_unchecked", Severity::Warning, m)),
            None => None,
        }
    }
}

impl ArrayvecUnchecked {
    /// Reports, in block order, each direct call in `body` that
    /// `arrayvec_unchecked_message` gives a message for.
    pub fn check(&self, body: &Body, flow: &FlowResults) -> (r: Vec<Finding>)
        requires
            body.basic_blocks@.len() <= 0x1_0000_0000,
        ensures
            findings_view(r@) == call_findings(self, body, flow.entry_states@, body.basic_blocks@.len() as int),
    {
        run_call_rule(self, body, flow)
    }
}

} // verus!
