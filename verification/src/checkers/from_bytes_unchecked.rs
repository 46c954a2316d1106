//! Detects calls to any `from_bytes_unchecked` function regardless of crate.

use vstd::prelude::*;
use crate::analysis::dataflow::FlowResults;
use crate::analysis::state::{BlockState, StateView};
use crate::checkers::{CallRule, Finding, Flag, Severity, call_findings, findings_view, opt_chars, run_call_rule};
use crate::mir::{Body, DefId, Operand};
use crate::text::{ends_with, str_ends_with};
use vstd::string::StringExecFns;

verus! {

/// Detects calls to any `from_bytes_unchecked` function regardless of crate.
pub struct FromBytesUnchecked;

/// The message `FromBytesUnchecked` gives a direct call of `path`, if it reports one.
pub open spec fn from_bytes_unchecked_message(path: Seq<char>) -> Option<Seq<char>> {
    if ends_with(path, "::from_bytes_unchecked"@) || ends_with(path, "::from_slice_unchecked"@) || ends_with(path, "::from_slice_unchecked_mut"@) {
        Some("`"@ + path + "` — bytes must be properly aligned for the target type, fully \
            initialized, and contain a valid bit pattern; misaligned or invalid \
            bytes are immediate UB; use the checked variant (returns \
            Result/Option) for untrusted data"@)
    } else {
        None
    }
}

fn from_bytes_unchecked_message_of(path: &str) -> (r: Option<String>)
    ensures
        opt_chars(r) == from_bytes_unchecked_message(path@),
{
    if str_ends_with(path, "::from_bytes_unchecked") || str_ends_with(path, "::from_slice_unchecked") || str_ends_with(path, "::from_slice_unchecked_mut") {
        Some("`".to_owned().concat(path).concat("` — bytes must be properly aligned for the target type, fully \
            initialized, and contain a valid bit pattern; misaligned or invalid \
            bytes are immediate UB; use the checked variant (returns \
            Result/Option) for untrusted data"))
    } else {
        None
    }
}

impl CallRule for FromBytesUnchecked {
    open spec fn spec_uses_state(&self) -> bool {
        false
    }

    open spec fn spec_flag(&self, body: &Body, callee: DefId, path: Seq<char>, args: Seq<Operand>, pre: Option<StateView>)
        -> Option<(Seq<char>, Severity, Seq<char>)>
    {
        match from_bytes_unchecked_message(path) {
            Some(m) => Some(("from_bytes_unchecked"@, Severity::Warning, m)),
            None => None,
        }
    }

    fn uses_state(&self) -> (r: bool) {
        false
    }

    fn flag(&self, body: &Body, callee: DefId, path: &str, args: &Vec<Operand>, pre: &Option<BlockState>) -> (r: Option<Flag>) {
        match from_bytes_unchecked_message_of(path) {
            Some(m) => Some(("from_bytes_unchecked", Severity::Warning, m)),
            None => None,
        }
    }
}

impl FromBytesUnchecked {
    /// Reports, in block order, each direct call in `body` that
    /// `from_bytes_unchecked_message` gives a message for.
    pub fn check(&self, body: &Body, flow: &FlowResults) -> (r: Vec<Finding>)
        requires
            body.basic_blocks@.len() <= 0x1_0000_0000,
        ensures
            findings_view(r@) == call_findings(self, body, flow.entry_states@, body.basic_blocks@.len() as int),
    {
        run_call_rule(self, body, flow)
    }
}

} // verus!
