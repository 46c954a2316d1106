//! Detects calls to `CString::from_raw`.

use vstd::prelude::*;
use crate::analysis::dataflow::FlowResults;
use crate::analysis::state::{BlockState, StateView};
use crate::checkers::{CallRule, Finding, Flag, Severity, call_findings, findings_view, opt_chars, run_call_rule};
use crate::mir::{Body, DefId, Operand};
use crate::text::{ends_with, str_ends_with};

verus! {

/// Detects calls to `CString::from_raw`.
pub struct CStringFromRaw;

/// The message `CStringFromRaw` gives a direct call of `path`, if it reports one.
pub open spec fn cstring_from_raw_message(path: Seq<char>) -> Option<Seq<char>> {
    if ends_with(path, "CString::from_raw"@) {
        Some("`CString::from_raw` — ptr must have been obtained from \
            `CString::into_raw` with the same allocator; do not call twice \
            (double-free); do not use ptr after this call (use-after-free); buffer \
            must be unmodified with nul terminator intact"@)
    } else {
        None
    }
}

fn cstring_from_raw_message_of(path: &str) -> (r: Option<String>)
    ensures
        opt_chars(r) == cstring_from_raw_message(path@),
{
    if str_ends_with(path, "CString::from_raw") {
        Some("`CString::from_raw` — ptr must have been obtained from \
            `CString::into_raw` with the same allocator; do not call twice \
            (double-free); do not use ptr after this call (use-after-free); buffer \
            must be unmodified with nul terminator intact".to_owned())
    } else {
        None
    }
}

impl CallRule for CStringFromRaw {
    open spec fn spec_uses_state(&self) -> bool {
        false
    }

    open spec fn spec_flag(&self, body: &Body, callee: DefId, path: Seq<char>, args: Seq<Operand>, pre: Option<StateView>)
        -> Option<(Seq<char>, Severity, Seq<char>)>
    {
        match cstring_from_raw_message(path) {
            Some(m) => Some(("cstring_from_raw"@, Severity::Warning, m)),
            None => None,
        }
    }

    fn uses_state(&self) -> (r: bool) {
        false
    }

    fn flag(&self, body: &Body, callee: DefId, path: &str, args: &Vec<Operand>, pre: &Option<BlockState>) -> (r: Option<Flag>) {
        match cstring_from_raw_message_of(path) {
            Some(m) => Some(("cstring_from_raw", Severity::Warning, m)),
            None => None,
        }
    }
}

impl CStringFromRaw {
    /// Reports, in block order, each direct call in `body` that
    /// `cstring_from_raw_message` gives a message for.
    pub fn check(&self, body: &Body, flow: &FlowResults) -> (r: Vec<Finding>)
        requires
            body.basic_blocks@.len() <= 0x1_0000_0000,
        ensures
            findings_view(r@) == call_findings(self, body, flow.entry_states@, body.basic_blocks@.len() as int),
    {
        run_call_rule(self, body, flow)
    }
}

} // verus!
