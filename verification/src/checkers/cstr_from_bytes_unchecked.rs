//! Detects calls to `CStr::from_bytes_with_nul_unchecked`.

use vstd::prelude::*;
use crate::analysis::dataflow::FlowResults;
use crate::analysis::state::{BlockState, StateView};
use crate::checkers::{CallRule, Finding, Flag, Severity, call_findings, findings_view, opt_chars, run_call_rule};
use crate::mir::{Body, DefId, Operand};
use crate::text::{ends_with, str_ends_with};

verus! {

/// Detects calls to `CStr::from_bytes_with_nul_unchecked`.
pub struct CStrFromBytesUnchecked;

/// The message `CStrFromBytesUnchecked` gives a direct call of `path`, if it reports one.
pub open spec fn cstr_from_bytes_unchecked_message(path: Seq<char>) -> Option<Seq<char>> {
    if ends_with(path, "CStr::from_bytes_with_nul_unchecked"@) {
        Some("`CStr::from_bytes_with_nul_unchecked` — bytes must end with exactly \
            one \\0 byte and contain no interior nuls; missing terminator causes \
            buffer overread, interior nuls silently truncate C strings; use \
            `CStr::from_bytes_with_nul` (returns Result) instead"@)
    } else {
        None
    }
}

fn cstr_from_bytes_unchecked_message_of(path: &str) -> (r: Option<String>)
    ensures
        opt_chars(r) == cstr_from_bytes_unchecked_message(path@),
{
    if str_ends_with(path, "CStr::from_bytes_with_nul_unchecked") {
        Some("`CStr::from_bytes_with_nul_unchecked` — bytes must end with exactly \
            one \\0 byte and contain no interior nuls; missing terminator causes \
            buffer overread, interior nuls silently truncate C strings; use \
            `CStr::from_bytes_with_nul` (returns Result) instead".to_owned())
    } else {
        None
    }
}

impl CallRule for CStrFromBytesUnchecked {
    open spec fn spec_uses_state(&self) -> bool {
        false
    }

    open spec fn spec_flag(&self, body: &Body, callee: DefId, path: Seq<char>, args: Seq<Operand>, pre: Option<StateView>)
        -> Option<(Seq<char>, Severity, Seq<char>)>
    {
        match cstr_from_bytes_unchecked_message(path) {
            Some(m) => Some(("cstr_from_bytes_unchecked"@, Severity::Warning, m)),
            None => None,
        }
    }

    fn uses_state(&self) -> (r: bool) {
        false
    }

    fn flag(&self, body: &Body, callee: DefId, path: &str, args: &Vec<Operand>, pre: &Option<BlockState>) -> (r: Option<Flag>) {
        match cstr_from_bytes_unchecked_message_of(path) {
            Some(m) => Some(("cstr_from_bytes_unchecked", Severity::Warning, m)),
            None => None,
        }
    }
}

impl CStrFromBytesUnchecked {
    /// Reports, in block order, each direct call in `body` that
    /// `cstr_from_bytes_unchecked_message` gives a message for.
    pub fn check(&self, body: &Body, flow: &FlowResults) -> (r: Vec<Finding>)
        requires
            body.basic_blocks@.len() <= 0x1_0000_0000,
        ensures
            findings_view(r@) == call_findings(self, body, flow.entry_states@, body.basic_blocks@.len() as int),
    {
        run_call_rule(self, body, flow)
    }
}

} // verus!
