//! Detects calls to `CString::from_vec_unchecked` and
//! `CString::from_vec_with_nul_unchecked`.

use vstd::prelude::*;
use crate::analysis::dataflow::FlowResults;
use crate::analysis::state::{BlockState, StateView};
use crate::checkers::{CallRule, Finding, Flag, Severity, call_findings, findings_view, opt_chars, run_call_rule};
use crate::mir::{Body, DefId, Operand};
use crate::text::{ends_with, str_ends_with};

verus! {

/// Detects calls to `CString::from_vec_unchecked` and
/// `CString::from_vec_with_nul_unchecked`.
pub struct CStringFromVecUnchecked;

/// The message `CStringFromVecUnchecked` gives a direct call of `path`, if it reports one.
pub open spec fn cstring_from_vec_unchecked_message(path: Seq<char>) -> Option<Seq<char>> {
    if ends_with(path, "CString::from_vec_unchecked"@) {
        Some("`CString::from_vec_unchecked` — the byte vector must contain no \
            interior nul bytes (0x00); any embedded nul will silently truncate the \
            string when passed to C APIs, causing logic errors or path-traversal \
            vulnerabilities; use `CString::new` for the checked alternative"@)
    } else if ends_with(path, "CString::from_vec_with_nul_unchecked"@) {
        Some("`CString::from_vec_with_nul_unchecked` — the vector must end with \
            exactly one 0x00 byte and have no interior nuls; missing or misplaced \
            terminator produces a `CString` that violates C-string invariants, \
            causing UB in any C API that reads until the first nul; use \
            `CString::from_vec_with_nul` for the checked alternative"@)
    } else {
        None
    }
}

fn cstring_from_vec_unchecked_message_of(path: &str) -> (r: Option<String>)
    ensures
        opt_chars(r) == cstring_from_vec_unchecked_message(path@),
{
    if str_ends_with(path, "CString::from_vec_unchecked") {
        Some("`CString::from_vec_unchecked` — the byte vector must contain no \
            interior nul bytes (0x00); any embedded nul will silently truncate the \
            string when passed to C APIs, causing logic errors or path-traversal \
            vulnerabilities; use `CString::new` for the checked alternative".to_owned())
    } else if str_ends_with(path, "CString::from_vec_with_nul_unchecked") {
        Some("`CString::from_vec_with_nul_unchecked` — the vector must end with \
            exactly one 0x00 byte and have no interior nuls; missing or misplaced \
            terminator produces a `CString` that violates C-string invariants, \
            causing UB in any C API that reads until the first nul; use \
            `CString::from_vec_with_nul` for the checked alternative".to_owned())
    } else {
        None
    }
}

impl CallRule for CStringFromVecUnchecked {
    open spec fn spec_uses_state(&self) -> bool {
        false
    }

    open spec fn spec_flag(&self, body: &Body, callee: DefId, path: Seq<char>, args: Seq<Operand>, pre: Option<StateView>)
        -> Option<(Seq<char>, Severity, Seq<char>)>
    {
        match cstring_from_vec_unchecked_message(path) {
            Some(m) => Some(("cstring_from_vec_unchecked"@, Severity::Warning, m)),
            None => None,
        }
    }

    fn uses_state(&self) -> (r: bool) {
        false
    }

    fn flag(&self, body: &Body, callee: DefId, path: &str, args: &Vec<Operand>, pre: &Option<BlockState>) -> (r: Option<Flag>) {
        match cstring_from_vec_unchecked_message_of(path) {
            Some(m) => Some(("cstring_from_vec_unchecked", Severity::Warning, m)),
            None => None,
        }
    }
}

impl CStringFromVecUnchecked {
    /// Reports, in block order, each direct call in `body` that
    /// `cstring_from_vec_unchecked_message` gives a message for.
    pub fn check(&self, body: &Body, flow: &FlowResults) -> (r: Vec<Finding>)
        requires
            body.basic_blocks@.len() <= 0x1_0000_0000,
        ensures
            findings_view(r@) == call_findings(self, body, flow.entry_states@, body.basic_blocks@.len() as int),
    {
        run_call_rule(self, body, flow)
    }
}

} // verus!
