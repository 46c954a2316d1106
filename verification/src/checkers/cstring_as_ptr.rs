//! Detects calls to `CString::as_ptr`, `CString::into_raw`, and
//! `CString::from_vec_unchecked`.

use vstd::prelude::*;
use crate::analysis::dataflow::FlowResults;
use crate::analysis::state::{BlockState, StateView};
use crate::checkers::{CallRule, Finding, Flag, Severity, call_findings, findings_view, opt_chars, run_call_rule};
use crate::mir::{Body, DefId, Operand};
use crate::text::{ends_with, str_ends_with};

verus! {

/// Detects calls to `CString::as_ptr`, `CString::into_raw`, and
/// `CString::from_vec_unchecked`.
pub struct CStringAsPtr;

/// The message `CStringAsPtr` gives a direct call of `path`, if it reports one.
pub open spec fn cstring_as_ptr_message(path: Seq<char>) -> Option<Seq<char>> {
    if ends_with(path, "CString::as_ptr"@) {
        Some("`CString::as_ptr` — pointer is only valid while the CString is alive; \
            if called on a temporary (`CString::new(...).unwrap().as_ptr()`), the \
            CString is dropped at the semicolon and the pointer is immediately \
            dangling"@)
    } else if ends_with(path, "CString::into_raw"@) {
        Some("`CString::into_raw` — leaks the CString — memory must be freed via \
            `CString::from_raw` with the same pointer exactly once; double-free or \
            leak if misused"@)
    } else if ends_with(path, "CString::from_vec_unchecked"@) {
        Some("`CString::from_vec_unchecked` — bytes must not contain interior nul \
            bytes; if they do, C functions receiving the pointer will stop at the \
            first nul, causing truncation or security-relevant null-byte injection \
            (e.g. in path construction); use `CString::new` for the checked \
            version"@)
    } else if ends_with(path, "CString::from_vec_with_nul_unchecked"@) {
        Some("`CString::from_vec_with_nul_unchecked` — bytes must end with exactly \
            one nul byte and contain no interior nuls; violating either condition \
            causes C callers to truncate or overflow; use \
            `CString::from_vec_with_nul` for the checked version (returns Result)"@)
    } else {
        None
    }
}

fn cstring_as_ptr_message_of(path: &str) -> (r: Option<String>)
    ensures
        opt_chars(r) == cstring_as_ptr_message(path@),
{
    if str_ends_with(path, "CString::as_ptr") {
        Some("`CString::as_ptr` — pointer is only valid while the CString is alive; \
            if called on a temporary (`CString::new(...).unwrap().as_ptr()`), the \
            CString is dropped at the semicolon and the pointer is immediately \
            dangling".to_owned())
    } else if str_ends_with(path, "CString::into_raw") {
        Some("`CString::into_raw` — leaks the CString — memory must be freed via \
            `CString::from_raw` with the same pointer exactly once; double-free or \
            leak if misused".to_owned())
    } else if str_ends_with(path, "CString::from_vec_unchecked") {
        Some("`CString::from_vec_unchecked` — bytes must not contain interior nul \
            bytes; if they do, C functions receiving the pointer will stop at the \
            first nul, causing truncation or security-relevant null-byte injection \
            (e.g. in path construction); use `CString::new` for the checked \
            version".to_owned())
    } else if str_ends_with(path, "CString::from_vec_with_nul_unchecked") {
        Some("`CString::from_vec_with_nul_unchecked` — bytes must end with exactly \
            one nul byte and contain no interior nuls; violating either condition \
            causes C callers to truncate or overflow; use \
            `CString::from_vec_with_nul` for the checked version (returns Result)".to_owned())
    } else {
        None
    }
}

impl CallRule for CStringAsPtr {
    open spec fn spec_uses_state(&self) -> bool {
        false
    }

    open spec fn spec_flag(&self, body: &Body, callee: DefId, path: Seq<char>, args: Seq<Operand>, pre: Option<StateView>)
        -> Option<(Seq<char>, Severity, Seq<char>)>
    {
        match cstring_as_ptr_message(path) {
            Some(m) => Some(("cstring_as_ptr"@, Severity::Warning, m)),
            None => None,
        }
    }

    fn uses_state(&self) -> (r: bool) {
        false
    }

    fn flag(&self, body: &Body, callee: DefId, path: &str, args: &Vec<Operand>, pre: &Option<BlockState>) -> (r: Option<Flag>) {
        match cstring_as_ptr_message_of(path) {
            Some(m) => Some(("cstring_as_ptr", Severity::Warning, m)),
            None => None,
        }
    }
}

impl CStringAsPtr {
    /// Reports, in block order, each direct call in `body` that
    /// `cstring_as_ptr_message` gives a message for.
    pub fn check(&self, body: &Body, flow: &FlowResults) -> (r: Vec<Finding>)
        requires
            body.basic_blocks@.len() <= 0x1_0000_0000,
        ensures
            findings_view(r@) == call_findings(self, body, flow.entry_states@, body.basic_blocks@.len() as int),
    {
        run_call_rule(self, body, flow)
    }
}

} // verus!
