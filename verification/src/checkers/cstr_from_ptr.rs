//! Detects calls to `CStr::from_ptr` and `CStr::from_bytes_with_nul_unchecked`.

use vstd::prelude::*;
use crate::analysis::dataflow::FlowResults;
use crate::analysis::state::{BlockState, StateView};
use crate::checkers::{CallRule, Finding, Flag, Severity, call_findings, findings_view, opt_chars, run_call_rule};
use crate::mir::{Body, DefId, Operand};
use crate::text::{ends_with, str_ends_with};

verus! {

/// Detects calls to `CStr::from_ptr` and `CStr::from_bytes_with_nul_unchecked`.
pub struct CStrFromPtr;

/// The message `CStrFromPtr` gives a direct call of `path`, if it reports one.
pub open spec fn cstr_from_ptr_message(path: Seq<char>) -> Option<Seq<char>> {
    if ends_with(path, "CStr::from_ptr"@) {
        Some("`CStr::from_ptr` — ptr must be non-null, point to a valid \
            null-terminated C string, and remain valid for the returned &CStr's \
            lifetime; embedded null bytes silently truncate the string (path \
            injection risk)"@)
    } else if ends_with(path, "CStr::from_bytes_with_nul_unchecked"@) {
        Some("`CStr::from_bytes_with_nul_unchecked` — bytes must end with exactly \
            one b'\\0' and contain no interior null bytes; use \
            CStr::from_bytes_with_nul (returns Result) instead"@)
    } else if ends_with(path, "CString::from_vec_unchecked"@) {
        Some("`CString::from_vec_unchecked` — bytes must contain no null bytes \
            (interior or trailing); use CString::new (returns Result) instead"@)
    } else if ends_with(path, "CString::from_vec_with_nul_unchecked"@) {
        Some("`CString::from_vec_with_nul_unchecked` — bytes must contain exactly \
            one null byte and it must be the last byte; use \
            CString::from_vec_with_nul (returns Result) instead"@)
    } else if ends_with(path, "CString::from_raw"@) {
        Some("`CString::from_raw` — ptr must have been returned by CString::into_raw \
            from the same allocator; calling from_raw twice on the same pointer is \
            double-free UB"@)
    } else {
        None
    }
}

fn cstr_from_ptr_message_of(path: &str) -> (r: Option<String>)
    ensures
        opt_chars(r) == cstr_from_ptr_message(path@),
{
    if str_ends_with(path, "CStr::from_ptr") {
        Some("`CStr::from_ptr` — ptr must be non-null, point to a valid \
            null-terminated C string, and remain valid for the returned &CStr's \
            lifetime; embedded null bytes silently truncate the string (path \
            injection risk)".to_owned())
    } else if str_ends_with(path, "CStr::from_bytes_with_nul_unchecked") {
        Some("`CStr::from_bytes_with_nul_unchecked` — bytes must end with exactly \
            one b'\\0' and contain no interior null bytes; use \
            CStr::from_bytes_with_nul (returns Result) instead".to_owned())
    } else if str_ends_with(path, "CString::from_vec_unchecked") {
        Some("`CString::from_vec_unchecked` — bytes must contain no null bytes \
            (interior or trailing); use CString::new (returns Result) instead".to_owned())
    } else if str_ends_with(path, "CString::from_vec_with_nul_unchecked") {
        Some("`CString::from_vec_with_nul_unchecked` — bytes must contain exactly \
            one null byte and it must be the last byte; use \
            CString::from_vec_with_nul (returns Result) instead".to_owned())
    } else if str_ends_with(path, "CString::from_raw") {
        Some("`CString::from_raw` — ptr must have been returned by CString::into_raw \
            from the same allocator; calling from_raw twice on the same pointer is \
            double-free UB".to_owned())
    } else {
        None
    }
}

impl CallRule for CStrFromPtr {
    open spec fn spec_uses_state(&self) -> bool {
        false
    }

    open spec fn spec_flag(&self, body: &Body, callee: DefId, path: Seq<char>, args: Seq<Operand>, pre: Option<StateView>)
        -> Option<(Seq<char>, Severity, Seq<char>)>
    {
        match cstr_from_ptr_message(path) {
            Some(m) => Some(("cstr_from_ptr"@, Severity::Warning, m)),
            None => None,
        }
    }

    fn uses_state(&self) -> (r: bool) {
        false
    }

    fn flag(&self, body: &Body, callee: DefId, path: &str, args: &Vec<Operand>, pre: &Option<BlockState>) -> (r: Option<Flag>) {
        match cstr_from_ptr_message_of(path) {
            Some(m) => Some(("cstr_from_ptr", Severity::Warning, m)),
            None => None,
        }
    }
}

impl CStrFromPtr {
    /// Reports, in block order, each direct call in `body` that
    /// `cstr_from_ptr_message` gives a message for.
    pub fn check(&self, body: &Body, flow: &FlowResults) -> (r: Vec<Finding>)
        requires
            body.basic_blocks@.len() <= 0x1_0000_0000,
        ensures
            findings_view(r@) == call_findings(self, body, flow.entry_states@, body.basic_blocks@.len() as int),
    {
        run_call_rule(self, body, flow)
    }
}

} // verus!
