//! Detects direct calls to `CloneToUninit::clone_to_uninit` (stable since Rust
//! 1.81).

use vstd::prelude::*;
use crate::analysis::dataflow::FlowResults;
use crate::analysis::facts::{nth_arg_local, spec_nth_arg_local};
use crate::analysis::state::{BlockState, FreedKind, StateView, spec_freed_kind, spec_ptr_is_raw_owned};
use crate::checkers::{CallRule, Finding, Flag, Severity, call_findings, findings_view, run_call_rule, uaf_message};
use crate::mir::{Body, DefId, Operand};
use crate::text::{ends_with, str_ends_with};
use vstd::string::StringExecFns;

verus! {

/// Detects direct calls to `CloneToUninit::clone_to_uninit` (stable since Rust
/// 1.81).
pub struct CloneToUninitCall;

pub open spec fn clone_to_uninit_message() -> Seq<char> {
    "`clone_to_uninit` — dst must be non-null, aligned, and valid for \
        size_of_val(src) bytes; dst must NOT hold an initialized value (the \
        old value will not be dropped — leak if initialized); if the clone \
        panics, dst is partially initialized — UB to use afterward"@
}

impl CallRule for CloneToUninitCall {
    open spec fn spec_uses_state(&self) -> bool {
        true
    }

    /// A destination (the second argument) freed on this path, or on some
    /// path, is a use-after-free; otherwise the call is reported unless the
    /// destination is raw memory the body explicitly owns.
    open spec fn spec_flag(&self, body: &Body, callee: DefId, path: Seq<char>, args: Seq<Operand>, pre: Option<StateView>)
        -> Option<(Seq<char>, Severity, Seq<char>)>
    {
        if !ends_with(path, "::clone_to_uninit"@) {
            None
        } else {
            match (pre, spec_nth_arg_local(args, 1)) {
                (Some(v), Some(dst)) => match spec_freed_kind(v, dst) {
                    FreedKind::Definite => Some(("use_after_free"@, Severity::Warning, uaf_message("write"@, false))),
                    FreedKind::Potential => Some(("use_after_free"@, Severity::Warning, uaf_message("write"@, true))),
                    FreedKind::NotFreed => if spec_ptr_is_raw_owned(v, dst) {
                        None
                    } else {
                        Some(("clone_to_uninit_call"@, Severity::Warning, clone_to_uninit_message()))
                    },
                },
                _ => Some(("clone_to_uninit_call"@, Severity::Warning, clone_to_uninit_message())),
            }
        }
    }

    fn uses_state(&self) -> (r: bool) {
        true
    }

    fn flag(&self, body: &Body, callee: DefId, path: &str, args: &Vec<Operand>, pre: &Option<BlockState>) -> (r: Option<Flag>) {
        if !str_ends_with(path, "::clone_to_uninit") {
            return None;
        }
        match (pre, nth_arg_local(args, 1)) {
            (Some(state), Some(dst)) => match state.freed_kind(dst) {
                FreedKind::Definite => {
                    return Some(("use_after_free", Severity::Warning,
                        "use-after-free: the pointer was already freed on this path before this ".to_owned().concat("write")));
                },
                FreedKind::Potential => {
                    return Some(("use_after_free", Severity::Warning,
                        "potential use-after-free: the pointer may already have been freed on another path before this "
                            .to_owned().concat("write")));
                },
                FreedKind::NotFreed => {
                    if state.ptr_is_raw_owned(dst) {
                        return None;
                    }
                },
            },
            _ => {},
        }
        Some(("clone_to_uninit_call", Severity::Warning, "`clone_to_uninit` — dst must be non-null, aligned, and valid for \
            size_of_val(src) bytes; dst must NOT hold an initialized value (the \
            old value will not be dropped — leak if initialized); if the clone \
            panics, dst is partially initialized — UB to use afterward".to_owned()))
    }
}

impl CloneToUninitCall {
    /// Reports each direct call of `clone_to_uninit` in `body`: as a
    /// use-after-free when its destination was freed, otherwise as an audit
    /// point unless the destination is explicitly owned raw memory.
    pub fn check(&self, body: &Body, flow: &FlowResults) -> (r: Vec<Finding>)
        requires
            body.basic_blocks@.len() <= 0x1_0000_0000,
        ensures
            findings_view(r@) == call_findings(self, body, flow.entry_states@, body.basic_blocks@.len() as int),
    {
        run_call_rule(self, body, flow)
    }
}

} // verus!
