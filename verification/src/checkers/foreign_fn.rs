//! Detects calls to `extern "C"` (and other ABI) foreign functions declared
//! within the current workspace crate.

use vstd::prelude::*;
use crate::analysis::dataflow::FlowResults;
use crate::analysis::state::{BlockState, StateView};
use crate::checkers::{CallRule, Finding, Flag, Severity, call_findings, findings_view, run_call_rule};
use crate::mir::{Body, DefId, Operand};
use vstd::string::StringExecFns;

verus! {

/// Detects calls to `extern "C"` (and other ABI) foreign functions declared
/// within the current workspace crate.
pub struct ForeignFn;

impl CallRule for ForeignFn {
    open spec fn spec_uses_state(&self) -> bool {
        false
    }

    /// Calls of functions declared in an `extern` block of the analysed
    /// crate (foreign functions of dependencies are left alone).
    open spec fn spec_flag(&self, body: &Body, callee: DefId, path: Seq<char>, args: Seq<Operand>, pre: Option<StateView>)
        -> Option<(Seq<char>, Severity, Seq<char>)>
    {
        if body.local_foreign_fns@.contains(callee) {
            Some(("foreign_fn"@, Severity::Warning, "`"@ + path + "` is a foreign (`extern`) function — verify ABI match, pointer \
                validity, buffer sizes, ownership transfer, error-code handling, and \
                thread-safety per the foreign API contract"@))
        } else {
            None
        }
    }

    fn uses_state(&self) -> (r: bool) {
        false
    }

    fn flag(&self, body: &Body, callee: DefId, path: &str, args: &Vec<Operand>, pre: &Option<BlockState>) -> (r: Option<Flag>) {
        if body.local_foreign_fns.contains(callee) {
            Some(("foreign_fn", Severity::Warning, "`".to_owned().concat(path).concat("` is a foreign (`extern`) function — verify ABI match, pointer \
                validity, buffer sizes, ownership transfer, error-code handling, and \
                thread-safety per the foreign API contract")))
        } else {
            None
        }
    }
}

impl ForeignFn {
    /// Reports each direct call in `body` of a foreign function declared in
    /// the analysed crate.
    pub fn check(&self, body: &Body, flow: &FlowResults) -> (r: Vec<Finding>)
        requires
            body.basic_blocks@.len() <= 0x1_0000_0000,
        ensures
            findings_view(r@) == call_findings(self, body, flow.entry_states@, body.basic_blocks@.len() as int),
    {
        run_call_rule(self, body, flow)
    }
}

} // verus!
