//! Detects calls to the `ctlz_nonzero` and `cttz_nonzero` intrinsics.

use vstd::prelude::*;
use crate::analysis::dataflow::FlowResults;
use crate::analysis::state::{BlockState, StateView};
use crate::checkers::{CallRule, Finding, Flag, Severity, call_findings, findings_view, opt_chars, run_call_rule};
use crate::mir::{Body, DefId, Operand};
use crate::text::{ends_with, str_ends_with};

verus! {

/// Detects calls to the `ctlz_nonzero` and `cttz_nonzero` intrinsics.
pub struct CtlzNonzero;

/// The message `CtlzNonzero` gives a direct call of `path`, if it reports one.
pub open spec fn ctlz_nonzero_message(path: Seq<char>) -> Option<Seq<char>> {
    if ends_with(path, "ctlz_nonzero"@) {
        Some("`ctlz_nonzero` — input must be non-zero; passing 0 produces LLVM \
            poison that propagates silently through subsequent computations; safe \
            alternative: `u32::leading_zeros()` or `NonZeroU32::leading_zeros()` \
            (nightly `core_intrinsics`)"@)
    } else if ends_with(path, "cttz_nonzero"@) {
        Some("`cttz_nonzero` — input must be non-zero; passing 0 produces LLVM \
            poison; safe alternative: `u32::trailing_zeros()` or \
            `NonZeroU32::trailing_zeros()` (nightly `core_intrinsics`)"@)
    } else {
        None
    }
}

fn ctlz_nonzero_message_of(path: &str) -> (r: Option<String>)
    ensures
        opt_chars(r) == ctlz_nonzero_message(path@),
{
    if str_ends_with(path, "ctlz_nonzero") {
        Some("`ctlz_nonzero` — input must be non-zero; passing 0 produces LLVM \
            poison that propagates silently through subsequent computations; safe \
            alternative: `u32::leading_zeros()` or `NonZeroU32::leading_zeros()` \
            (nightly `core_intrinsics`)".to_owned())
    } else if str_ends_with(path, "cttz_nonzero") {
        Some("`cttz_nonzero` — input must be non-zero; passing 0 produces LLVM \
            poison; safe alternative: `u32::trailing_zeros()` or \
            `NonZeroU32::trailing_zeros()` (nightly `core_intrinsics`)".to_owned())
    } else {
        None
    }
}

impl CallRule for CtlzNonzero {
    open spec fn spec_uses_state(&self) -> bool {
        false
    }

    open spec fn spec_flag(&self, body: &Body, callee: DefId, path: Seq<char>, args: Seq<Operand>, pre: Option<StateView>)
        -> Option<(Seq<char>, Severity, Seq<char>)>
    {
        match ctlz_nonzero_message(path) {
            Some(m) => Some(("ctlz_nonzero"@, Severity::Warning, m)),
            None => None,
        }
    }

    fn uses_state(&self) -> (r: bool) {
        false
    }

    fn flag(&self, body: &Body, callee: DefId, path: &str, args: &Vec<Operand>, pre: &Option<BlockState>) -> (r: Option<Flag>) {
        match ctlz_nonzero_message_of(path) {
            Some(m) => Some(("ctlz_nonzero", Severity::Warning, m)),
            None => None,
        }
    }
}

impl CtlzNonzero {
    /// Reports, in block order, each direct call in `body` that
    /// `ctlz_nonzero_message` gives a message for.
    pub fn check(&self, body: &Body, flow: &FlowResults) -> (r: Vec<Finding>)
        requires
            body.basic_blocks@.len() <= 0x1_0000_0000,
        ensures
            findings_view(r@) == call_findings(self, body, flow.entry_states@, body.basic_blocks@.len() as int),
    {
        run_call_rule(self, body, flow)
    }
}

} // verus!
