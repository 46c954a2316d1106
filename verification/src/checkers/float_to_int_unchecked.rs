//! Detects calls to `f32::to_int_unchecked` and `f64::to_int_unchecked`.

use vstd::prelude::*;
use crate::analysis::dataflow::FlowResults;
use crate::analysis::state::{BlockState, StateView};
use crate::checkers::{CallRule, Finding, Flag, Severity, call_findings, findings_view, opt_chars, run_call_rule};
use crate::mir::{Body, DefId, Operand};
use crate::text::{contains, str_contains};

verus! {

/// Detects calls to `f32::to_int_unchecked` and `f64::to_int_unchecked`.
pub struct FloatToIntUnchecked;

/// The message `FloatToIntUnchecked` gives a direct call of `path`, if it reports one.
pub open spec fn float_to_int_unchecked_message(path: Seq<char>) -> Option<Seq<char>> {
    if contains(path, "to_int_unchecked"@) {
        Some("`to_int_unchecked` — value must be finite (not NaN, not infinite) and \
            fit within the target integer type's range when truncated toward zero; \
            NaN and out-of-range values are immediate UB"@)
    } else {
        None
    }
}

fn float_to_int_unchecked_message_of(path: &str) -> (r: Option<String>)
    ensures
        opt_chars(r) == float_to_int_unchecked_message(path@),
{
    if str_contains(path, "to_int_unchecked") {
        Some("`to_int_unchecked` — value must be finite (not NaN, not infinite) and \
            fit within the target integer type's range when truncated toward zero; \
            NaN and out-of-range values are immediate UB".to_owned())
    } else {
        None
    }
}

impl CallRule for FloatToIntUnchecked {
    open spec fn spec_uses_state(&self) -> bool {
        false
    }

    open spec fn spec_flag(&self, body: &Body, callee: DefId, path: Seq<char>, args: Seq<Operand>, pre: Option<StateView>)
        -> Option<(Seq<char>, Severity, Seq<char>)>
    {
        match float_to_int_unchecked_message(path) {
            Some(m) => Some(("float_to_int_unchecked"@, Severity::Warning, m)),
            None => None,
        }
    }

    fn uses_state(&self) -> (r: bool) {
        false
    }

    fn flag(&self, body: &Body, callee: DefId, path: &str, args: &Vec<Operand>, pre: &Option<BlockState>) -> (r: Option<Flag>) {
        match float_to_int_unchecked_message_of(path) {
            Some(m) => Some(("float_to_int_unchecked", Severity::Warning, m)),
            None => None,
        }
    }
}

impl FloatToIntUnchecked {
    /// Reports, in block order, each direct call in `body` that
    /// `float_to_int_unchecked_message` gives a message for.
    pub fn check(&self, body: &Body, flow: &FlowResults) -> (r: Vec<Finding>)
        requires
            body.basic_blocks@.len() <= 0x1_0000_0000,
        ensures
            findings_view(r@) == call_findings(self, body, flow.entry_states@, body.basic_blocks@.len() as int),
    {
        run_call_rule(self, body, flow)
    }
}

} // verus!
