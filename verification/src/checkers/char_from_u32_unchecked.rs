//! Detects calls to `char::from_u32_unchecked`.

use vstd::prelude::*;
use crate::analysis::dataflow::FlowResults;
use crate::analysis::facts::{first_arg_local, spec_first_arg_local};
use crate::analysis::state::{BlockState, StateView, spec_local_is_valid_scalar};
use crate::checkers::{CallRule, Finding, Flag, Severity, call_findings, findings_view, run_call_rule};
use crate::mir::{Body, DefId, Operand};
use crate::text::{contains, ends_with, str_contains, str_ends_with};

verus! {

/// Detects calls to `char::from_u32_unchecked`.
pub struct CharFromU32Unchecked;

/// `char::from_u32_unchecked` is called.
pub open spec fn is_char_from_u32_unchecked(path: Seq<char>) -> bool {
    ends_with(path, "::from_u32_unchecked"@) && contains(path, "char"@)
}

pub open spec fn char_from_u32_message() -> Seq<char> {
    "`char::from_u32_unchecked` — value must be a valid Unicode scalar: \
        0x0..=0xD7FF or 0xE000..=0x10FFFF; surrogates (0xD800..=0xDFFF) and \
        values > 0x10FFFF are UB; use `char::from_u32` (returns Option) \
        instead"@
}

impl CallRule for CharFromU32Unchecked {
    open spec fn spec_uses_state(&self) -> bool {
        true
    }

    /// Reported unless the argument is proven a valid Unicode scalar value
    /// on every path reaching the call.
    open spec fn spec_flag(&self, body: &Body, callee: DefId, path: Seq<char>, args: Seq<Operand>, pre: Option<StateView>)
        -> Option<(Seq<char>, Severity, Seq<char>)>
    {
        if !is_char_from_u32_unchecked(path) {
            None
        } else if pre is Some && spec_first_arg_local(args) is Some
            && spec_local_is_valid_scalar(pre->0, spec_first_arg_local(args)->0) {
            None
        } else {
            Some(("char_from_u32_unchecked"@, Severity::Warning, char_from_u32_message()))
        }
    }

    fn uses_state(&self) -> (r: bool) {
        true
    }

    fn flag(&self, body: &Body, callee: DefId, path: &str, args: &Vec<Operand>, pre: &Option<BlockState>) -> (r: Option<Flag>) {
        if !(str_ends_with(path, "::from_u32_unchecked") && str_contains(path, "char")) {
            return None;
        }
        match (pre, first_arg_local(args)) {
            (Some(state), Some(arg)) => {
                if state.local_is_valid_scalar(arg) {
                    return None;
                }
            },
            _ => {},
        }
        Some(("char_from_u32_unchecked", Severity::Warning, "`char::from_u32_unchecked` — value must be a valid Unicode scalar: \
            0x0..=0xD7FF or 0xE000..=0x10FFFF; surrogates (0xD800..=0xDFFF) and \
            values > 0x10FFFF are UB; use `char::from_u32` (returns Option) \
            instead".to_owned()))
    }
}

impl CharFromU32Unchecked {
    /// Reports each direct call of `char::from_u32_unchecked` in `body`
    /// whose argument is not proven a valid Unicode scalar value.
    pub fn check(&self, body: &Body, flow: &FlowResults) -> (r: Vec<Finding>)
        requires
            body.basic_blocks@.len() <= 0x1_0000_0000,
        ensures
            findings_view(r@) == call_findings(self, body, flow.entry_states@, body.basic_blocks@.len() as int),
    {
        run_call_rule(self, body, flow)
    }
}

} // verus!
