//! Detects calls to `std::hint::assert_unchecked` and
//! `std::intrinsics::assume`.

use vstd::prelude::*;
use crate::analysis::dataflow::FlowResults;
use crate::analysis::state::{BlockState, StateView};
use crate::checkers::{CallRule, Finding, Flag, Severity, call_findings, findings_view, opt_chars, run_call_rule};
use crate::mir::{Body, DefId, Operand};
use crate::text::{ends_with, str_ends_with};

verus! {

/// Detects calls to `std::hint::assert_unchecked` and
/// `std::intrinsics::assume`.
pub struct HintAssertUnchecked;

/// The message `HintAssertUnchecked` gives a direct call of `path`, if it reports one.
pub open spec fn hint_assert_unchecked_message(path: Seq<char>) -> Option<Seq<char>> {
    if ends_with(path, "hint::assert_unchecked"@) {
        Some("`hint::assert_unchecked` — the condition must ALWAYS be true; if ever \
            false, the optimizer may silently miscompile surrounding code (no \
            panic, no error — pure UB); use `assert!` unless the invariant is \
            provably unbreakable"@)
    } else if ends_with(path, "intrinsics::assume"@) {
        Some("`intrinsics::assume` — the condition must ALWAYS be true; if ever \
            false, the optimizer may silently miscompile surrounding code (no \
            panic, no error — pure UB); use `assert!` unless the invariant is \
            provably unbreakable"@)
    } else {
        None
    }
}

fn hint_assert_unchecked_message_of(path: &str) -> (r: Option<String>)
    ensures
        opt_chars(r) == hint_assert_unchecked_message(path@),
{
    if str_ends_with(path, "hint::assert_unchecked") {
        Some("`hint::assert_unchecked` — the condition must ALWAYS be true; if ever \
            false, the optimizer may silently miscompile surrounding code (no \
            panic, no error — pure UB); use `assert!` unless the invariant is \
            provably unbreakable".to_owned())
    } else if str_ends_with(path, "intrinsics::assume") {
        Some("`intrinsics::assume` — the condition must ALWAYS be true; if ever \
            false, the optimizer may silently miscompile surrounding code (no \
            panic, no error — pure UB); use `assert!` unless the invariant is \
            provably unbreakable".to_owned())
    } else {
        None
    }
}

impl CallRule for HintAssertUnchecked {
    open spec fn spec_uses_state(&self) -> bool {
        false
    }

    open spec fn spec_flag(&self, body: &Body, callee: DefId, path: Seq<char>, args: Seq<Operand>, pre: Option<StateView>)
        -> Option<(Seq<char>, Severity, Seq<char>)>
    {
        match hint_assert_unchecked_message(path) {
            Some(m) => Some(("hint_assert_unchecked"@, Severity::Warning, m)),
            None => None,
        }
    }

    fn uses_state(&self) -> (r: bool) {
        false
    }

    fn flag(&self, body: &Body, callee: DefId, path: &str, args: &Vec<Operand>, pre: &Option<BlockState>) -> (r: Option<Flag>) {
        match hint_assert_unchecked_message_of(path) {
            Some(m) => Some(("hint_assert_unchecked", Severity::Warning, m)),
            None => None,
        }
    }
}

impl HintAssertUnchecked {
    /// Reports, in block order, each direct call in `body` that
    /// `hint_assert_unchecked_message` gives a message for.
    pub fn check(&self, body: &Body, flow: &FlowResults) -> (r: Vec<Finding>)
        requires
            body.basic_blocks@.len() <= 0x1_0000_0000,
        ensures
            findings_view(r@) == call_findings(self, body, flow.entry_states@, body.basic_blocks@.len() as int),
    {
        run_call_rule(self, body, flow)
    }
}

} // verus!
