//! Detects unsafe operations on `BorrowedCursor` (nightly
//! `#![feature(core_io_borrowed_buf)]`).

use vstd::prelude::*;
use crate::analysis::dataflow::FlowResults;
use crate::analysis::state::{BlockState, StateView};
use crate::checkers::{CallRule, Finding, Flag, Severity, call_findings, findings_view, opt_chars, run_call_rule};
use crate::mir::{Body, DefId, Operand};
use crate::text::{contains, ends_with, str_contains, str_ends_with};

verus! {

/// Detects unsafe operations on `BorrowedCursor` (nightly
/// `#![feature(core_io_borrowed_buf)]`).
pub struct BorrowedCursorAdvance;

/// The message `BorrowedCursorAdvance` gives a direct call of `path`, if it reports one.
pub open spec fn borrowed_cursor_advance_message(path: Seq<char>) -> Option<Seq<char>> {
    if !(contains(path, "BorrowedCursor"@)) {
        None
    } else if ends_with(path, "::advance"@) {
        Some("`BorrowedCursor::advance(n)` — the first `n` bytes of the cursor's \
            unfilled region must be fully initialized before this call; advancing \
            without writing exposes uninitialized bytes to the caller; `n` must \
            also be <= self.capacity()"@)
    } else if ends_with(path, "::set_init"@) {
        Some("`BorrowedCursor::set_init()` — marks the entire unfilled region as \
            initialized; every byte must have been written before calling; if any \
            byte is still uninitialized, readers of the buffer observe \
            uninitialized memory (UB)"@)
    } else {
        None
    }
}

fn borrowed_cursor_advance_message_of(path: &str) -> (r: Option<String>)
    ensures
        opt_chars(r) == borrowed_cursor_advance_message(path@),
{
    if !(str_contains(path, "BorrowedCursor")) {
        None
    } else if str_ends_with(path, "::advance") {
        Some("`BorrowedCursor::advance(n)` — the first `n` bytes of the cursor's \
            unfilled region must be fully initialized before this call; advancing \
            without writing exposes uninitialized bytes to the caller; `n` must \
            also be <= self.capacity()".to_owned())
    } else if str_ends_with(path, "::set_init") {
        Some("`BorrowedCursor::set_init()` — marks the entire unfilled region as \
            initialized; every byte must have been written before calling; if any \
            byte is still uninitialized, readers of the buffer observe \
            uninitialized memory (UB)".to_owned())
    } else {
        None
    }
}

impl CallRule for BorrowedCursorAdvance {
    open spec fn spec_uses_state(&self) -> bool {
        false
    }

    open spec fn spec_flag(&self, body: &Body, callee: DefId, path: Seq<char>, args: Seq<Operand>, pre: Option<StateView>)
        -> Option<(Seq<char>, Severity, Seq<char>)>
    {
        match borrowed_cursor_advance_message(path) {
            Some(m) => Some(("borrowed_cursor_advance"@, Severity::Warning, m)),
            None => None,
        }
    }

    fn uses_state(&self) -> (r: bool) {
        false
    }

    fn flag(&self, body: &Body, callee: DefId, path: &str, args: &Vec<Operand>, pre: &Option<BlockState>) -> (r: Option<Flag>) {
        match borrowed_cursor_advance_message_of(path) {
            Some(m) => Some(("borrowed_cursor_advance", Severity::Warning, m)),
            None => None,
        }
    }
}

impl BorrowedCursorAdvance {
    /// Reports, in block order, each direct call in `body` that
    /// `borrowed_cursor_advance_message` gives a message for.
    pub fn check(&self, body: &Body, flow: &FlowResults) -> (r: Vec<Finding>)
        requires
            body.basic_blocks@.len() <= 0x1_0000_0000,
        ensures
            findings_view(r@) == call_findings(self, body, flow.entry_states@, body.basic_blocks@.len() as int),
    {
        run_call_rule(self, body, flow)
    }
}

} // verus!
