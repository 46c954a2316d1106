//! Detects calls to `MaybeUninit::assume_init*` and similar "assume
//! initialized" patterns, plus direct access to uninitialized buffer memory via
//! `tokio::io::ReadBuf` unsafe methods.

use vstd::prelude::*;
use crate::analysis::dataflow::FlowResults;
use crate::analysis::state::{BlockState, StateView};
use crate::checkers::{CallRule, Finding, Flag, Severity, call_findings, findings_view, opt_chars, run_call_rule, last_segment, path_last_segment};
use crate::mir::{Body, DefId, Operand};
use crate::text::{contains, ends_with, str_contains, str_ends_with};
use vstd::string::StringExecFns;

verus! {

/// Detects calls to `MaybeUninit::assume_init*` and similar "assume
/// initialized" patterns, plus direct access to uninitialized buffer memory via
/// `tokio::io::ReadBuf` unsafe methods.
pub struct AssumeInit;

/// The message `AssumeInit` gives a direct call of `path`, if it reports one.
pub open spec fn assume_init_message(path: Seq<char>) -> Option<Seq<char>> {
    if contains(path, "MaybeUninit"@) && contains(path, "assume_init"@) {
        Some("`"@ + last_segment(path) + "` — assume_init"@)
    } else if contains(path, "ReadBuf"@) && ends_with(path, "::assume_init"@) {
        Some("`ReadBuf::assume_init` — marks the first n bytes of the unfilled \
            region as initialized without writing to them; caller must have \
            actually written n bytes before this call; unwritten bytes become \
            readable by the buffer consumer (UB)"@)
    } else if contains(path, "ReadBuf"@) && ends_with(path, "::inner_mut"@) {
        Some("`ReadBuf::inner_mut` — returns the entire backing buffer as &mut \
            [MaybeUninit<u8>], bypassing ReadBuf's initialization tracking; \
            reading from uninitialized bytes is UB; writing fewer bytes than \
            previously tracked shrinks the initialized region invisibly, causing \
            future readers to observe stale uninitialized data"@)
    } else if contains(path, "ReadBuf"@) && ends_with(path, "::unfilled_mut"@) {
        Some("`ReadBuf::unfilled_mut` — returns the unfilled portion of the buffer \
            as &mut [MaybeUninit<u8>]; reading from returned bytes before writing \
            to them is UB; caller must use assume_init() to register any bytes \
            actually written"@)
    } else {
        None
    }
}

fn assume_init_message_of(path: &str) -> (r: Option<String>)
    ensures
        opt_chars(r) == assume_init_message(path@),
{
    if str_contains(path, "MaybeUninit") && str_contains(path, "assume_init") {
        Some("`".to_owned().concat(path_last_segment(path)).concat("` — assume_init"))
    } else if str_contains(path, "ReadBuf") && str_ends_with(path, "::assume_init") {
        Some("`ReadBuf::assume_init` — marks the first n bytes of the unfilled \
            region as initialized without writing to them; caller must have \
            actually written n bytes before this call; unwritten bytes become \
            readable by the buffer consumer (UB)".to_owned())
    } else if str_contains(path, "ReadBuf") && str_ends_with(path, "::inner_mut") {
        Some("`ReadBuf::inner_mut` — returns the entire backing buffer as &mut \
            [MaybeUninit<u8>], bypassing ReadBuf's initialization tracking; \
            reading from uninitialized bytes is UB; writing fewer bytes than \
            previously tracked shrinks the initialized region invisibly, causing \
            future readers to observe stale uninitialized data".to_owned())
    } else if str_contains(path, "ReadBuf") && str_ends_with(path, "::unfilled_mut") {
        Some("`ReadBuf::unfilled_mut` — returns the unfilled portion of the buffer \
            as &mut [MaybeUninit<u8>]; reading from returned bytes before writing \
            to them is UB; caller must use assume_init() to register any bytes \
            actually written".to_owned())
    } else {
        None
    }
}

impl CallRule for AssumeInit {
    open spec fn spec_uses_state(&self) -> bool {
        false
    }

    open spec fn spec_flag(&self, body: &Body, callee: DefId, path: Seq<char>, args: Seq<Operand>, pre: Option<StateView>)
        -> Option<(Seq<char>, Severity, Seq<char>)>
    {
        match assume_init_message(path) {
            Some(m) => Some(("assume_init"@, Severity::Warning, m)),
            None => None,
        }
    }

    fn uses_state(&self) -> (r: bool) {
        false
    }

    fn flag(&self, body: &Body, callee: DefId, path: &str, args: &Vec<Operand>, pre: &Option<BlockState>) -> (r: Option<Flag>) {
        match assume_init_message_of(path) {
            Some(m) => Some(("assume_init", Severity::Warning, m)),
            None => None,
        }
    }
}

impl AssumeInit {
    /// Reports, in block order, each direct call in `body` that
    /// `assume_init_message` gives a message for.
    pub fn check(&self, body: &Body, flow: &FlowResults) -> (r: Vec<Finding>)
        requires
            body.basic_blocks@.len() <= 0x1_0000_0000,
        ensures
            findings_view(r@) == call_findings(self, body, flow.entry_states@, body.basic_blocks@.len() as int),
    {
        run_call_rule(self, body, flow)
    }
}

} // verus!
