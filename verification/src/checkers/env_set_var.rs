//! Detects calls to `std::env::set_var` and `std::env::remove_var` (now `unsafe
//! fn` in Rust nightly as of 2024).

use vstd::prelude::*;
use crate::analysis::dataflow::FlowResults;
use crate::analysis::state::{BlockState, StateView};
use crate::checkers::{CallRule, Finding, Flag, Severity, call_findings, findings_view, opt_chars, run_call_rule};
use crate::mir::{Body, DefId, Operand};
use crate::text::{ends_with, str_ends_with};

verus! {

/// Detects calls to `std::env::set_var` and `std::env::remove_var` (now `unsafe
/// fn` in Rust nightly as of 2024).
pub struct EnvSetVar;

/// The message `EnvSetVar` gives a direct call of `path`, if it reports one.
pub open spec fn env_set_var_message(path: Seq<char>) -> Option<Seq<char>> {
    if ends_with(path, "env::set_var"@) {
        Some("`env::set_var` — not thread-safe on POSIX: concurrent reads of the \
            environment (from any thread, signal handler, or C code) are a data \
            race; only safe before the first `thread::spawn` call; prefer \
            `Command::env` to set vars for child processes"@)
    } else if ends_with(path, "env::remove_var"@) {
        Some("`env::remove_var` — not thread-safe on POSIX: concurrent reads of the \
            environment (from any thread, signal handler, or C code) are a data \
            race; only safe before the first `thread::spawn` call; prefer \
            `Command::env_remove` to remove vars for child processes"@)
    } else {
        None
    }
}

fn env_set_var_message_of(path: &str) -> (r: Option<String>)
    ensures
        opt_chars(r) == env_set_var_message(path@),
{
    if str_ends_with(path, "env::set_var") {
        Some("`env::set_var` — not thread-safe on POSIX: concurrent reads of the \
            environment (from any thread, signal handler, or C code) are a data \
            race; only safe before the first `thread::spawn` call; prefer \
            `Command::env` to set vars for child processes".to_owned())
    } else if str_ends_with(path, "env::remove_var") {
        Some("`env::remove_var` — not thread-safe on POSIX: concurrent reads of the \
            environment (from any thread, signal handler, or C code) are a data \
            race; only safe before the first `thread::spawn` call; prefer \
            `Command::env_remove` to remove vars for child processes".to_owned())
    } else {
        None
    }
}

impl CallRule for EnvSetVar {
    open spec fn spec_uses_state(&self) -> bool {
        false
    }

    open spec fn spec_flag(&self, body: &Body, callee: DefId, path: Seq<char>, args: Seq<Operand>, pre: Option<StateView>)
        -> Option<(Seq<char>, Severity, Seq<char>)>
    {
        match env_set_var_message(path) {
            Some(m) => Some(("env_set_var"@, Severity::Warning, m)),
            None => None,
        }
    }

    fn uses_state(&self) -> (r: bool) {
        false
    }

    fn flag(&self, body: &Body, callee: DefId, path: &str, args: &Vec<Operand>, pre: &Option<BlockState>) -> (r: Option<Flag>) {
        match env_set_var_message_of(path) {
            Some(m) => Some(("env_set_var", Severity::Warning, m)),
            None => None,
        }
    }
}

impl EnvSetVar {
    /// Reports, in block order, each direct call in `body` that
    /// `env_set_var_message` gives a message for.
    pub fn check(&self, body: &Body, flow: &FlowResults) -> (r: Vec<Finding>)
        requires
            body.basic_blocks@.len() <= 0x1_0000_0000,
        ensures
            findings_view(r@) == call_findings(self, body, flow.entry_states@, body.basic_blocks@.len() as int),
    {
        run_call_rule(self, body, flow)
    }
}

} // verus!
