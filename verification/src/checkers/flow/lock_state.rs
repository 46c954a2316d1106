//! `lock_api` mutexes may be force-unlocked only while a guard obtained by
//! `lock()` has been leaked with `mem::forget`; calling `force_unlock` on an
//! unlocked mutex corrupts its state.

use vstd::prelude::*;
use crate::analysis::dataflow::FlowResults;
use crate::analysis::paths::{is_force_unlock, spec_is_force_unlock};
use crate::analysis::state::{BlockState, StateView, spec_has_forgotten_protocol};
use crate::checkers::{CallRule, Finding, Flag, Severity, call_findings, findings_view, run_call_rule};
use crate::mir::{Body, DefId, Operand};
use crate::text::{ends_with, str_ends_with};
use vstd::string::StringExecFns;

verus! {

/// Reports `force_unlock` calls reached on a path where no lock guard was
/// acquired and then forgotten. Each `lock()` / `try_lock()` / `write()` /
/// `read()` call starts a protocol instance; `mem::forget(guard)` marks it
/// forgotten. The checker cannot tie a guard to its mutex, so with several
/// mutexes in scope a forgotten guard of another one suppresses the report.
pub struct LockState;

pub open spec fn spec_force_unlock_name(path: Seq<char>) -> Seq<char> {
    if ends_with(path, "::force_unlock_write"@) || ends_with(path, "::force_unlock_write_fair"@) {
        "force_unlock_write"@
    } else if ends_with(path, "::force_unlock_read"@) || ends_with(path, "::force_unlock_read_fair"@) {
        "force_unlock_read"@
    } else if ends_with(path, "::force_unlock_fair"@) {
        "force_unlock_fair"@
    } else {
        "force_unlock"@
    }
}

/// The name of the `force_unlock` variant `path` calls.
pub fn force_unlock_name(path: &str) -> (r: &'static str)
    ensures
        r@ == spec_force_unlock_name(path@),
{
    if str_ends_with(path, "::force_unlock_write") || str_ends_with(path, "::force_unlock_write_fair") {
        "force_unlock_write"
    } else if str_ends_with(path, "::force_unlock_read") || str_ends_with(path, "::force_unlock_read_fair") {
        "force_unlock_read"
    } else if str_ends_with(path, "::force_unlock_fair") {
        "force_unlock_fair"
    } else {
        "force_unlock"
    }
}

impl CallRule for LockState {
    open spec fn spec_uses_state(&self) -> bool {
        true
    }

    /// A reached `force_unlock` with no forgotten guard in the state.
    open spec fn spec_flag(&self, body: &Body, callee: DefId, path: Seq<char>, args: Seq<Operand>, pre: Option<StateView>)
        -> Option<(Seq<char>, Severity, Seq<char>)>
    {
        if spec_is_force_unlock(path) && pre is Some && !spec_has_forgotten_protocol(pre->0) {
            Some(("lock_force_unlock_unpaired"@, Severity::Warning, "`"@ + spec_force_unlock_name(path) + "` called without a preceding `lock()` + `mem::forget(guard)` on this \
                path — calling force_unlock on an unlocked mutex corrupts its internal \
                state"@))
        } else {
            None
        }
    }

    fn uses_state(&self) -> (r: bool) {
        true
    }

    fn flag(&self, body: &Body, callee: DefId, path: &str, args: &Vec<Operand>, pre: &Option<BlockState>) -> (r: Option<Flag>) {
        match pre {
            Some(state) => {
                if is_force_unlock(path) && !state.has_forgotten_protocol() {
                    Some(("lock_force_unlock_unpaired", Severity::Warning,
                        "`".to_owned().concat(force_unlock_name(path)).concat("` called without a preceding `lock()` + `mem::forget(guard)` on this \
                        path — calling force_unlock on an unlocked mutex corrupts its internal \
                        state")))
                } else {
                    None
                }
            },
            None => None,
        }
    }
}

impl LockState {
    /// Reports, in block order, each reached direct call of a
    /// `force_unlock` variant in `body` with no forgotten guard on the
    /// paths reaching it.
    pub fn check(&self, body: &Body, flow: &FlowResults) -> (r: Vec<Finding>)
        requires
            body.basic_blocks@.len() <= 0x1_0000_0000,
        ensures
            findings_view(r@) == call_findings(self, body, flow.entry_states@, body.basic_blocks@.len() as int),
    {
        run_call_rule(self, body, flow)
    }
}

} // verus!
