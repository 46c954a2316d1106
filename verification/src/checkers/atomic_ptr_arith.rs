//! Detects calls to `AtomicPtr::fetch_ptr_add` and `AtomicPtr::fetch_ptr_sub`
//! (stable since Rust 1.91.0).

use vstd::prelude::*;
use crate::analysis::dataflow::FlowResults;
use crate::analysis::state::{BlockState, StateView};
use crate::checkers::{CallRule, Finding, Flag, Severity, call_findings, findings_view, opt_chars, run_call_rule};
use crate::mir::{Body, DefId, Operand};
use crate::text::{contains, ends_with, str_contains, str_ends_with};

verus! {

/// Detects calls to `AtomicPtr::fetch_ptr_add` and `AtomicPtr::fetch_ptr_sub`
/// (stable since Rust 1.91.0).
pub struct AtomicPtrArith;

/// The message `AtomicPtrArith` gives a direct call of `path`, if it reports one.
pub open spec fn atomic_ptr_arith_message(path: Seq<char>) -> Option<Seq<char>> {
    if ends_with(path, "fetch_ptr_add"@) && contains(path, "Atomic"@) {
        Some("`AtomicPtr::fetch_ptr_add` — atomically adds val*size_of::<T>() to the \
            pointer; the result must remain within the same allocation (or one \
            byte past its end) — dereferencing an out-of-bounds result is UB; unit \
            is T elements, not bytes"@)
    } else if ends_with(path, "fetch_ptr_sub"@) && contains(path, "Atomic"@) {
        Some("`AtomicPtr::fetch_ptr_sub` — atomically subtracts val*size_of::<T>() \
            from the pointer; result must not go before the start of the \
            allocation — dereferencing such a result is UB; unit is T elements, \
            not bytes"@)
    } else {
        None
    }
}

fn atomic_ptr_arith_message_of(path: &str) -> (r: Option<String>)
    ensures
        opt_chars(r) == atomic_ptr_arith_message(path@),
{
    if str_ends_with(path, "fetch_ptr_add") && str_contains(path, "Atomic") {
        Some("`AtomicPtr::fetch_ptr_add` — atomically adds val*size_of::<T>() to the \
            pointer; the result must remain within the same allocation (or one \
            byte past its end) — dereferencing an out-of-bounds result is UB; unit \
            is T elements, not bytes".to_owned())
    } else if str_ends_with(path, "fetch_ptr_sub") && str_contains(path, "Atomic") {
        Some("`AtomicPtr::fetch_ptr_sub` — atomically subtracts val*size_of::<T>() \
            from the pointer; result must not go before the start of the \
            allocation — dereferencing such a result is UB; unit is T elements, \
            not bytes".to_owned())
    } else {
        None
    }
}

impl CallRule for AtomicPtrArith {
    open spec fn spec_uses_state(&self) -> bool {
        false
    }

    open spec fn spec_flag(&self, body: &Body, callee: DefId, path: Seq<char>, args: Seq<Operand>, pre: Option<StateView>)
        -> Option<(Seq<char>, Severity, Seq<char>)>
    {
        match atomic_ptr_arith_message(path) {
            Some(m) => Some(("atomic_ptr_arith"@, Severity::Info, m)),
            None => None,
        }
    }

    fn uses_state(&self) -> (r: bool) {
        false
    }

    fn flag(&self, body: &Body, callee: DefId, path: &str, args: &Vec<Operand>, pre: &Option<BlockState>) -> (r: Option<Flag>) {
        match atomic_ptr_arith_message_of(path) {
            Some(m) => Some(("atomic_ptr_arith", Severity::Info, m)),
            None => None,
        }
    }
}

impl AtomicPtrArith {
    /// Reports, in block order, each direct call in `body` that
    /// `atomic_ptr_arith_message` gives a message for.
    pub fn check(&self, body: &Body, flow: &FlowResults) -> (r: Vec<Finding>)
        requires
            body.basic_blocks@.len() <= 0x1_0000_0000,
        ensures
            findings_view(r@) == call_findings(self, body, flow.entry_states@, body.basic_blocks@.len() as int),
    {
        run_call_rule(self, body, flow)
    }
}

} // verus!
