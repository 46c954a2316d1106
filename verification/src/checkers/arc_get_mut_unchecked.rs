//! Detects calls to `Arc::get_mut_unchecked` and `Rc::get_mut_unchecked`
//! (nightly, feature `get_mut_unchecked`, tracking issue #63292).

use vstd::prelude::*;
use crate::analysis::dataflow::FlowResults;
use crate::analysis::state::{BlockState, StateView};
use crate::checkers::{CallRule, Finding, Flag, Severity, call_findings, findings_view, opt_chars, run_call_rule};
use crate::mir::{Body, DefId, Operand};
use crate::text::{contains, ends_with, str_contains, str_ends_with};

verus! {

/// Detects calls to `Arc::get_mut_unchecked` and `Rc::get_mut_unchecked`
/// (nightly, feature `get_mut_unchecked`, tracking issue #63292).
pub struct ArcGetMutUnchecked;

/// The message `ArcGetMutUnchecked` gives a direct call of `path`, if it reports one.
pub open spec fn arc_get_mut_unchecked_message(path: Seq<char>) -> Option<Seq<char>> {
    if !(ends_with(path, "::get_mut_unchecked"@)) {
        None
    } else if contains(path, "Arc"@) {
        Some("`Arc::get_mut_unchecked` — strong count must be exactly 1 and no Weak \
            must be upgrading; also ensure no other Arc/Weak is dropped \
            concurrently — the refcount write races with the returned &mut T \
            (Issue #136322)"@)
    } else if contains(path, "Rc"@) {
        Some("`Rc::get_mut_unchecked` — strong count must be exactly 1 and no Weak \
            must be upgrading; also ensure no Rc clone is dropped for the borrow \
            duration — a concurrent refcount decrement to zero while the &mut T is \
            live is unsound (Issue #136322)"@)
    } else {
        None
    }
}

fn arc_get_mut_unchecked_message_of(path: &str) -> (r: Option<String>)
    ensures
        opt_chars(r) == arc_get_mut_unchecked_message(path@),
{
    if !(str_ends_with(path, "::get_mut_unchecked")) {
        None
    } else if str_contains(path, "Arc") {
        Some("`Arc::get_mut_unchecked` — strong count must be exactly 1 and no Weak \
            must be upgrading; also ensure no other Arc/Weak is dropped \
            concurrently — the refcount write races with the returned &mut T \
            (Issue #136322)".to_owned())
    } else if str_contains(path, "Rc") {
        Some("`Rc::get_mut_unchecked` — strong count must be exactly 1 and no Weak \
            must be upgrading; also ensure no Rc clone is dropped for the borrow \
            duration — a concurrent refcount decrement to zero while the &mut T is \
            live is unsound (Issue #136322)".to_owned())
    } else {
        None
    }
}

impl CallRule for ArcGetMutUnchecked {
    open spec fn spec_uses_state(&self) -> bool {
        false
    }

    open spec fn spec_flag(&self, body: &Body, callee: DefId, path: Seq<char>, args: Seq<Operand>, pre: Option<StateView>)
        -> Option<(Seq<char>, Severity, Seq<char>)>
    {
        match arc_get_mut_unchecked_message(path) {
            Some(m) => Some(("arc_get_mut_unchecked"@, Severity::Warning, m)),
            None => None,
        }
    }

    fn uses_state(&self) -> (r: bool) {
        false
    }

    fn flag(&self, body: &Body, callee: DefId, path: &str, args: &Vec<Operand>, pre: &Option<BlockState>) -> (r: Option<Flag>) {
        match arc_get_mut_unchecked_message_of(path) {
            Some(m) => Some(("arc_get_mut_unchecked", Severity::Warning, m)),
            None => None,
        }
    }
}

impl ArcGetMutUnchecked {
    /// Reports, in block order, each direct call in `body` that
    /// `arc_get_mut_unchecked_message` gives a message for.
    pub fn check(&self, body: &Body, flow: &FlowResults) -> (r: Vec<Finding>)
        requires
            body.basic_blocks@.len() <= 0x1_0000_0000,
        ensures
            findings_view(r@) == call_findings(self, body, flow.entry_states@, body.basic_blocks@.len() as int),
    {
        run_call_rule(self, body, flow)
    }
}

} // verus!
