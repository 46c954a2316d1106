//! Detects calls to `HashMap::get_disjoint_unchecked_mut` (stable since Rust
//! 1.86).

use vstd::prelude::*;
use crate::analysis::dataflow::FlowResults;
use crate::analysis::state::{BlockState, StateView};
use crate::checkers::{CallRule, Finding, Flag, Severity, call_findings, findings_view, opt_chars, run_call_rule};
use crate::mir::{Body, DefId, Operand};
use crate::text::{contains, ends_with, str_contains, str_ends_with};

verus! {

/// Detects calls to `HashMap::get_disjoint_unchecked_mut` (stable since Rust
/// 1.86).
pub struct HashMapDisjointUnchecked;

/// The message `HashMapDisjointUnchecked` gives a direct call of `path`, if it reports one.
pub open spec fn hashmap_disjoint_unchecked_message(path: Seq<char>) -> Option<Seq<char>> {
    if ends_with(path, "get_disjoint_unchecked_mut"@) && contains(path, "HashMap"@) {
        Some("`HashMap::get_disjoint_unchecked_mut` — all keys in the array must be \
            pairwise distinct; duplicate keys produce aliased `&mut V` references \
            (immediate UB even if neither is written); use `get_disjoint_mut` for \
            the checked version"@)
    } else {
        None
    }
}

fn hashmap_disjoint_unchecked_message_of(path: &str) -> (r: Option<String>)
    ensures
        opt_chars(r) == hashmap_disjoint_unchecked_message(path@),
{
    if str_ends_with(path, "get_disjoint_unchecked_mut") && str_contains(path, "HashMap") {
        Some("`HashMap::get_disjoint_unchecked_mut` — all keys in the array must be \
            pairwise distinct; duplicate keys produce aliased `&mut V` references \
            (immediate UB even if neither is written); use `get_disjoint_mut` for \
            the checked version".to_owned())
    } else {
        None
    }
}

impl CallRule for HashMapDisjointUnchecked {
    open spec fn spec_uses_state(&self) -> bool {
        false
    }

    open spec fn spec_flag(&self, body: &Body, callee: DefId, path: Seq<char>, args: Seq<Operand>, pre: Option<StateView>)
        -> Option<(Seq<char>, Severity, Seq<char>)>
    {
        match hashmap_disjoint_unchecked_message(path) {
            Some(m) => Some(("hashmap_disjoint_unchecked"@, Severity::Warning, m)),
            None => None,
        }
    }

    fn uses_state(&self) -> (r: bool) {
        false
    }

    fn flag(&self, body: &Body, callee: DefId, path: &str, args: &Vec<Operand>, pre: &Option<BlockState>) -> (r: Option<Flag>) {
        match hashmap_disjoint_unchecked_message_of(path) {
            Some(m) => Some(("hashmap_disjoint_unchecked", Severity::Warning, m)),
            None => None,
        }
    }
}

impl HashMapDisjointUnchecked {
    /// Reports, in block order, each direct call in `body` that
    /// `hashmap_disjoint_unchecked_message` gives a message for.
    pub fn check(&self, body: &Body, flow: &FlowResults) -> (r: Vec<Finding>)
        requires
            body.basic_blocks@.len() <= 0x1_0000_0000,
        ensures
            findings_view(r@) == call_findings(self, body, flow.entry_states@, body.basic_blocks@.len() as int),
    {
        run_call_rule(self, body, flow)
    }
}

} // verus!
