//! Detects calls to `Box::from_raw`, `Box::from_raw_in`, `Box::from_non_null`,
//! and `Box::from_non_null_in`.

use vstd::prelude::*;
use crate::analysis::dataflow::FlowResults;
use crate::analysis::state::{BlockState, StateView};
use crate::checkers::{CallRule, Finding, Flag, Severity, call_findings, findings_view, opt_chars, run_call_rule};
use crate::mir::{Body, DefId, Operand};
use crate::text::{contains, ends_with, str_contains, str_ends_with};

verus! {

/// Detects calls to `Box::from_raw`, `Box::from_raw_in`, `Box::from_non_null`,
/// and `Box::from_non_null_in`.
pub struct BoxFromRaw;

/// The message `BoxFromRaw` gives a direct call of `path`, if it reports one.
pub open spec fn box_from_raw_message(path: Seq<char>) -> Option<Seq<char>> {
    if ends_with(path, "Box::<T>::from_raw"@) || ends_with(path, "Box::from_raw"@) || (ends_with(path, "::from_raw"@) && contains(path, "Box"@)) {
        Some("`Box::from_raw` — pointer must come from `Box::into_raw` for the same \
            T, must not be used again, and must be called exactly once \
            (double-free if called twice)"@)
    } else if ends_with(path, "Box::<T, A>::from_raw_in"@) || ends_with(path, "Box::from_raw_in"@) {
        Some("`Box::from_raw_in` — pointer must come from `Box::into_raw` for the \
            same T and the allocator `A` must match the one that produced the \
            pointer, must not be used again, and must be called exactly once \
            (double-free if called twice)"@)
    } else if ends_with(path, "::from_non_null"@) && contains(path, "Box"@) {
        Some("`Box::from_non_null` — pointer must come from `Box::into_raw` for the \
            same T; NonNull must have been produced by `Box::into_non_null` for \
            the same T, must not be used again, and must be called exactly once \
            (double-free if called twice)"@)
    } else if ends_with(path, "::from_non_null_in"@) && contains(path, "Box"@) {
        Some("`Box::from_non_null_in` — pointer must come from `Box::into_raw` for \
            the same T; NonNull must have been produced by \
            `Box::into_non_null_with_allocator` for the same T, and the allocator \
            `A` must match (nightly feature `box_vec_non_null`), must not be used \
            again, and must be called exactly once (double-free if called twice)"@)
    } else {
        None
    }
}

fn box_from_raw_message_of(path: &str) -> (r: Option<String>)
    ensures
        opt_chars(r) == box_from_raw_message(path@),
{
    if str_ends_with(path, "Box::<T>::from_raw") || str_ends_with(path, "Box::from_raw") || (str_ends_with(path, "::from_raw") && str_contains(path, "Box")) {
        Some("`Box::from_raw` — pointer must come from `Box::into_raw` for the same \
            T, must not be used again, and must be called exactly once \
            (double-free if called twice)".to_owned())
    } else if str_ends_with(path, "Box::<T, A>::from_raw_in") || str_ends_with(path, "Box::from_raw_in") {
        Some("`Box::from_raw_in` — pointer must come from `Box::into_raw` for the \
            same T and the allocator `A` must match the one that produced the \
            pointer, must not be used again, and must be called exactly once \
            (double-free if called twice)".to_owned())
    } else if str_ends_with(path, "::from_non_null") && str_contains(path, "Box") {
        Some("`Box::from_non_null` — pointer must come from `Box::into_raw` for the \
            same T; NonNull must have been produced by `Box::into_non_null` for \
            the same T, must not be used again, and must be called exactly once \
            (double-free if called twice)".to_owned())
    } else if str_ends_with(path, "::from_non_null_in") && str_contains(path, "Box") {
        Some("`Box::from_non_null_in` — pointer must come from `Box::into_raw` for \
            the same T; NonNull must have been produced by \
            `Box::into_non_null_with_allocator` for the same T, and the allocator \
            `A` must match (nightly feature `box_vec_non_null`), must not be used \
            again, and must be called exactly once (double-free if called twice)".to_owned())
    } else {
        None
    }
}

impl CallRule for BoxFromRaw {
    open spec fn spec_uses_state(&self) -> bool {
        false
    }

    open spec fn spec_flag(&self, body: &Body, callee: DefId, path: Seq<char>, args: Seq<Operand>, pre: Option<StateView>)
        -> Option<(Seq<char>, Severity, Seq<char>)>
    {
        match box_from_raw_message(path) {
            Some(m) => Some(("box_from_raw"@, Severity::Warning, m)),
            None => None,
        }
    }

    fn uses_state(&self) -> (r: bool) {
        false
    }

    fn flag(&self, body: &Body, callee: DefId, path: &str, args: &Vec<Operand>, pre: &Option<BlockState>) -> (r: Option<Flag>) {
        match box_from_raw_message_of(path) {
            Some(m) => Some(("box_from_raw", Severity::Warning, m)),
            None => None,
        }
    }
}

impl BoxFromRaw {
    /// Reports, in block order, each direct call in `body` that
    /// `box_from_raw_message` gives a message for.
    pub fn check(&self, body: &Body, flow: &FlowResults) -> (r: Vec<Finding>)
        requires
            body.basic_blocks@.len() <= 0x1_0000_0000,
        ensures
            findings_view(r@) == call_findings(self, body, flow.entry_states@, body.basic_blocks@.len() as int),
    {
        run_call_rule(self, body, flow)
    }
}

} // verus!
