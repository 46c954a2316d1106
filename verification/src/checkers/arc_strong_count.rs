//! Detects calls to `Arc::increment_strong_count`,
//! `Arc::decrement_strong_count`, `Rc::increment_strong_count`,
//! `Rc::decrement_strong_count`, and their allocator-aware `_in` variants.

use vstd::prelude::*;
use crate::analysis::dataflow::FlowResults;
use crate::analysis::state::{BlockState, StateView};
use crate::checkers::{CallRule, Finding, Flag, Severity, call_findings, findings_view, opt_chars, run_call_rule};
use crate::mir::{Body, DefId, Operand};
use crate::text::{contains, ends_with, str_contains, str_ends_with};

verus! {

/// Detects calls to `Arc::increment_strong_count`,
/// `Arc::decrement_strong_count`, `Rc::increment_strong_count`,
/// `Rc::decrement_strong_count`, and their allocator-aware `_in` variants.
pub struct ArcStrongCount;

/// The message `ArcStrongCount` gives a direct call of `path`, if it reports one.
pub open spec fn arc_strong_count_message(path: Seq<char>) -> Option<Seq<char>> {
    if ends_with(path, "::increment_strong_count"@) && contains(path, "Arc"@) {
        Some("`Arc::increment_strong_count` — manually increments the strong count \
            of a raw `Arc` pointer; ptr must be valid and owned by a live `Arc`, \
            and every manual increment must be balanced by a matching decrement or \
            `Arc::from_raw`; an unbalanced increment causes a memory leak; an \
            increment after the last `Arc` was dropped is use-after-free"@)
    } else if ends_with(path, "::increment_strong_count"@) && contains(path, "Rc"@) {
        Some("`Rc::increment_strong_count` — manually increments the strong count of \
            a raw `Rc` pointer; ptr must be valid and owned by a live `Rc`, and \
            every manual increment must be balanced by a matching decrement or \
            `Rc::from_raw`; an unbalanced increment causes a memory leak; an \
            increment after the last `Rc` was dropped is use-after-free"@)
    } else if ends_with(path, "::decrement_strong_count"@) && contains(path, "Arc"@) {
        Some("`Arc::decrement_strong_count` — manually decrements the strong count \
            of a raw `Arc` pointer; if this brings the count to zero, the value is \
            **dropped and freed** while the raw pointer still exists — any \
            subsequent access is use-after-free; must be exactly balanced with \
            prior increments or clones"@)
    } else if ends_with(path, "::decrement_strong_count"@) && contains(path, "Rc"@) {
        Some("`Rc::decrement_strong_count` — manually decrements the strong count of \
            a raw `Rc` pointer; if this brings the count to zero, the value is \
            **dropped and freed** while the raw pointer still exists — any \
            subsequent access is use-after-free; must be exactly balanced with \
            prior increments or clones"@)
    } else if ends_with(path, "::increment_strong_count_in"@) && contains(path, "Arc"@) {
        Some("`Arc::increment_strong_count_in` — allocator-aware variant of \
            `Arc::increment_strong_count`; all the same rules apply, and \
            additionally the allocator `A` must exactly match the one used when \
            the `Arc` was created"@)
    } else if ends_with(path, "::increment_strong_count_in"@) && contains(path, "Rc"@) {
        Some("`Rc::increment_strong_count_in` — allocator-aware variant of \
            `Rc::increment_strong_count`; all the same rules apply, and \
            additionally the allocator `A` must exactly match the one used when \
            the `Rc` was created"@)
    } else if ends_with(path, "::decrement_strong_count_in"@) && contains(path, "Arc"@) {
        Some("`Arc::decrement_strong_count_in` — allocator-aware variant of \
            `Arc::decrement_strong_count`; if count reaches zero the value is \
            dropped and freed; allocator `A` must match the one used at creation"@)
    } else if ends_with(path, "::decrement_strong_count_in"@) && contains(path, "Rc"@) {
        Some("`Rc::decrement_strong_count_in` — allocator-aware variant of \
            `Rc::decrement_strong_count`; if count reaches zero the value is \
            dropped and freed; allocator `A` must match the one used at creation"@)
    } else {
        None
    }
}

fn arc_strong_count_message_of(path: &str) -> (r: Option<String>)
    ensures
        opt_chars(r) == arc_strong_count_message(path@),
{
    if str_ends_with(path, "::increment_strong_count") && str_contains(path, "Arc") {
        Some("`Arc::increment_strong_count` — manually increments the strong count \
            of a raw `Arc` pointer; ptr must be valid and owned by a live `Arc`, \
            and every manual increment must be balanced by a matching decrement or \
            `Arc::from_raw`; an unbalanced increment causes a memory leak; an \
            increment after the last `Arc` was dropped is use-after-free".to_owned())
    } else if str_ends_with(path, "::increment_strong_count") && str_contains(path, "Rc") {
        Some("`Rc::increment_strong_count` — manually increments the strong count of \
            a raw `Rc` pointer; ptr must be valid and owned by a live `Rc`, and \
            every manual increment must be balanced by a matching decrement or \
            `Rc::from_raw`; an unbalanced increment causes a memory leak; an \
            increment after the last `Rc` was dropped is use-after-free".to_owned())
    } else if str_ends_with(path, "::decrement_strong_count") && str_contains(path, "Arc") {
        Some("`Arc::decrement_strong_count` — manually decrements the strong count \
            of a raw `Arc` pointer; if this brings the count to zero, the value is \
            **dropped and freed** while the raw pointer still exists — any \
            subsequent access is use-after-free; must be exactly balanced with \
            prior increments or clones".to_owned())
    } else if str_ends_with(path, "::decrement_strong_count") && str_contains(path, "Rc") {
        Some("`Rc::decrement_strong_count` — manually decrements the strong count of \
            a raw `Rc` pointer; if this brings the count to zero, the value is \
            **dropped and freed** while the raw pointer still exists — any \
            subsequent access is use-after-free; must be exactly balanced with \
            prior increments or clones".to_owned())
    } else if str_ends_with(path, "::increment_strong_count_in") && str_contains(path, "Arc") {
        Some("`Arc::increment_strong_count_in` — allocator-aware variant of \
            `Arc::increment_strong_count`; all the same rules apply, and \
            additionally the allocator `A` must exactly match the one used when \
            the `Arc` was created".to_owned())
    } else if str_ends_with(path, "::increment_strong_count_in") && str_contains(path, "Rc") {
        Some("`Rc::increment_strong_count_in` — allocator-aware variant of \
            `Rc::increment_strong_count`; all the same rules apply, and \
            additionally the allocator `A` must exactly match the one used when \
            the `Rc` was created".to_owned())
    } else if str_ends_with(path, "::decrement_strong_count_in") && str_contains(path, "Arc") {
        Some("`Arc::decrement_strong_count_in` — allocator-aware variant of \
            `Arc::decrement_strong_count`; if count reaches zero the value is \
            dropped and freed; allocator `A` must match the one used at creation".to_owned())
    } else if str_ends_with(path, "::decrement_strong_count_in") && str_contains(path, "Rc") {
        Some("`Rc::decrement_strong_count_in` — allocator-aware variant of \
            `Rc::decrement_strong_count`; if count reaches zero the value is \
            dropped and freed; allocator `A` must match the one used at creation".to_owned())
    } else {
        None
    }
}

impl CallRule for ArcStrongCount {
    open spec fn spec_uses_state(&self) -> bool {
        false
    }

    open spec fn spec_flag(&self, body: &Body, callee: DefId, path: Seq<char>, args: Seq<Operand>, pre: Option<StateView>)
        -> Option<(Seq<char>, Severity, Seq<char>)>
    {
        match arc_strong_count_message(path) {
            Some(m) => Some(("arc_strong_count"@, Severity::Warning, m)),
            None => None,
        }
    }

    fn uses_state(&self) -> (r: bool) {
        false
    }

    fn flag(&self, body: &Body, callee: DefId, path: &str, args: &Vec<Operand>, pre: &Option<BlockState>) -> (r: Option<Flag>) {
        match arc_strong_count_message_of(path) {
            Some(m) => Some(("arc_strong_count", Severity::Warning, m)),
            None => None,
        }
    }
}

impl ArcStrongCount {
    /// Reports, in block order, each direct call in `body` that
    /// `arc_strong_count_message` gives a message for.
    pub fn check(&self, body: &Body, flow: &FlowResults) -> (r: Vec<Finding>)
        requires
            body.basic_blocks@.len() <= 0x1_0000_0000,
        ensures
            findings_view(r@) == call_findings(self, body, flow.entry_states@, body.basic_blocks@.len() as int),
    {
        run_call_rule(self, body, flow)
    }
}

} // verus!
