//! Detects calls to `Arc::from_raw`, `Arc::increment_strong_count`,
//! `Arc::decrement_strong_count`, `Rc::from_raw`, related reference-counted
//! pointer reconstitution functions, `Arc::get_mut_unchecked` /
//! `Rc::get_mut_unchecked`, and `Thread::from_raw`.

use vstd::prelude::*;
use crate::analysis::dataflow::FlowResults;
use crate::analysis::state::{BlockState, StateView};
use crate::checkers::{CallRule, Finding, Flag, Severity, call_findings, findings_view, opt_chars, run_call_rule};
use crate::mir::{Body, DefId, Operand};
use crate::text::{contains, ends_with, str_contains, str_ends_with};

verus! {

/// Detects calls to `Arc::from_raw`, `Arc::increment_strong_count`,
/// `Arc::decrement_strong_count`, `Rc::from_raw`, related reference-counted
/// pointer reconstitution functions, `Arc::get_mut_unchecked` /
/// `Rc::get_mut_unchecked`, and `Thread::from_raw`.
pub struct ArcFromRaw;

/// The message `ArcFromRaw` gives a direct call of `path`, if it reports one.
pub open spec fn arc_from_raw_message(path: Seq<char>) -> Option<Seq<char>> {
    if ends_with(path, "Arc::<T>::from_raw"@) || ends_with(path, "Arc::from_raw"@) {
        Some("`Arc::from_raw` — pointer must come from Arc::into_raw; does NOT \
            increment the count; calling twice on the same pointer creates two \
            Arcs that will double-free on drop"@)
    } else if ends_with(path, "Rc::<T>::from_raw"@) || ends_with(path, "Rc::from_raw"@) {
        Some("`Rc::from_raw` — pointer must come from Rc::into_raw; does NOT \
            increment the count; calling twice on the same pointer causes \
            double-free on drop"@)
    } else if ends_with(path, "Arc::<T>::increment_strong_count"@) || ends_with(path, "Arc::increment_strong_count"@) {
        Some("`Arc::increment_strong_count` — pointer must be valid for the lifetime \
            of the call; every increment must be paired with exactly one decrement \
            or from_raw — mismatches cause premature free (underflow) or memory \
            leak (overflow)"@)
    } else if ends_with(path, "Arc::<T>::decrement_strong_count"@) || ends_with(path, "Arc::decrement_strong_count"@) {
        Some("`Arc::decrement_strong_count` — pointer must still be valid; decrement \
            to zero frees the allocation; must be paired with a corresponding \
            increment or into_raw"@)
    } else if ends_with(path, "Rc::<T>::increment_strong_count"@) || ends_with(path, "Rc::increment_strong_count"@) {
        Some("`Rc::increment_strong_count` — pointer must be valid; every increment \
            must be paired with exactly one decrement or from_raw — mismatches \
            cause premature free or memory leak; Rc is not thread-safe, this \
            operation must be on the creating thread"@)
    } else if ends_with(path, "Rc::<T>::decrement_strong_count"@) || ends_with(path, "Rc::decrement_strong_count"@) {
        Some("`Rc::decrement_strong_count` — pointer must still be valid; decrement \
            to zero frees the allocation; must be paired with a corresponding \
            increment or into_raw; Rc is not thread-safe, this operation must be \
            on the creating thread"@)
    } else if ends_with(path, "::get_mut_unchecked"@) && contains(path, "Arc"@) {
        Some("`Arc::get_mut_unchecked` — caller must ensure no other Arc or Weak \
            references to this allocation exist; if any do, the returned &mut T \
            aliases with shared references — UB; use Arc::get_mut for the safe \
            checked version"@)
    } else if ends_with(path, "::get_mut_unchecked"@) && contains(path, "Rc"@) {
        Some("`Rc::get_mut_unchecked` — caller must ensure no other Rc or Weak \
            references to this allocation exist; if any do, the returned &mut T \
            aliases with shared references — UB; use Rc::get_mut for the safe \
            checked version"@)
    } else if ends_with(path, "::from_raw"@) && contains(path, "sync::Weak"@) {
        Some("`Arc::Weak::from_raw` — pointer must have been obtained from \
            Arc::Weak::into_raw; the control block must still be live; calling \
            twice on the same pointer double-decrements the weak count and may \
            free the control block prematurely"@)
    } else if ends_with(path, "::from_raw"@) && contains(path, "rc::Weak"@) {
        Some("`Rc::Weak::from_raw` — pointer must have been obtained from \
            Rc::Weak::into_raw; the control block must still be live; calling \
            twice on the same pointer double-decrements the weak count; Rc is not \
            thread-safe"@)
    } else if ends_with(path, "::from_raw_in"@) && contains(path, "Box"@) {
        Some("`Box::from_raw_in` — pointer must have been returned by \
            Box::into_raw_with_allocator (or Box::into_raw with the same \
            allocator); the allocator must be the same one used for the original \
            allocation; calling twice on the same pointer causes double-free"@)
    } else if ends_with(path, "::from_raw_in"@) && contains(path, "Arc"@) {
        Some("`Arc::from_raw_in` — pointer must have been obtained from \
            Arc::into_raw_with_allocator; does NOT increment the strong count; \
            calling twice on the same pointer causes double-free when both Arcs \
            are dropped"@)
    } else if ends_with(path, "::from_raw_in"@) && contains(path, "Rc"@) {
        Some("`Rc::from_raw_in` — pointer must have been obtained from \
            Rc::into_raw_with_allocator; does NOT increment the strong count; \
            calling twice on the same pointer causes double-free when both Rcs are \
            dropped"@)
    } else if ends_with(path, "Thread::from_raw"@) {
        Some("`Thread::from_raw` — pointer must have been obtained from \
            Thread::into_raw; reconstructs ownership of the Thread handle; calling \
            twice on the same pointer causes double-free when both handles are \
            dropped (nightly: #![feature(thread_raw)])"@)
    } else {
        None
    }
}

fn arc_from_raw_message_of(path: &str) -> (r: Option<String>)
    ensures
        opt_chars(r) == arc_from_raw_message(path@),
{
    if str_ends_with(path, "Arc::<T>::from_raw") || str_ends_with(path, "Arc::from_raw") {
        Some("`Arc::from_raw` — pointer must come from Arc::into_raw; does NOT \
            increment the count; calling twice on the same pointer creates two \
            Arcs that will double-free on drop".to_owned())
    } else if str_ends_with(path, "Rc::<T>::from_raw") || str_ends_with(path, "Rc::from_raw") {
        Some("`Rc::from_raw` — pointer must come from Rc::into_raw; does NOT \
            increment the count; calling twice on the same pointer causes \
            double-free on drop".to_owned())
    } else if str_ends_with(path, "Arc::<T>::increment_strong_count") || str_ends_with(path, "Arc::increment_strong_count") {
        Some("`Arc::increment_strong_count` — pointer must be valid for the lifetime \
            of the call; every increment must be paired with exactly one decrement \
            or from_raw — mismatches cause premature free (underflow) or memory \
            leak (overflow)".to_owned())
    } else if str_ends_with(path, "Arc::<T>::decrement_strong_count") || str_ends_with(path, "Arc::decrement_strong_count") {
        Some("`Arc::decrement_strong_count` — pointer must still be valid; decrement \
            to zero frees the allocation; must be paired with a corresponding \
            increment or into_raw".to_owned())
    } else if str_ends_with(path, "Rc::<T>::increment_strong_count") || str_ends_with(path, "Rc::increment_strong_count") {
        Some("`Rc::increment_strong_count` — pointer must be valid; every increment \
            must be paired with exactly one decrement or from_raw — mismatches \
            cause premature free or memory leak; Rc is not thread-safe, this \
            operation must be on the creating thread".to_owned())
    } else if str_ends_with(path, "Rc::<T>::decrement_strong_count") || str_ends_with(path, "Rc::decrement_strong_count") {
        Some("`Rc::decrement_strong_count` — pointer must still be valid; decrement \
            to zero frees the allocation; must be paired with a corresponding \
            increment or into_raw; Rc is not thread-safe, this operation must be \
            on the creating thread".to_owned())
    } else if str_ends_with(path, "::get_mut_unchecked") && str_contains(path, "Arc") {
        Some("`Arc::get_mut_unchecked` — caller must ensure no other Arc or Weak \
            references to this allocation exist; if any do, the returned &mut T \
            aliases with shared references — UB; use Arc::get_mut for the safe \
            checked version".to_owned())
    } else if str_ends_with(path, "::get_mut_unchecked") && str_contains(path, "Rc") {
        Some("`Rc::get_mut_unchecked` — caller must ensure no other Rc or Weak \
            references to this allocation exist; if any do, the returned &mut T \
            aliases with shared references — UB; use Rc::get_mut for the safe \
            checked version".to_owned())
    } else if str_ends_with(path, "::from_raw") && str_contains(path, "sync::Weak") {
        Some("`Arc::Weak::from_raw` — pointer must have been obtained from \
            Arc::Weak::into_raw; the control block must still be live; calling \
            twice on the same pointer double-decrements the weak count and may \
            free the control block prematurely".to_owned())
    } else if str_ends_with(path, "::from_raw") && str_contains(path, "rc::Weak") {
        Some("`Rc::Weak::from_raw` — pointer must have been obtained from \
            Rc::Weak::into_raw; the control block must still be live; calling \
            twice on the same pointer double-decrements the weak count; Rc is not \
            thread-safe".to_owned())
    } else if str_ends_with(path, "::from_raw_in") && str_contains(path, "Box") {
        Some("`Box::from_raw_in` — pointer must have been returned by \
            Box::into_raw_with_allocator (or Box::into_raw with the same \
            allocator); the allocator must be the same one used for the original \
            allocation; calling twice on the same pointer causes double-free".to_owned())
    } else if str_ends_with(path, "::from_raw_in") && str_contains(path, "Arc") {
        Some("`Arc::from_raw_in` — pointer must have been obtained from \
            Arc::into_raw_with_allocator; does NOT increment the strong count; \
            calling twice on the same pointer causes double-free when both Arcs \
            are dropped".to_owned())
    } else if str_ends_with(path, "::from_raw_in") && str_contains(path, "Rc") {
        Some("`Rc::from_raw_in` — pointer must have been obtained from \
            Rc::into_raw_with_allocator; does NOT increment the strong count; \
            calling twice on the same pointer causes double-free when both Rcs are \
            dropped".to_owned())
    } else if str_ends_with(path, "Thread::from_raw") {
        Some("`Thread::from_raw` — pointer must have been obtained from \
            Thread::into_raw; reconstructs ownership of the Thread handle; calling \
            twice on the same pointer causes double-free when both handles are \
            dropped (nightly: #![feature(thread_raw)])".to_owned())
    } else {
        None
    }
}

impl CallRule for ArcFromRaw {
    open spec fn spec_uses_state(&self) -> bool {
        false
    }

    open spec fn spec_flag(&self, body: &Body, callee: DefId, path: Seq<char>, args: Seq<Operand>, pre: Option<StateView>)
        -> Option<(Seq<char>, Severity, Seq<char>)>
    {
        match arc_from_raw_message(path) {
            Some(m) => Some(("arc_from_raw"@, Severity::Warning, m)),
            None => None,
        }
    }

    fn uses_state(&self) -> (r: bool) {
        false
    }

    fn flag(&self, body: &Body, callee: DefId, path: &str, args: &Vec<Operand>, pre: &Option<BlockState>) -> (r: Option<Flag>) {
        match arc_from_raw_message_of(path) {
            Some(m) => Some(("arc_from_raw", Severity::Warning, m)),
            None => None,
        }
    }
}

impl ArcFromRaw {
    /// Reports, in block order, each direct call in `body` that
    /// `arc_from_raw_message` gives a message for.
    pub fn check(&self, body: &Body, flow: &FlowResults) -> (r: Vec<Finding>)
        requires
            body.basic_blocks@.len() <= 0x1_0000_0000,
        ensures
            findings_view(r@) == call_findings(self, body, flow.entry_states@, body.basic_blocks@.len() as int),
    {
        run_call_rule(self, body, flow)
    }
}

} // verus!
