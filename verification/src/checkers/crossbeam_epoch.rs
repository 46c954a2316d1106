//! Detects unsafe operations of the `crossbeam-epoch` crate: dereferencing
//! `Shared` pointers, converting between `Shared`, `Owned` and `Atomic`,
//! deferred destruction and `unprotected()`.

use vstd::prelude::*;
use crate::analysis::dataflow::FlowResults;
use crate::analysis::paths::{is_shared_deref, spec_is_shared_deref};
use crate::analysis::state::{BlockState, StateView, spec_has_hazard_protocol};
use crate::analysis::typestate::ProtocolId;
use crate::checkers::{CallRule, Finding, Flag, Severity, call_findings, findings_view, opt_chars, run_call_rule};
use crate::mir::{Body, DefId, Operand};
use crate::text::{contains, ends_with, same, str_contains, str_ends_with, str_eq};

verus! {

/// Detects unsafe operations of the `crossbeam-epoch` crate: dereferencing
/// `Shared` pointers, converting between `Shared`, `Owned` and `Atomic`,
/// deferred destruction and `unprotected()`.
pub struct CrossbeamEpoch;

/// The message `CrossbeamEpoch` gives a direct call of `path`, if it reports one.
pub open spec fn crossbeam_epoch_message(path: Seq<char>) -> Option<Seq<char>> {
    if !(contains(path, "crossbeam_epoch"@)) {
        None
    } else if contains(path, "Shared"@) && ends_with(path, "::deref_mut"@) {
        Some("`Shared::deref_mut` — pointer must be non-null, point to a live object \
            within the current epoch, and have no concurrent readers or writers; \
            aliased &mut T is immediate UB; the returned reference must not \
            outlive the Guard"@)
    } else if contains(path, "Shared"@) && ends_with(path, "::deref"@) {
        Some("`Shared::deref` — pointer must be non-null and point to a live object \
            within the current epoch; after the Guard is dropped, the reference \
            becomes dangling — use-after-free; use `as_ref()` if the pointer might \
            be null"@)
    } else if contains(path, "Shared"@) && ends_with(path, "::as_ref"@) {
        Some("`Shared::as_ref` — returns None for null (safer than deref for null \
            handling), but still requires the Guard to be active and the object to \
            be live; the returned reference must not outlive the Guard's epoch"@)
    } else if contains(path, "Atomic"@) && ends_with(path, "::into_owned"@) {
        Some("`Atomic::into_owned` — the Atomic must hold a valid non-null owned \
            pointer; caller takes exclusive ownership — no other thread may read \
            or write this Atomic concurrently; null Atomic causes UB; the Owned \
            must eventually be reclaimed (defer_destroy) or the allocation leaks"@)
    } else if contains(path, "Owned"@) && ends_with(path, "::into_shared"@) {
        Some("`Owned::into_shared` — the Owned is consumed (caller no longer owns \
            it); the returned Shared must not outlive the Guard's epoch; caller is \
            responsible for ensuring the object is later reclaimed via \
            defer_destroy to avoid memory leaks"@)
    } else if contains(path, "Shared"@) && ends_with(path, "::into_owned"@) {
        Some("`Shared::into_owned` — converts a Shared pointer to an Owned, taking \
            exclusive ownership; the pointer must be non-null and point to a live \
            object; no other thread may hold a Shared or dereference the same \
            pointer concurrently after this call — doing so is use-after-free"@)
    } else if contains(path, "Owned"@) && ends_with(path, "::from_raw"@) {
        Some("`Owned::from_raw` — constructs an Owned<T> from a raw pointer; the \
            pointer must be non-null, properly aligned, and exclusively owned by \
            the caller (not shared with any other Owned, Shared, or Atomic); Owned \
            will drop the allocation when it goes out of scope — double-free if \
            another owner exists"@)
    } else if ends_with(path, "::defer_unchecked"@) && contains(path, "crossbeam"@) {
        Some("`Guard::defer_unchecked` — defers a closure to run at a future epoch \
            without enforcing Send bounds; if the closure captures non-Send data \
            (e.g., Rc, raw pointers, RefCell) and the epoch collection runs on a \
            different thread, the closure executes on the wrong thread — data race \
            or use-after-free (UB); use defer() which requires F: Send"@)
    } else if ends_with(path, "::defer_destroy"@) && contains(path, "crossbeam"@) {
        Some("`Guard::defer_destroy` — schedules the object at `ptr` for drop once \
            the current epoch ends; the Shared must point to a live, \
            exclusively-owned object — if any thread still holds a reference or \
            another defer_destroy fires for the same pointer, the drop runs twice \
            (double-free, UB); verify no other Shared or Owned references exist \
            for this pointer"@)
    } else if same(path, "crossbeam_epoch::unprotected"@) || (ends_with(path, "::unprotected"@) && contains(path, "crossbeam"@)) {
        Some("`crossbeam_epoch::unprotected` — returns a static Guard without \
            pinning the current thread to an epoch; any Shared pointers derived \
            from this guard may be reclaimed at any time — dereference is \
            immediately unsound; only valid in single-threaded programs or when \
            the caller can guarantee no concurrent reclamation (e.g., during \
            program teardown)"@)
    } else {
        None
    }
}

fn crossbeam_epoch_message_of(path: &str) -> (r: Option<String>)
    ensures
        opt_chars(r) == crossbeam_epoch_message(path@),
{
    if !(str_contains(path, "crossbeam_epoch")) {
        None
    } else if str_contains(path, "Shared") && str_ends_with(path, "::deref_mut") {
        Some("`Shared::deref_mut` — pointer must be non-null, point to a live object \
            within the current epoch, and have no concurrent readers or writers; \
            aliased &mut T is immediate UB; the returned reference must not \
            outlive the Guard".to_owned())
    } else if str_contains(path, "Shared") && str_ends_with(path, "::deref") {
        Some("`Shared::deref` — pointer must be non-null and point to a live object \
            within the current epoch; after the Guard is dropped, the reference \
            becomes dangling — use-after-free; use `as_ref()` if the pointer might \
            be null".to_owned())
    } else if str_contains(path, "Shared") && str_ends_with(path, "::as_ref") {
        Some("`Shared::as_ref` — returns None for null (safer than deref for null \
            handling), but still requires the Guard to be active and the object to \
            be live; the returned reference must not outlive the Guard's epoch".to_owned())
    } else if str_contains(path, "Atomic") && str_ends_with(path, "::into_owned") {
        Some("`Atomic::into_owned` — the Atomic must hold a valid non-null owned \
            pointer; caller takes exclusive ownership — no other thread may read \
            or write this Atomic concurrently; null Atomic causes UB; the Owned \
            must eventually be reclaimed (defer_destroy) or the allocation leaks".to_owned())
    } else if str_contains(path, "Owned") && str_ends_with(path, "::into_shared") {
        Some("`Owned::into_shared` — the Owned is consumed (caller no longer owns \
            it); the returned Shared must not outlive the Guard's epoch; caller is \
            responsible for ensuring the object is later reclaimed via \
            defer_destroy to avoid memory leaks".to_owned())
    } else if str_contains(path, "Shared") && str_ends_with(path, "::into_owned") {
        Some("`Shared::into_owned` — converts a Shared pointer to an Owned, taking \
            exclusive ownership; the pointer must be non-null and point to a live \
            object; no other thread may hold a Shared or dereference the same \
            pointer concurrently after this call — doing so is use-after-free".to_owned())
    } else if str_contains(path, "Owned") && str_ends_with(path, "::from_raw") {
        Some("`Owned::from_raw` — constructs an Owned<T> from a raw pointer; the \
            pointer must be non-null, properly aligned, and exclusively owned by \
            the caller (not shared with any other Owned, Shared, or Atomic); Owned \
            will drop the allocation when it goes out of scope — double-free if \
            another owner exists".to_owned())
    } else if str_ends_with(path, "::defer_unchecked") && str_contains(path, "crossbeam") {
        Some("`Guard::defer_unchecked` — defers a closure to run at a future epoch \
            without enforcing Send bounds; if the closure captures non-Send data \
            (e.g., Rc, raw pointers, RefCell) and the epoch collection runs on a \
            different thread, the closure executes on the wrong thread — data race \
            or use-after-free (UB); use defer() which requires F: Send".to_owned())
    } else if str_ends_with(path, "::defer_destroy") && str_contains(path, "crossbeam") {
        Some("`Guard::defer_destroy` — schedules the object at `ptr` for drop once \
            the current epoch ends; the Shared must point to a live, \
            exclusively-owned object — if any thread still holds a reference or \
            another defer_destroy fires for the same pointer, the drop runs twice \
            (double-free, UB); verify no other Shared or Owned references exist \
            for this pointer".to_owned())
    } else if str_eq(path, "crossbeam_epoch::unprotected") || (str_ends_with(path, "::unprotected") && str_contains(path, "crossbeam")) {
        Some("`crossbeam_epoch::unprotected` — returns a static Guard without \
            pinning the current thread to an epoch; any Shared pointers derived \
            from this guard may be reclaimed at any time — dereference is \
            immediately unsound; only valid in single-threaded programs or when \
            the caller can guarantee no concurrent reclamation (e.g., during \
            program teardown)".to_owned())
    } else {
        None
    }
}

impl CallRule for CrossbeamEpoch {
    open spec fn spec_uses_state(&self) -> bool {
        true
    }

    /// A `Shared` dereference or a `defer_destroy` is not reported where the
    /// state shows guards in scope and none of them may have expired.
    open spec fn spec_flag(&self, body: &Body, callee: DefId, path: Seq<char>, args: Seq<Operand>, pre: Option<StateView>)
        -> Option<(Seq<char>, Severity, Seq<char>)>
    {
        match crossbeam_epoch_message(path) {
            Some(m) => if (spec_is_shared_deref(path) || ends_with(path, "::defer_destroy"@)) && pre is Some
                && !spec_has_hazard_protocol(pre->0) && pre->0.typestate.dom() != Set::<ProtocolId>::empty() {
                None
            } else {
                Some(("crossbeam_epoch"@, Severity::Warning, m))
            },
            None => None,
        }
    }

    fn uses_state(&self) -> (r: bool) {
        true
    }

    fn flag(&self, body: &Body, callee: DefId, path: &str, args: &Vec<Operand>, pre: &Option<BlockState>) -> (r: Option<Flag>) {
        let m = match crossbeam_epoch_message_of(path) {
            Some(m) => m,
            None => { return None; },
        };
        if is_shared_deref(path) || str_ends_with(path, "::defer_destroy") {
            match pre {
                Some(state) => {
                    if !state.has_hazard_protocol() && !state.typestate.is_empty() {
                        return None;
                    }
                },
                None => {},
            }
        }
        Some(("crossbeam_epoch", Severity::Warning, m))
    }
}

impl CrossbeamEpoch {
    /// Reports, in block order, each direct call in `body` that
    /// `crossbeam_epoch_message` gives a message for, except guarded
    /// dereferences the state shows to be safe.
    pub fn check(&self, body: &Body, flow: &FlowResults) -> (r: Vec<Finding>)
        requires
            body.basic_blocks@.len() <= 0x1_0000_0000,
        ensures
            findings_view(r@) == call_findings(self, body, flow.entry_states@, body.basic_blocks@.len() as int),
    {
        run_call_rule(self, body, flow)
    }
}

} // verus!
