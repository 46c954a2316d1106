//! Detects calls to `Box::downcast_unchecked`, `Rc::downcast_unchecked`,
//! `Arc::downcast_unchecked`, and the reference variants
//! `downcast_unchecked_ref` / `downcast_unchecked_mut` on `dyn Any` (nightly
//! `#![feature(downcast_unchecked)]`).

use vstd::prelude::*;
use crate::analysis::dataflow::FlowResults;
use crate::analysis::state::{BlockState, StateView};
use crate::checkers::{CallRule, Finding, Flag, Severity, call_findings, findings_view, opt_chars, run_call_rule};
use crate::mir::{Body, DefId, Operand};
use crate::text::{contains, ends_with, str_contains, str_ends_with};

verus! {

/// Detects calls to `Box::downcast_unchecked`, `Rc::downcast_unchecked`,
/// `Arc::downcast_unchecked`, and the reference variants
/// `downcast_unchecked_ref` / `downcast_unchecked_mut` on `dyn Any` (nightly
/// `#![feature(downcast_unchecked)]`).
pub struct DowncastUnchecked;

/// The message `DowncastUnchecked` gives a direct call of `path`, if it reports one.
pub open spec fn downcast_unchecked_message(path: Seq<char>) -> Option<Seq<char>> {
    if !(ends_with(path, "downcast_unchecked"@) || ends_with(path, "downcast_unchecked_ref"@) || ends_with(path, "downcast_unchecked_mut"@)) {
        None
    } else if ends_with(path, "downcast_unchecked_ref"@) && contains(path, "Rc"@) {
        Some("`downcast_unchecked_ref` on `Rc<dyn Any>` (or `dyn Any`) — caller must \
            guarantee the actual runtime type is exactly T; a type mismatch \
            produces a reference to the wrong type (type-confusion UB); use the \
            checked downcast or `Any::is::<T>()` guard first"@)
    } else if ends_with(path, "downcast_unchecked_ref"@) && contains(path, "Arc"@) {
        Some("`downcast_unchecked_ref` on `Arc<dyn Any>` (or `dyn Any`) — caller \
            must guarantee the actual runtime type is exactly T; a type mismatch \
            produces a reference to the wrong type (type-confusion UB); use the \
            checked downcast or `Any::is::<T>()` guard first"@)
    } else if ends_with(path, "downcast_unchecked_ref"@) {
        Some("`downcast_unchecked_ref` on `Box<dyn Any>` (or `dyn Any`) — caller \
            must guarantee the actual runtime type is exactly T; a type mismatch \
            produces a reference to the wrong type (type-confusion UB); use the \
            checked downcast or `Any::is::<T>()` guard first"@)
    } else if ends_with(path, "downcast_unchecked_mut"@) && contains(path, "Rc"@) {
        Some("`downcast_unchecked_mut` on `Rc<dyn Any>` (or `dyn Any`) — caller must \
            guarantee the actual runtime type is exactly T; a type mismatch \
            produces a reference to the wrong type (type-confusion UB); use the \
            checked downcast or `Any::is::<T>()` guard first"@)
    } else if ends_with(path, "downcast_unchecked_mut"@) && contains(path, "Arc"@) {
        Some("`downcast_unchecked_mut` on `Arc<dyn Any>` (or `dyn Any`) — caller \
            must guarantee the actual runtime type is exactly T; a type mismatch \
            produces a reference to the wrong type (type-confusion UB); use the \
            checked downcast or `Any::is::<T>()` guard first"@)
    } else if ends_with(path, "downcast_unchecked_mut"@) {
        Some("`downcast_unchecked_mut` on `Box<dyn Any>` (or `dyn Any`) — caller \
            must guarantee the actual runtime type is exactly T; a type mismatch \
            produces a reference to the wrong type (type-confusion UB); use the \
            checked downcast or `Any::is::<T>()` guard first"@)
    } else if contains(path, "Rc"@) {
        Some("`downcast_unchecked` on `Rc<dyn Any>` (or `dyn Any`) — caller must \
            guarantee the actual runtime type is exactly T; a type mismatch \
            produces a reference to the wrong type (type-confusion UB); use the \
            checked downcast or `Any::is::<T>()` guard first"@)
    } else if contains(path, "Arc"@) {
        Some("`downcast_unchecked` on `Arc<dyn Any>` (or `dyn Any`) — caller must \
            guarantee the actual runtime type is exactly T; a type mismatch \
            produces a reference to the wrong type (type-confusion UB); use the \
            checked downcast or `Any::is::<T>()` guard first"@)
    } else {
        Some("`downcast_unchecked` on `Box<dyn Any>` (or `dyn Any`) — caller must \
            guarantee the actual runtime type is exactly T; a type mismatch \
            produces a reference to the wrong type (type-confusion UB); use the \
            checked downcast or `Any::is::<T>()` guard first"@)
    }
}

fn downcast_unchecked_message_of(path: &str) -> (r: Option<String>)
    ensures
        opt_chars(r) == downcast_unchecked_message(path@),
{
    if !(str_ends_with(path, "downcast_unchecked") || str_ends_with(path, "downcast_unchecked_ref") || str_ends_with(path, "downcast_unchecked_mut")) {
        None
    } else if str_ends_with(path, "downcast_unchecked_ref") && str_contains(path, "Rc") {
        Some("`downcast_unchecked_ref` on `Rc<dyn Any>` (or `dyn Any`) — caller must \
            guarantee the actual runtime type is exactly T; a type mismatch \
            produces a reference to the wrong type (type-confusion UB); use the \
            checked downcast or `Any::is::<T>()` guard first".to_owned())
    } else if str_ends_with(path, "downcast_unchecked_ref") && str_contains(path, "Arc") {
        Some("`downcast_unchecked_ref` on `Arc<dyn Any>` (or `dyn Any`) — caller \
            must guarantee the actual runtime type is exactly T; a type mismatch \
            produces a reference to the wrong type (type-confusion UB); use the \
            checked downcast or `Any::is::<T>()` guard first".to_owned())
    } else if str_ends_with(path, "downcast_unchecked_ref") {
        Some("`downcast_unchecked_ref` on `Box<dyn Any>` (or `dyn Any`) — caller \
            must guarantee the actual runtime type is exactly T; a type mismatch \
            produces a reference to the wrong type (type-confusion UB); use the \
            checked downcast or `Any::is::<T>()` guard first".to_owned())
    } else if str_ends_with(path, "downcast_unchecked_mut") && str_contains(path, "Rc") {
        Some("`downcast_unchecked_mut` on `Rc<dyn Any>` (or `dyn Any`) — caller must \
            guarantee the actual runtime type is exactly T; a type mismatch \
            produces a reference to the wrong type (type-confusion UB); use the \
            checked downcast or `Any::is::<T>()` guard first".to_owned())
    } else if str_ends_with(path, "downcast_unchecked_mut") && str_contains(path, "Arc") {
        Some("`downcast_unchecked_mut` on `Arc<dyn Any>` (or `dyn Any`) — caller \
            must guarantee the actual runtime type is exactly T; a type mismatch \
            produces a reference to the wrong type (type-confusion UB); use the \
            checked downcast or `Any::is::<T>()` guard first".to_owned())
    } else if str_ends_with(path, "downcast_unchecked_mut") {
        Some("`downcast_unchecked_mut` on `Box<dyn Any>` (or `dyn Any`) — caller \
            must guarantee the actual runtime type is exactly T; a type mismatch \
            produces a reference to the wrong type (type-confusion UB); use the \
            checked downcast or `Any::is::<T>()` guard first".to_owned())
    } else if str_contains(path, "Rc") {
        Some("`downcast_unchecked` on `Rc<dyn Any>` (or `dyn Any`) — caller must \
            guarantee the actual runtime type is exactly T; a type mismatch \
            produces a reference to the wrong type (type-confusion UB); use the \
            checked downcast or `Any::is::<T>()` guard first".to_owned())
    } else if str_contains(path, "Arc") {
        Some("`downcast_unchecked` on `Arc<dyn Any>` (or `dyn Any`) — caller must \
            guarantee the actual runtime type is exactly T; a type mismatch \
            produces a reference to the wrong type (type-confusion UB); use the \
            checked downcast or `Any::is::<T>()` guard first".to_owned())
    } else {
        Some("`downcast_unchecked` on `Box<dyn Any>` (or `dyn Any`) — caller must \
            guarantee the actual runtime type is exactly T; a type mismatch \
            produces a reference to the wrong type (type-confusion UB); use the \
            checked downcast or `Any::is::<T>()` guard first".to_owned())
    }
}

impl CallRule for DowncastUnchecked {
    open spec fn spec_uses_state(&self) -> bool {
        false
    }

    open spec fn spec_flag(&self, body: &Body, callee: DefId, path: Seq<char>, args: Seq<Operand>, pre: Option<StateView>)
        -> Option<(Seq<char>, Severity, Seq<char>)>
    {
        match downcast_unchecked_message(path) {
            Some(m) => Some(("downcast_unchecked"@, Severity::Warning, m)),
            None => None,
        }
    }

    fn uses_state(&self) -> (r: bool) {
        false
    }

    fn flag(&self, body: &Body, callee: DefId, path: &str, args: &Vec<Operand>, pre: &Option<BlockState>) -> (r: Option<Flag>) {
        match downcast_unchecked_message_of(path) {
            Some(m) => Some(("downcast_unchecked", Severity::Warning, m)),
            None => None,
        }
    }
}

impl DowncastUnchecked {
    /// Reports, in block order, each direct call in `body` that
    /// `downcast_unchecked_message` gives a message for.
    pub fn check(&self, body: &Body, flow: &FlowResults) -> (r: Vec<Finding>)
        requires
            body.basic_blocks@.len() <= 0x1_0000_0000,
        ensures
            findings_view(r@) == call_findings(self, body, flow.entry_states@, body.basic_blocks@.len() as int),
    {
        run_call_rule(self, body, flow)
    }
}

} // verus!
