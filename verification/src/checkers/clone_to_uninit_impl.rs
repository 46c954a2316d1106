//! Detects `unsafe impl CloneToUninit` implementations (stable since Rust
//! 1.81).

use vstd::prelude::*;
use crate::checkers::{Finding, Flag, ImplRule, Severity, TraitImpl, findings_view, impl_findings, opt_chars, run_impl_rule};
use crate::text::{contains, str_contains};

verus! {

/// Detects `unsafe impl CloneToUninit` implementations (stable since Rust
/// 1.81).
pub struct CloneToUninitImpl;

/// The message `CloneToUninitImpl` gives an `unsafe impl` of the trait at `path`, if it reports one.
pub open spec fn clone_to_uninit_impl_message(path: Seq<char>) -> Option<Seq<char>> {
    if contains(path, "CloneToUninit"@) {
        Some("`unsafe impl CloneToUninit` — `clone_to_uninit` must fully initialize \
            `dst` (aligned, correct size_of_val); partial initialization followed \
            by a panic path is UB; the caller will call `assume_init` on `dst`"@)
    } else {
        None
    }
}

fn clone_to_uninit_impl_message_of(path: &str) -> (r: Option<String>)
    ensures
        opt_chars(r) == clone_to_uninit_impl_message(path@),
{
    if str_contains(path, "CloneToUninit") {
        Some("`unsafe impl CloneToUninit` — `clone_to_uninit` must fully initialize \
            `dst` (aligned, correct size_of_val); partial initialization followed \
            by a panic path is UB; the caller will call `assume_init` on `dst`".to_owned())
    } else {
        None
    }
}

impl ImplRule for CloneToUninitImpl {
    open spec fn spec_impl_flag(&self, trait_path: Seq<char>) -> Option<(Seq<char>, Severity, Seq<char>)> {
        match clone_to_uninit_impl_message(trait_path) {
            Some(m) => Some(("clone_to_uninit_impl"@, Severity::Warning, m)),
            None => None,
        }
    }

    fn impl_flag(&self, trait_path: &str) -> (r: Option<Flag>) {
        match clone_to_uninit_impl_message_of(trait_path) {
            Some(m) => Some(("clone_to_uninit_impl", Severity::Warning, m)),
            None => None,
        }
    }
}

impl CloneToUninitImpl {
    /// Reports, in order, each `unsafe impl` of `impls` whose trait
    /// `clone_to_uninit_impl_message` gives a message for.
    pub fn check_crate(&self, impls: &Vec<TraitImpl>) -> (r: Vec<Finding>)
        ensures
            findings_view(r@) == impl_findings(self, impls@, impls@.len() as int),
    {
        run_impl_rule(self, impls)
    }
}

} // verus!
