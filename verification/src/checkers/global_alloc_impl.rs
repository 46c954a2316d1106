//! Detects `unsafe impl GlobalAlloc` implementations.

use vstd::prelude::*;
use crate::checkers::{Finding, Flag, ImplRule, Severity, TraitImpl, findings_view, impl_findings, opt_chars, run_impl_rule};
use crate::text::{contains, str_contains};

verus! {

/// Detects `unsafe impl GlobalAlloc` implementations.
pub struct GlobalAllocImpl;

/// The message `GlobalAllocImpl` gives an `unsafe impl` of the trait at `path`, if it reports one.
pub open spec fn global_alloc_impl_message(path: Seq<char>) -> Option<Seq<char>> {
    if contains(path, "GlobalAlloc"@) {
        Some("`unsafe impl GlobalAlloc` — verify: alloc returns null on failure \
            (never panics), returned pointer is correctly aligned, dealloc \
            receives the exact layout used for alloc, realloc invalidates old \
            pointer on both success and failure; incorrect impl corrupts all heap \
            allocations in the process"@)
    } else {
        None
    }
}

fn global_alloc_impl_message_of(path: &str) -> (r: Option<String>)
    ensures
        opt_chars(r) == global_alloc_impl_message(path@),
{
    if str_contains(path, "GlobalAlloc") {
        Some("`unsafe impl GlobalAlloc` — verify: alloc returns null on failure \
            (never panics), returned pointer is correctly aligned, dealloc \
            receives the exact layout used for alloc, realloc invalidates old \
            pointer on both success and failure; incorrect impl corrupts all heap \
            allocations in the process".to_owned())
    } else {
        None
    }
}

impl ImplRule for GlobalAllocImpl {
    open spec fn spec_impl_flag(&self, trait_path: Seq<char>) -> Option<(Seq<char>, Severity, Seq<char>)> {
        match global_alloc_impl_message(trait_path) {
            Some(m) => Some(("global_alloc_impl"@, Severity::Warning, m)),
            None => None,
        }
    }

    fn impl_flag(&self, trait_path: &str) -> (r: Option<Flag>) {
        match global_alloc_impl_message_of(trait_path) {
            Some(m) => Some(("global_alloc_impl", Severity::Warning, m)),
            None => None,
        }
    }
}

impl GlobalAllocImpl {
    /// Reports, in order, each `unsafe impl` of `impls` whose trait
    /// `global_alloc_impl_message` gives a message for.
    pub fn check_crate(&self, impls: &Vec<TraitImpl>) -> (r: Vec<Finding>)
        ensures
            findings_view(r@) == impl_findings(self, impls@, impls@.len() as int),
    {
        run_impl_rule(self, impls)
    }
}

} // verus!
