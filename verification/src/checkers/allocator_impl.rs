//! Detects `unsafe impl Allocator` implementations (nightly
//! `#[feature(allocator_api)]`).

use vstd::prelude::*;
use crate::checkers::{Finding, Flag, ImplRule, Severity, TraitImpl, findings_view, impl_findings, opt_chars, run_impl_rule};
use crate::text::{ends_with, str_ends_with};

verus! {

/// Detects `unsafe impl Allocator` implementations (nightly
/// `#[feature(allocator_api)]`).
pub struct AllocatorImpl;

/// The message `AllocatorImpl` gives an `unsafe impl` of the trait at `path`, if it reports one.
pub open spec fn allocator_impl_message(path: Seq<char>) -> Option<Seq<char>> {
    if ends_with(path, "alloc::Allocator"@) {
        Some("`unsafe impl Allocator` — `allocate` must return a valid, aligned \
            block; `deallocate` must only be called with pointers from this \
            allocator and a compatible layout; `grow`/`shrink` invalidate the old \
            pointer on success — using it afterward is use-after-free; mixing \
            allocator instances causes silent heap corruption"@)
    } else {
        None
    }
}

fn allocator_impl_message_of(path: &str) -> (r: Option<String>)
    ensures
        opt_chars(r) == allocator_impl_message(path@),
{
    if str_ends_with(path, "alloc::Allocator") {
        Some("`unsafe impl Allocator` — `allocate` must return a valid, aligned \
            block; `deallocate` must only be called with pointers from this \
            allocator and a compatible layout; `grow`/`shrink` invalidate the old \
            pointer on success — using it afterward is use-after-free; mixing \
            allocator instances causes silent heap corruption".to_owned())
    } else {
        None
    }
}

impl ImplRule for AllocatorImpl {
    open spec fn spec_impl_flag(&self, trait_path: Seq<char>) -> Option<(Seq<char>, Severity, Seq<char>)> {
        match allocator_impl_message(trait_path) {
            Some(m) => Some(("allocator_impl"@, Severity::Warning, m)),
            None => None,
        }
    }

    fn impl_flag(&self, trait_path: &str) -> (r: Option<Flag>) {
        match allocator_impl_message_of(trait_path) {
            Some(m) => Some(("allocator_impl", Severity::Warning, m)),
            None => None,
        }
    }
}

impl AllocatorImpl {
    /// Reports, in order, each `unsafe impl` of `impls` whose trait
    /// `allocator_impl_message` gives a message for.
    pub fn check_crate(&self, impls: &Vec<TraitImpl>) -> (r: Vec<Finding>)
        ensures
            findings_view(r@) == impl_findings(self, impls@, impls@.len() as int),
    {
        run_impl_rule(self, impls)
    }
}

} // verus!
