//! Detects `unsafe impl` for `bytemuck` safety traits: `Pod`, `Zeroable`,
//! `AnyBitPattern`, `NoUninit`, `TransparentWrapper`, and `CheckedBitPattern`.

use vstd::prelude::*;
use crate::checkers::{Finding, Flag, ImplRule, Severity, TraitImpl, findings_view, impl_findings, opt_chars, run_impl_rule};
use crate::text::{contains, ends_with, str_contains, str_ends_with};

verus! {

/// Detects `unsafe impl` for `bytemuck` safety traits: `Pod`, `Zeroable`,
/// `AnyBitPattern`, `NoUninit`, `TransparentWrapper`, and `CheckedBitPattern`.
pub struct BytemuckUnsafeImpl;

/// The message `BytemuckUnsafeImpl` gives an `unsafe impl` of the trait at `path`, if it reports one.
pub open spec fn bytemuck_unsafe_impl_message(path: Seq<char>) -> Option<Seq<char>> {
    if !(contains(path, "bytemuck"@)) {
        None
    } else if ends_with(path, "::Pod"@) {
        Some("`unsafe impl bytemuck::Pod` — T must have no padding bytes and every \
            possible bit sequence must be a valid T; pointer/reference fields and \
            enums with limited discriminants cannot implement Pod; use \
            bytemuck::derive(Pod) for struct verification"@)
    } else if ends_with(path, "::Zeroable"@) {
        Some("`unsafe impl bytemuck::Zeroable` — the all-zeros bit pattern must be a \
            valid T; references, NonNull, Box, and types with invalid-zero-value \
            invariants (NonZero*) cannot be Zeroable; derive with \
            #[derive(Zeroable)] to let bytemuck verify the layout"@)
    } else if ends_with(path, "::AnyBitPattern"@) {
        Some("`unsafe impl bytemuck::AnyBitPattern` — every possible bit sequence \
            must be a valid T; enums (limited discriminants), bool (only 0/1), \
            char (not all u32 values are valid), and pointer types cannot \
            implement AnyBitPattern without violating the invariant"@)
    } else if ends_with(path, "::NoUninit"@) {
        Some("`unsafe impl bytemuck::NoUninit` — T must have no uninitialized or \
            padding bytes; all byte positions must be initialized by every value \
            of T; add #[repr(C)] or #[repr(packed)] and verify there are no \
            padding fields between struct members"@)
    } else if ends_with(path, "::TransparentWrapper"@) {
        Some("`unsafe impl bytemuck::TransparentWrapper` — T must be \
            #[repr(transparent)] over Inner with identical memory layout; any \
            layout difference allows bytemuck to produce references to invalid \
            memory; wrap fields with #[repr(transparent)] and verify \
            size_of::<T>() == size_of::<Inner>()"@)
    } else if ends_with(path, "::CheckedBitPattern"@) {
        Some("`unsafe impl bytemuck::CheckedBitPattern` — is_valid_bit_pattern must \
            return true exactly when the bit pattern is a valid T; a false \
            positive allows bytemuck::checked::from_bytes to return an invalid T; \
            test edge cases (discriminant boundaries for enums, null for pointers)"@)
    } else {
        None
    }
}

fn bytemuck_unsafe_impl_message_of(path: &str) -> (r: Option<String>)
    ensures
        opt_chars(r) == bytemuck_unsafe_impl_message(path@),
{
    if !(str_contains(path, "bytemuck")) {
        None
    } else if str_ends_with(path, "::Pod") {
        Some("`unsafe impl bytemuck::Pod` — T must have no padding bytes and every \
            possible bit sequence must be a valid T; pointer/reference fields and \
            enums with limited discriminants cannot implement Pod; use \
            bytemuck::derive(Pod) for struct verification".to_owned())
    } else if str_ends_with(path, "::Zeroable") {
        Some("`unsafe impl bytemuck::Zeroable` — the all-zeros bit pattern must be a \
            valid T; references, NonNull, Box, and types with invalid-zero-value \
            invariants (NonZero*) cannot be Zeroable; derive with \
            #[derive(Zeroable)] to let bytemuck verify the layout".to_owned())
    } else if str_ends_with(path, "::AnyBitPattern") {
        Some("`unsafe impl bytemuck::AnyBitPattern` — every possible bit sequence \
            must be a valid T; enums (limited discriminants), bool (only 0/1), \
            char (not all u32 values are valid), and pointer types cannot \
            implement AnyBitPattern without violating the invariant".to_owned())
    } else if str_ends_with(path, "::NoUninit") {
        Some("`unsafe impl bytemuck::NoUninit` — T must have no uninitialized or \
            padding bytes; all byte positions must be initialized by every value \
            of T; add #[repr(C)] or #[repr(packed)] and verify there are no \
            padding fields between struct members".to_owned())
    } else if str_ends_with(path, "::TransparentWrapper") {
        Some("`unsafe impl bytemuck::TransparentWrapper` — T must be \
            #[repr(transparent)] over Inner with identical memory layout; any \
            layout difference allows bytemuck to produce references to invalid \
            memory; wrap fields with #[repr(transparent)] and verify \
            size_of::<T>() == size_of::<Inner>()".to_owned())
    } else if str_ends_with(path, "::CheckedBitPattern") {
        Some("`unsafe impl bytemuck::CheckedBitPattern` — is_valid_bit_pattern must \
            return true exactly when the bit pattern is a valid T; a false \
            positive allows bytemuck::checked::from_bytes to return an invalid T; \
            test edge cases (discriminant boundaries for enums, null for pointers)".to_owned())
    } else {
        None
    }
}

impl ImplRule for BytemuckUnsafeImpl {
    open spec fn spec_impl_flag(&self, trait_path: Seq<char>) -> Option<(Seq<char>, Severity, Seq<char>)> {
        match bytemuck_unsafe_impl_message(trait_path) {
            Some(m) => Some(("bytemuck_unsafe_impl"@, Severity::Warning, m)),
            None => None,
        }
    }

    fn impl_flag(&self, trait_path: &str) -> (r: Option<Flag>) {
        match bytemuck_unsafe_impl_message_of(trait_path) {
            Some(m) => Some(("bytemuck_unsafe_impl", Severity::Warning, m)),
            None => None,
        }
    }
}

impl BytemuckUnsafeImpl {
    /// Reports, in order, each `unsafe impl` of `impls` whose trait
    /// `bytemuck_unsafe_impl_message` gives a message for.
    pub fn check_crate(&self, impls: &Vec<TraitImpl>) -> (r: Vec<Finding>)
        ensures
            findings_view(r@) == impl_findings(self, impls@, impls@.len() as int),
    {
        run_impl_rule(self, impls)
    }
}

} // verus!
