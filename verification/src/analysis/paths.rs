//! Classification of callee paths.
//!
//! Each predicate is stated over the characters of the path; matching is
//! byte-wise, as `str::ends_with`, `str::contains` and `==` are.

use vstd::prelude::*;
use crate::text::{contains, ends_with, same, str_contains, str_ends_with, str_eq};

verus! {

/// `Vec`/`String` methods that may reallocate (and thus move) the backing
/// buffer, invalidating any raw pointer previously taken into it.
pub open spec fn spec_is_reallocating_method(p: Seq<char>) -> bool {
    ((contains(p, "vec::Vec"@) || contains(p, "string::String"@))
    && (ends_with(p, "::reserve"@)
        || ends_with(p, "::reserve_exact"@)
        || ends_with(p, "::try_reserve"@)
        || ends_with(p, "::try_reserve_exact"@)
        || ends_with(p, "::shrink_to_fit"@)
        || ends_with(p, "::shrink_to"@)
        || ends_with(p, "::into_boxed_slice"@)
        || ends_with(p, "::push"@)
        || ends_with(p, "::push_str"@)
        || ends_with(p, "::insert"@)
        || ends_with(p, "::append"@)
        || ends_with(p, "::extend_from_slice"@)
        || ends_with(p, "::resize"@)
        || ends_with(p, "::resize_with"@)
        || ends_with(p, "::extend_from_within"@)
        || ends_with(p, "::insert_str"@)))
}

pub fn is_reallocating_method(p: &str) -> (r: bool)
    ensures
        r == spec_is_reallocating_method(p@),
{
    ((str_contains(p, "vec::Vec") || str_contains(p, "string::String"))
    && (str_ends_with(p, "::reserve")
        || str_ends_with(p, "::reserve_exact")
        || str_ends_with(p, "::try_reserve")
        || str_ends_with(p, "::try_reserve_exact")
        || str_ends_with(p, "::shrink_to_fit")
        || str_ends_with(p, "::shrink_to")
        || str_ends_with(p, "::into_boxed_slice")
        || str_ends_with(p, "::push")
        || str_ends_with(p, "::push_str")
        || str_ends_with(p, "::insert")
        || str_ends_with(p, "::append")
        || str_ends_with(p, "::extend_from_slice")
        || str_ends_with(p, "::resize")
        || str_ends_with(p, "::resize_with")
        || str_ends_with(p, "::extend_from_within")
        || str_ends_with(p, "::insert_str")))
}

/// Calls that hand out a freshly owned raw pointer: `into_raw`-style
/// conversions of owning smart pointers and raw allocator allocation.
pub open spec fn spec_is_into_raw(p: Seq<char>) -> bool {
    (((ends_with(p, "::into_raw"@)
            || ends_with(p, "::into_raw_with_allocator"@)
            || ends_with(p, "::into_non_null"@)
            || ends_with(p, "::into_raw_parts"@)
            || ends_with(p, "::into_raw_parts_with_alloc"@))
        && (contains(p, "::Box::"@)
            || contains(p, "::Box<"@)
            || contains(p, "::Arc::"@)
            || contains(p, "::Arc<"@)
            || contains(p, "::Rc::"@)
            || contains(p, "::Rc<"@)
            || contains(p, "::Vec::"@)
            || contains(p, "::Vec<"@)
            || contains(p, "::String::"@)
            || contains(p, "::Thread::"@)
            || contains(p, "::Weak::"@)
            || contains(p, "::Weak<"@)
            || contains(p, "::CString::"@)
            || contains(p, "::CStr::"@)
            || contains(p, "triomphe"@)))
    || (same(p, "std::alloc::alloc"@)
        || same(p, "core::alloc::alloc"@)
        || same(p, "alloc::alloc::alloc"@)
        || same(p, "__rust_alloc"@)
        || same(p, "std::alloc::alloc_zeroed"@)
        || same(p, "core::alloc::alloc_zeroed"@)
        || same(p, "alloc::alloc::alloc_zeroed"@)
        || same(p, "__rust_alloc_zeroed"@))
    || (ends_with(p, "Allocator::allocate"@)
        || ends_with(p, "Allocator::allocate_zeroed"@)))
}

pub fn is_into_raw(p: &str) -> (r: bool)
    ensures
        r == spec_is_into_raw(p@),
{
    (((str_ends_with(p, "::into_raw")
            || str_ends_with(p, "::into_raw_with_allocator")
            || str_ends_with(p, "::into_non_null")
            || str_ends_with(p, "::into_raw_parts")
            || str_ends_with(p, "::into_raw_parts_with_alloc"))
        && (str_contains(p, "::Box::")
            || str_contains(p, "::Box<")
            || str_contains(p, "::Arc::")
            || str_contains(p, "::Arc<")
            || str_contains(p, "::Rc::")
            || str_contains(p, "::Rc<")
            || str_contains(p, "::Vec::")
            || str_contains(p, "::Vec<")
            || str_contains(p, "::String::")
            || str_contains(p, "::Thread::")
            || str_contains(p, "::Weak::")
            || str_contains(p, "::Weak<")
            || str_contains(p, "::CString::")
            || str_contains(p, "::CStr::")
            || str_contains(p, "triomphe")))
    || (str_eq(p, "std::alloc::alloc")
        || str_eq(p, "core::alloc::alloc")
        || str_eq(p, "alloc::alloc::alloc")
        || str_eq(p, "__rust_alloc")
        || str_eq(p, "std::alloc::alloc_zeroed")
        || str_eq(p, "core::alloc::alloc_zeroed")
        || str_eq(p, "alloc::alloc::alloc_zeroed")
        || str_eq(p, "__rust_alloc_zeroed"))
    || (str_ends_with(p, "Allocator::allocate")
        || str_ends_with(p, "Allocator::allocate_zeroed")))
}

/// Global `ptr::copy(src, dst, count)` and `ptr::copy_nonoverlapping`: the
/// destination is the second argument.
pub open spec fn spec_is_global_ptr_copy_to_second_arg(p: Seq<char>) -> bool {
    ((ends_with(p, "ptr::copy"@) || ends_with(p, "ptr::copy_nonoverlapping"@))
    && !(contains(p, "const_ptr"@))
    && !(contains(p, "mut_ptr"@))
    && !(contains(p, "NonNull"@)))
}

pub fn is_global_ptr_copy_to_second_arg(p: &str) -> (r: bool)
    ensures
        r == spec_is_global_ptr_copy_to_second_arg(p@),
{
    ((str_ends_with(p, "ptr::copy")
        || str_ends_with(p, "ptr::copy_nonoverlapping"))
    && !(str_contains(p, "const_ptr"))
    && !(str_contains(p, "mut_ptr"))
    && !(str_contains(p, "NonNull")))
}

/// Raw-pointer writes through their first (destination) argument that do
/// not consume the pointer.
pub open spec fn spec_is_ptr_write_to_first_arg(p: Seq<char>) -> bool {
    ((contains(p, "const_ptr"@)
        || contains(p, "mut_ptr"@)
        || contains(p, "NonNull"@))
    && (ends_with(p, "::write"@)
        || ends_with(p, "::write_unaligned"@)
        || ends_with(p, "::write_bytes"@)
        || ends_with(p, "::copy_from"@)
        || ends_with(p, "::copy_from_nonoverlapping"@)))
}

pub fn is_ptr_write_to_first_arg(p: &str) -> (r: bool)
    ensures
        r == spec_is_ptr_write_to_first_arg(p@),
{
    ((str_contains(p, "const_ptr")
        || str_contains(p, "mut_ptr")
        || str_contains(p, "NonNull"))
    && (str_ends_with(p, "::write")
        || str_ends_with(p, "::write_unaligned")
        || str_ends_with(p, "::write_bytes")
        || str_ends_with(p, "::copy_from")
        || str_ends_with(p, "::copy_from_nonoverlapping")))
}

/// Pure queries on raw pointers that neither move ownership nor affect
/// validity.
pub open spec fn spec_is_ptr_pure_read(p: Seq<char>) -> bool {
    ((contains(p, "const_ptr"@)
        || contains(p, "mut_ptr"@)
        || contains(p, "NonNull"@))
    && (ends_with(p, "::is_null"@)
        || ends_with(p, "::is_aligned"@)
        || ends_with(p, "::is_aligned_to"@)
        || ends_with(p, "::addr"@)
        || ends_with(p, "::expose_provenance"@)
        || ends_with(p, "::as_ptr"@)
        || ends_with(p, "::guaranteed_ne"@)
        || ends_with(p, "::guaranteed_eq"@)
        || ends_with(p, "::align_offset"@)
        || ends_with(p, "::offset_from"@)
        || ends_with(p, "::byte_offset_from"@)
        || ends_with(p, "::sub_ptr"@)))
}

pub fn is_ptr_pure_read(p: &str) -> (r: bool)
    ensures
        r == spec_is_ptr_pure_read(p@),
{
    ((str_contains(p, "const_ptr")
        || str_contains(p, "mut_ptr")
        || str_contains(p, "NonNull"))
    && (str_ends_with(p, "::is_null")
        || str_ends_with(p, "::is_aligned")
        || str_ends_with(p, "::is_aligned_to")
        || str_ends_with(p, "::addr")
        || str_ends_with(p, "::expose_provenance")
        || str_ends_with(p, "::as_ptr")
        || str_ends_with(p, "::guaranteed_ne")
        || str_ends_with(p, "::guaranteed_eq")
        || str_ends_with(p, "::align_offset")
        || str_ends_with(p, "::offset_from")
        || str_ends_with(p, "::byte_offset_from")
        || str_ends_with(p, "::sub_ptr")))
}

/// Calls that take ownership back from a raw pointer: `from_raw`-style
/// reconstitution, `from_raw_parts`, and raw allocator deallocation.
pub open spec fn spec_is_from_raw(p: Seq<char>) -> bool {
    ((ends_with(p, "::from_raw"@)
        && (contains(p, "::Box::"@)
            || contains(p, "::Box<"@)
            || contains(p, "::Arc::"@)
            || contains(p, "::Arc<"@)
            || contains(p, "::Rc::"@)
            || contains(p, "::Rc<"@)
            || contains(p, "::Weak::"@)
            || contains(p, "::Weak<"@)
            || contains(p, "::Thread::"@)
            || contains(p, "::CString::"@)
            || contains(p, "::CStr::"@)
            || contains(p, "triomphe"@)))
    || (ends_with(p, "::from_raw_in"@)
        && (contains(p, "::Box::"@)
            || contains(p, "::Box<"@)
            || contains(p, "::Arc::"@)
            || contains(p, "::Arc<"@)
            || contains(p, "::Rc::"@)
            || contains(p, "::Rc<"@)))
    || ((ends_with(p, "::from_non_null"@) || ends_with(p, "::from_non_null_in"@))
        && (contains(p, "::Box::"@) || contains(p, "::Box<"@)))
    || ((ends_with(p, "::from_raw_parts"@) || ends_with(p, "::from_raw_parts_in"@))
        && (contains(p, "::Vec::"@)
            || contains(p, "::Vec<"@)
            || contains(p, "::String::"@)))
    || (same(p, "std::alloc::dealloc"@)
        || same(p, "core::alloc::dealloc"@)
        || same(p, "alloc::alloc::dealloc"@)
        || same(p, "__rust_dealloc"@))
    || ends_with(p, "Allocator::deallocate"@)
    || (ends_with(p, "::from_raw_slice"@) && contains(p, "triomphe"@)))
}

pub fn is_from_raw(p: &str) -> (r: bool)
    ensures
        r == spec_is_from_raw(p@),
{
    ((str_ends_with(p, "::from_raw")
        && (str_contains(p, "::Box::")
            || str_contains(p, "::Box<")
            || str_contains(p, "::Arc::")
            || str_contains(p, "::Arc<")
            || str_contains(p, "::Rc::")
            || str_contains(p, "::Rc<")
            || str_contains(p, "::Weak::")
            || str_contains(p, "::Weak<")
            || str_contains(p, "::Thread::")
            || str_contains(p, "::CString::")
            || str_contains(p, "::CStr::")
            || str_contains(p, "triomphe")))
    || (str_ends_with(p, "::from_raw_in")
        && (str_contains(p, "::Box::")
            || str_contains(p, "::Box<")
            || str_contains(p, "::Arc::")
            || str_contains(p, "::Arc<")
            || str_contains(p, "::Rc::")
            || str_contains(p, "::Rc<")))
    || ((str_ends_with(p, "::from_non_null")
            || str_ends_with(p, "::from_non_null_in"))
        && (str_contains(p, "::Box::") || str_contains(p, "::Box<")))
    || ((str_ends_with(p, "::from_raw_parts")
            || str_ends_with(p, "::from_raw_parts_in"))
        && (str_contains(p, "::Vec::")
            || str_contains(p, "::Vec<")
            || str_contains(p, "::String::")))
    || (str_eq(p, "std::alloc::dealloc")
        || str_eq(p, "core::alloc::dealloc")
        || str_eq(p, "alloc::alloc::dealloc")
        || str_eq(p, "__rust_dealloc"))
    || str_ends_with(p, "Allocator::deallocate")
    || (str_ends_with(p, "::from_raw_slice") && str_contains(p, "triomphe")))
}

/// `mem::forget`.
pub open spec fn spec_is_mem_forget(p: Seq<char>) -> bool {
    (same(p, "std::mem::forget"@) || same(p, "core::mem::forget"@))
}

pub fn is_mem_forget(p: &str) -> (r: bool)
    ensures
        r == spec_is_mem_forget(p@),
{
    (str_eq(p, "std::mem::forget") || str_eq(p, "core::mem::forget"))
}

/// Raw allocator `realloc`: consumes the old pointer and returns a fresh
/// owned allocation.
pub open spec fn spec_is_raw_realloc(p: Seq<char>) -> bool {
    ((same(p, "std::alloc::realloc"@)
        || same(p, "core::alloc::realloc"@)
        || same(p, "alloc::alloc::realloc"@)
        || same(p, "__rust_realloc"@))
    || (ends_with(p, "Allocator::grow"@)
        || ends_with(p, "Allocator::grow_zeroed"@)
        || ends_with(p, "Allocator::shrink"@)))
}

pub fn is_raw_realloc(p: &str) -> (r: bool)
    ensures
        r == spec_is_raw_realloc(p@),
{
    ((str_eq(p, "std::alloc::realloc")
        || str_eq(p, "core::alloc::realloc")
        || str_eq(p, "alloc::alloc::realloc")
        || str_eq(p, "__rust_realloc"))
    || (str_ends_with(p, "Allocator::grow")
        || str_ends_with(p, "Allocator::grow_zeroed")
        || str_ends_with(p, "Allocator::shrink")))
}

/// `ptr::read` and its method forms, and the `ManuallyDrop` conversions that
/// copy the inner value bitwise.
pub open spec fn spec_is_ptr_read(p: Seq<char>) -> bool {
    ((ends_with(p, "ptr::read"@) || ends_with(p, "ptr::read_unaligned"@))
    || ((contains(p, "const_ptr"@)
            || contains(p, "mut_ptr"@)
            || contains(p, "NonNull"@))
        && (ends_with(p, "::read"@) || ends_with(p, "::read_unaligned"@)))
    || (contains(p, "ManuallyDrop"@)
        && (ends_with(p, "::new"@)
            || ends_with(p, "::take"@)
            || ends_with(p, "::into_inner"@))))
}

pub fn is_ptr_read(p: &str) -> (r: bool)
    ensures
        r == spec_is_ptr_read(p@),
{
    ((str_ends_with(p, "ptr::read") || str_ends_with(p, "ptr::read_unaligned"))
    || ((str_contains(p, "const_ptr")
            || str_contains(p, "mut_ptr")
            || str_contains(p, "NonNull"))
        && (str_ends_with(p, "::read") || str_ends_with(p, "::read_unaligned")))
    || (str_contains(p, "ManuallyDrop")
        && (str_ends_with(p, "::new")
            || str_ends_with(p, "::take")
            || str_ends_with(p, "::into_inner"))))
}

/// Pinning an epoch (`crossbeam_epoch::pin`).
pub open spec fn spec_is_epoch_pin(p: Seq<char>) -> bool {
    ((ends_with(p, "::pin"@) || ends_with(p, "::pin_reuse"@))
    && contains(p, "epoch"@))
}

pub fn is_epoch_pin(p: &str) -> (r: bool)
    ensures
        r == spec_is_epoch_pin(p@),
{
    ((str_ends_with(p, "::pin") || str_ends_with(p, "::pin_reuse"))
    && str_contains(p, "epoch"))
}

/// Lock acquisition on the well-known synchronization primitives.
pub open spec fn spec_is_lock_acquire(p: Seq<char>) -> bool {
    ((ends_with(p, "::lock"@)
        || ends_with(p, "::try_lock"@)
        || ends_with(p, "::lock_arc"@))
    && (contains(p, "::Mutex::"@)
        || contains(p, "::Mutex<"@)
        || contains(p, "::RwLock::"@)
        || contains(p, "::RwLock<"@)
        || contains(p, "::ReentrantMutex::"@)
        || contains(p, "::ReentrantMutex<"@)))
}

pub fn is_lock_acquire(p: &str) -> (r: bool)
    ensures
        r == spec_is_lock_acquire(p@),
{
    ((str_ends_with(p, "::lock")
        || str_ends_with(p, "::try_lock")
        || str_ends_with(p, "::lock_arc"))
    && (str_contains(p, "::Mutex::")
        || str_contains(p, "::Mutex<")
        || str_contains(p, "::RwLock::")
        || str_contains(p, "::RwLock<")
        || str_contains(p, "::ReentrantMutex::")
        || str_contains(p, "::ReentrantMutex<")))
}

/// The `force_unlock` family of `lock_api`.
pub open spec fn spec_is_force_unlock(p: Seq<char>) -> bool {
    (ends_with(p, "::force_unlock"@)
    || ends_with(p, "::force_unlock_fair"@)
    || ends_with(p, "::force_unlock_read"@)
    || ends_with(p, "::force_unlock_write"@)
    || ends_with(p, "::force_unlock_read_fair"@)
    || ends_with(p, "::force_unlock_write_fair"@))
}

pub fn is_force_unlock(p: &str) -> (r: bool)
    ensures
        r == spec_is_force_unlock(p@),
{
    (str_ends_with(p, "::force_unlock")
    || str_ends_with(p, "::force_unlock_fair")
    || str_ends_with(p, "::force_unlock_read")
    || str_ends_with(p, "::force_unlock_write")
    || str_ends_with(p, "::force_unlock_read_fair")
    || str_ends_with(p, "::force_unlock_write_fair"))
}

/// Dereferencing an epoch-protected `Shared` pointer.
pub open spec fn spec_is_shared_deref(p: Seq<char>) -> bool {
    ((ends_with(p, "::deref"@)
        || ends_with(p, "::deref_mut"@)
        || ends_with(p, "::as_ref"@))
    && contains(p, "Shared"@))
}

pub fn is_shared_deref(p: &str) -> (r: bool)
    ensures
        r == spec_is_shared_deref(p@),
{
    ((str_ends_with(p, "::deref")
        || str_ends_with(p, "::deref_mut")
        || str_ends_with(p, "::as_ref"))
    && str_contains(p, "Shared"))
}

/// `MaybeUninit` constructors that produce a provably initialized value.
pub open spec fn spec_is_maybe_uninit_init(p: Seq<char>) -> bool {
    (contains(p, "MaybeUninit"@)
    && (ends_with(p, "::new"@)
        || ends_with(p, "::zeroed"@)
        || ends_with(p, "::write"@)))
}

pub fn is_maybe_uninit_init(p: &str) -> (r: bool)
    ensures
        r == spec_is_maybe_uninit_init(p@),
{
    (str_contains(p, "MaybeUninit")
    && (str_ends_with(p, "::new")
        || str_ends_with(p, "::zeroed")
        || str_ends_with(p, "::write")))
}

/// `BufMut` writes that put bytes before the cursor advances.
pub open spec fn spec_is_buf_write(p: Seq<char>) -> bool {
    (ends_with(p, "::put_slice"@)
    || ends_with(p, "::put_bytes"@)
    || ends_with(p, "::put"@)
    || ends_with(p, "::put_u8"@)
    || ends_with(p, "::put_i8"@)
    || ends_with(p, "::put_u16"@)
    || ends_with(p, "::put_u16_le"@)
    || ends_with(p, "::put_u16_ne"@)
    || ends_with(p, "::put_i16"@)
    || ends_with(p, "::put_i16_le"@)
    || ends_with(p, "::put_i16_ne"@)
    || ends_with(p, "::put_u32"@)
    || ends_with(p, "::put_u32_le"@)
    || ends_with(p, "::put_u32_ne"@)
    || ends_with(p, "::put_i32"@)
    || ends_with(p, "::put_i32_le"@)
    || ends_with(p, "::put_i32_ne"@)
    || ends_with(p, "::put_u64"@)
    || ends_with(p, "::put_u64_le"@)
    || ends_with(p, "::put_u64_ne"@)
    || ends_with(p, "::put_i64"@)
    || ends_with(p, "::put_i64_le"@)
    || ends_with(p, "::put_i64_ne"@)
    || ends_with(p, "::put_f32"@)
    || ends_with(p, "::put_f32_le"@)
    || ends_with(p, "::put_f32_ne"@)
    || ends_with(p, "::put_f64"@)
    || ends_with(p, "::put_f64_le"@)
    || ends_with(p, "::put_f64_ne"@))
}

pub fn is_buf_write(p: &str) -> (r: bool)
    ensures
        r == spec_is_buf_write(p@),
{
    (str_ends_with(p, "::put_slice")
    || str_ends_with(p, "::put_bytes")
    || str_ends_with(p, "::put")
    || str_ends_with(p, "::put_u8")
    || str_ends_with(p, "::put_i8")
    || str_ends_with(p, "::put_u16")
    || str_ends_with(p, "::put_u16_le")
    || str_ends_with(p, "::put_u16_ne")
    || str_ends_with(p, "::put_i16")
    || str_ends_with(p, "::put_i16_le")
    || str_ends_with(p, "::put_i16_ne")
    || str_ends_with(p, "::put_u32")
    || str_ends_with(p, "::put_u32_le")
    || str_ends_with(p, "::put_u32_ne")
    || str_ends_with(p, "::put_i32")
    || str_ends_with(p, "::put_i32_le")
    || str_ends_with(p, "::put_i32_ne")
    || str_ends_with(p, "::put_u64")
    || str_ends_with(p, "::put_u64_le")
    || str_ends_with(p, "::put_u64_ne")
    || str_ends_with(p, "::put_i64")
    || str_ends_with(p, "::put_i64_le")
    || str_ends_with(p, "::put_i64_ne")
    || str_ends_with(p, "::put_f32")
    || str_ends_with(p, "::put_f32_le")
    || str_ends_with(p, "::put_f32_ne")
    || str_ends_with(p, "::put_f64")
    || str_ends_with(p, "::put_f64_le")
    || str_ends_with(p, "::put_f64_ne"))
}

/// `MaybeUninit::assume_init` and its consuming variants.
pub open spec fn spec_is_maybe_uninit_assume_init(p: Seq<char>) -> bool {
    (contains(p, "MaybeUninit"@) && contains(p, "assume_init"@))
}

pub fn is_maybe_uninit_assume_init(p: &str) -> (r: bool)
    ensures
        r == spec_is_maybe_uninit_assume_init(p@),
{
    (str_contains(p, "MaybeUninit") && str_contains(p, "assume_init"))
}

/// Extracting the raw OS handle from an owned I/O type.
pub open spec fn spec_is_into_raw_fd(p: Seq<char>) -> bool {
    (ends_with(p, "::into_raw_fd"@)
    || ends_with(p, "::into_raw_socket"@)
    || ends_with(p, "::into_raw_handle"@))
}

pub fn is_into_raw_fd(p: &str) -> (r: bool)
    ensures
        r == spec_is_into_raw_fd(p@),
{
    (str_ends_with(p, "::into_raw_fd")
    || str_ends_with(p, "::into_raw_socket")
    || str_ends_with(p, "::into_raw_handle"))
}

/// Reconstituting an owned (or borrowed) I/O type from a raw OS handle.
pub open spec fn spec_is_from_raw_fd_call(p: Seq<char>) -> bool {
    ((ends_with(p, "::from_raw_fd"@)
        || ends_with(p, "::from_raw_socket"@)
        || ends_with(p, "::from_raw_handle"@)
        || ends_with(p, "::from_raw_handle_or_invalid"@))
    || (ends_with(p, "::borrow_raw"@)
        && (contains(p, "BorrowedFd"@) || contains(p, "BorrowedSocket"@))))
}

pub fn is_from_raw_fd_call(p: &str) -> (r: bool)
    ensures
        r == spec_is_from_raw_fd_call(p@),
{
    ((str_ends_with(p, "::from_raw_fd")
        || str_ends_with(p, "::from_raw_socket")
        || str_ends_with(p, "::from_raw_handle")
        || str_ends_with(p, "::from_raw_handle_or_invalid"))
    || (str_ends_with(p, "::borrow_raw")
        && (str_contains(p, "BorrowedFd") || str_contains(p, "BorrowedSocket"))))
}

/// `Guard::defer_destroy` of crossbeam-epoch.
pub open spec fn spec_is_defer_destroy(p: Seq<char>) -> bool {
    (ends_with(p, "::defer_destroy"@) && contains(p, "Guard"@))
}

pub fn is_defer_destroy(p: &str) -> (r: bool)
    ensures
        r == spec_is_defer_destroy(p@),
{
    (str_ends_with(p, "::defer_destroy") && str_contains(p, "Guard"))
}

/// Accessors that return a pointer into the buffer their first argument
/// owns or points into, preserving its provenance: buffer `as_ptr`/`as_mut_ptr`,
/// pointer arithmetic and pointer casts.
pub open spec fn spec_is_owned_buffer_accessor(p: Seq<char>) -> bool {
    ((contains(p, "const_ptr"@)
        || contains(p, "mut_ptr"@)
        || contains(p, "NonNull"@)
        || contains(p, "vec::Vec"@)
        || contains(p, "string::String"@)
        || contains(p, "slice"@))
    && (ends_with(p, "::as_ptr"@)
        || ends_with(p, "::as_mut_ptr"@)
        || ends_with(p, "::as_non_null"@)
        || ends_with(p, "::add"@)
        || ends_with(p, "::sub"@)
        || ends_with(p, "::offset"@)
        || ends_with(p, "::byte_add"@)
        || ends_with(p, "::byte_sub"@)
        || ends_with(p, "::byte_offset"@)
        || ends_with(p, "::wrapping_add"@)
        || ends_with(p, "::wrapping_sub"@)
        || ends_with(p, "::wrapping_offset"@)
        || ends_with(p, "::cast"@)
        || ends_with(p, "::cast_mut"@)
        || ends_with(p, "::cast_const"@)))
}

pub fn is_owned_buffer_accessor(p: &str) -> (r: bool)
    ensures
        r == spec_is_owned_buffer_accessor(p@),
{
    ((str_contains(p, "const_ptr")
        || str_contains(p, "mut_ptr")
        || str_contains(p, "NonNull")
        || str_contains(p, "vec::Vec")
        || str_contains(p, "string::String")
        || str_contains(p, "slice"))
    && (str_ends_with(p, "::as_ptr")
        || str_ends_with(p, "::as_mut_ptr")
        || str_ends_with(p, "::as_non_null")
        || str_ends_with(p, "::add")
        || str_ends_with(p, "::sub")
        || str_ends_with(p, "::offset")
        || str_ends_with(p, "::byte_add")
        || str_ends_with(p, "::byte_sub")
        || str_ends_with(p, "::byte_offset")
        || str_ends_with(p, "::wrapping_add")
        || str_ends_with(p, "::wrapping_sub")
        || str_ends_with(p, "::wrapping_offset")
        || str_ends_with(p, "::cast")
        || str_ends_with(p, "::cast_mut")
        || str_ends_with(p, "::cast_const")))
}

/// Every `lock_api` force-unlock variant is recognised.
pub proof fn lemma_force_unlock_variants(p: Seq<char>)
    ensures
        ends_with(p, "::force_unlock"@) ==> spec_is_force_unlock(p),
        ends_with(p, "::force_unlock_fair"@) ==> spec_is_force_unlock(p),
        ends_with(p, "::force_unlock_read"@) ==> spec_is_force_unlock(p),
        ends_with(p, "::force_unlock_write"@) ==> spec_is_force_unlock(p),
        ends_with(p, "::force_unlock_read_fair"@) ==> spec_is_force_unlock(p),
        ends_with(p, "::force_unlock_write_fair"@) ==> spec_is_force_unlock(p),
{
}

} // verus!
