//! Detects calls to `Box::into_raw`, `Arc::into_raw`, `Rc::into_raw`,
//! `Arc::Weak::into_raw`, `Rc::Weak::into_raw`, `Box::into_raw_with_allocator`,
//! `Arc::into_raw_with_allocator`, `Rc::into_raw_with_allocator`,
//! `Pin::into_inner_unchecked`, `Thread::into_raw`, `Box::into_non_null`,
//! `Vec::into_raw_parts`, `Vec::into_raw_parts_with_alloc`, and
//! `String::into_raw_parts`.

use vstd::prelude::*;
use crate::analysis::dataflow::FlowResults;
use crate::analysis::state::{BlockState, StateView};
use crate::checkers::{CallRule, Finding, Flag, Severity, call_findings, findings_view, opt_chars, run_call_rule};
use crate::mir::{Body, DefId, Operand};
use crate::text::{contains, ends_with, str_contains, str_ends_with};

verus! {

/// Detects calls to `Box::into_raw`, `Arc::into_raw`, `Rc::into_raw`,
/// `Arc::Weak::into_raw`, `Rc::Weak::into_raw`, `Box::into_raw_with_allocator`,
/// `Arc::into_raw_with_allocator`, `Rc::into_raw_with_allocator`,
/// `Pin::into_inner_unchecked`, `Thread::into_raw`, `Box::into_non_null`,
/// `Vec::into_raw_parts`, `Vec::into_raw_parts_with_alloc`, and
/// `String::into_raw_parts`.
pub struct IntoRaw;

/// The message `IntoRaw` gives a direct call of `path`, if it reports one.
pub open spec fn into_raw_message(path: Seq<char>) -> Option<Seq<char>> {
    if ends_with(path, "::into_raw"@) && contains(path, "sync::Weak"@) {
        Some("`Arc::Weak::into_raw` — leaks the Weak reference without decrementing \
            the weak count; the pointer must be passed to exactly one \
            `Weak::from_raw` call — forgetting to call `from_raw` leaks the \
            control block; the strong count is unaffected but the allocation will \
            not be freed until all weak references are dropped"@)
    } else if ends_with(path, "::into_raw"@) && contains(path, "rc::Weak"@) {
        Some("`Rc::Weak::into_raw` — leaks the Weak reference without decrementing \
            the weak count; the pointer must be passed to exactly one \
            `Weak::from_raw` call — forgetting to call `from_raw` leaks the \
            control block; Rc::Weak is not thread-safe"@)
    } else if ends_with(path, "::into_raw"@) && contains(path, "Box"@) {
        Some("`Box::into_raw` — leaks the Box; the pointer must be passed to exactly \
            one `Box::from_raw` call with the same T; forgetting to call \
            `from_raw` leaks memory; calling it twice causes double-free"@)
    } else if ends_with(path, "::into_raw"@) && contains(path, "Arc"@) {
        Some("`Arc::into_raw` — leaks the Arc without decrementing the refcount; the \
            pointer represents one logical Arc that MUST be reconstituted via \
            `Arc::from_raw` exactly once"@)
    } else if ends_with(path, "::into_raw"@) && contains(path, "Rc"@) {
        Some("`Rc::into_raw` — leaks the Rc without decrementing the refcount; the \
            pointer represents one logical Rc that MUST be reconstituted via \
            `Rc::from_raw` exactly once; Rc is not thread-safe"@)
    } else if ends_with(path, "::into_raw_with_allocator"@) && contains(path, "Box"@) {
        Some("`Box::into_raw_with_allocator` — leaks the Box and returns the \
            allocator; the pointer must be passed to exactly one \
            `Box::from_raw_in` call with the same T and the returned allocator; \
            forgetting to call `from_raw_in` leaks memory"@)
    } else if ends_with(path, "::into_raw_with_allocator"@) && contains(path, "Arc"@) {
        Some("`Arc::into_raw_with_allocator` — leaks the Arc without decrementing \
            the refcount; the pointer represents one logical Arc that MUST be \
            reconstituted via `Arc::from_raw_in` with the returned allocator \
            exactly once"@)
    } else if ends_with(path, "::into_raw_with_allocator"@) && contains(path, "Rc"@) {
        Some("`Rc::into_raw_with_allocator` — leaks the Rc without decrementing the \
            refcount; must be reconstituted via `Rc::from_raw_in` with the \
            returned allocator exactly once; Rc is not thread-safe"@)
    } else if ends_with(path, "::into_inner_unchecked"@) && contains(path, "Pin"@) {
        Some("`Pin::into_inner_unchecked` — bypasses pin-safety — only valid if T: \
            Unpin or the value is guaranteed not to move after unpinning; moving a \
            self-referential struct after unpinning corrupts internal pointers"@)
    } else if ends_with(path, "Thread::into_raw"@) {
        Some("`Thread::into_raw` — leaks the Thread handle; the pointer must be \
            passed to exactly one Thread::from_raw call to reconstruct it; \
            forgetting to call from_raw leaks the thread object; calling from_raw \
            twice causes double-free (nightly: #![feature(thread_raw)])"@)
    } else if ends_with(path, "::into_non_null"@) && contains(path, "Box"@) {
        Some("`Box::into_non_null` — leaks the Box as NonNull<T>; must be passed to \
            exactly one Box::from_non_null call with the same T; forgetting leaks \
            memory; calling from_non_null twice causes double-free (nightly: \
            #![feature(box_vec_non_null)])"@)
    } else if ends_with(path, "::into_raw_parts_with_alloc"@) && contains(path, "Vec"@) {
        Some("`Vec::into_raw_parts_with_alloc` — leaks the Vec and returns (ptr, \
            len, cap, allocator); must be reconstituted via Vec::from_raw_parts_in \
            with the same T, exact len/cap, and the returned allocator; forgetting \
            leaks memory, wrong allocator causes heap corruption (nightly \
            `allocator_api`)"@)
    } else if ends_with(path, "::into_raw_parts"@) && contains(path, "Vec"@) {
        Some("`Vec::into_raw_parts` — leaks the Vec and returns (ptr, len, cap); \
            must be reconstituted via Vec::from_raw_parts with the same T, exact \
            len/cap, and the global allocator; forgetting leaks memory; wrong cap \
            causes heap corruption on drop; stable since Rust 1.93"@)
    } else if ends_with(path, "String::into_raw_parts"@) {
        Some("`String::into_raw_parts` — leaks the String and returns (ptr, len, \
            cap); must be reconstituted via String::from_raw_parts with the exact \
            same len/cap and a UTF-8-valid buffer; forgetting leaks memory; wrong \
            cap causes heap corruption on drop; bytes written into the raw buffer \
            must be valid UTF-8 before reconstituting; stable since Rust 1.93"@)
    } else {
        None
    }
}

fn into_raw_message_of(path: &str) -> (r: Option<String>)
    ensures
        opt_chars(r) == into_raw_message(path@),
{
    if str_ends_with(path, "::into_raw") && str_contains(path, "sync::Weak") {
        Some("`Arc::Weak::into_raw` — leaks the Weak reference without decrementing \
            the weak count; the pointer must be passed to exactly one \
            `Weak::from_raw` call — forgetting to call `from_raw` leaks the \
            control block; the strong count is unaffected but the allocation will \
            not be freed until all weak references are dropped".to_owned())
    } else if str_ends_with(path, "::into_raw") && str_contains(path, "rc::Weak") {
        Some("`Rc::Weak::into_raw` — leaks the Weak reference without decrementing \
            the weak count; the pointer must be passed to exactly one \
            `Weak::from_raw` call — forgetting to call `from_raw` leaks the \
            control block; Rc::Weak is not thread-safe".to_owned())
    } else if str_ends_with(path, "::into_raw") && str_contains(path, "Box") {
        Some("`Box::into_raw` — leaks the Box; the pointer must be passed to exactly \
            one `Box::from_raw` call with the same T; forgetting to call \
            `from_raw` leaks memory; calling it twice causes double-free".to_owned())
    } else if str_ends_with(path, "::into_raw") && str_contains(path, "Arc") {
        Some("`Arc::into_raw` — leaks the Arc without decrementing the refcount; the \
            pointer represents one logical Arc that MUST be reconstituted via \
            `Arc::from_raw` exactly once".to_owned())
    } else if str_ends_with(path, "::into_raw") && str_contains(path, "Rc") {
        Some("`Rc::into_raw` — leaks the Rc without decrementing the refcount; the \
            pointer represents one logical Rc that MUST be reconstituted via \
            `Rc::from_raw` exactly once; Rc is not thread-safe".to_owned())
    } else if str_ends_with(path, "::into_raw_with_allocator") && str_contains(path, "Box") {
        Some("`Box::into_raw_with_allocator` — leaks the Box and returns the \
            allocator; the pointer must be passed to exactly one \
            `Box::from_raw_in` call with the same T and the returned allocator; \
            forgetting to call `from_raw_in` leaks memory".to_owned())
    } else if str_ends_with(path, "::into_raw_with_allocator") && str_contains(path, "Arc") {
        Some("`Arc::into_raw_with_allocator` — leaks the Arc without decrementing \
            the refcount; the pointer represents one logical Arc that MUST be \
            reconstituted via `Arc::from_raw_in` with the returned allocator \
            exactly once".to_owned())
    } else if str_ends_with(path, "::into_raw_with_allocator") && str_contains(path, "Rc") {
        Some("`Rc::into_raw_with_allocator` — leaks the Rc without decrementing the \
            refcount; must be reconstituted via `Rc::from_raw_in` with the \
            returned allocator exactly once; Rc is not thread-safe".to_owned())
    } else if str_ends_with(path, "::into_inner_unchecked") && str_contains(path, "Pin") {
        Some("`Pin::into_inner_unchecked` — bypasses pin-safety — only valid if T: \
            Unpin or the value is guaranteed not to move after unpinning; moving a \
            self-referential struct after unpinning corrupts internal pointers".to_owned())
    } else if str_ends_with(path, "Thread::into_raw") {
        Some("`Thread::into_raw` — leaks the Thread handle; the pointer must be \
            passed to exactly one Thread::from_raw call to reconstruct it; \
            forgetting to call from_raw leaks the thread object; calling from_raw \
            twice causes double-free (nightly: #![feature(thread_raw)])".to_owned())
    } else if str_ends_with(path, "::into_non_null") && str_contains(path, "Box") {
        Some("`Box::into_non_null` — leaks the Box as NonNull<T>; must be passed to \
            exactly one Box::from_non_null call with the same T; forgetting leaks \
            memory; calling from_non_null twice causes double-free (nightly: \
            #![feature(box_vec_non_null)])".to_owned())
    } else if str_ends_with(path, "::into_raw_parts_with_alloc") && str_contains(path, "Vec") {
        Some("`Vec::into_raw_parts_with_alloc` — leaks the Vec and returns (ptr, \
            len, cap, allocator); must be reconstituted via Vec::from_raw_parts_in \
            with the same T, exact len/cap, and the returned allocator; forgetting \
            leaks memory, wrong allocator causes heap corruption (nightly \
            `allocator_api`)".to_owned())
    } else if str_ends_with(path, "::into_raw_parts") && str_contains(path, "Vec") {
        Some("`Vec::into_raw_parts` — leaks the Vec and returns (ptr, len, cap); \
            must be reconstituted via Vec::from_raw_parts with the same T, exact \
            len/cap, and the global allocator; forgetting leaks memory; wrong cap \
            causes heap corruption on drop; stable since Rust 1.93".to_owned())
    } else if str_ends_with(path, "String::into_raw_parts") {
        Some("`String::into_raw_parts` — leaks the String and returns (ptr, len, \
            cap); must be reconstituted via String::from_raw_parts with the exact \
            same len/cap and a UTF-8-valid buffer; forgetting leaks memory; wrong \
            cap causes heap corruption on drop; bytes written into the raw buffer \
            must be valid UTF-8 before reconstituting; stable since Rust 1.93".to_owned())
    } else {
        None
    }
}

impl CallRule for IntoRaw {
    open spec fn spec_uses_state(&self) -> bool {
        false
    }

    open spec fn spec_flag(&self, body: &Body, callee: DefId, path: Seq<char>, args: Seq<Operand>, pre: Option<StateView>)
        -> Option<(Seq<char>, Severity, Seq<char>)>
    {
        match into_raw_message(path) {
            Some(m) => Some(("into_raw"@, Severity::Info, m)),
            None => None,
        }
    }

    fn uses_state(&self) -> (r: bool) {
        false
    }

    fn flag(&self, body: &Body, callee: DefId, path: &str, args: &Vec<Operand>, pre: &Option<BlockState>) -> (r: Option<Flag>) {
        match into_raw_message_of(path) {
            Some(m) => Some(("into_raw", Severity::Info, m)),
            None => None,
        }
    }
}

impl IntoRaw {
    /// Reports, in block order, each direct call in `body` that
    /// `into_raw_message` gives a message for.
    pub fn check(&self, body: &Body, flow: &FlowResults) -> (r: Vec<Finding>)
        requires
            body.basic_blocks@.len() <= 0x1_0000_0000,
        ensures
            findings_view(r@) == call_findings(self, body, flow.entry_states@, body.basic_blocks@.len() as int),
    {
        run_call_rule(self, body, flow)
    }
}

} // verus!
