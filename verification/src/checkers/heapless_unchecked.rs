//! Detects calls to unsafe operations on `heapless` fixed-capacity collections.

use vstd::prelude::*;
use crate::analysis::dataflow::FlowResults;
use crate::analysis::state::{BlockState, StateView};
use crate::checkers::{CallRule, Finding, Flag, Severity, call_findings, findings_view, opt_chars, run_call_rule};
use crate::mir::{Body, DefId, Operand};
use crate::text::{contains, ends_with, str_contains, str_ends_with};

verus! {

/// Detects calls to unsafe operations on `heapless` fixed-capacity collections.
pub struct HeaplessUnchecked;

/// The message `HeaplessUnchecked` gives a direct call of `path`, if it reports one.
pub open spec fn heapless_unchecked_message(path: Seq<char>) -> Option<Seq<char>> {
    if !(contains(path, "heapless"@)) {
        None
    } else if ends_with(path, "::push_unchecked"@) {
        Some("`heapless::Vec::push_unchecked` — no bounds check — if len == N \
            (compile-time capacity), this writes one element past the end of the \
            inline array (OOB write, immediate UB); use push() which returns Err \
            on overflow"@)
    } else if ends_with(path, "::pop_unchecked"@) {
        Some("`heapless::Vec::pop_unchecked` — no empty check — if len == 0, this \
            reads one slot before the start of the inline array (OOB read, \
            immediate UB); use pop() → Option<T>"@)
    } else if ends_with(path, "::swap_remove_unchecked"@) {
        Some("`heapless::Vec::swap_remove_unchecked` — no bounds check on index — if \
            index >= len, this reads/writes past the end of the inline array (OOB, \
            immediate UB); use swap_remove() which panics on out-of-bounds"@)
    } else if ends_with(path, "::set_len"@) {
        Some("`heapless::Vec::set_len` — new_len must be ≤ N (compile-time capacity) \
            and all elements in old_len..new_len must be initialized; \
            uninitialized elements are dropped when the Vec is dropped (reads from \
            uninit bytes, UB)"@)
    } else if ends_with(path, "::push_front_unchecked"@) {
        Some("`heapless::Deque::push_front_unchecked` — no capacity check — if len \
            == N, pushes past the end of the ring buffer (OOB write, immediate \
            UB); use push_front() → Result"@)
    } else if ends_with(path, "::push_back_unchecked"@) {
        Some("`heapless::Deque::push_back_unchecked` — no capacity check — if len == \
            N, pushes past the end of the ring buffer (OOB write, immediate UB); \
            use push_back() → Result"@)
    } else if ends_with(path, "::pop_front_unchecked"@) {
        Some("`heapless::Deque::pop_front_unchecked` — no empty check — if the deque \
            is empty this reads uninitialized memory (immediate UB); use \
            pop_front() → Option<T>"@)
    } else if ends_with(path, "::pop_back_unchecked"@) {
        Some("`heapless::Deque::pop_back_unchecked` — no empty check — if the deque \
            is empty this reads uninitialized memory (immediate UB); use \
            pop_back() → Option<T>"@)
    } else if ends_with(path, "::enqueue_unchecked"@) && contains(path, "spsc"@) {
        Some("`heapless::spsc::Producer::enqueue_unchecked` — no capacity check — if \
            the SPSC queue is full this writes past the end of the ring buffer \
            (OOB write, immediate UB); use enqueue() → Result"@)
    } else if ends_with(path, "::dequeue_unchecked"@) && contains(path, "spsc"@) {
        Some("`heapless::spsc::Consumer::dequeue_unchecked` — no empty check — if \
            the SPSC queue is empty this reads uninitialized or recycled memory \
            (immediate UB); use dequeue() → Option<T>"@)
    } else {
        None
    }
}

fn heapless_unchecked_message_of(path: &str) -> (r: Option<String>)
    ensures
        opt_chars(r) == heapless_unchecked_message(path@),
{
    if !(str_contains(path, "heapless")) {
        None
    } else if str_ends_with(path, "::push_unchecked") {
        Some("`heapless::Vec::push_unchecked` — no bounds check — if len == N \
            (compile-time capacity), this writes one element past the end of the \
            inline array (OOB write, immediate UB); use push() which returns Err \
            on overflow".to_owned())
    } else if str_ends_with(path, "::pop_unchecked") {
        Some("`heapless::Vec::pop_unchecked` — no empty check — if len == 0, this \
            reads one slot before the start of the inline array (OOB read, \
            immediate UB); use pop() → Option<T>".to_owned())
    } else if str_ends_with(path, "::swap_remove_unchecked") {
        Some("`heapless::Vec::swap_remove_unchecked` — no bounds check on index — if \
            index >= len, this reads/writes past the end of the inline array (OOB, \
            immediate UB); use swap_remove() which panics on out-of-bounds".to_owned())
    } else if str_ends_with(path, "::set_len") {
        Some("`heapless::Vec::set_len` — new_len must be ≤ N (compile-time capacity) \
            and all elements in old_len..new_len must be initialized; \
            uninitialized elements are dropped when the Vec is dropped (reads from \
            uninit bytes, UB)".to_owned())
    } else if str_ends_with(path, "::push_front_unchecked") {
        Some("`heapless::Deque::push_front_unchecked` — no capacity check — if len \
            == N, pushes past the end of the ring buffer (OOB write, immediate \
            UB); use push_front() → Result".to_owned())
    } else if str_ends_with(path, "::push_back_unchecked") {
        Some("`heapless::Deque::push_back_unchecked` — no capacity check — if len == \
            N, pushes past the end of the ring buffer (OOB write, immediate UB); \
            use push_back() → Result".to_owned())
    } else if str_ends_with(path, "::pop_front_unchecked") {
        Some("`heapless::Deque::pop_front_unchecked` — no empty check — if the deque \
            is empty this reads uninitialized memory (immediate UB); use \
            pop_front() → Option<T>".to_owned())
    } else if str_ends_with(path, "::pop_back_unchecked") {
        Some("`heapless::Deque::pop_back_unchecked` — no empty check — if the deque \
            is empty this reads uninitialized memory (immediate UB); use \
            pop_back() → Option<T>".to_owned())
    } else if str_ends_with(path, "::enqueue_unchecked") && str_contains(path, "spsc") {
        Some("`heapless::spsc::Producer::enqueue_unchecked` — no capacity check — if \
            the SPSC queue is full this writes past the end of the ring buffer \
            (OOB write, immediate UB); use enqueue() → Result".to_owned())
    } else if str_ends_with(path, "::dequeue_unchecked") && str_contains(path, "spsc") {
        Some("`heapless::spsc::Consumer::dequeue_unchecked` — no empty check — if \
            the SPSC queue is empty this reads uninitialized or recycled memory \
            (immediate UB); use dequeue() → Option<T>".to_owned())
    } else {
        None
    }
}

impl CallRule for HeaplessUnchecked {
    open spec fn spec_uses_state(&self) -> bool {
        false
    }

    open spec fn spec_flag(&self, body: &Body, callee: DefId, path: Seq<char>, args: Seq<Operand>, pre: Option<StateView>)
        -> Option<(Seq<char>, Severity, Seq<char>)>
    {
        match heapless_unchecked_message(path) {
            Some(m) => Some(("heapless_unchecked"@, Severity::Warning, m)),
            None => None,
        }
    }

    fn uses_state(&self) -> (r: bool) {
        false
    }

    fn flag(&self, body: &Body, callee: DefId, path: &str, args: &Vec<Operand>, pre: &Option<BlockState>) -> (r: Option<Flag>) {
        match heapless_unchecked_message_of(path) {
            Some(m) => Some(("heapless_unchecked", Severity::Warning, m)),
            None => None,
        }
    }
}

impl HeaplessUnchecked {
    /// Reports, in block order, each direct call in `body` that
    /// `heapless_unchecked_message` gives a message for.
    pub fn check(&self, body: &Body, flow: &FlowResults) -> (r: Vec<Finding>)
        requires
            body.basic_blocks@.len() <= 0x1_0000_0000,
        ensures
            findings_view(r@) == call_findings(self, body, flow.entry_states@, body.basic_blocks@.len() as int),
    {
        run_call_rule(self, body, flow)
    }
}

} // verus!
