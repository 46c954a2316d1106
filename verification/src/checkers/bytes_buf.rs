//! Detects unsafe operations on `bytes::BytesMut` and related buffer types.

use vstd::prelude::*;
use crate::analysis::dataflow::FlowResults;
use crate::analysis::state::{BlockState, StateView};
use crate::checkers::{CallRule, Finding, Flag, Severity, call_findings, findings_view, opt_chars, run_call_rule};
use crate::mir::{Body, DefId, Operand};
use crate::text::{contains, ends_with, str_contains, str_ends_with};

verus! {

/// Detects unsafe operations on `bytes::BytesMut` and related buffer types.
pub struct BytesBuf;

/// The message `BytesBuf` gives a direct call of `path`, if it reports one.
pub open spec fn bytes_buf_message(path: Seq<char>) -> Option<Seq<char>> {
    if ends_with(path, "::advance_mut"@) && contains(path, "bytes"@) {
        Some("`BufMut::advance_mut` — the first cnt bytes of the unfilled region \
            must be fully initialized BEFORE this call; unwritten bytes become \
            visible to buffer readers (UB); cnt must be <= remaining_mut(); prefer \
            put_slice/put_bytes which write and advance atomically"@)
    } else if ends_with(path, "::set_len"@) && contains(path, "bytes"@) {
        Some("`BytesMut::set_len` — sets buffer length without initializing bytes; \
            if len > capacity this writes into unallocated memory (OOB, UB); if \
            len > current_len without initialization, future reads access \
            uninitialized memory (UB)"@)
    } else if ends_with(path, "::from_raw_parts_mut"@) && contains(path, "UninitSlice"@) {
        Some("`UninitSlice::from_raw_parts_mut` — creates a mutable uninit byte \
            slice from a raw pointer without validity checks; ptr must be \
            non-null, aligned, valid for len bytes of writes, and not aliased by \
            any other reference for the slice's lifetime"@)
    } else if ends_with(path, "::as_uninit_slice_mut"@) && contains(path, "UninitSlice"@) {
        Some("`UninitSlice::as_uninit_slice_mut` — returns the underlying &mut \
            [MaybeUninit<u8>]; reading any byte that has not been written is UB — \
            only write through this slice, then call advance_mut"@)
    } else {
        None
    }
}

fn bytes_buf_message_of(path: &str) -> (r: Option<String>)
    ensures
        opt_chars(r) == bytes_buf_message(path@),
{
    if str_ends_with(path, "::advance_mut") && str_contains(path, "bytes") {
        Some("`BufMut::advance_mut` — the first cnt bytes of the unfilled region \
            must be fully initialized BEFORE this call; unwritten bytes become \
            visible to buffer readers (UB); cnt must be <= remaining_mut(); prefer \
            put_slice/put_bytes which write and advance atomically".to_owned())
    } else if str_ends_with(path, "::set_len") && str_contains(path, "bytes") {
        Some("`BytesMut::set_len` — sets buffer length without initializing bytes; \
            if len > capacity this writes into unallocated memory (OOB, UB); if \
            len > current_len without initialization, future reads access \
            uninitialized memory (UB)".to_owned())
    } else if str_ends_with(path, "::from_raw_parts_mut") && str_contains(path, "UninitSlice") {
        Some("`UninitSlice::from_raw_parts_mut` — creates a mutable uninit byte \
            slice from a raw pointer without validity checks; ptr must be \
            non-null, aligned, valid for len bytes of writes, and not aliased by \
            any other reference for the slice's lifetime".to_owned())
    } else if str_ends_with(path, "::as_uninit_slice_mut") && str_contains(path, "UninitSlice") {
        Some("`UninitSlice::as_uninit_slice_mut` — returns the underlying &mut \
            [MaybeUninit<u8>]; reading any byte that has not been written is UB — \
            only write through this slice, then call advance_mut".to_owned())
    } else {
        None
    }
}

impl CallRule for BytesBuf {
    open spec fn spec_uses_state(&self) -> bool {
        false
    }

    open spec fn spec_flag(&self, body: &Body, callee: DefId, path: Seq<char>, args: Seq<Operand>, pre: Option<StateView>)
        -> Option<(Seq<char>, Severity, Seq<char>)>
    {
        match bytes_buf_message(path) {
            Some(m) => Some(("bytes_buf"@, Severity::Warning, m)),
            None => None,
        }
    }

    fn uses_state(&self) -> (r: bool) {
        false
    }

    fn flag(&self, body: &Body, callee: DefId, path: &str, args: &Vec<Operand>, pre: &Option<BlockState>) -> (r: Option<Flag>) {
        match bytes_buf_message_of(path) {
            Some(m) => Some(("bytes_buf", Severity::Warning, m)),
            None => None,
        }
    }
}

impl BytesBuf {
    /// Reports, in block order, each direct call in `body` that
    /// `bytes_buf_message` gives a message for.
    pub fn check(&self, body: &Body, flow: &FlowResults) -> (r: Vec<Finding>)
        requires
            body.basic_blocks@.len() <= 0x1_0000_0000,
        ensures
            findings_view(r@) == call_findings(self, body, flow.entry_states@, body.basic_blocks@.len() as int),
    {
        run_call_rule(self, body, flow)
    }
}

} // verus!
