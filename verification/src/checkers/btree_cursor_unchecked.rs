//! Detects calls to `CursorMut::insert_after_unchecked`,
//! `CursorMut::insert_before_unchecked`, and `CursorMut::with_mutable_key` on
//! `BTreeMap`/`BTreeSet` (nightly, feature `btree_cursors`, tracking issue
//! #107540).

use vstd::prelude::*;
use crate::analysis::dataflow::FlowResults;
use crate::analysis::state::{BlockState, StateView};
use crate::checkers::{CallRule, Finding, Flag, Severity, call_findings, findings_view, opt_chars, run_call_rule};
use crate::mir::{Body, DefId, Operand};
use crate::text::{contains, ends_with, str_contains, str_ends_with};

verus! {

/// Detects calls to `CursorMut::insert_after_unchecked`,
/// `CursorMut::insert_before_unchecked`, and `CursorMut::with_mutable_key` on
/// `BTreeMap`/`BTreeSet` (nightly, feature `btree_cursors`, tracking issue
/// #107540).
pub struct BTreeCursorUnchecked;

/// The message `BTreeCursorUnchecked` gives a direct call of `path`, if it reports one.
pub open spec fn btree_cursor_unchecked_message(path: Seq<char>) -> Option<Seq<char>> {
    if !(contains(path, "CursorMut"@)) {
        None
    } else if ends_with(path, "::insert_after_unchecked"@) {
        Some("`CursorMut::insert_after_unchecked` — key must not already exist in \
            the map; key must be greater than all keys before the cursor and less \
            than the key immediately after; invariant violation silently corrupts \
            the BTree structure"@)
    } else if ends_with(path, "::insert_before_unchecked"@) {
        Some("`CursorMut::insert_before_unchecked` — key must not already exist in \
            the map; key must be greater than the key immediately before the \
            cursor and less than all keys after; invariant violation silently \
            corrupts the BTree structure"@)
    } else if ends_with(path, "::with_mutable_key"@) {
        Some("`CursorMut::with_mutable_key` — returns CursorMutKey which allows \
            direct mutation of keys; caller must maintain the BTree invariant: \
            keys must remain in sorted order and be unique after any mutation; \
            violating the ordering silently corrupts traversal and all subsequent \
            map operations (nightly feature `btree_cursors`, tracking issue \
            #107540)"@)
    } else {
        None
    }
}

fn btree_cursor_unchecked_message_of(path: &str) -> (r: Option<String>)
    ensures
        opt_chars(r) == btree_cursor_unchecked_message(path@),
{
    if !(str_contains(path, "CursorMut")) {
        None
    } else if str_ends_with(path, "::insert_after_unchecked") {
        Some("`CursorMut::insert_after_unchecked` — key must not already exist in \
            the map; key must be greater than all keys before the cursor and less \
            than the key immediately after; invariant violation silently corrupts \
            the BTree structure".to_owned())
    } else if str_ends_with(path, "::insert_before_unchecked") {
        Some("`CursorMut::insert_before_unchecked` — key must not already exist in \
            the map; key must be greater than the key immediately before the \
            cursor and less than all keys after; invariant violation silently \
            corrupts the BTree structure".to_owned())
    } else if str_ends_with(path, "::with_mutable_key") {
        Some("`CursorMut::with_mutable_key` — returns CursorMutKey which allows \
            direct mutation of keys; caller must maintain the BTree invariant: \
            keys must remain in sorted order and be unique after any mutation; \
            violating the ordering silently corrupts traversal and all subsequent \
            map operations (nightly feature `btree_cursors`, tracking issue \
            #107540)".to_owned())
    } else {
        None
    }
}

impl CallRule for BTreeCursorUnchecked {
    open spec fn spec_uses_state(&self) -> bool {
        false
    }

    open spec fn spec_flag(&self, body: &Body, callee: DefId, path: Seq<char>, args: Seq<Operand>, pre: Option<StateView>)
        -> Option<(Seq<char>, Severity, Seq<char>)>
    {
        match btree_cursor_unchecked_message(path) {
            Some(m) => Some(("btree_cursor_unchecked"@, Severity::Warning, m)),
            None => None,
        }
    }

    fn uses_state(&self) -> (r: bool) {
        false
    }

    fn flag(&self, body: &Body, callee: DefId, path: &str, args: &Vec<Operand>, pre: &Option<BlockState>) -> (r: Option<Flag>) {
        match btree_cursor_unchecked_message_of(path) {
            Some(m) => Some(("btree_cursor_unchecked", Severity::Warning, m)),
            None => None,
        }
    }
}

impl BTreeCursorUnchecked {
    /// Reports, in block order, each direct call in `body` that
    /// `btree_cursor_unchecked_message` gives a message for.
    pub fn check(&self, body: &Body, flow: &FlowResults) -> (r: Vec<Finding>)
        requires
            body.basic_blocks@.len() <= 0x1_0000_0000,
        ensures
            findings_view(r@) == call_findings(self, body, flow.entry_states@, body.basic_blocks@.len() as int),
    {
        run_call_rule(self, body, flow)
    }
}

} // verus!
