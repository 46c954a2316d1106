//! Detects unsafe operations on `hashbrown::raw::RawTable` and
//! `hashbrown::raw::Bucket`.

use vstd::prelude::*;
use crate::analysis::dataflow::FlowResults;
use crate::analysis::state::{BlockState, StateView};
use crate::checkers::{CallRule, Finding, Flag, Severity, call_findings, findings_view, opt_chars, run_call_rule};
use crate::mir::{Body, DefId, Operand};
use crate::text::{contains, ends_with, str_contains, str_ends_with};

verus! {

/// Detects unsafe operations on `hashbrown::raw::RawTable` and
/// `hashbrown::raw::Bucket`.
pub struct HashbrownRaw;

/// The message `HashbrownRaw` gives a direct call of `path`, if it reports one.
pub open spec fn hashbrown_raw_message(path: Seq<char>) -> Option<Seq<char>> {
    if !(contains(path, "hashbrown"@)) {
        None
    } else if ends_with(path, "::insert_no_grow"@) {
        Some("`RawTable::insert_no_grow` — inserts without checking capacity — table \
            must have a free slot; if full, this corrupts control bytes or \
            overwrites an occupied slot (UB); hash must match the key stored in \
            value, or future lookups will miss it; call reserve() before inserting \
            if capacity is uncertain"@)
    } else if ends_with(path, "::as_mut"@) && contains(path, "Bucket"@) {
        Some("`Bucket::as_mut` — bucket must be occupied (not erased/empty) — \
            reading an empty bucket is UB (uninitialized memory); no other \
            reference to this element may exist simultaneously (aliased &mut T is \
            UB); bucket pointer is invalidated by any subsequent table resize or \
            rehash"@)
    } else if ends_with(path, "::as_ref"@) && contains(path, "Bucket"@) {
        Some("`Bucket::as_ref` — bucket must be occupied (not erased/empty) — \
            reading an empty bucket is UB (uninitialized memory); bucket pointer \
            is invalidated by any subsequent table resize or rehash (e.g. after \
            insert or reserve)"@)
    } else if ends_with(path, "::erase"@) && contains(path, "RawTable"@) {
        Some("`RawTable::erase` — marks the bucket as empty but does NOT drop the \
            value — if the value owns heap memory, it leaks; read and drop the \
            value before erasing (or use remove() which returns ownership); after \
            erasing, the bucket pointer is invalid"@)
    } else if ends_with(path, "::remove"@) && contains(path, "RawTable"@) {
        Some("`RawTable::remove` — bucket must be occupied; calling on an empty \
            bucket is UB; moves out the value (returns ownership) and marks the \
            slot empty; after calling, the bucket pointer is invalid"@)
    } else if ends_with(path, "::get_bucket_unchecked"@) && contains(path, "HashTable"@) {
        Some("`HashTable::get_bucket_unchecked` — index must correspond to an \
            occupied bucket; reading an empty or out-of-bounds bucket is UB \
            (uninitialized memory); there is no bounds check — index must be < \
            table.capacity(); use find() for safe access"@)
    } else if ends_with(path, "::get_bucket_unchecked_mut"@) && contains(path, "HashTable"@) {
        Some("`HashTable::get_bucket_unchecked_mut` — index must correspond to an \
            occupied bucket; reading or writing an empty or out-of-bounds bucket \
            is UB; no other reference to this bucket entry may exist \
            simultaneously (aliased &mut T is UB)"@)
    } else if ends_with(path, "::get_bucket_entry_unchecked"@) && contains(path, "HashTable"@) {
        Some("`HashTable::get_bucket_entry_unchecked` — index must correspond to an \
            occupied bucket; accessing an empty or out-of-bounds bucket is UB; the \
            returned OccupiedEntry must not outlive a concurrent resize or rehash"@)
    } else if ends_with(path, "::insert_in_slot"@) && contains(path, "hashbrown"@) {
        Some("`RawTable::insert_in_slot` — slot must have been returned by \
            find_or_find_insert_slot on this same table and must not have been \
            invalidated by any subsequent insert, reserve, or grow; hash must be \
            the actual hash of the key stored in value — a mismatch causes future \
            lookups to miss the entry (logical UB)"@)
    } else if ends_with(path, "::is_bucket_full"@) && contains(path, "hashbrown"@) {
        Some("`RawTable::is_bucket_full` — index must be < table.buckets(); reading \
            the control byte of an out-of-bounds index is UB (reads past the \
            allocated control array)"@)
    } else if ends_with(path, "::iter_hash"@) && contains(path, "hashbrown"@) {
        Some("`RawTable::iter_hash` — iterates over all buckets whose stored hash \
            matches the given hash; the caller must compare the actual key of each \
            returned bucket to detect hash collisions — treating the first hit as \
            the target entry without equality check may access the wrong value \
            (logical UB); the table must not be mutated while the RawIterHash is \
            live"@)
    } else {
        None
    }
}

fn hashbrown_raw_message_of(path: &str) -> (r: Option<String>)
    ensures
        opt_chars(r) == hashbrown_raw_message(path@),
{
    if !(str_contains(path, "hashbrown")) {
        None
    } else if str_ends_with(path, "::insert_no_grow") {
        Some("`RawTable::insert_no_grow` — inserts without checking capacity — table \
            must have a free slot; if full, this corrupts control bytes or \
            overwrites an occupied slot (UB); hash must match the key stored in \
            value, or future lookups will miss it; call reserve() before inserting \
            if capacity is uncertain".to_owned())
    } else if str_ends_with(path, "::as_mut") && str_contains(path, "Bucket") {
        Some("`Bucket::as_mut` — bucket must be occupied (not erased/empty) — \
            reading an empty bucket is UB (uninitialized memory); no other \
            reference to this element may exist simultaneously (aliased &mut T is \
            UB); bucket pointer is invalidated by any subsequent table resize or \
            rehash".to_owned())
    } else if str_ends_with(path, "::as_ref") && str_contains(path, "Bucket") {
        Some("`Bucket::as_ref` — bucket must be occupied (not erased/empty) — \
            reading an empty bucket is UB (uninitialized memory); bucket pointer \
            is invalidated by any subsequent table resize or rehash (e.g. after \
            insert or reserve)".to_owned())
    } else if str_ends_with(path, "::erase") && str_contains(path, "RawTable") {
        Some("`RawTable::erase` — marks the bucket as empty but does NOT drop the \
            value — if the value owns heap memory, it leaks; read and drop the \
            value before erasing (or use remove() which returns ownership); after \
            erasing, the bucket pointer is invalid".to_owned())
    } else if str_ends_with(path, "::remove") && str_contains(path, "RawTable") {
        Some("`RawTable::remove` — bucket must be occupied; calling on an empty \
            bucket is UB; moves out the value (returns ownership) and marks the \
            slot empty; after calling, the bucket pointer is invalid".to_owned())
    } else if str_ends_with(path, "::get_bucket_unchecked") && str_contains(path, "HashTable") {
        Some("`HashTable::get_bucket_unchecked` — index must correspond to an \
            occupied bucket; reading an empty or out-of-bounds bucket is UB \
            (uninitialized memory); there is no bounds check — index must be < \
            table.capacity(); use find() for safe access".to_owned())
    } else if str_ends_with(path, "::get_bucket_unchecked_mut") && str_contains(path, "HashTable") {
        Some("`HashTable::get_bucket_unchecked_mut` — index must correspond to an \
            occupied bucket; reading or writing an empty or out-of-bounds bucket \
            is UB; no other reference to this bucket entry may exist \
            simultaneously (aliased &mut T is UB)".to_owned())
    } else if str_ends_with(path, "::get_bucket_entry_unchecked") && str_contains(path, "HashTable") {
        Some("`HashTable::get_bucket_entry_unchecked` — index must correspond to an \
            occupied bucket; accessing an empty or out-of-bounds bucket is UB; the \
            returned OccupiedEntry must not outlive a concurrent resize or rehash".to_owned())
    } else if str_ends_with(path, "::insert_in_slot") && str_contains(path, "hashbrown") {
        Some("`RawTable::insert_in_slot` — slot must have been returned by \
            find_or_find_insert_slot on this same table and must not have been \
            invalidated by any subsequent insert, reserve, or grow; hash must be \
            the actual hash of the key stored in value — a mismatch causes future \
            lookups to miss the entry (logical UB)".to_owned())
    } else if str_ends_with(path, "::is_bucket_full") && str_contains(path, "hashbrown") {
        Some("`RawTable::is_bucket_full` — index must be < table.buckets(); reading \
            the control byte of an out-of-bounds index is UB (reads past the \
            allocated control array)".to_owned())
    } else if str_ends_with(path, "::iter_hash") && str_contains(path, "hashbrown") {
        Some("`RawTable::iter_hash` — iterates over all buckets whose stored hash \
            matches the given hash; the caller must compare the actual key of each \
            returned bucket to detect hash collisions — treating the first hit as \
            the target entry without equality check may access the wrong value \
            (logical UB); the table must not be mutated while the RawIterHash is \
            live".to_owned())
    } else {
        None
    }
}

impl CallRule for HashbrownRaw {
    open spec fn spec_uses_state(&self) -> bool {
        false
    }

    open spec fn spec_flag(&self, body: &Body, callee: DefId, path: Seq<char>, args: Seq<Operand>, pre: Option<StateView>)
        -> Option<(Seq<char>, Severity, Seq<char>)>
    {
        match hashbrown_raw_message(path) {
            Some(m) => Some(("hashbrown_raw"@, Severity::Warning, m)),
            None => None,
        }
    }

    fn uses_state(&self) -> (r: bool) {
        false
    }

    fn flag(&self, body: &Body, callee: DefId, path: &str, args: &Vec<Operand>, pre: &Option<BlockState>) -> (r: Option<Flag>) {
        match hashbrown_raw_message_of(path) {
            Some(m) => Some(("hashbrown_raw", Severity::Warning, m)),
            None => None,
        }
    }
}

impl HashbrownRaw {
    /// Reports, in block order, each direct call in `body` that
    /// `hashbrown_raw_message` gives a message for.
    pub fn check(&self, body: &Body, flow: &FlowResults) -> (r: Vec<Finding>)
        requires
            body.basic_blocks@.len() <= 0x1_0000_0000,
        ensures
            findings_view(r@) == call_findings(self, body, flow.entry_states@, body.basic_blocks@.len() as int),
    {
        run_call_rule(self, body, flow)
    }
}

} // verus!
