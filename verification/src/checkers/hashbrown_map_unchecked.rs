//! Detects unsafe operations on `hashbrown::HashMap`, `HashSet`, and
//! `HashTable` that bypass duplicate or overlap checks.

use vstd::prelude::*;
use crate::analysis::dataflow::FlowResults;
use crate::analysis::state::{BlockState, StateView};
use crate::checkers::{CallRule, Finding, Flag, Severity, call_findings, findings_view, opt_chars, run_call_rule};
use crate::mir::{Body, DefId, Operand};
use crate::text::{contains, ends_with, str_contains, str_ends_with};

verus! {

/// Detects unsafe operations on `hashbrown::HashMap`, `HashSet`, and
/// `HashTable` that bypass duplicate or overlap checks.
pub struct HashbrownMapUnchecked;

/// The message `HashbrownMapUnchecked` gives a direct call of `path`, if it reports one.
pub open spec fn hashbrown_map_unchecked_message(path: Seq<char>) -> Option<Seq<char>> {
    if !(contains(path, "hashbrown"@)) {
        None
    } else if ends_with(path, "::insert_unique_unchecked"@) && contains(path, "HashSet"@) {
        Some("`HashSet::insert_unique_unchecked` — inserts without checking for \
            duplicate values — if the value is already present, the set contains \
            two identical entries, violating uniqueness invariants; use insert() \
            instead"@)
    } else if ends_with(path, "::insert_unique_unchecked"@) && contains(path, "HashMap"@) {
        Some("`HashMap::insert_unique_unchecked` — inserts without checking for \
            duplicate keys — if the key already exists, two entries with the same \
            key are created, causing future lookups to return either one (logical \
            UB); use insert() or entry() instead"@)
    } else if ends_with(path, "::get_many_unchecked_mut"@) {
        Some("`get_many_unchecked_mut` — returns N mutable references without \
            verifying that keys/indices are distinct; duplicate keys produce \
            aliased &mut references to the same value (immediate UB); use \
            get_many_mut() which checks for duplicates and returns None on \
            conflict"@)
    } else if ends_with(path, "::get_many_key_value_unchecked_mut"@) {
        Some("`get_many_key_value_unchecked_mut` — returns N mutable value \
            references alongside key references without checking for duplicate \
            keys; duplicate keys produce aliased &mut V (immediate UB); use \
            get_many_key_value_mut() for the checked alternative"@)
    } else if ends_with(path, "::replace_key_unchecked"@) && contains(path, "hashbrown"@) {
        Some("`OccupiedEntry::replace_key_unchecked` — replaces the key without \
            verifying that the new key hashes to the same bucket; if the new key's \
            hash differs, the entry is now under the wrong bucket — future lookups \
            for the new key will not find it, and the old key is gone too \
            (invisible ghost entry; invariant violation); only safe if old and new \
            keys compare equal under the map's hasher"@)
    } else {
        None
    }
}

fn hashbrown_map_unchecked_message_of(path: &str) -> (r: Option<String>)
    ensures
        opt_chars(r) == hashbrown_map_unchecked_message(path@),
{
    if !(str_contains(path, "hashbrown")) {
        None
    } else if str_ends_with(path, "::insert_unique_unchecked") && str_contains(path, "HashSet") {
        Some("`HashSet::insert_unique_unchecked` — inserts without checking for \
            duplicate values — if the value is already present, the set contains \
            two identical entries, violating uniqueness invariants; use insert() \
            instead".to_owned())
    } else if str_ends_with(path, "::insert_unique_unchecked") && str_contains(path, "HashMap") {
        Some("`HashMap::insert_unique_unchecked` — inserts without checking for \
            duplicate keys — if the key already exists, two entries with the same \
            key are created, causing future lookups to return either one (logical \
            UB); use insert() or entry() instead".to_owned())
    } else if str_ends_with(path, "::get_many_unchecked_mut") {
        Some("`get_many_unchecked_mut` — returns N mutable references without \
            verifying that keys/indices are distinct; duplicate keys produce \
            aliased &mut references to the same value (immediate UB); use \
            get_many_mut() which checks for duplicates and returns None on \
            conflict".to_owned())
    } else if str_ends_with(path, "::get_many_key_value_unchecked_mut") {
        Some("`get_many_key_value_unchecked_mut` — returns N mutable value \
            references alongside key references without checking for duplicate \
            keys; duplicate keys produce aliased &mut V (immediate UB); use \
            get_many_key_value_mut() for the checked alternative".to_owned())
    } else if str_ends_with(path, "::replace_key_unchecked") && str_contains(path, "hashbrown") {
        Some("`OccupiedEntry::replace_key_unchecked` — replaces the key without \
            verifying that the new key hashes to the same bucket; if the new key's \
            hash differs, the entry is now under the wrong bucket — future lookups \
            for the new key will not find it, and the old key is gone too \
            (invisible ghost entry; invariant violation); only safe if old and new \
            keys compare equal under the map's hasher".to_owned())
    } else {
        None
    }
}

impl CallRule for HashbrownMapUnchecked {
    open spec fn spec_uses_state(&self) -> bool {
        false
    }

    open spec fn spec_flag(&self, body: &Body, callee: DefId, path: Seq<char>, args: Seq<Operand>, pre: Option<StateView>)
        -> Option<(Seq<char>, Severity, Seq<char>)>
    {
        match hashbrown_map_unchecked_message(path) {
            Some(m) => Some(("hashbrown_map_unchecked"@, Severity::Warning, m)),
            None => None,
        }
    }

    fn uses_state(&self) -> (r: bool) {
        false
    }

    fn flag(&self, body: &Body, callee: DefId, path: &str, args: &Vec<Operand>, pre: &Option<BlockState>) -> (r: Option<Flag>) {
        match hashbrown_map_unchecked_message_of(path) {
            Some(m) => Some(("hashbrown_map_unchecked", Severity::Warning, m)),
            None => None,
        }
    }
}

impl HashbrownMapUnchecked {
    /// Reports, in block order, each direct call in `body` that
    /// `hashbrown_map_unchecked_message` gives a message for.
    pub fn check(&self, body: &Body, flow: &FlowResults) -> (r: Vec<Finding>)
        requires
            body.basic_blocks@.len() <= 0x1_0000_0000,
        ensures
            findings_view(r@) == call_findings(self, body, flow.entry_states@, body.basic_blocks@.len() as int),
    {
        run_call_rule(self, body, flow)
    }
}

} // verus!
