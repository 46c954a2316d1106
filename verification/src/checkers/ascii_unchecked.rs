//! Detects calls to unsafe ASCII conversion functions:
//! `ascii::Char::from_u8_unchecked`, `ascii::Char::digit_unchecked`,
//! `char::as_ascii_unchecked`, `str::as_ascii_unchecked`,
//! `u8::as_ascii_unchecked`, `[u8]::as_ascii_unchecked`, and `[u8;
//! N]::as_ascii_unchecked`. (Nightly feature `ascii_char`.)

use vstd::prelude::*;
use crate::analysis::dataflow::FlowResults;
use crate::analysis::state::{BlockState, StateView};
use crate::checkers::{CallRule, Finding, Flag, Severity, call_findings, findings_view, opt_chars, run_call_rule};
use crate::mir::{Body, DefId, Operand};
use crate::text::{contains, ends_with, str_contains, str_ends_with};

verus! {

/// Detects calls to unsafe ASCII conversion functions:
/// `ascii::Char::from_u8_unchecked`, `ascii::Char::digit_unchecked`,
/// `char::as_ascii_unchecked`, `str::as_ascii_unchecked`,
/// `u8::as_ascii_unchecked`, `[u8]::as_ascii_unchecked`, and `[u8;
/// N]::as_ascii_unchecked`. (Nightly feature `ascii_char`.)
pub struct AsciiUnchecked;

/// The message `AsciiUnchecked` gives a direct call of `path`, if it reports one.
pub open spec fn ascii_unchecked_message(path: Seq<char>) -> Option<Seq<char>> {
    if ends_with(path, "Char::from_u8_unchecked"@) {
        Some("`ascii::Char::from_u8_unchecked` — byte must be < 128; values >= 128 \
            are not valid ASCII and produce an ascii::Char with an invalid bit \
            pattern (UB); use from_u8() instead"@)
    } else if ends_with(path, "Char::digit_unchecked"@) {
        Some("`ascii::Char::digit_unchecked` — argument must be in 0..=9; any other \
            value produces an invalid ascii::Char (UB); use Char::from_u8 or \
            explicit matching instead"@)
    } else if ends_with(path, "::as_ascii_unchecked"@) && contains(path, "str"@) {
        Some("`str::as_ascii_unchecked` — every byte in the string must be valid \
            ASCII (< 128); a single non-ASCII byte is UB; use str::as_ascii() \
            which returns Option"@)
    } else if ends_with(path, "::as_ascii_unchecked"@) && contains(path, "char"@) {
        Some("`char::as_ascii_unchecked` — char must have code point < 128 (ASCII); \
            non-ASCII chars have no ascii::Char representation — this call is UB \
            for them; use char::as_ascii() which returns Option"@)
    } else if ends_with(path, "::as_ascii_unchecked"@) && (contains(path, "slice"@) || contains(path, "array"@)) {
        Some("`[u8]::as_ascii_unchecked / [u8; N]::as_ascii_unchecked` — every byte \
            in the slice or array must be valid ASCII (< 128); a single byte >= \
            128 is UB; use as_ascii() which returns Option"@)
    } else if ends_with(path, "::as_ascii_unchecked"@) && contains(path, "num"@) {
        Some("`u8::as_ascii_unchecked` — byte must be < 128 (valid ASCII); a byte >= \
            128 has no ascii::Char representation — this call is UB for non-ASCII \
            bytes; use u8::as_ascii() which returns Option"@)
    } else {
        None
    }
}

fn ascii_unchecked_message_of(path: &str) -> (r: Option<String>)
    ensures
        opt_chars(r) == ascii_unchecked_message(path@),
{
    if str_ends_with(path, "Char::from_u8_unchecked") {
        Some("`ascii::Char::from_u8_unchecked` — byte must be < 128; values >= 128 \
            are not valid ASCII and produce an ascii::Char with an invalid bit \
            pattern (UB); use from_u8() instead".to_owned())
    } else if str_ends_with(path, "Char::digit_unchecked") {
        Some("`ascii::Char::digit_unchecked` — argument must be in 0..=9; any other \
            value produces an invalid ascii::Char (UB); use Char::from_u8 or \
            explicit matching instead".to_owned())
    } else if str_ends_with(path, "::as_ascii_unchecked") && str_contains(path, "str") {
        Some("`str::as_ascii_unchecked` — every byte in the string must be valid \
            ASCII (< 128); a single non-ASCII byte is UB; use str::as_ascii() \
            which returns Option".to_owned())
    } else if str_ends_with(path, "::as_ascii_unchecked") && str_contains(path, "char") {
        Some("`char::as_ascii_unchecked` — char must have code point < 128 (ASCII); \
            non-ASCII chars have no ascii::Char representation — this call is UB \
            for them; use char::as_ascii() which returns Option".to_owned())
    } else if str_ends_with(path, "::as_ascii_unchecked") && (str_contains(path, "slice") || str_contains(path, "array")) {
        Some("`[u8]::as_ascii_unchecked / [u8; N]::as_ascii_unchecked` — every byte \
            in the slice or array must be valid ASCII (< 128); a single byte >= \
            128 is UB; use as_ascii() which returns Option".to_owned())
    } else if str_ends_with(path, "::as_ascii_unchecked") && str_contains(path, "num") {
        Some("`u8::as_ascii_unchecked` — byte must be < 128 (valid ASCII); a byte >= \
            128 has no ascii::Char representation — this call is UB for non-ASCII \
            bytes; use u8::as_ascii() which returns Option".to_owned())
    } else {
        None
    }
}

impl CallRule for AsciiUnchecked {
    open spec fn spec_uses_state(&self) -> bool {
        false
    }

    open spec fn spec_flag(&self, body: &Body, callee: DefId, path: Seq<char>, args: Seq<Operand>, pre: Option<StateView>)
        -> Option<(Seq<char>, Severity, Seq<char>)>
    {
        match ascii_unchecked_message(path) {
            Some(m) => Some(("ascii_unchecked"@, Severity::Warning, m)),
            None => None,
        }
    }

    fn uses_state(&self) -> (r: bool) {
        false
    }

    fn flag(&self, body: &Body, callee: DefId, path: &str, args: &Vec<Operand>, pre: &Option<BlockState>) -> (r: Option<Flag>) {
        match ascii_unchecked_message_of(path) {
            Some(m) => Some(("ascii_unchecked", Severity::Warning, m)),
            None => None,
        }
    }
}

impl AsciiUnchecked {
    /// Reports, in block order, each direct call in `body` that
    /// `ascii_unchecked_message` gives a message for.
    pub fn check(&self, body: &Body, flow: &FlowResults) -> (r: Vec<Finding>)
        requires
            body.basic_blocks@.len() <= 0x1_0000_0000,
        ensures
            findings_view(r@) == call_findings(self, body, flow.entry_states@, body.basic_blocks@.len() as int),
    {
        run_call_rule(self, body, flow)
    }
}

} // verus!
