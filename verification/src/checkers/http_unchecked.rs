//! Detects calls to `http::HeaderValue::from_maybe_shared_unchecked`.

use vstd::prelude::*;
use crate::analysis::dataflow::FlowResults;
use crate::analysis::state::{BlockState, StateView};
use crate::checkers::{CallRule, Finding, Flag, Severity, call_findings, findings_view, opt_chars, run_call_rule};
use crate::mir::{Body, DefId, Operand};
use crate::text::{contains, ends_with, same, str_contains, str_ends_with, str_eq};

verus! {

/// Detects calls to `http::HeaderValue::from_maybe_shared_unchecked`.
pub struct HttpUnchecked;

/// The message `HttpUnchecked` gives a direct call of `path`, if it reports one.
pub open spec fn http_unchecked_message(path: Seq<char>) -> Option<Seq<char>> {
    if same(path, "http::HeaderValue::from_maybe_shared_unchecked"@) || (ends_with(path, "::from_maybe_shared_unchecked"@) && contains(path, "HeaderValue"@)) {
        Some("`HeaderValue::from_maybe_shared_unchecked` — skips byte validation; \
            bytes outside visible ASCII or containing \\r\\n enable HTTP header \
            injection (CRLF injection / response splitting); in release builds the \
            debug-mode panic is silently absent; use from_bytes() or from_str() \
            instead"@)
    } else {
        None
    }
}

fn http_unchecked_message_of(path: &str) -> (r: Option<String>)
    ensures
        opt_chars(r) == http_unchecked_message(path@),
{
    if str_eq(path, "http::HeaderValue::from_maybe_shared_unchecked") || (str_ends_with(path, "::from_maybe_shared_unchecked") && str_contains(path, "HeaderValue")) {
        Some("`HeaderValue::from_maybe_shared_unchecked` — skips byte validation; \
            bytes outside visible ASCII or containing \\r\\n enable HTTP header \
            injection (CRLF injection / response splitting); in release builds the \
            debug-mode panic is silently absent; use from_bytes() or from_str() \
            instead".to_owned())
    } else {
        None
    }
}

impl CallRule for HttpUnchecked {
    open spec fn spec_uses_state(&self) -> bool {
        false
    }

    open spec fn spec_flag(&self, body: &Body, callee: DefId, path: Seq<char>, args: Seq<Operand>, pre: Option<StateView>)
        -> Option<(Seq<char>, Severity, Seq<char>)>
    {
        match http_unchecked_message(path) {
            Some(m) => Some(("http_unchecked"@, Severity::Warning, m)),
            None => None,
        }
    }

    fn uses_state(&self) -> (r: bool) {
        false
    }

    fn flag(&self, body: &Body, callee: DefId, path: &str, args: &Vec<Operand>, pre: &Option<BlockState>) -> (r: Option<Flag>) {
        match http_unchecked_message_of(path) {
            Some(m) => Some(("http_unchecked", Severity::Warning, m)),
            None => None,
        }
    }
}

impl HttpUnchecked {
    /// Reports, in block order, each direct call in `body` that
    /// `http_unchecked_message` gives a message for.
    pub fn check(&self, body: &Body, flow: &FlowResults) -> (r: Vec<Finding>)
        requires
            body.basic_blocks@.len() <= 0x1_0000_0000,
        ensures
            findings_view(r@) == call_findings(self, body, flow.entry_states@, body.basic_blocks@.len() as int),
    {
        run_call_rule(self, body, flow)
    }
}

} // verus!
