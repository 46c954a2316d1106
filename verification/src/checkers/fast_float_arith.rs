//! Detects calls to the "fast" floating-point arithmetic intrinsics:
//! `fadd_fast`, `fsub_fast`, `fmul_fast`, `fdiv_fast`, and `frem_fast`.

use vstd::prelude::*;
use crate::analysis::dataflow::FlowResults;
use crate::analysis::state::{BlockState, StateView};
use crate::checkers::{CallRule, Finding, Flag, Severity, call_findings, findings_view, opt_chars, run_call_rule};
use crate::mir::{Body, DefId, Operand};
use crate::text::{ends_with, str_ends_with};

verus! {

/// Detects calls to the "fast" floating-point arithmetic intrinsics:
/// `fadd_fast`, `fsub_fast`, `fmul_fast`, `fdiv_fast`, and `frem_fast`.
pub struct FastFloatArith;

/// The message `FastFloatArith` gives a direct call of `path`, if it reports one.
pub open spec fn fast_float_arith_message(path: Seq<char>) -> Option<Seq<char>> {
    if ends_with(path, "fadd_fast"@) {
        Some("`fadd_fast` — both operands must be finite and non-NaN; uses LLVM \
            `fast` flags (nnan + ninf + nsz), allowing the optimizer to assume \
            finite results; NaN or Inf inputs are UB (nightly `core_intrinsics`)"@)
    } else if ends_with(path, "fsub_fast"@) {
        Some("`fsub_fast` — both operands must be finite and non-NaN; the optimizer \
            may assume the result is never ±Inf or NaN; UB if either operand \
            violates this (nightly `core_intrinsics`)"@)
    } else if ends_with(path, "fmul_fast"@) {
        Some("`fmul_fast` — both operands must be finite and non-NaN; multiplicative \
            overflow to ±Inf is UB because the optimizer assumes finite results \
            (nightly `core_intrinsics`)"@)
    } else if ends_with(path, "fdiv_fast"@) {
        Some("`fdiv_fast` — both operands must be finite and non-NaN, divisor must \
            be non-zero; a zero divisor produces ±Inf which is UB under the `ninf` \
            assumption; the optimizer may miscompile surrounding code on this \
            assumption (nightly `core_intrinsics`)"@)
    } else if ends_with(path, "frem_fast"@) {
        Some("`frem_fast` — both operands must be finite and non-NaN, divisor must \
            be non-zero; `rem` of a zero divisor is NaN which violates the `nnan` \
            assumption — UB (nightly `core_intrinsics`)"@)
    } else {
        None
    }
}

fn fast_float_arith_message_of(path: &str) -> (r: Option<String>)
    ensures
        opt_chars(r) == fast_float_arith_message(path@),
{
    if str_ends_with(path, "fadd_fast") {
        Some("`fadd_fast` — both operands must be finite and non-NaN; uses LLVM \
            `fast` flags (nnan + ninf + nsz), allowing the optimizer to assume \
            finite results; NaN or Inf inputs are UB (nightly `core_intrinsics`)".to_owned())
    } else if str_ends_with(path, "fsub_fast") {
        Some("`fsub_fast` — both operands must be finite and non-NaN; the optimizer \
            may assume the result is never ±Inf or NaN; UB if either operand \
            violates this (nightly `core_intrinsics`)".to_owned())
    } else if str_ends_with(path, "fmul_fast") {
        Some("`fmul_fast` — both operands must be finite and non-NaN; multiplicative \
            overflow to ±Inf is UB because the optimizer assumes finite results \
            (nightly `core_intrinsics`)".to_owned())
    } else if str_ends_with(path, "fdiv_fast") {
        Some("`fdiv_fast` — both operands must be finite and non-NaN, divisor must \
            be non-zero; a zero divisor produces ±Inf which is UB under the `ninf` \
            assumption; the optimizer may miscompile surrounding code on this \
            assumption (nightly `core_intrinsics`)".to_owned())
    } else if str_ends_with(path, "frem_fast") {
        Some("`frem_fast` — both operands must be finite and non-NaN, divisor must \
            be non-zero; `rem` of a zero divisor is NaN which violates the `nnan` \
            assumption — UB (nightly `core_intrinsics`)".to_owned())
    } else {
        None
    }
}

impl CallRule for FastFloatArith {
    open spec fn spec_uses_state(&self) -> bool {
        false
    }

    open spec fn spec_flag(&self, body: &Body, callee: DefId, path: Seq<char>, args: Seq<Operand>, pre: Option<StateView>)
        -> Option<(Seq<char>, Severity, Seq<char>)>
    {
        match fast_float_arith_message(path) {
            Some(m) => Some(("fast_float_arith"@, Severity::Warning, m)),
            None => None,
        }
    }

    fn uses_state(&self) -> (r: bool) {
        false
    }

    fn flag(&self, body: &Body, callee: DefId, path: &str, args: &Vec<Operand>, pre: &Option<BlockState>) -> (r: Option<Flag>) {
        match fast_float_arith_message_of(path) {
            Some(m) => Some(("fast_float_arith", Severity::Warning, m)),
            None => None,
        }
    }
}

impl FastFloatArith {
    /// Reports, in block order, each direct call in `body` that
    /// `fast_float_arith_message` gives a message for.
    pub fn check(&self, body: &Body, flow: &FlowResults) -> (r: Vec<Finding>)
        requires
            body.basic_blocks@.len() <= 0x1_0000_0000,
        ensures
            findings_view(r@) == call_findings(self, body, flow.entry_states@, body.basic_blocks@.len() as int),
    {
        run_call_rule(self, body, flow)
    }
}

} // verus!
