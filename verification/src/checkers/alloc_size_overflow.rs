//! Detects `Layout::from_size_align_unchecked(size, _)` where `size` came
//! from a multiplication or addition that can exceed `isize::MAX` without an
//! overflow check.
//!
//! `Layout::from_size_align_unchecked` requires `size` to fit in `isize`.
//! When `size = n * size_of::<T>()` wraps, the allocator receives a small
//! size and later writes based on the intended count overflow the
//! allocation. The rule fires only for a size local in the state's
//! `mul_overflow` set: the statement transfer puts there the result of each
//! multiplication or addition whose operands' proven upper bounds do not
//! keep it within `isize::MAX`, and carries it through copies and moves.

use vstd::prelude::*;
use crate::analysis::dataflow::FlowResults;
use crate::analysis::facts::{first_arg_local, spec_first_arg_local};
use crate::analysis::state::{BlockState, StateView};
use crate::checkers::{CallRule, Finding, Flag, Severity, call_findings, findings_view, run_call_rule};
use crate::mir::{Body, DefId, Operand};
use crate::text::{ends_with, str_ends_with};

verus! {

/// Detects `Layout::from_size_align_unchecked` calls whose size may have
/// overflowed.
pub struct AllocSizeOverflow;

pub open spec fn alloc_size_overflow_message() -> Seq<char> {
    "`Layout::from_size_align_unchecked` — size argument came from \
        arithmetic (mul/add) that can exceed isize::MAX without overflow \
        check; wrapping produces a too-small allocation and heap overflow \
        on subsequent writes; use `Layout::array::<T>(n)` or \
        `n.checked_mul(size_of::<T>())` to handle overflow safely"@
}

/// The call is a layout constructor and its size argument is a plain local
/// in the state's `mul_overflow` set.
pub open spec fn size_may_overflow(path: Seq<char>, args: Seq<Operand>, pre: Option<StateView>) -> bool {
    &&& (ends_with(path, "Layout::from_size_align_unchecked"@)
        || ends_with(path, "Layout::from_size_alignment_unchecked"@))
    &&& spec_first_arg_local(args) is Some
    &&& pre is Some
    &&& pre->0.mul_overflow.contains(spec_first_arg_local(args)->0)
}

impl CallRule for AllocSizeOverflow {
    open spec fn spec_uses_state(&self) -> bool {
        true
    }

    open spec fn spec_flag(&self, body: &Body, callee: DefId, path: Seq<char>, args: Seq<Operand>, pre: Option<StateView>)
        -> Option<(Seq<char>, Severity, Seq<char>)>
    {
        if size_may_overflow(path, args, pre) {
            Some(("alloc_size_overflow"@, Severity::Warning, alloc_size_overflow_message()))
        } else {
            None
        }
    }

    fn uses_state(&self) -> (r: bool) {
        true
    }

    fn flag(&self, body: &Body, callee: DefId, path: &str, args: &Vec<Operand>, pre: &Option<BlockState>) -> (r: Option<Flag>) {
        if !str_ends_with(path, "Layout::from_size_align_unchecked")
            && !str_ends_with(path, "Layout::from_size_alignment_unchecked") {
            return None;
        }
        let size = match first_arg_local(args) {
            Some(l) => l,
            None => return None,
        };
        match pre {
            Some(state) => {
                if state.mul_overflow.contains(size) {
                    Some(("alloc_size_overflow", Severity::Warning, "`Layout::from_size_align_unchecked` — size argument came from \
        arithmetic (mul/add) that can exceed isize::MAX without overflow \
        check; wrapping produces a too-small allocation and heap overflow \
        on subsequent writes; use `Layout::array::<T>(n)` or \
        `n.checked_mul(size_of::<T>())` to handle overflow safely".to_owned()))
                } else {
                    None
                }
            },
            None => None,
        }
    }
}

impl AllocSizeOverflow {
    /// Reports, in block order, each `Layout::from_size_align_unchecked`
    /// (or `from_size_alignment_unchecked`) call whose size local is in the
    /// `mul_overflow` set of the state before the call.
    pub fn check(&self, body: &Body, flow: &FlowResults) -> (r: Vec<Finding>)
        requires
            body.basic_blocks@.len() <= 0x1_0000_0000,
        ensures
            findings_view(r@) == call_findings(self, body, flow.entry_states@, body.basic_blocks@.len() as int),
    {
        run_call_rule(self, body, flow)
    }
}

} // verus!
