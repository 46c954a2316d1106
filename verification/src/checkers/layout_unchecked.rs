//! Detects calls to `Layout::from_size_align_unchecked`,
//! `Layout::from_size_alignment_unchecked`, and `Alignment::new_unchecked`
//! (nightly feature `ptr_alignment_type`).

use vstd::prelude::*;
use crate::analysis::dataflow::FlowResults;
use crate::analysis::facts::{const_u64, first_arg_local, spec_const_u64, spec_first_arg_local};
use crate::analysis::state::{BlockState, StateView};
use crate::checkers::{CallRule, Finding, Flag, Severity, call_findings, findings_view, last_segment, path_last_segment, run_call_rule};
use crate::mir::{Body, DefId, Operand};
use crate::text::{ends_with, str_ends_with};
use vstd::string::StringExecFns;

verus! {

/// Detects calls to `Layout::from_size_align_unchecked`,
/// `Layout::from_size_alignment_unchecked`, and `Alignment::new_unchecked`
/// (nightly feature `ptr_alignment_type`).
pub struct LayoutUnchecked;

/// A size proven at most this large cannot overflow `isize::MAX` when
/// rounded up to any realistic alignment (`isize::MAX / 2` on 64-bit).
pub const SAFE_LAYOUT_SIZE: u64 = 0x3FFF_FFFF_FFFF_FFFF;

pub open spec fn is_pow2(v: u64) -> bool {
    v != 0 && (v & ((v - 1) as u64)) == 0
}

fn is_power_of_two(v: u64) -> (r: bool)
    ensures
        r == is_pow2(v),
{
    v != 0 && (v & (v - 1)) == 0
}

/// The alignment argument is a constant power of two.
pub open spec fn align_is_pow2(args: Seq<Operand>) -> bool {
    args.len() > 1 && spec_const_u64(&args[1]) is Some && is_pow2(spec_const_u64(&args[1])->0)
}

/// The state shows the layout cannot go wrong, or leaves it to the size
/// overflow rule: the size is proven small enough; or the alignment is a
/// constant power of two and the size came from arithmetic the size
/// overflow rule reports; or the size is a constant and the alignment a
/// constant power of two.
pub open spec fn layout_proven_safe(args: Seq<Operand>, pre: Option<StateView>) -> bool {
    match pre {
        Some(v) => match spec_first_arg_local(args) {
            Some(size) => (v.const_upper.contains_key(size) && v.const_upper[size] <= SAFE_LAYOUT_SIZE)
                || (align_is_pow2(args) && v.mul_overflow.contains(size)),
            None => align_is_pow2(args),
        },
        None => false,
    }
}

pub open spec fn is_from_size_align_unchecked(path: Seq<char>) -> bool {
    ends_with(path, "Layout::from_size_align_unchecked"@) || ends_with(path, "Layout::from_size_alignment_unchecked"@)
}

impl CallRule for LayoutUnchecked {
    open spec fn spec_uses_state(&self) -> bool {
        true
    }

    open spec fn spec_flag(&self, body: &Body, callee: DefId, path: Seq<char>, args: Seq<Operand>, pre: Option<StateView>)
        -> Option<(Seq<char>, Severity, Seq<char>)>
    {
        if is_from_size_align_unchecked(path) {
            if layout_proven_safe(args, pre) {
                None
            } else if ends_with(path, "Layout::from_size_alignment_unchecked"@) {
                Some(("layout_unchecked"@, Severity::Warning, "`"@ + last_segment(path) + "` — size must not overflow isize::MAX when rounded to the given \
                Alignment; the `Alignment` type guarantees power-of-two but size \
                overflow is still unchecked (nightly feature `ptr_alignment_type`)"@))
            } else {
                Some(("layout_unchecked"@, Severity::Warning, "`"@ + last_segment(path) + "` — align must be a power of two and size must not overflow isize::MAX \
                when rounded to align; use `Layout::from_size_align` (returns Result) \
                instead"@))
            }
        } else if ends_with(path, "Alignment::new_unchecked"@) {
            Some(("layout_unchecked"@, Severity::Warning, "`Alignment::new_unchecked` — align must be a power of two; any other \
                value produces an Alignment with an invalid internal representation \
                (UB); use `Alignment::new` which returns Option (nightly feature \
                `ptr_alignment_type`)"@))
        } else {
            None
        }
    }

    fn uses_state(&self) -> (r: bool) {
        true
    }

    fn flag(&self, body: &Body, callee: DefId, path: &str, args: &Vec<Operand>, pre: &Option<BlockState>) -> (r: Option<Flag>) {
        if str_ends_with(path, "Layout::from_size_align_unchecked") || str_ends_with(path, "Layout::from_size_alignment_unchecked") {
            match pre {
                Some(state) => {
                    let align_pow2 = if args.len() > 1 {
                        match const_u64(&args[1]) {
                            Some(v) => is_power_of_two(v),
                            None => false,
                        }
                    } else {
                        false
                    };
                    match first_arg_local(args) {
                        Some(size) => {
                            match state.const_upper.get_copy(size) {
                                Some(upper) => {
                                    if upper <= SAFE_LAYOUT_SIZE {
                                        return None;
                                    }
                                },
                                None => {},
                            }
                            if align_pow2 && state.mul_overflow.contains(size) {
                                return None;
                            }
                        },
                        None => {
                            if align_pow2 {
                                return None;
                            }
                        },
                    }
                },
                None => {},
            }
            let name = path_last_segment(path);
            if str_ends_with(path, "Layout::from_size_alignment_unchecked") {
                Some(("layout_unchecked", Severity::Warning, "`".to_owned().concat(name).concat("` — size must not overflow isize::MAX when rounded to the given \
                Alignment; the `Alignment` type guarantees power-of-two but size \
                overflow is still unchecked (nightly feature `ptr_alignment_type`)")))
            } else {
                Some(("layout_unchecked", Severity::Warning, "`".to_owned().concat(name).concat("` — align must be a power of two and size must not overflow isize::MAX \
                when rounded to align; use `Layout::from_size_align` (returns Result) \
                instead")))
            }
        } else if str_ends_with(path, "Alignment::new_unchecked") {
            Some(("layout_unchecked", Severity::Warning, "`Alignment::new_unchecked` — align must be a power of two; any other \
                value produces an Alignment with an invalid internal representation \
                (UB); use `Alignment::new` which returns Option (nightly feature \
                `ptr_alignment_type`)".to_owned()))
        } else {
            None
        }
    }
}

impl LayoutUnchecked {
    /// Reports each direct call in `body` of `Layout::from_size_align_unchecked`
    /// (and its `Alignment` variant) whose size and alignment the state does
    /// not show to be safe, and each `Alignment::new_unchecked`.
    pub fn check(&self, body: &Body, flow: &FlowResults) -> (r: Vec<Finding>)
        requires
            body.basic_blocks@.len() <= 0x1_0000_0000,
        ensures
            findings_view(r@) == call_findings(self, body, flow.entry_states@, body.basic_blocks@.len() as int),
    {
        run_call_rule(self, body, flow)
    }
}

} // verus!
