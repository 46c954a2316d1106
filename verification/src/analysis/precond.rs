//! Interprocedural precondition summaries.
//!
//! A safe function that hands one of its parameters, unchecked, to an unsafe
//! operation with a precondition passes that precondition on to its callers:
//! any safe caller can violate it without writing `unsafe` itself. A
//! `PrecondSummary` records which parameters carry which such requirement.

use vstd::prelude::*;
use crate::analysis::call::base_of;
use crate::analysis::dataflow::{FlowResults, before_term, call_at};
use crate::analysis::facts::{first_arg_local, nth_arg_local, spec_first_arg_local, spec_nth_arg_local};
use crate::analysis::state::StateView;
use crate::collections::{Key, VecMap, VecSet};
use crate::mir::{BasicBlock, Body, DefId, Local, TerminatorKind};
use crate::text::{contains, ends_with, str_contains, str_ends_with};
use crate::analysis::state::BlockState;

verus! {

/// An index argument that must be below the length of a collection
/// argument (both 0-based argument indices).
#[derive(Clone, Copy, PartialEq, Eq, Structural, Debug)]
pub struct IndexArgs {
    pub index_arg: usize,
    pub collection_arg: usize,
}

impl Key for IndexArgs {
    fn same(&self, other: &Self) -> (r: bool) {
        self.index_arg == other.index_arg && self.collection_arg == other.collection_arg
    }
}

/// Implicit preconditions a function places on its arguments.
pub struct PrecondSummary {
    /// Argument indices that must be nonzero (`new_unchecked`, `ctlz_nonzero`, ...).
    pub nonzero_args: VecSet<usize>,
    /// Argument indices that must be a valid ASCII value (at most 127).
    pub ascii_args: VecSet<usize>,
    /// Index arguments that must be below a collection argument's length
    /// (`get_unchecked`, ...).
    pub bounded_for_args: VecSet<IndexArgs>,
}

impl Default for PrecondSummary {
    fn default() -> (r: Self)
        ensures
            r.nonzero_args@ == Set::<usize>::empty(),
            r.ascii_args@ == Set::<usize>::empty(),
            r.bounded_for_args@ == Set::<IndexArgs>::empty(),
    {
        PrecondSummary { nonzero_args: VecSet::new(), ascii_args: VecSet::new(), bounded_for_args: VecSet::new() }
    }
}

impl PrecondSummary {
    /// No parameter carries a requirement.
    pub fn is_empty(&self) -> (r: bool)
        ensures
            r == (self.nonzero_args@.is_empty() && self.ascii_args@.is_empty() && self.bounded_for_args@.is_empty()),
    {
        self.nonzero_args.is_empty() && self.ascii_args.is_empty() && self.bounded_for_args.is_empty()
    }
}

/// Precondition summaries of the analysed functions.
pub type PrecondSummaryMap = VecMap<DefId, PrecondSummary>;

pub open spec fn spec_param_index(body: &Body, l: Local) -> Option<usize> {
    if 1 <= l <= body.arg_count { Some((l - 1) as usize) } else { None }
}

/// The 0-based argument index of `local`, if it is a parameter of `body`.
pub fn param_index(body: &Body, local: Local) -> (r: Option<usize>)
    ensures
        r == spec_param_index(body, local),
{
    let idx = local as usize;
    if idx >= 1 && idx <= body.arg_count {
        Some(idx - 1)
    } else {
        None
    }
}

// ───────────────────────── what each call requires ─────────────────────────

pub open spec fn is_nonzero_precond(path: Seq<char>) -> bool {
    ||| ends_with(path, "::new_unchecked"@)
    ||| ends_with(path, "::unchecked_new"@)
    ||| ends_with(path, "::from_mut_unchecked"@)
    ||| ends_with(path, "ctlz_nonzero"@)
    ||| ends_with(path, "cttz_nonzero"@)
}

pub open spec fn is_ascii_precond(path: Seq<char>) -> bool {
    ends_with(path, "::as_ascii_unchecked"@) || ends_with(path, "Char::from_u8_unchecked"@)
}

pub open spec fn is_index_precond(path: Seq<char>) -> bool {
    (ends_with(path, "get_unchecked_mut"@) || ends_with(path, "get_unchecked"@)) && !contains(path, "pin::Pin"@)
}

pub open spec fn proven_nonzero(v: StateView, a: Local) -> bool {
    v.nonzero.contains(a) || (v.const_lower.contains_key(a) && v.const_lower[a] >= 1)
}

pub open spec fn proven_ascii(v: StateView, a: Local) -> bool {
    v.const_upper.contains_key(a) && v.const_upper[a] <= 127
}

/// The parameter the call ending `b` needs nonzero without the body
/// proving it.
pub open spec fn nonzero_arg_at(body: &Body, es: Seq<Option<BlockState>>, b: int) -> Option<usize> {
    match (call_at(body, b), before_term(es, body, b)) {
        (Some((id, args)), Some(v)) => if is_nonzero_precond(body.spec_path_of(id)) {
            match spec_first_arg_local(args) {
                Some(a) => if !proven_nonzero(v, a) { spec_param_index(body, a) } else { None },
                None => None,
            }
        } else {
            None
        },
        _ => None,
    }
}

/// The parameter the call ending `b` needs ASCII without the body proving
/// it.
pub open spec fn ascii_arg_at(body: &Body, es: Seq<Option<BlockState>>, b: int) -> Option<usize> {
    match (call_at(body, b), before_term(es, body, b)) {
        (Some((id, args)), Some(v)) => if is_ascii_precond(body.spec_path_of(id)) {
            match spec_first_arg_local(args) {
                Some(a) => if !proven_ascii(v, a) { spec_param_index(body, a) } else { None },
                None => None,
            }
        } else {
            None
        },
        _ => None,
    }
}

/// The `(index, collection)` parameters of an unchecked indexing ending
/// `b` whose bound the body does not prove.
pub open spec fn bounds_args_at(body: &Body, es: Seq<Option<BlockState>>, b: int) -> Option<IndexArgs> {
    match (call_at(body, b), before_term(es, body, b)) {
        (Some((id, args)), Some(v)) => if is_index_precond(body.spec_path_of(id)) {
            match (spec_nth_arg_local(args, 0), spec_nth_arg_local(args, 1)) {
                (Some(r), Some(i)) => if !v.bounded.contains(i) {
                    match (spec_param_index(body, base_of(v, r)), spec_param_index(body, i)) {
                        (Some(rp), Some(ip)) => Some(IndexArgs { index_arg: ip, collection_arg: rp }),
                        _ => None,
                    }
                } else {
                    None
                },
                _ => None,
            }
        } else {
            None
        },
        _ => None,
    }
}

pub open spec fn opt_set<T>(o: Option<T>) -> Set<T> {
    match o {
        Some(x) => set![x],
        None => Set::empty(),
    }
}

/// Requirements found in the first `n` blocks.
pub open spec fn nonzero_upto(body: &Body, es: Seq<Option<BlockState>>, n: int) -> Set<usize> {
    Set::new(|i: usize| exists|b: int| 0 <= b < n && #[trigger] nonzero_arg_at(body, es, b) == Some(i))
}

pub open spec fn ascii_upto(body: &Body, es: Seq<Option<BlockState>>, n: int) -> Set<usize> {
    Set::new(|i: usize| exists|b: int| 0 <= b < n && #[trigger] ascii_arg_at(body, es, b) == Some(i))
}

pub open spec fn bounds_upto(body: &Body, es: Seq<Option<BlockState>>, n: int) -> Set<IndexArgs> {
    Set::new(|p: IndexArgs| exists|b: int| 0 <= b < n && #[trigger] bounds_args_at(body, es, b) == Some(p))
}

/// Adding block `n` adds what it requires.
proof fn lemma_upto_step(body: &Body, es: Seq<Option<BlockState>>, n: int)
    requires
        0 <= n,
    ensures
        nonzero_upto(body, es, n + 1) == nonzero_upto(body, es, n).union(opt_set(nonzero_arg_at(body, es, n))),
        ascii_upto(body, es, n + 1) == ascii_upto(body, es, n).union(opt_set(ascii_arg_at(body, es, n))),
        bounds_upto(body, es, n + 1) == bounds_upto(body, es, n).union(opt_set(bounds_args_at(body, es, n))),
{
    assert forall|i: usize| nonzero_upto(body, es, n + 1).contains(i)
        <==> #[trigger] nonzero_upto(body, es, n).union(opt_set(nonzero_arg_at(body, es, n))).contains(i) by {
        if nonzero_upto(body, es, n + 1).contains(i) {
            let b = choose|b: int| 0 <= b < n + 1 && #[trigger] nonzero_arg_at(body, es, b) == Some(i);
            if b < n {
                assert(nonzero_upto(body, es, n).contains(i));
            }
        }
        if nonzero_upto(body, es, n).contains(i) {
            let b = choose|b: int| 0 <= b < n && #[trigger] nonzero_arg_at(body, es, b) == Some(i);
            assert(0 <= b < n + 1);
        }
    }
    assert forall|i: usize| ascii_upto(body, es, n + 1).contains(i)
        <==> #[trigger] ascii_upto(body, es, n).union(opt_set(ascii_arg_at(body, es, n))).contains(i) by {
        if ascii_upto(body, es, n + 1).contains(i) {
            let b = choose|b: int| 0 <= b < n + 1 && #[trigger] ascii_arg_at(body, es, b) == Some(i);
            if b < n {
                assert(ascii_upto(body, es, n).contains(i));
            }
        }
        if ascii_upto(body, es, n).contains(i) {
            let b = choose|b: int| 0 <= b < n && #[trigger] ascii_arg_at(body, es, b) == Some(i);
            assert(0 <= b < n + 1);
        }
    }
    assert forall|p: IndexArgs| bounds_upto(body, es, n + 1).contains(p)
        <==> #[trigger] bounds_upto(body, es, n).union(opt_set(bounds_args_at(body, es, n))).contains(p) by {
        if bounds_upto(body, es, n + 1).contains(p) {
            let b = choose|b: int| 0 <= b < n + 1 && #[trigger] bounds_args_at(body, es, b) == Some(p);
            if b < n {
                assert(bounds_upto(body, es, n).contains(p));
            }
        }
        if bounds_upto(body, es, n).contains(p) {
            let b = choose|b: int| 0 <= b < n && #[trigger] bounds_args_at(body, es, b) == Some(p);
            assert(0 <= b < n + 1);
        }
    }
    assert(nonzero_upto(body, es, n + 1) =~= nonzero_upto(body, es, n).union(opt_set(nonzero_arg_at(body, es, n))));
    assert(ascii_upto(body, es, n + 1) =~= ascii_upto(body, es, n).union(opt_set(ascii_arg_at(body, es, n))));
    assert(bounds_upto(body, es, n + 1) =~= bounds_upto(body, es, n).union(opt_set(bounds_args_at(body, es, n))));
}

/// What the call ending block `bb` requires of the parameters.
fn block_preconds(body: &Body, flow: &FlowResults, bb: usize) -> (r: (Option<usize>, Option<usize>, Option<IndexArgs>))
    requires
        bb < body.basic_blocks@.len() <= 0x1_0000_0000,
    ensures
        r.0 == nonzero_arg_at(body, flow.entry_states@, bb as int),
        r.1 == ascii_arg_at(body, flow.entry_states@, bb as int),
        r.2 == bounds_args_at(body, flow.entry_states@, bb as int),
{
    let (func, args) = match &body.basic_blocks[bb].terminator {
        Some(TerminatorKind::Call { func, args, .. }) => (func, args),
        _ => { return (None, None, None); },
    };
    let id = match func.const_fn_def() {
        Some(id) => id,
        None => { return (None, None, None); },
    };
    let state = match flow.state_before_terminator(body, bb as BasicBlock) {
        Some(s) => s,
        None => { return (None, None, None); },
    };
    let path = body.path_of(id);
    let p = path.as_str();

    let mut nonzero: Option<usize> = None;
    if str_ends_with(p, "::new_unchecked") || str_ends_with(p, "::unchecked_new")
        || str_ends_with(p, "::from_mut_unchecked") || str_ends_with(p, "ctlz_nonzero")
        || str_ends_with(p, "cttz_nonzero") {
        match first_arg_local(args) {
            Some(a) => {
                if !state.local_is_nonzero(a) {
                    nonzero = param_index(body, a);
                }
            },
            None => {},
        }
    }

    let mut ascii: Option<usize> = None;
    if str_ends_with(p, "::as_ascii_unchecked") || str_ends_with(p, "Char::from_u8_unchecked") {
        match first_arg_local(args) {
            Some(a) => {
                if !state.local_is_ascii(a) {
                    ascii = param_index(body, a);
                }
            },
            None => {},
        }
    }

    let mut bounds: Option<IndexArgs> = None;
    if (str_ends_with(p, "get_unchecked_mut") || str_ends_with(p, "get_unchecked")) && !str_contains(p, "pin::Pin") {
        match (nth_arg_local(args, 0), nth_arg_local(args, 1)) {
            (Some(r), Some(i)) => {
                let recv = state.deref_base(r);
                if !state.local_is_bounded(i) {
                    match (param_index(body, recv), param_index(body, i)) {
                        (Some(rp), Some(ip)) => { bounds = Some(IndexArgs { index_arg: ip, collection_arg: rp }); },
                        _ => {},
                    }
                }
            },
            _ => {},
        }
    }
    (nonzero, ascii, bounds)
}

/// Records, for each call in `body` to an unsafe operation with a
/// precondition, the parameters it is handed unchecked: a parameter passed
/// to a nonzero-requiring constructor that the body does not prove nonzero,
/// one passed to an ASCII conversion without a proven bound of 127, and an
/// `(index, collection)` pair of parameters passed to unchecked indexing
/// without a proven bound. A requirement the body checks itself (a guard
/// before the call) is not passed on.
pub fn extract_precond_summary(body: &Body, flow: &FlowResults) -> (r: PrecondSummary)
    requires
        body.basic_blocks@.len() <= 0x1_0000_0000,
    ensures
        r.nonzero_args@ == nonzero_upto(body, flow.entry_states@, body.basic_blocks@.len() as int),
        r.ascii_args@ == ascii_upto(body, flow.entry_states@, body.basic_blocks@.len() as int),
        r.bounded_for_args@ == bounds_upto(body, flow.entry_states@, body.basic_blocks@.len() as int),
{
    let ghost es = flow.entry_states@;
    let mut summary = PrecondSummary::default();
    proof {
        assert(nonzero_upto(body, es, 0) =~= Set::<usize>::empty());
        assert(ascii_upto(body, es, 0) =~= Set::<usize>::empty());
        assert(bounds_upto(body, es, 0) =~= Set::<IndexArgs>::empty());
    }
    let mut bb: usize = 0;
    while bb < body.basic_blocks.len()
        invariant
            es == flow.entry_states@,
            bb <= body.basic_blocks@.len() <= 0x1_0000_0000,
            summary.nonzero_args@ == nonzero_upto(body, es, bb as int),
            summary.ascii_args@ == ascii_upto(body, es, bb as int),
            summary.bounded_for_args@ == bounds_upto(body, es, bb as int),
        decreases body.basic_blocks@.len() - bb,
    {
        let (nonzero, ascii, bounds) = block_preconds(body, flow, bb);
        match nonzero {
            Some(i) => { summary.nonzero_args.insert(i); },
            None => {},
        }
        match ascii {
            Some(i) => { summary.ascii_args.insert(i); },
            None => {},
        }
        match bounds {
            Some(p) => { summary.bounded_for_args.insert(p); },
            None => {},
        }
        proof {
            lemma_upto_step(body, es, bb as int);
            assert(summary.nonzero_args@ =~= nonzero_upto(body, es, bb + 1));
            assert(summary.ascii_args@ =~= ascii_upto(body, es, bb + 1));
            assert(summary.bounded_for_args@ =~= bounds_upto(body, es, bb + 1));
        }
        bb = bb + 1;
    }
    summary
}

} // verus!
