//! Path-sensitive refinement: what a two-way `SwitchInt` on a comparison
//! proves along each of its edges.

use vstd::prelude::*;
use crate::analysis::facts::{lower_upper, operand_local, raise_lower, spec_operand_local};
use crate::analysis::state::{BlockState, StateView, canon, canon_pair};
use crate::collections::{LocalPair, VecMap, VecSet};
use crate::mir::{BasicBlock, Local, SwitchTargets, TerminatorKind};

verus! {

/// The target of the first arm matching the value `0`, if any.
pub open spec fn zero_target(vals: Seq<(u128, BasicBlock)>) -> Option<BasicBlock>
    decreases vals.len(),
{
    if vals.len() == 0 {
        None
    } else if vals[0].0 == 0 {
        Some(vals[0].1)
    } else {
        zero_target(vals.drop_first())
    }
}

/// Which edge of a boolean switch `succ` is: `Some(true)` for the
/// `otherwise` (nonzero) edge, `Some(false)` for the zero edge, `None` when
/// `succ` is reached by both or by neither.
pub open spec fn edge_polarity(targets: &SwitchTargets, succ: BasicBlock) -> Option<bool> {
    let z = zero_target(targets.values@);
    let o = targets.otherwise;
    if succ == o && Some(succ) != z {
        Some(true)
    } else if Some(succ) == z && succ != o {
        Some(false)
    } else {
        None
    }
}

/// `s` gains what `m` records for `d`.
pub open spec fn add_member(s: Set<Local>, m: Map<Local, Local>, d: Local) -> Set<Local> {
    if m.contains_key(d) { s.insert(m[d]) } else { s }
}

/// `k - 1`, stopping at zero.
pub open spec fn dec_sat(k: u64) -> u64 {
    if k == 0 { 0 } else { (k - 1) as u64 }
}

/// `k + 1`, stopping at `u64::MAX`.
pub open spec fn inc_sat(k: u64) -> u64 {
    if k == u64::MAX { u64::MAX } else { (k + 1) as u64 }
}

/// The upper bound `(l, k)` recorded for `d` (lowered by one when `strict`)
/// tightens `u`.
pub open spec fn upper_from(u: Map<Local, u64>, m: Map<Local, (Local, u64)>, d: Local, strict: bool) -> Map<Local, u64> {
    if m.contains_key(d) {
        lower_upper(u, m[d].0, if strict { dec_sat(m[d].1) } else { m[d].1 })
    } else {
        u
    }
}

/// The lower bound `(l, k)` recorded for `d` (raised by one when `strict`)
/// tightens `lo`.
pub open spec fn lower_from(lo: Map<Local, u64>, m: Map<Local, (Local, u64)>, d: Local, strict: bool) -> Map<Local, u64> {
    if m.contains_key(d) {
        raise_lower(lo, m[d].0, if strict { inc_sat(m[d].1) } else { m[d].1 })
    } else {
        lo
    }
}

/// `s` gains the canonical pair recorded for `d`.
pub open spec fn pair_from(s: Set<LocalPair>, m: Map<Local, (Local, Local)>, d: Local) -> Set<LocalPair> {
    if m.contains_key(d) { s.insert(canon(m[d].0, m[d].1)) } else { s }
}

/// Along the edge where the comparison `d` held.
pub open spec fn refine_true(v: StateView, d: Local) -> StateView {
    StateView {
        bounded: add_member(v.bounded, v.lt_facts, d),
        bounded_or_eq: add_member(v.bounded_or_eq, v.le_facts, d),
        has_spare: add_member(v.has_spare, v.spare_if_true, d),
        is_full: add_member(v.is_full, v.full_if_true, d),
        nonzero: add_member(v.nonzero, v.nonzero_if_true, d),
        finite: add_member(v.finite, v.finite_if_true, d),
        const_upper: upper_from(upper_from(v.const_upper, v.const_lt, d, true), v.const_le, d, false),
        const_lower: lower_from(lower_from(v.const_lower, v.const_gt, d, true), v.const_ge, d, false),
        keys_are_ne: pair_from(v.keys_are_ne, v.ne_pair_if_true, d),
        eq_locals: pair_from(v.eq_locals, v.eq_pair_if_true, d),
        ..v
    }
}

/// Along the edge where the comparison `d` failed: its negation holds.
pub open spec fn refine_false(v: StateView, d: Local) -> StateView {
    StateView {
        bounded: add_member(v.bounded, v.ge_facts, d),
        bounded_or_eq: add_member(v.bounded_or_eq, v.gt_facts, d),
        has_spare: add_member(v.has_spare, v.spare_if_false, d),
        is_full: add_member(v.is_full, v.full_if_false, d),
        nonzero: add_member(v.nonzero, v.nonzero_if_false, d),
        finite: add_member(v.finite, v.nan_if_true, d),
        const_lower: lower_from(lower_from(v.const_lower, v.const_lt, d, false), v.const_le, d, true),
        const_upper: upper_from(upper_from(v.const_upper, v.const_gt, d, false), v.const_ge, d, true),
        keys_are_ne: pair_from(v.keys_are_ne, v.eq_pair_if_true, d),
        eq_locals: pair_from(v.eq_locals, v.ne_pair_if_true, d),
        ..v
    }
}

/// The state on the edge from a block ending in `term` to `succ`.
pub open spec fn spec_refine_edge(v: StateView, term: &TerminatorKind, succ: BasicBlock) -> StateView {
    match term {
        TerminatorKind::SwitchInt { discr, targets } => match spec_operand_local(discr) {
            Some(d) => match edge_polarity(targets, succ) {
                Some(true) => refine_true(v, d),
                Some(false) => refine_false(v, d),
                None => v,
            },
            None => v,
        },
        _ => v,
    }
}

fn find_zero_target(targets: &SwitchTargets) -> (r: Option<BasicBlock>)
    ensures
        r == zero_target(targets.values@),
{
    let ghost vals = targets.values@;
    proof { assert(vals.subrange(0, vals.len() as int) =~= vals); }
    let mut i: usize = 0;
    while i < targets.values.len()
        invariant
            vals == targets.values@,
            i <= vals.len(),
            zero_target(vals) == zero_target(vals.subrange(i as int, vals.len() as int)),
        decreases vals.len() - i,
    {
        let (v, t) = targets.values[i];
        let ghost rest = vals.subrange(i as int, vals.len() as int);
        proof { assert(rest[0] == vals[i as int]); }
        if v == 0 {
            return Some(t);
        }
        proof { assert(rest.drop_first() =~= vals.subrange(i + 1, vals.len() as int)); }
        i = i + 1;
    }
    proof { assert(vals.subrange(i as int, vals.len() as int) =~= Seq::<(u128, BasicBlock)>::empty()); }
    None
}

fn add_member_from(s: &mut VecSet<Local>, m: &VecMap<Local, Local>, d: Local)
    ensures
        final(s)@ == add_member(old(s)@, m@, d),
{
    match m.get_copy(d) {
        Some(x) => { s.insert(x); },
        None => {},
    }
}

fn add_pair_from(s: &mut VecSet<LocalPair>, m: &VecMap<Local, (Local, Local)>, d: Local)
    ensures
        final(s)@ == pair_from(old(s)@, m@, d),
{
    match m.get_copy(d) {
        Some((a, b)) => { s.insert(canon_pair(a, b)); },
        None => {},
    }
}

fn upper_from_entry(u: &mut VecMap<Local, u64>, m: &VecMap<Local, (Local, u64)>, d: Local, strict: bool)
    ensures
        final(u)@ == upper_from(old(u)@, m@, d, strict),
{
    match m.get_copy(d) {
        Some((l, k)) => {
            let b = if strict { if k == 0 { 0 } else { k - 1 } } else { k };
            let cur = match u.get_copy(l) {
                Some(c) => c,
                None => u64::MAX,
            };
            u.insert(l, if cur <= b { cur } else { b });
        },
        None => {},
    }
}

fn lower_from_entry(lo: &mut VecMap<Local, u64>, m: &VecMap<Local, (Local, u64)>, d: Local, strict: bool)
    ensures
        final(lo)@ == lower_from(old(lo)@, m@, d, strict),
{
    match m.get_copy(d) {
        Some((l, k)) => {
            let b = if strict { if k == u64::MAX { u64::MAX } else { k + 1 } } else { k };
            let cur = match lo.get_copy(l) {
                Some(c) => c,
                None => 0,
            };
            lo.insert(l, if cur >= b { cur } else { b });
        },
        None => {},
    }
}

impl BlockState {
    fn refine_true(&mut self, d: Local)
        ensures
            final(self)@ == refine_true(old(self)@, d),
    {
        add_member_from(&mut self.bounded, &self.lt_facts, d);
        add_member_from(&mut self.bounded_or_eq, &self.le_facts, d);
        add_member_from(&mut self.has_spare, &self.spare_if_true, d);
        add_member_from(&mut self.is_full, &self.full_if_true, d);
        add_member_from(&mut self.nonzero, &self.nonzero_if_true, d);
        add_member_from(&mut self.finite, &self.finite_if_true, d);
        upper_from_entry(&mut self.const_upper, &self.const_lt, d, true);
        upper_from_entry(&mut self.const_upper, &self.const_le, d, false);
        lower_from_entry(&mut self.const_lower, &self.const_gt, d, true);
        lower_from_entry(&mut self.const_lower, &self.const_ge, d, false);
        add_pair_from(&mut self.keys_are_ne, &self.ne_pair_if_true, d);
        add_pair_from(&mut self.eq_locals, &self.eq_pair_if_true, d);
        proof { assert(self@ =~= refine_true(old(self)@, d)); }
    }

    fn refine_false(&mut self, d: Local)
        ensures
            final(self)@ == refine_false(old(self)@, d),
    {
        add_member_from(&mut self.bounded, &self.ge_facts, d);
        add_member_from(&mut self.bounded_or_eq, &self.gt_facts, d);
        add_member_from(&mut self.has_spare, &self.spare_if_false, d);
        add_member_from(&mut self.is_full, &self.full_if_false, d);
        add_member_from(&mut self.nonzero, &self.nonzero_if_false, d);
        add_member_from(&mut self.finite, &self.nan_if_true, d);
        lower_from_entry(&mut self.const_lower, &self.const_lt, d, false);
        lower_from_entry(&mut self.const_lower, &self.const_le, d, true);
        upper_from_entry(&mut self.const_upper, &self.const_gt, d, false);
        upper_from_entry(&mut self.const_upper, &self.const_ge, d, true);
        add_pair_from(&mut self.keys_are_ne, &self.eq_pair_if_true, d);
        add_pair_from(&mut self.eq_locals, &self.ne_pair_if_true, d);
        proof { assert(self@ =~= refine_false(old(self)@, d)); }
    }
}

/// Refines `state`, the state at the end of a block ending in `term`, for
/// the edge to `succ`. A two-way switch on a comparison proves the
/// comparison on its `otherwise` edge and its negation on its zero edge:
/// bounds, spare capacity, fullness, nonzero and finite values, constant
/// ranges and (in)equal pairs. Any other terminator, or a successor reached
/// by both edges, leaves the state as it is.
pub fn refine_switchint_edge(state: &mut BlockState, term: &TerminatorKind, succ: BasicBlock)
    ensures
        final(state)@ == spec_refine_edge(old(state)@, term, succ),
{
    match term {
        TerminatorKind::SwitchInt { discr, targets } => match operand_local(discr) {
            Some(d) => {
                let z = find_zero_target(targets);
                let o = targets.otherwise;
                let zero_is_succ = match z {
                    Some(t) => t == succ,
                    None => false,
                };
                if succ == o && !zero_is_succ {
                    state.refine_true(d);
                } else if zero_is_succ && succ != o {
                    state.refine_false(d);
                }
            },
            None => {},
        },
        _ => {},
    }
}

/// Refining an edge only adds facts: every proven set can only grow, the
/// bounds can only tighten, and the heap, pointers, protocols and all
/// conditional facts stay as they are. (A fact added on one edge of a
/// switch alone disappears where both edges join, since joins intersect
/// these sets.)
pub proof fn lemma_refine_only_adds(v: StateView, term: &TerminatorKind, succ: BasicBlock)
    ensures
        ({
            let r = spec_refine_edge(v, term, succ);
            &&& v.bounded.subset_of(r.bounded)
            &&& v.bounded_or_eq.subset_of(r.bounded_or_eq)
            &&& v.has_spare.subset_of(r.has_spare)
            &&& v.is_full.subset_of(r.is_full)
            &&& v.nonzero.subset_of(r.nonzero)
            &&& v.finite.subset_of(r.finite)
            &&& v.keys_are_ne.subset_of(r.keys_are_ne)
            &&& v.eq_locals.subset_of(r.eq_locals)
            &&& forall|l: Local| #[trigger] v.const_upper.contains_key(l)
                ==> r.const_upper.contains_key(l) && r.const_upper[l] <= v.const_upper[l]
            &&& forall|l: Local| #[trigger] v.const_lower.contains_key(l)
                ==> r.const_lower.contains_key(l) && r.const_lower[l] >= v.const_lower[l]
            &&& r.heap == v.heap && r.points_to == v.points_to && r.typestate == v.typestate
            &&& r.local_proto == v.local_proto && r.owner_alias == v.owner_alias && r.init == v.init
            &&& r.lt_facts == v.lt_facts && r.le_facts == v.le_facts && r.const_lt == v.const_lt
        }),
{
}

/// Along the edge where comparison `d` held, each fact recorded for that
/// outcome becomes proven: the bounded index, the spare capacity or
/// fullness, the nonzero and finite value, and the constant bounds.
pub proof fn lemma_true_edge_proves(v: StateView, d: Local)
    ensures
        v.lt_facts.contains_key(d) ==> refine_true(v, d).bounded.contains(v.lt_facts[d]),
        v.le_facts.contains_key(d) ==> refine_true(v, d).bounded_or_eq.contains(v.le_facts[d]),
        v.spare_if_true.contains_key(d) ==> refine_true(v, d).has_spare.contains(v.spare_if_true[d]),
        v.full_if_true.contains_key(d) ==> refine_true(v, d).is_full.contains(v.full_if_true[d]),
        v.nonzero_if_true.contains_key(d) ==> refine_true(v, d).nonzero.contains(v.nonzero_if_true[d]),
        v.finite_if_true.contains_key(d) ==> refine_true(v, d).finite.contains(v.finite_if_true[d]),
        v.const_le.contains_key(d) ==> refine_true(v, d).const_upper.contains_key(v.const_le[d].0)
            && refine_true(v, d).const_upper[v.const_le[d].0] <= v.const_le[d].1,
        v.const_lt.contains_key(d) && v.const_lt[d].1 > 0 ==> refine_true(v, d).const_upper.contains_key(v.const_lt[d].0)
            && refine_true(v, d).const_upper[v.const_lt[d].0] < v.const_lt[d].1,
        v.const_ge.contains_key(d) ==> refine_true(v, d).const_lower.contains_key(v.const_ge[d].0)
            && refine_true(v, d).const_lower[v.const_ge[d].0] >= v.const_ge[d].1,
        v.const_gt.contains_key(d) && v.const_gt[d].1 < u64::MAX ==> refine_true(v, d).const_lower.contains_key(v.const_gt[d].0)
            && refine_true(v, d).const_lower[v.const_gt[d].0] > v.const_gt[d].1,
{
}

/// Along the edge where comparison `d` failed, each fact recorded for that
/// outcome becomes proven; in particular a failed `l == 0` makes `l`
/// nonzero.
pub proof fn lemma_false_edge_proves(v: StateView, d: Local)
    ensures
        v.ge_facts.contains_key(d) ==> refine_false(v, d).bounded.contains(v.ge_facts[d]),
        v.gt_facts.contains_key(d) ==> refine_false(v, d).bounded_or_eq.contains(v.gt_facts[d]),
        v.spare_if_false.contains_key(d) ==> refine_false(v, d).has_spare.contains(v.spare_if_false[d]),
        v.full_if_false.contains_key(d) ==> refine_false(v, d).is_full.contains(v.full_if_false[d]),
        v.nonzero_if_false.contains_key(d) ==> refine_false(v, d).nonzero.contains(v.nonzero_if_false[d]),
        v.nan_if_true.contains_key(d) ==> refine_false(v, d).finite.contains(v.nan_if_true[d]),
        v.const_lt.contains_key(d) ==> refine_false(v, d).const_lower.contains_key(v.const_lt[d].0)
            && refine_false(v, d).const_lower[v.const_lt[d].0] >= v.const_lt[d].1,
        v.const_le.contains_key(d) && v.const_le[d].1 < u64::MAX ==> refine_false(v, d).const_lower.contains_key(v.const_le[d].0)
            && refine_false(v, d).const_lower[v.const_le[d].0] > v.const_le[d].1,
        v.const_gt.contains_key(d) ==> refine_false(v, d).const_upper.contains_key(v.const_gt[d].0)
            && refine_false(v, d).const_upper[v.const_gt[d].0] <= v.const_gt[d].1,
        v.const_ge.contains_key(d) && v.const_ge[d].1 > 0 ==> refine_false(v, d).const_upper.contains_key(v.const_ge[d].0)
            && refine_false(v, d).const_upper[v.const_ge[d].0] < v.const_ge[d].1,
{
}

} // verus!
