//! Flow-sensitive ownership protocol checks that single call sites cannot
//! see: a pointer reconstituted twice on a path (or on one path of two), a
//! free that leaves a live reference owner dangling, and a raw pointer from
//! `into_raw` still owned when the function returns.
//!
//! Each `into_raw` call site is one abstract object (allocation-site
//! abstraction); its state moves from `RawOwned` to `Reconstituted`,
//! `Escaped` or `MaybeFreed`.

use vstd::prelude::*;
use crate::analysis::call::{callee, spec_callee};
use crate::analysis::dataflow::{FlowResults, before_term};
use crate::analysis::facts::{first_arg_local, is_reference_param, nth_arg_local, spec_first_arg_local, spec_is_reference_param,
    spec_nth_arg_local};
use crate::analysis::object::{HeapState, ObjectId};
use crate::analysis::paths::{is_from_raw, spec_is_from_raw};
use crate::analysis::state::{BlockState, StateView, set_at};
use crate::analysis::summary::{FnSummary, ParamHeapEffect};
use crate::checkers::{Finding, FindingView, Severity, findings_view};
use crate::collections::VecSet;
use crate::mir::{BasicBlock, Body, DefId, Local, Operand, Span, TerminatorKind};
use crate::text::{contains, str_contains};
use vstd::string::StringExecFns;

verus! {

broadcast use vstd::set::group_set_axioms;

/// Reports double reconstitution of `into_raw` pointers, frees that leave a
/// `&mut self`-style owner dangling (outside drop code), and `RawOwned`
/// objects still held, and not returned, at a `return`.
pub struct OwnershipProtocol;

pub open spec fn leak_message() -> Seq<char> {
    "raw pointer obtained from `into_raw` is never reconstituted via `from_raw` — memory leak"@
}

pub open spec fn dangling_owner_message() -> Seq<char> {
    "freeing a pointer that still aliases memory owned by a live value (e.g. `&mut self`'s \
     buffer) — the owner is left with a dangling pointer; double-free when it is dropped"@
}

pub open spec fn spec_from_raw_short(path: Seq<char>) -> Seq<char> {
    if contains(path, "Box"@) {
        "Box::from_raw"@
    } else if contains(path, "Arc"@) {
        "Arc::from_raw"@
    } else if contains(path, "Rc"@) {
        "Rc::from_raw"@
    } else if contains(path, "Vec"@) {
        "Vec::from_raw_parts"@
    } else {
        "from_raw"@
    }
}

/// The short name of the reconstituting function `path` calls.
pub fn from_raw_short(path: &str) -> (r: &'static str)
    ensures
        r@ == spec_from_raw_short(path@),
{
    if str_contains(path, "Box") {
        "Box::from_raw"
    } else if str_contains(path, "Arc") {
        "Arc::from_raw"
    } else if str_contains(path, "Rc") {
        "Rc::from_raw"
    } else if str_contains(path, "Vec") {
        "Vec::from_raw_parts"
    } else {
        "from_raw"
    }
}

pub open spec fn double_free_message(short: Seq<char>) -> Seq<char> {
    "`"@ + short + "` called on a pointer that was already reconstituted on this path — double-free"@
}

pub open spec fn maybe_double_free_message(short: Seq<char>) -> Seq<char> {
    "`"@ + short + "` — potential double-free: pointer may have already been reconstituted on \
     another control-flow path"@
}

pub open spec fn finding(rule_id: Seq<char>, span: Span, message: Seq<char>) -> FindingView {
    FindingView { rule_id, severity: Severity::Warning, span, message }
}

// ───────────────────────── leaks ─────────────────────────

/// Objects some local points to that are still `RawOwned` and are not
/// handed to the caller through the return place `_0`.
pub open spec fn leaked_at(v: StateView) -> Set<ObjectId> {
    Set::new(|o: ObjectId| (exists|l: Local| v.points_to.contains_key(l) && #[trigger] v.points_to[l].contains(o))
        && !set_at(v.points_to, 0).contains(o) && v.heap.contains_key(o) && v.heap[o] == HeapState::RawOwned)
}

// ───────────────────────── frees ─────────────────────────

/// The arguments a summarised callee reconstitutes, in summary order.
pub open spec fn reconstituted_args(es: Seq<(usize, ParamHeapEffect)>, args: Seq<Operand>) -> Seq<Local>
    decreases es.len(),
{
    if es.len() == 0 {
        Seq::empty()
    } else {
        let prev = reconstituted_args(es.drop_last(), args);
        let e = es.last();
        if e.1 == ParamHeapEffect::Reconstituted {
            match spec_nth_arg_local(args, e.0 as int) {
                Some(l) => prev.push(l),
                None => prev,
            }
        } else {
            prev
        }
    }
}

/// The locals a call of `path` frees: the pointer passed to a `from_raw`,
/// or the arguments a summarised callee reconstitutes.
pub open spec fn freed_locals(callee: DefId, path: Seq<char>, args: Seq<Operand>, sums: Map<DefId, FnSummary>) -> Seq<Local> {
    if spec_is_from_raw(path) {
        match spec_first_arg_local(args) {
            Some(a) => seq![a],
            None => Seq::empty(),
        }
    } else if sums.contains_key(callee) {
        reconstituted_args(sums[callee].param_effects@, args)
    } else {
        Seq::empty()
    }
}

/// `l` aliases the interior of a reference parameter.
pub open spec fn aliases_ref_param(body: &Body, v: StateView, l: Local) -> bool {
    exists|o: Local| #[trigger] set_at(v.owner_alias, l).contains(o) && spec_is_reference_param(body, o)
}

/// One finding per freed local that leaves a reference owner dangling.
pub open spec fn dangling_findings(body: &Body, v: StateView, freed: Seq<Local>, span: Span) -> Seq<FindingView>
    decreases freed.len(),
{
    if freed.len() == 0 {
        Seq::empty()
    } else {
        let prev = dangling_findings(body, v, freed.drop_last(), span);
        if !body.is_drop_context && aliases_ref_param(body, v, freed.last()) {
            prev.push(finding("use_after_free"@, span, dangling_owner_message()))
        } else {
            prev
        }
    }
}

/// One finding per object of `objs` that is already reconstituted (or may
/// be), in the order of `objs`.
pub open spec fn double_free_findings(h: Map<ObjectId, HeapState>, objs: Seq<ObjectId>, short: Seq<char>, span: Span) -> Seq<FindingView>
    decreases objs.len(),
{
    if objs.len() == 0 {
        Seq::empty()
    } else {
        let prev = double_free_findings(h, objs.drop_last(), short, span);
        let o = objs.last();
        if h.contains_key(o) && h[o] == HeapState::Reconstituted {
            prev.push(finding("ownership_double_free"@, span, double_free_message(short)))
        } else if h.contains_key(o) && h[o] == HeapState::MaybeFreed {
            prev.push(finding("ownership_double_free"@, span, maybe_double_free_message(short)))
        } else {
            prev
        }
    }
}

/// `m` is the object with the smallest id in `s`.
pub open spec fn is_least(s: Set<ObjectId>, m: ObjectId) -> bool {
    s.contains(m) && forall|x: ObjectId| #[trigger] s.contains(x) ==> m.0 <= x.0
}

/// The objects of a finite set in increasing id order.
pub open spec fn ascending(s: Set<ObjectId>) -> Seq<ObjectId>
    decreases s.len(),
    when s.finite()
{
    if s.len() == 0 {
        Seq::empty()
    } else if exists|m: ObjectId| is_least(s, m) {
        let m = choose|m: ObjectId| is_least(s, m);
        seq![m] + ascending(s.remove(m))
    } else {
        Seq::empty()
    }
}

// ───────────────────────── per block ─────────────────────────

pub open spec fn leak_findings(n: nat, span: Span) -> Seq<FindingView> {
    Seq::new(n, |i: int| finding("ownership_leak"@, span, leak_message()))
}

/// The findings of block `b`, and the objects reported as leaked once `b`
/// is done, given those reported at earlier returns.
pub open spec fn ownership_block(body: &Body, es: Seq<Option<BlockState>>, sums: Map<DefId, FnSummary>, b: int,
    reported: Set<ObjectId>) -> (Seq<FindingView>, Set<ObjectId>)
{
    match before_term(es, body, b) {
        None => (Seq::empty(), reported),
        Some(v) => {
            let span = body.basic_blocks@[b].span;
            match &body.basic_blocks@[b].terminator {
                Some(TerminatorKind::Return) => {
                    let fresh = leaked_at(v).difference(reported);
                    (leak_findings(fresh.len(), span), reported.union(fresh))
                },
                Some(TerminatorKind::Call { func, args, .. }) => match spec_callee(v, func, None) {
                    Some(id) => {
                        let path = body.spec_path_of(id);
                        let freed = freed_locals(id, path, args@, sums);
                        if freed.len() == 0 {
                            (Seq::empty(), reported)
                        } else {
                            let dfs = if spec_is_from_raw(path) {
                                match spec_first_arg_local(args@) {
                                    Some(a) => double_free_findings(v.heap, ascending(set_at(v.points_to, a)),
                                        spec_from_raw_short(path), span),
                                    None => Seq::empty(),
                                }
                            } else {
                                Seq::empty()
                            };
                            (dangling_findings(body, v, freed, span) + dfs, reported)
                        }
                    },
                    None => (Seq::empty(), reported),
                },
                _ => (Seq::empty(), reported),
            }
        },
    }
}

/// The findings of the first `n` blocks, and the objects reported leaked.
pub open spec fn ownership_upto(body: &Body, es: Seq<Option<BlockState>>, sums: Map<DefId, FnSummary>, n: int)
    -> (Seq<FindingView>, Set<ObjectId>)
    decreases n,
{
    if n <= 0 {
        (Seq::empty(), Set::empty())
    } else {
        let (f, r) = ownership_upto(body, es, sums, n - 1);
        let (g, r2) = ownership_block(body, es, sums, n - 1, r);
        (f + g, r2)
    }
}

// ───────────────────────── implementation ─────────────────────────

/// The object with the smallest id in a non-empty set.
fn least_object(s: &VecSet<ObjectId>) -> (r: ObjectId)
    requires
        s@ != Set::<ObjectId>::empty(),
    ensures
        is_least(s@, r),
{
    s.lemma_elems();
    let ghost es = s.elems();
    if s.len() == 0 {
        proof { assert(s@ =~= Set::<ObjectId>::empty()); }
    }
    let mut best = s.at(0);
    let mut i: usize = 1;
    while i < s.len()
        invariant
            es == s.elems(),
            1 <= i <= es.len(),
            es.contains(best),
            forall|j: int| 0 <= j < i ==> best.0 <= #[trigger] es[j].0,
        decreases es.len() - i,
    {
        let x = s.at(i);
        if x.0 < best.0 {
            best = x;
        }
        i = i + 1;
    }
    proof {
        assert forall|x: ObjectId| #[trigger] s@.contains(x) implies best.0 <= x.0 by {
            let j = choose|j: int| 0 <= j < es.len() && es[j] == x;
        }
    }
    best
}

proof fn lemma_least_unique(s: Set<ObjectId>, m: ObjectId)
    requires
        is_least(s, m),
    ensures
        (choose|x: ObjectId| is_least(s, x)) == m,
{
    let c = choose|x: ObjectId| is_least(s, x);
    assert(is_least(s, c));
    assert(c.0 <= m.0 && m.0 <= c.0);
}

/// The objects of `s` in increasing id order.
fn ascending_objects(s: &VecSet<ObjectId>) -> (r: Vec<ObjectId>)
    ensures
        r@ == ascending(s@),
{
    let mut rest = s.duplicate();
    let mut out: Vec<ObjectId> = Vec::new();
    rest.lemma_elems();
    proof { assert(out@ + ascending(rest@) =~= ascending(s@)); }
    while !rest.is_empty()
        invariant
            rest@.finite(),
            out@ + ascending(rest@) == ascending(s@),
        decreases rest@.len(),
    {
        let m = least_object(&rest);
        proof {
            lemma_least_unique(rest@, m);
            assert(rest@.len() != 0) by {
                if rest@.len() == 0 {
                    assert(rest@.contains(m));
                }
            }
            assert(ascending(rest@) == seq![m] + ascending(rest@.remove(m)));
        }
        let ghost before = rest@;
        rest.remove(m);
        out.push(m);
        rest.lemma_elems();
        proof {
            assert(rest@ == before.remove(m));
            assert(out@ + ascending(rest@) =~= ascending(s@));
        }
    }
    proof {
        assert(rest@ =~= Set::<ObjectId>::empty());
        assert(ascending(rest@) =~= Seq::<ObjectId>::empty());
        assert(out@ =~= out@ + ascending(rest@));
    }
    out
}

/// Every object some local points to.
fn pointed_objects(state: &BlockState) -> (r: VecSet<ObjectId>)
    ensures
        forall|o: ObjectId| #[trigger] r@.contains(o) <==> exists|l: Local| state@.points_to.contains_key(l)
            && #[trigger] state@.points_to[l].contains(o),
{
    state.points_to.lemma_seqs();
    let ghost ks = state.points_to.key_seq();
    let mut all: VecSet<ObjectId> = VecSet::new();
    let mut i: usize = 0;
    while i < state.points_to.len()
        invariant
            ks == state.points_to.key_seq(),
            i <= ks.len(),
            ks.len() == state.points_to.val_seq().len(),
            forall|j: int| 0 <= j < ks.len() ==> #[trigger] state.points_to@.contains_key(ks[j])
                && state.points_to@[ks[j]] == state.points_to.val_seq()[j],
            forall|k: Local| #[trigger] state.points_to@.contains_key(k) <==> ks.contains(k),
            forall|o: ObjectId| #[trigger] all@.contains(o) <==> exists|j: int| 0 <= j < i
                && #[trigger] state.points_to.val_seq()[j]@.contains(o),
        decreases ks.len() - i,
    {
        let objs = state.points_to.val_at(i);
        all.union_with(objs);
        proof {
            assert forall|o: ObjectId| #[trigger] all@.contains(o) <==> exists|j: int| 0 <= j < i + 1
                && #[trigger] state.points_to.val_seq()[j]@.contains(o) by {
                if all@.contains(o) && !objs@.contains(o) {
                    let j = choose|j: int| 0 <= j < i && #[trigger] state.points_to.val_seq()[j]@.contains(o);
                }
            }
        }
        i = i + 1;
    }
    proof {
        assert forall|o: ObjectId| #[trigger] all@.contains(o) <==> exists|l: Local| state@.points_to.contains_key(l)
            && #[trigger] state@.points_to[l].contains(o) by {
            if all@.contains(o) {
                let j = choose|j: int| 0 <= j < i && #[trigger] state.points_to.val_seq()[j]@.contains(o);
                assert(state.points_to@.contains_key(ks[j]));
                assert(state@.points_to[ks[j]].contains(o));
            }
            if exists|l: Local| state@.points_to.contains_key(l) && #[trigger] state@.points_to[l].contains(o) {
                let l = choose|l: Local| state@.points_to.contains_key(l) && #[trigger] state@.points_to[l].contains(o);
                assert(ks.contains(l));
                let j = choose|j: int| 0 <= j < ks.len() && ks[j] == l;
                assert(state.points_to@.contains_key(ks[j]));
            }
        }
    }
    all
}

/// The locals a call frees (`freed_locals`).
fn freed_locals_of(callee: DefId, path: &str, args: &Vec<Operand>, flow: &FlowResults) -> (r: Vec<Local>)
    ensures
        r@ == freed_locals(callee, path@, args@, flow.summaries@),
{
    let mut freed: Vec<Local> = Vec::new();
    if is_from_raw(path) {
        match first_arg_local(args) {
            Some(a) => freed.push(a),
            None => {},
        }
        proof { assert(freed@ =~= freed_locals(callee, path@, args@, flow.summaries@)); }
    } else {
        match flow.summaries.get(callee) {
            Some(summary) => {
                let ghost es = summary.param_effects@;
                let mut i: usize = 0;
                proof { assert(es.subrange(0, 0) =~= Seq::<(usize, ParamHeapEffect)>::empty()); }
                while i < summary.param_effects.len()
                    invariant
                        es == summary.param_effects@,
                        i <= es.len(),
                        freed@ == reconstituted_args(es.subrange(0, i as int), args@),
                    decreases es.len() - i,
                {
                    let (idx, effect) = summary.param_effects[i];
                    if effect == ParamHeapEffect::Reconstituted {
                        match nth_arg_local(args, idx) {
                            Some(l) => freed.push(l),
                            None => {},
                        }
                    }
                    proof {
                        assert(es.subrange(0, i + 1).drop_last() =~= es.subrange(0, i as int));
                        assert(es.subrange(0, i + 1).last() == es[i as int]);
                    }
                    i = i + 1;
                }
                proof { assert(es.subrange(0, i as int) =~= es); }
            },
            None => {
                proof { assert(freed@ =~= freed_locals(callee, path@, args@, flow.summaries@)); }
            },
        }
    }
    freed
}

/// Whether some owner `l` aliases is a reference parameter.
fn owner_is_ref_param(body: &Body, state: &BlockState, l: Local) -> (r: bool)
    ensures
        r == aliases_ref_param(body, state@, l),
{
    let owners = state.owners_of(l);
    owners.lemma_elems();
    let mut i: usize = 0;
    while i < owners.len()
        invariant
            i <= owners.elems().len(),
            owners@ == set_at(state@.owner_alias, l),
            forall|x: Local| owners@.contains(x) <==> owners.elems().contains(x),
            forall|j: int| 0 <= j < i ==> !spec_is_reference_param(body, #[trigger] owners.elems()[j]),
        decreases owners.elems().len() - i,
    {
        let o = owners.at(i);
        if is_reference_param(body, o) {
            proof { assert(owners@.contains(o)); }
            return true;
        }
        i = i + 1;
    }
    proof {
        assert forall|o: Local| #[trigger] set_at(state@.owner_alias, l).contains(o) implies !spec_is_reference_param(body, o) by {
            let j = choose|j: int| 0 <= j < owners.elems().len() && owners.elems()[j] == o;
        }
    }
    false
}

impl OwnershipProtocol {
    /// Reports a leak for each `RawOwned` object still held (and not
    /// returned) at a reached `return`, once per object over the whole
    /// body; at each reached call that frees pointers, a use-after-free
    /// for each freed pointer still aliasing a reference parameter (outside
    /// drop code), and, for a `from_raw`, a double free for each of the
    /// pointer's objects already (or possibly) reconstituted, in increasing
    /// object order.
    pub fn check(&self, body: &Body, flow: &FlowResults) -> (r: Vec<Finding>)
        requires
            body.basic_blocks@.len() <= 0x1_0000_0000,
        ensures
            findings_view(r@) == ownership_upto(body, flow.entry_states@, flow.summaries@, body.basic_blocks@.len() as int).0,
    {
        let ghost es = flow.entry_states@;
        let ghost sums = flow.summaries@;
        let mut findings: Vec<Finding> = Vec::new();
        let mut leaked: VecSet<ObjectId> = VecSet::new();
        let mut bb: usize = 0;
        proof { assert(findings_view(findings@) =~= ownership_upto(body, es, sums, 0).0); }
        while bb < body.basic_blocks.len()
            invariant
                es == flow.entry_states@,
                sums == flow.summaries@,
                bb <= body.basic_blocks@.len() <= 0x1_0000_0000,
                findings_view(findings@) == ownership_upto(body, es, sums, bb as int).0,
                leaked@ == ownership_upto(body, es, sums, bb as int).1,
            decreases body.basic_blocks@.len() - bb,
        {
            let ghost before = findings_view(findings@);
            let ghost reported = leaked@;
            let span = body.basic_blocks[bb].span;
            match flow.state_before_terminator(body, bb as BasicBlock) {
                None => {},
                Some(state) => {
                    match &body.basic_blocks[bb].terminator {
                        Some(TerminatorKind::Return) => {
                            self.report_leaks(&state, &mut leaked, &mut findings, span);
                        },
                        Some(TerminatorKind::Call { func, args, .. }) => {
                            match callee(&state, func, None) {
                                Some(id) => {
                                    let path = body.path_of(id);
                                    let freed = freed_locals_of(id, path.as_str(), args, flow);
                                    if freed.len() > 0 {
                                        self.report_frees(body, &state, &freed, path.as_str(), args, &mut findings, span);
                                    }
                                },
                                None => {},
                            }
                        },
                        _ => {},
                    }
                },
            }
            proof {
                let (g, r2) = ownership_block(body, es, sums, bb as int, reported);
                assert(findings_view(findings@) == before + g);
                assert(leaked@ == r2);
            }
            bb = bb + 1;
        }
        findings
    }

    /// At a return: one leak finding per object of `leaked_at` not yet in
    /// `leaked`, which then takes them in.
    fn report_leaks(&self, state: &BlockState, leaked: &mut VecSet<ObjectId>, findings: &mut Vec<Finding>, span: Span)
        ensures
            leaked_at(state@).difference(old(leaked)@).finite(),
            final(leaked)@ == old(leaked)@.union(leaked_at(state@).difference(old(leaked)@)),
            findings_view(final(findings)@) == findings_view(old(findings)@)
                + leak_findings(leaked_at(state@).difference(old(leaked)@).len(), span),
    {
        let ghost reported = leaked@;
        let ghost start = findings_view(findings@);
        let returned = state.objects_for(0);
        let all = pointed_objects(state);
        all.lemma_elems();
        let ghost els = all.elems();
        let ghost mut added: Set<ObjectId> = Set::empty();
        let mut i: usize = 0;
        while i < all.len()
            invariant
                els == all.elems(),
                i <= els.len(),
                els.no_duplicates(),
                forall|x: ObjectId| all@.contains(x) <==> els.contains(x),
                forall|o: ObjectId| #[trigger] all@.contains(o) <==> exists|l: Local| state@.points_to.contains_key(l)
                    && #[trigger] state@.points_to[l].contains(o),
                returned@ == set_at(state@.points_to, 0),
                added.finite(),
                leaked@ == reported.union(added),
                forall|o: ObjectId| #[trigger] added.contains(o) <==> exists|j: int| 0 <= j < i && els[j] == o
                    && leaked_at(state@).contains(o) && !reported.contains(o),
                findings_view(findings@) == start + leak_findings(added.len(), span),
            decreases els.len() - i,
        {
            let o = all.at(i);
            proof {
                assert(els[i as int] == o);
                assert(els.contains(o));
                assert(all@.contains(o));
                assert(!added.contains(o)) by {
                    if added.contains(o) {
                        let j = choose|j: int| 0 <= j < i && els[j] == o && leaked_at(state@).contains(o) && !reported.contains(o);
                        assert(els[j] == els[i as int]);
                    }
                }
            }
            let owned = match state.heap.get_copy(o) {
                Some(HeapState::RawOwned) => true,
                _ => false,
            };
            if !returned.contains(o) && owned {
                if leaked.insert(o) {
                    let ghost f0 = findings_view(findings@);
                    findings.push(Finding { rule_id: "ownership_leak", severity: Severity::Warning, span,
                        message: "raw pointer obtained from `into_raw` is never reconstituted via `from_raw` — memory leak".to_owned() });
                    proof {
                        assert(leaked_at(state@).contains(o));
                        added = added.insert(o);
                        assert(findings_view(findings@) =~= f0.push(finding("ownership_leak"@, span, leak_message())));
                        assert(leak_findings(added.len(), span) =~= leak_findings((added.len() - 1) as nat, span)
                            .push(finding("ownership_leak"@, span, leak_message())));
                    }
                }
            }
            proof {
                assert forall|x: ObjectId| #[trigger] added.contains(x) <==> exists|j: int| 0 <= j < i + 1 && els[j] == x
                    && leaked_at(state@).contains(x) && !reported.contains(x) by {
                    if x == o && leaked_at(state@).contains(x) && !reported.contains(x) {
                        assert(els[i as int] == x);
                    }
                }
            }
            i = i + 1;
        }
        proof {
            assert(added =~= leaked_at(state@).difference(reported)) by {
                assert forall|x: ObjectId| leaked_at(state@).difference(reported).contains(x) implies #[trigger] added.contains(x) by {
                    assert(all@.contains(x));
                    let j = choose|j: int| 0 <= j < els.len() && els[j] == x;
                }
            }
        }
    }

    /// At a call that frees `freed`: the dangling-owner findings, then, for a
    /// `from_raw`, the double-free findings.
    fn report_frees(&self, body: &Body, state: &BlockState, freed: &Vec<Local>, path: &str, args: &Vec<Operand>,
        findings: &mut Vec<Finding>, span: Span)
        ensures
            findings_view(final(findings)@) == findings_view(old(findings)@) + dangling_findings(body, state@, freed@, span)
                + (if spec_is_from_raw(path@) {
                    match spec_first_arg_local(args@) {
                        Some(a) => double_free_findings(state@.heap, ascending(set_at(state@.points_to, a)),
                            spec_from_raw_short(path@), span),
                        None => Seq::empty(),
                    }
                } else {
                    Seq::empty()
                }),
    {
        let ghost start = findings_view(findings@);
        let mut i: usize = 0;
        proof { assert(freed@.subrange(0, 0) =~= Seq::<Local>::empty()); }
        while i < freed.len()
            invariant
                i <= freed@.len(),
                findings_view(findings@) == start + dangling_findings(body, state@, freed@.subrange(0, i as int), span),
            decreases freed@.len() - i,
        {
            let ghost f0 = findings_view(findings@);
            if !body.is_drop_context && owner_is_ref_param(body, state, freed[i]) {
                findings.push(Finding { rule_id: "use_after_free", severity: Severity::Warning, span,
                    message: "freeing a pointer that still aliases memory owned by a live value (e.g. `&mut self`'s \
                              buffer) — the owner is left with a dangling pointer; double-free when it is dropped".to_owned() });
                proof { assert(findings_view(findings@) =~= f0.push(findings@.last()@)); }
            }
            proof {
                assert(freed@.subrange(0, i + 1).drop_last() =~= freed@.subrange(0, i as int));
                assert(freed@.subrange(0, i + 1).last() == freed@[i as int]);
            }
            i = i + 1;
        }
        proof { assert(freed@.subrange(0, i as int) =~= freed@); }
        let ghost mid = findings_view(findings@);
        if is_from_raw(path) {
            match first_arg_local(args) {
                Some(a) => {
                    let objs = ascending_objects(&state.objects_for(a));
                    let short = from_raw_short(path);
                    let mut k: usize = 0;
                    proof { assert(objs@.subrange(0, 0) =~= Seq::<ObjectId>::empty()); }
                    while k < objs.len()
                        invariant
                            k <= objs@.len(),
                            findings_view(findings@) == mid + double_free_findings(state@.heap, objs@.subrange(0, k as int),
                                short@, span),
                        decreases objs@.len() - k,
                    {
                        let ghost f0 = findings_view(findings@);
                        match state.heap.get_copy(objs[k]) {
                            Some(HeapState::Reconstituted) => {
                                findings.push(Finding { rule_id: "ownership_double_free", severity: Severity::Warning, span,
                                    message: "`".to_owned().concat(short).concat(
                                        "` called on a pointer that was already reconstituted on this path — double-free") });
                                proof { assert(findings_view(findings@) =~= f0.push(findings@.last()@)); }
                            },
                            Some(HeapState::MaybeFreed) => {
                                findings.push(Finding { rule_id: "ownership_double_free", severity: Severity::Warning, span,
                                    message: "`".to_owned().concat(short).concat(
                                        "` — potential double-free: pointer may have already been reconstituted on \
                                         another control-flow path") });
                                proof { assert(findings_view(findings@) =~= f0.push(findings@.last()@)); }
                            },
                            _ => {},
                        }
                        proof {
                            assert(objs@.subrange(0, k + 1).drop_last() =~= objs@.subrange(0, k as int));
                            assert(objs@.subrange(0, k + 1).last() == objs@[k as int]);
                        }
                        k = k + 1;
                    }
                    proof { assert(objs@.subrange(0, k as int) =~= objs@); }
                },
                None => {},
            }
        }
        proof {
            assert(findings_view(findings@) =~= start + dangling_findings(body, state@, freed@, span)
                + (if spec_is_from_raw(path@) {
                    match spec_first_arg_local(args@) {
                        Some(a) => double_free_findings(state@.heap, ascending(set_at(state@.points_to, a)),
                            spec_from_raw_short(path@), span),
                        None => Seq::empty(),
                    }
                } else {
                    Seq::empty()
                }));
        }
    }
}

/// Inside a drop context the owner is being destroyed, so freeing what it
/// owns never counts as leaving it dangling.
pub proof fn lemma_drop_context_frees_quietly(body: &Body, v: StateView, freed: Seq<Local>, span: Span)
    requires
        body.is_drop_context,
    ensures
        dangling_findings(body, v, freed, span) == Seq::<FindingView>::empty(),
    decreases freed.len(),
{
    if freed.len() > 0 {
        lemma_drop_context_frees_quietly(body, v, freed.drop_last(), span);
    }
}

/// Outside a drop context, each freed local that aliases the interior of a
/// reference parameter gives one `use_after_free` finding at the call, and
/// no other local does.
pub proof fn lemma_dangling_owner_reported(body: &Body, v: StateView, freed: Seq<Local>, span: Span)
    requires
        !body.is_drop_context,
    ensures
        dangling_findings(body, v, freed, span).len() <= freed.len(),
        (forall|i: int| 0 <= i < freed.len() ==> #[trigger] aliases_ref_param(body, v, freed[i]))
            ==> dangling_findings(body, v, freed, span).len() == freed.len(),
        (forall|i: int| 0 <= i < freed.len() ==> !#[trigger] aliases_ref_param(body, v, freed[i]))
            ==> dangling_findings(body, v, freed, span).len() == 0,
        forall|i: int| 0 <= i < dangling_findings(body, v, freed, span).len() ==>
            (#[trigger] dangling_findings(body, v, freed, span)[i]).rule_id == "use_after_free"@
            && dangling_findings(body, v, freed, span)[i].span == span,
    decreases freed.len(),
{
    if freed.len() > 0 {
        let f = freed.drop_last();
        lemma_dangling_owner_reported(body, v, f, span);
        assert forall|i: int| 0 <= i < f.len() implies #[trigger] f[i] == freed[i] by {}
        if forall|i: int| 0 <= i < freed.len() ==> #[trigger] aliases_ref_param(body, v, freed[i]) {
            assert(forall|i: int| 0 <= i < f.len() ==> #[trigger] aliases_ref_param(body, v, f[i]));
            assert(aliases_ref_param(body, v, freed[freed.len() - 1]));
        }
        if forall|i: int| 0 <= i < freed.len() ==> !#[trigger] aliases_ref_param(body, v, freed[i]) {
            assert(forall|i: int| 0 <= i < f.len() ==> !#[trigger] aliases_ref_param(body, v, f[i]));
            assert(!aliases_ref_param(body, v, freed[freed.len() - 1]));
        }
    }
}

} // verus!
