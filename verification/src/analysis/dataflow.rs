//! The forward worklist fixpoint over a body's control-flow graph.

use vstd::prelude::*;
use std::collections::VecDeque;
use crate::analysis::call::{apply_terminator, spec_apply_terminator};
use crate::analysis::height::{height, lemma_join_lowers_height};
use crate::analysis::state::{
    BlockState, StateView, empty_view, join_changed, join_view, lemma_absorption_persists, lemma_join_absorbs, lemma_join_idempotent,
};
use crate::analysis::summary::{FnSummary, SummaryMap, spec_summary_seed, summary_initial_state};
use crate::collections::VecMap;
use crate::analysis::transfer::{apply_statement, spec_apply_statement};
use crate::mir::{BasicBlock, BasicBlockData, Body, DefId, Location, Operand, Statement, TerminatorKind, UnwindAction};

verus! {

broadcast use vstd::std_specs::vecdeque::axiom_spec_len;

// ───────────────────────── block transfer ─────────────────────────

/// The statements of `stmts`, applied in order.
pub open spec fn spec_apply_statements(v: StateView, body: &Body, stmts: Seq<Statement>) -> StateView
    decreases stmts.len(),
{
    if stmts.len() == 0 {
        v
    } else {
        spec_apply_statement(spec_apply_statements(v, body, stmts.drop_last()), body, &stmts.last())
    }
}

/// The state at the end of block `bb`, from the state at its entry.
pub open spec fn spec_block_exit(v: StateView, body: &Body, bb: BasicBlock, sums: Map<DefId, FnSummary>) -> StateView {
    let data = body.basic_blocks@[bb as int];
    let w = spec_apply_statements(v, body, data.statements@);
    match &data.terminator {
        Some(t) => spec_apply_terminator(w, body, bb, t, sums),
        None => w,
    }
}

/// Applies the first `upto` statements of `stmts`.
pub fn apply_statements(state: &mut BlockState, body: &Body, stmts: &Vec<Statement>, upto: usize)
    requires
        upto <= stmts@.len(),
    ensures
        final(state)@ == spec_apply_statements(old(state)@, body, stmts@.subrange(0, upto as int)),
{
    let ghost start = state@;
    let mut i: usize = 0;
    proof { assert(stmts@.subrange(0, 0) =~= Seq::<Statement>::empty()); }
    while i < upto
        invariant
            i <= upto <= stmts@.len(),
            state@ == spec_apply_statements(start, body, stmts@.subrange(0, i as int)),
        decreases upto - i,
    {
        apply_statement(state, body, &stmts[i]);
        proof {
            let pre = stmts@.subrange(0, i + 1);
            assert(pre.drop_last() =~= stmts@.subrange(0, i as int));
            assert(pre.last() == stmts@[i as int]);
        }
        i = i + 1;
    }
}

/// Runs block `bb` over `state`: its statements, then its terminator.
pub fn apply_block(state: &mut BlockState, body: &Body, bb: BasicBlock, summaries: &SummaryMap)
    requires
        (bb as int) < body.basic_blocks@.len(),
    ensures
        final(state)@ == spec_block_exit(old(state)@, body, bb, summaries@),
{
    let data = &body.basic_blocks[bb as usize];
    apply_statements(state, body, &data.statements, data.statements.len());
    proof { assert(data.statements@.subrange(0, data.statements@.len() as int) =~= data.statements@); }
    match &data.terminator {
        Some(t) => apply_terminator(state, body, bb, t, summaries),
        None => {},
    }
}

// ───────────────────────── successors ─────────────────────────

pub open spec fn unwind_succ(unwind: &UnwindAction) -> Seq<BasicBlock> {
    match unwind {
        UnwindAction::Cleanup(b) => seq![*b],
        UnwindAction::Other => Seq::empty(),
    }
}

pub open spec fn opt_succ(t: Option<BasicBlock>) -> Seq<BasicBlock> {
    match t {
        Some(b) => seq![b],
        None => Seq::empty(),
    }
}

/// The blocks control can reach from the end of `data`, unwind edges
/// included.
pub open spec fn spec_successors(data: &BasicBlockData) -> Seq<BasicBlock> {
    match &data.terminator {
        None => Seq::empty(),
        Some(term) => match term {
            TerminatorKind::Goto { target } => seq![*target],
            TerminatorKind::SwitchInt { targets, .. } =>
                targets.values@.map_values(|p: (u128, BasicBlock)| p.1).push(targets.otherwise),
            TerminatorKind::Call { target, unwind, .. } => opt_succ(*target) + unwind_succ(unwind),
            TerminatorKind::Drop { target, unwind, .. } => seq![*target] + unwind_succ(unwind),
            TerminatorKind::Assert { target, unwind, .. } => seq![*target] + unwind_succ(unwind),
            TerminatorKind::FalseEdge { real_target, imaginary_target } => seq![*real_target, *imaginary_target],
            TerminatorKind::FalseUnwind { real_target, unwind } => seq![*real_target] + unwind_succ(unwind),
            TerminatorKind::Yield { resume, drop } => seq![*resume] + opt_succ(*drop),
            TerminatorKind::InlineAsm { targets, unwind, .. } => targets@ + unwind_succ(unwind),
            _ => Seq::empty(),
        },
    }
}

/// Appends the cleanup block of `unwind`, if it has one.
fn push_unwind(succs: &mut Vec<BasicBlock>, unwind: &UnwindAction)
    ensures
        final(succs)@ == old(succs)@ + unwind_succ(unwind),
{
    match unwind {
        UnwindAction::Cleanup(b) => succs.push(*b),
        UnwindAction::Other => {},
    }
    proof { assert(succs@ =~= old(succs)@ + unwind_succ(unwind)); }
}

/// The successors of a block, in the order the worklist visits them.
pub fn block_successors(data: &BasicBlockData) -> (r: Vec<BasicBlock>)
    ensures
        r@ == spec_successors(data),
{
    let mut succs: Vec<BasicBlock> = Vec::new();
    match &data.terminator {
        None => {},
        Some(term) => match term {
            TerminatorKind::Goto { target } => succs.push(*target),
            TerminatorKind::SwitchInt { targets, .. } => {
                let mut i: usize = 0;
                while i < targets.values.len()
                    invariant
                        i <= targets.values@.len(),
                        succs@ == targets.values@.subrange(0, i as int).map_values(|p: (u128, BasicBlock)| p.1),
                    decreases targets.values@.len() - i,
                {
                    succs.push(targets.values[i].1);
                    proof {
                        assert(targets.values@.subrange(0, i + 1).map_values(|p: (u128, BasicBlock)| p.1)
                            =~= targets.values@.subrange(0, i as int).map_values(|p: (u128, BasicBlock)| p.1)
                                .push(targets.values@[i as int].1));
                    }
                    i = i + 1;
                }
                proof { assert(targets.values@.subrange(0, i as int) =~= targets.values@); }
                succs.push(targets.otherwise);
            },
            TerminatorKind::Call { target, unwind, .. } => {
                match target {
                    Some(t) => succs.push(*t),
                    None => {},
                }
                push_unwind(&mut succs, unwind);
            },
            TerminatorKind::Drop { target, unwind, .. } => {
                succs.push(*target);
                push_unwind(&mut succs, unwind);
            },
            TerminatorKind::Assert { target, unwind, .. } => {
                succs.push(*target);
                push_unwind(&mut succs, unwind);
            },
            TerminatorKind::FalseEdge { real_target, imaginary_target } => {
                succs.push(*real_target);
                succs.push(*imaginary_target);
            },
            TerminatorKind::FalseUnwind { real_target, unwind } => {
                succs.push(*real_target);
                push_unwind(&mut succs, unwind);
            },
            TerminatorKind::Yield { resume, drop } => {
                succs.push(*resume);
                match drop {
                    Some(d) => succs.push(*d),
                    None => {},
                }
            },
            TerminatorKind::InlineAsm { targets, unwind, .. } => {
                let mut i: usize = 0;
                while i < targets.len()
                    invariant
                        i <= targets@.len(),
                        succs@ == targets@.subrange(0, i as int),
                    decreases targets@.len() - i,
                {
                    succs.push(targets[i]);
                    proof { assert(targets@.subrange(0, i + 1) =~= targets@.subrange(0, i as int).push(targets@[i as int])); }
                    i = i + 1;
                }
                push_unwind(&mut succs, unwind);
            },
            _ => {},
        },
    }
    proof { assert(succs@ =~= spec_successors(data)); }
    succs
}

// ───────────────────────── the fixpoint ─────────────────────────

/// Every block id fits in `u32`, there is an entry block, and every
/// successor names a block of the body.
pub open spec fn body_wf(body: &Body) -> bool {
    &&& 0 < body.basic_blocks@.len() <= 0x1_0000_0000
    &&& forall|b: int, j: int|
        0 <= b < body.basic_blocks@.len() && 0 <= j < spec_successors(&body.basic_blocks@[b]).len()
            ==> (#[trigger] spec_successors(&body.basic_blocks@[b])[j] as int) < body.basic_blocks@.len()
}

/// Whether the analysis can run on `body`: it has an entry block, its block
/// ids and parameter objects fit in `u32`, and every successor is a block
/// of the body (as the compiler's MIR always is).
pub fn body_is_usable(body: &Body) -> (r: bool)
    ensures
        r == (body_wf(body) && body.arg_count <= 0x8000_0000),
{
    let n = body.basic_blocks.len();
    if n == 0 || n as u64 > 0x1_0000_0000 || body.arg_count > 0x8000_0000 {
        return false;
    }
    let mut b: usize = 0;
    while b < n
        invariant
            n == body.basic_blocks@.len(),
            0 < n <= 0x1_0000_0000,
            b <= n,
            forall|c: int, j: int|
                0 <= c < b && 0 <= j < spec_successors(&body.basic_blocks@[c]).len()
                    ==> (#[trigger] spec_successors(&body.basic_blocks@[c])[j] as int) < n,
        decreases n - b,
    {
        let succs = block_successors(&body.basic_blocks[b]);
        let mut j: usize = 0;
        while j < succs.len()
            invariant
                n == body.basic_blocks@.len(),
                b < n,
                j <= succs@.len(),
                succs@ == spec_successors(&body.basic_blocks@[b as int]),
                forall|c: int, i: int|
                    0 <= c < b && 0 <= i < spec_successors(&body.basic_blocks@[c]).len()
                        ==> (#[trigger] spec_successors(&body.basic_blocks@[c])[i] as int) < n,
                forall|i: int| 0 <= i < j ==> (#[trigger] succs@[i] as int) < n,
            decreases succs@.len() - j,
        {
            if succs[j] as usize >= n {
                proof { assert(!body_wf(body)) by {
                    assert(spec_successors(&body.basic_blocks@[b as int])[j as int] as int >= n);
                } }
                return false;
            }
            j = j + 1;
        }
        b = b + 1;
    }
    true
}

/// The entry state of `s` takes in the exit state of `b` without change.
pub open spec fn edge_stable(es: Seq<Option<BlockState>>, body: &Body, sums: Map<DefId, FnSummary>, b: int, s: int) -> bool {
    &&& es[s] is Some
    &&& !join_changed(es[s]->0@, spec_block_exit(es[b]->0@, body, b as BasicBlock, sums))
}

/// A reached block `b` passes nothing new to any of its successors.
pub open spec fn block_stable(es: Seq<Option<BlockState>>, body: &Body, sums: Map<DefId, FnSummary>, b: int) -> bool {
    es[b] is Some ==> forall|j: int| 0 <= j < spec_successors(&body.basic_blocks@[b]).len()
        ==> #[trigger] edge_stable(es, body, sums, b, spec_successors(&body.basic_blocks@[b])[j] as int)
}

/// Every reached block's exit state is absorbed by each successor's entry
/// state: the entry states are a fixpoint of the transfer functions.
pub open spec fn is_fixpoint(es: Seq<Option<BlockState>>, body: &Body, sums: Map<DefId, FnSummary>) -> bool {
    forall|b: int| 0 <= b < es.len() ==> #[trigger] block_stable(es, body, sums, b)
}

/// Block `p` of the body has `b` among its successors.
pub open spec fn is_edge(body: &Body, p: int, b: int) -> bool {
    &&& 0 <= p < body.basic_blocks@.len()
    &&& 0 <= b <= u32::MAX
    &&& spec_successors(&body.basic_blocks@[p]).contains(b as BasicBlock)
}

/// `path` starts at the entry block and follows control-flow edges.
pub open spec fn is_path(body: &Body, path: Seq<int>) -> bool {
    &&& path.len() > 0
    &&& path[0] == 0
    &&& forall|i: int| 0 <= i < path.len() - 1 ==> #[trigger] is_edge(body, path[i], path[i + 1])
}

/// Some path of control-flow edges leads from the entry block to `b`.
pub open spec fn reachable(body: &Body, b: int) -> bool {
    exists|path: Seq<int>| #[trigger] is_path(body, path) && path.last() == b
}

/// A successor of a reachable block is reachable.
proof fn lemma_reachable_step(body: &Body, p: int, j: int)
    requires
        reachable(body, p),
        0 <= p < body.basic_blocks@.len(),
        0 <= j < spec_successors(&body.basic_blocks@[p]).len(),
    ensures
        reachable(body, spec_successors(&body.basic_blocks@[p])[j] as int),
{
    let path = choose|path: Seq<int>| #[trigger] is_path(body, path) && path.last() == p;
    let sbs = spec_successors(&body.basic_blocks@[p]);
    let s = sbs[j] as int;
    assert(sbs.contains(s as BasicBlock));
    let q = path.push(s);
    assert forall|i: int| 0 <= i < q.len() - 1 implies #[trigger] is_edge(body, q[i], q[i + 1]) by {
        if i < path.len() - 1 {
            assert(q[i] == path[i] && q[i + 1] == path[i + 1]);
            assert(is_edge(body, path[i], path[i + 1]));
        } else {
            assert(q[i] == p && q[i + 1] == s);
        }
    }
    assert(is_path(body, q) && q.last() == s);
}

/// In a fixpoint that reaches the entry block, every block on a path from
/// the entry has an entry state.
proof fn lemma_fixpoint_covers_path(es: Seq<Option<BlockState>>, body: &Body, sums: Map<DefId, FnSummary>, path: Seq<int>, i: int)
    requires
        body_wf(body),
        es.len() == body.basic_blocks@.len(),
        es[0] is Some,
        is_fixpoint(es, body, sums),
        is_path(body, path),
        0 <= i < path.len(),
    ensures
        0 <= path[i] < es.len(),
        es[path[i]] is Some,
    decreases i,
{
    if i > 0 {
        lemma_fixpoint_covers_path(es, body, sums, path, i - 1);
        let h = i - 1;
        let p = path[h];
        assert(is_edge(body, path[h], path[h + 1]));
        assert(h + 1 == i);
        let sbs = spec_successors(&body.basic_blocks@[p]);
        assert(sbs.contains(path[i] as BasicBlock));
        let j = choose|j: int| 0 <= j < sbs.len() && sbs[j] == path[i] as BasicBlock;
        assert(block_stable(es, body, sums, p));
        assert(edge_stable(es, body, sums, p, sbs[j] as int));
    }
}

/// The entry states give a state to exactly the reachable blocks.
pub open spec fn covers_reachable(es: Seq<Option<BlockState>>, body: &Body) -> bool {
    forall|b: int| 0 <= b < es.len() ==> (#[trigger] es[b] is Some <==> reachable(body, b))
}

/// A fixpoint that reaches the entry block, and gives states only to
/// reachable blocks, gives a state to every reachable block.
pub proof fn lemma_fixpoint_covers_reachable(es: Seq<Option<BlockState>>, body: &Body, sums: Map<DefId, FnSummary>)
    requires
        body_wf(body),
        es.len() == body.basic_blocks@.len(),
        es[0] is Some,
        is_fixpoint(es, body, sums),
        forall|b: int| 0 <= b < es.len() && #[trigger] es[b] is Some ==> reachable(body, b),
    ensures
        covers_reachable(es, body),
{
    assert forall|b: int| 0 <= b < es.len() implies (#[trigger] es[b] is Some <==> reachable(body, b)) by {
        if reachable(body, b) {
            let path = choose|path: Seq<int>| #[trigger] is_path(body, path) && path.last() == b;
            lemma_fixpoint_covers_path(es, body, sums, path, path.len() - 1);
        }
    }
}

// ───────────────────────── the iteration, as a spec ─────────────────────────

/// The worklist iteration between two visits: the entry state of each block
/// (`None` while unreached), the queued blocks in order, and which blocks
/// are queued.
pub struct Pass {
    pub es: Seq<Option<StateView>>,
    pub wl: Seq<BasicBlock>,
    pub inq: Seq<bool>,
}

/// The views of a sequence of entry states.
pub open spec fn views(es: Seq<Option<BlockState>>) -> Seq<Option<StateView>> {
    es.map_values(|e: Option<BlockState>| match e {
        Some(s) => Some(s@),
        None => None,
    })
}

/// The pass's shape fits the body: one entry per block, one flag per block,
/// queued blocks in range.
pub open spec fn pass_wf(body: &Body, w: Pass) -> bool {
    &&& body_wf(body)
    &&& w.es.len() == body.basic_blocks@.len()
    &&& w.inq.len() == body.basic_blocks@.len()
    &&& forall|i: int| 0 <= i < w.wl.len() ==> (#[trigger] w.wl[i] as int) < body.basic_blocks@.len()
}

/// Passing the exit state `x` to block `s`: the first state it receives, or
/// its join with what it had; a block whose state changed is queued unless
/// it already is.
pub open spec fn visit_one(w: Pass, x: StateView, s: BasicBlock) -> Pass {
    let si = s as int;
    let (changed, ne) = match w.es[si] {
        None => (true, x),
        Some(ev) => (join_changed(ev, x), join_view(ev, x)),
    };
    if !changed {
        w
    } else if w.inq[si] {
        Pass { es: w.es.update(si, Some(ne)), ..w }
    } else {
        Pass { es: w.es.update(si, Some(ne)), wl: w.wl.push(s), inq: w.inq.update(si, true) }
    }
}

/// Passing `x` to the first `k` of `succs`, in order.
pub open spec fn visit(w: Pass, x: StateView, succs: Seq<BasicBlock>, k: int) -> Pass
    decreases k,
{
    if k <= 0 {
        w
    } else {
        visit_one(visit(w, x, succs, k - 1), x, succs[k - 1])
    }
}

/// One visit: the first queued block leaves the queue and, if reached,
/// passes its exit state to its successors.
pub open spec fn step(body: &Body, sums: Map<DefId, FnSummary>, w: Pass) -> Pass {
    let bb = w.wl[0];
    let w1 = Pass { es: w.es, wl: w.wl.drop_first(), inq: w.inq.update(bb as int, false) };
    match w.es[bb as int] {
        None => w1,
        Some(ev) => {
            let sb = spec_successors(&body.basic_blocks@[bb as int]);
            visit(w1, spec_block_exit(ev, body, bb, sums), sb, sb.len() as int)
        },
    }
}

/// How many blocks have no entry state yet.
pub open spec fn count_unreached(es: Seq<Option<StateView>>) -> nat
    decreases es.len(),
{
    if es.len() == 0 {
        0
    } else {
        count_unreached(es.drop_last()) + if es.last() is None { 1nat } else { 0nat }
    }
}

pub open spec fn opt_height(e: Option<StateView>) -> nat {
    match e {
        Some(s) => height(s),
        None => 0nat,
    }
}

/// The heights of the entry states, summed.
pub open spec fn total_height(es: Seq<Option<StateView>>) -> nat
    decreases es.len(),
{
    if es.len() == 0 {
        0
    } else {
        total_height(es.drop_last()) + opt_height(es.last())
    }
}

/// Giving block `i` the entry state `x` removes it from the unreached
/// blocks and exchanges its height for that of `x`.
proof fn lemma_set_entry(es: Seq<Option<StateView>>, i: int, x: StateView)
    requires
        0 <= i < es.len(),
    ensures
        count_unreached(es.update(i, Some(x))) + (if es[i] is None { 1nat } else { 0nat }) == count_unreached(es),
        total_height(es.update(i, Some(x))) + opt_height(es[i]) == total_height(es) + height(x),
    decreases es.len(),
{
    let u = es.update(i, Some(x));
    if i < es.len() - 1 {
        assert(u.drop_last() =~= es.drop_last().update(i, Some(x)));
        lemma_set_entry(es.drop_last(), i, x);
    } else {
        assert(u.drop_last() =~= es.drop_last());
    }
}

/// `r` is `w`, or has fewer unreached blocks, or as many and less height.
pub open spec fn no_higher(r: Pass, w: Pass) -> bool {
    ||| r == w
    ||| count_unreached(r.es) < count_unreached(w.es)
    ||| (count_unreached(r.es) == count_unreached(w.es) && total_height(r.es) < total_height(w.es))
}

proof fn lemma_visit(w: Pass, x: StateView, succs: Seq<BasicBlock>, k: int, n: int)
    requires
        w.es.len() == n,
        w.inq.len() == n,
        0 <= k <= succs.len(),
        forall|j: int| 0 <= j < succs.len() ==> (#[trigger] succs[j] as int) < n,
    ensures
        visit(w, x, succs, k).es.len() == n,
        visit(w, x, succs, k).inq.len() == n,
        forall|i: int| 0 <= i < visit(w, x, succs, k).wl.len() ==>
            #[trigger] w.wl.contains(visit(w, x, succs, k).wl[i]) || succs.contains(visit(w, x, succs, k).wl[i]),
        no_higher(visit(w, x, succs, k), w),
    decreases k,
{
    if k > 0 {
        lemma_visit(w, x, succs, k - 1, n);
        let p = visit(w, x, succs, k - 1);
        let s = succs[k - 1];
        let si = s as int;
        let r = visit_one(p, x, s);
        assert(si < n);
        match p.es[si] {
            None => {
                lemma_set_entry(p.es, si, x);
            },
            Some(ev) => {
                lemma_set_entry(p.es, si, join_view(ev, x));
                lemma_join_lowers_height(ev, x);
            },
        }
        assert forall|i: int| 0 <= i < r.wl.len() implies #[trigger] w.wl.contains(r.wl[i]) || succs.contains(r.wl[i]) by {
            if i < p.wl.len() {
                assert(r.wl[i] == p.wl[i]);
                assert(w.wl.contains(p.wl[i]) || succs.contains(p.wl[i]));
            } else {
                assert(r.wl[i] == s);
                assert(succs.contains(s));
            }
        }
    }
}

proof fn lemma_step(body: &Body, sums: Map<DefId, FnSummary>, w: Pass)
    requires
        pass_wf(body, w),
        w.wl.len() > 0,
    ensures
        pass_wf(body, step(body, sums, w)),
        count_unreached(step(body, sums, w).es) < count_unreached(w.es)
        || (count_unreached(step(body, sums, w).es) == count_unreached(w.es) && (
            total_height(step(body, sums, w).es) < total_height(w.es)
            || (total_height(step(body, sums, w).es) == total_height(w.es) && step(body, sums, w).wl.len() < w.wl.len()))),
{
    let n = body.basic_blocks@.len() as int;
    let bb = w.wl[0];
    assert((bb as int) < n);
    let w1 = Pass { es: w.es, wl: w.wl.drop_first(), inq: w.inq.update(bb as int, false) };
    assert forall|i: int| 0 <= i < w1.wl.len() implies (#[trigger] w1.wl[i] as int) < n by {
        assert(w1.wl[i] == w.wl[i + 1]);
    }
    match w.es[bb as int] {
        None => {},
        Some(ev) => {
            let sb = spec_successors(&body.basic_blocks@[bb as int]);
            assert forall|j: int| 0 <= j < sb.len() implies (#[trigger] sb[j] as int) < n by {}
            lemma_visit(w1, spec_block_exit(ev, body, bb, sums), sb, sb.len() as int, n);
            let r = visit(w1, spec_block_exit(ev, body, bb, sums), sb, sb.len() as int);
            assert forall|i: int| 0 <= i < r.wl.len() implies (#[trigger] r.wl[i] as int) < n by {
                if w1.wl.contains(r.wl[i]) {
                    let m = choose|m: int| 0 <= m < w1.wl.len() && w1.wl[m] == r.wl[i];
                    assert((w1.wl[m] as int) < n);
                } else {
                    assert(sb.contains(r.wl[i]));
                    let m = choose|m: int| 0 <= m < sb.len() && sb[m] == r.wl[i];
                    assert((sb[m] as int) < n);
                }
            }
        },
    }
}

/// The iteration run until the queue is empty.
pub open spec fn iterate(body: &Body, sums: Map<DefId, FnSummary>, w: Pass) -> Seq<Option<StateView>>
    decreases count_unreached(w.es), total_height(w.es), w.wl.len()
    when pass_wf(body, w)
    via iterate_decreases
{
    if w.wl.len() == 0 {
        w.es
    } else {
        iterate(body, sums, step(body, sums, w))
    }
}

#[via_fn]
proof fn iterate_decreases(body: &Body, sums: Map<DefId, FnSummary>, w: Pass) {
    if w.wl.len() > 0 {
        lemma_step(body, sums, w);
    }
}

/// The entry states the worklist iteration reaches from `init` at the
/// entry block, with only the entry block queued.
pub open spec fn fixpoint_from(body: &Body, init: StateView, sums: Map<DefId, FnSummary>) -> Seq<Option<StateView>> {
    let n = body.basic_blocks@.len() as int;
    iterate(body, sums, Pass {
        es: Seq::new(n as nat, |i: int| if i == 0 { Some(init) } else { None }),
        wl: seq![0u32],
        inq: Seq::new(n as nat, |i: int| i == 0),
    })
}

/// The worklist iteration from `initial_state` at the entry block. Returns
/// the entry state of each block: `None` exactly where no path reaches it,
/// and a fixpoint of the transfer functions. It stops because every join
/// that changes an entry state lowers its height.
fn run_fixpoint(body: &Body, initial_state: BlockState, summaries: &SummaryMap) -> (r: Vec<Option<BlockState>>)
    requires
        body_wf(body),
    ensures
        r@.len() == body.basic_blocks@.len(),
        r@[0] is Some,
        !join_changed(r@[0]->0@, initial_state@),
        is_fixpoint(r@, body, summaries@),
        covers_reachable(r@, body),
        views(r@) == fixpoint_from(body, initial_state@, summaries@),
{
    let n = body.basic_blocks.len();
    let ghost sums = summaries@;
    let ghost init = initial_state@;
    let mut entry_states: Vec<Option<BlockState>> = Vec::new();
    let mut in_worklist: Vec<bool> = Vec::new();
    let mut i: usize = 0;
    while i < n
        invariant
            n == body.basic_blocks@.len(),
            i <= n,
            entry_states@.len() == i,
            in_worklist@.len() == i,
            forall|b: int| 0 <= b < i ==> entry_states@[b] is None,
            forall|b: int| 0 <= b < i ==> !in_worklist@[b],
        decreases n - i,
    {
        entry_states.push(None);
        in_worklist.push(false);
        i = i + 1;
    }
    entry_states.set(0, Some(initial_state));
    in_worklist.set(0, true);
    let mut worklist: VecDeque<BasicBlock> = VecDeque::new();
    worklist.push_back(0);
    proof {
        lemma_join_idempotent(init);
        assert(worklist@[0] == 0u32);
        assert forall|b: int| 0 <= b < n && !in_worklist@[b] implies #[trigger] block_stable(entry_states@, body, sums, b) by {}
        assert forall|b: int| 0 <= b < n && #[trigger] entry_states@[b] is Some implies reachable(body, b) by {
            assert(b == 0);
            assert(is_path(body, seq![0int]));
        }
        assert(views(entry_states@) =~= Seq::new(n as nat, |i: int| if i == 0 { Some(init) } else { None }));
        assert(worklist@ =~= seq![0u32]);
        assert(in_worklist@ =~= Seq::new(n as nat, |i: int| i == 0));
    }
    while worklist.len() > 0
        invariant
            body_wf(body),
            n == body.basic_blocks@.len(),
            sums == summaries@,
            entry_states@.len() == n,
            in_worklist@.len() == n,
            entry_states@[0] is Some,
            !join_changed(entry_states@[0]->0@, init),
            forall|i: int| 0 <= i < worklist@.len() ==> (#[trigger] worklist@[i] as int) < n,
            forall|b: int| 0 <= b < n && #[trigger] in_worklist@[b] ==> worklist@.contains(b as BasicBlock),
            forall|b: int| 0 <= b < n && !#[trigger] in_worklist@[b] ==> block_stable(entry_states@, body, sums, b),
            forall|b: int| 0 <= b < n && #[trigger] entry_states@[b] is Some ==> reachable(body, b),
            iterate(body, sums, Pass { es: views(entry_states@), wl: worklist@, inq: in_worklist@ })
                == fixpoint_from(body, init, sums),
        decreases count_unreached(views(entry_states@)), total_height(views(entry_states@)), worklist@.len(),
    {
        let ghost wl0 = worklist@;
        let ghost w0 = Pass { es: views(entry_states@), wl: worklist@, inq: in_worklist@ };
        proof { assert(pass_wf(body, w0)); }
        let ghost n0 = count_unreached(views(entry_states@));
        let ghost t0 = total_height(views(entry_states@));
        match worklist.pop_front() {
            None => {},
            Some(bb) => {
                in_worklist.set(bb as usize, false);
                proof {
                    assert forall|b: int| 0 <= b < n && #[trigger] in_worklist@[b] implies worklist@.contains(b as BasicBlock) by {
                        assert(wl0.contains(b as BasicBlock));
                        let i = choose|i: int| 0 <= i < wl0.len() && wl0[i] == b as BasicBlock;
                        assert(i != 0);
                        assert(worklist@[i - 1] == wl0[i]);
                    }
                    assert forall|i: int| 0 <= i < worklist@.len() implies (#[trigger] worklist@[i] as int) < n by {
                        assert(worklist@[i] == wl0[i + 1]);
                    }
                }
                let ghost w1 = Pass { es: views(entry_states@), wl: worklist@, inq: in_worklist@ };
                proof {
                    assert(bb == w0.wl[0]);
                    assert(w1 == Pass { es: w0.es, wl: w0.wl.drop_first(), inq: w0.inq.update(bb as int, false) });
                    assert(views(entry_states@)[bb as int] == (match entry_states@[bb as int] {
                        Some(s) => Some(s@),
                        None => None,
                    }));
                }
                let entry = match &entry_states[bb as usize] {
                    Some(s) => Some(s.duplicate()),
                    None => None,
                };
                match entry {
                    None => {
                        proof {
                            assert(w0.es[bb as int] is None);
                            assert(Pass { es: views(entry_states@), wl: worklist@, inq: in_worklist@ } == step(body, sums, w0));
                        }
                    },
                    Some(state0) => {
                        let mut state = state0;
                        let ghost ev = state@;
                        apply_block(&mut state, body, bb, summaries);
                        let ghost x = state@;
                        let succs = block_successors(&body.basic_blocks[bb as usize]);
                        let ghost sb = succs@;
                        let mut k: usize = 0;
                        while k < succs.len()
                            invariant
                                body_wf(body),
                                n == body.basic_blocks@.len(),
                                sums == summaries@,
                                entry_states@.len() == n,
                                in_worklist@.len() == n,
                                entry_states@[0] is Some,
                                !join_changed(entry_states@[0]->0@, init),
                                forall|i: int| 0 <= i < worklist@.len() ==> (#[trigger] worklist@[i] as int) < n,
                                forall|b: int| 0 <= b < n && #[trigger] in_worklist@[b] ==> worklist@.contains(b as BasicBlock),
                                forall|b: int| 0 <= b < n && b != bb && !#[trigger] in_worklist@[b]
                                    ==> block_stable(entry_states@, body, sums, b),
                                (bb as int) < n,
                                sb == succs@,
                                sb == spec_successors(&body.basic_blocks@[bb as int]),
                                x == spec_block_exit(ev, body, bb, sums),
                                state@ == x,
                                k <= sb.len(),
                                in_worklist@[bb as int] || (entry_states@[bb as int] is Some && entry_states@[bb as int]->0@ == ev),
                                forall|j: int| 0 <= j < k ==> #[trigger] entry_states@[sb[j] as int] is Some
                                    && !join_changed(entry_states@[sb[j] as int]->0@, x),
                                forall|b: int| 0 <= b < n && #[trigger] entry_states@[b] is Some ==> reachable(body, b),
                                reachable(body, bb as int),
                                count_unreached(views(entry_states@)) < n0 || (count_unreached(views(entry_states@)) == n0 && (
                                    total_height(views(entry_states@)) < t0 || (total_height(views(entry_states@)) == t0
                                        && worklist@.len() < wl0.len()))),
                                (Pass { es: views(entry_states@), wl: worklist@, inq: in_worklist@ }) == visit(w1, x, sb, k as int),
                            decreases sb.len() - k,
                        {
                            let s = succs[k];
                            proof { assert(sb[k as int] == spec_successors(&body.basic_blocks@[bb as int])[k as int]); }
                            let ghost es0 = entry_states@;
                            let ghost iw0 = in_worklist@;
                            let ghost wq0 = worklist@;
                            let (changed, update) = match &entry_states[s as usize] {
                                None => (true, Some(state.duplicate())),
                                Some(existing) => {
                                    let (merged, ch) = existing.join_with(&state);
                                    if ch { (true, Some(merged)) } else { (false, None) }
                                },
                            };
                            match update {
                                Some(u) => entry_states.set(s as usize, Some(u)),
                                None => {},
                            }
                            if changed && !in_worklist[s as usize] {
                                worklist.push_back(s);
                                in_worklist.set(s as usize, true);
                            }
                            proof {
                                let si = s as int;
                                let p = visit(w1, x, sb, k as int);
                                assert(visit(w1, x, sb, k + 1) == visit_one(p, x, s));
                                assert(p.es[si] == (match es0[si] { Some(e) => Some(e@), None => None }));
                                if changed {
                                    assert(views(entry_states@) =~= p.es.update(si, Some(entry_states@[si]->0@)));
                                } else {
                                    assert(views(entry_states@) =~= p.es);
                                }
                                assert(Pass { es: views(entry_states@), wl: worklist@, inq: in_worklist@ } == visit_one(p, x, s));
                                if changed {
                                    lemma_set_entry(views(es0), si, entry_states@[si]->0@);
                                    assert(entry_states@ =~= es0.update(si, Some(entry_states@[si]->0)));
                                    assert(views(entry_states@) =~= views(es0).update(si, Some(entry_states@[si]->0@)));
                                    if es0[si] is Some {
                                        crate::analysis::height::lemma_join_lowers_height(es0[si]->0@, x);
                                    }
                                }
                                lemma_reachable_step(body, bb as int, k as int);
                                assert forall|b: int| 0 <= b < n && #[trigger] entry_states@[b] is Some
                                    implies reachable(body, b) by {
                                    if b != si {
                                        assert(entry_states@[b] == es0[b]);
                                    }
                                }
                                assert(changed ==> in_worklist@[si]);
                                assert(!changed ==> entry_states@ == es0);
                                assert(changed ==> entry_states@[si] is Some && entry_states@[si]->0@ == (
                                    if es0[si] is Some { crate::analysis::state::join_view(es0[si]->0@, x) } else { x }));
                                assert(changed ==> forall|t: int| 0 <= t < n && t != si ==> entry_states@[t] == es0[t]);
                                // The worklist keeps every flagged block.
                                assert forall|b: int| 0 <= b < n && #[trigger] in_worklist@[b] implies worklist@.contains(b as BasicBlock) by {
                                    if iw0[b] {
                                        assert(wq0.contains(b as BasicBlock));
                                        let i = choose|i: int| 0 <= i < wq0.len() && wq0[i] == b as BasicBlock;
                                        assert(worklist@[i] == wq0[i]);
                                    } else {
                                        assert(worklist@ == wq0.push(s));
                                        assert(worklist@[worklist@.len() - 1] == s);
                                    }
                                }
                                // The entry block still absorbs the initial state.
                                if changed && si == 0 && es0[0] is Some {
                                    lemma_absorption_persists(es0[0]->0@, x, init);
                                }
                                // Stable blocks other than `bb` stay stable.
                                assert forall|b: int| 0 <= b < n && b != bb && !#[trigger] in_worklist@[b]
                                    implies block_stable(entry_states@, body, sums, b) by {
                                    assert(!iw0[b]);
                                    assert(block_stable(es0, body, sums, b));
                                    if entry_states@[b] is Some {
                                        assert(entry_states@[b] == es0[b]);
                                        let sbs = spec_successors(&body.basic_blocks@[b]);
                                        assert forall|j: int| 0 <= j < sbs.len()
                                            implies #[trigger] edge_stable(entry_states@, body, sums, b, sbs[j] as int) by {
                                            let t = sbs[j] as int;
                                            assert(edge_stable(es0, body, sums, b, t));
                                            if t == si && changed {
                                                lemma_absorption_persists(es0[si]->0@, x,
                                                    spec_block_exit(es0[b]->0@, body, b as BasicBlock, sums));
                                            }
                                        }
                                    }
                                }
                                // The edges of `bb` handled so far, this one included, are stable.
                                if es0[si] is None {
                                    lemma_join_idempotent(x);
                                } else if changed {
                                    lemma_join_absorbs(es0[si]->0@, x);
                                }
                                assert forall|j: int| 0 <= j < k + 1 implies #[trigger] entry_states@[sb[j] as int] is Some
                                    && !join_changed(entry_states@[sb[j] as int]->0@, x) by {
                                    if j < k {
                                        let t = sb[j] as int;
                                        if t == si && changed {
                                            lemma_absorption_persists(es0[si]->0@, x, x);
                                        }
                                    }
                                }
                            }
                            k = k + 1;
                        }
                        proof {
                            if !in_worklist@[bb as int] {
                                let sbs = spec_successors(&body.basic_blocks@[bb as int]);
                                assert forall|j: int| 0 <= j < sbs.len()
                                    implies #[trigger] edge_stable(entry_states@, body, sums, bb as int, sbs[j] as int) by {
                                    assert(entry_states@[sb[j] as int] is Some);
                                }
                                assert(block_stable(entry_states@, body, sums, bb as int));
                            }
                            assert(w0.es[bb as int] == Some(ev));
                            assert(Pass { es: views(entry_states@), wl: worklist@, inq: in_worklist@ } == step(body, sums, w0));
                        }
                    },
                }
                proof {
                    assert(Pass { es: views(entry_states@), wl: worklist@, inq: in_worklist@ } == step(body, sums, w0));
                    assert(iterate(body, sums, w0) == iterate(body, sums, step(body, sums, w0)));
                }
            },
        }
    }
    proof {
        assert(iterate(body, sums, Pass { es: views(entry_states@), wl: worklist@, inq: in_worklist@ }) == views(entry_states@));
        assert forall|b: int| 0 <= b < entry_states@.len() implies #[trigger] block_stable(entry_states@, body, sums, b) by {
            if in_worklist@[b] {
                assert(worklist@.contains(b as BasicBlock));
            }
        }
        lemma_fixpoint_covers_reachable(entry_states@, body, sums);
    }
    entry_states
}

/// The callee and arguments of a direct call ending block `b`.
pub open spec fn call_at(body: &Body, b: int) -> Option<(DefId, Seq<Operand>)> {
    match &body.basic_blocks@[b].terminator {
        Some(TerminatorKind::Call { func, args, .. }) => match func.spec_const_fn_def() {
            Some(id) => Some((id, args@)),
            None => None,
        },
        _ => None,
    }
}

/// The state at the terminator of `b`, when a path reaches `b`.
pub open spec fn before_term(es: Seq<Option<BlockState>>, body: &Body, b: int) -> Option<StateView> {
    if b < es.len() && es[b] is Some {
        Some(spec_apply_statements(es[b]->0@, body, body.basic_blocks@[b].statements@))
    } else {
        None
    }
}

// ───────────────────────── results ─────────────────────────

/// The result of the fixpoint over one body.
pub struct FlowResults {
    /// The state at the entry of each basic block; `None` for a block no
    /// path reaches.
    pub entry_states: Vec<Option<BlockState>>,
    /// The interprocedural summaries the body was analysed against, so
    /// checkers can tell which calls free which parameter. Empty during
    /// summary extraction itself.
    pub summaries: SummaryMap,
}

impl FlowResults {
    /// The entry state of `bb`, if some path reaches it.
    pub fn state_at(&self, bb: BasicBlock) -> (r: Option<&BlockState>)
        ensures
            match r {
                Some(s) => (bb as int) < self.entry_states@.len() && self.entry_states@[bb as int] == Some(*s),
                None => (bb as int) >= self.entry_states@.len() || self.entry_states@[bb as int] is None,
            },
    {
        if (bb as usize) < self.entry_states.len() {
            match &self.entry_states[bb as usize] {
                Some(s) => Some(s),
                None => None,
            }
        } else {
            None
        }
    }

    /// The state at the terminator of `bb`: its entry state with the
    /// block's statements replayed. `None` when no path reaches `bb`.
    pub fn state_before_terminator(&self, body: &Body, bb: BasicBlock) -> (r: Option<BlockState>)
        requires
            (bb as int) < self.entry_states@.len() && self.entry_states@[bb as int] is Some
                ==> (bb as int) < body.basic_blocks@.len(),
        ensures
            match r {
                Some(s) => (bb as int) < self.entry_states@.len() && self.entry_states@[bb as int] is Some
                    && s@ == spec_apply_statements(self.entry_states@[bb as int]->0@, body,
                        body.basic_blocks@[bb as int].statements@),
                None => (bb as int) >= self.entry_states@.len() || self.entry_states@[bb as int] is None,
            },
    {
        match self.state_at(bb) {
            Some(s) => {
                let mut state = s.duplicate();
                let stmts = &body.basic_blocks[bb as usize].statements;
                apply_statements(&mut state, body, stmts, stmts.len());
                proof { assert(stmts@.subrange(0, stmts@.len() as int) =~= stmts@); }
                Some(state)
            },
            None => None,
        }
    }

    /// The state just before `location`: the entry state of its block with
    /// the statements before it replayed (all of them at the terminator).
    /// `None` when no path reaches the block.
    pub fn state_at_location(&self, body: &Body, location: &Location) -> (r: Option<BlockState>)
        requires
            (location.block as int) < self.entry_states@.len() && self.entry_states@[location.block as int] is Some
                ==> (location.block as int) < body.basic_blocks@.len(),
        ensures
            match r {
                Some(s) => {
                    let b = location.block as int;
                    let stmts = body.basic_blocks@[b].statements@;
                    let upto = if location.statement_index < stmts.len() { location.statement_index as int } else { stmts.len() as int };
                    &&& b < self.entry_states@.len() && self.entry_states@[b] is Some
                    &&& s@ == spec_apply_statements(self.entry_states@[b]->0@, body, stmts.subrange(0, upto))
                    &&& (location.statement_index >= stmts.len() ==> Some(s@) == before_term(self.entry_states@, body, b))
                    &&& (location.statement_index == 0 ==> s@ == self.entry_states@[b]->0@)
                },
                None => (location.block as int) >= self.entry_states@.len() || self.entry_states@[location.block as int] is None,
            },
    {
        match self.state_at(location.block) {
            Some(s) => {
                let mut state = s.duplicate();
                let stmts = &body.basic_blocks[location.block as usize].statements;
                let upto = if location.statement_index < stmts.len() { location.statement_index } else { stmts.len() };
                apply_statements(&mut state, body, stmts, upto);
                proof {
                    assert(stmts@.subrange(0, stmts@.len() as int) =~= stmts@);
                    assert(stmts@.subrange(0, 0) =~= Seq::<Statement>::empty());
                }
                Some(state)
            },
            None => None,
        }
    }
}

/// Runs the forward fixpoint over `body` from the empty state, applying
/// `summaries` at calls: the entry states are exactly those the worklist
/// iteration `fixpoint_from` reaches. Findings are not produced here: the
/// checkers read the result.
pub fn compute_flow(body: &Body, summaries: SummaryMap) -> (r: FlowResults)
    requires
        body_wf(body),
    ensures
        r.entry_states@.len() == body.basic_blocks@.len(),
        r.entry_states@[0] is Some,
        r.summaries@ == summaries@,
        !join_changed(r.entry_states@[0]->0@, empty_view()),
        is_fixpoint(r.entry_states@, body, summaries@),
        covers_reachable(r.entry_states@, body),
        views(r.entry_states@) == fixpoint_from(body, empty_view(), summaries@),
{
    let entry_states = run_fixpoint(body, BlockState::new(), &summaries);
    FlowResults { entry_states, summaries }
}

/// Like `compute_flow`, but the iteration starts from `spec_summary_seed`,
/// which gives every raw-pointer parameter its own `RawOwned` object, so the
/// result shows what the body does to its arguments. The result carries no
/// summaries.
pub fn compute_flow_for_summary(body: &Body, summaries: &SummaryMap) -> (r: FlowResults)
    requires
        body_wf(body),
        body.arg_count <= 0x8000_0000,
    ensures
        r.entry_states@.len() == body.basic_blocks@.len(),
        r.entry_states@[0] is Some,
        !join_changed(r.entry_states@[0]->0@, spec_summary_seed(body)),
        r.summaries@ == Map::<DefId, FnSummary>::empty(),
        is_fixpoint(r.entry_states@, body, summaries@),
        covers_reachable(r.entry_states@, body),
        views(r.entry_states@) == fixpoint_from(body, spec_summary_seed(body), summaries@),
{
    let entry_states = run_fixpoint(body, summary_initial_state(body), summaries);
    FlowResults { entry_states, summaries: VecMap::new() }
}

} // verus!
