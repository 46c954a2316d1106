//! Interprocedural summaries of what a function does to its raw-pointer
//! parameters and its return value.

use vstd::prelude::*;
use crate::analysis::dataflow::FlowResults;
use crate::analysis::facts::{is_raw_ptr_ty, is_reference_param, nth_arg_local, spec_is_reference_param, spec_nth_arg_local};
use crate::analysis::object::{HeapState, ObjectId};
use crate::analysis::state::{BlockState, StateView, empty_view, escape_local_view, join_view, set_at};
use crate::collections::{VecMap, VecSet, lemma_prefix_step};
use crate::mir::{BasicBlock, Body, DefId, Local, Operand, TerminatorKind, Ty};

verus! {

/// Object ids minted for summarised parameters start here, clear of the
/// block-index ids of the ordinary flow.
pub const SUMMARY_BASE: u32 = 0x8000_0000;

/// Effect a function has on one of its raw-pointer parameters.
#[derive(Clone, Copy, PartialEq, Eq, Structural, Debug)]
pub enum ParamHeapEffect {
    /// The parameter's backing allocation is untouched.
    Untouched,
    /// The parameter was passed to `Box::from_raw` / `Arc::from_raw` etc.
    Reconstituted,
    /// The parameter was passed to an opaque call and its provenance is lost.
    Escaped,
}

/// Compact summary of what a function does to raw-pointer parameters and its
/// return value.
#[derive(Clone)]
pub struct FnSummary {
    /// `(param_index, effect)`; only parameters with an effect are listed.
    pub param_effects: Vec<(usize, ParamHeapEffect)>,
    /// The return value is a freshly owned raw pointer created inside.
    pub returns_raw_owned: bool,
    /// The parameter (if any) whose buffer the function may reallocate.
    pub reallocs_param: Option<usize>,
    /// The parameter (if any) the return value aliases the interior of.
    pub returns_alias_of_param: Option<usize>,
}

/// Summaries of the analysed functions, keyed by definition.
pub type SummaryMap = VecMap<DefId, FnSummary>;

/// `RawOwned` objects of `objs` become `Reconstituted`.
pub open spec fn reconstitute(h: Map<ObjectId, HeapState>, objs: Set<ObjectId>) -> Map<ObjectId, HeapState> {
    Map::new(
        |o: ObjectId| h.contains_key(o),
        |o: ObjectId| if objs.contains(o) && h[o] == HeapState::RawOwned { HeapState::Reconstituted } else { h[o] },
    )
}

/// One parameter effect applied at a call site.
pub open spec fn apply_effect(v: StateView, args: Seq<Operand>, e: (usize, ParamHeapEffect)) -> StateView {
    match spec_nth_arg_local(args, e.0 as int) {
        None => v,
        Some(a) => match e.1 {
            ParamHeapEffect::Reconstituted => StateView {
                heap: reconstitute(v.heap, set_at(v.points_to, a)),
                points_to: v.points_to.remove(a),
                local_proto: v.local_proto.remove(a),
                ..v
            },
            ParamHeapEffect::Escaped => escape_local_view(v, a),
            ParamHeapEffect::Untouched => v,
        },
    }
}

/// The first `n` parameter effects, applied in order.
pub open spec fn apply_effects(v: StateView, args: Seq<Operand>, es: Seq<(usize, ParamHeapEffect)>, n: nat) -> StateView
    decreases n,
{
    if n == 0 || n > es.len() {
        v
    } else {
        apply_effect(apply_effects(v, args, es, (n - 1) as nat), args, es[n - 1])
    }
}

/// The effect of calling a summarised function from block `call_bb`.
pub open spec fn spec_apply_fn_summary(
    v: StateView,
    args: Seq<Operand>,
    dest: Local,
    call_bb: BasicBlock,
    es: Seq<(usize, ParamHeapEffect)>,
    returns_raw_owned: bool,
) -> StateView {
    let w = apply_effects(v, args, es, es.len());
    if returns_raw_owned {
        StateView {
            points_to: w.points_to.insert(dest, set![ObjectId(call_bb)]),
            heap: w.heap.insert(ObjectId(call_bb), HeapState::RawOwned),
            ..w
        }
    } else {
        StateView { points_to: w.points_to.remove(dest), local_proto: w.local_proto.remove(dest), ..w }
    }
}

impl BlockState {
    /// Marks the `RawOwned` objects of `objs` as `Reconstituted`.
    pub fn reconstitute_objects(&mut self, objs: &VecSet<ObjectId>)
        ensures
            final(self)@ == old(self)@.with_heap(reconstitute(old(self)@.heap, objs@)),
    {
        objs.lemma_elems();
        let ghost start = self.heap@;
        let ghost es = objs.elems();
        let mut i: usize = 0;
        while i < objs.len()
            invariant
                es == objs.elems(),
                i <= es.len(),
                forall|x: ObjectId| objs@.contains(x) <==> es.contains(x),
                self.heap@ == reconstitute(start, es.subrange(0, i as int).to_set()),
                self@ == old(self)@.with_heap(self.heap@),
            decreases es.len() - i,
        {
            let o = objs.at(i);
            proof { lemma_prefix_step(es, i as int); }
            match self.heap.get_copy(o) {
                Some(HeapState::RawOwned) => {
                    self.heap.insert(o, HeapState::Reconstituted);
                },
                _ => {},
            }
            proof {
                assert(self.heap@ =~= reconstitute(start, es.subrange(0, i + 1).to_set()));
            }
            i = i + 1;
        }
        proof {
            assert(es.subrange(0, i as int) =~= es);
            assert(es.to_set() =~= objs@);
            assert(self@ =~= old(self)@.with_heap(reconstitute(old(self)@.heap, objs@)));
        }
    }
}

/// Applies a callee's summary at the call site in block `call_bb`: each
/// reconstituted parameter's objects go from `RawOwned` to `Reconstituted`
/// and the argument local leaves `points_to` (unlike a direct `from_raw`
/// call, which keeps the pointer linked to its objects), each escaped parameter is
/// escaped, and `dest` receives a fresh `RawOwned` object when the callee
/// returns one.
pub fn apply_fn_summary(state: &mut BlockState, args: &Vec<Operand>, dest: Local, call_bb: BasicBlock, summary: &FnSummary)
    ensures
        final(state)@ == spec_apply_fn_summary(old(state)@, args@, dest, call_bb,
            summary.param_effects@, summary.returns_raw_owned),
{
    let ghost start = state@;
    let ghost es = summary.param_effects@;
    let mut i: usize = 0;
    while i < summary.param_effects.len()
        invariant
            es == summary.param_effects@,
            i <= es.len(),
            state@ == apply_effects(start, args@, es, i as nat),
        decreases es.len() - i,
    {
        let (param_idx, effect) = summary.param_effects[i];
        match nth_arg_local(args, param_idx) {
            None => {},
            Some(arg_local) => match effect {
                ParamHeapEffect::Reconstituted => {
                    let objs = state.objects_for(arg_local);
                    state.reconstitute_objects(&objs);
                    state.points_to.drop_key(arg_local);
                    state.local_proto.drop_key(arg_local);
                    proof {
                        assert(state@ =~= apply_effect(apply_effects(start, args@, es, i as nat), args@, es[i as int]));
                    }
                },
                ParamHeapEffect::Escaped => {
                    state.escape_local(arg_local);
                },
                ParamHeapEffect::Untouched => {},
            },
        }
        i = i + 1;
    }
    if summary.returns_raw_owned {
        let obj_id = ObjectId(call_bb);
        state.points_to.put(dest, VecSet::singleton(obj_id));
        state.heap.insert(obj_id, HeapState::RawOwned);
    } else {
        state.points_to.drop_key(dest);
        state.local_proto.drop_key(dest);
    }
    proof {
        assert(state@ =~= spec_apply_fn_summary(start, args@, dest, call_bb, es, summary.returns_raw_owned));
    }
}

// ───────────────────────── seeding ─────────────────────────

/// The object standing for what raw-pointer parameter `idx` points to.
pub open spec fn param_object(idx: int) -> ObjectId {
    ObjectId((SUMMARY_BASE + idx) as u32)
}

/// Local `l` is a raw-pointer parameter among the first `upto` parameters.
pub open spec fn seeded_param(body: &Body, l: Local, upto: int) -> bool {
    1 <= l <= upto && is_raw_ptr_ty(body.spec_ty(l))
}

/// The empty state, with each raw-pointer parameter among the first `upto`
/// pointing to its own `RawOwned` object.
pub open spec fn seed_upto(body: &Body, upto: int) -> StateView {
    StateView {
        points_to: Map::new(|l: Local| seeded_param(body, l, upto), |l: Local| set![param_object(l - 1)]),
        heap: Map::new(
            |o: ObjectId| exists|l: Local| #[trigger] seeded_param(body, l, upto) && param_object(l - 1) == o,
            |o: ObjectId| HeapState::RawOwned,
        ),
        ..empty_view()
    }
}

/// The entry state for computing a summary of `body`.
pub open spec fn spec_summary_seed(body: &Body) -> StateView {
    seed_upto(body, body.arg_count as int)
}

/// The entry state for computing a summary: every raw-pointer parameter
/// (locals `1..=arg_count`) points to its own object
/// `SUMMARY_BASE + param_idx`, which starts out `RawOwned`.
pub fn summary_initial_state(body: &Body) -> (r: BlockState)
    requires
        body.arg_count <= 0x8000_0000,
    ensures
        r@ == spec_summary_seed(body),
{
    let mut state = BlockState::new();
    let mut param_idx: usize = 0;
    proof { assert(state@ =~= seed_upto(body, 0)); }
    while param_idx < body.arg_count
        invariant
            body.arg_count <= 0x8000_0000,
            param_idx <= body.arg_count,
            state@ == seed_upto(body, param_idx as int),
        decreases body.arg_count - param_idx,
    {
        let local = (param_idx + 1) as Local;
        let ghost prev = seed_upto(body, param_idx as int);
        let ghost next = seed_upto(body, param_idx + 1);
        if matches!(body.ty_of(local), Ty::RawPtr(..)) {
            let obj_id = ObjectId(SUMMARY_BASE + param_idx as u32);
            state.points_to.put(local, VecSet::singleton(obj_id));
            state.heap.insert(obj_id, HeapState::RawOwned);
            proof {
                assert(seeded_param(body, local, param_idx + 1));
                assert forall|o: ObjectId| #[trigger] next.heap.contains_key(o) <==> (prev.heap.contains_key(o) || o == obj_id) by {
                    if next.heap.contains_key(o) {
                        let l = choose|l: Local| #[trigger] seeded_param(body, l, param_idx + 1) && param_object(l - 1) == o;
                        if l != local {
                            assert(seeded_param(body, l, param_idx as int));
                        }
                    }
                    if prev.heap.contains_key(o) {
                        let l = choose|l: Local| #[trigger] seeded_param(body, l, param_idx as int) && param_object(l - 1) == o;
                        assert(seeded_param(body, l, param_idx + 1));
                    }
                    if o == obj_id {
                        assert(seeded_param(body, local, param_idx + 1) && param_object(local - 1) == o);
                    }
                }
                assert(state@ =~= next);
            }
        } else {
            proof {
                assert forall|o: ObjectId| #[trigger] next.heap.contains_key(o) <==> prev.heap.contains_key(o) by {
                    if next.heap.contains_key(o) {
                        let l = choose|l: Local| #[trigger] seeded_param(body, l, param_idx + 1) && param_object(l - 1) == o;
                        assert(seeded_param(body, l, param_idx as int));
                    }
                    if prev.heap.contains_key(o) {
                        let l = choose|l: Local| #[trigger] seeded_param(body, l, param_idx as int) && param_object(l - 1) == o;
                        assert(seeded_param(body, l, param_idx + 1));
                    }
                }
                assert(state@ =~= next);
            }
        }
        param_idx = param_idx + 1;
    }
    state
}

// ───────────────────────── extraction ─────────────────────────

pub open spec fn is_return_block(body: &Body, b: int) -> bool {
    0 <= b < body.basic_blocks@.len() && body.basic_blocks@[b].terminator matches Some(TerminatorKind::Return)
}

/// The join of the entry states of the reached `Return` blocks among the
/// first `n` blocks, in block order.
pub open spec fn returns_join(es: Seq<Option<BlockState>>, body: &Body, n: int) -> Option<StateView>
    decreases n,
{
    if n <= 0 {
        None
    } else {
        let prev = returns_join(es, body, n - 1);
        let b = n - 1;
        if is_return_block(body, b) && b < es.len() && es[b] is Some {
            match prev {
                None => Some(es[b]->0@),
                Some(p) => Some(join_view(p, es[b]->0@)),
            }
        } else {
            prev
        }
    }
}

/// What the state at the exits says happened to parameter `idx`'s object.
pub open spec fn param_effect(h: Map<ObjectId, HeapState>, idx: int) -> ParamHeapEffect {
    let o = param_object(idx);
    if h.contains_key(o) && h[o] == HeapState::Reconstituted {
        ParamHeapEffect::Reconstituted
    } else if h.contains_key(o) && (h[o] == HeapState::Escaped || h[o] == HeapState::MaybeFreed) {
        ParamHeapEffect::Escaped
    } else {
        ParamHeapEffect::Untouched
    }
}

/// The effects of the first `n` parameters, untouched ones left out.
pub open spec fn param_effects_upto(h: Map<ObjectId, HeapState>, n: int) -> Seq<(usize, ParamHeapEffect)>
    decreases n,
{
    if n <= 0 {
        Seq::empty()
    } else {
        let prev = param_effects_upto(h, n - 1);
        let e = param_effect(h, n - 1);
        if e == ParamHeapEffect::Untouched { prev } else { prev.push(((n - 1) as usize, e)) }
    }
}

/// The return place holds an object minted inside the body (not a
/// parameter's) that is still `RawOwned`.
pub open spec fn returns_owned(v: StateView) -> bool {
    exists|o: ObjectId| #[trigger] set_at(v.points_to, 0).contains(o) && o.0 < SUMMARY_BASE
        && v.heap.contains_key(o) && v.heap[o] == HeapState::RawOwned
}

/// The first parameter local in `lo..=hi` that `s` holds and `ok` accepts.
pub open spec fn first_param(s: Set<Local>, body: &Body, lo: int, hi: int, by_ref: bool) -> Option<usize>
    decreases hi - lo + 1,
{
    if lo > hi {
        None
    } else if s.contains(lo as Local) && (!by_ref || spec_is_reference_param(body, lo as Local)) {
        Some((lo - 1) as usize)
    } else {
        first_param(s, body, lo + 1, hi, by_ref)
    }
}

/// The summary read off the join `v` of the states at the body's returns.
pub open spec fn summary_of(body: &Body, v: StateView) -> (ParamEffects, bool, Option<usize>, Option<usize>) {
    (
        param_effects_upto(v.heap, body.arg_count as int),
        returns_owned(v),
        first_param(v.realloced_params, body, 1, body.arg_count as int, false),
        first_param(set_at(v.owner_alias, 0), body, 1, body.arg_count as int, true),
    )
}

pub type ParamEffects = Seq<(usize, ParamHeapEffect)>;

/// Whether `s` is the summary the states at the returns give.
pub open spec fn spec_extract_summary(body: &Body, es: Seq<Option<BlockState>>, s: FnSummary) -> bool {
    match returns_join(es, body, body.basic_blocks@.len() as int) {
        None => s.param_effects@ == Seq::<(usize, ParamHeapEffect)>::empty() && !s.returns_raw_owned
            && s.reallocs_param is None && s.returns_alias_of_param is None,
        Some(v) => (s.param_effects@, s.returns_raw_owned, s.reallocs_param, s.returns_alias_of_param) == summary_of(body, v),
    }
}

/// The first parameter local in `1..=arg_count` in `s` (and a reference
/// parameter when `by_ref`), as a parameter index.
fn find_first_param(s: &VecSet<Local>, body: &Body, by_ref: bool) -> (r: Option<usize>)
    requires
        body.arg_count <= 0x8000_0000,
    ensures
        r == first_param(s@, body, 1, body.arg_count as int, by_ref),
{
    let mut l: usize = 1;
    while l <= body.arg_count
        invariant
            body.arg_count <= 0x8000_0000,
            1 <= l <= body.arg_count + 1,
            first_param(s@, body, 1, body.arg_count as int, by_ref) == first_param(s@, body, l as int, body.arg_count as int, by_ref),
        decreases body.arg_count + 1 - l,
    {
        let local = l as Local;
        if s.contains(local) && (!by_ref || is_reference_param(body, local)) {
            return Some(l - 1);
        }
        l = l + 1;
    }
    None
}

/// Derives the summary of a body analysed from `summary_initial_state`:
/// the states at its `Return` blocks are joined; a parameter whose object
/// ends `Reconstituted` is recorded as such, one that ends `Escaped` or
/// `MaybeFreed` as escaped; the return value is raw-owned when it points to
/// a `RawOwned` object minted inside the body. The lowest reallocated
/// parameter and the lowest reference parameter the return value aliases are
/// recorded too. A body with no reached return has the empty summary.
pub fn extract_summary(body: &Body, flow: &FlowResults) -> (r: FnSummary)
    requires
        body.arg_count <= 0x8000_0000,
        body.basic_blocks@.len() <= 0x1_0000_0000,
    ensures
        spec_extract_summary(body, flow.entry_states@, r),
{
    let ghost es = flow.entry_states@;
    let mut joined: Option<BlockState> = None;
    let mut bb: usize = 0;
    while bb < body.basic_blocks.len()
        invariant
            es == flow.entry_states@,
            bb <= body.basic_blocks@.len(),
            body.basic_blocks@.len() <= 0x1_0000_0000,
            match joined {
                Some(j) => returns_join(es, body, bb as int) == Some(j@),
                None => returns_join(es, body, bb as int) is None,
            },
        decreases body.basic_blocks@.len() - bb,
    {
        let is_return = match &body.basic_blocks[bb].terminator {
            Some(TerminatorKind::Return) => true,
            _ => false,
        };
        if is_return {
            match flow.state_at(bb as BasicBlock) {
                Some(state) => {
                    joined = Some(match joined {
                        None => state.duplicate(),
                        Some(existing) => existing.join_with(state).0,
                    });
                },
                None => {},
            }
        }
        bb = bb + 1;
    }
    let exit_state = match joined {
        None => {
            return FnSummary { param_effects: Vec::new(), returns_raw_owned: false, reallocs_param: None, returns_alias_of_param: None };
        },
        Some(s) => s,
    };
    let mut param_effects: Vec<(usize, ParamHeapEffect)> = Vec::new();
    let mut param_idx: usize = 0;
    while param_idx < body.arg_count
        invariant
            body.arg_count <= 0x8000_0000,
            param_idx <= body.arg_count,
            param_effects@ == param_effects_upto(exit_state@.heap, param_idx as int),
        decreases body.arg_count - param_idx,
    {
        let obj_id = ObjectId(SUMMARY_BASE + param_idx as u32);
        let effect = match exit_state.heap.get_copy(obj_id) {
            Some(HeapState::Reconstituted) => ParamHeapEffect::Reconstituted,
            Some(HeapState::Escaped) | Some(HeapState::MaybeFreed) => ParamHeapEffect::Escaped,
            _ => ParamHeapEffect::Untouched,
        };
        if effect != ParamHeapEffect::Untouched {
            param_effects.push((param_idx, effect));
        }
        param_idx = param_idx + 1;
    }
    let returned = exit_state.objects_for(0);
    returned.lemma_elems();
    let mut returns_raw_owned = false;
    let mut i: usize = 0;
    while i < returned.len()
        invariant
            i <= returned.elems().len(),
            forall|x: ObjectId| returned@.contains(x) <==> returned.elems().contains(x),
            returned@ == set_at(exit_state@.points_to, 0),
            returns_raw_owned == exists|j: int| 0 <= j < i && {
                let o = #[trigger] returned.elems()[j];
                o.0 < SUMMARY_BASE && exit_state@.heap.contains_key(o) && exit_state@.heap[o] == HeapState::RawOwned
            },
        decreases returned.elems().len() - i,
    {
        let o = returned.at(i);
        if o.0 < SUMMARY_BASE {
            match exit_state.heap.get_copy(o) {
                Some(HeapState::RawOwned) => { returns_raw_owned = true; },
                _ => {},
            }
        }
        i = i + 1;
    }
    proof {
        if returns_raw_owned {
            let j = choose|j: int| 0 <= j < i && {
                let o = #[trigger] returned.elems()[j];
                o.0 < SUMMARY_BASE && exit_state@.heap.contains_key(o) && exit_state@.heap[o] == HeapState::RawOwned
            };
            assert(returned@.contains(returned.elems()[j]));
        } else {
            assert forall|o: ObjectId| #[trigger] set_at(exit_state@.points_to, 0).contains(o) implies !(o.0 < SUMMARY_BASE
                && exit_state@.heap.contains_key(o) && exit_state@.heap[o] == HeapState::RawOwned) by {
                let j = choose|j: int| 0 <= j < returned.elems().len() && returned.elems()[j] == o;
            }
        }
    }
    let reallocs_param = find_first_param(&exit_state.realloced_params, body, false);
    let aliased = exit_state.owners_of(0);
    let returns_alias_of_param = find_first_param(&aliased, body, true);
    FnSummary { param_effects, returns_raw_owned, reallocs_param, returns_alias_of_param }
}

/// A summary's effects list only parameters that were affected, each at
/// most once, in increasing parameter order, all below the parameter count.
pub proof fn lemma_param_effects_wf(h: Map<ObjectId, HeapState>, n: int)
    requires
        0 <= n <= usize::MAX,
    ensures
        forall|i: int| 0 <= i < param_effects_upto(h, n).len() ==> {
            let e = #[trigger] param_effects_upto(h, n)[i];
            e.1 != ParamHeapEffect::Untouched && (e.0 as int) < n && e.1 == param_effect(h, e.0 as int)
        },
        forall|i: int, j: int| 0 <= i < j < param_effects_upto(h, n).len()
            ==> (#[trigger] param_effects_upto(h, n)[i]).0 < (#[trigger] param_effects_upto(h, n)[j]).0,
    decreases n,
{
    if n > 0 {
        lemma_param_effects_wf(h, n - 1);
        let prev = param_effects_upto(h, n - 1);
        let e = param_effect(h, n - 1);
        if e != ParamHeapEffect::Untouched {
            let cur = prev.push(((n - 1) as usize, e));
            assert(param_effects_upto(h, n) == cur);
            assert forall|i: int| 0 <= i < cur.len() implies {
                let e = #[trigger] cur[i];
                e.1 != ParamHeapEffect::Untouched && (e.0 as int) < n && e.1 == param_effect(h, e.0 as int)
            } by {
                if i < prev.len() {
                    assert(cur[i] == prev[i]);
                }
            }
            assert forall|i: int, j: int| 0 <= i < j < cur.len() implies (#[trigger] cur[i]).0 < (#[trigger] cur[j]).0 by {
                assert(cur[i] == prev[i]);
                if j < prev.len() {
                    assert(cur[j] == prev[j]);
                }
            }
        }
    }
}

} // verus!
