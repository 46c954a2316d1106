//! Findings and the checkers that produce them.
//!
//! Most checkers look at the direct calls of a body one at a time: a
//! `CallRule` says what (if anything) to report for one call, and
//! `run_call_rule` applies it to every block in order. Checkers that need
//! more (several findings per block, inline assembly, trait impls) are
//! written out on their own.

use vstd::prelude::*;
use crate::analysis::dataflow::{FlowResults, before_term, call_at};
use crate::analysis::state::{BlockState, StateView};
use crate::mir::{BasicBlock, Body, DefId, Operand, Span, TerminatorKind};

pub mod alloc_size_overflow;
pub mod allocator_impl;
pub mod allocator_methods;
pub mod arc_from_raw;
pub mod arc_get_mut_unchecked;
pub mod arc_strong_count;
pub mod arch_intrinsic;
pub mod arrayvec_unchecked;
pub mod ascii_unchecked;
pub mod assume_init;
pub mod atomic_from_ptr;
pub mod atomic_ptr_arith;
pub mod binary_heap_unsafe;
pub mod bitvec_unchecked;
pub mod borrowed_cursor_advance;
pub mod box_from_raw;
pub mod btree_cursor_unchecked;
pub mod bytemuck_unsafe_impl;
pub mod bytes_buf;
pub mod cast_away_const;
pub mod char_from_u32_unchecked;
pub mod clone_to_uninit_call;
pub mod clone_to_uninit_impl;
pub mod crossbeam_epoch;
pub mod cstr_from_bytes_unchecked;
pub mod cstr_from_ptr;
pub mod cstring_as_ptr;
pub mod cstring_from_raw;
pub mod cstring_from_vec_unchecked;
pub mod ctlz_nonzero;
pub mod downcast_unchecked;
pub mod env_set_var;
pub mod fast_float_arith;
pub mod float_to_int_unchecked;
pub mod flow;
pub mod foreign_fn;
pub mod from_bytes_unchecked;
pub mod global_alloc_impl;
pub mod hashbrown_map_unchecked;
pub mod hashbrown_raw;
pub mod hashmap_disjoint_unchecked;
pub mod heapless_unchecked;
pub mod hint_assert_unchecked;
pub mod http_unchecked;
pub mod inline_asm;
pub mod into_raw;
pub mod layout_for_value_raw;
pub mod layout_unchecked;

verus! {

/// How serious a finding is.
#[derive(Clone, Copy, PartialEq, Eq, Structural, Debug)]
pub enum Severity {
    Info,
    Warning,
}

/// One diagnostic: which rule fired, where, and why.
pub struct Finding {
    pub rule_id: &'static str,
    pub severity: Severity,
    pub span: Span,
    pub message: String,
}

/// The mathematical content of a `Finding`.
pub struct FindingView {
    pub rule_id: Seq<char>,
    pub severity: Severity,
    pub span: Span,
    pub message: Seq<char>,
}

impl View for Finding {
    type V = FindingView;

    open spec fn view(&self) -> FindingView {
        FindingView { rule_id: self.rule_id@, severity: self.severity, span: self.span, message: self.message@ }
    }
}

pub open spec fn findings_view(fs: Seq<Finding>) -> Seq<FindingView> {
    fs.map_values(|f: Finding| f@)
}

/// What a call rule reports: rule id, severity and message.
pub type Flag = (&'static str, Severity, String);

pub open spec fn flag_view(f: Option<Flag>) -> Option<(Seq<char>, Severity, Seq<char>)> {
    match f {
        Some((r, s, m)) => Some((r@, s, m@)),
        None => None,
    }
}

pub open spec fn opt_chars(o: Option<String>) -> Option<Seq<char>> {
    match o {
        Some(m) => Some(m@),
        None => None,
    }
}

pub open spec fn state_view(s: &Option<BlockState>) -> Option<StateView> {
    match s {
        Some(b) => Some(b@),
        None => None,
    }
}

/// A check of one direct call at a time.
pub trait CallRule {
    /// The rule reads the state before the call.
    spec fn spec_uses_state(&self) -> bool;

    /// What the rule reports for a direct call of `path` with `args`, the
    /// state before the call being `pre` (`None` where no path reaches the
    /// call, or where the rule does not read it).
    spec fn spec_flag(&self, body: &Body, callee: DefId, path: Seq<char>, args: Seq<Operand>, pre: Option<StateView>)
        -> Option<(Seq<char>, Severity, Seq<char>)>;

    fn uses_state(&self) -> (r: bool)
        ensures
            r == self.spec_uses_state(),
    ;

    fn flag(&self, body: &Body, callee: DefId, path: &str, args: &Vec<Operand>, pre: &Option<BlockState>) -> (r: Option<Flag>)
        ensures
            flag_view(r) == self.spec_flag(body, callee, path@, args@, state_view(pre)),
    ;
}

/// The findings of `rule` over the first `n` blocks, in block order.
pub open spec fn call_findings<R: CallRule>(rule: &R, body: &Body, es: Seq<Option<BlockState>>, n: int) -> Seq<FindingView>
    decreases n,
{
    if n <= 0 {
        Seq::empty()
    } else {
        let prev = call_findings(rule, body, es, n - 1);
        let b = n - 1;
        match call_at(body, b) {
            Some((id, args)) => {
                let pre = if rule.spec_uses_state() { before_term(es, body, b) } else { None };
                match rule.spec_flag(body, id, body.spec_path_of(id), args, pre) {
                    Some((r, s, m)) => prev.push(
                        FindingView { rule_id: r, severity: s, span: body.basic_blocks@[b].span, message: m },
                    ),
                    None => prev,
                }
            },
            None => prev,
        }
    }
}

/// Applies `rule` to every direct call of `body`, block by block.
pub fn run_call_rule<R: CallRule>(rule: &R, body: &Body, flow: &FlowResults) -> (r: Vec<Finding>)
    requires
        body.basic_blocks@.len() <= 0x1_0000_0000,
    ensures
        findings_view(r@) == call_findings(rule, body, flow.entry_states@, body.basic_blocks@.len() as int),
{
    let ghost es = flow.entry_states@;
    let mut findings: Vec<Finding> = Vec::new();
    let mut bb: usize = 0;
    proof { assert(findings_view(findings@) =~= call_findings(rule, body, es, 0)); }
    while bb < body.basic_blocks.len()
        invariant
            es == flow.entry_states@,
            bb <= body.basic_blocks@.len() <= 0x1_0000_0000,
            findings_view(findings@) == call_findings(rule, body, es, bb as int),
        decreases body.basic_blocks@.len() - bb,
    {
        let data = &body.basic_blocks[bb];
        match &data.terminator {
            Some(TerminatorKind::Call { func, args, .. }) => match func.const_fn_def() {
                Some(id) => {
                    let path = body.path_of(id);
                    let pre = if rule.uses_state() { flow.state_before_terminator(body, bb as BasicBlock) } else { None };
                    match rule.flag(body, id, path.as_str(), args, &pre) {
                        Some((rule_id, severity, message)) => {
                            let ghost before = findings@;
                            findings.push(Finding { rule_id, severity, span: data.span, message });
                            proof { assert(findings_view(findings@) =~= findings_view(before).push(findings@.last()@)); }
                        },
                        None => {},
                    }
                },
                None => {},
            },
            _ => {},
        }
        bb = bb + 1;
    }
    findings
}

// ───────────────────────── trait impls ─────────────────────────

/// An `impl Trait for T` item of the analysed crate.
pub struct TraitImpl {
    /// The definition path of the implemented trait.
    pub trait_path: String,
    /// Written `unsafe impl`.
    pub is_unsafe: bool,
    pub span: Span,
}

/// A check of one `unsafe impl` at a time.
pub trait ImplRule {
    /// What the rule reports for an `unsafe impl` of the trait at `trait_path`.
    spec fn spec_impl_flag(&self, trait_path: Seq<char>) -> Option<(Seq<char>, Severity, Seq<char>)>;

    fn impl_flag(&self, trait_path: &str) -> (r: Option<Flag>)
        ensures
            flag_view(r) == self.spec_impl_flag(trait_path@),
    ;
}

/// The findings of `rule` over the first `n` impls, in order; safe impls
/// are never reported.
pub open spec fn impl_findings<R: ImplRule>(rule: &R, impls: Seq<TraitImpl>, n: int) -> Seq<FindingView>
    decreases n,
{
    if n <= 0 {
        Seq::empty()
    } else {
        let prev = impl_findings(rule, impls, n - 1);
        let it = impls[n - 1];
        if it.is_unsafe {
            match rule.spec_impl_flag(it.trait_path@) {
                Some((r, s, m)) => prev.push(FindingView { rule_id: r, severity: s, span: it.span, message: m }),
                None => prev,
            }
        } else {
            prev
        }
    }
}

/// Applies `rule` to every `unsafe impl` of `impls`.
pub fn run_impl_rule<R: ImplRule>(rule: &R, impls: &Vec<TraitImpl>) -> (r: Vec<Finding>)
    ensures
        findings_view(r@) == impl_findings(rule, impls@, impls@.len() as int),
{
    let mut findings: Vec<Finding> = Vec::new();
    let mut i: usize = 0;
    proof { assert(findings_view(findings@) =~= impl_findings(rule, impls@, 0)); }
    while i < impls.len()
        invariant
            i <= impls@.len(),
            findings_view(findings@) == impl_findings(rule, impls@, i as int),
        decreases impls@.len() - i,
    {
        let it = &impls[i];
        if it.is_unsafe {
            match rule.impl_flag(it.trait_path.as_str()) {
                Some((rule_id, severity, message)) => {
                    let ghost before = findings@;
                    findings.push(Finding { rule_id, severity, span: it.span, message });
                    proof { assert(findings_view(findings@) =~= findings_view(before).push(findings@.last()@)); }
                },
                None => {},
            }
        }
        i = i + 1;
    }
    findings
}

// ───────────────────────── shared pieces ─────────────────────────

/// Where the last `::`-separated segment of `s[..k]` starts.
pub open spec fn segment_start(s: Seq<char>, k: int) -> int
    decreases k,
{
    if k < 2 {
        0
    } else if s[k - 2] == ':' && s[k - 1] == ':' {
        k
    } else {
        segment_start(s, k - 1)
    }
}

/// What follows the last `::` of a path (the whole path if it has none).
pub open spec fn last_segment(s: Seq<char>) -> Seq<char> {
    s.subrange(segment_start(s, s.len() as int), s.len() as int)
}

proof fn lemma_segment_start_bounds(s: Seq<char>, k: int)
    requires
        0 <= k <= s.len(),
    ensures
        0 <= segment_start(s, k) <= k,
    decreases k,
{
    if k >= 2 && !(s[k - 2] == ':' && s[k - 1] == ':') {
        lemma_segment_start_bounds(s, k - 1);
    }
}

/// The last `::`-separated segment of `path`.
pub fn path_last_segment(path: &str) -> (r: &str)
    ensures
        r@ == last_segment(path@),
{
    let n = path.unicode_len();
    let mut k: usize = n;
    proof { lemma_segment_start_bounds(path@, n as int); }
    while k >= 2
        invariant
            n == path@.len(),
            k <= n,
            segment_start(path@, k as int) == segment_start(path@, n as int),
        ensures
            k <= n,
            segment_start(path@, k as int) == segment_start(path@, n as int),
            k < 2 || (path@[k - 2] == ':' && path@[k - 1] == ':'),
        decreases k,
    {
        if path.get_char(k - 2) == ':' && path.get_char(k - 1) == ':' {
            break;
        }
        k = k - 1;
    }
    let start = if k >= 2 { k } else { 0 };
    proof { lemma_segment_start_bounds(path@, n as int); }
    path.substring_char(start, n)
}

/// The message of a use-after-free through a freed pointer: `access` is
/// what the operation does through it; `potential` when the pointer was
/// freed on some paths only.
pub open spec fn uaf_message(access: Seq<char>, potential: bool) -> Seq<char> {
    if potential {
        "potential use-after-free: the pointer may already have been freed on another path before this "@
            + access
    } else {
        "use-after-free: the pointer was already freed on this path before this "@ + access
    }
}

/// The finding for a use of a freed pointer.
pub fn uaf_finding(span: Span, access: &str, potential: bool) -> (r: Finding)
    ensures
        r@ == (FindingView { rule_id: "use_after_free"@, severity: Severity::Warning, span, message: uaf_message(access@, potential) }),
{
    let message = if potential {
        "potential use-after-free: the pointer may already have been freed on another path before this ".to_owned()
            .concat(access)
    } else {
        "use-after-free: the pointer was already freed on this path before this ".to_owned().concat(access)
    };
    Finding { rule_id: "use_after_free", severity: Severity::Warning, span, message }
}

} // verus!
