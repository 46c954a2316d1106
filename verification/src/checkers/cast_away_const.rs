//! Detects writes through `*mut T` pointers that were cast from `*const T`.
//!
//! `let q = p as *mut T; *q = val;` with `p: *const T` mutates through a
//! shared raw pointer: unless the pointee sits in an `UnsafeCell`, that is
//! undefined behaviour. Only writes are reported, not reads. The rule reads
//! the state's `const_ptr_cast` set, which the statement transfer fills at
//! each `*const` to `*mut` pointer cast and carries through copies and
//! moves.

use vstd::prelude::*;
use crate::analysis::dataflow::{FlowResults, before_term, call_at, spec_apply_statements};
use crate::analysis::facts::{first_arg_local, spec_first_arg_local};
use crate::analysis::paths::{is_ptr_write_to_first_arg, spec_is_ptr_write_to_first_arg};
use crate::analysis::state::BlockState;
use crate::checkers::{Finding, FindingView, Severity, findings_view, last_segment, path_last_segment};
use crate::mir::{BasicBlock, BasicBlockData, Body, Location, Local, ProjectionElem, Span, Statement, TerminatorKind};
use crate::text::{append_decimal, decimal, ends_with, str_ends_with};
use vstd::string::StringExecFns;

verus! {

/// Detects writes through pointers cast from `*const T` to `*mut T`.
pub struct CastAwayConst;

/// The pointer local a statement writes through, for `*ptr = ...`.
pub open spec fn deref_write_target(stmt: &Statement) -> Option<Local> {
    match stmt {
        Statement::Assign(p, _) => if p.projection@ == seq![ProjectionElem::Deref] { Some(p.local) } else { None },
        Statement::Other => None,
    }
}

/// Where statement `i` of `data` is, falling back on the terminator's span.
pub open spec fn stmt_span(data: &BasicBlockData, i: int) -> Span {
    if 0 <= i < data.statement_spans@.len() { data.statement_spans@[i] } else { data.span }
}

pub open spec fn deref_write_message(p: Local) -> Seq<char> {
    "`*_"@ + decimal(p as nat) + " = ...` writes through a `*mut T` obtained by casting a \
        `*const T`; if the pointee is not inside an `UnsafeCell`, this is UB \
        (aliased mutation without interior mutability). Common cause: \
        `Arc::as_ptr() as *mut T` or `&T as *const T as *mut T`."@
}

pub open spec fn call_write_message(name: Seq<char>, p: Local) -> Seq<char> {
    "`"@ + name + "(_"@ + decimal(p as nat) + ", ...)` writes through a `*mut T` obtained by casting a \
        `*const T`; if the pointee is not inside an `UnsafeCell`, this is UB \
        (aliased mutation). Common cause: `Arc::as_ptr() as *mut T` or \
        `&T as *const T as *mut T`."@
}

/// The callee writes through its first argument.
pub open spec fn writes_through_first(path: Seq<char>) -> bool {
    ||| spec_is_ptr_write_to_first_arg(path)
    ||| ends_with(path, "ptr::write"@)
    ||| ends_with(path, "ptr::write_unaligned"@)
    ||| ends_with(path, "ptr::write_bytes"@)
    ||| ends_with(path, "ptr::copy_nonoverlapping"@)
    ||| ends_with(path, "ptr::copy"@)
}

/// The findings for the first `k` statements of reached block `b`.
pub open spec fn stmt_findings(body: &Body, es: Seq<Option<BlockState>>, b: int, k: int) -> Seq<FindingView>
    decreases k,
{
    if k <= 0 {
        Seq::empty()
    } else {
        let prev = stmt_findings(body, es, b, k - 1);
        let i = k - 1;
        let data = body.basic_blocks@[b];
        match deref_write_target(&data.statements@[i]) {
            Some(p) => if spec_apply_statements(es[b]->0@, body, data.statements@.subrange(0, i)).const_ptr_cast.contains(p) {
                prev.push(FindingView {
                    rule_id: "cast_away_const"@,
                    severity: Severity::Warning,
                    span: stmt_span(&data, i),
                    message: deref_write_message(p),
                })
            } else {
                prev
            },
            None => prev,
        }
    }
}

/// The finding, if any, for the call ending block `b`.
pub open spec fn term_findings(body: &Body, es: Seq<Option<BlockState>>, b: int) -> Seq<FindingView> {
    match call_at(body, b) {
        Some((id, args)) => {
            let path = body.spec_path_of(id);
            match (spec_first_arg_local(args), before_term(es, body, b)) {
                (Some(p), Some(v)) => if writes_through_first(path) && v.const_ptr_cast.contains(p) {
                    seq![FindingView {
                        rule_id: "cast_away_const"@,
                        severity: Severity::Warning,
                        span: body.basic_blocks@[b].span,
                        message: call_write_message(last_segment(path), p),
                    }]
                } else {
                    Seq::empty()
                },
                _ => Seq::empty(),
            }
        },
        None => Seq::empty(),
    }
}

/// The findings of the first `n` blocks: each reached block's statements in
/// order, then its terminator.
pub open spec fn cast_away_const_findings(body: &Body, es: Seq<Option<BlockState>>, n: int) -> Seq<FindingView>
    decreases n,
{
    if n <= 0 {
        Seq::empty()
    } else {
        let b = n - 1;
        let here = if b < es.len() && es[b] is Some {
            stmt_findings(body, es, b, body.basic_blocks@[b].statements@.len() as int)
        } else {
            Seq::empty()
        };
        cast_away_const_findings(body, es, n - 1) + here + term_findings(body, es, b)
    }
}

fn deref_write_text(p: Local) -> (r: String)
    ensures
        r@ == deref_write_message(p),
{
    let s = append_decimal("`*_".to_owned(), p);
    s.concat(" = ...` writes through a `*mut T` obtained by casting a \
        `*const T`; if the pointee is not inside an `UnsafeCell`, this is UB \
        (aliased mutation without interior mutability). Common cause: \
        `Arc::as_ptr() as *mut T` or `&T as *const T as *mut T`.")
}

fn call_write_text(name: &str, p: Local) -> (r: String)
    ensures
        r@ == call_write_message(name@, p),
{
    let s = append_decimal("`".to_owned().concat(name).concat("(_"), p);
    let r = s.concat(", ...)` writes through a `*mut T` obtained by casting a \
        `*const T`; if the pointee is not inside an `UnsafeCell`, this is UB \
        (aliased mutation). Common cause: `Arc::as_ptr() as *mut T` or \
        `&T as *const T as *mut T`.");
    proof {
        assert(r@ =~= call_write_message(name@, p));
    }
    r
}

fn writes_through_first_arg(path: &str) -> (r: bool)
    ensures
        r == writes_through_first(path@),
{
    is_ptr_write_to_first_arg(path)
        || str_ends_with(path, "ptr::write")
        || str_ends_with(path, "ptr::write_unaligned")
        || str_ends_with(path, "ptr::write_bytes")
        || str_ends_with(path, "ptr::copy_nonoverlapping")
        || str_ends_with(path, "ptr::copy")
}

impl CastAwayConst {
    /// Reports, block by block, each `*ptr = ...` statement and each call
    /// writing through its first argument (`ptr::write` and the like) where
    /// the pointer is in the `const_ptr_cast` set of the state before it.
    pub fn check(&self, body: &Body, flow: &FlowResults) -> (r: Vec<Finding>)
        requires
            body.basic_blocks@.len() <= 0x1_0000_0000,
        ensures
            findings_view(r@) == cast_away_const_findings(body, flow.entry_states@, body.basic_blocks@.len() as int),
    {
        let ghost es = flow.entry_states@;
        let mut findings: Vec<Finding> = Vec::new();
        let mut bb: usize = 0;
        proof { assert(findings_view(findings@) =~= cast_away_const_findings(body, es, 0)); }
        while bb < body.basic_blocks.len()
            invariant
                es == flow.entry_states@,
                bb <= body.basic_blocks@.len() <= 0x1_0000_0000,
                findings_view(findings@) == cast_away_const_findings(body, es, bb as int),
            decreases body.basic_blocks@.len() - bb,
        {
            let data = &body.basic_blocks[bb];
            let ghost b = bb as int;
            let ghost base = findings_view(findings@);
            let reached = match flow.state_at(bb as BasicBlock) {
                Some(_) => true,
                None => false,
            };
            if reached {
                let mut si: usize = 0;
                proof { assert(findings_view(findings@) =~= base + stmt_findings(body, es, b, 0)); }
                while si < data.statements.len()
                    invariant
                        es == flow.entry_states@,
                        b == bb as int,
                        bb < body.basic_blocks@.len() <= 0x1_0000_0000,
                        *data == body.basic_blocks@[b],
                        b < es.len() && es[b] is Some,
                        si <= data.statements@.len(),
                        findings_view(findings@) == base + stmt_findings(body, es, b, si as int),
                    decreases data.statements@.len() - si,
                {
                    match &data.statements[si] {
                        Statement::Assign(p, _) => {
                            if p.projection.len() == 1 && p.projection[0] == ProjectionElem::Deref {
                                proof { assert(p.projection@ =~= seq![ProjectionElem::Deref]); }
                                let loc = Location { block: bb as BasicBlock, statement_index: si };
                                match flow.state_at_location(body, &loc) {
                                    Some(state) => {
                                        if state.const_ptr_cast.contains(p.local) {
                                            let span = if si < data.statement_spans.len() { data.statement_spans[si] } else { data.span };
                                            let ghost before = findings@;
                                            findings.push(Finding {
                                                rule_id: "cast_away_const",
                                                severity: Severity::Warning,
                                                span,
                                                message: deref_write_text(p.local),
                                            });
                                            proof {
                                                assert(findings_view(findings@) =~= findings_view(before).push(findings@.last()@));
                                            }
                                        }
                                    },
                                    None => {},
                                }
                            } else {
                                proof {
                                    if p.projection@.len() == 1 {
                                        assert(p.projection@[0] != ProjectionElem::Deref);
                                        assert(p.projection@ != seq![ProjectionElem::Deref]);
                                    } else {
                                        assert(p.projection@.len() != seq![ProjectionElem::Deref].len());
                                    }
                                }
                            }
                        },
                        Statement::Other => {},
                    }
                    si = si + 1;
                }
            }
            proof {
                assert(data.statements@.len() == body.basic_blocks@[b].statements@.len());
            }
            let ghost mid = findings_view(findings@);
            match &data.terminator {
                Some(TerminatorKind::Call { func, args, .. }) => match func.const_fn_def() {
                    Some(id) => {
                        let path = body.path_of(id);
                        if writes_through_first_arg(path.as_str()) {
                            match first_arg_local(args) {
                                Some(ptr) => match flow.state_before_terminator(body, bb as BasicBlock) {
                                    Some(state) => {
                                        if state.const_ptr_cast.contains(ptr) {
                                            let name = path_last_segment(path.as_str());
                                            let ghost before = findings@;
                                            findings.push(Finding {
                                                rule_id: "cast_away_const",
                                                severity: Severity::Warning,
                                                span: data.span,
                                                message: call_write_text(name, ptr),
                                            });
                                            proof {
                                                assert(findings_view(findings@) =~= findings_view(before).push(findings@.last()@));
                                            }
                                        }
                                    },
                                    None => {},
                                },
                                None => {},
                            }
                        }
                    },
                    None => {},
                },
                _ => {},
            }
            proof {
                assert(findings_view(findings@) =~= mid + term_findings(body, es, b));
                assert(findings_view(findings@) =~= cast_away_const_findings(body, es, b + 1));
            }
            bb = bb + 1;
        }
        findings
    }
}

} // verus!
