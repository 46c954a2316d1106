//! Detects uses of `asm!` and `global_asm!` inline assembly.

use vstd::prelude::*;
use crate::analysis::dataflow::{FlowResults, before_term};
use crate::analysis::facts::{is_raw_ptr_ty, operand_local, spec_operand_local};
use crate::analysis::state::{BlockState, FreedKind, StateView, spec_freed_kind};
use crate::checkers::{Finding, FindingView, Severity, findings_view, uaf_finding, uaf_message};
use crate::mir::{BasicBlock, Body, InlineAsmOperand, Local, Span, TerminatorKind, Ty};

verus! {

/// Detects uses of `asm!` and `global_asm!` inline assembly.
pub struct InlineAsm;

pub open spec fn asm_message() -> Seq<char> {
    "`asm!` — verify all register constraints, clobbers, memory effects, \
        and control-flow options; incorrect assembly silently corrupts \
        registers, stack, or memory without any indication from Rust"@
}

/// The local an input operand reads directly.
pub open spec fn asm_input_local(op: InlineAsmOperand) -> Option<Local> {
    match op {
        InlineAsmOperand::In { value } => spec_operand_local(&value),
        InlineAsmOperand::InOut { in_value } => spec_operand_local(&in_value),
        InlineAsmOperand::Other => None,
    }
}

/// One use-after-free finding per raw-pointer input that is freed (on
/// this path or on some path), in operand order.
pub open spec fn asm_uafs(body: &Body, v: StateView, ops: Seq<InlineAsmOperand>, span: Span) -> Seq<FindingView>
    decreases ops.len(),
{
    if ops.len() == 0 {
        Seq::empty()
    } else {
        let prev = asm_uafs(body, v, ops.drop_last(), span);
        match asm_input_local(ops.last()) {
            Some(l) => if is_raw_ptr_ty(body.spec_ty(l)) {
                match spec_freed_kind(v, l) {
                    FreedKind::Definite => prev.push(FindingView { rule_id: "use_after_free"@, severity: Severity::Warning,
                        span, message: uaf_message("read"@, false) }),
                    FreedKind::Potential => prev.push(FindingView { rule_id: "use_after_free"@, severity: Severity::Warning,
                        span, message: uaf_message("read"@, true) }),
                    FreedKind::NotFreed => prev,
                }
            } else {
                prev
            },
            None => prev,
        }
    }
}

/// The findings of block `b`: its use-after-free inputs if it ends in an
/// `asm!` block with any, otherwise the `asm!` block itself.
pub open spec fn inline_asm_block(body: &Body, es: Seq<Option<BlockState>>, b: int) -> Seq<FindingView> {
    match &body.basic_blocks@[b].terminator {
        Some(TerminatorKind::InlineAsm { operands, .. }) => {
            let span = body.basic_blocks@[b].span;
            let main = FindingView { rule_id: "inline_asm"@, severity: Severity::Warning, span, message: asm_message() };
            match before_term(es, body, b) {
                Some(v) => {
                    let u = asm_uafs(body, v, operands@, span);
                    if u.len() > 0 { u } else { seq![main] }
                },
                None => seq![main],
            }
        },
        _ => Seq::empty(),
    }
}

pub open spec fn inline_asm_upto(body: &Body, es: Seq<Option<BlockState>>, n: int) -> Seq<FindingView>
    decreases n,
{
    if n <= 0 {
        Seq::empty()
    } else {
        inline_asm_upto(body, es, n - 1) + inline_asm_block(body, es, n - 1)
    }
}

impl InlineAsm {
    /// Reports each `asm!` block of `body`: as use-after-free findings for
    /// its freed raw-pointer inputs where it has any, otherwise as an audit
    /// point.
    pub fn check(&self, body: &Body, flow: &FlowResults) -> (r: Vec<Finding>)
        requires
            body.basic_blocks@.len() <= 0x1_0000_0000,
        ensures
            findings_view(r@) == inline_asm_upto(body, flow.entry_states@, body.basic_blocks@.len() as int),
    {
        let ghost es = flow.entry_states@;
        let mut findings: Vec<Finding> = Vec::new();
        let mut bb: usize = 0;
        proof { assert(findings_view(findings@) =~= inline_asm_upto(body, es, 0)); }
        while bb < body.basic_blocks.len()
            invariant
                es == flow.entry_states@,
                bb <= body.basic_blocks@.len() <= 0x1_0000_0000,
                findings_view(findings@) == inline_asm_upto(body, es, bb as int),
            decreases body.basic_blocks@.len() - bb,
        {
            let ghost before = findings_view(findings@);
            let data = &body.basic_blocks[bb];
            match &data.terminator {
                Some(TerminatorKind::InlineAsm { operands, .. }) => {
                    let mut found = false;
                    match flow.state_before_terminator(body, bb as BasicBlock) {
                        Some(state) => {
                            let mut i: usize = 0;
                            proof { assert(operands@.subrange(0, 0) =~= Seq::<InlineAsmOperand>::empty()); }
                            while i < operands.len()
                                invariant
                                    i <= operands@.len(),
                                    findings_view(findings@) == before + asm_uafs(body, state@, operands@.subrange(0, i as int), data.span),
                                    found == (asm_uafs(body, state@, operands@.subrange(0, i as int), data.span).len() > 0),
                                decreases operands@.len() - i,
                            {
                                let ghost f0 = findings_view(findings@);
                                let input = match &operands[i] {
                                    InlineAsmOperand::In { value } => operand_local(value),
                                    InlineAsmOperand::InOut { in_value } => operand_local(in_value),
                                    InlineAsmOperand::Other => None,
                                };
                                match input {
                                    Some(l) => {
                                        if matches!(body.ty_of(l), Ty::RawPtr(..)) {
                                            match state.freed_kind(l) {
                                                FreedKind::Definite => {
                                                    findings.push(uaf_finding(data.span, "read", false));
                                                    found = true;
                                                    proof { assert(findings_view(findings@) =~= f0.push(findings@.last()@)); }
                                                },
                                                FreedKind::Potential => {
                                                    findings.push(uaf_finding(data.span, "read", true));
                                                    found = true;
                                                    proof { assert(findings_view(findings@) =~= f0.push(findings@.last()@)); }
                                                },
                                                FreedKind::NotFreed => {},
                                            }
                                        }
                                    },
                                    None => {},
                                }
                                proof {
                                    let pre = operands@.subrange(0, i as int);
                                    let post = operands@.subrange(0, i + 1);
                                    assert(post.drop_last() =~= pre);
                                    assert(post.last() == operands@[i as int]);
                                    assert(findings_view(findings@) =~= before + asm_uafs(body, state@, post, data.span));
                                }
                                i = i + 1;
                            }
                            proof { assert(operands@.subrange(0, i as int) =~= operands@); }
                        },
                        None => {},
                    }
                    if !found {
                        findings.push(Finding { rule_id: "inline_asm", severity: Severity::Warning, span: data.span,
                            message: "`asm!` — verify all register constraints, clobbers, memory effects, \
                            and control-flow options; incorrect assembly silently corrupts \
                            registers, stack, or memory without any indication from Rust".to_owned() });
                        proof { assert(findings_view(findings@) =~= before + inline_asm_block(body, es, bb as int)); }
                    }
                },
                _ => {},
            }
            proof { assert(findings_view(findings@) =~= before + inline_asm_block(body, es, bb as int)); }
            bb = bb + 1;
        }
        findings
    }
}

} // verus!
