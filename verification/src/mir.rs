//! A self-contained model of the lowered control-flow graph the analysis
//! runs on: locals, places, operands, right-hand sides, statements,
//! terminators and bodies.
//!
//! Everything the analysis reads from the compiler is held here as plain
//! values: a callee's definition path, the declared type of each local, and
//! the resolved implementation of a trait-method call.

use vstd::prelude::*;
use crate::collections::{Key, VecMap, VecSet};

verus! {

/// A local variable slot; `0` is the return place, `1..=arg_count` are the
/// parameters.
pub type Local = u32;

/// A basic block index.
pub type BasicBlock = u32;

/// A definition (function, method, type) of the analysed program.
#[derive(Clone, Copy, PartialEq, Eq, Structural, Debug)]
pub struct DefId {
    pub krate: u32,
    pub index: u32,
}

impl Key for DefId {
    fn same(&self, other: &Self) -> (r: bool) {
        self.krate == other.krate && self.index == other.index
    }
}

#[derive(Clone, Copy, PartialEq, Eq, Structural, Debug)]
pub enum ProjectionElem {
    Deref,
    Field(u32),
    /// Index, subslice, downcast and the other projections.
    Other,
}

pub struct Place {
    pub local: Local,
    pub projection: Vec<ProjectionElem>,
}

/// A constant operand: its scalar bits if it is an integer scalar, and the
/// function it names if it is a function item.
pub struct Constant {
    pub scalar_bits: Option<u128>,
    pub fn_def: Option<DefId>,
}

pub enum Operand {
    Copy(Place),
    Move(Place),
    Constant(Constant),
}

#[derive(Clone, Copy, PartialEq, Eq, Structural, Debug)]
pub enum CastKind {
    PtrToPtr,
    Transmute,
    IntToInt,
    IntToFloat,
    FloatToInt,
    FloatToFloat,
    ReifyFnPointer,
    Other,
}

#[derive(Clone, Copy, PartialEq, Eq, Structural, Debug)]
pub enum BinOp {
    Lt,
    Le,
    Gt,
    Ge,
    Eq,
    Ne,
    Offset,
    Add,
    Sub,
    Mul,
    BitOr,
    Other,
}

#[derive(Clone, Copy, PartialEq, Eq, Structural, Debug)]
pub enum UnOp {
    PtrMetadata,
    Other,
}

#[derive(Clone, Copy, PartialEq, Eq, Structural, Debug)]
pub enum AggregateKind {
    Array,
    Tuple,
    Other,
}

#[derive(Clone, Copy, PartialEq, Eq, Structural, Debug)]
pub enum UintTy {
    U8,
    U16,
    U32,
    U64,
    Usize,
    U128,
}

#[derive(Clone, Copy, PartialEq, Eq, Structural, Debug)]
pub enum Mutability {
    Not,
    Mut,
}

/// The part of a local's declared type the analysis inspects.
pub enum Ty {
    Bool,
    Char,
    Int,
    Uint(UintTy),
    Float,
    RawPtr(Mutability),
    Ref(Mutability, Box<Ty>),
    /// A struct or enum: its definition path and its item name.
    Adt { path: String, name: String },
    Other,
}

pub enum Rvalue {
    Use(Operand),
    Ref(Place),
    RawPtr(Place),
    Cast(CastKind, Operand, Ty),
    BinaryOp(BinOp, Operand, Operand),
    UnaryOp(UnOp, Operand),
    Aggregate(AggregateKind, Vec<Operand>),
    Other,
}

pub enum Statement {
    Assign(Place, Rvalue),
    /// Storage markers, retags and every other statement kind.
    Other,
}

pub struct SwitchTargets {
    pub values: Vec<(u128, BasicBlock)>,
    pub otherwise: BasicBlock,
}

pub enum UnwindAction {
    Cleanup(BasicBlock),
    /// Continue, unreachable or terminate.
    Other,
}

pub enum TerminatorKind {
    Goto { target: BasicBlock },
    SwitchInt { discr: Operand, targets: SwitchTargets },
    Return,
    Unreachable,
    CoroutineDrop,
    TailCall,
    UnwindResume,
    UnwindTerminate,
    /// `resolved` is the implementation a trait-method call resolves to, when
    /// it resolves to a plain item.
    Call {
        func: Operand,
        resolved: Option<DefId>,
        args: Vec<Operand>,
        destination: Place,
        target: Option<BasicBlock>,
        unwind: UnwindAction,
    },
    Drop { place: Place, target: BasicBlock, unwind: UnwindAction },
    Assert { cond: Operand, expected: bool, target: BasicBlock, unwind: UnwindAction },
    FalseEdge { real_target: BasicBlock, imaginary_target: BasicBlock },
    FalseUnwind { real_target: BasicBlock, unwind: UnwindAction },
    Yield { resume: BasicBlock, drop: Option<BasicBlock> },
    InlineAsm { operands: Vec<InlineAsmOperand>, targets: Vec<BasicBlock>, unwind: UnwindAction },
}

/// An operand of an inline-assembly block.
pub enum InlineAsmOperand {
    In { value: Operand },
    InOut { in_value: Operand },
    /// Outputs, constants, symbols and labels.
    Other,
}

/// A source location, as an index into the caller's table of spans.
#[derive(Clone, Copy, PartialEq, Eq, Structural, Debug)]
pub struct Span(pub u32);

/// A program point: the statement at `statement_index` of `block`, or its
/// terminator when the index is the number of statements.
pub struct Location {
    pub block: BasicBlock,
    pub statement_index: usize,
}

pub struct BasicBlockData {
    pub statements: Vec<Statement>,
    pub terminator: Option<TerminatorKind>,
    /// Where the terminator is in the source.
    pub span: Span,
    /// Where each statement is in the source, in statement order.
    pub statement_spans: Vec<Span>,
}

/// A function body together with the definition paths of every function it
/// mentions.
pub struct Body {
    pub arg_count: usize,
    pub local_decls: Vec<Ty>,
    pub basic_blocks: Vec<BasicBlockData>,
    pub def_paths: VecMap<DefId, String>,
    /// The body is a `Drop::drop` method or drop glue.
    pub is_drop_context: bool,
    /// Functions declared in an `extern` block of the crate being analysed.
    pub local_foreign_fns: VecSet<DefId>,
}

impl Operand {
    /// The function item this operand names, if it is a function constant.
    pub open spec fn spec_const_fn_def(&self) -> Option<DefId> {
        match self {
            Operand::Constant(c) => c.fn_def,
            _ => None,
        }
    }

    pub fn const_fn_def(&self) -> (r: Option<DefId>)
        ensures
            r == self.spec_const_fn_def(),
    {
        match self {
            Operand::Constant(c) => c.fn_def,
            _ => None,
        }
    }

    /// The place this operand reads, if any.
    pub open spec fn spec_place(&self) -> Option<&Place> {
        match self {
            Operand::Copy(p) | Operand::Move(p) => Some(p),
            _ => None,
        }
    }
}

impl Body {
    /// The path of `id`, or the empty path if the body does not name it.
    pub open spec fn spec_path_of(&self, id: DefId) -> Seq<char> {
        if self.def_paths@.contains_key(id) { self.def_paths@[id]@ } else { Seq::empty() }
    }

    pub fn path_of(&self, id: DefId) -> (r: String)
        ensures
            r@ == self.spec_path_of(id),
    {
        match self.def_paths.get(id) {
            Some(p) => p.clone(),
            None => String::new(),
        }
    }

    /// The declared type of `l`; `Ty::Other` for a local the body does not
    /// declare.
    pub open spec fn spec_ty(&self, l: Local) -> &Ty {
        if (l as int) < self.local_decls@.len() { &self.local_decls@[l as int] } else { &Ty::Other }
    }

    pub fn ty_of(&self, l: Local) -> (r: &Ty)
        ensures
            r == self.spec_ty(l),
    {
        if (l as usize) < self.local_decls.len() {
            &self.local_decls[l as usize]
        } else {
            &Ty::Other
        }
    }
}

} // verus!
