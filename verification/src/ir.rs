//! The desugared IR tree the pass produces.
//!
//! Every implicit source-language operation is explicit here: overloaded
//! operators and auto-dereferences are calls, auto-borrows are borrow nodes,
//! tuple-constructor calls are aggregate constructions, closure captures are
//! environment reads. Sub-expressions are deferred references: either an IR
//! node already built, or a source node a downstream consumer lowers on
//! demand.

use vstd::prelude::*;

use crate::ast::SourceExpr;
use crate::list::List;
use crate::ty::{AdtId, AsmId, CodeExtent, DefId, NodeId, PatId, Region, Span, SubstsId, Ty};

verus! {

/// The access mode of a borrow.
#[derive(Clone, Copy, PartialEq, Eq)]
pub enum BorrowKind {
    Shared,
    Unique,
    Mut,
}

#[derive(Clone, Copy, PartialEq, Eq)]
pub enum BinOp {
    Add,
    Sub,
    Mul,
    Div,
    Rem,
    BitXor,
    BitAnd,
    BitOr,
    Shl,
    Shr,
    Eq,
    Lt,
    Le,
    Ne,
    Ge,
    Gt,
}

#[derive(Clone, Copy, PartialEq, Eq)]
pub enum LogicalOp {
    And,
    Or,
}

#[derive(Clone, Copy, PartialEq, Eq)]
pub enum UnOp {
    Not,
    Neg,
}

/// An evaluated constant: a reference to a function definition, or an
/// opaque evaluated value.
#[derive(Clone, Copy, PartialEq, Eq)]
pub enum ConstVal {
    Function(DefId, SubstsId),
    Scalar(u64),
}

/// A literal IR operand: an evaluated value, or a reference to a constant
/// item evaluated later.
#[derive(Clone, Copy, PartialEq, Eq)]
pub enum Literal {
    Value(ConstVal),
    Item(DefId, SubstsId),
}

/// An opaque compiled pattern, embedded unchanged from the external pattern
/// collaborator.
#[derive(Clone, Copy, PartialEq, Eq)]
pub struct Pattern(pub PatId);

/// Why lowering of the current item aborted.
///
/// `Internal` marks a malformed or missing side-table entry or resolution —
/// a bug in an upstream collaborator. `ConstEval` marks a user-diagnosed
/// constant-evaluation failure feeding a repeat count.
#[derive(Clone, Copy, PartialEq, Eq)]
pub enum Fatal {
    Internal(Span),
    ConstEval(Span),
}

#[derive(PartialEq, Eq)]
pub struct Expr {
    /// The lexical extent governing when the node's temporary is destroyed.
    pub temp_lifetime: Option<CodeExtent>,
    pub ty: Ty,
    pub span: Span,
    pub kind: ExprKind,
}

/// A deferred sub-expression: lowered already, or a source node the
/// consumer lowers on first use.
#[derive(PartialEq, Eq)]
pub enum ExprRef {
    Source(Box<SourceExpr>),
    Lowered(Box<Expr>),
}

/// A (field position, value) pair of an aggregate construction.
#[derive(PartialEq, Eq)]
pub struct FieldExprRef {
    pub name: usize,
    pub expr: ExprRef,
}

/// A functional-record-update base and the declared types of the fields it
/// supplies.
#[derive(PartialEq, Eq)]
pub struct FruInfo {
    pub base: ExprRef,
    pub field_types: List<Ty>,
}

/// One lowered `match` arm.
#[derive(PartialEq, Eq)]
pub struct Arm {
    pub patterns: List<Pattern>,
    pub guard: Option<ExprRef>,
    pub body: ExprRef,
}

#[derive(PartialEq, Eq)]
#[allow(inconsistent_fields)]
pub enum ExprKind {
    Scope { extent: CodeExtent, value: ExprRef },
    Boxed { value: ExprRef, value_extents: CodeExtent },
    /// `ty` is the callee's type, recorded for the consumer.
    Call { ty: Ty, fun: ExprRef, args: List<ExprRef> },
    Deref { arg: ExprRef },
    Binary { op: BinOp, lhs: ExprRef, rhs: ExprRef },
    LogicalOp { op: LogicalOp, lhs: ExprRef, rhs: ExprRef },
    Unary { op: UnOp, arg: ExprRef },
    Cast { source: ExprRef },
    /// A representation-level no-op cast, kept only for its value.
    Use { source: ExprRef },
    NeverToAny { source: ExprRef },
    ReifyFnPointer { source: ExprRef },
    UnsafeFnPointer { source: ExprRef },
    ClosureFnPointer { source: ExprRef },
    Unsize { source: ExprRef },
    If { condition: ExprRef, then: ExprRef, otherwise: Option<ExprRef> },
    Loop { condition: Option<ExprRef>, body: ExprRef },
    Match { discriminant: ExprRef, arms: List<Arm> },
    /// An opaque statement block, lowered by the external collaborator.
    Block { body: NodeId },
    Assign { lhs: ExprRef, rhs: ExprRef },
    AssignOp { op: BinOp, lhs: ExprRef, rhs: ExprRef },
    Field { lhs: ExprRef, name: usize },
    Index { lhs: ExprRef, index: ExprRef },
    VarRef { id: NodeId },
    /// The closure environment of the innermost enclosing closure.
    SelfRef,
    StaticRef { id: NodeId },
    Borrow { region: Region, borrow_kind: BorrowKind, arg: ExprRef },
    Adt {
        adt: AdtId,
        variant_index: usize,
        substs: SubstsId,
        fields: List<FieldExprRef>,
        base: Option<FruInfo>,
    },
    Array { fields: List<ExprRef> },
    Tuple { fields: List<ExprRef> },
    Closure { closure_id: DefId, substs: SubstsId, upvars: List<ExprRef> },
    Literal { literal: Literal },
    InlineAsm { template: AsmId, outputs: List<ExprRef>, inputs: List<ExprRef> },
    Repeat { value: ExprRef, count: usize },
    Return { value: Option<ExprRef> },
    Break { label: CodeExtent, value: Option<ExprRef> },
    Continue { label: CodeExtent },
}

} // verus!
