//! The typed source expression tree the pass consumes.
//!
//! Every node carries its identity and span; its inferred type, adjustments
//! and resolutions live in the side tables of [`crate::cx::Cx`], keyed by
//! node identity. Patterns, blocks and inline assembly are opaque handles:
//! their own lowering belongs to external collaborators.

use vstd::prelude::*;

use crate::list::List;
use crate::ty::{AsmId, BodyId, DefId, FieldName, Mutability, NodeId, PatId, Span};

verus! {

/// How a constructor may be used: with call syntax over positional fields,
/// as a constant value (unit-like), or not as a value at all (named fields).
#[derive(Clone, Copy, PartialEq, Eq)]
pub enum CtorKind {
    Fn,
    Const,
    Fictive,
}

/// A resolved definition, as the name resolver reports it.
#[derive(Clone, Copy, PartialEq, Eq)]
pub enum Def {
    Fn(DefId),
    Method(DefId),
    StructCtor(DefId, CtorKind),
    VariantCtor(DefId, CtorKind),
    Variant(DefId),
    Const(DefId),
    AssociatedConst(DefId),
    Static(NodeId),
    Local(DefId),
    Upvar(DefId, usize, NodeId),
    Unresolved,
}

/// A path in expression position: either resolved in place or resolved
/// relative to a type, in which case the side tables hold the definition.
#[derive(Clone, Copy, PartialEq, Eq)]
pub enum QPath {
    Resolved(Def),
    TypeRelative,
}

/// The target a `break` or `continue` names, as resolution left it.
#[derive(Clone, Copy, PartialEq, Eq)]
pub enum ScopeTarget {
    Block(NodeId),
    LoopOk(NodeId),
    LoopErr,
}

/// An opaque statement block, lowered by the external block collaborator.
#[derive(Clone, Copy, PartialEq, Eq)]
pub struct SourceBlock {
    pub id: NodeId,
    pub span: Span,
}

#[derive(Clone, Copy, PartialEq, Eq)]
pub enum SrcUnOp {
    Deref,
    Not,
    Neg,
}

#[derive(Clone, Copy, PartialEq, Eq)]
pub enum SrcBinOp {
    Add,
    Sub,
    Mul,
    Div,
    Rem,
    And,
    Or,
    BitXor,
    BitAnd,
    BitOr,
    Shl,
    Shr,
    Eq,
    Lt,
    Le,
    Ne,
    Ge,
    Gt,
}

#[derive(PartialEq, Eq)]
pub struct SourceExpr {
    pub id: NodeId,
    pub span: Span,
    pub kind: SourceExprKind,
}

/// One explicitly listed field of an aggregate construction.
#[derive(PartialEq, Eq)]
pub struct SourceField {
    pub name: FieldName,
    pub expr: Box<SourceExpr>,
}

/// One arm of a `match`: opaque patterns, an optional guard, a body.
#[derive(PartialEq, Eq)]
pub struct SourceArm {
    pub pats: List<PatId>,
    pub guard: Option<Box<SourceExpr>>,
    pub body: Box<SourceExpr>,
}

#[derive(PartialEq, Eq)]
pub enum SourceExprKind {
    /// Method-call syntax; the receiver heads the argument list.
    MethodCall(Box<List<SourceExpr>>),
    Call(Box<SourceExpr>, Box<List<SourceExpr>>),
    Unary(SrcUnOp, Box<SourceExpr>),
    Binary(SrcBinOp, Box<SourceExpr>, Box<SourceExpr>),
    AddrOf(Mutability, Box<SourceExpr>),
    Index(Box<SourceExpr>, Box<SourceExpr>),
    Assign(Box<SourceExpr>, Box<SourceExpr>),
    AssignOp(SrcBinOp, Box<SourceExpr>, Box<SourceExpr>),
    /// A literal; its evaluated constant is in the side tables.
    Lit,
    Cast(Box<SourceExpr>),
    /// A type-ascription wrapper, transparent to lowering.
    Ascription(Box<SourceExpr>),
    Struct(QPath, List<SourceField>, Option<Box<SourceExpr>>),
    /// A closure; its type, captures and call kind are in the side tables.
    Closure,
    Path(QPath),
    Field(Box<SourceExpr>, FieldName),
    TupField(Box<SourceExpr>, usize),
    Block(SourceBlock),
    If(Box<SourceExpr>, Box<SourceExpr>, Option<Box<SourceExpr>>),
    While(Box<SourceExpr>, SourceBlock),
    Loop(SourceBlock),
    Match(Box<SourceExpr>, List<SourceArm>),
    Ret(Option<Box<SourceExpr>>),
    Break(ScopeTarget, Option<Box<SourceExpr>>),
    Continue(ScopeTarget),
    Repeat(Box<SourceExpr>, BodyId),
    Boxed(Box<SourceExpr>),
    Array(Box<List<SourceExpr>>),
    Tuple(Box<List<SourceExpr>>),
    InlineAsm(AsmId, Box<List<SourceExpr>>, Box<List<SourceExpr>>),
}

impl Def {
    /// The definition identity this resolution carries, if it has one.
    pub open spec fn s_def_id(self) -> Option<DefId> {
        match self {
            Def::Fn(d) => Some(d),
            Def::Method(d) => Some(d),
            Def::StructCtor(d, _) => Some(d),
            Def::VariantCtor(d, _) => Some(d),
            Def::Variant(d) => Some(d),
            Def::Const(d) => Some(d),
            Def::AssociatedConst(d) => Some(d),
            Def::Static(_) => None,
            Def::Local(d) => Some(d),
            Def::Upvar(d, _, _) => Some(d),
            Def::Unresolved => None,
        }
    }
}

pub fn def_id_of(d: Def) -> (r: Option<DefId>)
    ensures
        r == d.s_def_id(),
{
    match d {
        Def::Fn(d) => Some(d),
        Def::Method(d) => Some(d),
        Def::StructCtor(d, _) => Some(d),
        Def::VariantCtor(d, _) => Some(d),
        Def::Variant(d) => Some(d),
        Def::Const(d) => Some(d),
        Def::AssociatedConst(d) => Some(d),
        Def::Static(_) => None,
        Def::Local(d) => Some(d),
        Def::Upvar(d, _, _) => Some(d),
        Def::Unresolved => None,
    }
}

/// The tree is machine-representable: every list a single lowering step may
/// index with a machine integer fits in one. Only call argument lists are
/// indexed positionally, and lowering recurses only through ascription.
pub open spec fn s_kind_wf(k: SourceExprKind) -> bool
    decreases k,
{
    match k {
        SourceExprKind::Ascription(inner) => s_kind_wf(inner.kind),
        SourceExprKind::Call(_, args) => args.len() <= usize::MAX,
        _ => true,
    }
}

pub open spec fn s_source_wf(e: SourceExpr) -> bool {
    s_kind_wf(e.kind)
}

} // verus!
