//! The lowering pass itself.
//!
//! [`make_mirror`] is the top-level driver: it dispatches on the source
//! node's kind, applies the node's adjustments in table order, wraps the
//! result in the node's own lexical scope and, when the region table
//! declares one, in a destructor scope. Every executable function here is
//! proved to return exactly what its specification function of the same
//! name (prefixed `s_`) computes, so the pass is deterministic and every
//! fatal outcome is pinned to its cause.

use vstd::prelude::*;

use crate::ast::{
    def_id_of, s_kind_wf, s_source_wf, Def, QPath, ScopeTarget, SourceArm, SourceBlock,
    SourceExpr, SourceExprKind, SourceField, SrcBinOp, SrcUnOp,
};
use crate::cx::{
    assoc2, lemma_adts_wf_lookup, Adjust, Adjustment, CaptureKind, CaptureMode, ClosureKind,
    ConstEval, Constness, Cx,
};
use crate::ir::{
    Arm, BinOp, BorrowKind, ConstVal, Expr, ExprKind, ExprRef, Fatal, FieldExprRef, FruInfo,
    Literal, LogicalOp, Pattern, UnOp,
};
use crate::list::{assoc, contains, last, List};
use crate::ty::{
    copy_ty, copy_ty_list, field_index, lemma_field_index_bound, s_field_index, s_variant_index,
    variant_index, AdtKind, CodeExtent, DefId, Mutability, NodeId, Region, Span, SubstsId, Ty,
    VariantDef, EMPTY_SUBSTS,
};

verus! {

// ---------------------------------------------------------------------------
// Small data-driven conversions
// ---------------------------------------------------------------------------

pub open spec fn s_to_borrow_kind(m: Mutability) -> BorrowKind {
    match m {
        Mutability::Mut => BorrowKind::Mut,
        Mutability::Imm => BorrowKind::Shared,
    }
}

pub fn to_borrow_kind(m: Mutability) -> (r: BorrowKind)
    ensures
        r == s_to_borrow_kind(m),
{
    match m {
        Mutability::Mut => BorrowKind::Mut,
        Mutability::Imm => BorrowKind::Shared,
    }
}

/// The borrow kind a by-reference capture is read back with.
pub open spec fn s_capture_borrow_kind(k: CaptureKind) -> BorrowKind {
    match k {
        CaptureKind::ImmBorrow => BorrowKind::Shared,
        CaptureKind::UniqueImmBorrow => BorrowKind::Unique,
        CaptureKind::MutBorrow => BorrowKind::Mut,
    }
}

pub fn capture_borrow_kind(k: CaptureKind) -> (r: BorrowKind)
    ensures
        r == s_capture_borrow_kind(k),
{
    match k {
        CaptureKind::ImmBorrow => BorrowKind::Shared,
        CaptureKind::UniqueImmBorrow => BorrowKind::Unique,
        CaptureKind::MutBorrow => BorrowKind::Mut,
    }
}

/// The mutability a capture's borrow kind maps onto; a unique immutable
/// borrow is deliberately flattened to immutable.
pub open spec fn s_capture_mutbl(k: CaptureKind) -> Mutability {
    match k {
        CaptureKind::ImmBorrow => Mutability::Imm,
        CaptureKind::UniqueImmBorrow => Mutability::Imm,
        CaptureKind::MutBorrow => Mutability::Mut,
    }
}

pub fn capture_mutbl(k: CaptureKind) -> (r: Mutability)
    ensures
        r == s_capture_mutbl(k),
{
    match k {
        CaptureKind::ImmBorrow => Mutability::Imm,
        CaptureKind::UniqueImmBorrow => Mutability::Imm,
        CaptureKind::MutBorrow => Mutability::Mut,
    }
}

/// The single data-driven recipe for a closure's self-reference: borrow the
/// environment at this mutability, or take it by value.
pub open spec fn s_env_ref_mutability(k: ClosureKind) -> Option<Mutability> {
    match k {
        ClosureKind::SharedFn => Some(Mutability::Imm),
        ClosureKind::MutFn => Some(Mutability::Mut),
        ClosureKind::OnceFn => None,
    }
}

pub fn env_ref_mutability(k: ClosureKind) -> (r: Option<Mutability>)
    ensures
        r == s_env_ref_mutability(k),
{
    match k {
        ClosureKind::SharedFn => Some(Mutability::Imm),
        ClosureKind::MutFn => Some(Mutability::Mut),
        ClosureKind::OnceFn => None,
    }
}

/// Maps a primitive source operator onto its IR counterpart. Logical
/// `&&`/`||` have no counterpart here — they are handled before this point,
/// so meeting one is an internal error.
pub open spec fn s_bin_op(op: SrcBinOp, span: Span) -> Result<BinOp, Fatal> {
    match op {
        SrcBinOp::Add => Ok(BinOp::Add),
        SrcBinOp::Sub => Ok(BinOp::Sub),
        SrcBinOp::Mul => Ok(BinOp::Mul),
        SrcBinOp::Div => Ok(BinOp::Div),
        SrcBinOp::Rem => Ok(BinOp::Rem),
        SrcBinOp::BitXor => Ok(BinOp::BitXor),
        SrcBinOp::BitAnd => Ok(BinOp::BitAnd),
        SrcBinOp::BitOr => Ok(BinOp::BitOr),
        SrcBinOp::Shl => Ok(BinOp::Shl),
        SrcBinOp::Shr => Ok(BinOp::Shr),
        SrcBinOp::Eq => Ok(BinOp::Eq),
        SrcBinOp::Lt => Ok(BinOp::Lt),
        SrcBinOp::Le => Ok(BinOp::Le),
        SrcBinOp::Ne => Ok(BinOp::Ne),
        SrcBinOp::Ge => Ok(BinOp::Ge),
        SrcBinOp::Gt => Ok(BinOp::Gt),
        SrcBinOp::And => Err(Fatal::Internal(span)),
        SrcBinOp::Or => Err(Fatal::Internal(span)),
    }
}

pub fn bin_op(op: SrcBinOp, span: Span) -> (r: Result<BinOp, Fatal>)
    ensures
        r == s_bin_op(op, span),
{
    match op {
        SrcBinOp::Add => Ok(BinOp::Add),
        SrcBinOp::Sub => Ok(BinOp::Sub),
        SrcBinOp::Mul => Ok(BinOp::Mul),
        SrcBinOp::Div => Ok(BinOp::Div),
        SrcBinOp::Rem => Ok(BinOp::Rem),
        SrcBinOp::BitXor => Ok(BinOp::BitXor),
        SrcBinOp::BitAnd => Ok(BinOp::BitAnd),
        SrcBinOp::BitOr => Ok(BinOp::BitOr),
        SrcBinOp::Shl => Ok(BinOp::Shl),
        SrcBinOp::Shr => Ok(BinOp::Shr),
        SrcBinOp::Eq => Ok(BinOp::Eq),
        SrcBinOp::Lt => Ok(BinOp::Lt),
        SrcBinOp::Le => Ok(BinOp::Le),
        SrcBinOp::Ne => Ok(BinOp::Ne),
        SrcBinOp::Ge => Ok(BinOp::Ge),
        SrcBinOp::Gt => Ok(BinOp::Gt),
        SrcBinOp::And => Err(Fatal::Internal(span)),
        SrcBinOp::Or => Err(Fatal::Internal(span)),
    }
}

// ---------------------------------------------------------------------------
// Context readers
// ---------------------------------------------------------------------------

/// The node's inferred type, or the internal-error outcome when the type
/// table has no entry — a bug in the type checker.
pub open spec fn s_node_type_or(cx: Cx, id: NodeId, span: Span) -> Result<Ty, Fatal> {
    match cx.s_node_type(id) {
        Some(t) => Ok(t),
        None => Err(Fatal::Internal(span)),
    }
}

pub fn node_type_or(cx: &Cx, id: NodeId, span: Span) -> (r: Result<Ty, Fatal>)
    ensures
        r == s_node_type_or(*cx, id, span),
{
    match assoc(&cx.node_types, id) {
        Some(t) => Ok(copy_ty(t)),
        None => Err(Fatal::Internal(span)),
    }
}

/// The node's type after its adjustments.
pub open spec fn s_adjusted_type_or(cx: Cx, id: NodeId, span: Span) -> Result<Ty, Fatal> {
    match cx.s_adjusted_type(id) {
        Some(t) => Ok(t),
        None => Err(Fatal::Internal(span)),
    }
}

pub fn adjusted_type_or(cx: &Cx, id: NodeId, span: Span) -> (r: Result<Ty, Fatal>)
    ensures
        r == s_adjusted_type_or(*cx, id, span),
{
    let adjs: Option<&List<Adjustment>> = assoc(&cx.adjustments, id);
    match adjs {
        Some(l) => match last(l) {
            Some(a) => Ok(copy_ty(&a.target)),
            None => node_type_or(cx, id, span),
        },
        None => node_type_or(cx, id, span),
    }
}

pub fn temp_scope(cx: &Cx, id: NodeId) -> (r: Option<CodeExtent>)
    ensures
        r == cx.s_temp_scope(id),
{
    match assoc(&cx.temp_scopes, id) {
        Some(x) => Some(*x),
        None => None,
    }
}

// ---------------------------------------------------------------------------
// Deferred references and list conversions
// ---------------------------------------------------------------------------

/// Defers a source node: the consumer lowers it on first use.
pub open spec fn s_source_ref(e: SourceExpr) -> ExprRef {
    ExprRef::Source(Box::new(e))
}

pub fn source_ref(e: SourceExpr) -> (r: ExprRef)
    ensures
        r == s_source_ref(e),
{
    ExprRef::Source(Box::new(e))
}

/// Embeds an already lowered node.
pub open spec fn s_lowered_ref(e: Expr) -> ExprRef {
    ExprRef::Lowered(Box::new(e))
}

pub fn lowered_ref(e: Expr) -> (r: ExprRef)
    ensures
        r == s_lowered_ref(e),
{
    ExprRef::Lowered(Box::new(e))
}

pub open spec fn s_refs_of(args: List<SourceExpr>) -> List<ExprRef>
    decreases args,
{
    match args {
        List::Nil => List::Nil,
        List::Cons(h, t) => List::Cons(s_source_ref(h), Box::new(s_refs_of(*t))),
    }
}

pub fn refs_of(args: List<SourceExpr>) -> (r: List<ExprRef>)
    ensures
        r == s_refs_of(args),
    decreases args,
{
    match args {
        List::Nil => List::Nil,
        List::Cons(h, t) => List::Cons(source_ref(h), Box::new(refs_of(*t))),
    }
}

pub open spec fn s_opt_ref_of(o: Option<Box<SourceExpr>>) -> Option<ExprRef> {
    match o {
        Some(e) => Some(s_source_ref(*e)),
        None => None,
    }
}

pub fn opt_ref_of(o: Option<Box<SourceExpr>>) -> (r: Option<ExprRef>)
    ensures
        r == s_opt_ref_of(o),
{
    match o {
        Some(e) => Some(source_ref(*e)),
        None => None,
    }
}

/// Embeds each opaque pattern unchanged, as the pattern collaborator
/// delivers it.
pub open spec fn s_pats_of(pats: List<u64>) -> List<Pattern>
    decreases pats,
{
    match pats {
        List::Nil => List::Nil,
        List::Cons(h, t) => List::Cons(Pattern(h), Box::new(s_pats_of(*t))),
    }
}

pub fn pats_of(pats: List<u64>) -> (r: List<Pattern>)
    ensures
        r == s_pats_of(pats),
    decreases pats,
{
    match pats {
        List::Nil => List::Nil,
        List::Cons(h, t) => List::Cons(Pattern(h), Box::new(pats_of(*t))),
    }
}

/// The adjusted types of a call's arguments, left to right.
pub open spec fn s_arg_types(cx: Cx, args: List<SourceExpr>) -> Result<List<Ty>, Fatal>
    decreases args,
{
    match args {
        List::Nil => Ok(List::Nil),
        List::Cons(h, t) => match s_adjusted_type_or(cx, h.id, h.span) {
            Ok(ty) => match s_arg_types(cx, *t) {
                Ok(rest) => Ok(List::Cons(ty, Box::new(rest))),
                Err(f) => Err(f),
            },
            Err(f) => Err(f),
        },
    }
}

pub fn arg_types(cx: &Cx, args: &List<SourceExpr>) -> (r: Result<List<Ty>, Fatal>)
    ensures
        r == s_arg_types(*cx, *args),
    decreases *args,
{
    match args {
        List::Nil => Ok(List::Nil),
        List::Cons(h, t) => match adjusted_type_or(cx, h.id, h.span) {
            Ok(ty) => match arg_types(cx, &**t) {
                Ok(rest) => Ok(List::Cons(ty, Box::new(rest))),
                Err(f) => Err(f),
            },
            Err(f) => Err(f),
        },
    }
}

/// Positional field references `i, i+1, ...` for a tuple-style constructor
/// call's arguments.
pub open spec fn s_positional_fields(args: List<SourceExpr>, i: int) -> List<FieldExprRef>
    decreases args,
{
    match args {
        List::Nil => List::Nil,
        List::Cons(h, t) => List::Cons(
            FieldExprRef { name: i as usize, expr: s_source_ref(h) },
            Box::new(s_positional_fields(*t, i + 1)),
        ),
    }
}

pub fn positional_fields(args: List<SourceExpr>, i: usize) -> (r: List<FieldExprRef>)
    requires
        i + args.len() <= usize::MAX,
    ensures
        r == s_positional_fields(args, i as int),
    decreases args,
{
    match args {
        List::Nil => List::Nil,
        List::Cons(h, t) => List::Cons(
            FieldExprRef { name: i, expr: source_ref(h) },
            Box::new(positional_fields(*t, i + 1)),
        ),
    }
}

/// Resolves each listed field name to its declared position in the chosen
/// variant; an unknown name is an internal error (the type checker admitted
/// the construction).
pub open spec fn s_field_refs(
    variant: VariantDef,
    fields: List<SourceField>,
    span: Span,
) -> Result<List<FieldExprRef>, Fatal>
    decreases fields,
{
    match fields {
        List::Nil => Ok(List::Nil),
        List::Cons(f, t) => match s_field_index(variant.fields, f.name) {
            Some(i) => match s_field_refs(variant, *t, span) {
                Ok(rest) => Ok(
                    List::Cons(
                        FieldExprRef { name: i as usize, expr: s_source_ref(*f.expr) },
                        Box::new(rest),
                    ),
                ),
                Err(e) => Err(e),
            },
            None => Err(Fatal::Internal(span)),
        },
    }
}

pub fn field_refs(variant: &VariantDef, fields: List<SourceField>, span: Span) -> (r: Result<
    List<FieldExprRef>,
    Fatal,
>)
    requires
        variant.wf(),
    ensures
        r == s_field_refs(*variant, fields, span),
    decreases fields,
{
    match fields {
        List::Nil => Ok(List::Nil),
        List::Cons(f, t) => match field_index(&variant.fields, f.name) {
            Some(i) => {
                proof {
                    lemma_field_index_bound(variant.fields, f.name);
                }
                match field_refs(variant, *t, span) {
                    Ok(rest) => Ok(
                        List::Cons(
                            FieldExprRef { name: i, expr: source_ref(*f.expr) },
                            Box::new(rest),
                        ),
                    ),
                    Err(e) => Err(e),
                }
            }
            None => Err(Fatal::Internal(span)),
        },
    }
}

// ---------------------------------------------------------------------------
// Callees, paths and variables
// ---------------------------------------------------------------------------

pub fn node_substs_of(cx: &Cx, id: NodeId) -> (r: SubstsId)
    ensures
        r == cx.s_node_substs(id),
{
    match assoc(&cx.node_substs, id) {
        Some(s) => *s,
        None => EMPTY_SUBSTS,
    }
}

/// The definition a path in expression position resolves to: in place, or —
/// for a type-relative path — through the side tables.
pub open spec fn s_qpath_def(cx: Cx, qpath: QPath, id: NodeId) -> Def {
    match qpath {
        QPath::Resolved(d) => d,
        QPath::TypeRelative => match cx.s_method_def(id) {
            Some(d) => d,
            None => Def::Unresolved,
        },
    }
}

pub fn qpath_def(cx: &Cx, qpath: QPath, id: NodeId) -> (r: Def)
    ensures
        r == s_qpath_def(*cx, qpath, id),
{
    match qpath {
        QPath::Resolved(d) => d,
        QPath::TypeRelative => match assoc(&cx.method_defs, id) {
            Some(d) => *d,
            None => Def::Unresolved,
        },
    }
}

/// The literal value standing for a resolved method or operator: a function
/// reference with its substitution, typed as that function's definition.
/// A node the tables hold no resolution for is an internal error.
pub open spec fn s_method_callee(
    cx: Cx,
    id: NodeId,
    span: Span,
    custom: Option<(DefId, SubstsId)>,
) -> Result<Expr, Fatal> {
    let resolved = match custom {
        Some(p) => Some(p),
        None => match cx.s_method_def(id) {
            Some(def) => match def.s_def_id() {
                Some(d) => Some((d, cx.s_node_substs(id))),
                None => None,
            },
            None => None,
        },
    };
    match resolved {
        Some((d, s)) => Ok(
            Expr {
                temp_lifetime: cx.s_temp_scope(id),
                ty: Ty::FnDef(d, s),
                span,
                kind: ExprKind::Literal { literal: Literal::Value(ConstVal::Function(d, s)) },
            },
        ),
        None => Err(Fatal::Internal(span)),
    }
}

pub fn method_callee(cx: &Cx, id: NodeId, span: Span, custom: Option<(DefId, SubstsId)>) -> (r:
    Result<Expr, Fatal>)
    ensures
        r == s_method_callee(*cx, id, span, custom),
{
    let resolved: Option<(DefId, SubstsId)> = match custom {
        Some(p) => Some(p),
        None => match assoc(&cx.method_defs, id) {
            Some(def) => match def_id_of(*def) {
                Some(d) => Some((d, node_substs_of(cx, id))),
                None => None,
            },
            None => None,
        },
    };
    match resolved {
        Some((d, s)) => Ok(
            Expr {
                temp_lifetime: temp_scope(cx, id),
                ty: Ty::FnDef(d, s),
                span,
                kind: ExprKind::Literal { literal: Literal::Value(ConstVal::Function(d, s)) },
            },
        ),
        None => Err(Fatal::Internal(span)),
    }
}

/// Rewrites an overloaded operator application into an explicit call of the
/// resolved method, its operands as ordinary arguments.
pub open spec fn s_overloaded_operator(
    cx: Cx,
    id: NodeId,
    span: Span,
    args: List<ExprRef>,
) -> Result<ExprKind, Fatal> {
    match s_method_callee(cx, id, span, None) {
        Ok(fun) => Ok(ExprKind::Call { ty: fun.ty, fun: s_lowered_ref(fun), args }),
        Err(f) => Err(f),
    }
}

pub fn overloaded_operator(cx: &Cx, id: NodeId, span: Span, args: List<ExprRef>) -> (r: Result<
    ExprKind,
    Fatal,
>)
    ensures
        r == s_overloaded_operator(*cx, id, span, args),
{
    match method_callee(cx, id, span, None) {
        Ok(fun) => {
            let fun_ty = copy_ty(&fun.ty);
            Ok(ExprKind::Call { ty: fun_ty, fun: lowered_ref(fun), args })
        }
        Err(f) => Err(f),
    }
}

/// Rewrites an overloaded dereference or index — an lvalue operation — into
/// `Deref(Call(...))`. The receiver must already be a reference; the
/// synthesized call returns a reference with the receiver's region and
/// mutability whose pointee is the operation's own result type.
pub open spec fn s_overloaded_lvalue(
    cx: Cx,
    id: NodeId,
    span: Span,
    lvalue_ty: Ty,
    custom: Option<(DefId, SubstsId)>,
    args: List<ExprRef>,
) -> Result<ExprKind, Fatal> {
    match args {
        List::Nil => Err(Fatal::Internal(span)),
        List::Cons(first, _) => {
            let recv_ty_res = match first {
                ExprRef::Source(e) => s_adjusted_type_or(cx, e.id, e.span),
                ExprRef::Lowered(e) => Ok(e.ty),
            };
            match recv_ty_res {
                Err(f) => Err(f),
                Ok(recv_ty) => match recv_ty {
                    Ty::Ref(region, mutbl, _) => match s_method_callee(cx, id, span, custom) {
                        Err(f) => Err(f),
                        Ok(fun) => {
                            let ref_expr = Expr {
                                temp_lifetime: cx.s_temp_scope(id),
                                ty: Ty::Ref(region, mutbl, Box::new(lvalue_ty)),
                                span,
                                kind: ExprKind::Call { ty: fun.ty, fun: s_lowered_ref(fun), args },
                            };
                            Ok(ExprKind::Deref { arg: s_lowered_ref(ref_expr) })
                        }
                    },
                    _ => Err(Fatal::Internal(span)),
                },
            }
        }
    }
}

pub fn overloaded_lvalue(
    cx: &Cx,
    id: NodeId,
    span: Span,
    lvalue_ty: Ty,
    custom: Option<(DefId, SubstsId)>,
    args: List<ExprRef>,
) -> (r: Result<ExprKind, Fatal>)
    ensures
        r == s_overloaded_lvalue(*cx, id, span, lvalue_ty, custom, args),
{
    let recv_ty_res: Result<Ty, Fatal> = match &args {
        List::Nil => Err(Fatal::Internal(span)),
        List::Cons(first, _) => match first {
            ExprRef::Source(e) => adjusted_type_or(cx, e.id, e.span),
            ExprRef::Lowered(e) => Ok(copy_ty(&e.ty)),
        },
    };
    match recv_ty_res {
        Err(f) => Err(f),
        Ok(recv_ty) => match recv_ty {
            Ty::Ref(region, mutbl, _) => match method_callee(cx, id, span, custom) {
                Err(f) => Err(f),
                Ok(fun) => {
                    let fun_ty = copy_ty(&fun.ty);
                    let ref_expr = Expr {
                        temp_lifetime: temp_scope(cx, id),
                        ty: Ty::Ref(region, mutbl, Box::new(lvalue_ty)),
                        span,
                        kind: ExprKind::Call { ty: fun_ty, fun: lowered_ref(fun), args },
                    };
                    Ok(ExprKind::Deref { arg: lowered_ref(ref_expr) })
                }
            },
            _ => Err(Fatal::Internal(span)),
        },
    }
}

/// Resolves a local or captured variable reference. A local becomes a
/// direct variable reference. A captured variable becomes a read of its
/// slot off the enclosing closure's environment: a self-reference shaped by
/// the closure's call kind, a positional field access, and — for a
/// by-reference capture — a dereference through a synthesized reference
/// type.
pub open spec fn s_convert_var(cx: Cx, id: NodeId, span: Span, def: Def) -> Result<
    ExprKind,
    Fatal,
> {
    let temp = cx.s_temp_scope(id);
    match def {
        Def::Local(d) => match cx.s_local_node(d) {
            Some(node) => Ok(ExprKind::VarRef { id: node }),
            None => Err(Fatal::Internal(span)),
        },
        Def::Upvar(var_def, index, closure_expr_id) => match cx.s_local_node(var_def) {
            None => Err(Fatal::Internal(span)),
            Some(id_var) => match cx.s_node_type(id_var) {
                None => Err(Fatal::Internal(span)),
                Some(var_ty) => match cx.s_node_type(closure_expr_id) {
                    None => Err(Fatal::Internal(span)),
                    Some(closure_ty) => match cx.s_node_def(closure_expr_id) {
                        None => Err(Fatal::Internal(span)),
                        Some(closure_def_id) => match cx.s_closure_kind(closure_def_id) {
                            None => Err(Fatal::Internal(span)),
                            Some(kind) => {
                                let region = Region::Free(closure_def_id);
                                let self_expr = match s_env_ref_mutability(kind) {
                                    Some(m) => Expr {
                                        ty: closure_ty,
                                        temp_lifetime: temp,
                                        span,
                                        kind: ExprKind::Deref {
                                            arg: s_lowered_ref(
                                                Expr {
                                                    ty: Ty::Ref(region, m, Box::new(closure_ty)),
                                                    temp_lifetime: temp,
                                                    span,
                                                    kind: ExprKind::SelfRef,
                                                },
                                            ),
                                        },
                                    },
                                    None => Expr {
                                        ty: closure_ty,
                                        temp_lifetime: temp,
                                        span,
                                        kind: ExprKind::SelfRef,
                                    },
                                };
                                let field_kind = ExprKind::Field {
                                    lhs: s_lowered_ref(self_expr),
                                    name: index,
                                };
                                match cx.s_upvar_capture(id_var, closure_expr_id) {
                                    None => Err(Fatal::Internal(span)),
                                    Some(CaptureMode::ByValue) => Ok(field_kind),
                                    Some(CaptureMode::ByRef(r2, bk)) => Ok(
                                        ExprKind::Deref {
                                            arg: s_lowered_ref(
                                                Expr {
                                                    temp_lifetime: temp,
                                                    ty: Ty::Ref(
                                                        r2,
                                                        s_capture_mutbl(bk),
                                                        Box::new(var_ty),
                                                    ),
                                                    span,
                                                    kind: field_kind,
                                                },
                                            ),
                                        },
                                    ),
                                }
                            },
                        },
                    },
                },
            },
        },
        _ => Err(Fatal::Internal(span)),
    }
}

pub fn convert_var(cx: &Cx, id: NodeId, span: Span, def: Def) -> (r: Result<ExprKind, Fatal>)
    ensures
        r == s_convert_var(*cx, id, span, def),
{
    let temp = temp_scope(cx, id);
    match def {
        Def::Local(d) => match assoc(&cx.local_nodes, d) {
            Some(node) => Ok(ExprKind::VarRef { id: *node }),
            None => Err(Fatal::Internal(span)),
        },
        Def::Upvar(var_def, index, closure_expr_id) => match assoc(&cx.local_nodes, var_def) {
            None => Err(Fatal::Internal(span)),
            Some(id_var) => {
                let id_var = *id_var;
                match assoc(&cx.node_types, id_var) {
                    None => Err(Fatal::Internal(span)),
                    Some(var_ty_entry) => {
                        let var_ty = copy_ty(var_ty_entry);
                        match assoc(&cx.node_types, closure_expr_id) {
                            None => Err(Fatal::Internal(span)),
                            Some(closure_ty_entry) => {
                                let closure_ty = copy_ty(closure_ty_entry);
                                match assoc(&cx.node_defs, closure_expr_id) {
                                    None => Err(Fatal::Internal(span)),
                                    Some(closure_def_id) => {
                                        let closure_def_id = *closure_def_id;
                                        match assoc(&cx.closure_kinds, closure_def_id) {
                                            None => Err(Fatal::Internal(span)),
                                            Some(kind) => {
                                                let region = Region::Free(closure_def_id);
                                                let self_expr = match env_ref_mutability(*kind) {
                                                    Some(m) => {
                                                        let pointee = copy_ty(&closure_ty);
                                                        Expr {
                                                            ty: closure_ty,
                                                            temp_lifetime: temp,
                                                            span,
                                                            kind: ExprKind::Deref {
                                                                arg: lowered_ref(
                                                                    Expr {
                                                                        ty: Ty::Ref(
                                                                            region,
                                                                            m,
                                                                            Box::new(pointee),
                                                                        ),
                                                                        temp_lifetime: temp,
                                                                        span,
                                                                        kind: ExprKind::SelfRef,
                                                                    },
                                                                ),
                                                            },
                                                        }
                                                    }
                                                    None => Expr {
                                                        ty: closure_ty,
                                                        temp_lifetime: temp,
                                                        span,
                                                        kind: ExprKind::SelfRef,
                                                    },
                                                };
                                                let field_kind = ExprKind::Field {
                                                    lhs: lowered_ref(self_expr),
                                                    name: index,
                                                };
                                                match assoc2(
                                                    &cx.upvar_captures,
                                                    id_var,
                                                    closure_expr_id,
                                                ) {
                                                    None => Err(Fatal::Internal(span)),
                                                    Some(CaptureMode::ByValue) => Ok(field_kind),
                                                    Some(CaptureMode::ByRef(r2, bk)) => Ok(
                                                        ExprKind::Deref {
                                                            arg: lowered_ref(
                                                                Expr {
                                                                    temp_lifetime: temp,
                                                                    ty: Ty::Ref(
                                                                        r2,
                                                                        capture_mutbl(bk),
                                                                        Box::new(var_ty),
                                                                    ),
                                                                    span,
                                                                    kind: field_kind,
                                                                },
                                                            ),
                                                        },
                                                    ),
                                                }
                                            }
                                        }
                                    }
                                }
                            }
                        }
                    }
                }
            }
        },
        _ => Err(Fatal::Internal(span)),
    }
}

/// Lowers a path in expression position: functions, methods and positional
/// constructors become function literals; constants become item literals; a
/// unit-like constructor used as a bare value becomes a zero-field aggregate
/// construction; statics become static references; locals and captured
/// variables go through variable resolution.
pub open spec fn s_convert_path_expr(cx: Cx, id: NodeId, span: Span, def: Def) -> Result<
    ExprKind,
    Fatal,
> {
    let substs = cx.s_node_substs(id);
    match def {
        Def::Fn(d) => Ok(ExprKind::Literal { literal: Literal::Value(ConstVal::Function(d, substs)) }),
        Def::Method(d) => Ok(
            ExprKind::Literal { literal: Literal::Value(ConstVal::Function(d, substs)) },
        ),
        Def::Const(d) => Ok(ExprKind::Literal { literal: Literal::Item(d, substs) }),
        Def::AssociatedConst(d) => Ok(ExprKind::Literal { literal: Literal::Item(d, substs) }),
        Def::StructCtor(d, k) => match k {
            crate::ast::CtorKind::Fn => Ok(
                ExprKind::Literal { literal: Literal::Value(ConstVal::Function(d, substs)) },
            ),
            crate::ast::CtorKind::Const => s_unit_adt(cx, id, span, d),
            crate::ast::CtorKind::Fictive => Err(Fatal::Internal(span)),
        },
        Def::VariantCtor(d, k) => match k {
            crate::ast::CtorKind::Fn => Ok(
                ExprKind::Literal { literal: Literal::Value(ConstVal::Function(d, substs)) },
            ),
            crate::ast::CtorKind::Const => s_unit_adt(cx, id, span, d),
            crate::ast::CtorKind::Fictive => Err(Fatal::Internal(span)),
        },
        Def::Static(node_id) => Ok(ExprKind::StaticRef { id: node_id }),
        Def::Local(_) => s_convert_var(cx, id, span, def),
        Def::Upvar(_, _, _) => s_convert_var(cx, id, span, def),
        _ => Err(Fatal::Internal(span)),
    }
}

/// A unit struct or unit enum variant used as a value: a zero-field
/// aggregate construction of the resolved variant.
pub open spec fn s_unit_adt(cx: Cx, id: NodeId, span: Span, ctor: DefId) -> Result<
    ExprKind,
    Fatal,
> {
    match cx.s_node_type(id) {
        Some(Ty::Adt(aid, s)) => match cx.s_adt(aid) {
            Some(adt) => match s_variant_index(adt.variants, ctor) {
                Some(i) => Ok(
                    ExprKind::Adt {
                        adt: aid,
                        variant_index: i as usize,
                        substs: s,
                        fields: List::Nil,
                        base: None,
                    },
                ),
                None => Err(Fatal::Internal(span)),
            },
            None => Err(Fatal::Internal(span)),
        },
        _ => Err(Fatal::Internal(span)),
    }
}

pub fn unit_adt(cx: &Cx, id: NodeId, span: Span, ctor: DefId) -> (r: Result<ExprKind, Fatal>)
    requires
        cx.wf(),
    ensures
        r == s_unit_adt(*cx, id, span, ctor),
{
    match assoc(&cx.node_types, id) {
        Some(t) => match t {
            Ty::Adt(aid, s) => match assoc(&cx.adts, *aid) {
                Some(adt) => {
                    proof {
                        lemma_adts_wf_lookup(cx.adts, *aid);
                    }
                    match variant_index(&adt.variants, ctor) {
                        Some(i) => Ok(
                            ExprKind::Adt {
                                adt: *aid,
                                variant_index: i,
                                substs: *s,
                                fields: List::Nil,
                                base: None,
                            },
                        ),
                        None => Err(Fatal::Internal(span)),
                    }
                }
                None => Err(Fatal::Internal(span)),
            },
            _ => Err(Fatal::Internal(span)),
        },
        None => Err(Fatal::Internal(span)),
    }
}

pub fn convert_path_expr(cx: &Cx, id: NodeId, span: Span, def: Def) -> (r: Result<ExprKind, Fatal>)
    requires
        cx.wf(),
    ensures
        r == s_convert_path_expr(*cx, id, span, def),
{
    let substs = node_substs_of(cx, id);
    match def {
        Def::Fn(d) => Ok(ExprKind::Literal { literal: Literal::Value(ConstVal::Function(d, substs)) }),
        Def::Method(d) => Ok(
            ExprKind::Literal { literal: Literal::Value(ConstVal::Function(d, substs)) },
        ),
        Def::Const(d) => Ok(ExprKind::Literal { literal: Literal::Item(d, substs) }),
        Def::AssociatedConst(d) => Ok(ExprKind::Literal { literal: Literal::Item(d, substs) }),
        Def::StructCtor(d, k) => match k {
            crate::ast::CtorKind::Fn => Ok(
                ExprKind::Literal { literal: Literal::Value(ConstVal::Function(d, substs)) },
            ),
            crate::ast::CtorKind::Const => unit_adt(cx, id, span, d),
            crate::ast::CtorKind::Fictive => Err(Fatal::Internal(span)),
        },
        Def::VariantCtor(d, k) => match k {
            crate::ast::CtorKind::Fn => Ok(
                ExprKind::Literal { literal: Literal::Value(ConstVal::Function(d, substs)) },
            ),
            crate::ast::CtorKind::Const => unit_adt(cx, id, span, d),
            crate::ast::CtorKind::Fictive => Err(Fatal::Internal(span)),
        },
        Def::Static(node_id) => Ok(ExprKind::StaticRef { id: node_id }),
        Def::Local(_) => convert_var(cx, id, span, def),
        Def::Upvar(_, _, _) => convert_var(cx, id, span, def),
        _ => Err(Fatal::Internal(span)),
    }
}

// ---------------------------------------------------------------------------
// Arms, blocks and captures
// ---------------------------------------------------------------------------

/// Converts one match arm: patterns embedded unchanged from the pattern
/// collaborator, guard and body deferred.
pub open spec fn s_convert_arm(arm: SourceArm) -> Arm {
    Arm {
        patterns: s_pats_of(arm.pats),
        guard: s_opt_ref_of(arm.guard),
        body: s_source_ref(*arm.body),
    }
}

pub fn convert_arm(arm: SourceArm) -> (r: Arm)
    ensures
        r == s_convert_arm(arm),
{
    Arm { patterns: pats_of(arm.pats), guard: opt_ref_of(arm.guard), body: source_ref(*arm.body) }
}

pub open spec fn s_convert_arms(arms: List<SourceArm>) -> List<Arm>
    decreases arms,
{
    match arms {
        List::Nil => List::Nil,
        List::Cons(a, t) => List::Cons(s_convert_arm(a), Box::new(s_convert_arms(*t))),
    }
}

pub fn convert_arms(arms: List<SourceArm>) -> (r: List<Arm>)
    ensures
        r == s_convert_arms(arms),
    decreases arms,
{
    match arms {
        List::Nil => List::Nil,
        List::Cons(a, t) => List::Cons(convert_arm(a), Box::new(convert_arms(*t))),
    }
}

/// Hands a statement block to the external block collaborator: an opaque
/// block node typed and scoped from the tables.
pub open spec fn s_block_ref(cx: Cx, blk: SourceBlock) -> Result<ExprRef, Fatal> {
    match cx.s_node_type(blk.id) {
        Some(ty) => Ok(
            s_lowered_ref(
                Expr {
                    temp_lifetime: cx.s_temp_scope(blk.id),
                    ty,
                    span: blk.span,
                    kind: ExprKind::Block { body: blk.id },
                },
            ),
        ),
        None => Err(Fatal::Internal(blk.span)),
    }
}

pub fn block_ref(cx: &Cx, blk: SourceBlock) -> (r: Result<ExprRef, Fatal>)
    ensures
        r == s_block_ref(*cx, blk),
{
    match assoc(&cx.node_types, blk.id) {
        Some(t) => Ok(
            lowered_ref(
                Expr {
                    temp_lifetime: temp_scope(cx, blk.id),
                    ty: copy_ty(t),
                    span: blk.span,
                    kind: ExprKind::Block { body: blk.id },
                },
            ),
        ),
        None => Err(Fatal::Internal(blk.span)),
    }
}

/// Builds the expression with which the closure's environment captures one
/// free variable: the variable's access expression through the enclosing
/// closure (not its definition site), borrowed as the recorded capture mode
/// asks, or taken by value.
pub open spec fn s_capture_freevar(
    cx: Cx,
    closure_id: NodeId,
    closure_span: Span,
    fv: Def,
    fv_ty: Ty,
) -> Result<ExprRef, Fatal> {
    match fv.s_def_id() {
        None => Err(Fatal::Internal(closure_span)),
        Some(var_def) => match cx.s_local_node(var_def) {
            None => Err(Fatal::Internal(closure_span)),
            Some(id_var) => match cx.s_upvar_capture(id_var, closure_id) {
                None => Err(Fatal::Internal(closure_span)),
                Some(capture) => match cx.s_node_type(id_var) {
                    None => Err(Fatal::Internal(closure_span)),
                    Some(var_ty) => match s_convert_var(cx, closure_id, closure_span, fv) {
                        Err(f) => Err(f),
                        Ok(kind) => {
                            let temp = cx.s_temp_scope(closure_id);
                            let captured = Expr {
                                temp_lifetime: temp,
                                ty: var_ty,
                                span: closure_span,
                                kind,
                            };
                            match capture {
                                CaptureMode::ByValue => Ok(s_lowered_ref(captured)),
                                CaptureMode::ByRef(region, bk) => Ok(
                                    s_lowered_ref(
                                        Expr {
                                            temp_lifetime: temp,
                                            ty: fv_ty,
                                            span: closure_span,
                                            kind: ExprKind::Borrow {
                                                region,
                                                borrow_kind: s_capture_borrow_kind(bk),
                                                arg: s_lowered_ref(captured),
                                            },
                                        },
                                    ),
                                ),
                            }
                        },
                    },
                },
            },
        },
    }
}

pub fn capture_freevar(
    cx: &Cx,
    closure_id: NodeId,
    closure_span: Span,
    fv: Def,
    fv_ty: Ty,
) -> (r: Result<ExprRef, Fatal>)
    ensures
        r == s_capture_freevar(*cx, closure_id, closure_span, fv, fv_ty),
{
    match def_id_of(fv) {
        None => Err(Fatal::Internal(closure_span)),
        Some(var_def) => match assoc(&cx.local_nodes, var_def) {
            None => Err(Fatal::Internal(closure_span)),
            Some(id_var) => {
                let id_var = *id_var;
                match assoc2(&cx.upvar_captures, id_var, closure_id) {
                    None => Err(Fatal::Internal(closure_span)),
                    Some(capture) => match assoc(&cx.node_types, id_var) {
                        None => Err(Fatal::Internal(closure_span)),
                        Some(var_ty_entry) => {
                            let var_ty = copy_ty(var_ty_entry);
                            match convert_var(cx, closure_id, closure_span, fv) {
                                Err(f) => Err(f),
                                Ok(kind) => {
                                    let temp = temp_scope(cx, closure_id);
                                    let captured = Expr {
                                        temp_lifetime: temp,
                                        ty: var_ty,
                                        span: closure_span,
                                        kind,
                                    };
                                    match capture {
                                        CaptureMode::ByValue => Ok(lowered_ref(captured)),
                                        CaptureMode::ByRef(region, bk) => Ok(
                                            lowered_ref(
                                                Expr {
                                                    temp_lifetime: temp,
                                                    ty: fv_ty,
                                                    span: closure_span,
                                                    kind: ExprKind::Borrow {
                                                        region,
                                                        borrow_kind: capture_borrow_kind(bk),
                                                        arg: lowered_ref(captured),
                                                    },
                                                },
                                            ),
                                        ),
                                    }
                                }
                            }
                        }
                    },
                }
            }
        },
    }
}

/// Converts every captured free variable, in slot order, pairing each with
/// its declared capture type; the shorter list bounds the walk, as the
/// upstream zip does.
pub open spec fn s_capture_freevars(
    cx: Cx,
    closure_id: NodeId,
    closure_span: Span,
    fvs: List<Def>,
    tys: List<Ty>,
) -> Result<List<ExprRef>, Fatal>
    decreases fvs,
{
    match fvs {
        List::Nil => Ok(List::Nil),
        List::Cons(fv, ft) => match tys {
            List::Nil => Ok(List::Nil),
            List::Cons(ty, tt) => match s_capture_freevar(cx, closure_id, closure_span, fv, ty) {
                Err(f) => Err(f),
                Ok(r) => match s_capture_freevars(cx, closure_id, closure_span, *ft, *tt) {
                    Ok(rest) => Ok(List::Cons(r, Box::new(rest))),
                    Err(f) => Err(f),
                },
            },
        },
    }
}

pub fn capture_freevars(
    cx: &Cx,
    closure_id: NodeId,
    closure_span: Span,
    fvs: &List<Def>,
    tys: &List<Ty>,
) -> (r: Result<List<ExprRef>, Fatal>)
    ensures
        r == s_capture_freevars(*cx, closure_id, closure_span, *fvs, *tys),
    decreases *fvs,
{
    match fvs {
        List::Nil => Ok(List::Nil),
        List::Cons(fv, ft) => match tys {
            List::Nil => Ok(List::Nil),
            List::Cons(ty, tt) => match capture_freevar(
                cx,
                closure_id,
                closure_span,
                *fv,
                copy_ty(ty),
            ) {
                Err(f) => Err(f),
                Ok(r) => match capture_freevars(cx, closure_id, closure_span, &**ft, &**tt) {
                    Ok(rest) => Ok(List::Cons(r, Box::new(rest))),
                    Err(f) => Err(f),
                },
            },
        },
    }
}

// ---------------------------------------------------------------------------
// Adjustments
// ---------------------------------------------------------------------------

/// Applies one adjustment step to an already lowered node. Whatever the
/// step's kind builds, the new node's type is the step's declared target.
pub open spec fn s_apply_adjustment(cx: Cx, hir_id: NodeId, e: Expr, a: Adjustment) -> Result<
    Expr,
    Fatal,
> {
    let temp = e.temp_lifetime;
    let span = e.span;
    let kind_res: Result<ExprKind, Fatal> = match a.kind {
        Adjust::ReifyFnPointer => Ok(ExprKind::ReifyFnPointer { source: s_lowered_ref(e) }),
        Adjust::UnsafeFnPointer => Ok(ExprKind::UnsafeFnPointer { source: s_lowered_ref(e) }),
        Adjust::ClosureFnPointer => Ok(ExprKind::ClosureFnPointer { source: s_lowered_ref(e) }),
        Adjust::NeverToAny => Ok(ExprKind::NeverToAny { source: s_lowered_ref(e) }),
        Adjust::MutToConstPointer => Ok(ExprKind::Cast { source: s_lowered_ref(e) }),
        Adjust::Deref => Ok(ExprKind::Deref { arg: s_lowered_ref(e) }),
        Adjust::OverloadedDeref { region, mutbl, method, substs } => {
            let borrow = Expr {
                temp_lifetime: temp,
                ty: Ty::Ref(region, mutbl, Box::new(e.ty)),
                span,
                kind: ExprKind::Borrow {
                    region,
                    borrow_kind: s_to_borrow_kind(mutbl),
                    arg: s_lowered_ref(e),
                },
            };
            s_overloaded_lvalue(
                cx,
                hir_id,
                span,
                a.target,
                Some((method, substs)),
                List::Cons(s_lowered_ref(borrow), Box::new(List::Nil)),
            )
        },
        Adjust::Borrow(region, m) => Ok(
            ExprKind::Borrow {
                region,
                borrow_kind: s_to_borrow_kind(m),
                arg: s_lowered_ref(e),
            },
        ),
        Adjust::RawPtrBorrow(m) => {
            let region = Region::Scope(CodeExtent::Misc(hir_id));
            let borrow = Expr {
                temp_lifetime: temp,
                ty: Ty::Ref(region, m, Box::new(e.ty)),
                span,
                kind: ExprKind::Borrow {
                    region,
                    borrow_kind: s_to_borrow_kind(m),
                    arg: s_lowered_ref(e),
                },
            };
            Ok(ExprKind::Cast { source: s_lowered_ref(borrow) })
        },
        Adjust::Unsize => Ok(ExprKind::Unsize { source: s_lowered_ref(e) }),
    };
    match kind_res {
        Ok(kind) => Ok(Expr { temp_lifetime: temp, ty: a.target, span, kind }),
        Err(f) => Err(f),
    }
}

pub fn apply_adjustment(cx: &Cx, hir_id: NodeId, e: Expr, a: &Adjustment) -> (r: Result<
    Expr,
    Fatal,
>)
    ensures
        r == s_apply_adjustment(*cx, hir_id, e, *a),
{
    let temp = e.temp_lifetime;
    let span = e.span;
    let kind_res: Result<ExprKind, Fatal> = match a.kind {
        Adjust::ReifyFnPointer => Ok(ExprKind::ReifyFnPointer { source: lowered_ref(e) }),
        Adjust::UnsafeFnPointer => Ok(ExprKind::UnsafeFnPointer { source: lowered_ref(e) }),
        Adjust::ClosureFnPointer => Ok(ExprKind::ClosureFnPointer { source: lowered_ref(e) }),
        Adjust::NeverToAny => Ok(ExprKind::NeverToAny { source: lowered_ref(e) }),
        Adjust::MutToConstPointer => Ok(ExprKind::Cast { source: lowered_ref(e) }),
        Adjust::Deref => Ok(ExprKind::Deref { arg: lowered_ref(e) }),
        Adjust::OverloadedDeref { region, mutbl, method, substs } => {
            let e_ty = copy_ty(&e.ty);
            let borrow = Expr {
                temp_lifetime: temp,
                ty: Ty::Ref(region, mutbl, Box::new(e_ty)),
                span,
                kind: ExprKind::Borrow {
                    region,
                    borrow_kind: to_borrow_kind(mutbl),
                    arg: lowered_ref(e),
                },
            };
            overloaded_lvalue(
                cx,
                hir_id,
                span,
                copy_ty(&a.target),
                Some((method, substs)),
                List::Cons(lowered_ref(borrow), Box::new(List::Nil)),
            )
        }
        Adjust::Borrow(region, m) => Ok(
            ExprKind::Borrow { region, borrow_kind: to_borrow_kind(m), arg: lowered_ref(e) },
        ),
        Adjust::RawPtrBorrow(m) => {
            let region = Region::Scope(CodeExtent::Misc(hir_id));
            let e_ty = copy_ty(&e.ty);
            let borrow = Expr {
                temp_lifetime: temp,
                ty: Ty::Ref(region, m, Box::new(e_ty)),
                span,
                kind: ExprKind::Borrow {
                    region,
                    borrow_kind: to_borrow_kind(m),
                    arg: lowered_ref(e),
                },
            };
            Ok(ExprKind::Cast { source: lowered_ref(borrow) })
        }
        Adjust::Unsize => Ok(ExprKind::Unsize { source: lowered_ref(e) }),
    };
    match kind_res {
        Ok(kind) => Ok(Expr { temp_lifetime: temp, ty: copy_ty(&a.target), span, kind }),
        Err(f) => Err(f),
    }
}

/// Applies every adjustment step in table order; each application replaces
/// the current node.
pub open spec fn s_apply_adjustments(
    cx: Cx,
    hir_id: NodeId,
    e: Expr,
    adjs: List<Adjustment>,
) -> Result<Expr, Fatal>
    decreases adjs,
{
    match adjs {
        List::Nil => Ok(e),
        List::Cons(a, t) => match s_apply_adjustment(cx, hir_id, e, a) {
            Ok(e2) => s_apply_adjustments(cx, hir_id, e2, *t),
            Err(f) => Err(f),
        },
    }
}

pub fn apply_adjustments(cx: &Cx, hir_id: NodeId, e: Expr, adjs: &List<Adjustment>) -> (r: Result<
    Expr,
    Fatal,
>)
    ensures
        r == s_apply_adjustments(*cx, hir_id, e, *adjs),
    decreases *adjs,
{
    match adjs {
        List::Nil => Ok(e),
        List::Cons(a, t) => match apply_adjustment(cx, hir_id, e, a) {
            Ok(e2) => apply_adjustments(cx, hir_id, e2, &**t),
            Err(f) => Err(f),
        },
    }
}

// ---------------------------------------------------------------------------
// The per-kind lowering rules that need more than a line or two
// ---------------------------------------------------------------------------

/// Lowers a function call. A callee of callable type (the call goes through
/// a call-trait method) is rewritten into a call of that method with the
/// callee and the tupled arguments as its two arguments. A callee naming a
/// tuple-style constructor becomes an aggregate construction with positional
/// fields. Anything else is a plain call.
pub open spec fn s_lower_call(
    cx: Cx,
    id: NodeId,
    span: Span,
    expr_ty: Ty,
    fun: SourceExpr,
    args: List<SourceExpr>,
) -> Result<ExprKind, Fatal> {
    if cx.s_is_method_call(id) {
        match s_method_callee(cx, id, span, None) {
            Err(f) => Err(f),
            Ok(method) => match s_arg_types(cx, args) {
                Err(f) => Err(f),
                Ok(tys) => {
                    let tupled = Expr {
                        ty: Ty::Tuple(Box::new(tys)),
                        temp_lifetime: cx.s_temp_scope(id),
                        span,
                        kind: ExprKind::Tuple { fields: s_refs_of(args) },
                    };
                    Ok(
                        ExprKind::Call {
                            ty: method.ty,
                            fun: s_lowered_ref(method),
                            args: List::Cons(
                                s_source_ref(fun),
                                Box::new(List::Cons(s_lowered_ref(tupled), Box::new(List::Nil))),
                            ),
                        },
                    )
                },
            },
        }
    } else {
        let adt_data: Result<Option<(u64, usize)>, Fatal> = match fun.kind {
            SourceExprKind::Path(QPath::Resolved(def)) => match expr_ty {
                Ty::Adt(aid, _) => match def {
                    Def::VariantCtor(vid, crate::ast::CtorKind::Fn) => match cx.s_adt(aid) {
                        Some(adt) => match s_variant_index(adt.variants, vid) {
                            Some(i) => Ok(Some((aid, i as usize))),
                            None => Err(Fatal::Internal(span)),
                        },
                        None => Err(Fatal::Internal(span)),
                    },
                    Def::StructCtor(_, crate::ast::CtorKind::Fn) => Ok(Some((aid, 0))),
                    _ => Ok(None),
                },
                _ => Ok(None),
            },
            _ => Ok(None),
        };
        match adt_data {
            Err(f) => Err(f),
            Ok(Some((aid, index))) => Ok(
                ExprKind::Adt {
                    adt: aid,
                    variant_index: index,
                    substs: cx.s_node_substs(fun.id),
                    fields: s_positional_fields(args, 0),
                    base: None,
                },
            ),
            Ok(None) => match cx.s_node_type(fun.id) {
                Some(fun_ty) => Ok(
                    ExprKind::Call { ty: fun_ty, fun: s_source_ref(fun), args: s_refs_of(args) },
                ),
                None => Err(Fatal::Internal(span)),
            },
        }
    }
}

pub fn lower_call(
    cx: &Cx,
    id: NodeId,
    span: Span,
    expr_ty: &Ty,
    fun: SourceExpr,
    args: List<SourceExpr>,
) -> (r: Result<ExprKind, Fatal>)
    requires
        cx.wf(),
        args.len() <= usize::MAX,
    ensures
        r == s_lower_call(*cx, id, span, *expr_ty, fun, args),
{
    if contains(&cx.method_calls, id) {
        match method_callee(cx, id, span, None) {
            Err(f) => Err(f),
            Ok(method) => match arg_types(cx, &args) {
                Err(f) => Err(f),
                Ok(tys) => {
                    let tupled = Expr {
                        ty: Ty::Tuple(Box::new(tys)),
                        temp_lifetime: temp_scope(cx, id),
                        span,
                        kind: ExprKind::Tuple { fields: refs_of(args) },
                    };
                    let method_ty = copy_ty(&method.ty);
                    Ok(
                        ExprKind::Call {
                            ty: method_ty,
                            fun: lowered_ref(method),
                            args: List::Cons(
                                source_ref(fun),
                                Box::new(List::Cons(lowered_ref(tupled), Box::new(List::Nil))),
                            ),
                        },
                    )
                }
            },
        }
    } else {
        let adt_data: Result<Option<(u64, usize)>, Fatal> = match &fun.kind {
            SourceExprKind::Path(QPath::Resolved(def)) => match expr_ty {
                Ty::Adt(aid, _) => match def {
                    Def::VariantCtor(vid, crate::ast::CtorKind::Fn) => match assoc(
                        &cx.adts,
                        *aid,
                    ) {
                        Some(adt) => {
                            proof {
                                lemma_adts_wf_lookup(cx.adts, *aid);
                            }
                            match variant_index(&adt.variants, *vid) {
                                Some(i) => Ok(Some((*aid, i))),
                                None => Err(Fatal::Internal(span)),
                            }
                        }
                        None => Err(Fatal::Internal(span)),
                    },
                    Def::StructCtor(_, crate::ast::CtorKind::Fn) => Ok(Some((*aid, 0))),
                    _ => Ok(None),
                },
                _ => Ok(None),
            },
            _ => Ok(None),
        };
        match adt_data {
            Err(f) => Err(f),
            Ok(Some((aid, index))) => Ok(
                ExprKind::Adt {
                    adt: aid,
                    variant_index: index,
                    substs: node_substs_of(cx, fun.id),
                    fields: positional_fields(args, 0),
                    base: None,
                },
            ),
            Ok(None) => match node_type_or(cx, fun.id, span) {
                Ok(fun_ty) => Ok(
                    ExprKind::Call { ty: fun_ty, fun: source_ref(fun), args: refs_of(args) },
                ),
                Err(f) => Err(f),
            },
        }
    }
}

/// Lowers an aggregate construction. The node's type names the algebraic
/// data type; a struct or union builds variant zero, an enum the variant its
/// path resolved to (which admits no record-update base). Listed field names
/// resolve to declared positions; a base carries the declared types of the
/// fields it supplies.
pub open spec fn s_lower_struct(
    cx: Cx,
    id: NodeId,
    span: Span,
    expr_ty: Ty,
    qpath: QPath,
    fields: List<SourceField>,
    base: Option<Box<SourceExpr>>,
) -> Result<ExprKind, Fatal> {
    match expr_ty {
        Ty::Adt(aid, substs) => match cx.s_adt(aid) {
            None => Err(Fatal::Internal(span)),
            Some(adt) => match adt.kind {
                AdtKind::Enum => {
                    let def = match qpath {
                        QPath::Resolved(d) => d,
                        QPath::TypeRelative => Def::Unresolved,
                    };
                    match def {
                        Def::Variant(variant_id) => match base {
                            Some(_) => Err(Fatal::Internal(span)),
                            None => match s_variant_index(adt.variants, variant_id) {
                                None => Err(Fatal::Internal(span)),
                                Some(i) => match crate::list::s_nth(adt.variants, i) {
                                    None => Err(Fatal::Internal(span)),
                                    Some(v) => match s_field_refs(v, fields, span) {
                                        Err(f) => Err(f),
                                        Ok(frefs) => Ok(
                                            ExprKind::Adt {
                                                adt: aid,
                                                variant_index: i as usize,
                                                substs,
                                                fields: frefs,
                                                base: None,
                                            },
                                        ),
                                    },
                                },
                            },
                        },
                        _ => Err(Fatal::Internal(span)),
                    }
                },
                _ => match adt.variants {
                    List::Nil => Err(Fatal::Internal(span)),
                    List::Cons(v0, _) => match s_field_refs(v0, fields, span) {
                        Err(f) => Err(f),
                        Ok(frefs) => match base {
                            None => Ok(
                                ExprKind::Adt {
                                    adt: aid,
                                    variant_index: 0,
                                    substs,
                                    fields: frefs,
                                    base: None,
                                },
                            ),
                            Some(b) => match cx.s_fru_field_types(id) {
                                None => Err(Fatal::Internal(span)),
                                Some(ftys) => Ok(
                                    ExprKind::Adt {
                                        adt: aid,
                                        variant_index: 0,
                                        substs,
                                        fields: frefs,
                                        base: Some(
                                            FruInfo { base: s_source_ref(*b), field_types: ftys },
                                        ),
                                    },
                                ),
                            },
                        },
                    },
                },
            },
        },
        _ => Err(Fatal::Internal(span)),
    }
}

pub fn lower_struct(
    cx: &Cx,
    id: NodeId,
    span: Span,
    expr_ty: &Ty,
    qpath: QPath,
    fields: List<SourceField>,
    base: Option<Box<SourceExpr>>,
) -> (r: Result<ExprKind, Fatal>)
    requires
        cx.wf(),
    ensures
        r == s_lower_struct(*cx, id, span, *expr_ty, qpath, fields, base),
{
    match expr_ty {
        Ty::Adt(aid, substs) => match assoc(&cx.adts, *aid) {
            None => Err(Fatal::Internal(span)),
            Some(adt) => {
                proof {
                    lemma_adts_wf_lookup(cx.adts, *aid);
                }
                match adt.kind {
                    AdtKind::Enum => {
                        let def = match qpath {
                            QPath::Resolved(d) => d,
                            QPath::TypeRelative => Def::Unresolved,
                        };
                        match def {
                            Def::Variant(variant_id) => match base {
                                Some(_) => Err(Fatal::Internal(span)),
                                None => match variant_index(&adt.variants, variant_id) {
                                    None => Err(Fatal::Internal(span)),
                                    Some(i) => match crate::list::nth(&adt.variants, i) {
                                        None => Err(Fatal::Internal(span)),
                                        Some(v) => {
                                            proof {
                                                crate::ty::lemma_variants_wf_nth(
                                                    adt.variants,
                                                    i as nat,
                                                );
                                            }
                                            match field_refs(v, fields, span) {
                                                Err(f) => Err(f),
                                                Ok(frefs) => Ok(
                                                    ExprKind::Adt {
                                                        adt: *aid,
                                                        variant_index: i,
                                                        substs: *substs,
                                                        fields: frefs,
                                                        base: None,
                                                    },
                                                ),
                                            }
                                        }
                                    },
                                },
                            },
                            _ => Err(Fatal::Internal(span)),
                        }
                    }
                    _ => match &adt.variants {
                        List::Nil => Err(Fatal::Internal(span)),
                        List::Cons(v0, _) => match field_refs(v0, fields, span) {
                            Err(f) => Err(f),
                            Ok(frefs) => match base {
                                None => Ok(
                                    ExprKind::Adt {
                                        adt: *aid,
                                        variant_index: 0,
                                        substs: *substs,
                                        fields: frefs,
                                        base: None,
                                    },
                                ),
                                Some(b) => match assoc(&cx.fru_field_types, id) {
                                    None => Err(Fatal::Internal(span)),
                                    Some(ftys) => Ok(
                                        ExprKind::Adt {
                                            adt: *aid,
                                            variant_index: 0,
                                            substs: *substs,
                                            fields: frefs,
                                            base: Some(
                                                FruInfo {
                                                    base: source_ref(*b),
                                                    field_types: copy_ty_list(ftys),
                                                },
                                            ),
                                        },
                                    ),
                                },
                            },
                        },
                    },
                }
            }
        },
        _ => Err(Fatal::Internal(span)),
    }
}

/// Lowers a closure: its defining identity and substitution come off its
/// inferred type; each captured free variable becomes its environment-read
/// expression, in slot order.
pub open spec fn s_lower_closure(cx: Cx, id: NodeId, span: Span, expr_ty: Ty) -> Result<
    ExprKind,
    Fatal,
> {
    match expr_ty {
        Ty::Closure(def_id, substs) => match s_capture_freevars(
            cx,
            id,
            span,
            cx.s_freevars(id),
            cx.s_upvar_types(def_id),
        ) {
            Ok(upvars) => Ok(ExprKind::Closure { closure_id: def_id, substs, upvars }),
            Err(f) => Err(f),
        },
        _ => Err(Fatal::Internal(span)),
    }
}

pub fn lower_closure(cx: &Cx, id: NodeId, span: Span, expr_ty: &Ty) -> (r: Result<ExprKind, Fatal>)
    ensures
        r == s_lower_closure(*cx, id, span, *expr_ty),
{
    match expr_ty {
        Ty::Closure(def_id, substs) => {
            let nil_fvs: List<Def> = List::Nil;
            let nil_tys: List<Ty> = List::Nil;
            let fvs: &List<Def> = match assoc(&cx.freevars, id) {
                Some(l) => l,
                None => &nil_fvs,
            };
            let tys: &List<Ty> = match assoc(&cx.upvar_types, *def_id) {
                Some(l) => l,
                None => &nil_tys,
            };
            match capture_freevars(cx, id, span, fvs, tys) {
                Ok(upvars) => Ok(
                    ExprKind::Closure { closure_id: *def_id, substs: *substs, upvars },
                ),
                Err(f) => Err(f),
            }
        }
        _ => Err(Fatal::Internal(span)),
    }
}

// ---------------------------------------------------------------------------
// The dispatcher and the driver
// ---------------------------------------------------------------------------

/// The per-kind dispatch, producing the unadjusted node's kind. Type
/// ascription never reaches this dispatch — the driver resolves it first —
/// so meeting one here is an internal error.
pub open spec fn s_dispatch_kind(
    cx: Cx,
    id: NodeId,
    span: Span,
    expr_ty: Ty,
    kind: SourceExprKind,
) -> Result<ExprKind, Fatal> {
    match kind {
        SourceExprKind::MethodCall(args) => s_overloaded_operator(cx, id, span, s_refs_of(*args)),
        SourceExprKind::Call(fun, args) => s_lower_call(cx, id, span, expr_ty, *fun, *args),
        SourceExprKind::Unary(op, arg) => match op {
            SrcUnOp::Deref => if cx.s_is_method_call(id) {
                s_overloaded_lvalue(
                    cx,
                    id,
                    span,
                    expr_ty,
                    None,
                    List::Cons(s_source_ref(*arg), Box::new(List::Nil)),
                )
            } else {
                Ok(ExprKind::Deref { arg: s_source_ref(*arg) })
            },
            SrcUnOp::Not => if cx.s_is_method_call(id) {
                s_overloaded_operator(
                    cx,
                    id,
                    span,
                    List::Cons(s_source_ref(*arg), Box::new(List::Nil)),
                )
            } else {
                Ok(ExprKind::Unary { op: UnOp::Not, arg: s_source_ref(*arg) })
            },
            SrcUnOp::Neg => if cx.s_is_method_call(id) {
                s_overloaded_operator(
                    cx,
                    id,
                    span,
                    List::Cons(s_source_ref(*arg), Box::new(List::Nil)),
                )
            } else if arg.kind is Lit {
                // Negation of a literal folds the sign into the literal; the
                // evaluated constant is recorded under the negation node.
                match cx.s_literal(id) {
                    Some(v) => Ok(ExprKind::Literal { literal: Literal::Value(v) }),
                    None => Err(Fatal::Internal(span)),
                }
            } else {
                Ok(ExprKind::Unary { op: UnOp::Neg, arg: s_source_ref(*arg) })
            },
        },
        SourceExprKind::Binary(op, lhs, rhs) => if cx.s_is_method_call(id) {
            s_overloaded_operator(
                cx,
                id,
                span,
                List::Cons(
                    s_source_ref(*lhs),
                    Box::new(List::Cons(s_source_ref(*rhs), Box::new(List::Nil))),
                ),
            )
        } else {
            match op {
                SrcBinOp::And => match cx.constness {
                    Constness::Const => Ok(
                        ExprKind::Binary {
                            op: BinOp::BitAnd,
                            lhs: s_source_ref(*lhs),
                            rhs: s_source_ref(*rhs),
                        },
                    ),
                    Constness::NotConst => Ok(
                        ExprKind::LogicalOp {
                            op: LogicalOp::And,
                            lhs: s_source_ref(*lhs),
                            rhs: s_source_ref(*rhs),
                        },
                    ),
                },
                SrcBinOp::Or => match cx.constness {
                    Constness::Const => Ok(
                        ExprKind::Binary {
                            op: BinOp::BitOr,
                            lhs: s_source_ref(*lhs),
                            rhs: s_source_ref(*rhs),
                        },
                    ),
                    Constness::NotConst => Ok(
                        ExprKind::LogicalOp {
                            op: LogicalOp::Or,
                            lhs: s_source_ref(*lhs),
                            rhs: s_source_ref(*rhs),
                        },
                    ),
                },
                _ => match s_bin_op(op, span) {
                    Ok(o) => Ok(
                        ExprKind::Binary {
                            op: o,
                            lhs: s_source_ref(*lhs),
                            rhs: s_source_ref(*rhs),
                        },
                    ),
                    Err(f) => Err(f),
                },
            }
        },
        SourceExprKind::AddrOf(m, sub) => match expr_ty {
            Ty::Ref(region, _, _) => Ok(
                ExprKind::Borrow {
                    region,
                    borrow_kind: s_to_borrow_kind(m),
                    arg: s_source_ref(*sub),
                },
            ),
            _ => Err(Fatal::Internal(span)),
        },
        SourceExprKind::Index(lhs, idx) => if cx.s_is_method_call(id) {
            s_overloaded_lvalue(
                cx,
                id,
                span,
                expr_ty,
                None,
                List::Cons(
                    s_source_ref(*lhs),
                    Box::new(List::Cons(s_source_ref(*idx), Box::new(List::Nil))),
                ),
            )
        } else {
            Ok(ExprKind::Index { lhs: s_source_ref(*lhs), index: s_source_ref(*idx) })
        },
        SourceExprKind::Assign(lhs, rhs) => Ok(
            ExprKind::Assign { lhs: s_source_ref(*lhs), rhs: s_source_ref(*rhs) },
        ),
        SourceExprKind::AssignOp(op, lhs, rhs) => if cx.s_is_method_call(id) {
            s_overloaded_operator(
                cx,
                id,
                span,
                List::Cons(
                    s_source_ref(*lhs),
                    Box::new(List::Cons(s_source_ref(*rhs), Box::new(List::Nil))),
                ),
            )
        } else {
            match s_bin_op(op, span) {
                Ok(o) => Ok(
                    ExprKind::AssignOp {
                        op: o,
                        lhs: s_source_ref(*lhs),
                        rhs: s_source_ref(*rhs),
                    },
                ),
                Err(f) => Err(f),
            }
        },
        SourceExprKind::Lit => match cx.s_literal(id) {
            Some(v) => Ok(ExprKind::Literal { literal: Literal::Value(v) }),
            None => Err(Fatal::Internal(span)),
        },
        SourceExprKind::Cast(src) => if cx.s_is_coercion_cast(src.id) {
            Ok(ExprKind::Use { source: s_source_ref(*src) })
        } else {
            Ok(ExprKind::Cast { source: s_source_ref(*src) })
        },
        SourceExprKind::Ascription(_) => Err(Fatal::Internal(span)),
        SourceExprKind::Struct(qp, fields, base) => s_lower_struct(
            cx,
            id,
            span,
            expr_ty,
            qp,
            fields,
            base,
        ),
        SourceExprKind::Closure => s_lower_closure(cx, id, span, expr_ty),
        SourceExprKind::Path(qp) => s_convert_path_expr(cx, id, span, s_qpath_def(cx, qp, id)),
        SourceExprKind::Field(src, name) => match s_adjusted_type_or(cx, src.id, src.span) {
            Err(f) => Err(f),
            Ok(Ty::Adt(aid, _)) => match cx.s_adt(aid) {
                None => Err(Fatal::Internal(span)),
                Some(adt) => match adt.variants {
                    List::Nil => Err(Fatal::Internal(span)),
                    List::Cons(v0, _) => match s_field_index(v0.fields, name) {
                        Some(i) => Ok(
                            ExprKind::Field { lhs: s_source_ref(*src), name: i as usize },
                        ),
                        None => Err(Fatal::Internal(span)),
                    },
                },
            },
            Ok(_) => Err(Fatal::Internal(span)),
        },
        SourceExprKind::TupField(src, i) => Ok(
            ExprKind::Field { lhs: s_source_ref(*src), name: i },
        ),
        SourceExprKind::Block(blk) => Ok(ExprKind::Block { body: blk.id }),
        SourceExprKind::If(c, t, o) => Ok(
            ExprKind::If {
                condition: s_source_ref(*c),
                then: s_source_ref(*t),
                otherwise: s_opt_ref_of(o),
            },
        ),
        SourceExprKind::While(c, blk) => match s_block_ref(cx, blk) {
            Ok(b) => Ok(ExprKind::Loop { condition: Some(s_source_ref(*c)), body: b }),
            Err(f) => Err(f),
        },
        SourceExprKind::Loop(blk) => match s_block_ref(cx, blk) {
            Ok(b) => Ok(ExprKind::Loop { condition: None, body: b }),
            Err(f) => Err(f),
        },
        SourceExprKind::Match(d, arms) => Ok(
            ExprKind::Match { discriminant: s_source_ref(*d), arms: s_convert_arms(arms) },
        ),
        SourceExprKind::Ret(v) => Ok(ExprKind::Return { value: s_opt_ref_of(v) }),
        SourceExprKind::Break(target, v) => match target {
            ScopeTarget::Block(t) => Ok(
                ExprKind::Break { label: CodeExtent::Misc(t), value: s_opt_ref_of(v) },
            ),
            ScopeTarget::LoopOk(t) => Ok(
                ExprKind::Break { label: CodeExtent::Misc(t), value: s_opt_ref_of(v) },
            ),
            ScopeTarget::LoopErr => Err(Fatal::Internal(span)),
        },
        SourceExprKind::Continue(target) => match target {
            ScopeTarget::Block(_) => Err(Fatal::Internal(span)),
            ScopeTarget::LoopOk(t) => Ok(ExprKind::Continue { label: CodeExtent::Misc(t) }),
            ScopeTarget::LoopErr => Err(Fatal::Internal(span)),
        },
        SourceExprKind::Repeat(v, body) => match cx.s_repeat_count(body) {
            Some(ConstEval::Count(n)) => Ok(
                ExprKind::Repeat { value: s_source_ref(*v), count: n },
            ),
            Some(ConstEval::NonCount) => Err(Fatal::Internal(span)),
            Some(ConstEval::Failed) => Err(Fatal::ConstEval(span)),
            None => Err(Fatal::Internal(span)),
        },
        SourceExprKind::Boxed(v) => Ok(
            ExprKind::Boxed {
                value_extents: CodeExtent::Misc(v.id),
                value: s_source_ref(*v),
            },
        ),
        SourceExprKind::Array(fields) => Ok(ExprKind::Array { fields: s_refs_of(*fields) }),
        SourceExprKind::Tuple(fields) => Ok(ExprKind::Tuple { fields: s_refs_of(*fields) }),
        SourceExprKind::InlineAsm(a, outs, ins) => Ok(
            ExprKind::InlineAsm {
                template: a,
                outputs: s_refs_of(*outs),
                inputs: s_refs_of(*ins),
            },
        ),
    }
}

pub fn dispatch_kind(
    cx: &Cx,
    id: NodeId,
    span: Span,
    expr_ty: &Ty,
    kind: SourceExprKind,
) -> (r: Result<ExprKind, Fatal>)
    requires
        cx.wf(),
        s_kind_wf(kind),
    ensures
        r == s_dispatch_kind(*cx, id, span, *expr_ty, kind),
{
    match kind {
        SourceExprKind::MethodCall(args) => overloaded_operator(cx, id, span, refs_of(*args)),
        SourceExprKind::Call(fun, args) => lower_call(cx, id, span, expr_ty, *fun, *args),
        SourceExprKind::Unary(op, arg) => match op {
            SrcUnOp::Deref => if contains(&cx.method_calls, id) {
                overloaded_lvalue(
                    cx,
                    id,
                    span,
                    copy_ty(expr_ty),
                    None,
                    List::Cons(source_ref(*arg), Box::new(List::Nil)),
                )
            } else {
                Ok(ExprKind::Deref { arg: source_ref(*arg) })
            },
            SrcUnOp::Not => if contains(&cx.method_calls, id) {
                overloaded_operator(
                    cx,
                    id,
                    span,
                    List::Cons(source_ref(*arg), Box::new(List::Nil)),
                )
            } else {
                Ok(ExprKind::Unary { op: UnOp::Not, arg: source_ref(*arg) })
            },
            SrcUnOp::Neg => if contains(&cx.method_calls, id) {
                overloaded_operator(
                    cx,
                    id,
                    span,
                    List::Cons(source_ref(*arg), Box::new(List::Nil)),
                )
            } else {
                match &arg.kind {
                    SourceExprKind::Lit => match assoc(&cx.literals, id) {
                        Some(v) => Ok(ExprKind::Literal { literal: Literal::Value(*v) }),
                        None => Err(Fatal::Internal(span)),
                    },
                    _ => Ok(ExprKind::Unary { op: UnOp::Neg, arg: source_ref(*arg) }),
                }
            },
        },
        SourceExprKind::Binary(op, lhs, rhs) => if contains(&cx.method_calls, id) {
            overloaded_operator(
                cx,
                id,
                span,
                List::Cons(
                    source_ref(*lhs),
                    Box::new(List::Cons(source_ref(*rhs), Box::new(List::Nil))),
                ),
            )
        } else {
            match op {
                SrcBinOp::And => match cx.constness {
                    Constness::Const => Ok(
                        ExprKind::Binary {
                            op: BinOp::BitAnd,
                            lhs: source_ref(*lhs),
                            rhs: source_ref(*rhs),
                        },
                    ),
                    Constness::NotConst => Ok(
                        ExprKind::LogicalOp {
                            op: LogicalOp::And,
                            lhs: source_ref(*lhs),
                            rhs: source_ref(*rhs),
                        },
                    ),
                },
                SrcBinOp::Or => match cx.constness {
                    Constness::Const => Ok(
                        ExprKind::Binary {
                            op: BinOp::BitOr,
                            lhs: source_ref(*lhs),
                            rhs: source_ref(*rhs),
                        },
                    ),
                    Constness::NotConst => Ok(
                        ExprKind::LogicalOp {
                            op: LogicalOp::Or,
                            lhs: source_ref(*lhs),
                            rhs: source_ref(*rhs),
                        },
                    ),
                },
                _ => match bin_op(op, span) {
                    Ok(o) => Ok(
                        ExprKind::Binary { op: o, lhs: source_ref(*lhs), rhs: source_ref(*rhs) },
                    ),
                    Err(f) => Err(f),
                },
            }
        },
        SourceExprKind::AddrOf(m, sub) => match expr_ty {
            Ty::Ref(region, _, _) => Ok(
                ExprKind::Borrow {
                    region: *region,
                    borrow_kind: to_borrow_kind(m),
                    arg: source_ref(*sub),
                },
            ),
            _ => Err(Fatal::Internal(span)),
        },
        SourceExprKind::Index(lhs, idx) => if contains(&cx.method_calls, id) {
            overloaded_lvalue(
                cx,
                id,
                span,
                copy_ty(expr_ty),
                None,
                List::Cons(
                    source_ref(*lhs),
                    Box::new(List::Cons(source_ref(*idx), Box::new(List::Nil))),
                ),
            )
        } else {
            Ok(ExprKind::Index { lhs: source_ref(*lhs), index: source_ref(*idx) })
        },
        SourceExprKind::Assign(lhs, rhs) => Ok(
            ExprKind::Assign { lhs: source_ref(*lhs), rhs: source_ref(*rhs) },
        ),
        SourceExprKind::AssignOp(op, lhs, rhs) => if contains(&cx.method_calls, id) {
            overloaded_operator(
                cx,
                id,
                span,
                List::Cons(
                    source_ref(*lhs),
                    Box::new(List::Cons(source_ref(*rhs), Box::new(List::Nil))),
                ),
            )
        } else {
            match bin_op(op, span) {
                Ok(o) => Ok(
                    ExprKind::AssignOp { op: o, lhs: source_ref(*lhs), rhs: source_ref(*rhs) },
                ),
                Err(f) => Err(f),
            }
        },
        SourceExprKind::Lit => match assoc(&cx.literals, id) {
            Some(v) => Ok(ExprKind::Literal { literal: Literal::Value(*v) }),
            None => Err(Fatal::Internal(span)),
        },
        SourceExprKind::Cast(src) => if contains(&cx.coercion_casts, src.id) {
            Ok(ExprKind::Use { source: source_ref(*src) })
        } else {
            Ok(ExprKind::Cast { source: source_ref(*src) })
        },
        SourceExprKind::Ascription(_) => Err(Fatal::Internal(span)),
        SourceExprKind::Struct(qp, fields, base) => lower_struct(
            cx,
            id,
            span,
            expr_ty,
            qp,
            fields,
            base,
        ),
        SourceExprKind::Closure => lower_closure(cx, id, span, expr_ty),
        SourceExprKind::Path(qp) => convert_path_expr(cx, id, span, qpath_def(cx, qp, id)),
        SourceExprKind::Field(src, name) => match adjusted_type_or(cx, src.id, src.span) {
            Err(f) => Err(f),
            Ok(src_ty) => match src_ty {
                Ty::Adt(aid, _) => match assoc(&cx.adts, aid) {
                    None => Err(Fatal::Internal(span)),
                    Some(adt) => {
                        proof {
                            lemma_adts_wf_lookup(cx.adts, aid);
                        }
                        match &adt.variants {
                            List::Nil => Err(Fatal::Internal(span)),
                            List::Cons(v0, _) => match field_index(&v0.fields, name) {
                                Some(i) => Ok(
                                    ExprKind::Field { lhs: source_ref(*src), name: i },
                                ),
                                None => Err(Fatal::Internal(span)),
                            },
                        }
                    }
                },
                _ => Err(Fatal::Internal(span)),
            },
        },
        SourceExprKind::TupField(src, i) => Ok(
            ExprKind::Field { lhs: source_ref(*src), name: i },
        ),
        SourceExprKind::Block(blk) => Ok(ExprKind::Block { body: blk.id }),
        SourceExprKind::If(c, t, o) => Ok(
            ExprKind::If {
                condition: source_ref(*c),
                then: source_ref(*t),
                otherwise: opt_ref_of(o),
            },
        ),
        SourceExprKind::While(c, blk) => match block_ref(cx, blk) {
            Ok(b) => Ok(ExprKind::Loop { condition: Some(source_ref(*c)), body: b }),
            Err(f) => Err(f),
        },
        SourceExprKind::Loop(blk) => match block_ref(cx, blk) {
            Ok(b) => Ok(ExprKind::Loop { condition: None, body: b }),
            Err(f) => Err(f),
        },
        SourceExprKind::Match(d, arms) => Ok(
            ExprKind::Match { discriminant: source_ref(*d), arms: convert_arms(arms) },
        ),
        SourceExprKind::Ret(v) => Ok(ExprKind::Return { value: opt_ref_of(v) }),
        SourceExprKind::Break(target, v) => match target {
            ScopeTarget::Block(t) => Ok(
                ExprKind::Break { label: CodeExtent::Misc(t), value: opt_ref_of(v) },
            ),
            ScopeTarget::LoopOk(t) => Ok(
                ExprKind::Break { label: CodeExtent::Misc(t), value: opt_ref_of(v) },
            ),
            ScopeTarget::LoopErr => Err(Fatal::Internal(span)),
        },
        SourceExprKind::Continue(target) => match target {
            ScopeTarget::Block(_) => Err(Fatal::Internal(span)),
            ScopeTarget::LoopOk(t) => Ok(ExprKind::Continue { label: CodeExtent::Misc(t) }),
            ScopeTarget::LoopErr => Err(Fatal::Internal(span)),
        },
        SourceExprKind::Repeat(v, body) => match assoc(&cx.repeat_counts, body) {
            Some(c) => match c {
                ConstEval::Count(n) => Ok(ExprKind::Repeat { value: source_ref(*v), count: *n }),
                ConstEval::NonCount => Err(Fatal::Internal(span)),
                ConstEval::Failed => Err(Fatal::ConstEval(span)),
            },
            None => Err(Fatal::Internal(span)),
        },
        SourceExprKind::Boxed(v) => {
            let vid = v.id;
            Ok(ExprKind::Boxed { value_extents: CodeExtent::Misc(vid), value: source_ref(*v) })
        }
        SourceExprKind::Array(fields) => Ok(ExprKind::Array { fields: refs_of(*fields) }),
        SourceExprKind::Tuple(fields) => Ok(ExprKind::Tuple { fields: refs_of(*fields) }),
        SourceExprKind::InlineAsm(a, outs, ins) => Ok(
            ExprKind::InlineAsm { template: a, outputs: refs_of(*outs), inputs: refs_of(*ins) },
        ),
    }
}

/// The unadjusted lowering of one node: the per-kind dispatch, typed with
/// the node's inferred type and scoped with its temporary extent. A type
/// ascription is transparent: it lowers to exactly its inner expression's
/// full lowering.
pub open spec fn s_make_mirror_unadjusted(
    cx: Cx,
    id: NodeId,
    span: Span,
    kind: SourceExprKind,
) -> Result<Expr, Fatal>
    decreases kind,
{
    match kind {
        SourceExprKind::Ascription(inner) => s_make_mirror(cx, *inner),
        _ => match cx.s_node_type(id) {
            None => Err(Fatal::Internal(span)),
            Some(expr_ty) => match s_dispatch_kind(cx, id, span, expr_ty, kind) {
                Err(f) => Err(f),
                Ok(k) => Ok(
                    Expr { temp_lifetime: cx.s_temp_scope(id), ty: expr_ty, span, kind: k },
                ),
            },
        },
    }
}

pub fn make_mirror_unadjusted(cx: &Cx, id: NodeId, span: Span, kind: SourceExprKind) -> (r: Result<
    Expr,
    Fatal,
>)
    requires
        cx.wf(),
        s_kind_wf(kind),
    ensures
        r == s_make_mirror_unadjusted(*cx, id, span, kind),
    decreases kind,
{
    match kind {
        SourceExprKind::Ascription(inner) => make_mirror(cx, *inner),
        k => match node_type_or(cx, id, span) {
            Err(f) => Err(f),
            Ok(expr_ty) => match dispatch_kind(cx, id, span, &expr_ty, k) {
                Err(f) => Err(f),
                Ok(k2) => Ok(
                    Expr { temp_lifetime: temp_scope(cx, id), ty: expr_ty, span, kind: k2 },
                ),
            },
        },
    }
}

/// The top-level driver: dispatch, then the node's adjustments in table
/// order, then the node's own lexical scope, then — when the region table
/// declares one — a destructor scope.
pub open spec fn s_make_mirror(cx: Cx, e: SourceExpr) -> Result<Expr, Fatal>
    decreases e,
{
    match e.kind {
        SourceExprKind::Ascription(inner) => s_make_mirror(cx, *inner),
        _ => match s_make_mirror_unadjusted(cx, e.id, e.span, e.kind) {
            Err(f) => Err(f),
            Ok(un) => match s_apply_adjustments(cx, e.id, un, cx.s_adjustments(e.id)) {
                Err(f) => Err(f),
                Ok(adjusted) => {
                    let temp = cx.s_temp_scope(e.id);
                    let scoped = Expr {
                        temp_lifetime: temp,
                        ty: adjusted.ty,
                        span: e.span,
                        kind: ExprKind::Scope {
                            extent: CodeExtent::Misc(e.id),
                            value: s_lowered_ref(adjusted),
                        },
                    };
                    match cx.s_destruction_extent(e.id) {
                        None => Ok(scoped),
                        Some(ext) => Ok(
                            Expr {
                                temp_lifetime: temp,
                                ty: scoped.ty,
                                span: e.span,
                                kind: ExprKind::Scope { extent: ext, value: s_lowered_ref(scoped) },
                            },
                        ),
                    }
                },
            },
        },
    }
}

pub fn make_mirror(cx: &Cx, e: SourceExpr) -> (r: Result<Expr, Fatal>)
    requires
        cx.wf(),
        s_source_wf(e),
    ensures
        r == s_make_mirror(*cx, e),
    decreases e,
{
    let id = e.id;
    let span = e.span;
    match e.kind {
        SourceExprKind::Ascription(inner) => make_mirror(cx, *inner),
        k => {
            let un = match make_mirror_unadjusted(cx, id, span, k) {
                Ok(u) => u,
                Err(f) => {
                    return Err(f);
                }
            };
            let adjusted = match assoc(&cx.adjustments, id) {
                Some(adjs) => match apply_adjustments(cx, id, un, adjs) {
                    Ok(a) => a,
                    Err(f) => {
                        return Err(f);
                    }
                },
                None => un,
            };
            let temp = temp_scope(cx, id);
            let adjusted_ty = copy_ty(&adjusted.ty);
            let scoped = Expr {
                temp_lifetime: temp,
                ty: adjusted_ty,
                span,
                kind: ExprKind::Scope {
                    extent: CodeExtent::Misc(id),
                    value: lowered_ref(adjusted),
                },
            };
            match assoc(&cx.destruction_extents, id) {
                None => Ok(scoped),
                Some(ext) => {
                    let ext = *ext;
                    let scoped_ty = copy_ty(&scoped.ty);
                    Ok(
                        Expr {
                            temp_lifetime: temp,
                            ty: scoped_ty,
                            span,
                            kind: ExprKind::Scope { extent: ext, value: lowered_ref(scoped) },
                        },
                    )
                }
            }
        }
    }
}

} // verus!
