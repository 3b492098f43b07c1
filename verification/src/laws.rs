//! The guarantees the pass gives its consumer, stated over the
//! specification functions of [`crate::lower`] and proved once and for all:
//! type propagation through adjustments, the scope-wrapping discipline, the
//! shape of overloaded lvalue desugarings, aggregate field completeness, and
//! the transparency of type ascription.

use vstd::prelude::*;

use crate::ast::{SourceExpr, SourceExprKind, SourceField, SrcUnOp, QPath};
use crate::cx::{Adjust, Adjustment, Cx};
use crate::ir::{Expr, ExprKind, ExprRef, Fatal};
use crate::list::{s_last, List};
use crate::ty::{CodeExtent, DefId, NodeId, Span, SubstsId, Ty, VariantDef};
use crate::lower::{
    s_apply_adjustment, s_apply_adjustments, s_convert_path_expr, s_convert_var, s_dispatch_kind,
    s_field_refs, s_lower_call, s_lower_closure, s_lower_struct, s_make_mirror,
    s_make_mirror_unadjusted, s_overloaded_lvalue, s_overloaded_operator, s_unit_adt,
};

verus! {

// ---------------------------------------------------------------------------
// Type propagation
// ---------------------------------------------------------------------------

/// One adjustment step always leaves the step's declared target type on the
/// node, whatever the step built.
pub proof fn lemma_adjustment_step_type(cx: Cx, id: NodeId, e: Expr, a: Adjustment)
    ensures
        s_apply_adjustment(cx, id, e, a) matches Ok(e2) ==> e2.ty == a.target,
{
}

/// The type an adjustment list leaves behind: the last step's target, or
/// the given type when the list is empty.
pub open spec fn s_final_type(dflt: Ty, adjs: List<Adjustment>) -> Ty {
    match s_last(adjs) {
        Some(step) => step.target,
        None => dflt,
    }
}

/// A whole adjustment list leaves the last step's target type, or the
/// node's own type when the list is empty.
pub proof fn lemma_adjustments_type(cx: Cx, id: NodeId, e: Expr, adjs: List<Adjustment>)
    ensures
        s_apply_adjustments(cx, id, e, adjs) matches Ok(a) ==> a.ty == s_final_type(e.ty, adjs),
    decreases adjs,
{
    match adjs {
        List::Nil => {
            assert(s_apply_adjustments(cx, id, e, adjs) == Ok::<Expr, Fatal>(e));
        }
        List::Cons(step, t) => {
            lemma_adjustment_step_type(cx, id, e, step);
            match s_apply_adjustment(cx, id, e, step) {
                Ok(e2) => {
                    assert(e2.ty == step.target);
                    assert(s_apply_adjustments(cx, id, e, adjs) == s_apply_adjustments(
                        cx,
                        id,
                        e2,
                        *t,
                    ));
                    lemma_adjustments_type(cx, id, e2, *t);
                    if *t is Nil {
                        assert(s_last(adjs) == Some(step));
                        assert(s_apply_adjustments(cx, id, e2, *t) == Ok::<Expr, Fatal>(e2));
                    } else {
                        assert(s_last(adjs) == s_last(*t));
                        crate::list::lemma_last_some(*t);
                    }
                }
                Err(_) => {
                    assert(s_apply_adjustments(cx, id, e, adjs) is Err);
                }
            }
        }
    }
}

/// Type propagation: a lowered node's type is the last adjustment step's
/// target, or the inferred type when no adjustment is attached — that is,
/// exactly the node's adjusted type.
pub proof fn lemma_type_propagation(cx: Cx, e: SourceExpr)
    requires
        !(e.kind is Ascription),
    ensures
        s_make_mirror(cx, e) matches Ok(r) ==> cx.s_adjusted_type(e.id) == Some(r.ty),
{
    match s_make_mirror_unadjusted(cx, e.id, e.span, e.kind) {
        Ok(un) => {
            lemma_adjustments_type(cx, e.id, un, cx.s_adjustments(e.id));
        }
        Err(_) => {}
    }
}

// ---------------------------------------------------------------------------
// Scope wrapping
// ---------------------------------------------------------------------------

/// An overloaded operator lowers to a call.
pub proof fn lemma_overloaded_operator_shape(cx: Cx, id: NodeId, span: Span, args: List<ExprRef>)
    ensures
        s_overloaded_operator(cx, id, span, args) matches Ok(k) ==> k is Call,
{
}

/// An overloaded lvalue operation lowers to `Deref(Call(...))`, the call
/// typed as a reference whose pointee is the operation's own result type.
pub proof fn lemma_overloaded_lvalue_shape(
    cx: Cx,
    id: NodeId,
    span: Span,
    lvalue_ty: Ty,
    custom: Option<(DefId, SubstsId)>,
    args: List<ExprRef>,
)
    ensures
        s_overloaded_lvalue(cx, id, span, lvalue_ty, custom, args) matches Ok(k) ==> {
            &&& k matches ExprKind::Deref { arg: ExprRef::Lowered(c) }
            &&& (*c).kind is Call
            &&& (*c).ty matches Ty::Ref(_, _, pointee) && *pointee == lvalue_ty
        },
{
}

pub proof fn lemma_convert_var_no_scope(cx: Cx, id: NodeId, span: Span, def: crate::ast::Def)
    ensures
        s_convert_var(cx, id, span, def) matches Ok(k) ==> !(k is Scope),
{
}

pub proof fn lemma_unit_adt_shape(cx: Cx, id: NodeId, span: Span, ctor: DefId)
    ensures
        s_unit_adt(cx, id, span, ctor) matches Ok(k) ==> k is Adt,
{
}

pub proof fn lemma_convert_path_expr_no_scope(cx: Cx, id: NodeId, span: Span, def: crate::ast::Def)
    ensures
        s_convert_path_expr(cx, id, span, def) matches Ok(k) ==> !(k is Scope),
{
    lemma_convert_var_no_scope(cx, id, span, def);
    match def {
        crate::ast::Def::StructCtor(d, _) => {
            lemma_unit_adt_shape(cx, id, span, d);
        }
        crate::ast::Def::VariantCtor(d, _) => {
            lemma_unit_adt_shape(cx, id, span, d);
        }
        _ => {}
    }
}

pub proof fn lemma_lower_call_no_scope(
    cx: Cx,
    id: NodeId,
    span: Span,
    expr_ty: Ty,
    fun: SourceExpr,
    args: List<SourceExpr>,
)
    ensures
        s_lower_call(cx, id, span, expr_ty, fun, args) matches Ok(k) ==> !(k is Scope),
{
}

pub proof fn lemma_lower_struct_shape(
    cx: Cx,
    id: NodeId,
    span: Span,
    expr_ty: Ty,
    qpath: QPath,
    fields: List<SourceField>,
    base: Option<Box<SourceExpr>>,
)
    ensures
        s_lower_struct(cx, id, span, expr_ty, qpath, fields, base) matches Ok(k) ==> k is Adt,
{
}

pub proof fn lemma_lower_closure_shape(cx: Cx, id: NodeId, span: Span, expr_ty: Ty)
    ensures
        s_lower_closure(cx, id, span, expr_ty) matches Ok(k) ==> k is Closure,
{
}

/// The per-kind dispatch never produces a scope wrapper: scopes come from
/// the driver alone.
pub proof fn lemma_dispatch_no_scope(
    cx: Cx,
    id: NodeId,
    span: Span,
    expr_ty: Ty,
    kind: SourceExprKind,
)
    ensures
        s_dispatch_kind(cx, id, span, expr_ty, kind) matches Ok(k) ==> !(k is Scope),
{
    match kind {
        SourceExprKind::MethodCall(args) => {
            lemma_overloaded_operator_shape(cx, id, span, crate::lower::s_refs_of(*args));
        }
        SourceExprKind::Call(fun, args) => {
            lemma_lower_call_no_scope(cx, id, span, expr_ty, *fun, *args);
        }
        SourceExprKind::Unary(op, arg) => {
            let args1 = List::Cons(crate::lower::s_source_ref(*arg), Box::new(List::<ExprRef>::Nil));
            lemma_overloaded_lvalue_shape(cx, id, span, expr_ty, None, args1);
            lemma_overloaded_operator_shape(cx, id, span, args1);
        }
        SourceExprKind::Binary(_, lhs, rhs) => {
            lemma_overloaded_operator_shape(
                cx,
                id,
                span,
                List::Cons(
                    crate::lower::s_source_ref(*lhs),
                    Box::new(
                        List::Cons(crate::lower::s_source_ref(*rhs), Box::new(List::Nil)),
                    ),
                ),
            );
        }
        SourceExprKind::Index(lhs, idx) => {
            lemma_overloaded_lvalue_shape(
                cx,
                id,
                span,
                expr_ty,
                None,
                List::Cons(
                    crate::lower::s_source_ref(*lhs),
                    Box::new(
                        List::Cons(crate::lower::s_source_ref(*idx), Box::new(List::Nil)),
                    ),
                ),
            );
        }
        SourceExprKind::AssignOp(_, lhs, rhs) => {
            lemma_overloaded_operator_shape(
                cx,
                id,
                span,
                List::Cons(
                    crate::lower::s_source_ref(*lhs),
                    Box::new(
                        List::Cons(crate::lower::s_source_ref(*rhs), Box::new(List::Nil)),
                    ),
                ),
            );
        }
        SourceExprKind::Struct(qp, fields, base) => {
            lemma_lower_struct_shape(cx, id, span, expr_ty, qp, fields, base);
        }
        SourceExprKind::Closure => {
            lemma_lower_closure_shape(cx, id, span, expr_ty);
        }
        SourceExprKind::Path(qp) => {
            lemma_convert_path_expr_no_scope(
                cx,
                id,
                span,
                crate::lower::s_qpath_def(cx, qp, id),
            );
        }
        _ => {}
    }
}

/// No adjustment step produces a scope wrapper either.
pub proof fn lemma_adjustment_step_no_scope(cx: Cx, id: NodeId, e: Expr, a: Adjustment)
    ensures
        s_apply_adjustment(cx, id, e, a) matches Ok(e2) ==> !(e2.kind is Scope),
{
    match a.kind {
        Adjust::OverloadedDeref { region, mutbl, method, substs } => {
            let borrow = Expr {
                temp_lifetime: e.temp_lifetime,
                ty: Ty::Ref(region, mutbl, Box::new(e.ty)),
                span: e.span,
                kind: ExprKind::Borrow {
                    region,
                    borrow_kind: crate::lower::s_to_borrow_kind(mutbl),
                    arg: crate::lower::s_lowered_ref(e),
                },
            };
            lemma_overloaded_lvalue_shape(
                cx,
                id,
                e.span,
                a.target,
                Some((method, substs)),
                List::Cons(crate::lower::s_lowered_ref(borrow), Box::new(List::Nil)),
            );
        }
        _ => {}
    }
}

/// Applying a whole adjustment list either leaves the node untouched or
/// leaves a non-scope node on top.
pub proof fn lemma_adjustments_no_scope(cx: Cx, id: NodeId, e: Expr, adjs: List<Adjustment>)
    ensures
        s_apply_adjustments(cx, id, e, adjs) matches Ok(a) ==> a == e || !(a.kind is Scope),
    decreases adjs,
{
    match adjs {
        List::Nil => {}
        List::Cons(step, t) => {
            lemma_adjustment_step_no_scope(cx, id, e, step);
            match s_apply_adjustment(cx, id, e, step) {
                Ok(e2) => {
                    lemma_adjustments_no_scope(cx, id, e2, *t);
                }
                Err(_) => {}
            }
        }
    }
}

/// Exactly one lexical-scope wrapper, tagged with the node's own extent,
/// directly around a non-scope core.
pub open spec fn is_single_lexical_wrap(id: NodeId, r: Expr) -> bool {
    r.kind matches ExprKind::Scope { extent, value: ExprRef::Lowered(core) } && extent
        == CodeExtent::Misc(id) && !((*core).kind is Scope)
}

/// The full wrapping discipline for one lowered node: a destructor scope
/// outermost exactly when the region table declares one, then the lexical
/// scope, then the adjusted core.
pub open spec fn is_scope_wrapped(cx: Cx, id: NodeId, r: Expr) -> bool {
    match cx.s_destruction_extent(id) {
        None => is_single_lexical_wrap(id, r),
        Some(ext) => r.kind matches ExprKind::Scope { extent, value: ExprRef::Lowered(inner) }
            && extent == ext && is_single_lexical_wrap(id, *inner),
    }
}

/// Scope wrapping determinism: every lowered node is wrapped in exactly one
/// lexical-scope node, and in a destructor-scope node if and only if the
/// region table declares one, in the fixed order unadjusted, adjusted,
/// lexical scope, destructor scope.
pub proof fn lemma_scope_wrapping(cx: Cx, e: SourceExpr)
    requires
        !(e.kind is Ascription),
    ensures
        s_make_mirror(cx, e) matches Ok(r) ==> is_scope_wrapped(cx, e.id, r),
{
    match s_make_mirror_unadjusted(cx, e.id, e.span, e.kind) {
        Ok(un) => {
            match cx.s_node_type(e.id) {
                Some(expr_ty) => {
                    lemma_dispatch_no_scope(cx, e.id, e.span, expr_ty, e.kind);
                }
                None => {}
            }
            lemma_adjustments_no_scope(cx, e.id, un, cx.s_adjustments(e.id));
        }
        Err(_) => {}
    }
}

/// The node an ascription chain bottoms out at: the node whose lowering,
/// adjustments and scopes the result carries.
pub open spec fn s_ascription_core(e: SourceExpr) -> SourceExpr
    decreases e,
{
    match e.kind {
        SourceExprKind::Ascription(inner) => s_ascription_core(*inner),
        _ => e,
    }
}

/// Scope wrapping for every node: the wrapping discipline holds of the
/// node itself, or — through transparent ascription wrappers — of the node
/// the chain bottoms out at.
pub proof fn lemma_scope_wrapping_all(cx: Cx, e: SourceExpr)
    ensures
        s_make_mirror(cx, e) matches Ok(r) ==> is_scope_wrapped(cx, s_ascription_core(e).id, r),
    decreases e,
{
    match e.kind {
        SourceExprKind::Ascription(inner) => {
            lemma_scope_wrapping_all(cx, *inner);
        }
        _ => {
            lemma_scope_wrapping(cx, e);
        }
    }
}

/// Type propagation for every node, through ascription chains.
pub proof fn lemma_type_propagation_all(cx: Cx, e: SourceExpr)
    ensures
        s_make_mirror(cx, e) matches Ok(r) ==> cx.s_adjusted_type(s_ascription_core(e).id)
            == Some(r.ty),
    decreases e,
{
    match e.kind {
        SourceExprKind::Ascription(inner) => {
            lemma_type_propagation_all(cx, *inner);
        }
        _ => {
            lemma_type_propagation(cx, e);
        }
    }
}

// ---------------------------------------------------------------------------
// Overloaded lvalues
// ---------------------------------------------------------------------------

/// Overloaded-lvalue shape: an operator-resolved index or dereference
/// lowers, before adjustment, to `Deref(Call(...))`, the call typed as a
/// reference whose pointee is the expression's own inferred type.
pub proof fn lemma_overloaded_lvalue_form(cx: Cx, e: SourceExpr)
    requires
        cx.s_is_method_call(e.id),
        (e.kind matches SourceExprKind::Index(_, _)) || (e.kind matches SourceExprKind::Unary(
            SrcUnOp::Deref,
            _,
        )),
    ensures
        s_make_mirror_unadjusted(cx, e.id, e.span, e.kind) matches Ok(un) ==> {
            &&& un.kind matches ExprKind::Deref { arg: ExprRef::Lowered(c) }
            &&& (*c).kind is Call
            &&& (*c).ty matches Ty::Ref(_, _, pointee) && cx.s_node_type(e.id) == Some(*pointee)
        },
{
    match cx.s_node_type(e.id) {
        Some(expr_ty) => {
            match e.kind {
                SourceExprKind::Index(lhs, idx) => {
                    lemma_overloaded_lvalue_shape(
                        cx,
                        e.id,
                        e.span,
                        expr_ty,
                        None,
                        List::Cons(
                            crate::lower::s_source_ref(*lhs),
                            Box::new(
                                List::Cons(
                                    crate::lower::s_source_ref(*idx),
                                    Box::new(List::Nil),
                                ),
                            ),
                        ),
                    );
                }
                SourceExprKind::Unary(_, arg) => {
                    lemma_overloaded_lvalue_shape(
                        cx,
                        e.id,
                        e.span,
                        expr_ty,
                        None,
                        List::Cons(crate::lower::s_source_ref(*arg), Box::new(List::Nil)),
                    );
                }
                _ => {}
            }
        }
        None => {}
    }
}

// ---------------------------------------------------------------------------
// Aggregate field completeness
// ---------------------------------------------------------------------------

/// Field-name resolution keeps the listed fields one for one.
pub proof fn lemma_field_refs_len(variant: VariantDef, fields: List<SourceField>, span: Span)
    ensures
        s_field_refs(variant, fields, span) matches Ok(frefs) ==> frefs.len() == fields.len(),
    decreases fields,
{
    match fields {
        List::Nil => {}
        List::Cons(_, t) => {
            lemma_field_refs_len(variant, *t, span);
        }
    }
}

/// Aggregate field completeness: when the type checker hands over a
/// construction whose listed fields — together with the fields a
/// record-update base supplies — are exactly the variant's declared count,
/// the lowered node preserves that count: with a base, lowered fields plus
/// the base's field-type map cover it; without one, the lowered fields
/// alone do.
pub proof fn lemma_aggregate_field_completeness(
    cx: Cx,
    id: NodeId,
    span: Span,
    expr_ty: Ty,
    qpath: QPath,
    fields: List<SourceField>,
    base: Option<Box<SourceExpr>>,
    declared: nat,
)
    requires
        match base {
            None => fields.len() == declared,
            Some(_) => fields.len() + (match cx.s_fru_field_types(id) {
                Some(l) => l.len(),
                None => 0,
            }) == declared,
        },
    ensures
        s_lower_struct(cx, id, span, expr_ty, qpath, fields, base) matches Ok(k) ==> {
            &&& k matches ExprKind::Adt { fields: frefs, base: b, .. }
            &&& match b {
                None => frefs.len() == declared,
                Some(fru) => frefs.len() + fru.field_types.len() == declared,
            }
        },
{
    match expr_ty {
        Ty::Adt(aid, _) => match cx.s_adt(aid) {
            Some(adt) => {
                match adt.kind {
                    crate::ty::AdtKind::Enum => {
                        match crate::ty::s_variant_index(
                            adt.variants,
                            match qpath {
                                QPath::Resolved(crate::ast::Def::Variant(v)) => v,
                                _ => 0,
                            },
                        ) {
                            Some(i) => match crate::list::s_nth(adt.variants, i) {
                                Some(v) => {
                                    lemma_field_refs_len(v, fields, span);
                                }
                                None => {}
                            },
                            None => {}
                        }
                    }
                    _ => {
                        match adt.variants {
                            List::Cons(v0, _) => {
                                lemma_field_refs_len(v0, fields, span);
                            }
                            List::Nil => {}
                        }
                    }
                }
            }
            None => {}
        },
        _ => {}
    }
}

// ---------------------------------------------------------------------------
// Type ascription
// ---------------------------------------------------------------------------

/// Idempotence of pass-through forms: lowering a type-ascription wrapper is
/// lowering its inner expression, with no wrapper and no other difference.
pub proof fn lemma_ascription_transparent(cx: Cx, e: SourceExpr)
    ensures
        e.kind matches SourceExprKind::Ascription(inner) ==> s_make_mirror(cx, e)
            == s_make_mirror(cx, *inner),
{
}

} // verus!
