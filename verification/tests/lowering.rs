//! Scenario tests for the lowering pass: one concrete source tree and side
//! table set per rule, checked against the exact IR the contracts promise.

use desugar::ast::{
    CtorKind, Def, QPath, ScopeTarget, SourceArm, SourceBlock, SourceExpr, SourceExprKind,
    SourceField, SrcBinOp, SrcUnOp,
};
use desugar::cx::{
    Adjust, Adjustment, CaptureKind, CaptureMode, ClosureKind, ConstEval, Constness, Cx,
};
use desugar::ir::{
    Arm, BinOp, BorrowKind, ConstVal, Expr, ExprKind, ExprRef, Fatal, FieldExprRef, Literal,
    LogicalOp, Pattern, UnOp,
};
use desugar::list::List;
use desugar::lower::make_mirror;
use desugar::ty::{AdtDef, AdtKind, CodeExtent, Mutability, Region, Ty, VariantDef};

fn lst<T>(v: Vec<T>) -> List<T> {
    let mut out = List::Nil;
    for x in v.into_iter().rev() {
        out = List::Cons(x, Box::new(out));
    }
    out
}

fn node(id: u64, kind: SourceExprKind) -> SourceExpr {
    SourceExpr { id, span: id * 10, kind }
}

fn lit(id: u64) -> SourceExpr {
    node(id, SourceExprKind::Lit)
}

fn src(e: SourceExpr) -> ExprRef {
    ExprRef::Source(Box::new(e))
}

fn empty_cx() -> Cx {
    Cx {
        constness: Constness::NotConst,
        node_types: List::Nil,
        adjustments: List::Nil,
        method_calls: List::Nil,
        method_defs: List::Nil,
        node_substs: List::Nil,
        temp_scopes: List::Nil,
        destruction_extents: List::Nil,
        fru_field_types: List::Nil,
        coercion_casts: List::Nil,
        adts: List::Nil,
        closure_kinds: List::Nil,
        upvar_captures: List::Nil,
        freevars: List::Nil,
        upvar_types: List::Nil,
        literals: List::Nil,
        repeat_counts: List::Nil,
        local_nodes: List::Nil,
        node_defs: List::Nil,
    }
}

/// Strips the expected lexical-scope wrapper and returns the core.
fn unwrap_scope(r: Expr, expected: CodeExtent) -> Expr {
    match r.kind {
        ExprKind::Scope { extent, value } => {
            assert!(extent == expected);
            match value {
                ExprRef::Lowered(inner) => *inner,
                ExprRef::Source(_) => panic!("a scope must wrap an already lowered node"),
            }
        }
        _ => panic!("expected a scope wrapper"),
    }
}

fn lower_ok(cx: &Cx, e: SourceExpr) -> Expr {
    match make_mirror(cx, e) {
        Ok(r) => r,
        Err(_) => panic!("lowering was expected to succeed"),
    }
}

#[test]
fn primitive_add_is_binary_op() {
    let mut cx = empty_cx();
    cx.node_types = lst(vec![(1, Ty::Opaque(100))]);
    let e = node(
        1,
        SourceExprKind::Binary(SrcBinOp::Add, Box::new(lit(2)), Box::new(lit(3))),
    );
    let r = lower_ok(&cx, e);
    assert!(r.ty == Ty::Opaque(100));
    let core = unwrap_scope(r, CodeExtent::Misc(1));
    assert!(core.ty == Ty::Opaque(100));
    assert!(core.temp_lifetime == None);
    assert!(
        core.kind
            == ExprKind::Binary { op: BinOp::Add, lhs: src(lit(2)), rhs: src(lit(3)) }
    );
}

#[test]
fn logical_ops_short_circuit_outside_const_context() {
    let mut cx = empty_cx();
    cx.node_types = lst(vec![(1, Ty::Opaque(1))]);
    let e = node(
        1,
        SourceExprKind::Binary(SrcBinOp::And, Box::new(lit(2)), Box::new(lit(3))),
    );
    let core = unwrap_scope(lower_ok(&cx, e), CodeExtent::Misc(1));
    assert!(
        core.kind
            == ExprKind::LogicalOp { op: LogicalOp::And, lhs: src(lit(2)), rhs: src(lit(3)) }
    );
    let e_or = node(
        1,
        SourceExprKind::Binary(SrcBinOp::Or, Box::new(lit(2)), Box::new(lit(3))),
    );
    let core_or = unwrap_scope(lower_ok(&cx, e_or), CodeExtent::Misc(1));
    assert!(
        core_or.kind
            == ExprKind::LogicalOp { op: LogicalOp::Or, lhs: src(lit(2)), rhs: src(lit(3)) }
    );
}

#[test]
fn logical_ops_become_bitwise_in_const_context() {
    let mut cx = empty_cx();
    cx.constness = Constness::Const;
    cx.node_types = lst(vec![(1, Ty::Opaque(1))]);
    let e = node(
        1,
        SourceExprKind::Binary(SrcBinOp::And, Box::new(lit(2)), Box::new(lit(3))),
    );
    let core = unwrap_scope(lower_ok(&cx, e), CodeExtent::Misc(1));
    assert!(
        core.kind
            == ExprKind::Binary { op: BinOp::BitAnd, lhs: src(lit(2)), rhs: src(lit(3)) }
    );
    let e_or = node(
        1,
        SourceExprKind::Binary(SrcBinOp::Or, Box::new(lit(2)), Box::new(lit(3))),
    );
    let core_or = unwrap_scope(lower_ok(&cx, e_or), CodeExtent::Misc(1));
    assert!(
        core_or.kind
            == ExprKind::Binary { op: BinOp::BitOr, lhs: src(lit(2)), rhs: src(lit(3)) }
    );
}

#[test]
fn tuple_ctor_call_builds_aggregate() {
    let mut cx = empty_cx();
    cx.node_types = lst(vec![(4, Ty::Adt(9, 0))]);
    cx.node_substs = lst(vec![(5, 33)]);
    let fun = node(5, SourceExprKind::Path(QPath::Resolved(Def::StructCtor(77, CtorKind::Fn))));
    let e = node(
        4,
        SourceExprKind::Call(Box::new(fun), Box::new(lst(vec![lit(6), lit(7)]))),
    );
    let core = unwrap_scope(lower_ok(&cx, e), CodeExtent::Misc(4));
    assert!(
        core.kind
            == ExprKind::Adt {
                adt: 9,
                variant_index: 0,
                substs: 33,
                fields: lst(vec![
                    FieldExprRef { name: 0, expr: src(lit(6)) },
                    FieldExprRef { name: 1, expr: src(lit(7)) },
                ]),
                base: None,
            }
    );
}

#[test]
fn variant_ctor_call_finds_variant_index() {
    let mut cx = empty_cx();
    cx.node_types = lst(vec![(4, Ty::Adt(9, 0))]);
    cx.adts = lst(vec![(
        9,
        AdtDef {
            kind: AdtKind::Enum,
            variants: lst(vec![
                VariantDef { ctor: 66, fields: List::Nil },
                VariantDef { ctor: 77, fields: lst(vec![111]) },
            ]),
        },
    )]);
    let fun = node(5, SourceExprKind::Path(QPath::Resolved(Def::VariantCtor(77, CtorKind::Fn))));
    let e = node(4, SourceExprKind::Call(Box::new(fun), Box::new(lst(vec![lit(6)]))));
    let core = unwrap_scope(lower_ok(&cx, e), CodeExtent::Misc(4));
    match core.kind {
        ExprKind::Adt { adt, variant_index, fields, base, .. } => {
            assert!(adt == 9);
            assert!(variant_index == 1);
            assert!(fields == lst(vec![FieldExprRef { name: 0, expr: src(lit(6)) }]));
            assert!(base == None);
        }
        _ => panic!("expected an aggregate construction"),
    }
}

#[test]
fn plain_call_stays_a_call() {
    let mut cx = empty_cx();
    cx.node_types = lst(vec![(4, Ty::Opaque(2)), (5, Ty::FnDef(80, 0))]);
    let fun = node(5, SourceExprKind::Path(QPath::Resolved(Def::Fn(80))));
    let e = node(4, SourceExprKind::Call(Box::new(fun), Box::new(lst(vec![lit(6)]))));
    let core = unwrap_scope(lower_ok(&cx, e), CodeExtent::Misc(4));
    match core.kind {
        ExprKind::Call { ty, fun: f, args } => {
            assert!(ty == Ty::FnDef(80, 0));
            let fun_again =
                node(5, SourceExprKind::Path(QPath::Resolved(Def::Fn(80))));
            assert!(f == src(fun_again));
            assert!(args == lst(vec![src(lit(6))]));
        }
        _ => panic!("expected a plain call"),
    }
}

#[test]
fn callable_value_call_goes_through_call_trait() {
    let mut cx = empty_cx();
    cx.node_types = lst(vec![(4, Ty::Opaque(2)), (6, Ty::Opaque(7))]);
    cx.method_calls = lst(vec![4]);
    cx.method_defs = lst(vec![(4, Def::Method(70))]);
    cx.node_substs = lst(vec![(4, 3)]);
    let fun = node(5, SourceExprKind::Path(QPath::Resolved(Def::Local(500))));
    let e = node(4, SourceExprKind::Call(Box::new(fun), Box::new(lst(vec![lit(6)]))));
    let core = unwrap_scope(lower_ok(&cx, e), CodeExtent::Misc(4));
    match core.kind {
        ExprKind::Call { ty, fun: f, args } => {
            assert!(ty == Ty::FnDef(70, 3));
            match f {
                ExprRef::Lowered(m) => {
                    assert!(m.ty == Ty::FnDef(70, 3));
                    assert!(
                        m.kind
                            == ExprKind::Literal {
                                literal: Literal::Value(ConstVal::Function(70, 3)),
                            }
                    );
                }
                _ => panic!("the callee must be the resolved method literal"),
            }
            match args {
                List::Cons(first, rest) => {
                    let fun_again =
                        node(5, SourceExprKind::Path(QPath::Resolved(Def::Local(500))));
                    assert!(first == src(fun_again));
                    match *rest {
                        List::Cons(second, tail) => {
                            assert!(*tail == List::Nil);
                            match second {
                                ExprRef::Lowered(tupled) => {
                                    assert!(tupled.ty == Ty::Tuple(Box::new(lst(vec![
                                        Ty::Opaque(7)
                                    ]))));
                                    assert!(
                                        tupled.kind
                                            == ExprKind::Tuple { fields: lst(vec![src(lit(6))]) }
                                    );
                                }
                                _ => panic!("arguments must be tupled"),
                            }
                        }
                        List::Nil => panic!("two arguments expected"),
                    }
                }
                List::Nil => panic!("two arguments expected"),
            }
        }
        _ => panic!("expected a rewritten call"),
    }
}

#[test]
fn method_call_rewrites_to_explicit_call() {
    let mut cx = empty_cx();
    cx.node_types = lst(vec![(1, Ty::Opaque(3))]);
    cx.method_defs = lst(vec![(1, Def::Method(70))]);
    cx.node_substs = lst(vec![(1, 4)]);
    let e = node(1, SourceExprKind::MethodCall(Box::new(lst(vec![lit(2), lit(3)]))));
    let core = unwrap_scope(lower_ok(&cx, e), CodeExtent::Misc(1));
    match core.kind {
        ExprKind::Call { ty, fun, args } => {
            assert!(ty == Ty::FnDef(70, 4));
            match fun {
                ExprRef::Lowered(m) => assert!(
                    m.kind
                        == ExprKind::Literal {
                            literal: Literal::Value(ConstVal::Function(70, 4)),
                        }
                ),
                _ => panic!("the callee must be the resolved method literal"),
            }
            assert!(args == lst(vec![src(lit(2)), src(lit(3))]));
        }
        _ => panic!("expected a rewritten call"),
    }
}

#[test]
fn fnmut_capture_by_mut_ref_builds_env_read_chain() {
    let mut cx = empty_cx();
    cx.node_types = lst(vec![(10, Ty::Closure(50, 8)), (20, Ty::Opaque(1))]);
    cx.freevars = lst(vec![(10, lst(vec![Def::Upvar(500, 0, 10)]))]);
    cx.local_nodes = lst(vec![(500, 20)]);
    cx.node_defs = lst(vec![(10, 50)]);
    cx.closure_kinds = lst(vec![(50, ClosureKind::MutFn)]);
    cx.upvar_captures = lst(vec![(
        (20, 10),
        CaptureMode::ByRef(Region::Named(3), CaptureKind::MutBorrow),
    )]);
    cx.upvar_types = lst(vec![(
        50,
        lst(vec![Ty::Ref(Region::Named(3), Mutability::Mut, Box::new(Ty::Opaque(1)))]),
    )]);
    let e = node(10, SourceExprKind::Closure);
    let core = unwrap_scope(lower_ok(&cx, e), CodeExtent::Misc(10));
    let upvar = match core.kind {
        ExprKind::Closure { closure_id, substs, upvars } => {
            assert!(closure_id == 50);
            assert!(substs == 8);
            match upvars {
                List::Cons(first, tail) => {
                    assert!(*tail == List::Nil);
                    first
                }
                List::Nil => panic!("one capture expected"),
            }
        }
        _ => panic!("expected a closure node"),
    };
    // The capture is by reference, so the access is wrapped in a borrow.
    let access = match upvar {
        ExprRef::Lowered(borrow) => {
            assert!(
                borrow.ty == Ty::Ref(Region::Named(3), Mutability::Mut, Box::new(Ty::Opaque(1)))
            );
            match borrow.kind {
                ExprKind::Borrow { region, borrow_kind, arg } => {
                    assert!(region == Region::Named(3));
                    assert!(borrow_kind == BorrowKind::Mut);
                    match arg {
                        ExprRef::Lowered(a) => *a,
                        _ => panic!("the borrow wraps the built access"),
                    }
                }
                _ => panic!("expected a borrow of the access"),
            }
        }
        _ => panic!("the capture is already lowered"),
    };
    // access = deref over the field read through a synthesized mutable ref.
    assert!(access.ty == Ty::Opaque(1));
    let field_expr = match access.kind {
        ExprKind::Deref { arg } => match arg {
            ExprRef::Lowered(f) => *f,
            _ => panic!("already lowered"),
        },
        _ => panic!("a by-ref capture reads through a dereference"),
    };
    assert!(
        field_expr.ty == Ty::Ref(Region::Named(3), Mutability::Mut, Box::new(Ty::Opaque(1)))
    );
    let self_deref = match field_expr.kind {
        ExprKind::Field { lhs, name } => {
            assert!(name == 0);
            match lhs {
                ExprRef::Lowered(s) => *s,
                _ => panic!("already lowered"),
            }
        }
        _ => panic!("the slot is read by positional field access"),
    };
    // An FnMut closure reads its environment through *(&mut env).
    assert!(self_deref.ty == Ty::Closure(50, 8));
    match self_deref.kind {
        ExprKind::Deref { arg } => match arg {
            ExprRef::Lowered(sr) => {
                assert!(
                    sr.ty
                        == Ty::Ref(
                            Region::Free(50),
                            Mutability::Mut,
                            Box::new(Ty::Closure(50, 8)),
                        )
                );
                assert!(sr.kind == ExprKind::SelfRef);
            }
            _ => panic!("already lowered"),
        },
        _ => panic!("an exclusive-call closure dereferences its self reference"),
    }
}

#[test]
fn adjustments_apply_in_table_order_and_set_types() {
    let mut cx = empty_cx();
    cx.node_types = lst(vec![(1, Ty::Opaque(1))]);
    cx.literals = lst(vec![(1, ConstVal::Scalar(5))]);
    cx.adjustments = lst(vec![(
        1,
        lst(vec![
            Adjustment { kind: Adjust::NeverToAny, target: Ty::Opaque(2) },
            Adjustment { kind: Adjust::Unsize, target: Ty::Opaque(3) },
        ]),
    )]);
    let r = lower_ok(&cx, lit(1));
    assert!(r.ty == Ty::Opaque(3));
    let core = unwrap_scope(r, CodeExtent::Misc(1));
    assert!(core.ty == Ty::Opaque(3));
    let inner = match core.kind {
        ExprKind::Unsize { source } => match source {
            ExprRef::Lowered(i) => *i,
            _ => panic!("already lowered"),
        },
        _ => panic!("the last step is outermost"),
    };
    assert!(inner.ty == Ty::Opaque(2));
    let innermost = match inner.kind {
        ExprKind::NeverToAny { source } => match source {
            ExprRef::Lowered(i) => *i,
            _ => panic!("already lowered"),
        },
        _ => panic!("the first step is innermost"),
    };
    assert!(innermost.ty == Ty::Opaque(1));
    assert!(
        innermost.kind == ExprKind::Literal { literal: Literal::Value(ConstVal::Scalar(5)) }
    );
}

#[test]
fn destruction_scope_wraps_outermost() {
    let mut cx = empty_cx();
    cx.node_types = lst(vec![(1, Ty::Opaque(1))]);
    cx.literals = lst(vec![(1, ConstVal::Scalar(5))]);
    cx.destruction_extents = lst(vec![(1, CodeExtent::Destruction(9))]);
    let r = lower_ok(&cx, lit(1));
    let lexical = unwrap_scope(r, CodeExtent::Destruction(9));
    let core = unwrap_scope(lexical, CodeExtent::Misc(1));
    assert!(core.kind == ExprKind::Literal { literal: Literal::Value(ConstVal::Scalar(5)) });
}

#[test]
fn overloaded_index_is_deref_of_call() {
    let mut cx = empty_cx();
    cx.node_types = lst(vec![
        (1, Ty::Opaque(42)),
        (2, Ty::Ref(Region::Named(1), Mutability::Imm, Box::new(Ty::Opaque(7)))),
        (3, Ty::Opaque(8)),
    ]);
    cx.method_calls = lst(vec![1]);
    cx.method_defs = lst(vec![(1, Def::Method(70))]);
    cx.node_substs = lst(vec![(1, 5)]);
    let e = node(1, SourceExprKind::Index(Box::new(lit(2)), Box::new(lit(3))));
    let core = unwrap_scope(lower_ok(&cx, e), CodeExtent::Misc(1));
    let call = match core.kind {
        ExprKind::Deref { arg } => match arg {
            ExprRef::Lowered(c) => *c,
            _ => panic!("already lowered"),
        },
        _ => panic!("an overloaded index lowers to a dereferenced call"),
    };
    // The synthesized call returns a reference with the receiver's region
    // and mutability whose pointee is the index expression's own type.
    assert!(call.ty == Ty::Ref(Region::Named(1), Mutability::Imm, Box::new(Ty::Opaque(42))));
    match call.kind {
        ExprKind::Call { ty, fun, args } => {
            assert!(ty == Ty::FnDef(70, 5));
            match fun {
                ExprRef::Lowered(m) => assert!(
                    m.kind
                        == ExprKind::Literal {
                            literal: Literal::Value(ConstVal::Function(70, 5)),
                        }
                ),
                _ => panic!("the callee must be the resolved method literal"),
            }
            assert!(args == lst(vec![src(lit(2)), src(lit(3))]));
        }
        _ => panic!("expected the synthesized call"),
    }
}

#[test]
fn overloaded_deref_is_deref_of_call() {
    let mut cx = empty_cx();
    cx.node_types = lst(vec![
        (1, Ty::Opaque(42)),
        (2, Ty::Ref(Region::Named(6), Mutability::Mut, Box::new(Ty::Opaque(7)))),
    ]);
    cx.method_calls = lst(vec![1]);
    cx.method_defs = lst(vec![(1, Def::Method(71))]);
    let e = node(1, SourceExprKind::Unary(SrcUnOp::Deref, Box::new(lit(2))));
    let core = unwrap_scope(lower_ok(&cx, e), CodeExtent::Misc(1));
    match core.kind {
        ExprKind::Deref { arg } => match arg {
            ExprRef::Lowered(c) => {
                assert!(
                    c.ty == Ty::Ref(Region::Named(6), Mutability::Mut, Box::new(Ty::Opaque(42)))
                );
                assert!(matches!(c.kind, ExprKind::Call { .. }));
            }
            _ => panic!("already lowered"),
        },
        _ => panic!("an overloaded dereference lowers to a dereferenced call"),
    }
}

#[test]
fn struct_literal_with_base_completes_fields() {
    let mut cx = empty_cx();
    cx.node_types = lst(vec![(1, Ty::Adt(9, 2))]);
    cx.adts = lst(vec![(
        9,
        AdtDef {
            kind: AdtKind::Struct,
            variants: lst(vec![VariantDef { ctor: 77, fields: lst(vec![101, 102, 103]) }]),
        },
    )]);
    cx.fru_field_types = lst(vec![(1, lst(vec![Ty::Opaque(4), Ty::Opaque(5)]))]);
    let e = node(
        1,
        SourceExprKind::Struct(
            QPath::Resolved(Def::Unresolved),
            lst(vec![SourceField { name: 103, expr: Box::new(lit(2)) }]),
            Some(Box::new(lit(3))),
        ),
    );
    let core = unwrap_scope(lower_ok(&cx, e), CodeExtent::Misc(1));
    match core.kind {
        ExprKind::Adt { adt, variant_index, substs, fields, base } => {
            assert!(adt == 9);
            assert!(variant_index == 0);
            assert!(substs == 2);
            // One listed field, resolved to its declared position; the base
            // supplies the two missing fields: 1 + 2 == 3 declared.
            assert!(fields == lst(vec![FieldExprRef { name: 2, expr: src(lit(2)) }]));
            match base {
                Some(fru) => {
                    assert!(fru.base == src(lit(3)));
                    assert!(fru.field_types == lst(vec![Ty::Opaque(4), Ty::Opaque(5)]));
                }
                None => panic!("the record-update base must be kept"),
            }
        }
        _ => panic!("expected an aggregate construction"),
    }
}

#[test]
fn enum_literal_resolves_variant_and_rejects_base() {
    let mut cx = empty_cx();
    cx.node_types = lst(vec![(1, Ty::Adt(9, 0))]);
    cx.adts = lst(vec![(
        9,
        AdtDef {
            kind: AdtKind::Enum,
            variants: lst(vec![
                VariantDef { ctor: 60, fields: List::Nil },
                VariantDef { ctor: 61, fields: lst(vec![101]) },
            ]),
        },
    )]);
    let make = |base: Option<Box<SourceExpr>>| {
        node(
            1,
            SourceExprKind::Struct(
                QPath::Resolved(Def::Variant(61)),
                lst(vec![SourceField { name: 101, expr: Box::new(lit(2)) }]),
                base,
            ),
        )
    };
    let core = unwrap_scope(lower_ok(&cx, make(None)), CodeExtent::Misc(1));
    match core.kind {
        ExprKind::Adt { variant_index, fields, base, .. } => {
            assert!(variant_index == 1);
            assert!(fields == lst(vec![FieldExprRef { name: 0, expr: src(lit(2)) }]));
            assert!(base == None);
        }
        _ => panic!("expected an aggregate construction"),
    }
    // An enum construction admits no functional-update base.
    assert!(make_mirror(&cx, make(Some(Box::new(lit(3))))) == Err(Fatal::Internal(10)));
}

#[test]
fn ascription_lowers_exactly_as_its_inner_expression() {
    let mut cx = empty_cx();
    cx.node_types = lst(vec![(1, Ty::Opaque(100))]);
    let inner = || {
        node(
            1,
            SourceExprKind::Binary(SrcBinOp::Mul, Box::new(lit(2)), Box::new(lit(3))),
        )
    };
    let wrapped = node(99, SourceExprKind::Ascription(Box::new(inner())));
    assert!(make_mirror(&cx, wrapped) == make_mirror(&cx, inner()));
}

#[test]
fn coercion_cast_lowers_to_use() {
    let mut cx = empty_cx();
    cx.node_types = lst(vec![(1, Ty::Opaque(2))]);
    cx.coercion_casts = lst(vec![2]);
    let e = node(1, SourceExprKind::Cast(Box::new(lit(2))));
    let core = unwrap_scope(lower_ok(&cx, e), CodeExtent::Misc(1));
    assert!(core.kind == ExprKind::Use { source: src(lit(2)) });
    // Without the marker the cast is genuine.
    let mut cx2 = empty_cx();
    cx2.node_types = lst(vec![(1, Ty::Opaque(2))]);
    let e2 = node(1, SourceExprKind::Cast(Box::new(lit(2))));
    let core2 = unwrap_scope(lower_ok(&cx2, e2), CodeExtent::Misc(1));
    assert!(core2.kind == ExprKind::Cast { source: src(lit(2)) });
}

#[test]
fn negation_of_literal_folds_into_literal() {
    let mut cx = empty_cx();
    cx.node_types = lst(vec![(1, Ty::Opaque(2))]);
    cx.literals = lst(vec![(1, ConstVal::Scalar(7))]);
    let e = node(1, SourceExprKind::Unary(SrcUnOp::Neg, Box::new(lit(2))));
    let core = unwrap_scope(lower_ok(&cx, e), CodeExtent::Misc(1));
    assert!(core.kind == ExprKind::Literal { literal: Literal::Value(ConstVal::Scalar(7)) });
    // Negation of anything else stays a unary operation.
    let mut cx2 = empty_cx();
    cx2.node_types = lst(vec![(1, Ty::Opaque(2))]);
    let inner = node(2, SourceExprKind::Path(QPath::Resolved(Def::Static(5))));
    let e2 = node(1, SourceExprKind::Unary(SrcUnOp::Neg, Box::new(inner)));
    let core2 = unwrap_scope(lower_ok(&cx2, e2), CodeExtent::Misc(1));
    match core2.kind {
        ExprKind::Unary { op, .. } => assert!(op == UnOp::Neg),
        _ => panic!("expected a unary operation"),
    }
}

#[test]
fn repeat_count_comes_from_constant_evaluation() {
    let mut cx = empty_cx();
    cx.node_types = lst(vec![(1, Ty::Opaque(2))]);
    cx.repeat_counts = lst(vec![(40, ConstEval::Count(4))]);
    let e = node(1, SourceExprKind::Repeat(Box::new(lit(2)), 40));
    let core = unwrap_scope(lower_ok(&cx, e), CodeExtent::Misc(1));
    assert!(core.kind == ExprKind::Repeat { value: src(lit(2)), count: 4 });
}

#[test]
fn repeat_count_failure_is_fatal() {
    let mut cx = empty_cx();
    cx.node_types = lst(vec![(1, Ty::Opaque(2))]);
    cx.repeat_counts = lst(vec![(40, ConstEval::Failed), (41, ConstEval::NonCount)]);
    // A reported evaluation failure is the user-diagnosed fatal outcome.
    let e = node(1, SourceExprKind::Repeat(Box::new(lit(2)), 40));
    assert!(make_mirror(&cx, e) == Err(Fatal::ConstEval(10)));
    // A non-integral result is an internal error.
    let e2 = node(1, SourceExprKind::Repeat(Box::new(lit(2)), 41));
    assert!(make_mirror(&cx, e2) == Err(Fatal::Internal(10)));
}

#[test]
fn break_and_continue_take_their_target_extent() {
    let mut cx = empty_cx();
    cx.node_types = lst(vec![(1, Ty::Opaque(2))]);
    let e = node(1, SourceExprKind::Break(ScopeTarget::LoopOk(8), None));
    let core = unwrap_scope(lower_ok(&cx, e), CodeExtent::Misc(1));
    assert!(core.kind == ExprKind::Break { label: CodeExtent::Misc(8), value: None });
    let e2 = node(1, SourceExprKind::Continue(ScopeTarget::LoopOk(8)));
    let core2 = unwrap_scope(lower_ok(&cx, e2), CodeExtent::Misc(1));
    assert!(core2.kind == ExprKind::Continue { label: CodeExtent::Misc(8) });
    // An unresolved loop target, or a continue to a block, is fatal.
    let e3 = node(1, SourceExprKind::Break(ScopeTarget::LoopErr, None));
    assert!(make_mirror(&cx, e3) == Err(Fatal::Internal(10)));
    let e4 = node(1, SourceExprKind::Continue(ScopeTarget::Block(8)));
    assert!(make_mirror(&cx, e4) == Err(Fatal::Internal(10)));
}

#[test]
fn missing_type_entry_is_internal_error() {
    let cx = empty_cx();
    assert!(make_mirror(&cx, lit(1)) == Err(Fatal::Internal(10)));
}

#[test]
fn paths_lower_by_resolution() {
    let mut cx = empty_cx();
    cx.node_types = lst(vec![(1, Ty::Opaque(2))]);
    cx.local_nodes = lst(vec![(500, 20)]);
    let e = node(1, SourceExprKind::Path(QPath::Resolved(Def::Static(5))));
    let core = unwrap_scope(lower_ok(&cx, e), CodeExtent::Misc(1));
    assert!(core.kind == ExprKind::StaticRef { id: 5 });
    let e2 = node(1, SourceExprKind::Path(QPath::Resolved(Def::Local(500))));
    let core2 = unwrap_scope(lower_ok(&cx, e2), CodeExtent::Misc(1));
    assert!(core2.kind == ExprKind::VarRef { id: 20 });
    let mut cx3 = empty_cx();
    cx3.node_types = lst(vec![(1, Ty::Opaque(2))]);
    cx3.node_substs = lst(vec![(1, 6)]);
    let e3 = node(1, SourceExprKind::Path(QPath::Resolved(Def::Const(33))));
    let core3 = unwrap_scope(lower_ok(&cx3, e3), CodeExtent::Misc(1));
    assert!(core3.kind == ExprKind::Literal { literal: Literal::Item(33, 6) });
}

#[test]
fn unit_ctor_path_becomes_empty_aggregate() {
    let mut cx = empty_cx();
    cx.node_types = lst(vec![(1, Ty::Adt(9, 4))]);
    cx.adts = lst(vec![(
        9,
        AdtDef {
            kind: AdtKind::Enum,
            variants: lst(vec![
                VariantDef { ctor: 60, fields: List::Nil },
                VariantDef { ctor: 61, fields: List::Nil },
            ]),
        },
    )]);
    let e = node(1, SourceExprKind::Path(QPath::Resolved(Def::VariantCtor(61, CtorKind::Const))));
    let core = unwrap_scope(lower_ok(&cx, e), CodeExtent::Misc(1));
    assert!(
        core.kind
            == ExprKind::Adt {
                adt: 9,
                variant_index: 1,
                substs: 4,
                fields: List::Nil,
                base: None,
            }
    );
}

#[test]
fn borrow_takes_region_from_reference_type() {
    let mut cx = empty_cx();
    cx.node_types = lst(vec![(
        1,
        Ty::Ref(Region::Named(2), Mutability::Mut, Box::new(Ty::Opaque(7))),
    )]);
    let e = node(1, SourceExprKind::AddrOf(Mutability::Mut, Box::new(lit(2))));
    let core = unwrap_scope(lower_ok(&cx, e), CodeExtent::Misc(1));
    assert!(
        core.kind
            == ExprKind::Borrow {
                region: Region::Named(2),
                borrow_kind: BorrowKind::Mut,
                arg: src(lit(2)),
            }
    );
    // A borrow whose node type is not a reference is an internal error.
    let mut cx2 = empty_cx();
    cx2.node_types = lst(vec![(1, Ty::Opaque(7))]);
    let e2 = node(1, SourceExprKind::AddrOf(Mutability::Imm, Box::new(lit(2))));
    assert!(make_mirror(&cx2, e2) == Err(Fatal::Internal(10)));
}

#[test]
fn field_access_resolves_name_to_position() {
    let mut cx = empty_cx();
    cx.node_types = lst(vec![(1, Ty::Opaque(2)), (2, Ty::Adt(9, 0))]);
    cx.adts = lst(vec![(
        9,
        AdtDef {
            kind: AdtKind::Struct,
            variants: lst(vec![VariantDef { ctor: 77, fields: lst(vec![101, 102]) }]),
        },
    )]);
    let e = node(1, SourceExprKind::Field(Box::new(lit(2)), 102));
    let core = unwrap_scope(lower_ok(&cx, e), CodeExtent::Misc(1));
    assert!(core.kind == ExprKind::Field { lhs: src(lit(2)), name: 1 });
    // An unknown field name is an internal error.
    let e2 = node(1, SourceExprKind::Field(Box::new(lit(2)), 999));
    assert!(make_mirror(&cx, e2) == Err(Fatal::Internal(10)));
}

#[test]
fn while_lowers_to_conditional_loop() {
    let mut cx = empty_cx();
    cx.node_types = lst(vec![(1, Ty::Opaque(2)), (30, Ty::Opaque(3))]);
    let blk = SourceBlock { id: 30, span: 300 };
    let e = node(1, SourceExprKind::While(Box::new(lit(2)), blk));
    let core = unwrap_scope(lower_ok(&cx, e), CodeExtent::Misc(1));
    match core.kind {
        ExprKind::Loop { condition, body } => {
            assert!(condition == Some(src(lit(2))));
            match body {
                ExprRef::Lowered(blk_expr) => {
                    assert!(blk_expr.ty == Ty::Opaque(3));
                    assert!(blk_expr.span == 300);
                    assert!(blk_expr.kind == ExprKind::Block { body: 30 });
                }
                _ => panic!("the body goes through the block collaborator"),
            }
        }
        _ => panic!("expected a loop"),
    }
}

#[test]
fn match_arms_embed_patterns_unchanged() {
    let mut cx = empty_cx();
    cx.node_types = lst(vec![(1, Ty::Opaque(2))]);
    let arm = SourceArm {
        pats: lst(vec![71, 72]),
        guard: Some(Box::new(lit(3))),
        body: Box::new(lit(4)),
    };
    let e = node(1, SourceExprKind::Match(Box::new(lit(2)), lst(vec![arm])));
    let core = unwrap_scope(lower_ok(&cx, e), CodeExtent::Misc(1));
    assert!(
        core.kind
            == ExprKind::Match {
                discriminant: src(lit(2)),
                arms: lst(vec![Arm {
                    patterns: lst(vec![Pattern(71), Pattern(72)]),
                    guard: Some(src(lit(3))),
                    body: src(lit(4)),
                }]),
            }
    );
}

#[test]
fn overloaded_deref_adjustment_borrows_then_calls() {
    let mut cx = empty_cx();
    cx.node_types = lst(vec![(1, Ty::Opaque(1))]);
    cx.literals = lst(vec![(1, ConstVal::Scalar(5))]);
    cx.adjustments = lst(vec![(
        1,
        lst(vec![Adjustment {
            kind: Adjust::OverloadedDeref {
                region: Region::Named(4),
                mutbl: Mutability::Imm,
                method: 90,
                substs: 7,
            },
            target: Ty::Opaque(2),
        }]),
    )]);
    let r = lower_ok(&cx, lit(1));
    assert!(r.ty == Ty::Opaque(2));
    let adjusted = unwrap_scope(r, CodeExtent::Misc(1));
    assert!(adjusted.ty == Ty::Opaque(2));
    let call = match adjusted.kind {
        ExprKind::Deref { arg } => match arg {
            ExprRef::Lowered(c) => *c,
            _ => panic!("already lowered"),
        },
        _ => panic!("an overloaded dereference adjustment yields Deref(Call(..))"),
    };
    assert!(call.ty == Ty::Ref(Region::Named(4), Mutability::Imm, Box::new(Ty::Opaque(2))));
    match call.kind {
        ExprKind::Call { ty, fun, args } => {
            assert!(ty == Ty::FnDef(90, 7));
            assert!(matches!(fun, ExprRef::Lowered(_)));
            match args {
                List::Cons(only, tail) => {
                    assert!(*tail == List::Nil);
                    match only {
                        ExprRef::Lowered(borrow) => {
                            assert!(
                                borrow.ty
                                    == Ty::Ref(
                                        Region::Named(4),
                                        Mutability::Imm,
                                        Box::new(Ty::Opaque(1)),
                                    )
                            );
                            match borrow.kind {
                                ExprKind::Borrow { region, borrow_kind, .. } => {
                                    assert!(region == Region::Named(4));
                                    assert!(borrow_kind == BorrowKind::Shared);
                                }
                                _ => panic!("the receiver is first borrowed"),
                            }
                        }
                        _ => panic!("the borrow is already lowered"),
                    }
                }
                List::Nil => panic!("one argument expected"),
            }
        }
        _ => panic!("expected the synthesized call"),
    }
}

#[test]
fn raw_pointer_autoborrow_casts_a_scoped_borrow() {
    let mut cx = empty_cx();
    cx.node_types = lst(vec![(1, Ty::Opaque(1))]);
    cx.literals = lst(vec![(1, ConstVal::Scalar(5))]);
    cx.adjustments = lst(vec![(
        1,
        lst(vec![Adjustment {
            kind: Adjust::RawPtrBorrow(Mutability::Mut),
            target: Ty::Opaque(2),
        }]),
    )]);
    let adjusted = unwrap_scope(lower_ok(&cx, lit(1)), CodeExtent::Misc(1));
    match adjusted.kind {
        ExprKind::Cast { source } => match source {
            ExprRef::Lowered(borrow) => {
                // The synthesized borrow's region is limited to the node.
                assert!(
                    borrow.ty
                        == Ty::Ref(
                            Region::Scope(CodeExtent::Misc(1)),
                            Mutability::Mut,
                            Box::new(Ty::Opaque(1)),
                        )
                );
                match borrow.kind {
                    ExprKind::Borrow { region, borrow_kind, .. } => {
                        assert!(region == Region::Scope(CodeExtent::Misc(1)));
                        assert!(borrow_kind == BorrowKind::Mut);
                    }
                    _ => panic!("the value is first borrowed"),
                }
            }
            _ => panic!("the borrow is already lowered"),
        },
        _ => panic!("the raw-pointer auto-borrow ends in a cast"),
    }
}

#[test]
fn overloaded_binary_becomes_call() {
    let mut cx = empty_cx();
    cx.node_types = lst(vec![(1, Ty::Opaque(3))]);
    cx.method_calls = lst(vec![1]);
    cx.method_defs = lst(vec![(1, Def::Method(70))]);
    let e = node(
        1,
        SourceExprKind::Binary(SrcBinOp::Add, Box::new(lit(2)), Box::new(lit(3))),
    );
    let core = unwrap_scope(lower_ok(&cx, e), CodeExtent::Misc(1));
    match core.kind {
        ExprKind::Call { ty, args, .. } => {
            assert!(ty == Ty::FnDef(70, 0));
            assert!(args == lst(vec![src(lit(2)), src(lit(3))]));
        }
        _ => panic!("a resolved operator lowers to a call"),
    }
}

#[test]
fn compound_assignment_lowers_both_ways() {
    let mut cx = empty_cx();
    cx.node_types = lst(vec![(1, Ty::Opaque(3))]);
    let e = node(
        1,
        SourceExprKind::AssignOp(SrcBinOp::Add, Box::new(lit(2)), Box::new(lit(3))),
    );
    let core = unwrap_scope(lower_ok(&cx, e), CodeExtent::Misc(1));
    assert!(
        core.kind
            == ExprKind::AssignOp { op: BinOp::Add, lhs: src(lit(2)), rhs: src(lit(3)) }
    );
    cx.method_calls = lst(vec![1]);
    cx.method_defs = lst(vec![(1, Def::Method(70))]);
    let e2 = node(
        1,
        SourceExprKind::AssignOp(SrcBinOp::Add, Box::new(lit(2)), Box::new(lit(3))),
    );
    let core2 = unwrap_scope(lower_ok(&cx, e2), CodeExtent::Misc(1));
    assert!(matches!(core2.kind, ExprKind::Call { .. }));
}

#[test]
fn rote_forms_lower_directly() {
    let mut cx = empty_cx();
    cx.node_types = lst(vec![(1, Ty::Opaque(3)), (30, Ty::Opaque(4))]);
    let lower_kind = |cx: &Cx, kind: SourceExprKind| -> ExprKind {
        unwrap_scope(lower_ok(cx, node(1, kind)), CodeExtent::Misc(1)).kind
    };
    assert!(
        lower_kind(&cx, SourceExprKind::Boxed(Box::new(lit(2))))
            == ExprKind::Boxed { value: src(lit(2)), value_extents: CodeExtent::Misc(2) }
    );
    assert!(
        lower_kind(&cx, SourceExprKind::Array(Box::new(lst(vec![lit(2), lit(3)]))))
            == ExprKind::Array { fields: lst(vec![src(lit(2)), src(lit(3))]) }
    );
    assert!(
        lower_kind(&cx, SourceExprKind::Tuple(Box::new(lst(vec![lit(2)]))))
            == ExprKind::Tuple { fields: lst(vec![src(lit(2))]) }
    );
    assert!(
        lower_kind(
            &cx,
            SourceExprKind::If(Box::new(lit(2)), Box::new(lit(3)), Some(Box::new(lit(4)))),
        ) == ExprKind::If {
            condition: src(lit(2)),
            then: src(lit(3)),
            otherwise: Some(src(lit(4))),
        }
    );
    assert!(lower_kind(&cx, SourceExprKind::Ret(None)) == ExprKind::Return { value: None });
    assert!(
        lower_kind(&cx, SourceExprKind::TupField(Box::new(lit(2)), 3))
            == ExprKind::Field { lhs: src(lit(2)), name: 3 }
    );
    let blk = SourceBlock { id: 30, span: 300 };
    assert!(lower_kind(&cx, SourceExprKind::Block(blk)) == ExprKind::Block { body: 30 });
    assert!(
        lower_kind(&cx, SourceExprKind::Assign(Box::new(lit(2)), Box::new(lit(3))))
            == ExprKind::Assign { lhs: src(lit(2)), rhs: src(lit(3)) }
    );
    assert!(
        lower_kind(&cx, SourceExprKind::Index(Box::new(lit(2)), Box::new(lit(3))))
            == ExprKind::Index { lhs: src(lit(2)), index: src(lit(3)) }
    );
    assert!(
        lower_kind(&cx, SourceExprKind::Unary(SrcUnOp::Not, Box::new(lit(2))))
            == ExprKind::Unary { op: UnOp::Not, arg: src(lit(2)) }
    );
    assert!(
        lower_kind(
            &cx,
            SourceExprKind::InlineAsm(
                55,
                Box::new(lst(vec![lit(2)])),
                Box::new(lst(vec![lit(3)])),
            ),
        ) == ExprKind::InlineAsm {
            template: 55,
            outputs: lst(vec![src(lit(2))]),
            inputs: lst(vec![src(lit(3))]),
        }
    );
    match lower_kind(&cx, SourceExprKind::Loop(blk)) {
        ExprKind::Loop { condition, .. } => assert!(condition == None),
        _ => panic!("expected a loop"),
    }
}
