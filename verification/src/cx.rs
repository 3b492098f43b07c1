//! The read-only lowering context: the side tables that type inference,
//! region inference and name resolution leave behind, keyed by node or
//! definition identity. The pass only ever reads them; passing the context
//! explicitly keeps independent bodies free to be lowered in parallel.

use vstd::prelude::*;

use crate::list::{s_assoc, s_contains, s_last, List};
use crate::ty::{
    AdtDef, AdtId, BodyId, CodeExtent, DefId, Mutability, NodeId, Region, SubstsId, Ty,
    EMPTY_SUBSTS,
};
use crate::ast::Def;

verus! {

/// Whether the expression sits in a constant-evaluation context, where
/// control flow — and so short-circuiting — is disallowed.
#[derive(Clone, Copy, PartialEq, Eq)]
pub enum Constness {
    Const,
    NotConst,
}

/// How the enclosing closure is called: by shared reference, by exclusive
/// reference, or by value exactly once.
#[derive(Clone, Copy, PartialEq, Eq)]
pub enum ClosureKind {
    SharedFn,
    MutFn,
    OnceFn,
}

/// The borrow kind a by-reference capture was inferred with.
#[derive(Clone, Copy, PartialEq, Eq)]
pub enum CaptureKind {
    ImmBorrow,
    UniqueImmBorrow,
    MutBorrow,
}

/// How a closure captures one free variable.
#[derive(Clone, Copy, PartialEq, Eq)]
pub enum CaptureMode {
    ByValue,
    ByRef(Region, CaptureKind),
}

/// What the constant-evaluation collaborator yields for a repeat count.
#[derive(Clone, Copy, PartialEq, Eq)]
pub enum ConstEval {
    /// A non-negative integral count that fits a machine index.
    Count(usize),
    /// Evaluation succeeded but did not yield such a count.
    NonCount,
    /// Evaluation failed; a user-facing diagnostic was already reported.
    Failed,
}

/// One ordered implicit-conversion step attached to a source node.
#[derive(PartialEq, Eq)]
pub struct Adjustment {
    pub kind: Adjust,
    pub target: Ty,
}

#[derive(Clone, Copy, PartialEq, Eq)]
pub enum Adjust {
    ReifyFnPointer,
    UnsafeFnPointer,
    ClosureFnPointer,
    NeverToAny,
    MutToConstPointer,
    /// A built-in dereference.
    Deref,
    /// A dereference through the resolved operator-trait method.
    OverloadedDeref { region: Region, mutbl: Mutability, method: DefId, substs: SubstsId },
    /// An auto-borrow to a reference.
    Borrow(Region, Mutability),
    /// An auto-borrow reified to a raw pointer.
    RawPtrBorrow(Mutability),
    Unsize,
}

pub struct Cx {
    pub constness: Constness,
    /// Node identity -> inferred type, for expressions and bindings alike.
    pub node_types: List<(NodeId, Ty)>,
    /// Node identity -> ordered adjustments; a missing entry means none.
    pub adjustments: List<(NodeId, List<Adjustment>)>,
    /// Node identities whose call or operator is method-resolved.
    pub method_calls: List<NodeId>,
    /// Node identity -> the resolved type-dependent definition (a method,
    /// operator, or type-relative path target).
    pub method_defs: List<(NodeId, Def)>,
    /// Node identity -> type-argument substitution; missing means empty.
    pub node_substs: List<(NodeId, SubstsId)>,
    /// Node identity -> temporary-destruction extent; missing means none.
    pub temp_scopes: List<(NodeId, CodeExtent)>,
    /// Node identity -> destructor extent; missing means none.
    pub destruction_extents: List<(NodeId, CodeExtent)>,
    /// Node identity -> declared types of the fields a record-update base
    /// supplies.
    pub fru_field_types: List<(NodeId, List<Ty>)>,
    /// Source-node identities of casts the checker marked coercion-only.
    pub coercion_casts: List<NodeId>,
    /// Algebraic-data-type identity -> descriptor.
    pub adts: List<(AdtId, AdtDef)>,
    /// Closure definition -> call kind.
    pub closure_kinds: List<(DefId, ClosureKind)>,
    /// (variable node, closure expression node) -> capture mode.
    pub upvar_captures: List<((NodeId, NodeId), CaptureMode)>,
    /// Closure expression node -> captured free variables, in slot order;
    /// missing means none.
    pub freevars: List<(NodeId, List<Def>)>,
    /// Closure definition -> capture types, one per free variable.
    pub upvar_types: List<(DefId, List<Ty>)>,
    /// Literal expression node -> its evaluated constant.
    pub literals: List<(NodeId, crate::ir::ConstVal)>,
    /// Body identity -> the evaluated repeat count.
    pub repeat_counts: List<(BodyId, ConstEval)>,
    /// Definition identity -> its local node.
    pub local_nodes: List<(DefId, NodeId)>,
    /// Node identity -> the definition it owns.
    pub node_defs: List<(NodeId, DefId)>,
}

pub open spec fn s_adts_wf(l: List<(AdtId, AdtDef)>) -> bool
    decreases l,
{
    match l {
        List::Nil => true,
        List::Cons(p, t) => p.1.wf() && s_adts_wf(*t),
    }
}

pub proof fn lemma_adts_wf_lookup(l: List<(AdtId, AdtDef)>, k: AdtId)
    requires
        s_adts_wf(l),
    ensures
        s_assoc(l, k) matches Some(a) ==> a.wf(),
    decreases l,
{
    match l {
        List::Nil => {}
        List::Cons(_, t) => {
            lemma_adts_wf_lookup(*t, k);
        }
    }
}

impl Cx {
    /// Every algebraic-data-type descriptor fits machine indices.
    pub open spec fn wf(&self) -> bool {
        s_adts_wf(self.adts)
    }

    pub open spec fn s_node_type(&self, id: NodeId) -> Option<Ty> {
        s_assoc(self.node_types, id)
    }

    pub open spec fn s_adjustments(&self, id: NodeId) -> List<Adjustment> {
        match s_assoc(self.adjustments, id) {
            Some(l) => l,
            None => List::Nil,
        }
    }

    pub open spec fn s_is_method_call(&self, id: NodeId) -> bool {
        s_contains(self.method_calls, id)
    }

    pub open spec fn s_method_def(&self, id: NodeId) -> Option<Def> {
        s_assoc(self.method_defs, id)
    }

    pub open spec fn s_node_substs(&self, id: NodeId) -> SubstsId {
        match s_assoc(self.node_substs, id) {
            Some(s) => s,
            None => EMPTY_SUBSTS,
        }
    }

    pub open spec fn s_temp_scope(&self, id: NodeId) -> Option<CodeExtent> {
        s_assoc(self.temp_scopes, id)
    }

    pub open spec fn s_destruction_extent(&self, id: NodeId) -> Option<CodeExtent> {
        s_assoc(self.destruction_extents, id)
    }

    pub open spec fn s_fru_field_types(&self, id: NodeId) -> Option<List<Ty>> {
        s_assoc(self.fru_field_types, id)
    }

    pub open spec fn s_is_coercion_cast(&self, id: NodeId) -> bool {
        s_contains(self.coercion_casts, id)
    }

    pub open spec fn s_adt(&self, id: AdtId) -> Option<AdtDef> {
        s_assoc(self.adts, id)
    }

    pub open spec fn s_closure_kind(&self, d: DefId) -> Option<ClosureKind> {
        s_assoc(self.closure_kinds, d)
    }

    pub open spec fn s_upvar_capture(&self, var: NodeId, closure: NodeId) -> Option<CaptureMode> {
        s_assoc2(self.upvar_captures, var, closure)
    }

    pub open spec fn s_freevars(&self, id: NodeId) -> List<Def> {
        match s_assoc(self.freevars, id) {
            Some(l) => l,
            None => List::Nil,
        }
    }

    pub open spec fn s_upvar_types(&self, d: DefId) -> List<Ty> {
        match s_assoc(self.upvar_types, d) {
            Some(l) => l,
            None => List::Nil,
        }
    }

    pub open spec fn s_literal(&self, id: NodeId) -> Option<crate::ir::ConstVal> {
        s_assoc(self.literals, id)
    }

    pub open spec fn s_repeat_count(&self, b: BodyId) -> Option<ConstEval> {
        s_assoc(self.repeat_counts, b)
    }

    pub open spec fn s_local_node(&self, d: DefId) -> Option<NodeId> {
        s_assoc(self.local_nodes, d)
    }

    pub open spec fn s_node_def(&self, id: NodeId) -> Option<DefId> {
        s_assoc(self.node_defs, id)
    }

    /// The type a node has after its adjustments: the last step's target,
    /// or the inferred type when no step is attached.
    pub open spec fn s_adjusted_type(&self, id: NodeId) -> Option<Ty> {
        match s_last(self.s_adjustments(id)) {
            Some(a) => Some(a.target),
            None => self.s_node_type(id),
        }
    }
}

/// Looks a (variable, closure) capture key up.
pub open spec fn s_assoc2(
    l: List<((NodeId, NodeId), CaptureMode)>,
    k1: NodeId,
    k2: NodeId,
) -> Option<CaptureMode>
    decreases l,
{
    match l {
        List::Nil => None,
        List::Cons(p, t) => if p.0.0 == k1 && p.0.1 == k2 {
            Some(p.1)
        } else {
            s_assoc2(*t, k1, k2)
        },
    }
}

pub fn assoc2(l: &List<((NodeId, NodeId), CaptureMode)>, k1: NodeId, k2: NodeId) -> (r: Option<
    CaptureMode,
>)
    ensures
        r == s_assoc2(*l, k1, k2),
    decreases *l,
{
    match l {
        List::Nil => None,
        List::Cons(p, t) => if p.0.0 == k1 && p.0.1 == k2 {
            Some(p.1)
        } else {
            assoc2(&**t, k1, k2)
        },
    }
}

} // verus!
