//! The type vocabulary the pass reads.
//!
//! Types are modelled structurally only as far as the lowering rules inspect
//! them: reference types carry their region, mutability and pointee,
//! algebraic data types and closures carry their resolved identity and
//! type-argument substitution, tuples carry their element types, and every
//! other type is an opaque token. Algebraic-data-type descriptors give each
//! variant its constructor identity and the declared order of its fields.

use vstd::prelude::*;

use crate::list::List;

verus! {

pub type NodeId = u64;

pub type DefId = u64;

pub type Span = u64;

pub type AdtId = u64;

pub type SubstsId = u64;

pub type FieldName = u64;

pub type BodyId = u64;

pub type AsmId = u64;

pub type PatId = u64;

/// The empty type-argument substitution, used where no entry is recorded.
pub const EMPTY_SUBSTS: SubstsId = 0;

#[derive(Clone, Copy, PartialEq, Eq)]
pub enum Mutability {
    Imm,
    Mut,
}

/// A lexical extent: either the node-specific miscellaneous extent or a
/// statement-level destruction extent.
#[derive(Clone, Copy, PartialEq, Eq)]
pub enum CodeExtent {
    Misc(NodeId),
    Destruction(NodeId),
}

/// A lifetime region. The pass reads regions off reference types and
/// synthesizes scope-bound and closure-bound ones.
#[derive(Clone, Copy, PartialEq, Eq)]
pub enum Region {
    Named(u64),
    Scope(CodeExtent),
    Free(DefId),
}

#[derive(PartialEq, Eq)]
pub enum Ty {
    Ref(Region, Mutability, Box<Ty>),
    Adt(AdtId, SubstsId),
    Closure(DefId, SubstsId),
    FnDef(DefId, SubstsId),
    Tuple(Box<List<Ty>>),
    Opaque(u64),
}

#[derive(Clone, Copy, PartialEq, Eq)]
pub enum AdtKind {
    Struct,
    Union,
    Enum,
}

/// One variant of an algebraic data type: its constructor's identity and its
/// field names in declaration order.
#[derive(PartialEq, Eq)]
pub struct VariantDef {
    pub ctor: DefId,
    pub fields: List<FieldName>,
}

/// An algebraic-data-type descriptor, as the resolver hands it over.
#[derive(PartialEq, Eq)]
pub struct AdtDef {
    pub kind: AdtKind,
    pub variants: List<VariantDef>,
}

impl VariantDef {
    /// The variant's field list fits in a machine index.
    pub open spec fn wf(self) -> bool {
        self.fields.len() <= usize::MAX
    }
}

pub open spec fn s_variants_wf(vs: List<VariantDef>) -> bool
    decreases vs,
{
    match vs {
        List::Nil => true,
        List::Cons(v, t) => v.wf() && s_variants_wf(*t),
    }
}

impl AdtDef {
    /// Variant and field lists fit in machine indices.
    pub open spec fn wf(self) -> bool {
        self.variants.len() <= usize::MAX && s_variants_wf(self.variants)
    }
}

pub proof fn lemma_variants_wf_nth(vs: List<VariantDef>, i: nat)
    requires
        s_variants_wf(vs),
    ensures
        crate::list::s_nth(vs, i) matches Some(v) ==> v.wf(),
    decreases vs,
{
    match vs {
        List::Nil => {}
        List::Cons(_, t) => {
            if i > 0 {
                lemma_variants_wf_nth(*t, (i - 1) as nat);
            }
        }
    }
}

/// Copies a type; the copy is equal to the original.
pub fn copy_ty(t: &Ty) -> (r: Ty)
    ensures
        r == *t,
    decreases *t,
{
    match t {
        Ty::Ref(region, m, inner) => Ty::Ref(*region, *m, Box::new(copy_ty(&**inner))),
        Ty::Adt(a, s) => Ty::Adt(*a, *s),
        Ty::Closure(d, s) => Ty::Closure(*d, *s),
        Ty::FnDef(d, s) => Ty::FnDef(*d, *s),
        Ty::Tuple(ts) => Ty::Tuple(Box::new(copy_ty_list(&**ts))),
        Ty::Opaque(u) => Ty::Opaque(*u),
    }
}

pub fn copy_ty_list(ts: &List<Ty>) -> (r: List<Ty>)
    ensures
        r == *ts,
    decreases *ts,
{
    match ts {
        List::Nil => List::Nil,
        List::Cons(h, t) => List::Cons(copy_ty(h), Box::new(copy_ty_list(&**t))),
    }
}

/// The position of the variant whose constructor is `ctor`.
pub open spec fn s_variant_index(vs: List<VariantDef>, ctor: DefId) -> Option<nat>
    decreases vs,
{
    match vs {
        List::Nil => None,
        List::Cons(v, t) => if v.ctor == ctor {
            Some(0nat)
        } else {
            match s_variant_index(*t, ctor) {
                Some(i) => Some(i + 1),
                None => None,
            }
        },
    }
}

pub proof fn lemma_variant_index_bound(vs: List<VariantDef>, ctor: DefId)
    ensures
        s_variant_index(vs, ctor) matches Some(i) ==> i < vs.len(),
    decreases vs,
{
    match vs {
        List::Nil => {}
        List::Cons(v, t) => {
            lemma_variant_index_bound(*t, ctor);
        }
    }
}

pub fn variant_index(vs: &List<VariantDef>, ctor: DefId) -> (r: Option<usize>)
    requires
        vs.len() <= usize::MAX,
    ensures
        match r {
            Some(i) => s_variant_index(*vs, ctor) == Some(i as nat),
            None => s_variant_index(*vs, ctor) is None,
        },
    decreases *vs,
{
    match vs {
        List::Nil => None,
        List::Cons(v, t) => if v.ctor == ctor {
            Some(0)
        } else {
            match variant_index(&**t, ctor) {
                Some(i) => {
                    proof {
                        lemma_variant_index_bound(**t, ctor);
                    }
                    Some(i + 1)
                }
                None => None,
            }
        },
    }
}

/// The position of the field named `name` in a variant's field list.
pub open spec fn s_field_index(fs: List<FieldName>, name: FieldName) -> Option<nat>
    decreases fs,
{
    match fs {
        List::Nil => None,
        List::Cons(f, t) => if f == name {
            Some(0nat)
        } else {
            match s_field_index(*t, name) {
                Some(i) => Some(i + 1),
                None => None,
            }
        },
    }
}

pub proof fn lemma_field_index_bound(fs: List<FieldName>, name: FieldName)
    ensures
        s_field_index(fs, name) matches Some(i) ==> i < fs.len(),
    decreases fs,
{
    match fs {
        List::Nil => {}
        List::Cons(f, t) => {
            lemma_field_index_bound(*t, name);
        }
    }
}

pub fn field_index(fs: &List<FieldName>, name: FieldName) -> (r: Option<usize>)
    requires
        fs.len() <= usize::MAX,
    ensures
        match r {
            Some(i) => s_field_index(*fs, name) == Some(i as nat),
            None => s_field_index(*fs, name) is None,
        },
    decreases *fs,
{
    match fs {
        List::Nil => None,
        List::Cons(f, t) => if *f == name {
            Some(0)
        } else {
            match field_index(&**t, name) {
                Some(i) => {
                    proof {
                        lemma_field_index_bound(**t, name);
                    }
                    Some(i + 1)
                }
                None => None,
            }
        },
    }
}

} // verus!
