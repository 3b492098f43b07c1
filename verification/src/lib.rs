//! A verified expression-desugaring pass for a compiler's mid-level IR
//! builder.
//!
//! The pass consumes a fully type-checked source expression tree together
//! with the side tables a type-inference pass leaves behind (per-node types,
//! implicit coercions, operator resolutions, closure-capture decisions) and
//! produces a desugared IR tree in which every implicit operation — operator
//! overloading, auto-borrowing, auto-dereferencing, unsizing, closure
//! environment capture, tuple-constructor calls — has been made explicit.
//!
//! Each executable function is proved equal to a specification function of
//! the same shape, and the guarantees the pass gives its consumer (type
//! propagation through adjustments, scope-wrapping discipline, the shape of
//! overloaded lvalue desugarings, aggregate field completeness, transparency
//! of type ascription) are stated and proved in [`laws`].

pub mod ast;
pub mod cx;
pub mod ir;
pub mod laws;
pub mod list;
pub mod lower;
pub mod ty;
