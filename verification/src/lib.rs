//! A compile-time constant evaluator and type-parameter reducer for a
//! statically typed language with dependent-style features: values indexed
//! into types, refinement types, and projection types (`T.Output`) resolved
//! against a nominal hierarchy of trait impls.
//!
//! The crate models compile-time values (`value`), type terms and type
//! parameters (`ty`), the lexical/nominal environment (`context`), a
//! substitution engine (`subst`), and the evaluator itself (`eval`).
//! Every public operation carries a contract stated over mathematical
//! views of the data model.

pub mod error;
pub mod ast;
pub mod value;
pub mod ty;
pub mod deep;
pub mod arith;
pub mod lit;
pub mod classify;
pub mod context;
pub mod inst;
pub mod subst;
pub mod eval;
pub mod opcode;
pub mod laws;
pub mod pos;
pub mod uri;
