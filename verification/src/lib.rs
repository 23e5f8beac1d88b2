//! Semantic-analysis core for strict-equality checking: a type model with
//! structural equality that ignores source locations, a fallible inference
//! boundary, a symmetric overlap analyzer, and a visitor that flags
//! statically-impossible `===` / `!==` comparisons.

pub mod analyzer;
pub mod ast;
pub mod errors;
pub mod infer;
pub mod overlap;
pub mod span;
pub mod ty;
