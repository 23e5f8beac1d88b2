use crate::span::Span;
use vstd::prelude::*;

verus! {

/// A problem detected during the checking pass. Every detectable problem is
/// accumulated as a value of this type; the traversal itself never aborts.
#[derive(Debug, PartialEq, Eq)]
pub enum Error {
    /// Inference could not resolve the name an expression refers to.
    Unresolved { span: Span, name: String },
    /// Inference does not support this expression shape.
    Unsupported { span: Span },
    /// Both operand types of a strict-equality comparison were determined
    /// and can never produce equal values. `value` is the constant outcome
    /// the comparison would always have: `false` for `===`, `true` for
    /// `!==`. `left` and `right` point at the two operand types.
    NoOverlap { span: Span, value: bool, left: Span, right: Span },
}

} // verus!
