use crate::span::Span;
use crate::ty::{LitValue, Ty};
use vstd::prelude::*;

verus! {

/// The operator of a binary expression. Only the strict-equality family
/// takes part in the overlap check; every operator outside it is collapsed
/// to `Other`, whose operands are still walked.
#[derive(Clone, Copy, PartialEq, Eq, Structural, Debug)]
pub enum BinaryOp {
    /// `===`
    EqEqEq,
    /// `!==`
    NotEqEq,
    /// any other binary operator
    Other,
}

impl BinaryOp {
    /// Whether this operator belongs to the strict-equality family.
    pub open spec fn spec_is_strict_eq(&self) -> bool {
        match self {
            BinaryOp::EqEqEq => true,
            BinaryOp::NotEqEq => true,
            BinaryOp::Other => false,
        }
    }

    #[verifier::when_used_as_spec(spec_is_strict_eq)]
    pub fn is_strict_eq(&self) -> (r: bool)
        ensures
            r == self.spec_is_strict_eq(),
    {
        match self {
            BinaryOp::EqEqEq => true,
            BinaryOp::NotEqEq => true,
            BinaryOp::Other => false,
        }
    }
}

/// A node of the externally produced syntax tree. The tree is built once
/// by the parser and is read-only for the duration of the checking pass.
#[derive(Debug)]
pub enum Expr {
    /// A literal expression.
    Lit { span: Span, value: LitValue },
    /// A reference to a name.
    Ident { span: Span, name: String },
    /// A type assertion: the operand viewed at the written type.
    Cast { span: Span, expr: Box<Expr>, ty: Ty },
    /// A binary expression.
    Bin { span: Span, op: BinaryOp, left: Box<Expr>, right: Box<Expr> },
}

impl Expr {
    /// The source location of this node.
    pub open spec fn spec_span(&self) -> Span {
        match self {
            Expr::Lit { span, .. } => *span,
            Expr::Ident { span, .. } => *span,
            Expr::Cast { span, .. } => *span,
            Expr::Bin { span, .. } => *span,
        }
    }

    #[verifier::when_used_as_spec(spec_span)]
    pub fn span(&self) -> (s: Span)
        ensures
            s == self.spec_span(),
    {
        match self {
            Expr::Lit { span, .. } => *span,
            Expr::Ident { span, .. } => *span,
            Expr::Cast { span, .. } => *span,
            Expr::Bin { span, .. } => *span,
        }
    }
}

/// A statement of the externally produced syntax tree.
#[derive(Debug)]
pub enum Stmt {
    /// An expression statement.
    Expr { span: Span, expr: Expr },
    /// An empty statement.
    Empty { span: Span },
}

/// The root of a parsed source file: the tree the checking pass walks.
#[derive(Debug)]
pub struct Module {
    pub span: Span,
    pub body: Vec<Stmt>,
}

} // verus!
