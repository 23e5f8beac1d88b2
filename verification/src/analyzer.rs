use crate::ast::{BinaryOp, Expr, Module, Stmt};
use crate::errors::Error;
use crate::infer::{type_of, type_of_spec};
use crate::overlap::{has_overlap, overlap, rule_hit};
use crate::span::Span;
use crate::ty::{ty_eq, TyV};
use vstd::prelude::*;

verus! {

/// The inference errors one operand contributes: none on success, the
/// inference error on failure.
pub open spec fn infer_errors(r: Result<TyV, Error>) -> Seq<Error> {
    match r {
        Ok(_) => Seq::empty(),
        Err(e) => seq![e],
    }
}

/// The span a `NoOverlap` diagnostic points at for one operand: the span
/// of the inferred type, falling back to the operand expression's own
/// span where the type carries none.
pub open spec fn diag_span(t: TyV, operand: Expr) -> Span {
    if t.span_of().spec_is_dummy() {
        operand.spec_span()
    } else {
        t.span_of()
    }
}

/// The overlap diagnostic for one strict-equality comparison: present if
/// and only if both operand types were determined and cannot overlap.
/// `value` records the constant outcome the comparison would always have.
pub open spec fn overlap_errors(
    span: Span,
    op: BinaryOp,
    lt: Result<TyV, Error>,
    rt: Result<TyV, Error>,
    left: Expr,
    right: Expr,
) -> Seq<Error> {
    match (lt, rt) {
        (Ok(l), Ok(r)) => if !overlap(l, r) {
            seq![
                Error::NoOverlap {
                    span,
                    value: !(op is EqEqEq),
                    left: diag_span(l, left),
                    right: diag_span(r, right),
                },
            ]
        } else {
            Seq::empty()
        },
        _ => Seq::empty(),
    }
}

/// Everything the strict-equality check appends for one binary expression
/// node: inference failures for both operands first, then the overlap
/// diagnostic. Operators outside the strict-equality family append
/// nothing.
pub open spec fn bin_check_errors(span: Span, op: BinaryOp, left: Expr, right: Expr) -> Seq<
    Error,
> {
    if op.spec_is_strict_eq() {
        infer_errors(type_of_spec(left)) + infer_errors(type_of_spec(right)) + overlap_errors(
            span,
            op,
            type_of_spec(left),
            type_of_spec(right),
            left,
            right,
        )
    } else {
        Seq::empty()
    }
}

/// The errors appended by walking one expression: children first, then
/// the node's own check.
pub open spec fn expr_errors(e: Expr) -> Seq<Error>
    decreases e,
{
    match e {
        Expr::Lit { .. } => Seq::empty(),
        Expr::Ident { .. } => Seq::empty(),
        Expr::Cast { expr, .. } => expr_errors(*expr),
        Expr::Bin { span, op, left, right } => expr_errors(*left) + expr_errors(*right)
            + bin_check_errors(span, op, *left, *right),
    }
}

/// The errors appended by walking one statement.
pub open spec fn stmt_errors(s: Stmt) -> Seq<Error> {
    match s {
        Stmt::Expr { expr, .. } => expr_errors(expr),
        Stmt::Empty { .. } => Seq::empty(),
    }
}

/// The errors appended by walking the first `n` statements of a module.
pub open spec fn module_errors_upto(m: Module, n: int) -> Seq<Error>
    decreases n,
{
    if n <= 0 {
        Seq::empty()
    } else {
        module_errors_upto(m, n - 1) + stmt_errors(m.body@[n - 1])
    }
}

/// The diagnostics one full pass over a module yields, in detection
/// order: a function of the tree alone.
pub open spec fn module_errors(m: Module) -> Seq<Error> {
    module_errors_upto(m, m.body@.len() as int)
}

/// The analysis pass: a single depth-first walk that owns the
/// append-only diagnostic accumulator.
pub struct Analyzer {
    /// Accumulated diagnostics, in detection order. Extended, never
    /// replaced or removed from, as the walk proceeds.
    pub errors: Vec<Error>,
}

impl Analyzer {
    /// A fresh pass with an empty accumulator.
    pub fn new() -> (a: Analyzer)
        ensures
            a.errors@ == Seq::<Error>::empty(),
    {
        Analyzer { errors: Vec::new() }
    }

    /// Runs the strict-equality check for one binary expression whose
    /// operands have already been walked: infers both operand types
    /// independently, accumulating failures rather than aborting, and
    /// appends the overlap diagnostic exactly when both types were
    /// determined and cannot overlap.
    fn check_bin(&mut self, span: Span, op: BinaryOp, left: &Expr, right: &Expr)
        ensures
            final (self).errors@ == old(self).errors@ + bin_check_errors(span, op, *left, *right),
    {
        if !op.is_strict_eq() {
            return;
        }
        let lt = match type_of(left) {
            Ok(t) => Some(t),
            Err(err) => {
                self.errors.push(err);
                None
            },
        };
        let rt = match type_of(right) {
            Ok(t) => Some(t),
            Err(err) => {
                self.errors.push(err);
                None
            },
        };
        if let (Some(lt), Some(rt)) = (lt, rt) {
            if !has_overlap(&lt, &rt) {
                let ls = if lt.span().is_dummy() {
                    left.span()
                } else {
                    lt.span()
                };
                let rs = if rt.span().is_dummy() {
                    right.span()
                } else {
                    rt.span()
                };
                self.errors.push(
                    Error::NoOverlap { span, value: op != BinaryOp::EqEqEq, left: ls, right: rs },
                );
            }
        }
        proof {
            assert(self.errors@ =~= old(self).errors@ + bin_check_errors(
                span,
                op,
                *left,
                *right,
            ));
        }
    }

    /// Walks one expression depth-first: children are fully analyzed
    /// before the node's own check runs.
    pub fn visit_expr(&mut self, e: &Expr)
        ensures
            final (self).errors@ == old(self).errors@ + expr_errors(*e),
        decreases *e,
    {
        match e {
            Expr::Lit { .. } => {},
            Expr::Ident { .. } => {},
            Expr::Cast { expr, .. } => {
                self.visit_expr(expr);
            },
            Expr::Bin { span, op, left, right } => {
                self.visit_expr(left);
                self.visit_expr(right);
                self.check_bin(*span, *op, left, right);
                proof {
                    assert(self.errors@ =~= old(self).errors@ + expr_errors(*e));
                }
            },
        }
    }

    /// Walks one statement.
    pub fn visit_stmt(&mut self, s: &Stmt)
        ensures
            final (self).errors@ == old(self).errors@ + stmt_errors(*s),
    {
        match s {
            Stmt::Expr { expr, .. } => {
                self.visit_expr(expr);
            },
            Stmt::Empty { .. } => {},
        }
    }

    /// Walks a whole module, statement by statement, in source order.
    pub fn visit_module(&mut self, m: &Module)
        ensures
            final (self).errors@ == old(self).errors@ + module_errors(*m),
    {
        let ghost orig = self.errors@;
        let n = m.body.len();
        let mut i: usize = 0;
        while i < n
            invariant
                0 <= i <= n,
                n == m.body@.len(),
                self.errors@ == orig + module_errors_upto(*m, i as int),
            decreases n - i,
        {
            self.visit_stmt(&m.body[i]);
            proof {
                assert(self.errors@ =~= orig + module_errors_upto(*m, i as int + 1));
            }
            i += 1;
        }
    }
}

/// One full checking pass: walks the module with a fresh accumulator and
/// hands back the diagnostics in detection order. The pass always
/// completes; every detected problem is a value in the result, never an
/// abort.
pub fn check_module(m: &Module) -> (errors: Vec<Error>)
    ensures
        errors@ == module_errors(*m),
{
    let mut analyzer = Analyzer::new();
    analyzer.visit_module(m);
    analyzer.errors
}

/// A strict-equality comparison of two literal expressions with unequal
/// literal values is always flagged: exactly one `NoOverlap` diagnostic,
/// whose `value` is `false` for `===` and `true` for `!==`, pointing at
/// the two operands.
pub proof fn lemma_unequal_literals_flagged(span: Span, op: BinaryOp, left: Expr, right: Expr)
    requires
        op.spec_is_strict_eq(),
        left is Lit,
        right is Lit,
        left->Lit_value@ != right->Lit_value@,
    ensures
        bin_check_errors(span, op, left, right) =~= seq![
            Error::NoOverlap {
                span,
                value: op is NotEqEq,
                left: left.spec_span(),
                right: right.spec_span(),
            },
        ],
{
    let lt = type_of_spec(left)->Ok_0;
    let rt = type_of_spec(right)->Ok_0;
    assert(!ty_eq(lt, rt));
    assert(!rule_hit(lt, rt));
    assert(!rule_hit(rt, lt));
}

/// A strict-equality comparison of two literal expressions with equal
/// literal values is never flagged.
pub proof fn lemma_equal_literals_not_flagged(span: Span, op: BinaryOp, left: Expr, right: Expr)
    requires
        left is Lit,
        right is Lit,
        left->Lit_value@ == right->Lit_value@,
    ensures
        bin_check_errors(span, op, left, right) =~= Seq::<Error>::empty(),
{
    if op.spec_is_strict_eq() {
        let lt = type_of_spec(left)->Ok_0;
        let rt = type_of_spec(right)->Ok_0;
        assert(rule_hit(lt, rt));
    }
}

/// A comparison whose operands infer to structurally equal types is never
/// flagged: structural equality short-circuits the heuristic rule.
pub proof fn lemma_equal_types_not_flagged(span: Span, op: BinaryOp, left: Expr, right: Expr)
    requires
        type_of_spec(left) matches Ok(lt) && type_of_spec(right) matches Ok(rt) && ty_eq(lt, rt),
    ensures
        bin_check_errors(span, op, left, right) =~= Seq::<Error>::empty(),
{
}

/// A comparison with a union type on either side is never flagged: the
/// union rule is conservative and never rules out overlap.
pub proof fn lemma_union_operand_not_flagged(span: Span, op: BinaryOp, left: Expr, right: Expr)
    requires
        type_of_spec(left) matches Ok(lt) && type_of_spec(right) matches Ok(rt) && (lt is Union
            || rt is Union),
    ensures
        bin_check_errors(span, op, left, right) =~= Seq::<Error>::empty(),
{
}

/// An inference failure on either operand suppresses the overlap
/// diagnostic for that comparison — a missing type is no evidence of
/// impossibility — while each failing operand's inference error is kept
/// in the appended diagnostics.
pub proof fn lemma_inference_failure_suppresses_diagnostic(
    span: Span,
    op: BinaryOp,
    left: Expr,
    right: Expr,
)
    requires
        op.spec_is_strict_eq(),
        type_of_spec(left) is Err || type_of_spec(right) is Err,
    ensures
        forall|i: int|
            0 <= i < bin_check_errors(span, op, left, right).len() ==> !(#[trigger] bin_check_errors(
                span,
                op,
                left,
                right,
            )[i] is NoOverlap),
        type_of_spec(left) matches Err(e) ==> bin_check_errors(span, op, left, right).contains(e),
        type_of_spec(right) matches Err(e) ==> bin_check_errors(span, op, left, right).contains(e),
{
    let errs = bin_check_errors(span, op, left, right);
    match type_of_spec(left) {
        Err(el) => {
            assert(errs[0] == el);
            assert(errs.contains(el));
        },
        _ => {},
    }
    match type_of_spec(right) {
        Err(er) => {
            if type_of_spec(left) is Err {
                assert(errs[1] == er);
            } else {
                assert(errs[0] == er);
            }
            assert(errs.contains(er));
        },
        _ => {},
    }
}

/// Determinism of the pass: the diagnostics are a function of the tree
/// alone, so two runs over the same unmodified tree yield identical,
/// order-equal lists.
pub proof fn lemma_pass_deterministic(m: Module, first: Seq<Error>, second: Seq<Error>)
    requires
        first == module_errors(m),
        second == module_errors(m),
    ensures
        first == second,
{
}

} // verus!
