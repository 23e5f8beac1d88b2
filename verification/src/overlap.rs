use crate::ty::{eq_ignore_span, lemma_ty_eq_reflexive, lemma_ty_eq_symmetric, lit_value_eq, ty_eq,
    Ty, TyV};
use vstd::prelude::*;

verus! {

/// The one-directional strict-equality rule: whether, read in the order
/// `(a, b)`, the rule can establish that `a` may overlap `b`. A literal
/// against an unequal literal is the one case strong enough to deny
/// overlap; a literal against anything broader may always be a member of
/// it; a union is conservatively assumed to overlap anything, without
/// inspecting its members; every other pairing yields no information.
pub open spec fn rule_hit(a: TyV, b: TyV) -> bool {
    match a {
        TyV::Lit { value: va, .. } => match b {
            TyV::Lit { value: vb, .. } => va == vb,
            _ => true,
        },
        TyV::Union { .. } => true,
        TyV::Other { .. } => false,
    }
}

/// The overlap decision for a strict-equality comparison: structurally
/// equal types always overlap; otherwise the one-directional rule is
/// consulted in both argument orders, so that its silence in one order
/// never decides the relation alone.
pub open spec fn overlap(l: TyV, r: TyV) -> bool {
    ty_eq(l, r) || rule_hit(l, r) || rule_hit(r, l)
}

/// Every type overlaps itself.
pub proof fn lemma_overlap_reflexive(t: TyV)
    ensures
        overlap(t, t),
{
    lemma_ty_eq_reflexive(t);
}

/// The overlap decision does not depend on the order of its arguments.
pub proof fn lemma_overlap_symmetric(a: TyV, b: TyV)
    ensures
        overlap(a, b) == overlap(b, a),
{
    lemma_ty_eq_symmetric(a, b);
}

/// A reusable, symmetric relation-testing primitive: two types and a
/// one-directional rule, tried in both argument orders.
pub struct Comparator<'a> {
    pub left: &'a Ty,
    pub right: &'a Ty,
}

impl<'a> Comparator<'a> {
    /// Evaluates `op` on `(left, right)`; if that yields no information,
    /// on `(right, left)`. The result is present exactly when one of the
    /// evaluations made was present, so an asymmetric rule is usable
    /// symmetrically without duplicating its logic.
    pub fn take<F: Fn(&'a Ty, &'a Ty) -> Option<()>>(&self, op: F) -> (r: Option<()>)
        requires
            call_requires(op, (self.left, self.right)),
            call_requires(op, (self.right, self.left)),
        ensures
            r is Some ==> (exists|o: Option<()>|
                #[trigger] call_ensures(op, (self.left, self.right), o) && o is Some) || (
            exists|o: Option<()>|
                #[trigger] call_ensures(op, (self.right, self.left), o) && o is Some),
            r is None ==> call_ensures(op, (self.left, self.right), None) && call_ensures(
                op,
                (self.right, self.left),
                None,
            ),
    {
        match op(self.left, self.right) {
            Some(u) => Some(u),
            None => op(self.right, self.left),
        }
    }
}

/// The strict-equality rule of `rule_hit`, as executable code: a present
/// result means the first type may overlap the second, an absent result
/// means the rule has no information in this order.
pub fn strict_eq_rule(a: &Ty, b: &Ty) -> (r: Option<()>)
    ensures
        (r is Some) == rule_hit(a@, b@),
{
    match a {
        Ty::Lit { value: va, .. } => match b {
            Ty::Lit { value: vb, .. } => if lit_value_eq(va, vb) {
                Some(())
            } else {
                None
            },
            _ => Some(()),
        },
        Ty::Union { .. } => Some(()),
        Ty::Other { .. } => None,
    }
}

/// Whether a strict-equality comparison of values of these two types
/// could ever be true: structural equality first, then the rule in both
/// orders.
pub fn has_overlap(l: &Ty, r: &Ty) -> (res: bool)
    ensures
        res == overlap(l@, r@),
{
    if eq_ignore_span(l, r) {
        return true;
    }
    let c = Comparator { left: l, right: r };
    match c.take(strict_eq_rule) {
        Some(()) => true,
        None => false,
    }
}

} // verus!
