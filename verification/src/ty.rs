use crate::span::Span;
use vstd::prelude::*;

verus! {

/// The value inhabiting a literal type: a specific string, number, or
/// boolean. A numeric literal is carried as the bit pattern of its value,
/// so that equality of literal values is plain equality of the fields.
#[derive(Debug)]
pub enum LitValue {
    Str(String),
    Num(u64),
    Bool(bool),
}

/// Mathematical model of a literal value.
pub enum LitV {
    Str(Seq<char>),
    Num(u64),
    Bool(bool),
}

impl View for LitValue {
    type V = LitV;

    open spec fn view(&self) -> LitV {
        match self {
            LitValue::Str(s) => LitV::Str(s@),
            LitValue::Num(n) => LitV::Num(*n),
            LitValue::Bool(b) => LitV::Bool(*b),
        }
    }
}

/// A statically known type shape. `Lit` is a singleton type inhabited by
/// exactly one literal value; `Union` is satisfied by any of its members,
/// whose stored order is preserved for diagnostic stability; `Other` stands
/// for every remaining shape, opaque to the overlap analysis beyond
/// structural equality of its payload code.
///
/// A `Ty` is immutable once constructed; its span is diagnostic metadata
/// and takes no part in structural equality.
#[derive(Debug)]
pub enum Ty {
    Lit { span: Span, value: LitValue },
    Union { span: Span, members: Vec<Ty> },
    Other { span: Span, code: u64 },
}

/// Mathematical model of a type shape.
pub enum TyV {
    Lit { span: Span, value: LitV },
    Union { span: Span, members: Seq<TyV> },
    Other { span: Span, code: u64 },
}

impl Ty {
    /// The mathematical model of this type: the same shape over `Seq`.
    pub open spec fn model(self) -> TyV
        decreases self,
    {
        match self {
            Ty::Lit { span, value } => TyV::Lit { span, value: value@ },
            Ty::Union { span, members } => TyV::Union {
                span,
                members: Seq::new(
                    members@.len(),
                    // the range test keeps the recursion well-founded; an
                    // out-of-range index never arises from Seq::new
                    |i: int|
                        if 0 <= i < members@.len() {
                            members@[i].model()
                        } else {
                            TyV::Other { span: Span { lo: 0, hi: 0 }, code: 0 }
                        },
                ),
            },
            Ty::Other { span, code } => TyV::Other { span, code },
        }
    }
}

impl View for Ty {
    type V = TyV;

    open spec fn view(&self) -> TyV {
        self.model()
    }
}

impl Ty {
    /// The source location this type carries.
    pub fn span(&self) -> (s: Span)
        ensures
            s == self@.span_of(),
    {
        match self {
            Ty::Lit { span, .. } => *span,
            Ty::Union { span, .. } => *span,
            Ty::Other { span, .. } => *span,
        }
    }
}

impl TyV {
    /// The source location this type value carries.
    pub open spec fn span_of(self) -> Span {
        match self {
            TyV::Lit { span, .. } => span,
            TyV::Union { span, .. } => span,
            TyV::Other { span, .. } => span,
        }
    }
}

/// Structural equality of two type shapes, disregarding spans: literal
/// types are equal exactly when their literal values are, unions exactly
/// when their members are pairwise equal in stored order, and opaque
/// shapes exactly when their payload codes are. Total over all types.
pub open spec fn ty_eq(a: TyV, b: TyV) -> bool
    decreases a,
{
    match (a, b) {
        (TyV::Lit { value: va, .. }, TyV::Lit { value: vb, .. }) => va == vb,
        (TyV::Union { members: ma, .. }, TyV::Union { members: mb, .. }) => {
            &&& ma.len() == mb.len()
            &&& forall|i: int| 0 <= i < ma.len() ==> ty_eq(#[trigger] ma[i], mb[i])
        },
        (TyV::Other { code: ca, .. }, TyV::Other { code: cb, .. }) => ca == cb,
        _ => false,
    }
}

/// Structural equality ignoring spans is reflexive.
pub proof fn lemma_ty_eq_reflexive(a: TyV)
    ensures
        ty_eq(a, a),
    decreases a,
{
    match a {
        TyV::Union { members, .. } => {
            assert forall|i: int| 0 <= i < members.len() implies ty_eq(
                #[trigger] members[i],
                members[i],
            ) by {
                lemma_ty_eq_reflexive(members[i]);
            }
        },
        _ => {},
    }
}

/// Structural equality ignoring spans is symmetric.
pub proof fn lemma_ty_eq_symmetric(a: TyV, b: TyV)
    ensures
        ty_eq(a, b) == ty_eq(b, a),
    decreases a,
{
    match (a, b) {
        (TyV::Union { members: ma, .. }, TyV::Union { members: mb, .. }) => {
            if ma.len() == mb.len() {
                assert forall|i: int| 0 <= i < mb.len() implies ty_eq(
                    #[trigger] mb[i],
                    ma[i],
                ) == ty_eq(ma[i], mb[i]) by {
                    lemma_ty_eq_symmetric(ma[i], mb[i]);
                }
            }
        },
        _ => {},
    }
}

/// Whether two literal values are equal.
pub fn lit_value_eq(a: &LitValue, b: &LitValue) -> (r: bool)
    ensures
        r == (a@ == b@),
{
    match (a, b) {
        (LitValue::Str(sa), LitValue::Str(sb)) => *sa == *sb,
        (LitValue::Num(na), LitValue::Num(nb)) => *na == *nb,
        (LitValue::Bool(ba), LitValue::Bool(bb)) => *ba == *bb,
        _ => false,
    }
}

/// Whether two types are structurally equal, disregarding their spans.
pub fn eq_ignore_span(a: &Ty, b: &Ty) -> (r: bool)
    ensures
        r == ty_eq(a@, b@),
    decreases *a,
{
    match (a, b) {
        (Ty::Lit { value: va, .. }, Ty::Lit { value: vb, .. }) => lit_value_eq(va, vb),
        (Ty::Union { members: ma, .. }, Ty::Union { members: mb, .. }) => {
            if ma.len() != mb.len() {
                return false;
            }
            let n = ma.len();
            let mut i: usize = 0;
            while i < n
                invariant
                    0 <= i <= n,
                    n == ma@.len(),
                    n == mb@.len(),
                    *a matches Ty::Union { members: mav, .. } && mav == *ma,
                    *b matches Ty::Union { members: mbv, .. } && mbv == *mb,
                    forall|j: int| 0 <= j < i ==> ty_eq(#[trigger] ma@[j]@, mb@[j]@),
                decreases n - i,
            {
                proof {
                    assert(decreases_to!(*a => (*a)->Union_members));
                    assert(decreases_to!((*a)->Union_members => (*a)->Union_members@[i as int]));
                    assert((*a)->Union_members@[i as int] == ma@[i as int]);
                }
                if !eq_ignore_span(&ma[i], &mb[i]) {
                    proof {
                        assert(a@->Union_members[i as int] == ma@[i as int]@);
                        assert(b@->Union_members[i as int] == mb@[i as int]@);
                    }
                    return false;
                }
                i += 1;
            }
            proof {
                assert forall|j: int| 0 <= j < n implies ty_eq(
                    #[trigger] a@->Union_members[j],
                    b@->Union_members[j],
                ) by {
                    assert(a@->Union_members[j] == ma@[j]@);
                    assert(b@->Union_members[j] == mb@[j]@);
                }
            }
            true
        },
        (Ty::Other { code: ca, .. }, Ty::Other { code: cb, .. }) => *ca == *cb,
        _ => false,
    }
}

impl Clone for LitValue {
    /// A clone carries the same literal value.
    fn clone(&self) -> (r: LitValue)
        ensures
            r@ == self@,
    {
        match self {
            LitValue::Str(s) => LitValue::Str(s.clone()),
            LitValue::Num(n) => LitValue::Num(*n),
            LitValue::Bool(b) => LitValue::Bool(*b),
        }
    }
}

impl Clone for Ty {
    /// A clone has the same model: the same shape, spans included.
    fn clone(&self) -> (r: Ty)
        ensures
            r@ == self@,
        decreases *self,
    {
        match self {
            Ty::Lit { span, value } => Ty::Lit { span: *span, value: value.clone() },
            Ty::Union { span, members } => {
                let n = members.len();
                let mut cloned_members: Vec<Ty> = Vec::new();
                let mut i: usize = 0;
                while i < n
                    invariant
                        0 <= i <= n,
                        n == members@.len(),
                        *self matches Ty::Union { members: mv, .. } && mv == *members,
                        cloned_members@.len() == i,
                        forall|j: int| 0 <= j < i ==> #[trigger] cloned_members@[j]@ == members@[j]@,
                    decreases n - i,
                {
                    proof {
                        assert(decreases_to!(*self => (*self)->Union_members));
                        assert(decreases_to!(
                            (*self)->Union_members => (*self)->Union_members@[i as int]
                        ));
                        assert((*self)->Union_members@[i as int] == members@[i as int]);
                    }
                    cloned_members.push(members[i].clone());
                    i += 1;
                }
                let r = Ty::Union { span: *span, members: cloned_members };
                proof {
                    assert forall|j: int| 0 <= j < members@.len() implies r@->Union_members[j]
                        == self@->Union_members[j] by {
                        assert(r@->Union_members[j] == cloned_members@[j]@);
                        assert(self@->Union_members[j] == members@[j]@);
                    }
                    assert(r@->Union_members =~= self@->Union_members);
                }
                r
            },
            Ty::Other { span, code } => Ty::Other { span: *span, code: *code },
        }
    }
}

} // verus!
