use crate::ast::Expr;
use crate::errors::Error;
use crate::ty::{Ty, TyV};
use vstd::prelude::*;

verus! {

/// What the inference boundary returns for each expression shape: the
/// statically determined type, or the error describing why no type could
/// be determined. A literal expression has the singleton type of its
/// value; a type assertion has the written type; a name cannot be resolved
/// by this core; every remaining shape is unsupported.
pub open spec fn type_of_spec(e: Expr) -> Result<TyV, Error> {
    match e {
        Expr::Lit { span, value } => Ok(TyV::Lit { span, value: value@ }),
        Expr::Cast { ty, .. } => Ok(ty@),
        Expr::Ident { span, name } => Err(Error::Unresolved { span, name }),
        Expr::Bin { span, .. } => Err(Error::Unsupported { span }),
    }
}

/// The inference boundary: maps an expression to its statically inferred
/// type, or fails with an inference error. Total and free of side effects;
/// it may be called repeatedly over the read-only tree.
pub fn type_of(e: &Expr) -> (r: Result<Ty, Error>)
    ensures
        r matches Ok(t) ==> type_of_spec(*e) matches Ok(tv) && t@ == tv,
        r matches Err(err) ==> type_of_spec(*e) matches Err(se) && err == se,
{
    match e {
        Expr::Lit { span, value } => Ok(Ty::Lit { span: *span, value: value.clone() }),
        Expr::Cast { ty, .. } => Ok(ty.clone()),
        Expr::Ident { span, name } => Err(Error::Unresolved { span: *span, name: name.clone() }),
        Expr::Bin { span, .. } => Err(Error::Unsupported { span: *span }),
    }
}

} // verus!
