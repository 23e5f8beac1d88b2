use vstd::prelude::*;

verus! {

/// A source location: a half-open byte range into the checked file.
///
/// Spans are carried by syntax-tree nodes and, opportunistically, by type
/// values for diagnostic pointing. They never take part in structural
/// equality of types. The range `0..0` is the dummy span: the mark of a
/// value that carries no real source location.
#[derive(Clone, Copy, PartialEq, Eq, Structural, Debug)]
pub struct Span {
    pub lo: u32,
    pub hi: u32,
}

impl Span {
    /// A span that carries no real source location.
    pub open spec fn spec_is_dummy(&self) -> bool {
        self.lo == 0 && self.hi == 0
    }

    #[verifier::when_used_as_spec(spec_is_dummy)]
    pub fn is_dummy(&self) -> (r: bool)
        ensures
            r == self.spec_is_dummy(),
    {
        self.lo == 0 && self.hi == 0
    }
}

} // verus!
