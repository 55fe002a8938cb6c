//! Local variables.
use vstd::prelude::*;

verus! {

/// A local variable of a method, by its position.
#[derive(Debug, Clone, Copy, PartialEq, Eq, Structural)]
pub struct Local {
    index: usize,
}

impl Local {
    /// The position of the variable.
    pub closed spec fn spec_index(&self) -> usize {
        self.index
    }

    /// The variable at position `index`.
    pub closed spec fn spec_new(index: usize) -> Local {
        Local { index }
    }

    /// The variable at position `index`.
    pub fn new(index: usize) -> (r: Self)
        ensures
            r == Self::spec_new(index),
            r.spec_index() == index,
    {
        Self { index }
    }

    /// The position of the variable.
    #[verifier::when_used_as_spec(spec_index)]
    pub fn index(&self) -> (r: usize)
        ensures
            r == self.spec_index(),
    {
        self.index
    }
}

} // verus!
