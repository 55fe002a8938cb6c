//! Method arguments.
use vstd::prelude::*;

verus! {

/// An argument of a method, by its position.
#[derive(Debug, Clone, Copy, PartialEq, Eq, Structural)]
pub struct Argument {
    index: usize,
}

impl Argument {
    /// The position of the argument.
    pub closed spec fn spec_index(&self) -> usize {
        self.index
    }

    /// The argument at position `index`.
    pub closed spec fn spec_new(index: usize) -> Argument {
        Argument { index }
    }

    /// The argument at position `index`.
    pub fn new(index: usize) -> (r: Self)
        ensures
            r == Self::spec_new(index),
            r.spec_index() == index,
    {
        Self { index }
    }

    /// The position of the argument.
    #[verifier::when_used_as_spec(spec_index)]
    pub fn index(&self) -> (r: usize)
        ensures
            r == self.spec_index(),
    {
        self.index
    }
}

} // verus!
