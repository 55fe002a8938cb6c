//! Metadata tokens.
use vstd::prelude::*;

verus! {

/// The bits of a token that hold the row identifier.
pub const RID_MASK: usize = 0x00FF_FFFF;

/// The largest row identifier.
pub const RID_MAX: usize = RID_MASK;

/// The number of bits below the table index of a token.
pub const TABLE_SHIFT: usize = 24;

/// A metadata token: a table index above a row identifier of 24 bits.
///
/// Row identifiers count from one; zero stands for no row.
#[derive(Debug, Clone, Copy, PartialEq, Eq, Structural)]
pub struct Token {
    pub value: usize,
}

impl Token {
    /// The token with the given bits.
    pub fn new(value: usize) -> (r: Self)
        ensures
            r.value == value,
    {
        Self { value }
    }

    /// The row identifier: the low 24 bits.
    pub fn rid(&self) -> (r: usize)
        ensures
            r == self.value % 0x100_0000,
            r == self.value & RID_MASK,
    {
        let v = self.value;
        assert(v & 0x00FF_FFFF == v % 0x100_0000) by (bit_vector);
        self.value & RID_MASK
    }

    /// The table index: the bits above the row identifier.
    pub fn table(&self) -> (r: usize)
        ensures
            r == self.value / 0x100_0000,
            r == self.value >> TABLE_SHIFT,
    {
        let v = self.value;
        assert(v >> 24usize == v / 0x100_0000) by (bit_vector);
        self.value >> TABLE_SHIFT
    }
}

} // verus!
