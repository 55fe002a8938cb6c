//! The flags of a method header.
use vstd::prelude::*;
use crate::cil::cil::enums::CorILMethod;

verus! {

/// The flags word of a method header.
///
/// For a tiny header it holds the low three bits of the header byte, for a
/// fat one the first sixteen bits of the header.
#[derive(Debug, Clone, Copy, PartialEq, Eq, Structural)]
pub struct CilMethodBodyFlags {
    pub flags: usize,
}

impl CilMethodBodyFlags {
    /// The format bits of the flags.
    pub open spec fn format(&self) -> usize {
        self.flags & CorILMethod::FORMAT_MASK
    }

    pub open spec fn spec_small_format(&self) -> bool {
        self.format() == CorILMethod::SMALL_FORMAT
    }

    pub open spec fn spec_tiny_format(&self) -> bool {
        self.format() == CorILMethod::TINY_FORMAT
    }

    pub open spec fn spec_fat_format(&self) -> bool {
        self.format() == CorILMethod::FAT_FORMAT
    }

    pub open spec fn spec_tiny_format_1(&self) -> bool {
        self.format() == CorILMethod::TINY_FORMAT_1
    }

    pub open spec fn spec_more_sects(&self) -> bool {
        self.flags & CorILMethod::MORE_SECTS != 0
    }

    pub open spec fn spec_init_locals(&self) -> bool {
        self.flags & CorILMethod::INIT_LOCALS != 0
    }

    pub open spec fn spec_compressed_il(&self) -> bool {
        self.flags & CorILMethod::COMPRESSED_IL != 0
    }

    /// Whether the two lowest bits are `10`, whatever the bit above them.
    pub open spec fn spec_is_tiny(&self) -> bool {
        self.flags & CorILMethod::KIND_MASK == CorILMethod::TINY_FORMAT
    }

    /// Whether the two lowest bits are `11`, whatever the bit above them.
    pub open spec fn spec_is_fat(&self) -> bool {
        self.flags & CorILMethod::KIND_MASK == CorILMethod::FAT_FORMAT
    }

    /// The flags with the given bits.
    pub fn new(value: usize) -> (r: Self)
        ensures
            r.flags == value,
    {
        Self { flags: value }
    }

    /// Whether the format bits are all clear.
    #[verifier::when_used_as_spec(spec_small_format)]
    pub fn small_format(&self) -> (r: bool)
        ensures
            r == self.spec_small_format(),
    {
        (self.flags & CorILMethod::FORMAT_MASK) == CorILMethod::SMALL_FORMAT
    }

    /// Whether the format bits are `010`.
    #[verifier::when_used_as_spec(spec_tiny_format)]
    pub fn tiny_format(&self) -> (r: bool)
        ensures
            r == self.spec_tiny_format(),
    {
        (self.flags & CorILMethod::FORMAT_MASK) == CorILMethod::TINY_FORMAT
    }

    /// Whether the format bits are `011`.
    #[verifier::when_used_as_spec(spec_fat_format)]
    pub fn fat_format(&self) -> (r: bool)
        ensures
            r == self.spec_fat_format(),
    {
        (self.flags & CorILMethod::FORMAT_MASK) == CorILMethod::FAT_FORMAT
    }

    /// Whether the format bits are `110`: a tiny header whose code size is odd.
    #[verifier::when_used_as_spec(spec_tiny_format_1)]
    pub fn tiny_format_1(&self) -> (r: bool)
        ensures
            r == self.spec_tiny_format_1(),
    {
        (self.flags & CorILMethod::FORMAT_MASK) == CorILMethod::TINY_FORMAT_1
    }

    /// Whether extra sections follow the code.
    #[verifier::when_used_as_spec(spec_more_sects)]
    pub fn more_sects(&self) -> (r: bool)
        ensures
            r == self.spec_more_sects(),
    {
        (self.flags & CorILMethod::MORE_SECTS) != 0
    }

    /// Whether the local variables are zeroed on entry.
    #[verifier::when_used_as_spec(spec_init_locals)]
    pub fn init_locals(&self) -> (r: bool)
        ensures
            r == self.spec_init_locals(),
    {
        (self.flags & CorILMethod::INIT_LOCALS) != 0
    }

    /// Whether the code is stored compressed.
    #[verifier::when_used_as_spec(spec_compressed_il)]
    pub fn compressed_il(&self) -> (r: bool)
        ensures
            r == self.spec_compressed_il(),
    {
        (self.flags & CorILMethod::COMPRESSED_IL) != 0
    }

    /// Whether the header is a tiny one: its two lowest bits are `10`. The
    /// third bit of a tiny header belongs to the size of the code.
    #[verifier::when_used_as_spec(spec_is_tiny)]
    pub fn is_tiny(&self) -> (r: bool)
        ensures
            r == self.spec_is_tiny(),
            r == (self.flags & 3 == 2),
            r == (self.spec_tiny_format() || self.spec_tiny_format_1()),
            r ==> !self.spec_is_fat(),
    {
        proof {
            lemma_kinds(self.flags);
        }
        (self.flags & CorILMethod::KIND_MASK) == CorILMethod::TINY_FORMAT
    }

    /// Whether the header is a fat one: its two lowest bits are `11`.
    #[verifier::when_used_as_spec(spec_is_fat)]
    pub fn is_fat(&self) -> (r: bool)
        ensures
            r == self.spec_is_fat(),
            r == (self.flags & 3 == 3),
            self.spec_fat_format() ==> r,
            r ==> !self.spec_is_tiny(),
    {
        proof {
            lemma_kinds(self.flags);
        }
        (self.flags & CorILMethod::KIND_MASK) == CorILMethod::FAT_FORMAT
    }
}

/// How the two lowest bits of a flags word relate to its three lowest.
pub proof fn lemma_kinds(flags: usize)
    ensures
        (flags & 3 == 2) == (flags & 7 == 2 || flags & 7 == 6),
        (flags & 3 == 3) == (flags & 7 == 3 || flags & 7 == 7),
{
    assert((flags & 3 == 2) == (flags & 7 == 2 || flags & 7 == 6)) by (bit_vector);
    assert((flags & 3 == 3) == (flags & 7 == 3 || flags & 7 == 7)) by (bit_vector);
}

} // verus!
