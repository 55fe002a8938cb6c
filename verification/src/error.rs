//! The error taxonomy of the crate.
use vstd::prelude::*;

verus! {

/// Everything that can go wrong while reading an image.
///
/// Payloads are plain values, so that contracts can name the exact error.
#[derive(Debug, Clone, PartialEq, Eq)]
pub enum Error {
    /// The container could not be parsed as an executable at all.
    ParseError,
    /// The container is not a managed portable executable; the payload names what is missing.
    UnsupportedBinaryFormat(&'static str),
    /// A relative virtual address lies outside every section.
    UnresolvedRvaError(u32),
    /// A name is not valid UTF-8.
    Utf8Error,
    /// A user string is not valid UTF-16.
    Utf16Error,
    /// A stream directory entry carries a name no parser is registered for.
    UndefinedStream,
    /// A bit of the valid mask names a table index that no table kind has.
    UndefinedMetaDataTableIndex(u32),
    /// No table of that name is present.
    UndefinedMetaDataTableName(&'static str),
    /// A read needs more bytes than are left: `(needed, available)`.
    NotEnoughData(usize, usize),
    /// A row index is not below the row count: `(index, row count)`.
    RowIndexOutOfBound(usize, usize),
    /// An integer field has a width other than 1, 2, 4 or 8 bytes.
    CantReadUsizeFromBytesLen(usize),
    /// A coded index points to an unused slot or to a table that is absent; the payload names the table.
    CodedIndexWithUndefinedTable(&'static str),
    /// A row refers to a heap that the image does not have.
    RefToUndefinedHeap(&'static str),
    /// A string was requested from a stream that is no string heap.
    TryReadStringFromNotStringHeap,
    /// A blob was requested from a stream that is no blob heap.
    TryReadBlobFromNotBlobHeap,
    /// A GUID was requested from a stream that is no GUID heap.
    TryReadGuidFromNotGuidHeap,
    /// The first byte of a compressed integer has the reserved prefix `111`.
    ReadCompressedUsize,
    /// A string heap index is past the heap: `(index, heap length)`.
    StringHeapReadOutOfBound(usize, usize),
    /// A blob does not lie within the heap: `(end of the blob, heap length)`.
    BlobHeapReadOutOfBound(usize, usize),
    /// A user string does not lie within the heap: `(index, heap length)`.
    UserStringHeapReadOutOfBound(usize, usize),
    /// A GUID slot does not lie within the heap: `(index, heap length)`.
    GuidHeapReadOutOfBound(usize, usize),
    /// A field has the wrong size: `(found, expected)`.
    FormatError(usize, usize),
    /// A GUID slot does not hold sixteen bytes.
    ParseGuidError,
    /// An opcode asks for an operand of a kind that has no reading.
    UndefinedOperandType(crate::cil::cil::enums::OperandType),
    /// An operand cannot be converted to the requested kind.
    ConversionError(&'static str),
    /// An operand carries no token value.
    OperandHasNoValue,
    /// The low bits of a method header select no known format; the payload holds them.
    MethodBodyFormatError(usize),
    /// The operation is not available for this table kind or image.
    NotImplementedError,
}

} // verus!
