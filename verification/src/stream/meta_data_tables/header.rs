//! The header of the stream of the metadata tables, and the layout that
//! it fixes together with the row counts behind it.
use vstd::prelude::*;
use super::mdtables::table::is_table_kind;
use super::mdtables::{is_offset_size, TableLayout, MAX_TABLES};
use crate::error::Error;
use crate::utils::{le_u32, le_u32_at, le_u64, le_u64_at};
use crate::Result;

verus! {

/// The bit of the heap sizes that makes string indices four bytes wide.
pub const STRINGS_MASK: u8 = 0x01;

/// The bit of the heap sizes that makes GUID indices four bytes wide.
pub const GUIDS_MASK: u8 = 0x02;

/// The bit of the heap sizes that makes blob indices four bytes wide.
pub const BLOBS_MASK: u8 = 0x04;

/// The bit of the heap sizes that announces four more bytes behind the
/// row counts.
pub const EXTRA_DATA_MASK: u8 = 0x40;

/// The size of the header of the stream.
pub const HEADER_SIZE: usize = 24;

/// The header of the stream of the metadata tables.
#[derive(Debug, Clone, Copy, PartialEq, Eq, Structural)]
pub struct MDTablesStruct {
    pub reserved_1: u32,
    pub major_version: u8,
    pub minor_version: u8,
    pub heap_offset_sizes: u8,
    pub reserved_2: u8,
    pub mask_valid: u64,
    pub mask_sorted: u64,
}

/// Whether bit `i` of `mask` is set.
pub open spec fn spec_bit(mask: u64, i: int) -> bool {
    (mask >> (i as u64)) & 1 == 1
}

/// The number of bits of `mask` that are set below bit `i`.
pub open spec fn spec_bits_below(mask: u64, i: int) -> int
    decreases i,
{
    if i <= 0 {
        0
    } else {
        spec_bits_below(mask, i - 1) + if spec_bit(mask, i - 1) {
            1int
        } else {
            0int
        }
    }
}

/// Whether bit `i` of `mask` is set.
pub fn bit(mask: u64, i: usize) -> (r: bool)
    requires
        i < 64,
    ensures
        r == spec_bit(mask, i as int),
{
    (mask >> (i as u64)) & 1 == 1
}

/// The size of a heap index: four bytes where the bit `bit` of the heap
/// sizes is set, two otherwise.
pub open spec fn spec_offset_size(heap_offset_sizes: u8, bit: u8) -> usize {
    if heap_offset_sizes & bit != 0 {
        4
    } else {
        2
    }
}

impl MDTablesStruct {
    /// The header that the first 24 bytes of the stream hold, all fields
    /// with the lowest byte first.
    pub open spec fn spec_parse(data: Seq<u8>) -> Result<MDTablesStruct> {
        if data.len() < HEADER_SIZE {
            Err(Error::NotEnoughData(HEADER_SIZE, data.len() as usize))
        } else {
            Ok(
                MDTablesStruct {
                    reserved_1: le_u32_at(data, 0) as u32,
                    major_version: data[4],
                    minor_version: data[5],
                    heap_offset_sizes: data[6],
                    reserved_2: data[7],
                    mask_valid: le_u64_at(data, 8) as u64,
                    mask_sorted: le_u64_at(data, 16) as u64,
                },
            )
        }
    }

    /// Reads the header from the start of the stream.
    pub fn parse(data: &[u8]) -> (r: Result<MDTablesStruct>)
        ensures
            r == MDTablesStruct::spec_parse(data@),
    {
        if data.len() < HEADER_SIZE {
            return Err(Error::NotEnoughData(HEADER_SIZE, data.len()));
        }
        Ok(
            MDTablesStruct {
                reserved_1: le_u32(vstd::slice::slice_subrange(data, 0, 4)),
                major_version: data[4],
                minor_version: data[5],
                heap_offset_sizes: data[6],
                reserved_2: data[7],
                mask_valid: le_u64(vstd::slice::slice_subrange(data, 8, 16)),
                mask_sorted: le_u64(vstd::slice::slice_subrange(data, 16, 24)),
            },
        )
    }

    /// The size of an index into the string heap.
    pub fn strings_offset_size(&self) -> (r: usize)
        ensures
            r == spec_offset_size(self.heap_offset_sizes, STRINGS_MASK),
            is_offset_size(r),
    {
        if self.heap_offset_sizes & STRINGS_MASK != 0 {
            4
        } else {
            2
        }
    }

    /// The size of an index into the GUID heap.
    pub fn guids_offset_size(&self) -> (r: usize)
        ensures
            r == spec_offset_size(self.heap_offset_sizes, GUIDS_MASK),
            is_offset_size(r),
    {
        if self.heap_offset_sizes & GUIDS_MASK != 0 {
            4
        } else {
            2
        }
    }

    /// The size of an index into the blob heap.
    pub fn blobs_offset_size(&self) -> (r: usize)
        ensures
            r == spec_offset_size(self.heap_offset_sizes, BLOBS_MASK),
            is_offset_size(r),
    {
        if self.heap_offset_sizes & BLOBS_MASK != 0 {
            4
        } else {
            2
        }
    }

    /// The number of bytes between the header and the tables: four for
    /// each table of the valid mask, and four more where the heap sizes
    /// announce them.
    pub open spec fn spec_counts_size(&self) -> int {
        4 * spec_bits_below(self.mask_valid, 64) + if self.heap_offset_sizes & EXTRA_DATA_MASK
            == EXTRA_DATA_MASK {
            4int
        } else {
            0int
        }
    }

    /// The row count of table `i`: the count that stands for it behind the
    /// header, where the valid mask has its bit, and 0 otherwise.
    pub open spec fn spec_row_count(&self, data: Seq<u8>, i: int) -> usize {
        if spec_bit(self.mask_valid, i) {
            le_u32_at(data, HEADER_SIZE + 4 * spec_bits_below(self.mask_valid, i)) as usize
        } else {
            0
        }
    }

    /// Whether table `i` is present: the valid mask has its bit, and
    /// there is a kind of table with this number.
    pub open spec fn spec_present(&self, i: int) -> bool {
        spec_bit(self.mask_valid, i) && is_table_kind(i as usize)
    }

    /// Whether `layout` is the layout that the header and the row counts
    /// behind it fix.
    pub open spec fn fixes(&self, data: Seq<u8>, layout: &TableLayout) -> bool {
        &&& layout.wf()
        &&& layout.str_offset_size == spec_offset_size(self.heap_offset_sizes, STRINGS_MASK)
        &&& layout.guids_offset_size == spec_offset_size(self.heap_offset_sizes, GUIDS_MASK)
        &&& layout.blobs_offset_size == spec_offset_size(self.heap_offset_sizes, BLOBS_MASK)
        &&& forall|i: int|
            0 <= i < MAX_TABLES ==> #[trigger] layout.tables_row_counts@[i] == self.spec_row_count(
                data,
                i,
            )
        &&& forall|i: int|
            0 <= i < MAX_TABLES ==> #[trigger] layout.tables_present@[i] == self.spec_present(i)
    }

    /// Reads the row counts behind the header and gives the layout that
    /// they and the header fix, and the place where the tables start.
    pub fn layout(&self, data: &[u8]) -> (r: Result<(TableLayout, usize)>)
        ensures
            match r {
                Ok((layout, start)) => {
                    &&& self.fixes(data@, &layout)
                    &&& start == HEADER_SIZE + self.spec_counts_size()
                    &&& start <= data@.len()
                },
                Err(e) => {
                    &&& data@.len() < HEADER_SIZE + self.spec_counts_size()
                    &&& e == Error::NotEnoughData(
                        (HEADER_SIZE + self.spec_counts_size()) as usize,
                        data@.len() as usize,
                    )
                },
            },
    {
        let mut valid: usize = 0;
        let mut i: usize = 0;
        while i < MAX_TABLES
            invariant
                i <= MAX_TABLES,
                valid == spec_bits_below(self.mask_valid, i as int),
                valid <= i,
            decreases MAX_TABLES - i,
        {
            if bit(self.mask_valid, i) {
                valid = valid + 1;
            }
            i = i + 1;
        }
        let extra: usize = if self.heap_offset_sizes & EXTRA_DATA_MASK == EXTRA_DATA_MASK {
            4
        } else {
            0
        };
        let start = HEADER_SIZE + 4 * valid + extra;
        if data.len() < start {
            return Err(Error::NotEnoughData(start, data.len()));
        }
        let mut counts: Vec<usize> = Vec::new();
        let mut present: Vec<bool> = Vec::new();
        let mut at: usize = HEADER_SIZE;
        let mut i: usize = 0;
        while i < MAX_TABLES
            invariant
                i <= MAX_TABLES,
                data@.len() <= usize::MAX,
                counts@.len() == i,
                present@.len() == i,
                at == HEADER_SIZE + 4 * spec_bits_below(self.mask_valid, i as int),
                valid == spec_bits_below(self.mask_valid, MAX_TABLES as int),
                HEADER_SIZE + 4 * valid <= data@.len(),
                forall|k: int| 0 <= k < i ==> #[trigger] counts@[k] == self.spec_row_count(data@, k),
                forall|k: int| 0 <= k < i ==> #[trigger] present@[k] == self.spec_present(k),
            decreases MAX_TABLES - i,
        {
            proof {
                lemma_bits_grow(self.mask_valid, i + 1, MAX_TABLES as int);
                assert(spec_bits_below(self.mask_valid, i + 1) == spec_bits_below(
                    self.mask_valid,
                    i as int,
                ) + if spec_bit(self.mask_valid, i as int) {
                    1int
                } else {
                    0int
                });
            }
            if bit(self.mask_valid, i) {
                let count = le_u32(vstd::slice::slice_subrange(data, at, at + 4));
                counts.push(count as usize);
                present.push(known_table(i));
                at = at + 4;
            } else {
                counts.push(0);
                present.push(false);
            }
            i = i + 1;
        }
        Ok(
            (
                TableLayout {
                    str_offset_size: self.strings_offset_size(),
                    guids_offset_size: self.guids_offset_size(),
                    blobs_offset_size: self.blobs_offset_size(),
                    tables_row_counts: counts,
                    tables_present: present,
                },
                start,
            ),
        )
    }
}

/// The number of set bits does not shrink with the number of bits
/// counted.
pub proof fn lemma_bits_grow(mask: u64, i: int, j: int)
    requires
        0 <= i <= j,
    ensures
        spec_bits_below(mask, i) <= spec_bits_below(mask, j),
    decreases j - i,
{
    if i < j {
        lemma_bits_grow(mask, i, j - 1);
    }
}

/// Whether a table number is that of a kind of table.
pub fn known_table(index: usize) -> (r: bool)
    ensures
        r == is_table_kind(index),
{
    index < 45 || index == 62 || index == 63
}

} // verus!
