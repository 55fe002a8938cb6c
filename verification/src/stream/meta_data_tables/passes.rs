//! The three passes over the tables of an image: the tables are made for
//! the layout, their rows get their bytes, and the fields of the rows are
//! read from them.
use vstd::prelude::*;
use super::header::{bit, spec_bit};
use super::mdtables::table::{is_table_kind, table_was_read};
use super::mdtables::{Heaps, MetaDataTable, TableLayout, MAX_TABLES};
use crate::cil::cil::function::reader::available;
use crate::error::Error;
use crate::utils::{copy_range, saturating_product, spec_saturating_product};
use crate::Result;

verus! {

/// The offset in the stream at which the bytes of table `i` of `tables`
/// start, where the first starts at `start`: each table takes its row
/// count times its row size, and the next follows at once.
pub open spec fn spec_table_start(tables: Seq<MetaDataTable>, start: int, i: int) -> int
    decreases i,
{
    if i <= 0 {
        start
    } else {
        spec_table_start(tables, start, i - 1) + tables[i - 1].num_rows * tables[i - 1].row_size
    }
}

/// The start of a table depends on the sizes of the tables before it
/// alone.
pub proof fn lemma_table_start_same(
    tables: Seq<MetaDataTable>,
    others: Seq<MetaDataTable>,
    start: int,
    i: int,
)
    requires
        0 <= i <= tables.len(),
        i <= others.len(),
        forall|a: int|
            0 <= a < i ==> (#[trigger] tables[a]).num_rows == others[a].num_rows && tables[a].row_size
                == others[a].row_size,
    ensures
        spec_table_start(tables, start, i) == spec_table_start(others, start, i),
    decreases i,
{
    if i > 0 {
        lemma_table_start_same(tables, others, start, i - 1);
    }
}

/// Whether the tables are those of the layout: one for each table that is
/// present, in the order of the numbers, with the row count of the layout
/// and with rows made for the index sizes and row counts of the layout.
pub open spec fn tables_of(tables: Seq<MetaDataTable>, layout: &TableLayout, mask_sorted: u64) -> bool {
    &&& forall|a: int, b: int|
        0 <= a < b < tables.len() ==> (#[trigger] tables[a]).number < (#[trigger] tables[b]).number
    &&& forall|a: int|
        0 <= a < tables.len() ==> {
            &&& (#[trigger] tables[a]).wf()
            &&& tables[a].number < MAX_TABLES
            &&& layout.tables_present@[tables[a].number as int]
            &&& tables[a].num_rows == layout.tables_row_counts@[tables[a].number as int]
            &&& tables[a].is_sorted == spec_bit(mask_sorted, tables[a].number as int)
            &&& tables[a].num_rows > 0 ==> tables[a].table.spec_sizes() == Some(layout.sizes())
        }
    &&& forall|k: int|
        0 <= k < MAX_TABLES && #[trigger] layout.tables_present@[k] ==> exists|a: int|
            0 <= a < tables.len() && (#[trigger] tables[a]).number == k
}

/// The address of a table whose bytes start at `at` in a stream at the
/// address `rva`: the sum of both for a table that has bytes, and 0 for a
/// table without.
pub open spec fn spec_table_rva(table: MetaDataTable, rva: u32, at: int) -> u32 {
    if table.row_size > 0 && table.num_rows > 0 {
        (rva + at) as u32
    } else {
        0
    }
}

/// Whether the rows of table `a` hold the bytes of the stream `data`
/// from `at` on.
pub open spec fn table_holds(table: MetaDataTable, data: Seq<u8>, at: int) -> bool {
    table.row_size > 0 ==> forall|i: int|
        0 <= i < table.num_rows ==> #[trigger] table.table.spec_row_data(i) == data.subrange(
            at + i * table.row_size,
            at + (i + 1) * table.row_size,
        )
}

/// Whether the rows of a table hold the bytes of the stream `data` at
/// the address `rva` from `at` on, and the table knows its address.
pub open spec fn table_placed(table: MetaDataTable, data: Seq<u8>, at: int, rva: u32) -> bool {
    &&& table_holds(table, data, at)
    &&& table.rva == spec_table_rva(table, rva, at)
}

/// Whether the rows of the tables hold the bytes of the stream `data` at
/// the address `rva`, the first table from `start` on and each next one
/// behind the one before, and the tables know their addresses.
pub open spec fn tables_hold(tables: Seq<MetaDataTable>, data: Seq<u8>, start: int, rva: u32) -> bool {
    forall|a: int|
        0 <= a < tables.len() ==> #[trigger] table_placed(
            tables[a],
            data,
            spec_table_start(tables, start, a),
            rva,
        )
}

/// Whether the table `after` is the table `before` but for the bytes and
/// the fields of its rows: number, counts and the sizes that the rows were
/// made for are the same.
pub open spec fn same_shape(after: MetaDataTable, before: MetaDataTable) -> bool {
    &&& after.number == before.number
    &&& after.table.spec_sizes() == before.table.spec_sizes()
    &&& after.is_sorted == before.is_sorted
    &&& after.num_rows == before.num_rows
    &&& after.row_size == before.row_size
    &&& before.wf() ==> after.wf()
}

/// Whether the table `after` is the table `before` with the fields of its
/// rows read from their bytes, none of which is refused, and with the
/// lists of owned rows filled in.
pub open spec fn table_read(
    after: MetaDataTable,
    before: MetaDataTable,
    layout: &TableLayout,
    heaps: Heaps,
) -> bool {
    &&& same_shape(after, before)
    &&& after.rva == before.rva
    &&& before.table.spec_failure(layout, heaps) is None
    &&& table_was_read(after, before, layout, heaps)
}

/// Whether table `a` is the first whose bytes do not lie within the stream
/// `data`, and `e` the error that says so: the bytes it needs, and the
/// bytes there are from its start on.
pub open spec fn overruns(tables: Seq<MetaDataTable>, data: Seq<u8>, start: int, a: int, e: Error) -> bool {
    &&& spec_table_start(tables, start, a) <= data.len()
    &&& spec_table_start(tables, start, a + 1) > data.len()
    &&& e == Error::NotEnoughData(
        spec_saturating_product(tables[a].num_rows as int, tables[a].row_size as int),
        available(data, spec_table_start(tables, start, a)) as usize,
    )
}

/// Whether table `a` is the first with a row that is refused, and `e`
/// the error of that row.
pub open spec fn refuses(tables: Seq<MetaDataTable>, layout: &TableLayout, heaps: Heaps, a: int, e: Error) -> bool {
    &&& tables[a].table.spec_failure(layout, heaps) == Some(e)
    &&& forall|b: int| 0 <= b < a ==> (#[trigger] tables[b]).table.spec_failure(layout, heaps) is None
}

impl crate::DnPe {
    /// Makes the table of every number that is present in the layout, in
    /// the order of the numbers, with rows that hold no bytes yet.
    pub fn create_tables(&self, layout: &TableLayout, mask_sorted: u64) -> (r: Vec<MetaDataTable>)
        requires
            layout.wf(),
            forall|i: int|
                0 <= i < MAX_TABLES && #[trigger] layout.tables_present@[i] ==> is_table_kind(
                    i as usize,
                ),
        ensures
            tables_of(r@, layout, mask_sorted),
            forall|a: int| 0 <= a < r@.len() ==> (#[trigger] r@[a]).rva == 0,
    {
        let mut tables: Vec<MetaDataTable> = Vec::new();
        let mut i: usize = 0;
        while i < MAX_TABLES
            invariant
                i <= MAX_TABLES,
                layout.wf(),
                forall|k: int|
                    0 <= k < MAX_TABLES && #[trigger] layout.tables_present@[k] ==> is_table_kind(
                        k as usize,
                    ),
                forall|a: int, b: int|
                    0 <= a < b < tables@.len() ==> (#[trigger] tables@[a]).number < (
                    #[trigger] tables@[b]).number,
                forall|a: int|
                    0 <= a < tables@.len() ==> {
                        &&& (#[trigger] tables@[a]).wf()
                        &&& tables@[a].rva == 0
                        &&& tables@[a].number < i
                        &&& layout.tables_present@[tables@[a].number as int]
                        &&& tables@[a].num_rows == layout.tables_row_counts@[tables@[a].number as int]
                        &&& tables@[a].is_sorted == spec_bit(mask_sorted, tables@[a].number as int)
                        &&& tables@[a].num_rows > 0 ==> tables@[a].table.spec_sizes() == Some(
                            layout.sizes(),
                        )
                    },
                forall|k: int|
                    0 <= k < i && #[trigger] layout.tables_present@[k] ==> exists|a: int|
                        0 <= a < tables@.len() && (#[trigger] tables@[a]).number == k,
            decreases MAX_TABLES - i,
        {
            if layout.tables_present[i] {
                let is_sorted = bit(mask_sorted, i);
                match self.create_md_table(
                    &i,
                    &layout.tables_row_counts,
                    is_sorted,
                    layout.str_offset_size,
                    layout.guids_offset_size,
                    layout.blobs_offset_size,
                ) {
                    Ok(t) => {
                        let ghost before = tables@;
                        tables.push(t);
                        proof {
                            assert forall|k: int|
                                0 <= k < i + 1 && #[trigger] layout.tables_present@[k] implies exists|
                                a: int,
                            |
                                0 <= a < tables@.len() && (#[trigger] tables@[a]).number == k by {
                                if k < i {
                                    let a = choose|a: int|
                                        0 <= a < before.len() && (#[trigger] before[a]).number == k;
                                    assert(tables@[a].number == k);
                                } else {
                                    assert(tables@[tables@.len() - 1].number == k);
                                }
                            }
                        }
                    },
                    Err(_) => {},
                }
            }
            i = i + 1;
        }
        tables
    }

    /// Hands the rows of table `a` of `tables` their bytes from the stream
    /// `data`, from `at` on, and tells the table its address. The other
    /// tables stay as they are. A table without rows, or with rows of no
    /// bytes, stays as it is, too.
    pub fn place_table_at(
        &self,
        tables: &mut Vec<MetaDataTable>,
        a: usize,
        data: &[u8],
        at: usize,
        rva: u32,
    ) -> (r: Result<usize>)
        requires
            a < old(tables)@.len(),
            old(tables)@[a as int].wf(),
            old(tables)@[a as int].rva == 0,
            at <= data@.len(),
        ensures
            final(tables)@.len() == old(tables)@.len(),
            forall|b: int|
                0 <= b < old(tables)@.len() && b != a ==> final(tables)@[b] == old(tables)@[b],
            same_shape(final(tables)@[a as int], old(tables)@[a as int]),
            match r {
                Ok(size) => {
                    &&& size == old(tables)@[a as int].num_rows * old(tables)@[a as int].row_size
                    &&& at + size <= data@.len()
                    &&& table_holds(final(tables)@[a as int], data@, at as int)
                    &&& final(tables)@[a as int].rva == spec_table_rva(
                        final(tables)@[a as int],
                        rva,
                        at as int,
                    )
                },
                Err(e) => {
                    &&& at + old(tables)@[a as int].num_rows * old(tables)@[a as int].row_size
                        > data@.len()
                    &&& e == Error::NotEnoughData(
                        spec_saturating_product(
                            old(tables)@[a as int].num_rows as int,
                            old(tables)@[a as int].row_size as int,
                        ),
                        (data@.len() - at) as usize,
                    )
                },
            },
    {
        let left = data.len() - at;
        let row_size = tables[a].row_size;
        let num_rows = tables[a].num_rows;
        if row_size > 0 && num_rows > left / row_size {
            proof {
                assert(num_rows * row_size > left) by (nonlinear_arith)
                    requires
                        row_size > 0,
                        num_rows > (left as int) / (row_size as int),
                ;
            }
            return Err(Error::NotEnoughData(saturating_product(num_rows, row_size), left));
        }
        proof {
            assert(num_rows * row_size <= left) by (nonlinear_arith)
                requires
                    row_size == 0 || num_rows <= (left as int) / (row_size as int),
                    0 <= num_rows,
                    0 <= row_size,
                    0 <= left,
            ;
        }
        let size = num_rows * row_size;
        if row_size > 0 && num_rows > 0 {
            let table_data = copy_range(data, at, at + size);
            let placed = self.parse_rows(&mut tables[a], &rva, &table_data);
            assert(placed is Ok);
            tables[a].rva = #[verifier::truncate]
            ((rva as u128 + at as u128) as u32);
            proof {
                assert forall|i: int| 0 <= i < num_rows implies #[trigger] tables@[a as int].table.spec_row_data(
                    i,
                ) == data@.subrange(at + i * row_size, at + (i + 1) * row_size) by {
                    assert(0 <= i * row_size) by (nonlinear_arith)
                        requires
                            0 <= i,
                            0 <= row_size,
                    ;
                    assert((i + 1) * row_size <= num_rows * row_size) by (nonlinear_arith)
                        requires
                            i + 1 <= num_rows,
                            0 <= row_size,
                    ;
                    assert(i * row_size <= (i + 1) * row_size) by (nonlinear_arith)
                        requires
                            0 <= row_size,
                    ;
                    assert(table_data@.subrange(i * row_size, (i + 1) * row_size)
                        =~= data@.subrange(at + i * row_size, at + (i + 1) * row_size));
                }
            }
        }
        Ok(size)
    }

    /// Hands the rows of every table their bytes from the stream `data`:
    /// the first table from `start` on, each next one behind the one
    /// before. A table takes its row count times its row size.
    pub fn place_tables(
        &self,
        tables: &mut Vec<MetaDataTable>,
        data: &[u8],
        start: usize,
        rva: u32,
    ) -> (r: Result<()>)
        requires
            start <= data@.len(),
            forall|a: int|
                0 <= a < old(tables)@.len() ==> (#[trigger] old(tables)@[a]).wf() && old(
                    tables,
                )@[a].rva == 0,
        ensures
            final(tables)@.len() == old(tables)@.len(),
            forall|a: int|
                0 <= a < old(tables)@.len() ==> #[trigger] same_shape(
                    final(tables)@[a],
                    old(tables)@[a],
                ),
            match r {
                Ok(_) => {
                    &&& tables_hold(final(tables)@, data@, start as int, rva)
                    &&& spec_table_start(old(tables)@, start as int, old(tables)@.len() as int)
                        <= data@.len()
                },
                Err(e) => exists|a: int|
                    0 <= a < old(tables)@.len() && #[trigger] overruns(
                        old(tables)@,
                        data@,
                        start as int,
                        a,
                        e,
                    ),
            },
    {
        let n = tables.len();
        let _ = data.len();
        let mut curr: usize = start;
        let mut a: usize = 0;
        while a < n
            invariant
                a <= n,
                n == tables@.len(),
                n == old(tables)@.len(),
                start <= curr <= data@.len() <= usize::MAX,
                curr == spec_table_start(old(tables)@, start as int, a as int),
                forall|b: int|
                    0 <= b < n ==> (#[trigger] old(tables)@[b]).wf() && old(tables)@[b].rva == 0,
                forall|b: int| a <= b < n ==> tables@[b] == old(tables)@[b],
                forall|b: int| 0 <= b < n ==> #[trigger] same_shape(tables@[b], old(tables)@[b]),
                forall|b: int|
                    0 <= b < a ==> #[trigger] table_placed(
                        tables@[b],
                        data@,
                        spec_table_start(old(tables)@, start as int, b),
                        rva,
                    ),
            decreases n - a,
        {
            let ghost before = tables@;
            let size = match self.place_table_at(tables, a, data, curr, rva) {
                Ok(size) => size,
                Err(e) => {
                    proof {
                        assert(spec_table_start(old(tables)@, start as int, a + 1) == curr
                            + old(tables)@[a as int].num_rows * old(tables)@[a as int].row_size);
                        assert(overruns(old(tables)@, data@, start as int, a as int, e));
                        assert forall|b: int| 0 <= b < n implies #[trigger] same_shape(
                            tables@[b],
                            old(tables)@[b],
                        ) by {
                            if b != a {
                                assert(same_shape(before[b], old(tables)@[b]));
                            }
                        }
                    }
                    return Err(e);
                },
            };
            proof {
                assert forall|b: int| 0 <= b < n implies #[trigger] same_shape(
                    tables@[b],
                    old(tables)@[b],
                ) by {
                    if b != a {
                        assert(same_shape(before[b], old(tables)@[b]));
                    }
                }
                assert forall|b: int| 0 <= b < a + 1 implies #[trigger] table_placed(
                    tables@[b],
                    data@,
                    spec_table_start(old(tables)@, start as int, b),
                    rva,
                ) by {
                    if b < a {
                        assert(table_placed(
                            before[b],
                            data@,
                            spec_table_start(old(tables)@, start as int, b),
                            rva,
                        ));
                    }
                }
            }
            curr = curr + size;
            a = a + 1;
        }
        proof {
            assert forall|b: int| 0 <= b < n implies #[trigger] table_placed(
                tables@[b],
                data@,
                spec_table_start(tables@, start as int, b),
                rva,
            ) by {
                assert forall|c: int| 0 <= c < b implies (#[trigger] tables@[c]).num_rows == old(
                    tables,
                )@[c].num_rows && tables@[c].row_size == old(tables)@[c].row_size by {
                    assert(same_shape(tables@[c], old(tables)@[c]));
                }
                lemma_table_start_same(tables@, old(tables)@, start as int, b);
                assert(table_placed(
                    tables@[b],
                    data@,
                    spec_table_start(old(tables)@, start as int, b),
                    rva,
                ));
            }
        }
        Ok(())
    }

    /// Reads the fields of the rows of table `a` of `tables`, and fills in
    /// its lists of owned rows. The other tables stay as they are.
    pub fn read_table_at(
        &self,
        tables: &mut Vec<MetaDataTable>,
        a: usize,
        layout: &TableLayout,
        heaps: &Heaps,
    ) -> (r: Result<()>)
        requires
            layout.wf(),
            a < old(tables)@.len(),
        ensures
            final(tables)@.len() == old(tables)@.len(),
            forall|b: int|
                0 <= b < old(tables)@.len() && b != a ==> final(tables)@[b] == old(tables)@[b],
            match r {
                Ok(_) => table_read(final(tables)@[a as int], old(tables)@[a as int], layout, *heaps),
                Err(e) => old(tables)@[a as int].table.spec_failure(layout, *heaps) == Some(e),
            },
    {
        self.parse_table(&mut tables[a], layout, heaps)
    }

    /// Reads the fields of the rows of every table, in the order of the
    /// tables, and fills in the lists of owned rows. The first table with
    /// a row that is refused ends the reading.
    pub fn read_tables(&self, tables: &mut Vec<MetaDataTable>, layout: &TableLayout, heaps: &Heaps) -> (r:
        Result<()>)
        requires
            layout.wf(),
        ensures
            final(tables)@.len() == old(tables)@.len(),
            match r {
                Ok(_) => forall|a: int|
                    0 <= a < old(tables)@.len() ==> #[trigger] table_read(
                        final(tables)@[a],
                        old(tables)@[a],
                        layout,
                        *heaps,
                    ),
                Err(e) => exists|a: int|
                    0 <= a < old(tables)@.len() && #[trigger] refuses(
                        old(tables)@,
                        layout,
                        *heaps,
                        a,
                        e,
                    ),
            },
    {
        let n = tables.len();
        let mut a: usize = 0;
        while a < n
            invariant
                a <= n,
                layout.wf(),
                n == tables@.len(),
                n == old(tables)@.len(),
                forall|b: int| a <= b < n ==> tables@[b] == old(tables)@[b],
                forall|b: int|
                    0 <= b < a ==> #[trigger] table_read(
                        tables@[b],
                        old(tables)@[b],
                        layout,
                        *heaps,
                    ),
            decreases n - a,
        {
            match self.read_table_at(tables, a, layout, heaps) {
                Ok(_) => {},
                Err(e) => {
                    proof {
                        assert forall|b: int| 0 <= b < a implies (#[trigger] old(
                            tables,
                        )@[b]).table.spec_failure(layout, *heaps) is None by {
                            assert(table_read(tables@[b], old(tables)@[b], layout, *heaps));
                        }
                        assert(refuses(old(tables)@, layout, *heaps, a as int, e));
                    }
                    return Err(e);
                },
            }
            a = a + 1;
        }
        Ok(())
    }
}

} // verus!
