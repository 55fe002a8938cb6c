//! The stream of the metadata tables.
use vstd::prelude::*;
use crate::error::Error;
use crate::Result;
use header::{MDTablesStruct, HEADER_SIZE};
use mdtables::{Heaps, TableLayout, MAX_TABLES};
use passes::{overruns, refuses, same_shape, table_read, tables_hold, tables_of};

pub mod header;
pub mod mdtables;
pub mod passes;

verus! {

/// The stream of the metadata tables: its bytes, and the tables read from
/// them, in the order of their numbers.
#[derive(Debug, Clone)]
pub struct MetaDataTable {
    pub data: Vec<u8>,
    pub rva: u32,
    pub tables: Vec<mdtables::MetaDataTable>,
}

/// Whether `tables` are the tables that the stream `data` holds, with the
/// fields of their rows read with the help of `heaps`.
///
/// There is one table for each table that is present in the layout that
/// the header and the row counts fix, in the order of the numbers. The
/// bytes of the first table follow the row counts, and each next table
/// follows the one before, which takes its row count times its row size.
pub open spec fn tables_read(
    tables: Seq<mdtables::MetaDataTable>,
    data: Seq<u8>,
    rva: u32,
    heaps: Heaps,
) -> bool {
    &&& MDTablesStruct::spec_parse(data) matches Ok(header)
    &&& HEADER_SIZE + header.spec_counts_size() <= data.len()
    &&& exists|layout: TableLayout, placed: Seq<mdtables::MetaDataTable>|
        {
            &&& #[trigger] header.fixes(data, &layout)
            &&& tables_of(tables, &layout, header.mask_sorted)
            &&& placed.len() == tables.len()
            &&& #[trigger] tables_hold(placed, data, HEADER_SIZE + header.spec_counts_size(), rva)
            &&& forall|a: int|
                0 <= a < tables.len() ==> #[trigger] table_read(tables[a], placed[a], &layout, heaps)
        }
}

/// Whether `e` is the error that the reading of the tables of the stream
/// `data` ends with.
///
/// It is the error of the header or of the row counts, where they do not
/// lie within the stream. Or else that of the first table whose bytes do not
/// lie within the stream. Or else that of the first row that is refused, in
/// the order of the tables and their rows.
pub open spec fn tables_refused(data: Seq<u8>, rva: u32, heaps: Heaps, e: Error) -> bool {
    match MDTablesStruct::spec_parse(data) {
        Err(h) => e == h,
        Ok(header) => if data.len() < HEADER_SIZE + header.spec_counts_size() {
            e == Error::NotEnoughData(
                (HEADER_SIZE + header.spec_counts_size()) as usize,
                data.len() as usize,
            )
        } else {
            exists|layout: TableLayout, made: Seq<mdtables::MetaDataTable>|
                {
                    &&& #[trigger] header.fixes(data, &layout)
                    &&& #[trigger] tables_of(made, &layout, header.mask_sorted)
                    &&& tables_overrun(made, data, HEADER_SIZE + header.spec_counts_size(), e)
                        || tables_refuse(
                        made,
                        data,
                        HEADER_SIZE + header.spec_counts_size(),
                        rva,
                        &layout,
                        heaps,
                        e,
                    )
                }
        },
    }
}

/// Whether one of the tables `made` is the first whose bytes do not lie
/// within the stream, and `e` the error that says so.
pub open spec fn tables_overrun(
    made: Seq<mdtables::MetaDataTable>,
    data: Seq<u8>,
    start: int,
    e: Error,
) -> bool {
    exists|a: int| 0 <= a < made.len() && #[trigger] overruns(made, data, start, a, e)
}

/// Whether the tables `made` all lie within the stream, and one of them is
/// the first with a row that is refused, with the error `e`.
pub open spec fn tables_refuse(
    made: Seq<mdtables::MetaDataTable>,
    data: Seq<u8>,
    start: int,
    rva: u32,
    layout: &TableLayout,
    heaps: Heaps,
    e: Error,
) -> bool {
    exists|placed: Seq<mdtables::MetaDataTable>, a: int|
        {
            &&& placed.len() == made.len()
            &&& forall|b: int| 0 <= b < made.len() ==> #[trigger] same_shape(placed[b], made[b])
            &&& #[trigger] tables_hold(placed, data, start, rva)
            &&& 0 <= a < placed.len()
            &&& #[trigger] refuses(placed, layout, heaps, a, e)
        }
}

impl crate::DnPe {
    /// Wraps the bytes of the stream of the metadata tables, which lies at
    /// `stream_offset` from the metadata root.
    pub fn new_meta_data_table(
        &self,
        metadata_rva: &u32,
        stream_offset: &u32,
        _stream_size: &usize,
        _stream_name: &str,
        stream_data: Vec<u8>,
    ) -> (r: Result<super::Stream>)
        ensures
            r matches Ok(super::Stream::MetaDataTables(m)) && m.data@ == stream_data@ && m.rva == (
            *metadata_rva + *stream_offset) as u32 && m.tables@.len() == 0,
    {
        Ok(
            super::Stream::MetaDataTables(
                MetaDataTable {
                    data: stream_data,
                    rva: #[verifier::truncate]
                    ((*metadata_rva as u64 + *stream_offset as u64) as u32),
                    tables: Vec::new(),
                },
            ),
        )
    }

    /// Reads the tables of the stream `s`: the header, the row counts,
    /// and then the tables in three passes: the tables are made for the
    /// layout, their rows get their bytes, and the fields of the rows are
    /// read from them.
    pub fn parse_meta_data_tables(&self, s: &MetaDataTable, heaps: &Heaps) -> (r: Result<
        Vec<mdtables::MetaDataTable>,
    >)
        ensures
            match r {
                Ok(tables) => tables_read(tables@, s.data@, s.rva, *heaps),
                Err(e) => tables_refused(s.data@, s.rva, *heaps, e),
            },
    {
        let data = s.data.as_slice();
        let header = MDTablesStruct::parse(data)?;
        let (layout, start) = header.layout(data)?;
        let mut tables = self.create_tables(&layout, header.mask_sorted);
        let ghost created = tables@;
        match self.place_tables(&mut tables, data, start, s.rva) {
            Ok(_) => {},
            Err(e) => {
                proof {
                    assert(header.fixes(s.data@, &layout));
                    assert(tables_of(created, &layout, header.mask_sorted));
                    assert(tables_overrun(created, s.data@, start as int, e));
                }
                return Err(e);
            },
        }
        let ghost placed = tables@;
        match self.read_tables(&mut tables, &layout, heaps) {
            Ok(_) => {},
            Err(e) => {
                proof {
                    assert(header.fixes(s.data@, &layout));
                    assert(tables_of(created, &layout, header.mask_sorted));
                    assert(tables_hold(placed, s.data@, start as int, s.rva));
                    let a = choose|a: int|
                        0 <= a < placed.len() && #[trigger] refuses(placed, &layout, *heaps, a, e);
                    assert(refuses(placed, &layout, *heaps, a, e));
                    assert(tables_refuse(created, s.data@, start as int, s.rva, &layout, *heaps, e));
                }
                return Err(e);
            },
        }
        proof {
            assert forall|a: int| 0 <= a < tables@.len() implies {
                &&& (#[trigger] tables@[a]).wf()
                &&& tables@[a].number == created[a].number
                &&& tables@[a].num_rows == created[a].num_rows
                &&& tables@[a].is_sorted == created[a].is_sorted
                &&& tables@[a].table.spec_sizes() == created[a].table.spec_sizes()
            } by {
                assert(same_shape(placed[a], created[a]));
                assert(table_read(tables@[a], placed[a], &layout, *heaps));
            }
            assert forall|k: int|
                0 <= k < MAX_TABLES && #[trigger] layout.tables_present@[k] implies exists|a: int|
                0 <= a < tables@.len() && (#[trigger] tables@[a]).number == k by {
                let a = choose|a: int| 0 <= a < created.len() && (#[trigger] created[a]).number == k;
                assert(tables@[a].number == k);
            }
            assert(tables_of(tables@, &layout, header.mask_sorted));
            assert(header.fixes(s.data@, &layout));
            assert(tables_hold(placed, s.data@, HEADER_SIZE + header.spec_counts_size(), s.rva));
        }
        Ok(tables)
    }
}

} // verus!
