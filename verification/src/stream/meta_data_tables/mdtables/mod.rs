//! The metadata tables: their layout, their rows and how rows are read.
use vstd::prelude::*;
use crate::error::Error;
use crate::stream::guid_heap::Guid;
use crate::stream::ClrStream;
use crate::utils::{read_usize, spec_read_usize};
use crate::Result;
use codedindex::{
    clr_coded_index_struct_size, decode_coded_index, spec_coded_index_size, spec_decode_field,
    CodedKind, SimpleCodedIndex,
};

pub mod codedindex;
pub mod enums;
pub mod names;
pub mod rows;
pub mod table;

pub use names::{table_index_2_name, table_name_2_index, MAX_TABLES};
pub use rows::{
    Assembly, AssemblyOS, AssemblyProcessor, AssemblyRef, AssemblyRefOS, AssemblyRefProcessor,
    ClassLayout, Constant, CustomAttribute, DeclSecurity, EncLog, EncMap, Event, EventMap, EventPtr,
    ExportedType, Field, FieldLayout, FieldMarshal, FieldPtr, FieldRva, File, GenericMethod,
    GenericParam, GenericParamConstraint, ImplMap, InterfaceImpl, ManifestResource, MaxTable,
    MemberRef, MethodDef, MethodImpl, MethodPtr, MethodSemantics, Module, ModuleRef, NestedClass,
    Param, ParamPtr, Property, PropertyMap, PropertyPtr, StandAloneSig, TypeDef, TypeRef, TypeSpec,
    Unused,
};
pub use table::{MetaDataTable, TableRows};

verus! {

/// What fixes the layout of every row of an image: the sizes of the heap
/// indices, the row count of each table, and which tables are present.
#[derive(Debug, Clone)]
pub struct TableLayout {
    pub str_offset_size: usize,
    pub guids_offset_size: usize,
    pub blobs_offset_size: usize,
    pub tables_row_counts: Vec<usize>,
    pub tables_present: Vec<bool>,
}

/// Whether `size` is the size of a heap index: 2 or 4 bytes.
pub open spec fn is_offset_size(size: usize) -> bool {
    size == 2 || size == 4
}

impl TableLayout {
    /// Heap indices take 2 or 4 bytes, and each of the 64 table slots has a
    /// row count and a mark of presence.
    pub open spec fn wf(&self) -> bool {
        &&& is_offset_size(self.str_offset_size)
        &&& is_offset_size(self.guids_offset_size)
        &&& is_offset_size(self.blobs_offset_size)
        &&& self.tables_row_counts@.len() == MAX_TABLES
        &&& self.tables_present@.len() == MAX_TABLES
    }

    /// The sizes of the layout, for the functions that take them apart.
    pub open spec fn sizes(&self) -> Sizes {
        Sizes {
            strings: self.str_offset_size,
            guids: self.guids_offset_size,
            blobs: self.blobs_offset_size,
            counts: self.tables_row_counts@,
        }
    }
}

/// The part of a layout that fixes the size of a row.
pub struct Sizes {
    pub strings: usize,
    pub guids: usize,
    pub blobs: usize,
    pub counts: Seq<usize>,
}

impl Sizes {
    /// Heap indices take 2 or 4 bytes, and every table slot has a row count.
    pub open spec fn wf(self) -> bool {
        &&& is_offset_size(self.strings)
        &&& is_offset_size(self.guids)
        &&& is_offset_size(self.blobs)
        &&& self.counts.len() == MAX_TABLES
    }
}

/// The heaps that rows refer to, where the image has them.
pub struct Heaps<'a> {
    pub strings: Option<&'a ClrStream>,
    pub blobs: Option<&'a ClrStream>,
    pub guids: Option<&'a ClrStream>,
}

/// The kind of a column of a table.
#[derive(Debug, Clone, Copy)]
pub enum Column {
    /// A number of 1, 2 or 4 bytes.
    Fixed(usize),
    /// An index into the string heap.
    Strings,
    /// An index into the GUID heap.
    Guids,
    /// An index into the blob heap.
    Blobs,
    /// The index of a row of the named table.
    Index(&'static str),
    /// A coded index.
    Coded(CodedKind),
    /// The index of a row of the named table, which is not looked at.
    Skipped(&'static str),
    /// The one column of a table kind whose rows have no reading.
    Unsupported,
}

/// What a column of a row holds.
#[derive(Debug)]
pub enum Value {
    Number(usize),
    Text(String),
    Bytes(Vec<u8>),
    Id(Guid),
    Row(&'static str, usize),
    Nothing,
}

/// What a column of a row holds, as a mathematical value.
pub enum ValueView {
    Number(usize),
    Text(Seq<char>),
    Bytes(Seq<u8>),
    Id(Guid),
    Row(&'static str, usize),
    Nothing,
}

impl View for Value {
    type V = ValueView;

    open spec fn view(&self) -> ValueView {
        match self {
            Value::Number(n) => ValueView::Number(*n),
            Value::Text(s) => ValueView::Text(s@),
            Value::Bytes(b) => ValueView::Bytes(b@),
            Value::Id(g) => ValueView::Id(*g),
            Value::Row(t, r) => ValueView::Row(*t, *r),
            Value::Nothing => ValueView::Nothing,
        }
    }
}

impl Value {
    /// The number that the value is.
    pub fn into_number(self) -> (r: usize)
        requires
            self@ is Number,
        ensures
            self@ == ValueView::Number(r),
    {
        match self {
            Value::Number(n) => n,
            _ => 0,
        }
    }

    /// The text that the value is.
    pub fn into_text(self) -> (r: String)
        requires
            self@ is Text,
        ensures
            self@ == ValueView::Text(r@),
    {
        match self {
            Value::Text(s) => s,
            _ => String::new(),
        }
    }

    /// The bytes that the value is.
    pub fn into_bytes(self) -> (r: Vec<u8>)
        requires
            self@ is Bytes,
        ensures
            self@ == ValueView::Bytes(r@),
    {
        match self {
            Value::Bytes(b) => b,
            _ => Vec::new(),
        }
    }

    /// The identifier that the value is.
    pub fn into_id(self) -> (r: Guid)
        requires
            self@ is Id,
        ensures
            self@ == ValueView::Id(r),
    {
        match self {
            Value::Id(g) => g,
            _ => Guid::nil(),
        }
    }

    /// The table and the row that the value refers to.
    pub fn into_row(self) -> (r: (&'static str, usize))
        requires
            self@ is Row,
        ensures
            self@ == ValueView::Row(r.0, r.1),
    {
        match self {
            Value::Row(t, i) => (t, i),
            _ => ("", 0),
        }
    }
}

/// The views of a sequence of values.
pub open spec fn value_views(values: Seq<Value>) -> Seq<ValueView> {
    values.map_values(|v: Value| v@)
}

/// Whether a value is of the kind that a column holds.
pub open spec fn fits(column: Column, value: ValueView) -> bool {
    match column {
        Column::Fixed(_) => value is Number,
        Column::Strings => value is Text,
        Column::Guids => value is Id,
        Column::Blobs => value is Bytes,
        Column::Index(_) | Column::Coded(_) => value is Row,
        Column::Skipped(_) => value is Nothing,
        Column::Unsupported => false,
    }
}

/// Whether a column can be laid out: a number has 1, 2 or 4 bytes.
pub open spec fn column_wf(column: Column) -> bool {
    match column {
        Column::Fixed(n) => n == 1 || n == 2 || n == 4,
        _ => true,
    }
}

/// The most columns that a table can have.
pub const MAX_COLUMNS: usize = 16;

/// Whether a list of columns can be laid out: it has at most sixteen
/// columns, and each of them can.
pub open spec fn columns_wf(columns: Seq<Column>) -> bool {
    &&& columns.len() <= MAX_COLUMNS
    &&& forall|i: int| 0 <= i < columns.len() ==> column_wf(#[trigger] columns[i])
}

/// The number of bytes of a column.
pub open spec fn spec_column_width(column: Column, sizes: Sizes) -> usize {
    match column {
        Column::Fixed(n) => n,
        Column::Strings => sizes.strings,
        Column::Guids => sizes.guids,
        Column::Blobs => sizes.blobs,
        Column::Index(name) => spec_coded_index_size(0, seq![name], sizes.counts),
        Column::Coded(kind) => spec_coded_index_size(
            kind.spec_tag_bits(),
            kind.spec_names(),
            sizes.counts,
        ),
        Column::Skipped(name) => spec_coded_index_size(0, seq![name], sizes.counts),
        Column::Unsupported => 0,
    }
}

/// The offset of column `i` in a row: the widths of the columns before it.
pub open spec fn spec_column_offset(columns: Seq<Column>, sizes: Sizes, i: int) -> int
    decreases i,
{
    if i <= 0 {
        0
    } else {
        spec_column_offset(columns, sizes, i - 1) + spec_column_width(columns[i - 1], sizes)
    }
}

/// The size of a row: the widths of all its columns.
pub open spec fn spec_row_size(columns: Seq<Column>, sizes: Sizes) -> int {
    spec_column_offset(columns, sizes, columns.len() as int)
}

/// A column takes at most four bytes, so column `i` starts within the
/// first `4 * i` bytes.
pub proof fn lemma_column_offset_bound(columns: Seq<Column>, sizes: Sizes, i: int)
    requires
        sizes.wf(),
        columns_wf(columns),
        0 <= i <= columns.len(),
    ensures
        0 <= spec_column_offset(columns, sizes, i) <= 4 * i,
    decreases i,
{
    if i > 0 {
        lemma_column_offset_bound(columns, sizes, i - 1);
        assert(column_wf(columns[i - 1]));
    }
}

/// The number of bytes of a column.
pub fn column_width(
    column: Column,
    str_offset_size: usize,
    guids_offset_size: usize,
    blobs_offset_size: usize,
    tables_row_counts: &Vec<usize>,
) -> (r: usize)
    requires
        tables_row_counts@.len() == MAX_TABLES,
    ensures
        r == spec_column_width(
            column,
            Sizes {
                strings: str_offset_size,
                guids: guids_offset_size,
                blobs: blobs_offset_size,
                counts: tables_row_counts@,
            },
        ),
{
    match column {
        Column::Fixed(n) => n,
        Column::Strings => str_offset_size,
        Column::Guids => guids_offset_size,
        Column::Blobs => blobs_offset_size,
        Column::Index(name) | Column::Skipped(name) => {
            let mut names: Vec<&'static str> = Vec::new();
            names.push(name);
            assert(names@ =~= seq![name]);
            clr_coded_index_struct_size(0, names.as_slice(), tables_row_counts.as_slice())
        },
        Column::Coded(kind) => {
            let names = kind.names();
            clr_coded_index_struct_size(
                kind.tag_bits(),
                names.as_slice(),
                tables_row_counts.as_slice(),
            )
        },
        Column::Unsupported => 0,
    }
}

/// The size of a row with the given columns.
pub fn row_size(
    columns: &Vec<Column>,
    str_offset_size: usize,
    guids_offset_size: usize,
    blobs_offset_size: usize,
    tables_row_counts: &Vec<usize>,
) -> (r: usize)
    requires
        is_offset_size(str_offset_size),
        is_offset_size(guids_offset_size),
        is_offset_size(blobs_offset_size),
        tables_row_counts@.len() == MAX_TABLES,
        columns_wf(columns@),
    ensures
        r == spec_row_size(
            columns@,
            Sizes {
                strings: str_offset_size,
                guids: guids_offset_size,
                blobs: blobs_offset_size,
                counts: tables_row_counts@,
            },
        ),
        r <= 4 * columns@.len(),
{
    let ghost sizes = Sizes {
        strings: str_offset_size,
        guids: guids_offset_size,
        blobs: blobs_offset_size,
        counts: tables_row_counts@,
    };
    let mut size: usize = 0;
    let mut i: usize = 0;
    while i < columns.len()
        invariant
            i <= columns.len(),
            sizes.wf(),
            columns_wf(columns@),
            sizes == (Sizes {
                strings: str_offset_size,
                guids: guids_offset_size,
                blobs: blobs_offset_size,
                counts: tables_row_counts@,
            }),
            size == spec_column_offset(columns@, sizes, i as int),
            size <= 4 * i,
        decreases columns.len() - i,
    {
        let width = column_width(
            columns[i],
            str_offset_size,
            guids_offset_size,
            blobs_offset_size,
            tables_row_counts,
        );
        proof {
            lemma_column_offset_bound(columns@, sizes, i + 1);
            assert(spec_column_offset(columns@, sizes, i + 1) == spec_column_offset(
                columns@,
                sizes,
                i as int,
            ) + width);
        }
        size = size + width;
        i = i + 1;
    }
    size
}

/// The heap that the columns need first and the image does not have, as
/// the error it is reported with.
pub open spec fn spec_missing_heap(columns: Seq<Column>, heaps: Heaps) -> Option<Error> {
    if columns.contains(Column::Strings) && heaps.strings is None {
        Some(Error::RefToUndefinedHeap("string"))
    } else if columns.contains(Column::Blobs) && heaps.blobs is None {
        Some(Error::RefToUndefinedHeap("blob"))
    } else if columns.contains(Column::Guids) && heaps.guids is None {
        Some(Error::RefToUndefinedHeap("guid"))
    } else {
        None
    }
}

/// What the bytes `field` of a column stand for.
pub open spec fn spec_decode_column(
    column: Column,
    field: Seq<u8>,
    layout: &TableLayout,
    heaps: Heaps,
) -> Result<ValueView> {
    match column {
        Column::Fixed(_) => match spec_read_usize(field) {
            Ok(n) => Ok(ValueView::Number(n)),
            Err(e) => Err(e),
        },
        Column::Strings => match heaps.strings {
            Some(heap) => match heap.spec_get_string(field) {
                Ok(s) => Ok(ValueView::Text(s)),
                Err(e) => Err(e),
            },
            None => Err(Error::RefToUndefinedHeap("string")),
        },
        Column::Blobs => match heaps.blobs {
            Some(heap) => match heap.spec_get_blob(field) {
                Ok(b) => Ok(ValueView::Bytes(b)),
                Err(e) => Err(e),
            },
            None => Err(Error::RefToUndefinedHeap("blob")),
        },
        Column::Guids => match heaps.guids {
            Some(heap) => match heap.spec_get_guid(field) {
                Ok(g) => Ok(ValueView::Id(g)),
                Err(e) => Err(e),
            },
            None => Err(Error::RefToUndefinedHeap("guid")),
        },
        Column::Index(name) => match spec_decode_field(
            0,
            seq![name],
            layout.tables_present@,
            field,
        ) {
            Ok((table, row)) => Ok(ValueView::Row(table, row)),
            Err(e) => Err(e),
        },
        Column::Coded(kind) => match spec_decode_field(
            kind.spec_tag_bits(),
            kind.spec_names(),
            layout.tables_present@,
            field,
        ) {
            Ok((table, row)) => Ok(ValueView::Row(table, row)),
            Err(e) => Err(e),
        },
        Column::Skipped(_) => Ok(ValueView::Nothing),
        Column::Unsupported => Err(Error::NotImplementedError),
    }
}

/// What the columns from column `i` on stand for, in a row with the bytes
/// `data`. The first column that is refused decides the error.
pub open spec fn spec_decode_from(
    columns: Seq<Column>,
    data: Seq<u8>,
    layout: &TableLayout,
    heaps: Heaps,
    i: int,
) -> Result<Seq<ValueView>>
    decreases columns.len() - i,
{
    if i < 0 || i >= columns.len() {
        Ok(Seq::empty())
    } else {
        let start = spec_column_offset(columns, layout.sizes(), i);
        let end = spec_column_offset(columns, layout.sizes(), i + 1);
        match spec_decode_column(columns[i], data.subrange(start, end), layout, heaps) {
            Err(e) => Err(e),
            Ok(value) => match spec_decode_from(columns, data, layout, heaps, i + 1) {
                Err(e) => Err(e),
                Ok(rest) => Ok(seq![value] + rest),
            },
        }
    }
}

/// What a row with the bytes `data` stands for: the values of its
/// columns.
///
/// The row must have all its bytes, and the image every heap that a column
/// refers to.
pub open spec fn spec_decode_row(
    columns: Seq<Column>,
    data: Seq<u8>,
    layout: &TableLayout,
    heaps: Heaps,
) -> Result<Seq<ValueView>> {
    if data.len() < spec_row_size(columns, layout.sizes()) {
        Err(
            Error::NotEnoughData(
                spec_row_size(columns, layout.sizes()) as usize,
                data.len() as usize,
            ),
        )
    } else {
        match spec_missing_heap(columns, heaps) {
            Some(e) => Err(e),
            None => spec_decode_from(columns, data, layout, heaps, 0),
        }
    }
}

/// Decodes one column from its bytes.
pub fn decode_column(column: Column, field: &[u8], layout: &TableLayout, heaps: &Heaps) -> (r:
    Result<Value>)
    requires
        layout.wf(),
    ensures
        match r {
            Ok(value) => spec_decode_column(column, field@, layout, *heaps) == Ok::<
                ValueView,
                Error,
            >(value@),
            Err(e) => spec_decode_column(column, field@, layout, *heaps) == Err::<
                ValueView,
                Error,
            >(e),
        },
{
    match column {
        Column::Fixed(_) => Ok(Value::Number(read_usize(field)?)),
        Column::Strings => match heaps.strings {
            Some(heap) => Ok(Value::Text(heap.get_string(field)?)),
            None => Err(Error::RefToUndefinedHeap("string")),
        },
        Column::Blobs => match heaps.blobs {
            Some(heap) => Ok(Value::Bytes(heap.get_blob(field)?)),
            None => Err(Error::RefToUndefinedHeap("blob")),
        },
        Column::Guids => match heaps.guids {
            Some(heap) => Ok(Value::Id(heap.get_guid(field)?)),
            None => Err(Error::RefToUndefinedHeap("guid")),
        },
        Column::Index(name) => {
            let index = SimpleCodedIndex::new(single_name(name), 0, field, layout)?;
            Ok(Value::Row(index.table, index.row_index))
        },
        Column::Coded(kind) => {
            let names = kind.names();
            let (table, row) = decode_coded_index(kind.tag_bits(), names.as_slice(), field, layout)?;
            Ok(Value::Row(table, row))
        },
        Column::Skipped(_) => Ok(Value::Nothing),
        Column::Unsupported => Err(Error::NotImplementedError),
    }
}

/// The list that holds the one name `name`.
pub fn single_name(name: &'static str) -> (r: Vec<&'static str>)
    ensures
        r@ == seq![name],
{
    let mut names: Vec<&'static str> = Vec::new();
    names.push(name);
    assert(names@ =~= seq![name]);
    names
}

/// Whether one of the columns is an index into the string heap.
pub fn needs_strings(columns: &Vec<Column>) -> (r: bool)
    ensures
        r == columns@.contains(Column::Strings),
{
    let mut i: usize = 0;
    while i < columns.len()
        invariant
            i <= columns.len(),
            forall|k: int| 0 <= k < i ==> columns@[k] != Column::Strings,
        decreases columns.len() - i,
    {
        match columns[i] {
            Column::Strings => {
                return true;
            },
            _ => {},
        }
        i = i + 1;
    }
    false
}

/// Whether one of the columns is an index into the blob heap.
pub fn needs_blobs(columns: &Vec<Column>) -> (r: bool)
    ensures
        r == columns@.contains(Column::Blobs),
{
    let mut i: usize = 0;
    while i < columns.len()
        invariant
            i <= columns.len(),
            forall|k: int| 0 <= k < i ==> columns@[k] != Column::Blobs,
        decreases columns.len() - i,
    {
        match columns[i] {
            Column::Blobs => {
                return true;
            },
            _ => {},
        }
        i = i + 1;
    }
    false
}

/// Whether one of the columns is an index into the GUID heap.
pub fn needs_guids(columns: &Vec<Column>) -> (r: bool)
    ensures
        r == columns@.contains(Column::Guids),
{
    let mut i: usize = 0;
    while i < columns.len()
        invariant
            i <= columns.len(),
            forall|k: int| 0 <= k < i ==> columns@[k] != Column::Guids,
        decreases columns.len() - i,
    {
        match columns[i] {
            Column::Guids => {
                return true;
            },
            _ => {},
        }
        i = i + 1;
    }
    false
}

/// Decodes the columns of a row from its bytes.
pub fn decode_row(columns: &Vec<Column>, data: &[u8], layout: &TableLayout, heaps: &Heaps) -> (r:
    Result<Vec<Value>>)
    requires
        layout.wf(),
        columns_wf(columns@),
    ensures
        match r {
            Ok(values) => {
                &&& spec_decode_row(columns@, data@, layout, *heaps) == Ok::<
                    Seq<ValueView>,
                    Error,
                >(value_views(values@))
                &&& values@.len() == columns@.len()
                &&& forall|k: int|
                    0 <= k < values@.len() ==> fits(columns@[k], #[trigger] values@[k]@)
            },
            Err(e) => spec_decode_row(columns@, data@, layout, *heaps) == Err::<
                Seq<ValueView>,
                Error,
            >(e),
        },
{
    let ghost sizes = layout.sizes();
    let size = row_size(
        columns,
        layout.str_offset_size,
        layout.guids_offset_size,
        layout.blobs_offset_size,
        &layout.tables_row_counts,
    );
    if data.len() < size {
        return Err(Error::NotEnoughData(size, data.len()));
    }
    if needs_strings(columns) && heaps.strings.is_none() {
        return Err(Error::RefToUndefinedHeap("string"));
    }
    if needs_blobs(columns) && heaps.blobs.is_none() {
        return Err(Error::RefToUndefinedHeap("blob"));
    }
    if needs_guids(columns) && heaps.guids.is_none() {
        return Err(Error::RefToUndefinedHeap("guid"));
    }
    let mut values: Vec<Value> = Vec::new();
    let mut at: usize = 0;
    let mut i: usize = 0;
    while i < columns.len()
        invariant
            i <= columns.len(),
            layout.wf(),
            columns_wf(columns@),
            sizes == layout.sizes(),
            sizes.wf(),
            at == spec_column_offset(columns@, sizes, i as int),
            size == spec_row_size(columns@, sizes),
            size <= data@.len(),
            spec_missing_heap(columns@, *heaps) is None,
            values@.len() == i,
            forall|k: int| 0 <= k < i ==> fits(columns@[k], #[trigger] values@[k]@),
            match spec_decode_from(columns@, data@, layout, *heaps, i as int) {
                Ok(rest) => spec_decode_from(columns@, data@, layout, *heaps, 0) == Ok::<
                    Seq<ValueView>,
                    Error,
                >(value_views(values@) + rest),
                Err(e) => spec_decode_from(columns@, data@, layout, *heaps, 0) == Err::<
                    Seq<ValueView>,
                    Error,
                >(e),
            },
        decreases columns.len() - i,
    {
        let width = column_width(
            columns[i],
            layout.str_offset_size,
            layout.guids_offset_size,
            layout.blobs_offset_size,
            &layout.tables_row_counts,
        );
        proof {
            lemma_column_offsets_grow(columns@, sizes, i + 1, columns@.len() as int);
            assert(spec_column_offset(columns@, sizes, i + 1) == at + width);
        }
        let field = vstd::slice::slice_subrange(data, at, at + width);
        let value = decode_column(columns[i], field, layout, heaps)?;
        proof {
            let before = value_views(values@);
            assert(value_views(values@.push(value)) =~= before.push(value@));
            if let Ok(rest) = spec_decode_from(columns@, data@, layout, *heaps, i + 1) {
                assert(before + (seq![value@] + rest) =~= before.push(value@) + rest);
            }
        }
        values.push(value);
        at = at + width;
        i = i + 1;
    }
    proof {
        assert(value_views(values@) + Seq::<ValueView>::empty() =~= value_views(values@));
    }
    Ok(values)
}

/// Offsets do not shrink from one column to a later one.
pub proof fn lemma_column_offsets_grow(columns: Seq<Column>, sizes: Sizes, i: int, j: int)
    requires
        0 <= i <= j <= columns.len(),
    ensures
        spec_column_offset(columns, sizes, i) <= spec_column_offset(columns, sizes, j),
    decreases j - i,
{
    if i < j {
        lemma_column_offsets_grow(columns, sizes, i, j - 1);
    }
}

/// The row indices from `first` up to the one before the list of the next
/// owner, and not past the `count` rows of the owned table. The last owner
/// has no next one, and its list runs to the last row.
pub open spec fn spec_run(first: usize, next_first: Option<usize>, count: usize) -> Seq<usize> {
    let upper: int = match next_first {
        Some(next) => if next - 1 < count {
            next - 1
        } else {
            count as int
        },
        None => count as int,
    };
    if first > upper {
        Seq::empty()
    } else {
        Seq::new((upper - first + 1) as nat, |i: int| (first + i) as usize)
    }
}

/// Whether `list` refers to the rows `rows` of the table `table`, in
/// order.
pub open spec fn refers_to(list: Seq<SimpleCodedIndex>, table: &'static str, rows: Seq<usize>) -> bool {
    &&& list.len() == rows.len()
    &&& forall|i: int|
        0 <= i < list.len() ==> (#[trigger] list[i]).table == table && list[i].row_index == rows[i]
            && list[i].tag_bits == 0 && list[i].table_names@ == seq![table]
}

/// The references to the rows that an owner owns: see `spec_run`.
pub fn run_list(table: &'static str, first: usize, next_first: Option<usize>, count: usize) -> (r:
    Vec<SimpleCodedIndex>)
    ensures
        refers_to(r@, table, spec_run(first, next_first, count)),
{
    let upper: usize = match next_first {
        Some(next) => {
            if next == 0 {
                return Vec::new();
            }
            if next - 1 < count {
                next - 1
            } else {
                count
            }
        },
        None => count,
    };
    let mut list: Vec<SimpleCodedIndex> = Vec::new();
    if first > upper {
        return list;
    }
    let ghost rows = spec_run(first, next_first, count);
    let mut row = first;
    while row < upper
        invariant
            first <= row <= upper,
            rows == spec_run(first, next_first, count),
            rows.len() == upper - first + 1,
            forall|i: int| 0 <= i < rows.len() ==> rows[i] == first + i,
            refers_to(list@, table, rows.subrange(0, row - first)),
        decreases upper - row,
    {
        list.push(SimpleCodedIndex::to_row(table, row));
        row = row + 1;
    }
    list.push(SimpleCodedIndex::to_row(table, row));
    assert(rows.subrange(0, rows.len() as int) =~= rows);
    list
}

/// A kind of row: its columns, and how its fields are filled from them.
pub trait MDTableRowTrait: Sized {
    /// The columns of the table, in the order in which they lie in a row.
    spec fn spec_columns() -> Seq<Column>;

    /// Whether the fields of the row hold the values `values` of its
    /// columns. A list of owned rows holds only the index of its first row.
    spec fn holds(&self, values: Seq<ValueView>) -> bool;

    /// Whether the row is `before` with its lists of owned rows filled in:
    /// each list runs from its first row to the one before the first row
    /// of `next_row`, and not past the last row of the owned table.
    spec fn completes(&self, before: &Self, next_row: Option<&Self>, layout: &TableLayout) -> bool;

    /// The table of this kind of row, where `rows` is one.
    spec fn spec_pick(rows: &table::TableRows) -> Option<&MDTable<Self>>;

    /// `table` as a table of any kind.
    spec fn spec_wrap(table: MDTable<Self>) -> table::TableRows;

    /// The columns can be laid out.
    proof fn columns_are_wf()
        ensures
            columns_wf(Self::spec_columns()),
    ;

    /// Whether nothing is read into the row: its numbers are zero, its
    /// texts, bytes and lists empty, and its references refer to no row.
    spec fn is_blank(&self) -> bool;

    /// A row with nothing read into it.
    fn blank() -> (r: Self)
        ensures
            r.is_blank(),
    ;

    /// The columns of the table, in the order in which they lie in a row.
    fn columns() -> (r: Vec<Column>)
        ensures
            r@ == Self::spec_columns(),
            columns_wf(r@),
    ;

    /// The number of bytes of a row.
    fn size(
        &self,
        str_offset_size: usize,
        guids_offset_size: usize,
        blobs_offset_size: usize,
        tables_row_counts: &Vec<usize>,
    ) -> (r: usize)
        requires
            is_offset_size(str_offset_size),
            is_offset_size(guids_offset_size),
            is_offset_size(blobs_offset_size),
            tables_row_counts@.len() == MAX_TABLES,
        ensures
            r == spec_row_size(
                Self::spec_columns(),
                Sizes {
                    strings: str_offset_size,
                    guids: guids_offset_size,
                    blobs: blobs_offset_size,
                    counts: tables_row_counts@,
                },
            ),
    ;

    /// Fills the fields from the bytes `data` of the row.
    fn parse(&mut self, data: &Vec<u8>, layout: &TableLayout, heaps: &Heaps) -> (r: Result<()>)
        requires
            layout.wf(),
        ensures
            match r {
                Ok(_) => spec_decode_row(Self::spec_columns(), data@, layout, *heaps) matches Ok(
                    values,
                ) && final(self).holds(values),
                Err(e) => spec_decode_row(Self::spec_columns(), data@, layout, *heaps) == Err::<
                    Seq<ValueView>,
                    Error,
                >(e),
            },
    ;

    /// The table of this kind of row, where `rows` is one.
    fn pick(rows: &table::TableRows) -> (r: Option<&MDTable<Self>>)
        ensures
            r == Self::spec_pick(rows),
    ;

    /// The table of this kind of row, where `rows` is one, to be changed
    /// in its place.
    fn pick_mut(rows: &mut table::TableRows) -> (r: Option<&mut MDTable<Self>>)
        ensures
            match r {
                Some(table) => {
                    &&& Self::spec_pick(old(rows)) == Some(&*table)
                    &&& *old(rows) == Self::spec_wrap(*table)
                    &&& *final(rows) == Self::spec_wrap(*final(table))
                    &&& Self::spec_pick(final(rows)) == Some(&*final(table))
                },
                None => Self::spec_pick(old(rows)) is None && *final(rows) == *old(rows),
            },
    ;

    /// Fills in the lists of owned rows, with the help of the next row of
    /// the table, where there is one.
    fn parse2(&mut self, layout: &TableLayout, next_row: Option<&Self>) -> (r: Result<()>)
        requires
            layout.wf(),
        ensures
            r is Ok,
            final(self).completes(old(self), next_row, layout),
    ;
}

/// A row of a table: its bytes, and the fields read from them.
#[derive(Debug, Clone)]
pub struct MDTableRow<T> {
    pub str_offset_size: usize,
    pub guids_offset_size: usize,
    pub blobs_offset_size: usize,
    pub tables_row_counts: Vec<usize>,
    pub row: T,
    pub data: Vec<u8>,
}

impl<T: MDTableRowTrait> MDTableRow<T> {
    /// The sizes that the row was made for lay out a row.
    pub open spec fn wf(&self) -> bool {
        self.sizes().wf()
    }

    /// The sizes that the row was made for.
    pub open spec fn sizes(&self) -> Sizes {
        Sizes {
            strings: self.str_offset_size,
            guids: self.guids_offset_size,
            blobs: self.blobs_offset_size,
            counts: self.tables_row_counts@,
        }
    }

    /// A row without bytes for the given sizes.
    pub fn new(
        str_offset_size: usize,
        guids_offset_size: usize,
        blobs_offset_size: usize,
        tables_row_counts: &[usize],
    ) -> (r: MDTableRow<T>)
        ensures
            r.sizes() == (Sizes {
                strings: str_offset_size,
                guids: guids_offset_size,
                blobs: blobs_offset_size,
                counts: tables_row_counts@,
            }),
            r.data@.len() == 0,
            r.row.is_blank(),
    {
        MDTableRow {
            str_offset_size,
            guids_offset_size,
            blobs_offset_size,
            tables_row_counts: vstd::slice::slice_to_vec(tables_row_counts),
            row: T::blank(),
            data: Vec::new(),
        }
    }

    /// Gives the row its bytes.
    pub fn set_data(&mut self, data: &[u8]) -> (r: Result<()>)
        ensures
            r is Ok,
            final(self).data@ == data@,
            final(self).sizes() == old(self).sizes(),
            final(self).row == old(self).row,
    {
        self.data = vstd::slice::slice_to_vec(data);
        Ok(())
    }

    /// The number of bytes of the row.
    pub fn size(&self) -> (r: usize)
        requires
            self.wf(),
        ensures
            r == spec_row_size(T::spec_columns(), self.sizes()),
    {
        self.row.size(
            self.str_offset_size,
            self.guids_offset_size,
            self.blobs_offset_size,
            &self.tables_row_counts,
        )
    }

    /// Fills the fields of the row from its bytes.
    pub fn parse(&mut self, layout: &TableLayout, heaps: &Heaps) -> (r: Result<()>)
        requires
            layout.wf(),
        ensures
            final(self).data == old(self).data,
            final(self).sizes() == old(self).sizes(),
            match r {
                Ok(_) => reads(final(self).row, old(self).data@, layout, *heaps),
                Err(e) => spec_decode_row(T::spec_columns(), old(self).data@, layout, *heaps)
                    == Err::<Seq<ValueView>, Error>(e),
            },
    {
        self.row.parse(&self.data, layout, heaps)
    }

    /// Fills in the lists of owned rows of the row.
    pub fn parse2(&mut self, layout: &TableLayout, next_row: Option<&MDTableRow<T>>) -> (r: Result<
        (),
    >)
        requires
            layout.wf(),
        ensures
            r is Ok,
            final(self).data == old(self).data,
            final(self).sizes() == old(self).sizes(),
            final(self).row.completes(
                &old(self).row,
                match next_row {
                    Some(next) => Some(&next.row),
                    None => None,
                },
                layout,
            ),
    {
        match next_row {
            Some(next) => self.row.parse2(layout, Some(&next.row)),
            None => self.row.parse2(layout, None),
        }
    }

    /// The fields of the row.
    pub fn get_row(&self) -> (r: &T)
        ensures
            *r == self.row,
    {
        &self.row
    }
}

/// Whether the fields `row` are what the bytes `data` of a row stand for.
pub open spec fn reads<T: MDTableRowTrait>(
    row: T,
    data: Seq<u8>,
    layout: &TableLayout,
    heaps: Heaps,
) -> bool {
    spec_decode_row(T::spec_columns(), data, layout, heaps) matches Ok(values) && row.holds(values)
}

/// The first error that reading the rows from row `i` on meets, in the
/// order of the rows.
pub open spec fn spec_first_failure<T: MDTableRowTrait>(
    rows: Seq<MDTableRow<T>>,
    layout: &TableLayout,
    heaps: Heaps,
    i: int,
) -> Option<Error>
    decreases rows.len() - i,
{
    if i < 0 || i >= rows.len() {
        None
    } else {
        match spec_decode_row(T::spec_columns(), rows[i].data@, layout, heaps) {
            Err(e) => Some(e),
            Ok(_) => spec_first_failure(rows, layout, heaps, i + 1),
        }
    }
}

/// The number of bytes that the first `n` rows hold.
pub open spec fn spec_total_bytes<T>(rows: Seq<MDTableRow<T>>, n: int) -> int
    decreases n,
{
    if n <= 0 {
        0
    } else {
        spec_total_bytes(rows, n - 1) + rows[n - 1].data@.len()
    }
}

/// The rows of a table take as many bytes as there are rows times the
/// size of a row, where each row holds a row's worth of bytes.
pub proof fn lemma_total_bytes<T>(rows: Seq<MDTableRow<T>>, n: int, row_size: int)
    requires
        0 <= n <= rows.len(),
        forall|i: int| 0 <= i < n ==> (#[trigger] rows[i]).data@.len() == row_size,
    ensures
        spec_total_bytes(rows, n) == n * row_size,
    decreases n,
{
    if n > 0 {
        lemma_total_bytes(rows, n - 1, row_size);
        assert(rows[n - 1].data@.len() == row_size);
        assert(spec_total_bytes(rows, n) == spec_total_bytes(rows, n - 1) + row_size);
        assert(n * row_size == (n - 1) * row_size + row_size) by (nonlinear_arith);
    } else {
        assert(n * row_size == 0) by (nonlinear_arith)
            requires
                n == 0,
        ;
    }
}

/// A table: its name and its rows, which are all of one kind.
#[derive(Debug, Clone)]
pub struct MDTable<T> {
    pub name: String,
    pub table: Vec<MDTableRow<T>>,
}

impl<T: MDTableRowTrait> MDTable<T> {
    /// Every row was made for sizes that lay out a row, and all for the
    /// same.
    pub open spec fn wf(&self) -> bool {
        forall|i: int|
            0 <= i < self.table@.len() ==> (#[trigger] self.table@[i]).wf() && self.table@[i].sizes()
                == self.table@[0].sizes()
    }

    /// The sizes that the rows were made for, where the table has rows.
    pub open spec fn spec_sizes(&self) -> Option<Sizes> {
        if self.table@.len() == 0 {
            None
        } else {
            Some(self.table@[0].sizes())
        }
    }

    /// The size of a row of the table; 0 for a table without rows.
    pub open spec fn spec_row_size(&self) -> int {
        if self.table@.len() == 0 {
            0
        } else {
            spec_row_size(T::spec_columns(), self.table@[0].sizes())
        }
    }

    /// A table of `num_rows` rows without bytes.
    pub fn new(
        name: &str,
        num_rows: &usize,
        strings_offset_size: usize,
        guids_offset_size: usize,
        blobs_offset_size: usize,
        tables_row_counts: &Vec<usize>,
    ) -> (r: Result<MDTable<T>>)
        requires
            is_offset_size(strings_offset_size),
            is_offset_size(guids_offset_size),
            is_offset_size(blobs_offset_size),
            tables_row_counts@.len() == MAX_TABLES,
        ensures
            r matches Ok(t) && t.name@ == name@ && t.table@.len() == *num_rows && t.wf() && forall|
                i: int,
            |
                0 <= i < t.table@.len() ==> (#[trigger] t.table@[i]).data@.len() == 0
                    && t.table@[i].row.is_blank() && t.table@[i].sizes() == (Sizes {
                    strings: strings_offset_size,
                    guids: guids_offset_size,
                    blobs: blobs_offset_size,
                    counts: tables_row_counts@,
                }),
            r matches Ok(t) && (*num_rows > 0 ==> t.spec_sizes() == Some(
                Sizes {
                    strings: strings_offset_size,
                    guids: guids_offset_size,
                    blobs: blobs_offset_size,
                    counts: tables_row_counts@,
                },
            )),
    {
        let mut table: Vec<MDTableRow<T>> = Vec::new();
        let mut i: usize = 0;
        while i < *num_rows
            invariant
                i <= *num_rows,
                table@.len() == i,
                is_offset_size(strings_offset_size),
                is_offset_size(guids_offset_size),
                is_offset_size(blobs_offset_size),
                tables_row_counts@.len() == MAX_TABLES,
                forall|k: int|
                    0 <= k < i ==> (#[trigger] table@[k]).data@.len() == 0 && table@[k].row.is_blank()
                        && table@[k].sizes() == (Sizes {
                        strings: strings_offset_size,
                        guids: guids_offset_size,
                        blobs: blobs_offset_size,
                        counts: tables_row_counts@,
                    }),
            decreases *num_rows - i,
        {
            table.push(
                MDTableRow::<T>::new(
                    strings_offset_size,
                    guids_offset_size,
                    blobs_offset_size,
                    tables_row_counts.as_slice(),
                ),
            );
            i = i + 1;
        }
        Ok(MDTable { name: name.to_owned(), table })
    }

    /// The number of rows.
    pub fn row_count(&self) -> (r: usize)
        ensures
            r == self.table@.len(),
    {
        self.table.len()
    }

    /// The name of the table.
    pub fn name(&self) -> (r: &str)
        ensures
            r@ == self.name@,
    {
        self.name.as_str()
    }

    /// The size of a row of the table; 0 for a table without rows.
    pub fn row_size(&self) -> (r: usize)
        requires
            self.wf(),
        ensures
            r == self.spec_row_size(),
            r <= 4 * MAX_COLUMNS,
    {
        if self.table.len() == 0 {
            0
        } else {
            proof {
                T::columns_are_wf();
                lemma_column_offset_bound(
                    T::spec_columns(),
                    self.table@[0].sizes(),
                    T::spec_columns().len() as int,
                );
            }
            self.table[0].size()
        }
    }

    /// Row `i`, counted from zero.
    pub fn get_row(&self, i: usize) -> (r: Result<&MDTableRow<T>>)
        ensures
            i < self.table@.len() ==> r == Ok::<&MDTableRow<T>, Error>(&self.table@[i as int]),
            i >= self.table@.len() ==> r == Err::<&MDTableRow<T>, Error>(
                Error::RowIndexOutOfBound(i, self.table@.len() as usize),
            ),
    {
        if i < self.row_count() {
            Ok(&self.table[i])
        } else {
            Err(Error::RowIndexOutOfBound(i, self.row_count()))
        }
    }

    /// Row `i`, counted from zero, to be changed in its place.
    pub fn get_mut_row(&mut self, i: usize) -> (r: Result<&mut MDTableRow<T>>)
        ensures
            match r {
                Ok(row) => {
                    &&& i < old(self).table@.len()
                    &&& *row == old(self).table@[i as int]
                    &&& final(self).name == old(self).name
                    &&& final(self).table@ == old(self).table@.update(i as int, *final(row))
                },
                Err(e) => {
                    &&& i >= old(self).table@.len()
                    &&& e == Error::RowIndexOutOfBound(i, old(self).table@.len() as usize)
                    &&& *final(self) == *old(self)
                },
            },
    {
        if i < self.table.len() {
            Ok(&mut self.table[i])
        } else {
            Err(Error::RowIndexOutOfBound(i, self.table.len()))
        }
    }

    /// Hands the rows their bytes: row `i` gets the bytes from `i` times
    /// the row size on.
    ///
    /// The rows together take exactly the row count times the row size;
    /// bytes of `data` behind that are left alone. Where `data` is too short
    /// nothing is changed.
    pub fn set_data(&mut self, data: &Vec<u8>) -> (r: Result<()>)
        requires
            old(self).wf(),
        ensures
            final(self).name == old(self).name,
            final(self).table@.len() == old(self).table@.len(),
            final(self).wf(),
            final(self).spec_row_size() == old(self).spec_row_size(),
            final(self).spec_sizes() == old(self).spec_sizes(),
            match r {
                Ok(_) => {
                    &&& old(self).table@.len() * old(self).spec_row_size() <= data@.len()
                    &&& forall|i: int|
                        0 <= i < old(self).table@.len() ==> {
                            &&& (#[trigger] final(self).table@[i]).data@ == data@.subrange(
                                i * old(self).spec_row_size(),
                                (i + 1) * old(self).spec_row_size(),
                            )
                            &&& final(self).table@[i].sizes() == old(self).table@[i].sizes()
                            &&& final(self).table@[i].row == old(self).table@[i].row
                        }
                    &&& spec_total_bytes(final(self).table@, final(self).table@.len() as int)
                        == old(self).table@.len() * old(self).spec_row_size()
                },
                Err(e) => {
                    &&& old(self).table@.len() * old(self).spec_row_size() > data@.len()
                    &&& e == Error::NotEnoughData(
                        crate::utils::spec_saturating_product(
                            old(self).table@.len() as int,
                            old(self).spec_row_size(),
                        ),
                        data@.len() as usize,
                    )
                    &&& final(self).table@ == old(self).table@
                    &&& *final(self) == *old(self)
                },
            },
    {
        let row_size = self.row_size();
        let n = self.table.len();
        let len = data.len();
        if row_size > 0 && n > len / row_size {
            proof {
                assert(n * row_size > data@.len()) by (nonlinear_arith)
                    requires
                        row_size > 0,
                        n > (data@.len() as int) / (row_size as int),
                ;
            }
            return Err(
                Error::NotEnoughData(crate::utils::saturating_product(n, row_size), data.len()),
            );
        }
        proof {
            assert(n * row_size <= data@.len()) by (nonlinear_arith)
                requires
                    row_size == 0 || n <= (data@.len() as int) / (row_size as int),
                    0 <= n,
                    0 <= row_size,
            ;
        }
        let mut curr_offset: usize = 0;
        let mut i: usize = 0;
        while i < n
            invariant
                i <= n,
                n == self.table@.len(),
                n == old(self).table@.len(),
                self.name == old(self).name,
                old(self).wf(),
                self.wf(),
                row_size == old(self).spec_row_size(),
                n > 0 ==> self.table@[0].sizes() == old(self).table@[0].sizes(),
                n * row_size <= data@.len() <= usize::MAX,
                curr_offset == i * row_size,
                forall|k: int|
                    0 <= k < i ==> {
                        &&& (#[trigger] self.table@[k]).data@ == data@.subrange(
                            k * row_size,
                            (k + 1) * row_size,
                        )
                        &&& self.table@[k].sizes() == old(self).table@[k].sizes()
                        &&& self.table@[k].row == old(self).table@[k].row
                    },
                forall|k: int| i <= k < n ==> self.table@[k] == old(self).table@[k],
            decreases n - i,
        {
            proof {
                assert((i + 1) * row_size <= n * row_size) by (nonlinear_arith)
                    requires
                        i + 1 <= n,
                        0 <= row_size,
                ;
                assert((i + 1) * row_size == i * row_size + row_size) by (nonlinear_arith);
            }
            let chunk = vstd::slice::slice_subrange(
                data.as_slice(),
                curr_offset,
                curr_offset + row_size,
            );
            let _ = self.table[i].set_data(chunk);
            curr_offset = curr_offset + row_size;
            i = i + 1;
        }
        proof {
            assert forall|k: int| 0 <= k < n implies (#[trigger] self.table@[k]).data@.len()
                == row_size by {
                assert(k * row_size + row_size == (k + 1) * row_size) by (nonlinear_arith);
                assert((k + 1) * row_size <= n * row_size) by (nonlinear_arith)
                    requires
                        k + 1 <= n,
                        0 <= row_size,
                ;
                assert(0 <= k * row_size) by (nonlinear_arith)
                    requires
                        0 <= k,
                        0 <= row_size,
                ;
            }
            lemma_total_bytes(self.table@, n as int, row_size as int);
        }
        Ok(())
    }

    /// Reads the fields of every row from its bytes, in the order of the
    /// rows. The first row that is refused ends the reading.
    pub fn parse_rows(&mut self, layout: &TableLayout, heaps: &Heaps) -> (r: Result<()>)
        requires
            layout.wf(),
        ensures
            final(self).name == old(self).name,
            final(self).table@.len() == old(self).table@.len(),
            forall|i: int|
                0 <= i < old(self).table@.len() ==> (#[trigger] final(self).table@[i]).data == old(
                    self,
                ).table@[i].data && final(self).table@[i].sizes() == old(self).table@[i].sizes(),
            old(self).wf() ==> final(self).wf(),
            final(self).spec_row_size() == old(self).spec_row_size(),
            final(self).spec_sizes() == old(self).spec_sizes(),
            match r {
                Ok(_) => {
                    &&& spec_first_failure(old(self).table@, layout, *heaps, 0) is None
                    &&& forall|i: int|
                        0 <= i < old(self).table@.len() ==> #[trigger] reads(
                            final(self).table@[i].row,
                            old(self).table@[i].data@,
                            layout,
                            *heaps,
                        )
                },
                Err(e) => spec_first_failure(old(self).table@, layout, *heaps, 0) == Some(e),
            },
    {
        let n = self.table.len();
        let mut i: usize = 0;
        while i < n
            invariant
                i <= n,
                layout.wf(),
                n == self.table@.len(),
                n == old(self).table@.len(),
                self.name == old(self).name,
                forall|k: int|
                    0 <= k < n ==> (#[trigger] self.table@[k]).data == old(self).table@[k].data
                        && self.table@[k].sizes() == old(self).table@[k].sizes(),
                forall|k: int|
                    0 <= k < i ==> #[trigger] reads(
                        self.table@[k].row,
                        old(self).table@[k].data@,
                        layout,
                        *heaps,
                    ),
                spec_first_failure(old(self).table@, layout, *heaps, 0) == spec_first_failure(
                    old(self).table@,
                    layout,
                    *heaps,
                    i as int,
                ),
            decreases n - i,
        {
            let ghost before = self.table@;
            let parsed = self.table[i].parse(layout, heaps);
            proof {
                assert(forall|k: int| 0 <= k < n && k != i ==> self.table@[k] == before[k]);
                assert(before[i as int].data == old(self).table@[i as int].data);
                assert forall|k: int| 0 <= k < i implies #[trigger] reads(
                    self.table@[k].row,
                    old(self).table@[k].data@,
                    layout,
                    *heaps,
                ) by {
                    assert(self.table@[k] == before[k]);
                }
            }
            parsed?;
            i = i + 1;
        }
        Ok(())
    }

    /// Fills in the lists of owned rows of every row, each with the help
    /// of the row behind it.
    pub fn complete_rows(&mut self, layout: &TableLayout) -> (r: Result<()>)
        requires
            layout.wf(),
        ensures
            r is Ok,
            final(self).name == old(self).name,
            final(self).table@.len() == old(self).table@.len(),
            old(self).wf() ==> final(self).wf(),
            final(self).spec_row_size() == old(self).spec_row_size(),
            final(self).spec_sizes() == old(self).spec_sizes(),
            forall|i: int|
                0 <= i < old(self).table@.len() ==> {
                    &&& (#[trigger] final(self).table@[i]).data == old(self).table@[i].data
                    &&& final(self).table@[i].sizes() == old(self).table@[i].sizes()
                    &&& final(self).table@[i].row.completes(
                        &old(self).table@[i].row,
                        if i + 1 < old(self).table@.len() {
                            Some(&old(self).table@[i + 1].row)
                        } else {
                            None
                        },
                        layout,
                    )
                },
    {
        let n = self.table.len();
        let mut i: usize = 0;
        while i < n
            invariant
                i <= n,
                layout.wf(),
                n == self.table@.len(),
                n == old(self).table@.len(),
                self.name == old(self).name,
                forall|k: int| i <= k < n ==> (#[trigger] self.table@[k]) == old(self).table@[k],
                forall|k: int|
                    0 <= k < i ==> {
                        &&& (#[trigger] self.table@[k]).data == old(self).table@[k].data
                        &&& self.table@[k].sizes() == old(self).table@[k].sizes()
                        &&& self.table@[k].row.completes(
                            &old(self).table@[k].row,
                            if k + 1 < n {
                                Some(&old(self).table@[k + 1].row)
                            } else {
                                None
                            },
                            layout,
                        )
                    },
            decreases n - i,
        {
            if i + 1 < n {
                let (head, tail) = self.table.as_mut_slice().split_at_mut(i + 1);
                let _ = head[i].parse2(layout, Some(&tail[0]));
            } else {
                let _ = self.table[i].parse2(layout, None);
            }
            i = i + 1;
        }
        Ok(())
    }
}

} // verus!
