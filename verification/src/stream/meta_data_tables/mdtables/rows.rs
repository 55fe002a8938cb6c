//! The rows of the metadata tables, one kind for each table.
use vstd::prelude::*;
use super::codedindex::{self, CodedIndex, CodedKind, SimpleCodedIndex};
use super::enums;
use super::table::TableRows;
use super::{
    decode_row, refers_to, row_size, run_list, spec_run, value_views, Column, Heaps,
    MDTable, MDTableRowTrait, TableLayout, ValueView,
};
use crate::stream::guid_heap::Guid;
use crate::Result;

verus! {

/// The list that holds the one reference `index`.
pub fn single_index(index: SimpleCodedIndex) -> (r: Vec<SimpleCodedIndex>)
    ensures
        r@ == seq![index],
{
    let mut list: Vec<SimpleCodedIndex> = Vec::new();
    list.push(index);
    assert(list@ =~= seq![index]);
    list
}

/// The row that a list of owned rows starts with, where it has one.
pub open spec fn spec_first(list: Seq<SimpleCodedIndex>) -> Option<usize> {
    if list.len() > 0 {
        Some(list[0].row_index)
    } else {
        None
    }
}

/// Whether `list` is the list `before` of an owner filled in: the rows of
/// `table` from the first of `before` to the one before the first of the
/// next owner's list `next`, and not past row `count`. A list without a
/// first row stays empty.
pub open spec fn completes_list(
    list: Seq<SimpleCodedIndex>,
    before: Seq<SimpleCodedIndex>,
    next: Option<Seq<SimpleCodedIndex>>,
    table: &'static str,
    count: usize,
) -> bool {
    match spec_first(before) {
        Some(first) => refers_to(
            list,
            table,
            spec_run(
                first,
                match next {
                    Some(n) => spec_first(n),
                    None => None,
                },
                count,
            ),
        ),
        None => list.len() == 0,
    }
}

/// Fills in the list `before` of an owner: see `completes_list`.
pub fn complete_list(
    before: &Vec<SimpleCodedIndex>,
    next: Option<&Vec<SimpleCodedIndex>>,
    table: &'static str,
    count: usize,
) -> (r: Vec<SimpleCodedIndex>)
    ensures
        completes_list(
            r@,
            before@,
            match next {
                Some(n) => Some(n@),
                None => None,
            },
            table,
            count,
        ),
{
    if before.len() == 0 {
        return Vec::new();
    }
    let first = before[0].row_index;
    let next_first = match next {
        Some(n) => if n.len() > 0 {
            Some(n[0].row_index)
        } else {
            None
        },
        None => None,
    };
    run_list(table, first, next_first, count)
}

/// The module that the image holds.
#[derive(Debug, Clone)]
pub struct Module {
    /// The generation; reserved.
    pub generation: u16,
    /// The name of the module.
    pub name: String,
    /// The identifier of this version of the module.
    pub mvid: Guid,
    /// Reserved.
    pub enc_id: Guid,
    /// Reserved.
    pub enc_base_id: Guid,
}

impl MDTableRowTrait for Module {
    open spec fn spec_columns() -> Seq<Column> {
        seq![Column::Fixed(2), Column::Strings, Column::Guids, Column::Guids, Column::Guids]
    }

    open spec fn is_blank(&self) -> bool {
        &&& self.generation == 0
        &&& self.name@.len() == 0
        &&& self.mvid.value == 0
        &&& self.enc_id.value == 0
        &&& self.enc_base_id.value == 0
    }

    open spec fn holds(&self, values: Seq<ValueView>) -> bool {
        &&& values.len() == 5
        &&& values[0] matches ValueView::Number(n0)
        &&& self.generation == n0 as u16
        &&& values[1] == ValueView::Text(self.name@)
        &&& values[2] == ValueView::Id(self.mvid)
        &&& values[3] == ValueView::Id(self.enc_id)
        &&& values[4] == ValueView::Id(self.enc_base_id)
    }

    open spec fn completes(&self, before: &Self, next_row: Option<&Self>, layout: &TableLayout) -> bool {
        *self == *before
    }

    open spec fn spec_pick(rows: &TableRows) -> Option<&MDTable<Self>> {
        match rows {
            TableRows::Module(table) => Some(table),
            _ => None,
        }
    }

    open spec fn spec_wrap(table: MDTable<Self>) -> TableRows {
        TableRows::Module(table)
    }

    proof fn columns_are_wf() {
    }

    fn blank() -> (r: Self) {
        Module {
            generation: 0,
            name: String::new(),
            mvid: Guid::nil(),
            enc_id: Guid::nil(),
            enc_base_id: Guid::nil(),
        }
    }

    fn columns() -> (r: Vec<Column>) {
        let mut columns: Vec<Column> = Vec::new();
        columns.push(Column::Fixed(2));
        columns.push(Column::Strings);
        columns.push(Column::Guids);
        columns.push(Column::Guids);
        columns.push(Column::Guids);
        assert(columns@ =~= Self::spec_columns());
        columns
    }

    fn size(
        &self,
        str_offset_size: usize,
        guids_offset_size: usize,
        blobs_offset_size: usize,
        tables_row_counts: &Vec<usize>,
    ) -> (r: usize) {
        let columns = Self::columns();
        row_size(&columns, str_offset_size, guids_offset_size, blobs_offset_size, tables_row_counts)
    }

    fn parse(&mut self, data: &Vec<u8>, layout: &TableLayout, heaps: &Heaps) -> (r: Result<()>) {
        let columns = Self::columns();
        let mut values = decode_row(&columns, data.as_slice(), layout, heaps)?;
        let ghost all = value_views(values@);
        let v4 = values.pop().unwrap();
        let v3 = values.pop().unwrap();
        let v2 = values.pop().unwrap();
        let v1 = values.pop().unwrap();
        let v0 = values.pop().unwrap();
        proof {
            assert(all[0] == v0@);
            assert(all[1] == v1@);
            assert(all[2] == v2@);
            assert(all[3] == v3@);
            assert(all[4] == v4@);
        }
        self.generation = #[verifier::truncate]
        (v0.into_number() as u16);
        self.name = v1.into_text();
        self.mvid = v2.into_id();
        self.enc_id = v3.into_id();
        self.enc_base_id = v4.into_id();
        Ok(())
    }

    fn parse2(&mut self, _layout: &TableLayout, _next_row: Option<&Self>) -> (r: Result<()>) {
        Ok(())
    }

    fn pick(rows: &TableRows) -> (r: Option<&MDTable<Self>>) {
        match rows {
            TableRows::Module(table) => Some(table),
            _ => None,
        }
    }

    fn pick_mut(rows: &mut TableRows) -> (r: Option<&mut MDTable<Self>>) {
        match rows {
            TableRows::Module(table) => Some(table),
            _ => None,
        }
    }
}

/// A type that is defined elsewhere.
#[derive(Debug, Clone)]
pub struct TypeRef {
    pub resolution_scope: codedindex::ResolutionScope,
    /// The name of the type.
    pub name: String,
    /// The namespace of the type.
    pub namespace: String,
}

impl MDTableRowTrait for TypeRef {
    open spec fn spec_columns() -> Seq<Column> {
        seq![Column::Coded(CodedKind::ResolutionScope), Column::Strings, Column::Strings]
    }

    open spec fn is_blank(&self) -> bool {
        &&& self.resolution_scope.row_index == 0
        &&& self.resolution_scope.table@.len() == 0
        &&& self.resolution_scope.tag_bits == CodedKind::ResolutionScope.spec_tag_bits()
        &&& self.resolution_scope.table_names@ == CodedKind::ResolutionScope.spec_names()
        &&& self.name@.len() == 0
        &&& self.namespace@.len() == 0
    }

    open spec fn holds(&self, values: Seq<ValueView>) -> bool {
        &&& values.len() == 3
        &&& values[0] == ValueView::Row(self.resolution_scope.table, self.resolution_scope.row_index)
        &&& values[1] == ValueView::Text(self.name@)
        &&& values[2] == ValueView::Text(self.namespace@)
    }

    open spec fn completes(&self, before: &Self, next_row: Option<&Self>, layout: &TableLayout) -> bool {
        *self == *before
    }

    open spec fn spec_pick(rows: &TableRows) -> Option<&MDTable<Self>> {
        match rows {
            TableRows::TypeRef(table) => Some(table),
            _ => None,
        }
    }

    open spec fn spec_wrap(table: MDTable<Self>) -> TableRows {
        TableRows::TypeRef(table)
    }

    proof fn columns_are_wf() {
    }

    fn blank() -> (r: Self) {
        TypeRef {
            resolution_scope: codedindex::ResolutionScope::default(),
            name: String::new(),
            namespace: String::new(),
        }
    }

    fn columns() -> (r: Vec<Column>) {
        let mut columns: Vec<Column> = Vec::new();
        columns.push(Column::Coded(CodedKind::ResolutionScope));
        columns.push(Column::Strings);
        columns.push(Column::Strings);
        assert(columns@ =~= Self::spec_columns());
        columns
    }

    fn size(
        &self,
        str_offset_size: usize,
        guids_offset_size: usize,
        blobs_offset_size: usize,
        tables_row_counts: &Vec<usize>,
    ) -> (r: usize) {
        let columns = Self::columns();
        row_size(&columns, str_offset_size, guids_offset_size, blobs_offset_size, tables_row_counts)
    }

    fn parse(&mut self, data: &Vec<u8>, layout: &TableLayout, heaps: &Heaps) -> (r: Result<()>) {
        let columns = Self::columns();
        let mut values = decode_row(&columns, data.as_slice(), layout, heaps)?;
        let ghost all = value_views(values@);
        let v2 = values.pop().unwrap();
        let v1 = values.pop().unwrap();
        let v0 = values.pop().unwrap();
        proof {
            assert(all[0] == v0@);
            assert(all[1] == v1@);
            assert(all[2] == v2@);
        }
        let (table0, row0) = v0.into_row();
        self.resolution_scope.set_table(table0);
        self.resolution_scope.set_row_index(row0);
        self.name = v1.into_text();
        self.namespace = v2.into_text();
        Ok(())
    }

    fn parse2(&mut self, _layout: &TableLayout, _next_row: Option<&Self>) -> (r: Result<()>) {
        Ok(())
    }

    fn pick(rows: &TableRows) -> (r: Option<&MDTable<Self>>) {
        match rows {
            TableRows::TypeRef(table) => Some(table),
            _ => None,
        }
    }

    fn pick_mut(rows: &mut TableRows) -> (r: Option<&mut MDTable<Self>>) {
        match rows {
            TableRows::TypeRef(table) => Some(table),
            _ => None,
        }
    }
}

/// A type that is defined here.
#[derive(Debug, Clone)]
pub struct TypeDef {
    pub flags: enums::ClrTypeAttr,
    /// The name of the type.
    pub name: String,
    /// The namespace of the type.
    pub namespace: String,
    /// The base type.
    pub extends: codedindex::TypeDefOrRef,
    /// The fields of the type.
    pub field_list: Vec<SimpleCodedIndex>,
    /// The methods of the type.
    pub method_list: Vec<SimpleCodedIndex>,
}

impl MDTableRowTrait for TypeDef {
    open spec fn spec_columns() -> Seq<Column> {
        seq![
            Column::Fixed(4),
            Column::Strings,
            Column::Strings,
            Column::Coded(CodedKind::TypeDefOrRef),
            Column::Index("Field"),
            Column::Index("MethodDef"),
        ]
    }

    open spec fn is_blank(&self) -> bool {
        &&& self.flags.decodes(0)
        &&& self.name@.len() == 0
        &&& self.namespace@.len() == 0
        &&& self.extends.row_index == 0
        &&& self.extends.table@.len() == 0
        &&& self.extends.tag_bits == CodedKind::TypeDefOrRef.spec_tag_bits()
        &&& self.extends.table_names@ == CodedKind::TypeDefOrRef.spec_names()
        &&& self.field_list@.len() == 0
        &&& self.method_list@.len() == 0
    }

    open spec fn holds(&self, values: Seq<ValueView>) -> bool {
        &&& values.len() == 6
        &&& values[0] matches ValueView::Number(n0)
        &&& self.flags.decodes(n0)
        &&& values[1] == ValueView::Text(self.name@)
        &&& values[2] == ValueView::Text(self.namespace@)
        &&& values[3] == ValueView::Row(self.extends.table, self.extends.row_index)
        &&& self.field_list@.len() == 1
        &&& values[4] == ValueView::Row(self.field_list@[0].table, self.field_list@[0].row_index)
        &&& self.method_list@.len() == 1
        &&& values[5] == ValueView::Row(self.method_list@[0].table, self.method_list@[0].row_index)
    }

    open spec fn completes(&self, before: &Self, next_row: Option<&Self>, layout: &TableLayout) -> bool {
        &&& self.flags == before.flags
        &&& self.name == before.name
        &&& self.namespace == before.namespace
        &&& self.extends == before.extends
        &&& completes_list(
            self.field_list@,
            before.field_list@,
            match next_row {
                Some(next) => Some(next.field_list@),
                None => None,
            },
            "Field",
            layout.tables_row_counts@[4],
        )
        &&& completes_list(
            self.method_list@,
            before.method_list@,
            match next_row {
                Some(next) => Some(next.method_list@),
                None => None,
            },
            "MethodDef",
            layout.tables_row_counts@[6],
        )
    }

    open spec fn spec_pick(rows: &TableRows) -> Option<&MDTable<Self>> {
        match rows {
            TableRows::TypeDef(table) => Some(table),
            _ => None,
        }
    }

    open spec fn spec_wrap(table: MDTable<Self>) -> TableRows {
        TableRows::TypeDef(table)
    }

    proof fn columns_are_wf() {
    }

    fn blank() -> (r: Self) {
        TypeDef {
            flags: enums::ClrTypeAttr::default(),
            name: String::new(),
            namespace: String::new(),
            extends: codedindex::TypeDefOrRef::default(),
            field_list: Vec::new(),
            method_list: Vec::new(),
        }
    }

    fn columns() -> (r: Vec<Column>) {
        let mut columns: Vec<Column> = Vec::new();
        columns.push(Column::Fixed(4));
        columns.push(Column::Strings);
        columns.push(Column::Strings);
        columns.push(Column::Coded(CodedKind::TypeDefOrRef));
        columns.push(Column::Index("Field"));
        columns.push(Column::Index("MethodDef"));
        assert(columns@ =~= Self::spec_columns());
        columns
    }

    fn size(
        &self,
        str_offset_size: usize,
        guids_offset_size: usize,
        blobs_offset_size: usize,
        tables_row_counts: &Vec<usize>,
    ) -> (r: usize) {
        let columns = Self::columns();
        row_size(&columns, str_offset_size, guids_offset_size, blobs_offset_size, tables_row_counts)
    }

    fn parse(&mut self, data: &Vec<u8>, layout: &TableLayout, heaps: &Heaps) -> (r: Result<()>) {
        let columns = Self::columns();
        let mut values = decode_row(&columns, data.as_slice(), layout, heaps)?;
        let ghost all = value_views(values@);
        let v5 = values.pop().unwrap();
        let v4 = values.pop().unwrap();
        let v3 = values.pop().unwrap();
        let v2 = values.pop().unwrap();
        let v1 = values.pop().unwrap();
        let v0 = values.pop().unwrap();
        proof {
            assert(all[0] == v0@);
            assert(all[1] == v1@);
            assert(all[2] == v2@);
            assert(all[3] == v3@);
            assert(all[4] == v4@);
            assert(all[5] == v5@);
        }
        self.flags = enums::ClrTypeAttr::from_value(v0.into_number());
        self.name = v1.into_text();
        self.namespace = v2.into_text();
        let (table3, row3) = v3.into_row();
        self.extends.set_table(table3);
        self.extends.set_row_index(row3);
        let (table4, row4) = v4.into_row();
        self.field_list = single_index(SimpleCodedIndex::to_row(table4, row4));
        let (table5, row5) = v5.into_row();
        self.method_list = single_index(SimpleCodedIndex::to_row(table5, row5));
        Ok(())
    }

    fn parse2(&mut self, layout: &TableLayout, next_row: Option<&Self>) -> (r: Result<()>) {
        let next_field_list = match next_row {
            Some(next) => Some(&next.field_list),
            None => None,
        };
        self.field_list = complete_list(
            &self.field_list,
            next_field_list,
            "Field",
            layout.tables_row_counts[4],
        );
        let next_method_list = match next_row {
            Some(next) => Some(&next.method_list),
            None => None,
        };
        self.method_list = complete_list(
            &self.method_list,
            next_method_list,
            "MethodDef",
            layout.tables_row_counts[6],
        );
        Ok(())
    }

    fn pick(rows: &TableRows) -> (r: Option<&MDTable<Self>>) {
        match rows {
            TableRows::TypeDef(table) => Some(table),
            _ => None,
        }
    }

    fn pick_mut(rows: &mut TableRows) -> (r: Option<&mut MDTable<Self>>) {
        match rows {
            TableRows::TypeDef(table) => Some(table),
            _ => None,
        }
    }
}

/// An indirection to a field.
#[derive(Debug, Clone)]
pub struct FieldPtr {
    pub field: SimpleCodedIndex,
}

impl MDTableRowTrait for FieldPtr {
    open spec fn spec_columns() -> Seq<Column> {
        seq![Column::Index("Field")]
    }

    open spec fn is_blank(&self) -> bool {
        &&& self.field.row_index == 0
        &&& self.field.table@.len() == 0
    }

    open spec fn holds(&self, values: Seq<ValueView>) -> bool {
        &&& values.len() == 1
        &&& values[0] == ValueView::Row(self.field.table, self.field.row_index)
    }

    open spec fn completes(&self, before: &Self, next_row: Option<&Self>, layout: &TableLayout) -> bool {
        *self == *before
    }

    open spec fn spec_pick(rows: &TableRows) -> Option<&MDTable<Self>> {
        match rows {
            TableRows::FieldPtr(table) => Some(table),
            _ => None,
        }
    }

    open spec fn spec_wrap(table: MDTable<Self>) -> TableRows {
        TableRows::FieldPtr(table)
    }

    proof fn columns_are_wf() {
    }

    fn blank() -> (r: Self) {
        FieldPtr {
            field: SimpleCodedIndex::default(),
        }
    }

    fn columns() -> (r: Vec<Column>) {
        let mut columns: Vec<Column> = Vec::new();
        columns.push(Column::Index("Field"));
        assert(columns@ =~= Self::spec_columns());
        columns
    }

    fn size(
        &self,
        str_offset_size: usize,
        guids_offset_size: usize,
        blobs_offset_size: usize,
        tables_row_counts: &Vec<usize>,
    ) -> (r: usize) {
        let columns = Self::columns();
        row_size(&columns, str_offset_size, guids_offset_size, blobs_offset_size, tables_row_counts)
    }

    fn parse(&mut self, data: &Vec<u8>, layout: &TableLayout, heaps: &Heaps) -> (r: Result<()>) {
        let columns = Self::columns();
        let mut values = decode_row(&columns, data.as_slice(), layout, heaps)?;
        let ghost all = value_views(values@);
        let v0 = values.pop().unwrap();
        proof {
            assert(all[0] == v0@);
        }
        let (table0, row0) = v0.into_row();
        self.field = SimpleCodedIndex::to_row(table0, row0);
        Ok(())
    }

    fn parse2(&mut self, _layout: &TableLayout, _next_row: Option<&Self>) -> (r: Result<()>) {
        Ok(())
    }

    fn pick(rows: &TableRows) -> (r: Option<&MDTable<Self>>) {
        match rows {
            TableRows::FieldPtr(table) => Some(table),
            _ => None,
        }
    }

    fn pick_mut(rows: &mut TableRows) -> (r: Option<&mut MDTable<Self>>) {
        match rows {
            TableRows::FieldPtr(table) => Some(table),
            _ => None,
        }
    }
}

/// A field.
#[derive(Debug, Clone)]
pub struct Field {
    pub flags: Vec<enums::ClrFieldAttr>,
    pub name: String,
    pub signature: Vec<u8>,
}

impl MDTableRowTrait for Field {
    open spec fn spec_columns() -> Seq<Column> {
        seq![Column::Fixed(2), Column::Strings, Column::Blobs]
    }

    open spec fn is_blank(&self) -> bool {
        &&& self.flags@.len() == 0
        &&& self.name@.len() == 0
        &&& self.signature@.len() == 0
    }

    open spec fn holds(&self, values: Seq<ValueView>) -> bool {
        &&& values.len() == 3
        &&& values[0] matches ValueView::Number(n0)
        &&& self.flags@ == enums::ClrFieldAttr::spec_new(n0)
        &&& values[1] == ValueView::Text(self.name@)
        &&& values[2] == ValueView::Bytes(self.signature@)
    }

    open spec fn completes(&self, before: &Self, next_row: Option<&Self>, layout: &TableLayout) -> bool {
        *self == *before
    }

    open spec fn spec_pick(rows: &TableRows) -> Option<&MDTable<Self>> {
        match rows {
            TableRows::Field(table) => Some(table),
            _ => None,
        }
    }

    open spec fn spec_wrap(table: MDTable<Self>) -> TableRows {
        TableRows::Field(table)
    }

    proof fn columns_are_wf() {
    }

    fn blank() -> (r: Self) {
        Field {
            flags: Vec::new(),
            name: String::new(),
            signature: Vec::new(),
        }
    }

    fn columns() -> (r: Vec<Column>) {
        let mut columns: Vec<Column> = Vec::new();
        columns.push(Column::Fixed(2));
        columns.push(Column::Strings);
        columns.push(Column::Blobs);
        assert(columns@ =~= Self::spec_columns());
        columns
    }

    fn size(
        &self,
        str_offset_size: usize,
        guids_offset_size: usize,
        blobs_offset_size: usize,
        tables_row_counts: &Vec<usize>,
    ) -> (r: usize) {
        let columns = Self::columns();
        row_size(&columns, str_offset_size, guids_offset_size, blobs_offset_size, tables_row_counts)
    }

    fn parse(&mut self, data: &Vec<u8>, layout: &TableLayout, heaps: &Heaps) -> (r: Result<()>) {
        let columns = Self::columns();
        let mut values = decode_row(&columns, data.as_slice(), layout, heaps)?;
        let ghost all = value_views(values@);
        let v2 = values.pop().unwrap();
        let v1 = values.pop().unwrap();
        let v0 = values.pop().unwrap();
        proof {
            assert(all[0] == v0@);
            assert(all[1] == v1@);
            assert(all[2] == v2@);
        }
        self.flags = enums::ClrFieldAttr::new(v0.into_number());
        self.name = v1.into_text();
        self.signature = v2.into_bytes();
        Ok(())
    }

    fn parse2(&mut self, _layout: &TableLayout, _next_row: Option<&Self>) -> (r: Result<()>) {
        Ok(())
    }

    fn pick(rows: &TableRows) -> (r: Option<&MDTable<Self>>) {
        match rows {
            TableRows::Field(table) => Some(table),
            _ => None,
        }
    }

    fn pick_mut(rows: &mut TableRows) -> (r: Option<&mut MDTable<Self>>) {
        match rows {
            TableRows::Field(table) => Some(table),
            _ => None,
        }
    }
}

/// An indirection to a method.
#[derive(Debug, Clone)]
pub struct MethodPtr {
    pub field: SimpleCodedIndex,
}

impl MDTableRowTrait for MethodPtr {
    open spec fn spec_columns() -> Seq<Column> {
        seq![Column::Index("MethodDef")]
    }

    open spec fn is_blank(&self) -> bool {
        &&& self.field.row_index == 0
        &&& self.field.table@.len() == 0
    }

    open spec fn holds(&self, values: Seq<ValueView>) -> bool {
        &&& values.len() == 1
        &&& values[0] == ValueView::Row(self.field.table, self.field.row_index)
    }

    open spec fn completes(&self, before: &Self, next_row: Option<&Self>, layout: &TableLayout) -> bool {
        *self == *before
    }

    open spec fn spec_pick(rows: &TableRows) -> Option<&MDTable<Self>> {
        match rows {
            TableRows::MethodPtr(table) => Some(table),
            _ => None,
        }
    }

    open spec fn spec_wrap(table: MDTable<Self>) -> TableRows {
        TableRows::MethodPtr(table)
    }

    proof fn columns_are_wf() {
    }

    fn blank() -> (r: Self) {
        MethodPtr {
            field: SimpleCodedIndex::default(),
        }
    }

    fn columns() -> (r: Vec<Column>) {
        let mut columns: Vec<Column> = Vec::new();
        columns.push(Column::Index("MethodDef"));
        assert(columns@ =~= Self::spec_columns());
        columns
    }

    fn size(
        &self,
        str_offset_size: usize,
        guids_offset_size: usize,
        blobs_offset_size: usize,
        tables_row_counts: &Vec<usize>,
    ) -> (r: usize) {
        let columns = Self::columns();
        row_size(&columns, str_offset_size, guids_offset_size, blobs_offset_size, tables_row_counts)
    }

    fn parse(&mut self, data: &Vec<u8>, layout: &TableLayout, heaps: &Heaps) -> (r: Result<()>) {
        let columns = Self::columns();
        let mut values = decode_row(&columns, data.as_slice(), layout, heaps)?;
        let ghost all = value_views(values@);
        let v0 = values.pop().unwrap();
        proof {
            assert(all[0] == v0@);
        }
        let (table0, row0) = v0.into_row();
        self.field = SimpleCodedIndex::to_row(table0, row0);
        Ok(())
    }

    fn parse2(&mut self, _layout: &TableLayout, _next_row: Option<&Self>) -> (r: Result<()>) {
        Ok(())
    }

    fn pick(rows: &TableRows) -> (r: Option<&MDTable<Self>>) {
        match rows {
            TableRows::MethodPtr(table) => Some(table),
            _ => None,
        }
    }

    fn pick_mut(rows: &mut TableRows) -> (r: Option<&mut MDTable<Self>>) {
        match rows {
            TableRows::MethodPtr(table) => Some(table),
            _ => None,
        }
    }
}

/// A method that is defined here.
#[derive(Debug, Clone)]
pub struct MethodDef {
    /// Where the body of the method lies; 0 for none.
    pub rva: u32,
    pub impl_flags: Vec<enums::ClrMethodImpl>,
    pub flags: Vec<enums::ClrMethodAttr>,
    pub name: String,
    pub signature: Vec<u8>,
    /// The parameters of the method; not filled in.
    pub param_list: Vec<SimpleCodedIndex>,
}

impl MDTableRowTrait for MethodDef {
    open spec fn spec_columns() -> Seq<Column> {
        seq![
            Column::Fixed(4),
            Column::Fixed(2),
            Column::Fixed(2),
            Column::Strings,
            Column::Blobs,
            Column::Skipped("Param"),
        ]
    }

    open spec fn is_blank(&self) -> bool {
        &&& self.rva == 0
        &&& self.impl_flags@.len() == 0
        &&& self.flags@.len() == 0
        &&& self.name@.len() == 0
        &&& self.signature@.len() == 0
        &&& self.param_list@.len() == 0
    }

    open spec fn holds(&self, values: Seq<ValueView>) -> bool {
        &&& values.len() == 6
        &&& values[0] matches ValueView::Number(n0)
        &&& self.rva == n0 as u32
        &&& values[1] matches ValueView::Number(n1)
        &&& self.impl_flags@ == enums::ClrMethodImpl::spec_new(n1)
        &&& values[2] matches ValueView::Number(n2)
        &&& self.flags@ == enums::ClrMethodAttr::spec_new(n2)
        &&& values[3] == ValueView::Text(self.name@)
        &&& values[4] == ValueView::Bytes(self.signature@)
        &&& self.param_list@.len() == 0
    }

    open spec fn completes(&self, before: &Self, next_row: Option<&Self>, layout: &TableLayout) -> bool {
        *self == *before
    }

    open spec fn spec_pick(rows: &TableRows) -> Option<&MDTable<Self>> {
        match rows {
            TableRows::MethodDef(table) => Some(table),
            _ => None,
        }
    }

    open spec fn spec_wrap(table: MDTable<Self>) -> TableRows {
        TableRows::MethodDef(table)
    }

    proof fn columns_are_wf() {
    }

    fn blank() -> (r: Self) {
        MethodDef {
            rva: 0,
            impl_flags: Vec::new(),
            flags: Vec::new(),
            name: String::new(),
            signature: Vec::new(),
            param_list: Vec::new(),
        }
    }

    fn columns() -> (r: Vec<Column>) {
        let mut columns: Vec<Column> = Vec::new();
        columns.push(Column::Fixed(4));
        columns.push(Column::Fixed(2));
        columns.push(Column::Fixed(2));
        columns.push(Column::Strings);
        columns.push(Column::Blobs);
        columns.push(Column::Skipped("Param"));
        assert(columns@ =~= Self::spec_columns());
        columns
    }

    fn size(
        &self,
        str_offset_size: usize,
        guids_offset_size: usize,
        blobs_offset_size: usize,
        tables_row_counts: &Vec<usize>,
    ) -> (r: usize) {
        let columns = Self::columns();
        row_size(&columns, str_offset_size, guids_offset_size, blobs_offset_size, tables_row_counts)
    }

    fn parse(&mut self, data: &Vec<u8>, layout: &TableLayout, heaps: &Heaps) -> (r: Result<()>) {
        let columns = Self::columns();
        let mut values = decode_row(&columns, data.as_slice(), layout, heaps)?;
        let ghost all = value_views(values@);
        let v5 = values.pop().unwrap();
        let v4 = values.pop().unwrap();
        let v3 = values.pop().unwrap();
        let v2 = values.pop().unwrap();
        let v1 = values.pop().unwrap();
        let v0 = values.pop().unwrap();
        proof {
            assert(all[0] == v0@);
            assert(all[1] == v1@);
            assert(all[2] == v2@);
            assert(all[3] == v3@);
            assert(all[4] == v4@);
            assert(all[5] == v5@);
        }
        self.rva = #[verifier::truncate]
        (v0.into_number() as u32);
        self.impl_flags = enums::ClrMethodImpl::new(v1.into_number());
        self.flags = enums::ClrMethodAttr::new(v2.into_number());
        self.name = v3.into_text();
        self.signature = v4.into_bytes();
        self.param_list = Vec::new();
        Ok(())
    }

    fn parse2(&mut self, _layout: &TableLayout, _next_row: Option<&Self>) -> (r: Result<()>) {
        Ok(())
    }

    fn pick(rows: &TableRows) -> (r: Option<&MDTable<Self>>) {
        match rows {
            TableRows::MethodDef(table) => Some(table),
            _ => None,
        }
    }

    fn pick_mut(rows: &mut TableRows) -> (r: Option<&mut MDTable<Self>>) {
        match rows {
            TableRows::MethodDef(table) => Some(table),
            _ => None,
        }
    }
}

/// An indirection to a parameter.
#[derive(Debug, Clone)]
pub struct ParamPtr {
    pub field: SimpleCodedIndex,
}

impl MDTableRowTrait for ParamPtr {
    open spec fn spec_columns() -> Seq<Column> {
        seq![Column::Index("Param")]
    }

    open spec fn is_blank(&self) -> bool {
        &&& self.field.row_index == 0
        &&& self.field.table@.len() == 0
    }

    open spec fn holds(&self, values: Seq<ValueView>) -> bool {
        &&& values.len() == 1
        &&& values[0] == ValueView::Row(self.field.table, self.field.row_index)
    }

    open spec fn completes(&self, before: &Self, next_row: Option<&Self>, layout: &TableLayout) -> bool {
        *self == *before
    }

    open spec fn spec_pick(rows: &TableRows) -> Option<&MDTable<Self>> {
        match rows {
            TableRows::ParamPtr(table) => Some(table),
            _ => None,
        }
    }

    open spec fn spec_wrap(table: MDTable<Self>) -> TableRows {
        TableRows::ParamPtr(table)
    }

    proof fn columns_are_wf() {
    }

    fn blank() -> (r: Self) {
        ParamPtr {
            field: SimpleCodedIndex::default(),
        }
    }

    fn columns() -> (r: Vec<Column>) {
        let mut columns: Vec<Column> = Vec::new();
        columns.push(Column::Index("Param"));
        assert(columns@ =~= Self::spec_columns());
        columns
    }

    fn size(
        &self,
        str_offset_size: usize,
        guids_offset_size: usize,
        blobs_offset_size: usize,
        tables_row_counts: &Vec<usize>,
    ) -> (r: usize) {
        let columns = Self::columns();
        row_size(&columns, str_offset_size, guids_offset_size, blobs_offset_size, tables_row_counts)
    }

    fn parse(&mut self, data: &Vec<u8>, layout: &TableLayout, heaps: &Heaps) -> (r: Result<()>) {
        let columns = Self::columns();
        let mut values = decode_row(&columns, data.as_slice(), layout, heaps)?;
        let ghost all = value_views(values@);
        let v0 = values.pop().unwrap();
        proof {
            assert(all[0] == v0@);
        }
        let (table0, row0) = v0.into_row();
        self.field = SimpleCodedIndex::to_row(table0, row0);
        Ok(())
    }

    fn parse2(&mut self, _layout: &TableLayout, _next_row: Option<&Self>) -> (r: Result<()>) {
        Ok(())
    }

    fn pick(rows: &TableRows) -> (r: Option<&MDTable<Self>>) {
        match rows {
            TableRows::ParamPtr(table) => Some(table),
            _ => None,
        }
    }

    fn pick_mut(rows: &mut TableRows) -> (r: Option<&mut MDTable<Self>>) {
        match rows {
            TableRows::ParamPtr(table) => Some(table),
            _ => None,
        }
    }
}

/// A parameter of a method.
#[derive(Debug, Clone)]
pub struct Param {
    pub flags: Vec<enums::ClrParamAttr>,
    pub sequence: usize,
    pub name: String,
}

impl MDTableRowTrait for Param {
    open spec fn spec_columns() -> Seq<Column> {
        seq![Column::Fixed(2), Column::Fixed(2), Column::Strings]
    }

    open spec fn is_blank(&self) -> bool {
        &&& self.flags@.len() == 0
        &&& self.sequence == 0
        &&& self.name@.len() == 0
    }

    open spec fn holds(&self, values: Seq<ValueView>) -> bool {
        &&& values.len() == 3
        &&& values[0] matches ValueView::Number(n0)
        &&& self.flags@ == enums::ClrParamAttr::spec_new(n0)
        &&& values[1] == ValueView::Number(self.sequence)
        &&& values[2] == ValueView::Text(self.name@)
    }

    open spec fn completes(&self, before: &Self, next_row: Option<&Self>, layout: &TableLayout) -> bool {
        *self == *before
    }

    open spec fn spec_pick(rows: &TableRows) -> Option<&MDTable<Self>> {
        match rows {
            TableRows::Param(table) => Some(table),
            _ => None,
        }
    }

    open spec fn spec_wrap(table: MDTable<Self>) -> TableRows {
        TableRows::Param(table)
    }

    proof fn columns_are_wf() {
    }

    fn blank() -> (r: Self) {
        Param {
            flags: Vec::new(),
            sequence: 0,
            name: String::new(),
        }
    }

    fn columns() -> (r: Vec<Column>) {
        let mut columns: Vec<Column> = Vec::new();
        columns.push(Column::Fixed(2));
        columns.push(Column::Fixed(2));
        columns.push(Column::Strings);
        assert(columns@ =~= Self::spec_columns());
        columns
    }

    fn size(
        &self,
        str_offset_size: usize,
        guids_offset_size: usize,
        blobs_offset_size: usize,
        tables_row_counts: &Vec<usize>,
    ) -> (r: usize) {
        let columns = Self::columns();
        row_size(&columns, str_offset_size, guids_offset_size, blobs_offset_size, tables_row_counts)
    }

    fn parse(&mut self, data: &Vec<u8>, layout: &TableLayout, heaps: &Heaps) -> (r: Result<()>) {
        let columns = Self::columns();
        let mut values = decode_row(&columns, data.as_slice(), layout, heaps)?;
        let ghost all = value_views(values@);
        let v2 = values.pop().unwrap();
        let v1 = values.pop().unwrap();
        let v0 = values.pop().unwrap();
        proof {
            assert(all[0] == v0@);
            assert(all[1] == v1@);
            assert(all[2] == v2@);
        }
        self.flags = enums::ClrParamAttr::new(v0.into_number());
        self.sequence = v1.into_number();
        self.name = v2.into_text();
        Ok(())
    }

    fn parse2(&mut self, _layout: &TableLayout, _next_row: Option<&Self>) -> (r: Result<()>) {
        Ok(())
    }

    fn pick(rows: &TableRows) -> (r: Option<&MDTable<Self>>) {
        match rows {
            TableRows::Param(table) => Some(table),
            _ => None,
        }
    }

    fn pick_mut(rows: &mut TableRows) -> (r: Option<&mut MDTable<Self>>) {
        match rows {
            TableRows::Param(table) => Some(table),
            _ => None,
        }
    }
}

/// An interface that a type implements.
#[derive(Debug, Clone)]
pub struct InterfaceImpl {
    pub class: SimpleCodedIndex,
    pub interface: codedindex::TypeDefOrRef,
}

impl MDTableRowTrait for InterfaceImpl {
    open spec fn spec_columns() -> Seq<Column> {
        seq![Column::Index("TypeDef"), Column::Coded(CodedKind::TypeDefOrRef)]
    }

    open spec fn is_blank(&self) -> bool {
        &&& self.class.row_index == 0
        &&& self.class.table@.len() == 0
        &&& self.interface.row_index == 0
        &&& self.interface.table@.len() == 0
        &&& self.interface.tag_bits == CodedKind::TypeDefOrRef.spec_tag_bits()
        &&& self.interface.table_names@ == CodedKind::TypeDefOrRef.spec_names()
    }

    open spec fn holds(&self, values: Seq<ValueView>) -> bool {
        &&& values.len() == 2
        &&& values[0] == ValueView::Row(self.class.table, self.class.row_index)
        &&& values[1] == ValueView::Row(self.interface.table, self.interface.row_index)
    }

    open spec fn completes(&self, before: &Self, next_row: Option<&Self>, layout: &TableLayout) -> bool {
        *self == *before
    }

    open spec fn spec_pick(rows: &TableRows) -> Option<&MDTable<Self>> {
        match rows {
            TableRows::InterfaceImpl(table) => Some(table),
            _ => None,
        }
    }

    open spec fn spec_wrap(table: MDTable<Self>) -> TableRows {
        TableRows::InterfaceImpl(table)
    }

    proof fn columns_are_wf() {
    }

    fn blank() -> (r: Self) {
        InterfaceImpl {
            class: SimpleCodedIndex::default(),
            interface: codedindex::TypeDefOrRef::default(),
        }
    }

    fn columns() -> (r: Vec<Column>) {
        let mut columns: Vec<Column> = Vec::new();
        columns.push(Column::Index("TypeDef"));
        columns.push(Column::Coded(CodedKind::TypeDefOrRef));
        assert(columns@ =~= Self::spec_columns());
        columns
    }

    fn size(
        &self,
        str_offset_size: usize,
        guids_offset_size: usize,
        blobs_offset_size: usize,
        tables_row_counts: &Vec<usize>,
    ) -> (r: usize) {
        let columns = Self::columns();
        row_size(&columns, str_offset_size, guids_offset_size, blobs_offset_size, tables_row_counts)
    }

    fn parse(&mut self, data: &Vec<u8>, layout: &TableLayout, heaps: &Heaps) -> (r: Result<()>) {
        let columns = Self::columns();
        let mut values = decode_row(&columns, data.as_slice(), layout, heaps)?;
        let ghost all = value_views(values@);
        let v1 = values.pop().unwrap();
        let v0 = values.pop().unwrap();
        proof {
            assert(all[0] == v0@);
            assert(all[1] == v1@);
        }
        let (table0, row0) = v0.into_row();
        self.class = SimpleCodedIndex::to_row(table0, row0);
        let (table1, row1) = v1.into_row();
        self.interface.set_table(table1);
        self.interface.set_row_index(row1);
        Ok(())
    }

    fn parse2(&mut self, _layout: &TableLayout, _next_row: Option<&Self>) -> (r: Result<()>) {
        Ok(())
    }

    fn pick(rows: &TableRows) -> (r: Option<&MDTable<Self>>) {
        match rows {
            TableRows::InterfaceImpl(table) => Some(table),
            _ => None,
        }
    }

    fn pick_mut(rows: &mut TableRows) -> (r: Option<&mut MDTable<Self>>) {
        match rows {
            TableRows::InterfaceImpl(table) => Some(table),
            _ => None,
        }
    }
}

/// A member that is defined elsewhere.
#[derive(Debug, Clone)]
pub struct MemberRef {
    pub class: codedindex::MemberRefParent,
    pub name: String,
    pub signature: Vec<u8>,
}

impl MDTableRowTrait for MemberRef {
    open spec fn spec_columns() -> Seq<Column> {
        seq![Column::Coded(CodedKind::MemberRefParent), Column::Strings, Column::Blobs]
    }

    open spec fn is_blank(&self) -> bool {
        &&& self.class.row_index == 0
        &&& self.class.table@.len() == 0
        &&& self.class.tag_bits == CodedKind::MemberRefParent.spec_tag_bits()
        &&& self.class.table_names@ == CodedKind::MemberRefParent.spec_names()
        &&& self.name@.len() == 0
        &&& self.signature@.len() == 0
    }

    open spec fn holds(&self, values: Seq<ValueView>) -> bool {
        &&& values.len() == 3
        &&& values[0] == ValueView::Row(self.class.table, self.class.row_index)
        &&& values[1] == ValueView::Text(self.name@)
        &&& values[2] == ValueView::Bytes(self.signature@)
    }

    open spec fn completes(&self, before: &Self, next_row: Option<&Self>, layout: &TableLayout) -> bool {
        *self == *before
    }

    open spec fn spec_pick(rows: &TableRows) -> Option<&MDTable<Self>> {
        match rows {
            TableRows::MemberRef(table) => Some(table),
            _ => None,
        }
    }

    open spec fn spec_wrap(table: MDTable<Self>) -> TableRows {
        TableRows::MemberRef(table)
    }

    proof fn columns_are_wf() {
    }

    fn blank() -> (r: Self) {
        MemberRef {
            class: codedindex::MemberRefParent::default(),
            name: String::new(),
            signature: Vec::new(),
        }
    }

    fn columns() -> (r: Vec<Column>) {
        let mut columns: Vec<Column> = Vec::new();
        columns.push(Column::Coded(CodedKind::MemberRefParent));
        columns.push(Column::Strings);
        columns.push(Column::Blobs);
        assert(columns@ =~= Self::spec_columns());
        columns
    }

    fn size(
        &self,
        str_offset_size: usize,
        guids_offset_size: usize,
        blobs_offset_size: usize,
        tables_row_counts: &Vec<usize>,
    ) -> (r: usize) {
        let columns = Self::columns();
        row_size(&columns, str_offset_size, guids_offset_size, blobs_offset_size, tables_row_counts)
    }

    fn parse(&mut self, data: &Vec<u8>, layout: &TableLayout, heaps: &Heaps) -> (r: Result<()>) {
        let columns = Self::columns();
        let mut values = decode_row(&columns, data.as_slice(), layout, heaps)?;
        let ghost all = value_views(values@);
        let v2 = values.pop().unwrap();
        let v1 = values.pop().unwrap();
        let v0 = values.pop().unwrap();
        proof {
            assert(all[0] == v0@);
            assert(all[1] == v1@);
            assert(all[2] == v2@);
        }
        let (table0, row0) = v0.into_row();
        self.class.set_table(table0);
        self.class.set_row_index(row0);
        self.name = v1.into_text();
        self.signature = v2.into_bytes();
        Ok(())
    }

    fn parse2(&mut self, _layout: &TableLayout, _next_row: Option<&Self>) -> (r: Result<()>) {
        Ok(())
    }

    fn pick(rows: &TableRows) -> (r: Option<&MDTable<Self>>) {
        match rows {
            TableRows::MemberRef(table) => Some(table),
            _ => None,
        }
    }

    fn pick_mut(rows: &mut TableRows) -> (r: Option<&mut MDTable<Self>>) {
        match rows {
            TableRows::MemberRef(table) => Some(table),
            _ => None,
        }
    }
}

/// A constant value of a field, a parameter or a property.
#[derive(Debug, Clone)]
pub struct Constant {
    pub _type: u32,
    pub padding: u32,
    pub parent: codedindex::HasConstant,
    pub value: Vec<u8>,
}

impl MDTableRowTrait for Constant {
    open spec fn spec_columns() -> Seq<Column> {
        seq![
            Column::Fixed(1),
            Column::Fixed(1),
            Column::Coded(CodedKind::HasConstant),
            Column::Blobs,
        ]
    }

    open spec fn is_blank(&self) -> bool {
        &&& self._type == 0
        &&& self.padding == 0
        &&& self.parent.row_index == 0
        &&& self.parent.table@.len() == 0
        &&& self.parent.tag_bits == CodedKind::HasConstant.spec_tag_bits()
        &&& self.parent.table_names@ == CodedKind::HasConstant.spec_names()
        &&& self.value@.len() == 0
    }

    open spec fn holds(&self, values: Seq<ValueView>) -> bool {
        &&& values.len() == 4
        &&& values[0] matches ValueView::Number(n0)
        &&& self._type == n0 as u32
        &&& values[1] matches ValueView::Number(n1)
        &&& self.padding == n1 as u32
        &&& values[2] == ValueView::Row(self.parent.table, self.parent.row_index)
        &&& values[3] == ValueView::Bytes(self.value@)
    }

    open spec fn completes(&self, before: &Self, next_row: Option<&Self>, layout: &TableLayout) -> bool {
        *self == *before
    }

    open spec fn spec_pick(rows: &TableRows) -> Option<&MDTable<Self>> {
        match rows {
            TableRows::Constant(table) => Some(table),
            _ => None,
        }
    }

    open spec fn spec_wrap(table: MDTable<Self>) -> TableRows {
        TableRows::Constant(table)
    }

    proof fn columns_are_wf() {
    }

    fn blank() -> (r: Self) {
        Constant {
            _type: 0,
            padding: 0,
            parent: codedindex::HasConstant::default(),
            value: Vec::new(),
        }
    }

    fn columns() -> (r: Vec<Column>) {
        let mut columns: Vec<Column> = Vec::new();
        columns.push(Column::Fixed(1));
        columns.push(Column::Fixed(1));
        columns.push(Column::Coded(CodedKind::HasConstant));
        columns.push(Column::Blobs);
        assert(columns@ =~= Self::spec_columns());
        columns
    }

    fn size(
        &self,
        str_offset_size: usize,
        guids_offset_size: usize,
        blobs_offset_size: usize,
        tables_row_counts: &Vec<usize>,
    ) -> (r: usize) {
        let columns = Self::columns();
        row_size(&columns, str_offset_size, guids_offset_size, blobs_offset_size, tables_row_counts)
    }

    fn parse(&mut self, data: &Vec<u8>, layout: &TableLayout, heaps: &Heaps) -> (r: Result<()>) {
        let columns = Self::columns();
        let mut values = decode_row(&columns, data.as_slice(), layout, heaps)?;
        let ghost all = value_views(values@);
        let v3 = values.pop().unwrap();
        let v2 = values.pop().unwrap();
        let v1 = values.pop().unwrap();
        let v0 = values.pop().unwrap();
        proof {
            assert(all[0] == v0@);
            assert(all[1] == v1@);
            assert(all[2] == v2@);
            assert(all[3] == v3@);
        }
        self._type = #[verifier::truncate]
        (v0.into_number() as u32);
        self.padding = #[verifier::truncate]
        (v1.into_number() as u32);
        let (table2, row2) = v2.into_row();
        self.parent.set_table(table2);
        self.parent.set_row_index(row2);
        self.value = v3.into_bytes();
        Ok(())
    }

    fn parse2(&mut self, _layout: &TableLayout, _next_row: Option<&Self>) -> (r: Result<()>) {
        Ok(())
    }

    fn pick(rows: &TableRows) -> (r: Option<&MDTable<Self>>) {
        match rows {
            TableRows::Constant(table) => Some(table),
            _ => None,
        }
    }

    fn pick_mut(rows: &mut TableRows) -> (r: Option<&mut MDTable<Self>>) {
        match rows {
            TableRows::Constant(table) => Some(table),
            _ => None,
        }
    }
}

/// A custom attribute.
#[derive(Debug, Clone)]
pub struct CustomAttribute {
    pub parent: codedindex::HasCustomAttribute,
    pub _type: codedindex::CustomAttributeType,
    pub value: Vec<u8>,
}

impl MDTableRowTrait for CustomAttribute {
    open spec fn spec_columns() -> Seq<Column> {
        seq![
            Column::Coded(CodedKind::HasCustomAttribute),
            Column::Coded(CodedKind::CustomAttributeType),
            Column::Blobs,
        ]
    }

    open spec fn is_blank(&self) -> bool {
        &&& self.parent.row_index == 0
        &&& self.parent.table@.len() == 0
        &&& self.parent.tag_bits == CodedKind::HasCustomAttribute.spec_tag_bits()
        &&& self.parent.table_names@ == CodedKind::HasCustomAttribute.spec_names()
        &&& self._type.row_index == 0
        &&& self._type.table@.len() == 0
        &&& self._type.tag_bits == CodedKind::CustomAttributeType.spec_tag_bits()
        &&& self._type.table_names@ == CodedKind::CustomAttributeType.spec_names()
        &&& self.value@.len() == 0
    }

    open spec fn holds(&self, values: Seq<ValueView>) -> bool {
        &&& values.len() == 3
        &&& values[0] == ValueView::Row(self.parent.table, self.parent.row_index)
        &&& values[1] == ValueView::Row(self._type.table, self._type.row_index)
        &&& values[2] == ValueView::Bytes(self.value@)
    }

    open spec fn completes(&self, before: &Self, next_row: Option<&Self>, layout: &TableLayout) -> bool {
        *self == *before
    }

    open spec fn spec_pick(rows: &TableRows) -> Option<&MDTable<Self>> {
        match rows {
            TableRows::CustomAttribute(table) => Some(table),
            _ => None,
        }
    }

    open spec fn spec_wrap(table: MDTable<Self>) -> TableRows {
        TableRows::CustomAttribute(table)
    }

    proof fn columns_are_wf() {
    }

    fn blank() -> (r: Self) {
        CustomAttribute {
            parent: codedindex::HasCustomAttribute::default(),
            _type: codedindex::CustomAttributeType::default(),
            value: Vec::new(),
        }
    }

    fn columns() -> (r: Vec<Column>) {
        let mut columns: Vec<Column> = Vec::new();
        columns.push(Column::Coded(CodedKind::HasCustomAttribute));
        columns.push(Column::Coded(CodedKind::CustomAttributeType));
        columns.push(Column::Blobs);
        assert(columns@ =~= Self::spec_columns());
        columns
    }

    fn size(
        &self,
        str_offset_size: usize,
        guids_offset_size: usize,
        blobs_offset_size: usize,
        tables_row_counts: &Vec<usize>,
    ) -> (r: usize) {
        let columns = Self::columns();
        row_size(&columns, str_offset_size, guids_offset_size, blobs_offset_size, tables_row_counts)
    }

    fn parse(&mut self, data: &Vec<u8>, layout: &TableLayout, heaps: &Heaps) -> (r: Result<()>) {
        let columns = Self::columns();
        let mut values = decode_row(&columns, data.as_slice(), layout, heaps)?;
        let ghost all = value_views(values@);
        let v2 = values.pop().unwrap();
        let v1 = values.pop().unwrap();
        let v0 = values.pop().unwrap();
        proof {
            assert(all[0] == v0@);
            assert(all[1] == v1@);
            assert(all[2] == v2@);
        }
        let (table0, row0) = v0.into_row();
        self.parent.set_table(table0);
        self.parent.set_row_index(row0);
        let (table1, row1) = v1.into_row();
        self._type.set_table(table1);
        self._type.set_row_index(row1);
        self.value = v2.into_bytes();
        Ok(())
    }

    fn parse2(&mut self, _layout: &TableLayout, _next_row: Option<&Self>) -> (r: Result<()>) {
        Ok(())
    }

    fn pick(rows: &TableRows) -> (r: Option<&MDTable<Self>>) {
        match rows {
            TableRows::CustomAttribute(table) => Some(table),
            _ => None,
        }
    }

    fn pick_mut(rows: &mut TableRows) -> (r: Option<&mut MDTable<Self>>) {
        match rows {
            TableRows::CustomAttribute(table) => Some(table),
            _ => None,
        }
    }
}

/// How a field or a parameter is marshalled.
#[derive(Debug, Clone)]
pub struct FieldMarshal {
    pub parent: codedindex::HasFieldMarshall,
    pub native_type: Vec<u8>,
}

impl MDTableRowTrait for FieldMarshal {
    open spec fn spec_columns() -> Seq<Column> {
        seq![Column::Coded(CodedKind::HasFieldMarshall), Column::Blobs]
    }

    open spec fn is_blank(&self) -> bool {
        &&& self.parent.row_index == 0
        &&& self.parent.table@.len() == 0
        &&& self.parent.tag_bits == CodedKind::HasFieldMarshall.spec_tag_bits()
        &&& self.parent.table_names@ == CodedKind::HasFieldMarshall.spec_names()
        &&& self.native_type@.len() == 0
    }

    open spec fn holds(&self, values: Seq<ValueView>) -> bool {
        &&& values.len() == 2
        &&& values[0] == ValueView::Row(self.parent.table, self.parent.row_index)
        &&& values[1] == ValueView::Bytes(self.native_type@)
    }

    open spec fn completes(&self, before: &Self, next_row: Option<&Self>, layout: &TableLayout) -> bool {
        *self == *before
    }

    open spec fn spec_pick(rows: &TableRows) -> Option<&MDTable<Self>> {
        match rows {
            TableRows::FieldMarshal(table) => Some(table),
            _ => None,
        }
    }

    open spec fn spec_wrap(table: MDTable<Self>) -> TableRows {
        TableRows::FieldMarshal(table)
    }

    proof fn columns_are_wf() {
    }

    fn blank() -> (r: Self) {
        FieldMarshal {
            parent: codedindex::HasFieldMarshall::default(),
            native_type: Vec::new(),
        }
    }

    fn columns() -> (r: Vec<Column>) {
        let mut columns: Vec<Column> = Vec::new();
        columns.push(Column::Coded(CodedKind::HasFieldMarshall));
        columns.push(Column::Blobs);
        assert(columns@ =~= Self::spec_columns());
        columns
    }

    fn size(
        &self,
        str_offset_size: usize,
        guids_offset_size: usize,
        blobs_offset_size: usize,
        tables_row_counts: &Vec<usize>,
    ) -> (r: usize) {
        let columns = Self::columns();
        row_size(&columns, str_offset_size, guids_offset_size, blobs_offset_size, tables_row_counts)
    }

    fn parse(&mut self, data: &Vec<u8>, layout: &TableLayout, heaps: &Heaps) -> (r: Result<()>) {
        let columns = Self::columns();
        let mut values = decode_row(&columns, data.as_slice(), layout, heaps)?;
        let ghost all = value_views(values@);
        let v1 = values.pop().unwrap();
        let v0 = values.pop().unwrap();
        proof {
            assert(all[0] == v0@);
            assert(all[1] == v1@);
        }
        let (table0, row0) = v0.into_row();
        self.parent.set_table(table0);
        self.parent.set_row_index(row0);
        self.native_type = v1.into_bytes();
        Ok(())
    }

    fn parse2(&mut self, _layout: &TableLayout, _next_row: Option<&Self>) -> (r: Result<()>) {
        Ok(())
    }

    fn pick(rows: &TableRows) -> (r: Option<&MDTable<Self>>) {
        match rows {
            TableRows::FieldMarshal(table) => Some(table),
            _ => None,
        }
    }

    fn pick_mut(rows: &mut TableRows) -> (r: Option<&mut MDTable<Self>>) {
        match rows {
            TableRows::FieldMarshal(table) => Some(table),
            _ => None,
        }
    }
}

/// A security declaration.
#[derive(Debug, Clone)]
pub struct DeclSecurity {
    pub action: u32,
    pub parent: codedindex::HasDeclSecurity,
    pub permission_set: Vec<u8>,
}

impl MDTableRowTrait for DeclSecurity {
    open spec fn spec_columns() -> Seq<Column> {
        seq![Column::Fixed(2), Column::Coded(CodedKind::HasDeclSecurity), Column::Blobs]
    }

    open spec fn is_blank(&self) -> bool {
        &&& self.action == 0
        &&& self.parent.row_index == 0
        &&& self.parent.table@.len() == 0
        &&& self.parent.tag_bits == CodedKind::HasDeclSecurity.spec_tag_bits()
        &&& self.parent.table_names@ == CodedKind::HasDeclSecurity.spec_names()
        &&& self.permission_set@.len() == 0
    }

    open spec fn holds(&self, values: Seq<ValueView>) -> bool {
        &&& values.len() == 3
        &&& values[0] matches ValueView::Number(n0)
        &&& self.action == n0 as u32
        &&& values[1] == ValueView::Row(self.parent.table, self.parent.row_index)
        &&& values[2] == ValueView::Bytes(self.permission_set@)
    }

    open spec fn completes(&self, before: &Self, next_row: Option<&Self>, layout: &TableLayout) -> bool {
        *self == *before
    }

    open spec fn spec_pick(rows: &TableRows) -> Option<&MDTable<Self>> {
        match rows {
            TableRows::DeclSecurity(table) => Some(table),
            _ => None,
        }
    }

    open spec fn spec_wrap(table: MDTable<Self>) -> TableRows {
        TableRows::DeclSecurity(table)
    }

    proof fn columns_are_wf() {
    }

    fn blank() -> (r: Self) {
        DeclSecurity {
            action: 0,
            parent: codedindex::HasDeclSecurity::default(),
            permission_set: Vec::new(),
        }
    }

    fn columns() -> (r: Vec<Column>) {
        let mut columns: Vec<Column> = Vec::new();
        columns.push(Column::Fixed(2));
        columns.push(Column::Coded(CodedKind::HasDeclSecurity));
        columns.push(Column::Blobs);
        assert(columns@ =~= Self::spec_columns());
        columns
    }

    fn size(
        &self,
        str_offset_size: usize,
        guids_offset_size: usize,
        blobs_offset_size: usize,
        tables_row_counts: &Vec<usize>,
    ) -> (r: usize) {
        let columns = Self::columns();
        row_size(&columns, str_offset_size, guids_offset_size, blobs_offset_size, tables_row_counts)
    }

    fn parse(&mut self, data: &Vec<u8>, layout: &TableLayout, heaps: &Heaps) -> (r: Result<()>) {
        let columns = Self::columns();
        let mut values = decode_row(&columns, data.as_slice(), layout, heaps)?;
        let ghost all = value_views(values@);
        let v2 = values.pop().unwrap();
        let v1 = values.pop().unwrap();
        let v0 = values.pop().unwrap();
        proof {
            assert(all[0] == v0@);
            assert(all[1] == v1@);
            assert(all[2] == v2@);
        }
        self.action = #[verifier::truncate]
        (v0.into_number() as u32);
        let (table1, row1) = v1.into_row();
        self.parent.set_table(table1);
        self.parent.set_row_index(row1);
        self.permission_set = v2.into_bytes();
        Ok(())
    }

    fn parse2(&mut self, _layout: &TableLayout, _next_row: Option<&Self>) -> (r: Result<()>) {
        Ok(())
    }

    fn pick(rows: &TableRows) -> (r: Option<&MDTable<Self>>) {
        match rows {
            TableRows::DeclSecurity(table) => Some(table),
            _ => None,
        }
    }

    fn pick_mut(rows: &mut TableRows) -> (r: Option<&mut MDTable<Self>>) {
        match rows {
            TableRows::DeclSecurity(table) => Some(table),
            _ => None,
        }
    }
}

/// The explicit layout of a type.
#[derive(Debug, Clone)]
pub struct ClassLayout {
    pub packing_size: usize,
    pub class_size: usize,
    pub parent: SimpleCodedIndex,
}

impl MDTableRowTrait for ClassLayout {
    open spec fn spec_columns() -> Seq<Column> {
        seq![Column::Fixed(2), Column::Fixed(4), Column::Index("TypeDef")]
    }

    open spec fn is_blank(&self) -> bool {
        &&& self.packing_size == 0
        &&& self.class_size == 0
        &&& self.parent.row_index == 0
        &&& self.parent.table@.len() == 0
    }

    open spec fn holds(&self, values: Seq<ValueView>) -> bool {
        &&& values.len() == 3
        &&& values[0] == ValueView::Number(self.packing_size)
        &&& values[1] == ValueView::Number(self.class_size)
        &&& values[2] == ValueView::Row(self.parent.table, self.parent.row_index)
    }

    open spec fn completes(&self, before: &Self, next_row: Option<&Self>, layout: &TableLayout) -> bool {
        *self == *before
    }

    open spec fn spec_pick(rows: &TableRows) -> Option<&MDTable<Self>> {
        match rows {
            TableRows::ClassLayout(table) => Some(table),
            _ => None,
        }
    }

    open spec fn spec_wrap(table: MDTable<Self>) -> TableRows {
        TableRows::ClassLayout(table)
    }

    proof fn columns_are_wf() {
    }

    fn blank() -> (r: Self) {
        ClassLayout {
            packing_size: 0,
            class_size: 0,
            parent: SimpleCodedIndex::default(),
        }
    }

    fn columns() -> (r: Vec<Column>) {
        let mut columns: Vec<Column> = Vec::new();
        columns.push(Column::Fixed(2));
        columns.push(Column::Fixed(4));
        columns.push(Column::Index("TypeDef"));
        assert(columns@ =~= Self::spec_columns());
        columns
    }

    fn size(
        &self,
        str_offset_size: usize,
        guids_offset_size: usize,
        blobs_offset_size: usize,
        tables_row_counts: &Vec<usize>,
    ) -> (r: usize) {
        let columns = Self::columns();
        row_size(&columns, str_offset_size, guids_offset_size, blobs_offset_size, tables_row_counts)
    }

    fn parse(&mut self, data: &Vec<u8>, layout: &TableLayout, heaps: &Heaps) -> (r: Result<()>) {
        let columns = Self::columns();
        let mut values = decode_row(&columns, data.as_slice(), layout, heaps)?;
        let ghost all = value_views(values@);
        let v2 = values.pop().unwrap();
        let v1 = values.pop().unwrap();
        let v0 = values.pop().unwrap();
        proof {
            assert(all[0] == v0@);
            assert(all[1] == v1@);
            assert(all[2] == v2@);
        }
        self.packing_size = v0.into_number();
        self.class_size = v1.into_number();
        let (table2, row2) = v2.into_row();
        self.parent = SimpleCodedIndex::to_row(table2, row2);
        Ok(())
    }

    fn parse2(&mut self, _layout: &TableLayout, _next_row: Option<&Self>) -> (r: Result<()>) {
        Ok(())
    }

    fn pick(rows: &TableRows) -> (r: Option<&MDTable<Self>>) {
        match rows {
            TableRows::ClassLayout(table) => Some(table),
            _ => None,
        }
    }

    fn pick_mut(rows: &mut TableRows) -> (r: Option<&mut MDTable<Self>>) {
        match rows {
            TableRows::ClassLayout(table) => Some(table),
            _ => None,
        }
    }
}

/// The explicit offset of a field.
#[derive(Debug, Clone)]
pub struct FieldLayout {
    pub offset: u32,
    pub field: SimpleCodedIndex,
}

impl MDTableRowTrait for FieldLayout {
    open spec fn spec_columns() -> Seq<Column> {
        seq![Column::Fixed(4), Column::Index("Field")]
    }

    open spec fn is_blank(&self) -> bool {
        &&& self.offset == 0
        &&& self.field.row_index == 0
        &&& self.field.table@.len() == 0
    }

    open spec fn holds(&self, values: Seq<ValueView>) -> bool {
        &&& values.len() == 2
        &&& values[0] matches ValueView::Number(n0)
        &&& self.offset == n0 as u32
        &&& values[1] == ValueView::Row(self.field.table, self.field.row_index)
    }

    open spec fn completes(&self, before: &Self, next_row: Option<&Self>, layout: &TableLayout) -> bool {
        *self == *before
    }

    open spec fn spec_pick(rows: &TableRows) -> Option<&MDTable<Self>> {
        match rows {
            TableRows::FieldLayout(table) => Some(table),
            _ => None,
        }
    }

    open spec fn spec_wrap(table: MDTable<Self>) -> TableRows {
        TableRows::FieldLayout(table)
    }

    proof fn columns_are_wf() {
    }

    fn blank() -> (r: Self) {
        FieldLayout {
            offset: 0,
            field: SimpleCodedIndex::default(),
        }
    }

    fn columns() -> (r: Vec<Column>) {
        let mut columns: Vec<Column> = Vec::new();
        columns.push(Column::Fixed(4));
        columns.push(Column::Index("Field"));
        assert(columns@ =~= Self::spec_columns());
        columns
    }

    fn size(
        &self,
        str_offset_size: usize,
        guids_offset_size: usize,
        blobs_offset_size: usize,
        tables_row_counts: &Vec<usize>,
    ) -> (r: usize) {
        let columns = Self::columns();
        row_size(&columns, str_offset_size, guids_offset_size, blobs_offset_size, tables_row_counts)
    }

    fn parse(&mut self, data: &Vec<u8>, layout: &TableLayout, heaps: &Heaps) -> (r: Result<()>) {
        let columns = Self::columns();
        let mut values = decode_row(&columns, data.as_slice(), layout, heaps)?;
        let ghost all = value_views(values@);
        let v1 = values.pop().unwrap();
        let v0 = values.pop().unwrap();
        proof {
            assert(all[0] == v0@);
            assert(all[1] == v1@);
        }
        self.offset = #[verifier::truncate]
        (v0.into_number() as u32);
        let (table1, row1) = v1.into_row();
        self.field = SimpleCodedIndex::to_row(table1, row1);
        Ok(())
    }

    fn parse2(&mut self, _layout: &TableLayout, _next_row: Option<&Self>) -> (r: Result<()>) {
        Ok(())
    }

    fn pick(rows: &TableRows) -> (r: Option<&MDTable<Self>>) {
        match rows {
            TableRows::FieldLayout(table) => Some(table),
            _ => None,
        }
    }

    fn pick_mut(rows: &mut TableRows) -> (r: Option<&mut MDTable<Self>>) {
        match rows {
            TableRows::FieldLayout(table) => Some(table),
            _ => None,
        }
    }
}

/// A signature that stands alone.
#[derive(Debug, Clone)]
pub struct StandAloneSig {
    pub signature: Vec<u8>,
}

impl MDTableRowTrait for StandAloneSig {
    open spec fn spec_columns() -> Seq<Column> {
        seq![Column::Blobs]
    }

    open spec fn is_blank(&self) -> bool {
        &&& self.signature@.len() == 0
    }

    open spec fn holds(&self, values: Seq<ValueView>) -> bool {
        &&& values.len() == 1
        &&& values[0] == ValueView::Bytes(self.signature@)
    }

    open spec fn completes(&self, before: &Self, next_row: Option<&Self>, layout: &TableLayout) -> bool {
        *self == *before
    }

    open spec fn spec_pick(rows: &TableRows) -> Option<&MDTable<Self>> {
        match rows {
            TableRows::StandAloneSig(table) => Some(table),
            _ => None,
        }
    }

    open spec fn spec_wrap(table: MDTable<Self>) -> TableRows {
        TableRows::StandAloneSig(table)
    }

    proof fn columns_are_wf() {
    }

    fn blank() -> (r: Self) {
        StandAloneSig {
            signature: Vec::new(),
        }
    }

    fn columns() -> (r: Vec<Column>) {
        let mut columns: Vec<Column> = Vec::new();
        columns.push(Column::Blobs);
        assert(columns@ =~= Self::spec_columns());
        columns
    }

    fn size(
        &self,
        str_offset_size: usize,
        guids_offset_size: usize,
        blobs_offset_size: usize,
        tables_row_counts: &Vec<usize>,
    ) -> (r: usize) {
        let columns = Self::columns();
        row_size(&columns, str_offset_size, guids_offset_size, blobs_offset_size, tables_row_counts)
    }

    fn parse(&mut self, data: &Vec<u8>, layout: &TableLayout, heaps: &Heaps) -> (r: Result<()>) {
        let columns = Self::columns();
        let mut values = decode_row(&columns, data.as_slice(), layout, heaps)?;
        let ghost all = value_views(values@);
        let v0 = values.pop().unwrap();
        proof {
            assert(all[0] == v0@);
        }
        self.signature = v0.into_bytes();
        Ok(())
    }

    fn parse2(&mut self, _layout: &TableLayout, _next_row: Option<&Self>) -> (r: Result<()>) {
        Ok(())
    }

    fn pick(rows: &TableRows) -> (r: Option<&MDTable<Self>>) {
        match rows {
            TableRows::StandAloneSig(table) => Some(table),
            _ => None,
        }
    }

    fn pick_mut(rows: &mut TableRows) -> (r: Option<&mut MDTable<Self>>) {
        match rows {
            TableRows::StandAloneSig(table) => Some(table),
            _ => None,
        }
    }
}

/// The events of a type.
#[derive(Debug, Clone)]
pub struct EventMap {
    pub parent: SimpleCodedIndex,
    /// The events of the type.
    pub event_list: Vec<SimpleCodedIndex>,
}

impl MDTableRowTrait for EventMap {
    open spec fn spec_columns() -> Seq<Column> {
        seq![Column::Index("TypeDef"), Column::Index("Event")]
    }

    open spec fn is_blank(&self) -> bool {
        &&& self.parent.row_index == 0
        &&& self.parent.table@.len() == 0
        &&& self.event_list@.len() == 0
    }

    open spec fn holds(&self, values: Seq<ValueView>) -> bool {
        &&& values.len() == 2
        &&& values[0] == ValueView::Row(self.parent.table, self.parent.row_index)
        &&& self.event_list@.len() == 1
        &&& values[1] == ValueView::Row(self.event_list@[0].table, self.event_list@[0].row_index)
    }

    open spec fn completes(&self, before: &Self, next_row: Option<&Self>, layout: &TableLayout) -> bool {
        &&& self.parent == before.parent
        &&& completes_list(
            self.event_list@,
            before.event_list@,
            match next_row {
                Some(next) => Some(next.event_list@),
                None => None,
            },
            "Event",
            layout.tables_row_counts@[20],
        )
    }

    open spec fn spec_pick(rows: &TableRows) -> Option<&MDTable<Self>> {
        match rows {
            TableRows::EventMap(table) => Some(table),
            _ => None,
        }
    }

    open spec fn spec_wrap(table: MDTable<Self>) -> TableRows {
        TableRows::EventMap(table)
    }

    proof fn columns_are_wf() {
    }

    fn blank() -> (r: Self) {
        EventMap {
            parent: SimpleCodedIndex::default(),
            event_list: Vec::new(),
        }
    }

    fn columns() -> (r: Vec<Column>) {
        let mut columns: Vec<Column> = Vec::new();
        columns.push(Column::Index("TypeDef"));
        columns.push(Column::Index("Event"));
        assert(columns@ =~= Self::spec_columns());
        columns
    }

    fn size(
        &self,
        str_offset_size: usize,
        guids_offset_size: usize,
        blobs_offset_size: usize,
        tables_row_counts: &Vec<usize>,
    ) -> (r: usize) {
        let columns = Self::columns();
        row_size(&columns, str_offset_size, guids_offset_size, blobs_offset_size, tables_row_counts)
    }

    fn parse(&mut self, data: &Vec<u8>, layout: &TableLayout, heaps: &Heaps) -> (r: Result<()>) {
        let columns = Self::columns();
        let mut values = decode_row(&columns, data.as_slice(), layout, heaps)?;
        let ghost all = value_views(values@);
        let v1 = values.pop().unwrap();
        let v0 = values.pop().unwrap();
        proof {
            assert(all[0] == v0@);
            assert(all[1] == v1@);
        }
        let (table0, row0) = v0.into_row();
        self.parent = SimpleCodedIndex::to_row(table0, row0);
        let (table1, row1) = v1.into_row();
        self.event_list = single_index(SimpleCodedIndex::to_row(table1, row1));
        Ok(())
    }

    fn parse2(&mut self, layout: &TableLayout, next_row: Option<&Self>) -> (r: Result<()>) {
        let next_event_list = match next_row {
            Some(next) => Some(&next.event_list),
            None => None,
        };
        self.event_list = complete_list(
            &self.event_list,
            next_event_list,
            "Event",
            layout.tables_row_counts[20],
        );
        Ok(())
    }

    fn pick(rows: &TableRows) -> (r: Option<&MDTable<Self>>) {
        match rows {
            TableRows::EventMap(table) => Some(table),
            _ => None,
        }
    }

    fn pick_mut(rows: &mut TableRows) -> (r: Option<&mut MDTable<Self>>) {
        match rows {
            TableRows::EventMap(table) => Some(table),
            _ => None,
        }
    }
}

/// An indirection to an event. Rows of this kind have no reading.
#[derive(Debug, Clone)]
pub struct EventPtr {}

impl MDTableRowTrait for EventPtr {
    open spec fn spec_columns() -> Seq<Column> {
        seq![Column::Unsupported]
    }

    open spec fn is_blank(&self) -> bool {
        true
    }

    open spec fn holds(&self, values: Seq<ValueView>) -> bool {
        false
    }

    open spec fn completes(&self, before: &Self, next_row: Option<&Self>, layout: &TableLayout) -> bool {
        *self == *before
    }

    open spec fn spec_pick(rows: &TableRows) -> Option<&MDTable<Self>> {
        match rows {
            TableRows::EventPtr(table) => Some(table),
            _ => None,
        }
    }

    open spec fn spec_wrap(table: MDTable<Self>) -> TableRows {
        TableRows::EventPtr(table)
    }

    proof fn columns_are_wf() {
    }

    fn blank() -> (r: Self) {
        EventPtr {}
    }

    fn columns() -> (r: Vec<Column>) {
        let mut columns: Vec<Column> = Vec::new();
        columns.push(Column::Unsupported);
        assert(columns@ =~= Self::spec_columns());
        columns
    }

    fn size(
        &self,
        str_offset_size: usize,
        guids_offset_size: usize,
        blobs_offset_size: usize,
        tables_row_counts: &Vec<usize>,
    ) -> (r: usize) {
        let columns = Self::columns();
        row_size(&columns, str_offset_size, guids_offset_size, blobs_offset_size, tables_row_counts)
    }

    fn parse(&mut self, data: &Vec<u8>, layout: &TableLayout, heaps: &Heaps) -> (r: Result<()>) {
        let columns = Self::columns();
        let _ = decode_row(&columns, data.as_slice(), layout, heaps)?;
        Ok(())
    }

    fn parse2(&mut self, _layout: &TableLayout, _next_row: Option<&Self>) -> (r: Result<()>) {
        Ok(())
    }

    fn pick(rows: &TableRows) -> (r: Option<&MDTable<Self>>) {
        match rows {
            TableRows::EventPtr(table) => Some(table),
            _ => None,
        }
    }

    fn pick_mut(rows: &mut TableRows) -> (r: Option<&mut MDTable<Self>>) {
        match rows {
            TableRows::EventPtr(table) => Some(table),
            _ => None,
        }
    }
}

/// An event.
#[derive(Debug, Clone)]
pub struct Event {
    pub event_flags: Vec<enums::ClrEventAttr>,
    pub name: String,
    pub event_type: codedindex::TypeDefOrRef,
}

impl MDTableRowTrait for Event {
    open spec fn spec_columns() -> Seq<Column> {
        seq![Column::Fixed(2), Column::Strings, Column::Coded(CodedKind::TypeDefOrRef)]
    }

    open spec fn is_blank(&self) -> bool {
        &&& self.event_flags@.len() == 0
        &&& self.name@.len() == 0
        &&& self.event_type.row_index == 0
        &&& self.event_type.table@.len() == 0
        &&& self.event_type.tag_bits == CodedKind::TypeDefOrRef.spec_tag_bits()
        &&& self.event_type.table_names@ == CodedKind::TypeDefOrRef.spec_names()
    }

    open spec fn holds(&self, values: Seq<ValueView>) -> bool {
        &&& values.len() == 3
        &&& values[0] matches ValueView::Number(n0)
        &&& self.event_flags@ == enums::ClrEventAttr::spec_new(n0)
        &&& values[1] == ValueView::Text(self.name@)
        &&& values[2] == ValueView::Row(self.event_type.table, self.event_type.row_index)
    }

    open spec fn completes(&self, before: &Self, next_row: Option<&Self>, layout: &TableLayout) -> bool {
        *self == *before
    }

    open spec fn spec_pick(rows: &TableRows) -> Option<&MDTable<Self>> {
        match rows {
            TableRows::Event(table) => Some(table),
            _ => None,
        }
    }

    open spec fn spec_wrap(table: MDTable<Self>) -> TableRows {
        TableRows::Event(table)
    }

    proof fn columns_are_wf() {
    }

    fn blank() -> (r: Self) {
        Event {
            event_flags: Vec::new(),
            name: String::new(),
            event_type: codedindex::TypeDefOrRef::default(),
        }
    }

    fn columns() -> (r: Vec<Column>) {
        let mut columns: Vec<Column> = Vec::new();
        columns.push(Column::Fixed(2));
        columns.push(Column::Strings);
        columns.push(Column::Coded(CodedKind::TypeDefOrRef));
        assert(columns@ =~= Self::spec_columns());
        columns
    }

    fn size(
        &self,
        str_offset_size: usize,
        guids_offset_size: usize,
        blobs_offset_size: usize,
        tables_row_counts: &Vec<usize>,
    ) -> (r: usize) {
        let columns = Self::columns();
        row_size(&columns, str_offset_size, guids_offset_size, blobs_offset_size, tables_row_counts)
    }

    fn parse(&mut self, data: &Vec<u8>, layout: &TableLayout, heaps: &Heaps) -> (r: Result<()>) {
        let columns = Self::columns();
        let mut values = decode_row(&columns, data.as_slice(), layout, heaps)?;
        let ghost all = value_views(values@);
        let v2 = values.pop().unwrap();
        let v1 = values.pop().unwrap();
        let v0 = values.pop().unwrap();
        proof {
            assert(all[0] == v0@);
            assert(all[1] == v1@);
            assert(all[2] == v2@);
        }
        self.event_flags = enums::ClrEventAttr::new(v0.into_number());
        self.name = v1.into_text();
        let (table2, row2) = v2.into_row();
        self.event_type.set_table(table2);
        self.event_type.set_row_index(row2);
        Ok(())
    }

    fn parse2(&mut self, _layout: &TableLayout, _next_row: Option<&Self>) -> (r: Result<()>) {
        Ok(())
    }

    fn pick(rows: &TableRows) -> (r: Option<&MDTable<Self>>) {
        match rows {
            TableRows::Event(table) => Some(table),
            _ => None,
        }
    }

    fn pick_mut(rows: &mut TableRows) -> (r: Option<&mut MDTable<Self>>) {
        match rows {
            TableRows::Event(table) => Some(table),
            _ => None,
        }
    }
}

/// The properties of a type.
#[derive(Debug, Clone)]
pub struct PropertyMap {
    pub parent: SimpleCodedIndex,
    /// The properties of the type.
    pub property_list: Vec<SimpleCodedIndex>,
}

impl MDTableRowTrait for PropertyMap {
    open spec fn spec_columns() -> Seq<Column> {
        seq![Column::Index("TypeDef"), Column::Index("Property")]
    }

    open spec fn is_blank(&self) -> bool {
        &&& self.parent.row_index == 0
        &&& self.parent.table@.len() == 0
        &&& self.property_list@.len() == 0
    }

    open spec fn holds(&self, values: Seq<ValueView>) -> bool {
        &&& values.len() == 2
        &&& values[0] == ValueView::Row(self.parent.table, self.parent.row_index)
        &&& self.property_list@.len() == 1
        &&& values[1] == ValueView::Row(self.property_list@[0].table, self.property_list@[0].row_index)
    }

    open spec fn completes(&self, before: &Self, next_row: Option<&Self>, layout: &TableLayout) -> bool {
        &&& self.parent == before.parent
        &&& completes_list(
            self.property_list@,
            before.property_list@,
            match next_row {
                Some(next) => Some(next.property_list@),
                None => None,
            },
            "Property",
            layout.tables_row_counts@[23],
        )
    }

    open spec fn spec_pick(rows: &TableRows) -> Option<&MDTable<Self>> {
        match rows {
            TableRows::PropertyMap(table) => Some(table),
            _ => None,
        }
    }

    open spec fn spec_wrap(table: MDTable<Self>) -> TableRows {
        TableRows::PropertyMap(table)
    }

    proof fn columns_are_wf() {
    }

    fn blank() -> (r: Self) {
        PropertyMap {
            parent: SimpleCodedIndex::default(),
            property_list: Vec::new(),
        }
    }

    fn columns() -> (r: Vec<Column>) {
        let mut columns: Vec<Column> = Vec::new();
        columns.push(Column::Index("TypeDef"));
        columns.push(Column::Index("Property"));
        assert(columns@ =~= Self::spec_columns());
        columns
    }

    fn size(
        &self,
        str_offset_size: usize,
        guids_offset_size: usize,
        blobs_offset_size: usize,
        tables_row_counts: &Vec<usize>,
    ) -> (r: usize) {
        let columns = Self::columns();
        row_size(&columns, str_offset_size, guids_offset_size, blobs_offset_size, tables_row_counts)
    }

    fn parse(&mut self, data: &Vec<u8>, layout: &TableLayout, heaps: &Heaps) -> (r: Result<()>) {
        let columns = Self::columns();
        let mut values = decode_row(&columns, data.as_slice(), layout, heaps)?;
        let ghost all = value_views(values@);
        let v1 = values.pop().unwrap();
        let v0 = values.pop().unwrap();
        proof {
            assert(all[0] == v0@);
            assert(all[1] == v1@);
        }
        let (table0, row0) = v0.into_row();
        self.parent = SimpleCodedIndex::to_row(table0, row0);
        let (table1, row1) = v1.into_row();
        self.property_list = single_index(SimpleCodedIndex::to_row(table1, row1));
        Ok(())
    }

    fn parse2(&mut self, layout: &TableLayout, next_row: Option<&Self>) -> (r: Result<()>) {
        let next_property_list = match next_row {
            Some(next) => Some(&next.property_list),
            None => None,
        };
        self.property_list = complete_list(
            &self.property_list,
            next_property_list,
            "Property",
            layout.tables_row_counts[23],
        );
        Ok(())
    }

    fn pick(rows: &TableRows) -> (r: Option<&MDTable<Self>>) {
        match rows {
            TableRows::PropertyMap(table) => Some(table),
            _ => None,
        }
    }

    fn pick_mut(rows: &mut TableRows) -> (r: Option<&mut MDTable<Self>>) {
        match rows {
            TableRows::PropertyMap(table) => Some(table),
            _ => None,
        }
    }
}

/// An indirection to a property. Rows of this kind have no reading.
#[derive(Debug, Clone)]
pub struct PropertyPtr {}

impl MDTableRowTrait for PropertyPtr {
    open spec fn spec_columns() -> Seq<Column> {
        seq![Column::Unsupported]
    }

    open spec fn is_blank(&self) -> bool {
        true
    }

    open spec fn holds(&self, values: Seq<ValueView>) -> bool {
        false
    }

    open spec fn completes(&self, before: &Self, next_row: Option<&Self>, layout: &TableLayout) -> bool {
        *self == *before
    }

    open spec fn spec_pick(rows: &TableRows) -> Option<&MDTable<Self>> {
        match rows {
            TableRows::PropertyPtr(table) => Some(table),
            _ => None,
        }
    }

    open spec fn spec_wrap(table: MDTable<Self>) -> TableRows {
        TableRows::PropertyPtr(table)
    }

    proof fn columns_are_wf() {
    }

    fn blank() -> (r: Self) {
        PropertyPtr {}
    }

    fn columns() -> (r: Vec<Column>) {
        let mut columns: Vec<Column> = Vec::new();
        columns.push(Column::Unsupported);
        assert(columns@ =~= Self::spec_columns());
        columns
    }

    fn size(
        &self,
        str_offset_size: usize,
        guids_offset_size: usize,
        blobs_offset_size: usize,
        tables_row_counts: &Vec<usize>,
    ) -> (r: usize) {
        let columns = Self::columns();
        row_size(&columns, str_offset_size, guids_offset_size, blobs_offset_size, tables_row_counts)
    }

    fn parse(&mut self, data: &Vec<u8>, layout: &TableLayout, heaps: &Heaps) -> (r: Result<()>) {
        let columns = Self::columns();
        let _ = decode_row(&columns, data.as_slice(), layout, heaps)?;
        Ok(())
    }

    fn parse2(&mut self, _layout: &TableLayout, _next_row: Option<&Self>) -> (r: Result<()>) {
        Ok(())
    }

    fn pick(rows: &TableRows) -> (r: Option<&MDTable<Self>>) {
        match rows {
            TableRows::PropertyPtr(table) => Some(table),
            _ => None,
        }
    }

    fn pick_mut(rows: &mut TableRows) -> (r: Option<&mut MDTable<Self>>) {
        match rows {
            TableRows::PropertyPtr(table) => Some(table),
            _ => None,
        }
    }
}

/// A property.
#[derive(Debug, Clone)]
pub struct Property {
    pub flags: Vec<enums::ClrPropertyAttr>,
    pub name: String,
    pub _type: Vec<u8>,
}

impl MDTableRowTrait for Property {
    open spec fn spec_columns() -> Seq<Column> {
        seq![Column::Fixed(2), Column::Strings, Column::Blobs]
    }

    open spec fn is_blank(&self) -> bool {
        &&& self.flags@.len() == 0
        &&& self.name@.len() == 0
        &&& self._type@.len() == 0
    }

    open spec fn holds(&self, values: Seq<ValueView>) -> bool {
        &&& values.len() == 3
        &&& values[0] matches ValueView::Number(n0)
        &&& self.flags@ == enums::ClrPropertyAttr::spec_new(n0)
        &&& values[1] == ValueView::Text(self.name@)
        &&& values[2] == ValueView::Bytes(self._type@)
    }

    open spec fn completes(&self, before: &Self, next_row: Option<&Self>, layout: &TableLayout) -> bool {
        *self == *before
    }

    open spec fn spec_pick(rows: &TableRows) -> Option<&MDTable<Self>> {
        match rows {
            TableRows::Property(table) => Some(table),
            _ => None,
        }
    }

    open spec fn spec_wrap(table: MDTable<Self>) -> TableRows {
        TableRows::Property(table)
    }

    proof fn columns_are_wf() {
    }

    fn blank() -> (r: Self) {
        Property {
            flags: Vec::new(),
            name: String::new(),
            _type: Vec::new(),
        }
    }

    fn columns() -> (r: Vec<Column>) {
        let mut columns: Vec<Column> = Vec::new();
        columns.push(Column::Fixed(2));
        columns.push(Column::Strings);
        columns.push(Column::Blobs);
        assert(columns@ =~= Self::spec_columns());
        columns
    }

    fn size(
        &self,
        str_offset_size: usize,
        guids_offset_size: usize,
        blobs_offset_size: usize,
        tables_row_counts: &Vec<usize>,
    ) -> (r: usize) {
        let columns = Self::columns();
        row_size(&columns, str_offset_size, guids_offset_size, blobs_offset_size, tables_row_counts)
    }

    fn parse(&mut self, data: &Vec<u8>, layout: &TableLayout, heaps: &Heaps) -> (r: Result<()>) {
        let columns = Self::columns();
        let mut values = decode_row(&columns, data.as_slice(), layout, heaps)?;
        let ghost all = value_views(values@);
        let v2 = values.pop().unwrap();
        let v1 = values.pop().unwrap();
        let v0 = values.pop().unwrap();
        proof {
            assert(all[0] == v0@);
            assert(all[1] == v1@);
            assert(all[2] == v2@);
        }
        self.flags = enums::ClrPropertyAttr::new(v0.into_number());
        self.name = v1.into_text();
        self._type = v2.into_bytes();
        Ok(())
    }

    fn parse2(&mut self, _layout: &TableLayout, _next_row: Option<&Self>) -> (r: Result<()>) {
        Ok(())
    }

    fn pick(rows: &TableRows) -> (r: Option<&MDTable<Self>>) {
        match rows {
            TableRows::Property(table) => Some(table),
            _ => None,
        }
    }

    fn pick_mut(rows: &mut TableRows) -> (r: Option<&mut MDTable<Self>>) {
        match rows {
            TableRows::Property(table) => Some(table),
            _ => None,
        }
    }
}

/// The part that a method plays for a property or an event.
#[derive(Debug, Clone)]
pub struct MethodSemantics {
    pub semantics: Vec<enums::ClrMethodSemanticsAttr>,
    pub method: SimpleCodedIndex,
    pub association: codedindex::HasSemantics,
}

impl MDTableRowTrait for MethodSemantics {
    open spec fn spec_columns() -> Seq<Column> {
        seq![
            Column::Fixed(2),
            Column::Index("MethodDef"),
            Column::Coded(CodedKind::HasSemantics),
        ]
    }

    open spec fn is_blank(&self) -> bool {
        &&& self.semantics@.len() == 0
        &&& self.method.row_index == 0
        &&& self.method.table@.len() == 0
        &&& self.association.row_index == 0
        &&& self.association.table@.len() == 0
        &&& self.association.tag_bits == CodedKind::HasSemantics.spec_tag_bits()
        &&& self.association.table_names@ == CodedKind::HasSemantics.spec_names()
    }

    open spec fn holds(&self, values: Seq<ValueView>) -> bool {
        &&& values.len() == 3
        &&& values[0] matches ValueView::Number(n0)
        &&& self.semantics@ == enums::ClrMethodSemanticsAttr::spec_new(n0)
        &&& values[1] == ValueView::Row(self.method.table, self.method.row_index)
        &&& values[2] == ValueView::Row(self.association.table, self.association.row_index)
    }

    open spec fn completes(&self, before: &Self, next_row: Option<&Self>, layout: &TableLayout) -> bool {
        *self == *before
    }

    open spec fn spec_pick(rows: &TableRows) -> Option<&MDTable<Self>> {
        match rows {
            TableRows::MethodSemantics(table) => Some(table),
            _ => None,
        }
    }

    open spec fn spec_wrap(table: MDTable<Self>) -> TableRows {
        TableRows::MethodSemantics(table)
    }

    proof fn columns_are_wf() {
    }

    fn blank() -> (r: Self) {
        MethodSemantics {
            semantics: Vec::new(),
            method: SimpleCodedIndex::default(),
            association: codedindex::HasSemantics::default(),
        }
    }

    fn columns() -> (r: Vec<Column>) {
        let mut columns: Vec<Column> = Vec::new();
        columns.push(Column::Fixed(2));
        columns.push(Column::Index("MethodDef"));
        columns.push(Column::Coded(CodedKind::HasSemantics));
        assert(columns@ =~= Self::spec_columns());
        columns
    }

    fn size(
        &self,
        str_offset_size: usize,
        guids_offset_size: usize,
        blobs_offset_size: usize,
        tables_row_counts: &Vec<usize>,
    ) -> (r: usize) {
        let columns = Self::columns();
        row_size(&columns, str_offset_size, guids_offset_size, blobs_offset_size, tables_row_counts)
    }

    fn parse(&mut self, data: &Vec<u8>, layout: &TableLayout, heaps: &Heaps) -> (r: Result<()>) {
        let columns = Self::columns();
        let mut values = decode_row(&columns, data.as_slice(), layout, heaps)?;
        let ghost all = value_views(values@);
        let v2 = values.pop().unwrap();
        let v1 = values.pop().unwrap();
        let v0 = values.pop().unwrap();
        proof {
            assert(all[0] == v0@);
            assert(all[1] == v1@);
            assert(all[2] == v2@);
        }
        self.semantics = enums::ClrMethodSemanticsAttr::new(v0.into_number());
        let (table1, row1) = v1.into_row();
        self.method = SimpleCodedIndex::to_row(table1, row1);
        let (table2, row2) = v2.into_row();
        self.association.set_table(table2);
        self.association.set_row_index(row2);
        Ok(())
    }

    fn parse2(&mut self, _layout: &TableLayout, _next_row: Option<&Self>) -> (r: Result<()>) {
        Ok(())
    }

    fn pick(rows: &TableRows) -> (r: Option<&MDTable<Self>>) {
        match rows {
            TableRows::MethodSemantics(table) => Some(table),
            _ => None,
        }
    }

    fn pick_mut(rows: &mut TableRows) -> (r: Option<&mut MDTable<Self>>) {
        match rows {
            TableRows::MethodSemantics(table) => Some(table),
            _ => None,
        }
    }
}

/// A method that overrides another.
#[derive(Debug, Clone)]
pub struct MethodImpl {
    pub class: SimpleCodedIndex,
    pub method_body: codedindex::MethodDefOrRef,
    pub method_declaration: codedindex::MethodDefOrRef,
}

impl MDTableRowTrait for MethodImpl {
    open spec fn spec_columns() -> Seq<Column> {
        seq![
            Column::Index("TypeDef"),
            Column::Coded(CodedKind::MethodDefOrRef),
            Column::Coded(CodedKind::MethodDefOrRef),
        ]
    }

    open spec fn is_blank(&self) -> bool {
        &&& self.class.row_index == 0
        &&& self.class.table@.len() == 0
        &&& self.method_body.row_index == 0
        &&& self.method_body.table@.len() == 0
        &&& self.method_body.tag_bits == CodedKind::MethodDefOrRef.spec_tag_bits()
        &&& self.method_body.table_names@ == CodedKind::MethodDefOrRef.spec_names()
        &&& self.method_declaration.row_index == 0
        &&& self.method_declaration.table@.len() == 0
        &&& self.method_declaration.tag_bits == CodedKind::MethodDefOrRef.spec_tag_bits()
        &&& self.method_declaration.table_names@ == CodedKind::MethodDefOrRef.spec_names()
    }

    open spec fn holds(&self, values: Seq<ValueView>) -> bool {
        &&& values.len() == 3
        &&& values[0] == ValueView::Row(self.class.table, self.class.row_index)
        &&& values[1] == ValueView::Row(self.method_body.table, self.method_body.row_index)
        &&& values[2] == ValueView::Row(self.method_declaration.table, self.method_declaration.row_index)
    }

    open spec fn completes(&self, before: &Self, next_row: Option<&Self>, layout: &TableLayout) -> bool {
        *self == *before
    }

    open spec fn spec_pick(rows: &TableRows) -> Option<&MDTable<Self>> {
        match rows {
            TableRows::MethodImpl(table) => Some(table),
            _ => None,
        }
    }

    open spec fn spec_wrap(table: MDTable<Self>) -> TableRows {
        TableRows::MethodImpl(table)
    }

    proof fn columns_are_wf() {
    }

    fn blank() -> (r: Self) {
        MethodImpl {
            class: SimpleCodedIndex::default(),
            method_body: codedindex::MethodDefOrRef::default(),
            method_declaration: codedindex::MethodDefOrRef::default(),
        }
    }

    fn columns() -> (r: Vec<Column>) {
        let mut columns: Vec<Column> = Vec::new();
        columns.push(Column::Index("TypeDef"));
        columns.push(Column::Coded(CodedKind::MethodDefOrRef));
        columns.push(Column::Coded(CodedKind::MethodDefOrRef));
        assert(columns@ =~= Self::spec_columns());
        columns
    }

    fn size(
        &self,
        str_offset_size: usize,
        guids_offset_size: usize,
        blobs_offset_size: usize,
        tables_row_counts: &Vec<usize>,
    ) -> (r: usize) {
        let columns = Self::columns();
        row_size(&columns, str_offset_size, guids_offset_size, blobs_offset_size, tables_row_counts)
    }

    fn parse(&mut self, data: &Vec<u8>, layout: &TableLayout, heaps: &Heaps) -> (r: Result<()>) {
        let columns = Self::columns();
        let mut values = decode_row(&columns, data.as_slice(), layout, heaps)?;
        let ghost all = value_views(values@);
        let v2 = values.pop().unwrap();
        let v1 = values.pop().unwrap();
        let v0 = values.pop().unwrap();
        proof {
            assert(all[0] == v0@);
            assert(all[1] == v1@);
            assert(all[2] == v2@);
        }
        let (table0, row0) = v0.into_row();
        self.class = SimpleCodedIndex::to_row(table0, row0);
        let (table1, row1) = v1.into_row();
        self.method_body.set_table(table1);
        self.method_body.set_row_index(row1);
        let (table2, row2) = v2.into_row();
        self.method_declaration.set_table(table2);
        self.method_declaration.set_row_index(row2);
        Ok(())
    }

    fn parse2(&mut self, _layout: &TableLayout, _next_row: Option<&Self>) -> (r: Result<()>) {
        Ok(())
    }

    fn pick(rows: &TableRows) -> (r: Option<&MDTable<Self>>) {
        match rows {
            TableRows::MethodImpl(table) => Some(table),
            _ => None,
        }
    }

    fn pick_mut(rows: &mut TableRows) -> (r: Option<&mut MDTable<Self>>) {
        match rows {
            TableRows::MethodImpl(table) => Some(table),
            _ => None,
        }
    }
}

/// A module that is referred to.
#[derive(Debug, Clone)]
pub struct ModuleRef {
    pub name: String,
}

impl MDTableRowTrait for ModuleRef {
    open spec fn spec_columns() -> Seq<Column> {
        seq![Column::Strings]
    }

    open spec fn is_blank(&self) -> bool {
        &&& self.name@.len() == 0
    }

    open spec fn holds(&self, values: Seq<ValueView>) -> bool {
        &&& values.len() == 1
        &&& values[0] == ValueView::Text(self.name@)
    }

    open spec fn completes(&self, before: &Self, next_row: Option<&Self>, layout: &TableLayout) -> bool {
        *self == *before
    }

    open spec fn spec_pick(rows: &TableRows) -> Option<&MDTable<Self>> {
        match rows {
            TableRows::ModuleRef(table) => Some(table),
            _ => None,
        }
    }

    open spec fn spec_wrap(table: MDTable<Self>) -> TableRows {
        TableRows::ModuleRef(table)
    }

    proof fn columns_are_wf() {
    }

    fn blank() -> (r: Self) {
        ModuleRef {
            name: String::new(),
        }
    }

    fn columns() -> (r: Vec<Column>) {
        let mut columns: Vec<Column> = Vec::new();
        columns.push(Column::Strings);
        assert(columns@ =~= Self::spec_columns());
        columns
    }

    fn size(
        &self,
        str_offset_size: usize,
        guids_offset_size: usize,
        blobs_offset_size: usize,
        tables_row_counts: &Vec<usize>,
    ) -> (r: usize) {
        let columns = Self::columns();
        row_size(&columns, str_offset_size, guids_offset_size, blobs_offset_size, tables_row_counts)
    }

    fn parse(&mut self, data: &Vec<u8>, layout: &TableLayout, heaps: &Heaps) -> (r: Result<()>) {
        let columns = Self::columns();
        let mut values = decode_row(&columns, data.as_slice(), layout, heaps)?;
        let ghost all = value_views(values@);
        let v0 = values.pop().unwrap();
        proof {
            assert(all[0] == v0@);
        }
        self.name = v0.into_text();
        Ok(())
    }

    fn parse2(&mut self, _layout: &TableLayout, _next_row: Option<&Self>) -> (r: Result<()>) {
        Ok(())
    }

    fn pick(rows: &TableRows) -> (r: Option<&MDTable<Self>>) {
        match rows {
            TableRows::ModuleRef(table) => Some(table),
            _ => None,
        }
    }

    fn pick_mut(rows: &mut TableRows) -> (r: Option<&mut MDTable<Self>>) {
        match rows {
            TableRows::ModuleRef(table) => Some(table),
            _ => None,
        }
    }
}

/// A type given by a signature.
#[derive(Debug, Clone)]
pub struct TypeSpec {
    pub signature: Vec<u8>,
}

impl MDTableRowTrait for TypeSpec {
    open spec fn spec_columns() -> Seq<Column> {
        seq![Column::Blobs]
    }

    open spec fn is_blank(&self) -> bool {
        &&& self.signature@.len() == 0
    }

    open spec fn holds(&self, values: Seq<ValueView>) -> bool {
        &&& values.len() == 1
        &&& values[0] == ValueView::Bytes(self.signature@)
    }

    open spec fn completes(&self, before: &Self, next_row: Option<&Self>, layout: &TableLayout) -> bool {
        *self == *before
    }

    open spec fn spec_pick(rows: &TableRows) -> Option<&MDTable<Self>> {
        match rows {
            TableRows::TypeSpec(table) => Some(table),
            _ => None,
        }
    }

    open spec fn spec_wrap(table: MDTable<Self>) -> TableRows {
        TableRows::TypeSpec(table)
    }

    proof fn columns_are_wf() {
    }

    fn blank() -> (r: Self) {
        TypeSpec {
            signature: Vec::new(),
        }
    }

    fn columns() -> (r: Vec<Column>) {
        let mut columns: Vec<Column> = Vec::new();
        columns.push(Column::Blobs);
        assert(columns@ =~= Self::spec_columns());
        columns
    }

    fn size(
        &self,
        str_offset_size: usize,
        guids_offset_size: usize,
        blobs_offset_size: usize,
        tables_row_counts: &Vec<usize>,
    ) -> (r: usize) {
        let columns = Self::columns();
        row_size(&columns, str_offset_size, guids_offset_size, blobs_offset_size, tables_row_counts)
    }

    fn parse(&mut self, data: &Vec<u8>, layout: &TableLayout, heaps: &Heaps) -> (r: Result<()>) {
        let columns = Self::columns();
        let mut values = decode_row(&columns, data.as_slice(), layout, heaps)?;
        let ghost all = value_views(values@);
        let v0 = values.pop().unwrap();
        proof {
            assert(all[0] == v0@);
        }
        self.signature = v0.into_bytes();
        Ok(())
    }

    fn parse2(&mut self, _layout: &TableLayout, _next_row: Option<&Self>) -> (r: Result<()>) {
        Ok(())
    }

    fn pick(rows: &TableRows) -> (r: Option<&MDTable<Self>>) {
        match rows {
            TableRows::TypeSpec(table) => Some(table),
            _ => None,
        }
    }

    fn pick_mut(rows: &mut TableRows) -> (r: Option<&mut MDTable<Self>>) {
        match rows {
            TableRows::TypeSpec(table) => Some(table),
            _ => None,
        }
    }
}

/// The platform invoke of a member.
#[derive(Debug, Clone)]
pub struct ImplMap {
    pub mapping_flags: Vec<enums::ClrPinvokeMap>,
    pub member_forwarded: codedindex::MemberForwarded,
    pub import_name: String,
    pub import_scope: SimpleCodedIndex,
}

impl MDTableRowTrait for ImplMap {
    open spec fn spec_columns() -> Seq<Column> {
        seq![
            Column::Fixed(2),
            Column::Coded(CodedKind::MemberForwarded),
            Column::Strings,
            Column::Index("ModuleRef"),
        ]
    }

    open spec fn is_blank(&self) -> bool {
        &&& self.mapping_flags@.len() == 0
        &&& self.member_forwarded.row_index == 0
        &&& self.member_forwarded.table@.len() == 0
        &&& self.member_forwarded.tag_bits == CodedKind::MemberForwarded.spec_tag_bits()
        &&& self.member_forwarded.table_names@ == CodedKind::MemberForwarded.spec_names()
        &&& self.import_name@.len() == 0
        &&& self.import_scope.row_index == 0
        &&& self.import_scope.table@.len() == 0
    }

    open spec fn holds(&self, values: Seq<ValueView>) -> bool {
        &&& values.len() == 4
        &&& values[0] matches ValueView::Number(n0)
        &&& self.mapping_flags@ == enums::ClrPinvokeMap::spec_new(n0)
        &&& values[1] == ValueView::Row(self.member_forwarded.table, self.member_forwarded.row_index)
        &&& values[2] == ValueView::Text(self.import_name@)
        &&& values[3] == ValueView::Row(self.import_scope.table, self.import_scope.row_index)
    }

    open spec fn completes(&self, before: &Self, next_row: Option<&Self>, layout: &TableLayout) -> bool {
        *self == *before
    }

    open spec fn spec_pick(rows: &TableRows) -> Option<&MDTable<Self>> {
        match rows {
            TableRows::ImplMap(table) => Some(table),
            _ => None,
        }
    }

    open spec fn spec_wrap(table: MDTable<Self>) -> TableRows {
        TableRows::ImplMap(table)
    }

    proof fn columns_are_wf() {
    }

    fn blank() -> (r: Self) {
        ImplMap {
            mapping_flags: Vec::new(),
            member_forwarded: codedindex::MemberForwarded::default(),
            import_name: String::new(),
            import_scope: SimpleCodedIndex::default(),
        }
    }

    fn columns() -> (r: Vec<Column>) {
        let mut columns: Vec<Column> = Vec::new();
        columns.push(Column::Fixed(2));
        columns.push(Column::Coded(CodedKind::MemberForwarded));
        columns.push(Column::Strings);
        columns.push(Column::Index("ModuleRef"));
        assert(columns@ =~= Self::spec_columns());
        columns
    }

    fn size(
        &self,
        str_offset_size: usize,
        guids_offset_size: usize,
        blobs_offset_size: usize,
        tables_row_counts: &Vec<usize>,
    ) -> (r: usize) {
        let columns = Self::columns();
        row_size(&columns, str_offset_size, guids_offset_size, blobs_offset_size, tables_row_counts)
    }

    fn parse(&mut self, data: &Vec<u8>, layout: &TableLayout, heaps: &Heaps) -> (r: Result<()>) {
        let columns = Self::columns();
        let mut values = decode_row(&columns, data.as_slice(), layout, heaps)?;
        let ghost all = value_views(values@);
        let v3 = values.pop().unwrap();
        let v2 = values.pop().unwrap();
        let v1 = values.pop().unwrap();
        let v0 = values.pop().unwrap();
        proof {
            assert(all[0] == v0@);
            assert(all[1] == v1@);
            assert(all[2] == v2@);
            assert(all[3] == v3@);
        }
        self.mapping_flags = enums::ClrPinvokeMap::new(v0.into_number());
        let (table1, row1) = v1.into_row();
        self.member_forwarded.set_table(table1);
        self.member_forwarded.set_row_index(row1);
        self.import_name = v2.into_text();
        let (table3, row3) = v3.into_row();
        self.import_scope = SimpleCodedIndex::to_row(table3, row3);
        Ok(())
    }

    fn parse2(&mut self, _layout: &TableLayout, _next_row: Option<&Self>) -> (r: Result<()>) {
        Ok(())
    }

    fn pick(rows: &TableRows) -> (r: Option<&MDTable<Self>>) {
        match rows {
            TableRows::ImplMap(table) => Some(table),
            _ => None,
        }
    }

    fn pick_mut(rows: &mut TableRows) -> (r: Option<&mut MDTable<Self>>) {
        match rows {
            TableRows::ImplMap(table) => Some(table),
            _ => None,
        }
    }
}

/// Where the initial value of a field lies.
#[derive(Debug, Clone)]
pub struct FieldRva {
    pub rva: u32,
    pub field: SimpleCodedIndex,
}

impl MDTableRowTrait for FieldRva {
    open spec fn spec_columns() -> Seq<Column> {
        seq![Column::Fixed(4), Column::Index("Field")]
    }

    open spec fn is_blank(&self) -> bool {
        &&& self.rva == 0
        &&& self.field.row_index == 0
        &&& self.field.table@.len() == 0
    }

    open spec fn holds(&self, values: Seq<ValueView>) -> bool {
        &&& values.len() == 2
        &&& values[0] matches ValueView::Number(n0)
        &&& self.rva == n0 as u32
        &&& values[1] == ValueView::Row(self.field.table, self.field.row_index)
    }

    open spec fn completes(&self, before: &Self, next_row: Option<&Self>, layout: &TableLayout) -> bool {
        *self == *before
    }

    open spec fn spec_pick(rows: &TableRows) -> Option<&MDTable<Self>> {
        match rows {
            TableRows::FieldRva(table) => Some(table),
            _ => None,
        }
    }

    open spec fn spec_wrap(table: MDTable<Self>) -> TableRows {
        TableRows::FieldRva(table)
    }

    proof fn columns_are_wf() {
    }

    fn blank() -> (r: Self) {
        FieldRva {
            rva: 0,
            field: SimpleCodedIndex::default(),
        }
    }

    fn columns() -> (r: Vec<Column>) {
        let mut columns: Vec<Column> = Vec::new();
        columns.push(Column::Fixed(4));
        columns.push(Column::Index("Field"));
        assert(columns@ =~= Self::spec_columns());
        columns
    }

    fn size(
        &self,
        str_offset_size: usize,
        guids_offset_size: usize,
        blobs_offset_size: usize,
        tables_row_counts: &Vec<usize>,
    ) -> (r: usize) {
        let columns = Self::columns();
        row_size(&columns, str_offset_size, guids_offset_size, blobs_offset_size, tables_row_counts)
    }

    fn parse(&mut self, data: &Vec<u8>, layout: &TableLayout, heaps: &Heaps) -> (r: Result<()>) {
        let columns = Self::columns();
        let mut values = decode_row(&columns, data.as_slice(), layout, heaps)?;
        let ghost all = value_views(values@);
        let v1 = values.pop().unwrap();
        let v0 = values.pop().unwrap();
        proof {
            assert(all[0] == v0@);
            assert(all[1] == v1@);
        }
        self.rva = #[verifier::truncate]
        (v0.into_number() as u32);
        let (table1, row1) = v1.into_row();
        self.field = SimpleCodedIndex::to_row(table1, row1);
        Ok(())
    }

    fn parse2(&mut self, _layout: &TableLayout, _next_row: Option<&Self>) -> (r: Result<()>) {
        Ok(())
    }

    fn pick(rows: &TableRows) -> (r: Option<&MDTable<Self>>) {
        match rows {
            TableRows::FieldRva(table) => Some(table),
            _ => None,
        }
    }

    fn pick_mut(rows: &mut TableRows) -> (r: Option<&mut MDTable<Self>>) {
        match rows {
            TableRows::FieldRva(table) => Some(table),
            _ => None,
        }
    }
}

/// An entry of the log of edit and continue.
#[derive(Debug, Clone)]
pub struct EncLog {
    pub token: u32,
    pub func_code: u32,
}

impl MDTableRowTrait for EncLog {
    open spec fn spec_columns() -> Seq<Column> {
        seq![Column::Fixed(4), Column::Fixed(4)]
    }

    open spec fn is_blank(&self) -> bool {
        &&& self.token == 0
        &&& self.func_code == 0
    }

    open spec fn holds(&self, values: Seq<ValueView>) -> bool {
        &&& values.len() == 2
        &&& values[0] matches ValueView::Number(n0)
        &&& self.token == n0 as u32
        &&& values[1] matches ValueView::Number(n1)
        &&& self.func_code == n1 as u32
    }

    open spec fn completes(&self, before: &Self, next_row: Option<&Self>, layout: &TableLayout) -> bool {
        *self == *before
    }

    open spec fn spec_pick(rows: &TableRows) -> Option<&MDTable<Self>> {
        match rows {
            TableRows::EncLog(table) => Some(table),
            _ => None,
        }
    }

    open spec fn spec_wrap(table: MDTable<Self>) -> TableRows {
        TableRows::EncLog(table)
    }

    proof fn columns_are_wf() {
    }

    fn blank() -> (r: Self) {
        EncLog {
            token: 0,
            func_code: 0,
        }
    }

    fn columns() -> (r: Vec<Column>) {
        let mut columns: Vec<Column> = Vec::new();
        columns.push(Column::Fixed(4));
        columns.push(Column::Fixed(4));
        assert(columns@ =~= Self::spec_columns());
        columns
    }

    fn size(
        &self,
        str_offset_size: usize,
        guids_offset_size: usize,
        blobs_offset_size: usize,
        tables_row_counts: &Vec<usize>,
    ) -> (r: usize) {
        let columns = Self::columns();
        row_size(&columns, str_offset_size, guids_offset_size, blobs_offset_size, tables_row_counts)
    }

    fn parse(&mut self, data: &Vec<u8>, layout: &TableLayout, heaps: &Heaps) -> (r: Result<()>) {
        let columns = Self::columns();
        let mut values = decode_row(&columns, data.as_slice(), layout, heaps)?;
        let ghost all = value_views(values@);
        let v1 = values.pop().unwrap();
        let v0 = values.pop().unwrap();
        proof {
            assert(all[0] == v0@);
            assert(all[1] == v1@);
        }
        self.token = #[verifier::truncate]
        (v0.into_number() as u32);
        self.func_code = #[verifier::truncate]
        (v1.into_number() as u32);
        Ok(())
    }

    fn parse2(&mut self, _layout: &TableLayout, _next_row: Option<&Self>) -> (r: Result<()>) {
        Ok(())
    }

    fn pick(rows: &TableRows) -> (r: Option<&MDTable<Self>>) {
        match rows {
            TableRows::EncLog(table) => Some(table),
            _ => None,
        }
    }

    fn pick_mut(rows: &mut TableRows) -> (r: Option<&mut MDTable<Self>>) {
        match rows {
            TableRows::EncLog(table) => Some(table),
            _ => None,
        }
    }
}

/// An entry of the map of edit and continue.
#[derive(Debug, Clone)]
pub struct EncMap {
    pub token: u32,
}

impl MDTableRowTrait for EncMap {
    open spec fn spec_columns() -> Seq<Column> {
        seq![Column::Fixed(4)]
    }

    open spec fn is_blank(&self) -> bool {
        &&& self.token == 0
    }

    open spec fn holds(&self, values: Seq<ValueView>) -> bool {
        &&& values.len() == 1
        &&& values[0] matches ValueView::Number(n0)
        &&& self.token == n0 as u32
    }

    open spec fn completes(&self, before: &Self, next_row: Option<&Self>, layout: &TableLayout) -> bool {
        *self == *before
    }

    open spec fn spec_pick(rows: &TableRows) -> Option<&MDTable<Self>> {
        match rows {
            TableRows::EncMap(table) => Some(table),
            _ => None,
        }
    }

    open spec fn spec_wrap(table: MDTable<Self>) -> TableRows {
        TableRows::EncMap(table)
    }

    proof fn columns_are_wf() {
    }

    fn blank() -> (r: Self) {
        EncMap {
            token: 0,
        }
    }

    fn columns() -> (r: Vec<Column>) {
        let mut columns: Vec<Column> = Vec::new();
        columns.push(Column::Fixed(4));
        assert(columns@ =~= Self::spec_columns());
        columns
    }

    fn size(
        &self,
        str_offset_size: usize,
        guids_offset_size: usize,
        blobs_offset_size: usize,
        tables_row_counts: &Vec<usize>,
    ) -> (r: usize) {
        let columns = Self::columns();
        row_size(&columns, str_offset_size, guids_offset_size, blobs_offset_size, tables_row_counts)
    }

    fn parse(&mut self, data: &Vec<u8>, layout: &TableLayout, heaps: &Heaps) -> (r: Result<()>) {
        let columns = Self::columns();
        let mut values = decode_row(&columns, data.as_slice(), layout, heaps)?;
        let ghost all = value_views(values@);
        let v0 = values.pop().unwrap();
        proof {
            assert(all[0] == v0@);
        }
        self.token = #[verifier::truncate]
        (v0.into_number() as u32);
        Ok(())
    }

    fn parse2(&mut self, _layout: &TableLayout, _next_row: Option<&Self>) -> (r: Result<()>) {
        Ok(())
    }

    fn pick(rows: &TableRows) -> (r: Option<&MDTable<Self>>) {
        match rows {
            TableRows::EncMap(table) => Some(table),
            _ => None,
        }
    }

    fn pick_mut(rows: &mut TableRows) -> (r: Option<&mut MDTable<Self>>) {
        match rows {
            TableRows::EncMap(table) => Some(table),
            _ => None,
        }
    }
}

/// The assembly that the image holds.
#[derive(Debug, Clone)]
pub struct Assembly {
    pub hash_alg_id: enums::AssemblyHashAlgorithm,
    pub major_version: u32,
    pub minor_version: u32,
    pub build_number: u32,
    pub revision_number: u32,
    pub flags: Vec<enums::ClrAssemblyFlags>,
    pub public_key: Vec<u8>,
    pub name: String,
    pub culture: String,
}

impl MDTableRowTrait for Assembly {
    open spec fn spec_columns() -> Seq<Column> {
        seq![
            Column::Fixed(4),
            Column::Fixed(2),
            Column::Fixed(2),
            Column::Fixed(2),
            Column::Fixed(2),
            Column::Fixed(4),
            Column::Blobs,
            Column::Strings,
            Column::Strings,
        ]
    }

    open spec fn is_blank(&self) -> bool {
        &&& self.hash_alg_id == enums::AssemblyHashAlgorithm::spec_new(0)
        &&& self.major_version == 0
        &&& self.minor_version == 0
        &&& self.build_number == 0
        &&& self.revision_number == 0
        &&& self.flags@.len() == 0
        &&& self.public_key@.len() == 0
        &&& self.name@.len() == 0
        &&& self.culture@.len() == 0
    }

    open spec fn holds(&self, values: Seq<ValueView>) -> bool {
        &&& values.len() == 9
        &&& values[0] matches ValueView::Number(n0)
        &&& self.hash_alg_id == enums::AssemblyHashAlgorithm::spec_new(n0)
        &&& values[1] matches ValueView::Number(n1)
        &&& self.major_version == n1 as u32
        &&& values[2] matches ValueView::Number(n2)
        &&& self.minor_version == n2 as u32
        &&& values[3] matches ValueView::Number(n3)
        &&& self.build_number == n3 as u32
        &&& values[4] matches ValueView::Number(n4)
        &&& self.revision_number == n4 as u32
        &&& values[5] matches ValueView::Number(n5)
        &&& self.flags@ == enums::ClrAssemblyFlags::spec_new(n5)
        &&& values[6] == ValueView::Bytes(self.public_key@)
        &&& values[7] == ValueView::Text(self.name@)
        &&& values[8] == ValueView::Text(self.culture@)
    }

    open spec fn completes(&self, before: &Self, next_row: Option<&Self>, layout: &TableLayout) -> bool {
        *self == *before
    }

    open spec fn spec_pick(rows: &TableRows) -> Option<&MDTable<Self>> {
        match rows {
            TableRows::Assembly(table) => Some(table),
            _ => None,
        }
    }

    open spec fn spec_wrap(table: MDTable<Self>) -> TableRows {
        TableRows::Assembly(table)
    }

    proof fn columns_are_wf() {
    }

    fn blank() -> (r: Self) {
        Assembly {
            hash_alg_id: enums::AssemblyHashAlgorithm::default(),
            major_version: 0,
            minor_version: 0,
            build_number: 0,
            revision_number: 0,
            flags: Vec::new(),
            public_key: Vec::new(),
            name: String::new(),
            culture: String::new(),
        }
    }

    fn columns() -> (r: Vec<Column>) {
        let mut columns: Vec<Column> = Vec::new();
        columns.push(Column::Fixed(4));
        columns.push(Column::Fixed(2));
        columns.push(Column::Fixed(2));
        columns.push(Column::Fixed(2));
        columns.push(Column::Fixed(2));
        columns.push(Column::Fixed(4));
        columns.push(Column::Blobs);
        columns.push(Column::Strings);
        columns.push(Column::Strings);
        assert(columns@ =~= Self::spec_columns());
        columns
    }

    fn size(
        &self,
        str_offset_size: usize,
        guids_offset_size: usize,
        blobs_offset_size: usize,
        tables_row_counts: &Vec<usize>,
    ) -> (r: usize) {
        let columns = Self::columns();
        row_size(&columns, str_offset_size, guids_offset_size, blobs_offset_size, tables_row_counts)
    }

    fn parse(&mut self, data: &Vec<u8>, layout: &TableLayout, heaps: &Heaps) -> (r: Result<()>) {
        let columns = Self::columns();
        let mut values = decode_row(&columns, data.as_slice(), layout, heaps)?;
        let ghost all = value_views(values@);
        let v8 = values.pop().unwrap();
        let v7 = values.pop().unwrap();
        let v6 = values.pop().unwrap();
        let v5 = values.pop().unwrap();
        let v4 = values.pop().unwrap();
        let v3 = values.pop().unwrap();
        let v2 = values.pop().unwrap();
        let v1 = values.pop().unwrap();
        let v0 = values.pop().unwrap();
        proof {
            assert(all[0] == v0@);
            assert(all[1] == v1@);
            assert(all[2] == v2@);
            assert(all[3] == v3@);
            assert(all[4] == v4@);
            assert(all[5] == v5@);
            assert(all[6] == v6@);
            assert(all[7] == v7@);
            assert(all[8] == v8@);
        }
        self.hash_alg_id = enums::AssemblyHashAlgorithm::new(v0.into_number());
        self.major_version = #[verifier::truncate]
        (v1.into_number() as u32);
        self.minor_version = #[verifier::truncate]
        (v2.into_number() as u32);
        self.build_number = #[verifier::truncate]
        (v3.into_number() as u32);
        self.revision_number = #[verifier::truncate]
        (v4.into_number() as u32);
        self.flags = enums::ClrAssemblyFlags::new(v5.into_number());
        self.public_key = v6.into_bytes();
        self.name = v7.into_text();
        self.culture = v8.into_text();
        Ok(())
    }

    fn parse2(&mut self, _layout: &TableLayout, _next_row: Option<&Self>) -> (r: Result<()>) {
        Ok(())
    }

    fn pick(rows: &TableRows) -> (r: Option<&MDTable<Self>>) {
        match rows {
            TableRows::Assembly(table) => Some(table),
            _ => None,
        }
    }

    fn pick_mut(rows: &mut TableRows) -> (r: Option<&mut MDTable<Self>>) {
        match rows {
            TableRows::Assembly(table) => Some(table),
            _ => None,
        }
    }
}

/// Reserved.
#[derive(Debug, Clone)]
pub struct AssemblyProcessor {
    pub processor: u32,
}

impl MDTableRowTrait for AssemblyProcessor {
    open spec fn spec_columns() -> Seq<Column> {
        seq![Column::Fixed(4)]
    }

    open spec fn is_blank(&self) -> bool {
        &&& self.processor == 0
    }

    open spec fn holds(&self, values: Seq<ValueView>) -> bool {
        &&& values.len() == 1
        &&& values[0] matches ValueView::Number(n0)
        &&& self.processor == n0 as u32
    }

    open spec fn completes(&self, before: &Self, next_row: Option<&Self>, layout: &TableLayout) -> bool {
        *self == *before
    }

    open spec fn spec_pick(rows: &TableRows) -> Option<&MDTable<Self>> {
        match rows {
            TableRows::AssemblyProcessor(table) => Some(table),
            _ => None,
        }
    }

    open spec fn spec_wrap(table: MDTable<Self>) -> TableRows {
        TableRows::AssemblyProcessor(table)
    }

    proof fn columns_are_wf() {
    }

    fn blank() -> (r: Self) {
        AssemblyProcessor {
            processor: 0,
        }
    }

    fn columns() -> (r: Vec<Column>) {
        let mut columns: Vec<Column> = Vec::new();
        columns.push(Column::Fixed(4));
        assert(columns@ =~= Self::spec_columns());
        columns
    }

    fn size(
        &self,
        str_offset_size: usize,
        guids_offset_size: usize,
        blobs_offset_size: usize,
        tables_row_counts: &Vec<usize>,
    ) -> (r: usize) {
        let columns = Self::columns();
        row_size(&columns, str_offset_size, guids_offset_size, blobs_offset_size, tables_row_counts)
    }

    fn parse(&mut self, data: &Vec<u8>, layout: &TableLayout, heaps: &Heaps) -> (r: Result<()>) {
        let columns = Self::columns();
        let mut values = decode_row(&columns, data.as_slice(), layout, heaps)?;
        let ghost all = value_views(values@);
        let v0 = values.pop().unwrap();
        proof {
            assert(all[0] == v0@);
        }
        self.processor = #[verifier::truncate]
        (v0.into_number() as u32);
        Ok(())
    }

    fn parse2(&mut self, _layout: &TableLayout, _next_row: Option<&Self>) -> (r: Result<()>) {
        Ok(())
    }

    fn pick(rows: &TableRows) -> (r: Option<&MDTable<Self>>) {
        match rows {
            TableRows::AssemblyProcessor(table) => Some(table),
            _ => None,
        }
    }

    fn pick_mut(rows: &mut TableRows) -> (r: Option<&mut MDTable<Self>>) {
        match rows {
            TableRows::AssemblyProcessor(table) => Some(table),
            _ => None,
        }
    }
}

/// Reserved.
#[derive(Debug, Clone)]
pub struct AssemblyOS {
    pub os_platform_id: u32,
    pub os_major_version: u32,
    pub os_minor_version: u32,
}

impl MDTableRowTrait for AssemblyOS {
    open spec fn spec_columns() -> Seq<Column> {
        seq![Column::Fixed(4), Column::Fixed(4), Column::Fixed(4)]
    }

    open spec fn is_blank(&self) -> bool {
        &&& self.os_platform_id == 0
        &&& self.os_major_version == 0
        &&& self.os_minor_version == 0
    }

    open spec fn holds(&self, values: Seq<ValueView>) -> bool {
        &&& values.len() == 3
        &&& values[0] matches ValueView::Number(n0)
        &&& self.os_platform_id == n0 as u32
        &&& values[1] matches ValueView::Number(n1)
        &&& self.os_major_version == n1 as u32
        &&& values[2] matches ValueView::Number(n2)
        &&& self.os_minor_version == n2 as u32
    }

    open spec fn completes(&self, before: &Self, next_row: Option<&Self>, layout: &TableLayout) -> bool {
        *self == *before
    }

    open spec fn spec_pick(rows: &TableRows) -> Option<&MDTable<Self>> {
        match rows {
            TableRows::AssemblyOS(table) => Some(table),
            _ => None,
        }
    }

    open spec fn spec_wrap(table: MDTable<Self>) -> TableRows {
        TableRows::AssemblyOS(table)
    }

    proof fn columns_are_wf() {
    }

    fn blank() -> (r: Self) {
        AssemblyOS {
            os_platform_id: 0,
            os_major_version: 0,
            os_minor_version: 0,
        }
    }

    fn columns() -> (r: Vec<Column>) {
        let mut columns: Vec<Column> = Vec::new();
        columns.push(Column::Fixed(4));
        columns.push(Column::Fixed(4));
        columns.push(Column::Fixed(4));
        assert(columns@ =~= Self::spec_columns());
        columns
    }

    fn size(
        &self,
        str_offset_size: usize,
        guids_offset_size: usize,
        blobs_offset_size: usize,
        tables_row_counts: &Vec<usize>,
    ) -> (r: usize) {
        let columns = Self::columns();
        row_size(&columns, str_offset_size, guids_offset_size, blobs_offset_size, tables_row_counts)
    }

    fn parse(&mut self, data: &Vec<u8>, layout: &TableLayout, heaps: &Heaps) -> (r: Result<()>) {
        let columns = Self::columns();
        let mut values = decode_row(&columns, data.as_slice(), layout, heaps)?;
        let ghost all = value_views(values@);
        let v2 = values.pop().unwrap();
        let v1 = values.pop().unwrap();
        let v0 = values.pop().unwrap();
        proof {
            assert(all[0] == v0@);
            assert(all[1] == v1@);
            assert(all[2] == v2@);
        }
        self.os_platform_id = #[verifier::truncate]
        (v0.into_number() as u32);
        self.os_major_version = #[verifier::truncate]
        (v1.into_number() as u32);
        self.os_minor_version = #[verifier::truncate]
        (v2.into_number() as u32);
        Ok(())
    }

    fn parse2(&mut self, _layout: &TableLayout, _next_row: Option<&Self>) -> (r: Result<()>) {
        Ok(())
    }

    fn pick(rows: &TableRows) -> (r: Option<&MDTable<Self>>) {
        match rows {
            TableRows::AssemblyOS(table) => Some(table),
            _ => None,
        }
    }

    fn pick_mut(rows: &mut TableRows) -> (r: Option<&mut MDTable<Self>>) {
        match rows {
            TableRows::AssemblyOS(table) => Some(table),
            _ => None,
        }
    }
}

/// An assembly that is referred to.
#[derive(Debug, Clone)]
pub struct AssemblyRef {
    pub major_version: u32,
    pub minor_version: u32,
    pub build_number: u32,
    pub revision_number: u32,
    pub flags: Vec<enums::ClrAssemblyFlags>,
    pub public_key: Vec<u8>,
    pub name: String,
    pub culture: String,
    pub hash_value: Vec<u8>,
}

impl MDTableRowTrait for AssemblyRef {
    open spec fn spec_columns() -> Seq<Column> {
        seq![
            Column::Fixed(2),
            Column::Fixed(2),
            Column::Fixed(2),
            Column::Fixed(2),
            Column::Fixed(4),
            Column::Blobs,
            Column::Strings,
            Column::Strings,
            Column::Blobs,
        ]
    }

    open spec fn is_blank(&self) -> bool {
        &&& self.major_version == 0
        &&& self.minor_version == 0
        &&& self.build_number == 0
        &&& self.revision_number == 0
        &&& self.flags@.len() == 0
        &&& self.public_key@.len() == 0
        &&& self.name@.len() == 0
        &&& self.culture@.len() == 0
        &&& self.hash_value@.len() == 0
    }

    open spec fn holds(&self, values: Seq<ValueView>) -> bool {
        &&& values.len() == 9
        &&& values[0] matches ValueView::Number(n0)
        &&& self.major_version == n0 as u32
        &&& values[1] matches ValueView::Number(n1)
        &&& self.minor_version == n1 as u32
        &&& values[2] matches ValueView::Number(n2)
        &&& self.build_number == n2 as u32
        &&& values[3] matches ValueView::Number(n3)
        &&& self.revision_number == n3 as u32
        &&& values[4] matches ValueView::Number(n4)
        &&& self.flags@ == enums::ClrAssemblyFlags::spec_new(n4)
        &&& values[5] == ValueView::Bytes(self.public_key@)
        &&& values[6] == ValueView::Text(self.name@)
        &&& values[7] == ValueView::Text(self.culture@)
        &&& values[8] == ValueView::Bytes(self.hash_value@)
    }

    open spec fn completes(&self, before: &Self, next_row: Option<&Self>, layout: &TableLayout) -> bool {
        *self == *before
    }

    open spec fn spec_pick(rows: &TableRows) -> Option<&MDTable<Self>> {
        match rows {
            TableRows::AssemblyRef(table) => Some(table),
            _ => None,
        }
    }

    open spec fn spec_wrap(table: MDTable<Self>) -> TableRows {
        TableRows::AssemblyRef(table)
    }

    proof fn columns_are_wf() {
    }

    fn blank() -> (r: Self) {
        AssemblyRef {
            major_version: 0,
            minor_version: 0,
            build_number: 0,
            revision_number: 0,
            flags: Vec::new(),
            public_key: Vec::new(),
            name: String::new(),
            culture: String::new(),
            hash_value: Vec::new(),
        }
    }

    fn columns() -> (r: Vec<Column>) {
        let mut columns: Vec<Column> = Vec::new();
        columns.push(Column::Fixed(2));
        columns.push(Column::Fixed(2));
        columns.push(Column::Fixed(2));
        columns.push(Column::Fixed(2));
        columns.push(Column::Fixed(4));
        columns.push(Column::Blobs);
        columns.push(Column::Strings);
        columns.push(Column::Strings);
        columns.push(Column::Blobs);
        assert(columns@ =~= Self::spec_columns());
        columns
    }

    fn size(
        &self,
        str_offset_size: usize,
        guids_offset_size: usize,
        blobs_offset_size: usize,
        tables_row_counts: &Vec<usize>,
    ) -> (r: usize) {
        let columns = Self::columns();
        row_size(&columns, str_offset_size, guids_offset_size, blobs_offset_size, tables_row_counts)
    }

    fn parse(&mut self, data: &Vec<u8>, layout: &TableLayout, heaps: &Heaps) -> (r: Result<()>) {
        let columns = Self::columns();
        let mut values = decode_row(&columns, data.as_slice(), layout, heaps)?;
        let ghost all = value_views(values@);
        let v8 = values.pop().unwrap();
        let v7 = values.pop().unwrap();
        let v6 = values.pop().unwrap();
        let v5 = values.pop().unwrap();
        let v4 = values.pop().unwrap();
        let v3 = values.pop().unwrap();
        let v2 = values.pop().unwrap();
        let v1 = values.pop().unwrap();
        let v0 = values.pop().unwrap();
        proof {
            assert(all[0] == v0@);
            assert(all[1] == v1@);
            assert(all[2] == v2@);
            assert(all[3] == v3@);
            assert(all[4] == v4@);
            assert(all[5] == v5@);
            assert(all[6] == v6@);
            assert(all[7] == v7@);
            assert(all[8] == v8@);
        }
        self.major_version = #[verifier::truncate]
        (v0.into_number() as u32);
        self.minor_version = #[verifier::truncate]
        (v1.into_number() as u32);
        self.build_number = #[verifier::truncate]
        (v2.into_number() as u32);
        self.revision_number = #[verifier::truncate]
        (v3.into_number() as u32);
        self.flags = enums::ClrAssemblyFlags::new(v4.into_number());
        self.public_key = v5.into_bytes();
        self.name = v6.into_text();
        self.culture = v7.into_text();
        self.hash_value = v8.into_bytes();
        Ok(())
    }

    fn parse2(&mut self, _layout: &TableLayout, _next_row: Option<&Self>) -> (r: Result<()>) {
        Ok(())
    }

    fn pick(rows: &TableRows) -> (r: Option<&MDTable<Self>>) {
        match rows {
            TableRows::AssemblyRef(table) => Some(table),
            _ => None,
        }
    }

    fn pick_mut(rows: &mut TableRows) -> (r: Option<&mut MDTable<Self>>) {
        match rows {
            TableRows::AssemblyRef(table) => Some(table),
            _ => None,
        }
    }
}

/// Reserved.
#[derive(Debug, Clone)]
pub struct AssemblyRefProcessor {
    pub processor: u32,
    pub assembly_ref: SimpleCodedIndex,
}

impl MDTableRowTrait for AssemblyRefProcessor {
    open spec fn spec_columns() -> Seq<Column> {
        seq![Column::Fixed(4), Column::Index("AssemblyRef")]
    }

    open spec fn is_blank(&self) -> bool {
        &&& self.processor == 0
        &&& self.assembly_ref.row_index == 0
        &&& self.assembly_ref.table@.len() == 0
    }

    open spec fn holds(&self, values: Seq<ValueView>) -> bool {
        &&& values.len() == 2
        &&& values[0] matches ValueView::Number(n0)
        &&& self.processor == n0 as u32
        &&& values[1] == ValueView::Row(self.assembly_ref.table, self.assembly_ref.row_index)
    }

    open spec fn completes(&self, before: &Self, next_row: Option<&Self>, layout: &TableLayout) -> bool {
        *self == *before
    }

    open spec fn spec_pick(rows: &TableRows) -> Option<&MDTable<Self>> {
        match rows {
            TableRows::AssemblyRefProcessor(table) => Some(table),
            _ => None,
        }
    }

    open spec fn spec_wrap(table: MDTable<Self>) -> TableRows {
        TableRows::AssemblyRefProcessor(table)
    }

    proof fn columns_are_wf() {
    }

    fn blank() -> (r: Self) {
        AssemblyRefProcessor {
            processor: 0,
            assembly_ref: SimpleCodedIndex::default(),
        }
    }

    fn columns() -> (r: Vec<Column>) {
        let mut columns: Vec<Column> = Vec::new();
        columns.push(Column::Fixed(4));
        columns.push(Column::Index("AssemblyRef"));
        assert(columns@ =~= Self::spec_columns());
        columns
    }

    fn size(
        &self,
        str_offset_size: usize,
        guids_offset_size: usize,
        blobs_offset_size: usize,
        tables_row_counts: &Vec<usize>,
    ) -> (r: usize) {
        let columns = Self::columns();
        row_size(&columns, str_offset_size, guids_offset_size, blobs_offset_size, tables_row_counts)
    }

    fn parse(&mut self, data: &Vec<u8>, layout: &TableLayout, heaps: &Heaps) -> (r: Result<()>) {
        let columns = Self::columns();
        let mut values = decode_row(&columns, data.as_slice(), layout, heaps)?;
        let ghost all = value_views(values@);
        let v1 = values.pop().unwrap();
        let v0 = values.pop().unwrap();
        proof {
            assert(all[0] == v0@);
            assert(all[1] == v1@);
        }
        self.processor = #[verifier::truncate]
        (v0.into_number() as u32);
        let (table1, row1) = v1.into_row();
        self.assembly_ref = SimpleCodedIndex::to_row(table1, row1);
        Ok(())
    }

    fn parse2(&mut self, _layout: &TableLayout, _next_row: Option<&Self>) -> (r: Result<()>) {
        Ok(())
    }

    fn pick(rows: &TableRows) -> (r: Option<&MDTable<Self>>) {
        match rows {
            TableRows::AssemblyRefProcessor(table) => Some(table),
            _ => None,
        }
    }

    fn pick_mut(rows: &mut TableRows) -> (r: Option<&mut MDTable<Self>>) {
        match rows {
            TableRows::AssemblyRefProcessor(table) => Some(table),
            _ => None,
        }
    }
}

/// Reserved.
#[derive(Debug, Clone)]
pub struct AssemblyRefOS {
    pub os_platform_id: u32,
    pub os_major_version: u32,
    pub os_minor_version: u32,
    pub assembly_ref: SimpleCodedIndex,
}

impl MDTableRowTrait for AssemblyRefOS {
    open spec fn spec_columns() -> Seq<Column> {
        seq![Column::Fixed(4), Column::Fixed(4), Column::Fixed(4), Column::Index("AssemblyRef")]
    }

    open spec fn is_blank(&self) -> bool {
        &&& self.os_platform_id == 0
        &&& self.os_major_version == 0
        &&& self.os_minor_version == 0
        &&& self.assembly_ref.row_index == 0
        &&& self.assembly_ref.table@.len() == 0
    }

    open spec fn holds(&self, values: Seq<ValueView>) -> bool {
        &&& values.len() == 4
        &&& values[0] matches ValueView::Number(n0)
        &&& self.os_platform_id == n0 as u32
        &&& values[1] matches ValueView::Number(n1)
        &&& self.os_major_version == n1 as u32
        &&& values[2] matches ValueView::Number(n2)
        &&& self.os_minor_version == n2 as u32
        &&& values[3] == ValueView::Row(self.assembly_ref.table, self.assembly_ref.row_index)
    }

    open spec fn completes(&self, before: &Self, next_row: Option<&Self>, layout: &TableLayout) -> bool {
        *self == *before
    }

    open spec fn spec_pick(rows: &TableRows) -> Option<&MDTable<Self>> {
        match rows {
            TableRows::AssemblyRefOS(table) => Some(table),
            _ => None,
        }
    }

    open spec fn spec_wrap(table: MDTable<Self>) -> TableRows {
        TableRows::AssemblyRefOS(table)
    }

    proof fn columns_are_wf() {
    }

    fn blank() -> (r: Self) {
        AssemblyRefOS {
            os_platform_id: 0,
            os_major_version: 0,
            os_minor_version: 0,
            assembly_ref: SimpleCodedIndex::default(),
        }
    }

    fn columns() -> (r: Vec<Column>) {
        let mut columns: Vec<Column> = Vec::new();
        columns.push(Column::Fixed(4));
        columns.push(Column::Fixed(4));
        columns.push(Column::Fixed(4));
        columns.push(Column::Index("AssemblyRef"));
        assert(columns@ =~= Self::spec_columns());
        columns
    }

    fn size(
        &self,
        str_offset_size: usize,
        guids_offset_size: usize,
        blobs_offset_size: usize,
        tables_row_counts: &Vec<usize>,
    ) -> (r: usize) {
        let columns = Self::columns();
        row_size(&columns, str_offset_size, guids_offset_size, blobs_offset_size, tables_row_counts)
    }

    fn parse(&mut self, data: &Vec<u8>, layout: &TableLayout, heaps: &Heaps) -> (r: Result<()>) {
        let columns = Self::columns();
        let mut values = decode_row(&columns, data.as_slice(), layout, heaps)?;
        let ghost all = value_views(values@);
        let v3 = values.pop().unwrap();
        let v2 = values.pop().unwrap();
        let v1 = values.pop().unwrap();
        let v0 = values.pop().unwrap();
        proof {
            assert(all[0] == v0@);
            assert(all[1] == v1@);
            assert(all[2] == v2@);
            assert(all[3] == v3@);
        }
        self.os_platform_id = #[verifier::truncate]
        (v0.into_number() as u32);
        self.os_major_version = #[verifier::truncate]
        (v1.into_number() as u32);
        self.os_minor_version = #[verifier::truncate]
        (v2.into_number() as u32);
        let (table3, row3) = v3.into_row();
        self.assembly_ref = SimpleCodedIndex::to_row(table3, row3);
        Ok(())
    }

    fn parse2(&mut self, _layout: &TableLayout, _next_row: Option<&Self>) -> (r: Result<()>) {
        Ok(())
    }

    fn pick(rows: &TableRows) -> (r: Option<&MDTable<Self>>) {
        match rows {
            TableRows::AssemblyRefOS(table) => Some(table),
            _ => None,
        }
    }

    fn pick_mut(rows: &mut TableRows) -> (r: Option<&mut MDTable<Self>>) {
        match rows {
            TableRows::AssemblyRefOS(table) => Some(table),
            _ => None,
        }
    }
}

/// A file of the assembly.
#[derive(Debug, Clone)]
pub struct File {
    pub flags: Vec<enums::ClrFileFlags>,
    pub name: String,
    pub hash_value: Vec<u8>,
}

impl MDTableRowTrait for File {
    open spec fn spec_columns() -> Seq<Column> {
        seq![Column::Fixed(4), Column::Strings, Column::Blobs]
    }

    open spec fn is_blank(&self) -> bool {
        &&& self.flags@.len() == 0
        &&& self.name@.len() == 0
        &&& self.hash_value@.len() == 0
    }

    open spec fn holds(&self, values: Seq<ValueView>) -> bool {
        &&& values.len() == 3
        &&& values[0] matches ValueView::Number(n0)
        &&& self.flags@ == enums::ClrFileFlags::spec_new(n0)
        &&& values[1] == ValueView::Text(self.name@)
        &&& values[2] == ValueView::Bytes(self.hash_value@)
    }

    open spec fn completes(&self, before: &Self, next_row: Option<&Self>, layout: &TableLayout) -> bool {
        *self == *before
    }

    open spec fn spec_pick(rows: &TableRows) -> Option<&MDTable<Self>> {
        match rows {
            TableRows::File(table) => Some(table),
            _ => None,
        }
    }

    open spec fn spec_wrap(table: MDTable<Self>) -> TableRows {
        TableRows::File(table)
    }

    proof fn columns_are_wf() {
    }

    fn blank() -> (r: Self) {
        File {
            flags: Vec::new(),
            name: String::new(),
            hash_value: Vec::new(),
        }
    }

    fn columns() -> (r: Vec<Column>) {
        let mut columns: Vec<Column> = Vec::new();
        columns.push(Column::Fixed(4));
        columns.push(Column::Strings);
        columns.push(Column::Blobs);
        assert(columns@ =~= Self::spec_columns());
        columns
    }

    fn size(
        &self,
        str_offset_size: usize,
        guids_offset_size: usize,
        blobs_offset_size: usize,
        tables_row_counts: &Vec<usize>,
    ) -> (r: usize) {
        let columns = Self::columns();
        row_size(&columns, str_offset_size, guids_offset_size, blobs_offset_size, tables_row_counts)
    }

    fn parse(&mut self, data: &Vec<u8>, layout: &TableLayout, heaps: &Heaps) -> (r: Result<()>) {
        let columns = Self::columns();
        let mut values = decode_row(&columns, data.as_slice(), layout, heaps)?;
        let ghost all = value_views(values@);
        let v2 = values.pop().unwrap();
        let v1 = values.pop().unwrap();
        let v0 = values.pop().unwrap();
        proof {
            assert(all[0] == v0@);
            assert(all[1] == v1@);
            assert(all[2] == v2@);
        }
        self.flags = enums::ClrFileFlags::new(v0.into_number());
        self.name = v1.into_text();
        self.hash_value = v2.into_bytes();
        Ok(())
    }

    fn parse2(&mut self, _layout: &TableLayout, _next_row: Option<&Self>) -> (r: Result<()>) {
        Ok(())
    }

    fn pick(rows: &TableRows) -> (r: Option<&MDTable<Self>>) {
        match rows {
            TableRows::File(table) => Some(table),
            _ => None,
        }
    }

    fn pick_mut(rows: &mut TableRows) -> (r: Option<&mut MDTable<Self>>) {
        match rows {
            TableRows::File(table) => Some(table),
            _ => None,
        }
    }
}

/// A type that the assembly exports from another module.
#[derive(Debug, Clone)]
pub struct ExportedType {
    pub flags: enums::ClrTypeAttr,
    pub type_def_id: u32,
    /// The name of the type.
    pub name: String,
    /// The namespace of the type.
    pub namespace: String,
    pub implementation: codedindex::Implementation,
}

impl MDTableRowTrait for ExportedType {
    open spec fn spec_columns() -> Seq<Column> {
        seq![
            Column::Fixed(4),
            Column::Fixed(4),
            Column::Strings,
            Column::Strings,
            Column::Coded(CodedKind::Implementation),
        ]
    }

    open spec fn is_blank(&self) -> bool {
        &&& self.flags.decodes(0)
        &&& self.type_def_id == 0
        &&& self.name@.len() == 0
        &&& self.namespace@.len() == 0
        &&& self.implementation.row_index == 0
        &&& self.implementation.table@.len() == 0
        &&& self.implementation.tag_bits == CodedKind::Implementation.spec_tag_bits()
        &&& self.implementation.table_names@ == CodedKind::Implementation.spec_names()
    }

    open spec fn holds(&self, values: Seq<ValueView>) -> bool {
        &&& values.len() == 5
        &&& values[0] matches ValueView::Number(n0)
        &&& self.flags.decodes(n0)
        &&& values[1] matches ValueView::Number(n1)
        &&& self.type_def_id == n1 as u32
        &&& values[2] == ValueView::Text(self.name@)
        &&& values[3] == ValueView::Text(self.namespace@)
        &&& values[4] == ValueView::Row(self.implementation.table, self.implementation.row_index)
    }

    open spec fn completes(&self, before: &Self, next_row: Option<&Self>, layout: &TableLayout) -> bool {
        *self == *before
    }

    open spec fn spec_pick(rows: &TableRows) -> Option<&MDTable<Self>> {
        match rows {
            TableRows::ExportedType(table) => Some(table),
            _ => None,
        }
    }

    open spec fn spec_wrap(table: MDTable<Self>) -> TableRows {
        TableRows::ExportedType(table)
    }

    proof fn columns_are_wf() {
    }

    fn blank() -> (r: Self) {
        ExportedType {
            flags: enums::ClrTypeAttr::default(),
            type_def_id: 0,
            name: String::new(),
            namespace: String::new(),
            implementation: codedindex::Implementation::default(),
        }
    }

    fn columns() -> (r: Vec<Column>) {
        let mut columns: Vec<Column> = Vec::new();
        columns.push(Column::Fixed(4));
        columns.push(Column::Fixed(4));
        columns.push(Column::Strings);
        columns.push(Column::Strings);
        columns.push(Column::Coded(CodedKind::Implementation));
        assert(columns@ =~= Self::spec_columns());
        columns
    }

    fn size(
        &self,
        str_offset_size: usize,
        guids_offset_size: usize,
        blobs_offset_size: usize,
        tables_row_counts: &Vec<usize>,
    ) -> (r: usize) {
        let columns = Self::columns();
        row_size(&columns, str_offset_size, guids_offset_size, blobs_offset_size, tables_row_counts)
    }

    fn parse(&mut self, data: &Vec<u8>, layout: &TableLayout, heaps: &Heaps) -> (r: Result<()>) {
        let columns = Self::columns();
        let mut values = decode_row(&columns, data.as_slice(), layout, heaps)?;
        let ghost all = value_views(values@);
        let v4 = values.pop().unwrap();
        let v3 = values.pop().unwrap();
        let v2 = values.pop().unwrap();
        let v1 = values.pop().unwrap();
        let v0 = values.pop().unwrap();
        proof {
            assert(all[0] == v0@);
            assert(all[1] == v1@);
            assert(all[2] == v2@);
            assert(all[3] == v3@);
            assert(all[4] == v4@);
        }
        self.flags = enums::ClrTypeAttr::from_value(v0.into_number());
        self.type_def_id = #[verifier::truncate]
        (v1.into_number() as u32);
        self.name = v2.into_text();
        self.namespace = v3.into_text();
        let (table4, row4) = v4.into_row();
        self.implementation.set_table(table4);
        self.implementation.set_row_index(row4);
        Ok(())
    }

    fn parse2(&mut self, _layout: &TableLayout, _next_row: Option<&Self>) -> (r: Result<()>) {
        Ok(())
    }

    fn pick(rows: &TableRows) -> (r: Option<&MDTable<Self>>) {
        match rows {
            TableRows::ExportedType(table) => Some(table),
            _ => None,
        }
    }

    fn pick_mut(rows: &mut TableRows) -> (r: Option<&mut MDTable<Self>>) {
        match rows {
            TableRows::ExportedType(table) => Some(table),
            _ => None,
        }
    }
}

/// A resource of the assembly.
#[derive(Debug, Clone)]
pub struct ManifestResource {
    pub offset: u32,
    pub flags: Vec<enums::ClrManifestResourceFlags>,
    pub name: String,
    pub implementation: codedindex::Implementation,
}

impl MDTableRowTrait for ManifestResource {
    open spec fn spec_columns() -> Seq<Column> {
        seq![
            Column::Fixed(4),
            Column::Fixed(4),
            Column::Strings,
            Column::Coded(CodedKind::Implementation),
        ]
    }

    open spec fn is_blank(&self) -> bool {
        &&& self.offset == 0
        &&& self.flags@.len() == 0
        &&& self.name@.len() == 0
        &&& self.implementation.row_index == 0
        &&& self.implementation.table@.len() == 0
        &&& self.implementation.tag_bits == CodedKind::Implementation.spec_tag_bits()
        &&& self.implementation.table_names@ == CodedKind::Implementation.spec_names()
    }

    open spec fn holds(&self, values: Seq<ValueView>) -> bool {
        &&& values.len() == 4
        &&& values[0] matches ValueView::Number(n0)
        &&& self.offset == n0 as u32
        &&& values[1] matches ValueView::Number(n1)
        &&& self.flags@ == enums::ClrManifestResourceFlags::spec_new(n1)
        &&& values[2] == ValueView::Text(self.name@)
        &&& values[3] == ValueView::Row(self.implementation.table, self.implementation.row_index)
    }

    open spec fn completes(&self, before: &Self, next_row: Option<&Self>, layout: &TableLayout) -> bool {
        *self == *before
    }

    open spec fn spec_pick(rows: &TableRows) -> Option<&MDTable<Self>> {
        match rows {
            TableRows::ManifestResource(table) => Some(table),
            _ => None,
        }
    }

    open spec fn spec_wrap(table: MDTable<Self>) -> TableRows {
        TableRows::ManifestResource(table)
    }

    proof fn columns_are_wf() {
    }

    fn blank() -> (r: Self) {
        ManifestResource {
            offset: 0,
            flags: Vec::new(),
            name: String::new(),
            implementation: codedindex::Implementation::default(),
        }
    }

    fn columns() -> (r: Vec<Column>) {
        let mut columns: Vec<Column> = Vec::new();
        columns.push(Column::Fixed(4));
        columns.push(Column::Fixed(4));
        columns.push(Column::Strings);
        columns.push(Column::Coded(CodedKind::Implementation));
        assert(columns@ =~= Self::spec_columns());
        columns
    }

    fn size(
        &self,
        str_offset_size: usize,
        guids_offset_size: usize,
        blobs_offset_size: usize,
        tables_row_counts: &Vec<usize>,
    ) -> (r: usize) {
        let columns = Self::columns();
        row_size(&columns, str_offset_size, guids_offset_size, blobs_offset_size, tables_row_counts)
    }

    fn parse(&mut self, data: &Vec<u8>, layout: &TableLayout, heaps: &Heaps) -> (r: Result<()>) {
        let columns = Self::columns();
        let mut values = decode_row(&columns, data.as_slice(), layout, heaps)?;
        let ghost all = value_views(values@);
        let v3 = values.pop().unwrap();
        let v2 = values.pop().unwrap();
        let v1 = values.pop().unwrap();
        let v0 = values.pop().unwrap();
        proof {
            assert(all[0] == v0@);
            assert(all[1] == v1@);
            assert(all[2] == v2@);
            assert(all[3] == v3@);
        }
        self.offset = #[verifier::truncate]
        (v0.into_number() as u32);
        self.flags = enums::ClrManifestResourceFlags::new(v1.into_number());
        self.name = v2.into_text();
        let (table3, row3) = v3.into_row();
        self.implementation.set_table(table3);
        self.implementation.set_row_index(row3);
        Ok(())
    }

    fn parse2(&mut self, _layout: &TableLayout, _next_row: Option<&Self>) -> (r: Result<()>) {
        Ok(())
    }

    fn pick(rows: &TableRows) -> (r: Option<&MDTable<Self>>) {
        match rows {
            TableRows::ManifestResource(table) => Some(table),
            _ => None,
        }
    }

    fn pick_mut(rows: &mut TableRows) -> (r: Option<&mut MDTable<Self>>) {
        match rows {
            TableRows::ManifestResource(table) => Some(table),
            _ => None,
        }
    }
}

/// A type that is nested in another.
#[derive(Debug, Clone)]
pub struct NestedClass {
    pub nested_class: SimpleCodedIndex,
    pub enclosing_class: SimpleCodedIndex,
}

impl MDTableRowTrait for NestedClass {
    open spec fn spec_columns() -> Seq<Column> {
        seq![Column::Index("TypeDef"), Column::Index("TypeDef")]
    }

    open spec fn is_blank(&self) -> bool {
        &&& self.nested_class.row_index == 0
        &&& self.nested_class.table@.len() == 0
        &&& self.enclosing_class.row_index == 0
        &&& self.enclosing_class.table@.len() == 0
    }

    open spec fn holds(&self, values: Seq<ValueView>) -> bool {
        &&& values.len() == 2
        &&& values[0] == ValueView::Row(self.nested_class.table, self.nested_class.row_index)
        &&& values[1] == ValueView::Row(self.enclosing_class.table, self.enclosing_class.row_index)
    }

    open spec fn completes(&self, before: &Self, next_row: Option<&Self>, layout: &TableLayout) -> bool {
        *self == *before
    }

    open spec fn spec_pick(rows: &TableRows) -> Option<&MDTable<Self>> {
        match rows {
            TableRows::NestedClass(table) => Some(table),
            _ => None,
        }
    }

    open spec fn spec_wrap(table: MDTable<Self>) -> TableRows {
        TableRows::NestedClass(table)
    }

    proof fn columns_are_wf() {
    }

    fn blank() -> (r: Self) {
        NestedClass {
            nested_class: SimpleCodedIndex::default(),
            enclosing_class: SimpleCodedIndex::default(),
        }
    }

    fn columns() -> (r: Vec<Column>) {
        let mut columns: Vec<Column> = Vec::new();
        columns.push(Column::Index("TypeDef"));
        columns.push(Column::Index("TypeDef"));
        assert(columns@ =~= Self::spec_columns());
        columns
    }

    fn size(
        &self,
        str_offset_size: usize,
        guids_offset_size: usize,
        blobs_offset_size: usize,
        tables_row_counts: &Vec<usize>,
    ) -> (r: usize) {
        let columns = Self::columns();
        row_size(&columns, str_offset_size, guids_offset_size, blobs_offset_size, tables_row_counts)
    }

    fn parse(&mut self, data: &Vec<u8>, layout: &TableLayout, heaps: &Heaps) -> (r: Result<()>) {
        let columns = Self::columns();
        let mut values = decode_row(&columns, data.as_slice(), layout, heaps)?;
        let ghost all = value_views(values@);
        let v1 = values.pop().unwrap();
        let v0 = values.pop().unwrap();
        proof {
            assert(all[0] == v0@);
            assert(all[1] == v1@);
        }
        let (table0, row0) = v0.into_row();
        self.nested_class = SimpleCodedIndex::to_row(table0, row0);
        let (table1, row1) = v1.into_row();
        self.enclosing_class = SimpleCodedIndex::to_row(table1, row1);
        Ok(())
    }

    fn parse2(&mut self, _layout: &TableLayout, _next_row: Option<&Self>) -> (r: Result<()>) {
        Ok(())
    }

    fn pick(rows: &TableRows) -> (r: Option<&MDTable<Self>>) {
        match rows {
            TableRows::NestedClass(table) => Some(table),
            _ => None,
        }
    }

    fn pick_mut(rows: &mut TableRows) -> (r: Option<&mut MDTable<Self>>) {
        match rows {
            TableRows::NestedClass(table) => Some(table),
            _ => None,
        }
    }
}

/// A generic parameter.
#[derive(Debug, Clone)]
pub struct GenericParam {
    pub number: u32,
    pub flags: Vec<enums::ClrGenericParamAttr>,
    pub owner: codedindex::TypeOrMethodDef,
    pub name: String,
}

impl MDTableRowTrait for GenericParam {
    open spec fn spec_columns() -> Seq<Column> {
        seq![
            Column::Fixed(2),
            Column::Fixed(2),
            Column::Coded(CodedKind::TypeOrMethodDef),
            Column::Strings,
        ]
    }

    open spec fn is_blank(&self) -> bool {
        &&& self.number == 0
        &&& self.flags@.len() == 0
        &&& self.owner.row_index == 0
        &&& self.owner.table@.len() == 0
        &&& self.owner.tag_bits == CodedKind::TypeOrMethodDef.spec_tag_bits()
        &&& self.owner.table_names@ == CodedKind::TypeOrMethodDef.spec_names()
        &&& self.name@.len() == 0
    }

    open spec fn holds(&self, values: Seq<ValueView>) -> bool {
        &&& values.len() == 4
        &&& values[0] matches ValueView::Number(n0)
        &&& self.number == n0 as u32
        &&& values[1] matches ValueView::Number(n1)
        &&& self.flags@ == enums::ClrGenericParamAttr::spec_new(n1)
        &&& values[2] == ValueView::Row(self.owner.table, self.owner.row_index)
        &&& values[3] == ValueView::Text(self.name@)
    }

    open spec fn completes(&self, before: &Self, next_row: Option<&Self>, layout: &TableLayout) -> bool {
        *self == *before
    }

    open spec fn spec_pick(rows: &TableRows) -> Option<&MDTable<Self>> {
        match rows {
            TableRows::GenericParam(table) => Some(table),
            _ => None,
        }
    }

    open spec fn spec_wrap(table: MDTable<Self>) -> TableRows {
        TableRows::GenericParam(table)
    }

    proof fn columns_are_wf() {
    }

    fn blank() -> (r: Self) {
        GenericParam {
            number: 0,
            flags: Vec::new(),
            owner: codedindex::TypeOrMethodDef::default(),
            name: String::new(),
        }
    }

    fn columns() -> (r: Vec<Column>) {
        let mut columns: Vec<Column> = Vec::new();
        columns.push(Column::Fixed(2));
        columns.push(Column::Fixed(2));
        columns.push(Column::Coded(CodedKind::TypeOrMethodDef));
        columns.push(Column::Strings);
        assert(columns@ =~= Self::spec_columns());
        columns
    }

    fn size(
        &self,
        str_offset_size: usize,
        guids_offset_size: usize,
        blobs_offset_size: usize,
        tables_row_counts: &Vec<usize>,
    ) -> (r: usize) {
        let columns = Self::columns();
        row_size(&columns, str_offset_size, guids_offset_size, blobs_offset_size, tables_row_counts)
    }

    fn parse(&mut self, data: &Vec<u8>, layout: &TableLayout, heaps: &Heaps) -> (r: Result<()>) {
        let columns = Self::columns();
        let mut values = decode_row(&columns, data.as_slice(), layout, heaps)?;
        let ghost all = value_views(values@);
        let v3 = values.pop().unwrap();
        let v2 = values.pop().unwrap();
        let v1 = values.pop().unwrap();
        let v0 = values.pop().unwrap();
        proof {
            assert(all[0] == v0@);
            assert(all[1] == v1@);
            assert(all[2] == v2@);
            assert(all[3] == v3@);
        }
        self.number = #[verifier::truncate]
        (v0.into_number() as u32);
        self.flags = enums::ClrGenericParamAttr::new(v1.into_number());
        let (table2, row2) = v2.into_row();
        self.owner.set_table(table2);
        self.owner.set_row_index(row2);
        self.name = v3.into_text();
        Ok(())
    }

    fn parse2(&mut self, _layout: &TableLayout, _next_row: Option<&Self>) -> (r: Result<()>) {
        Ok(())
    }

    fn pick(rows: &TableRows) -> (r: Option<&MDTable<Self>>) {
        match rows {
            TableRows::GenericParam(table) => Some(table),
            _ => None,
        }
    }

    fn pick_mut(rows: &mut TableRows) -> (r: Option<&mut MDTable<Self>>) {
        match rows {
            TableRows::GenericParam(table) => Some(table),
            _ => None,
        }
    }
}

/// An instantiation of a generic method.
#[derive(Debug, Clone)]
pub struct GenericMethod {
    /// The method that is instantiated.
    pub unknown1: codedindex::MethodDefOrRef,
    /// The signature of the instantiation.
    pub unknown2: Vec<u8>,
}

impl MDTableRowTrait for GenericMethod {
    open spec fn spec_columns() -> Seq<Column> {
        seq![Column::Coded(CodedKind::MethodDefOrRef), Column::Blobs]
    }

    open spec fn is_blank(&self) -> bool {
        &&& self.unknown1.row_index == 0
        &&& self.unknown1.table@.len() == 0
        &&& self.unknown1.tag_bits == CodedKind::MethodDefOrRef.spec_tag_bits()
        &&& self.unknown1.table_names@ == CodedKind::MethodDefOrRef.spec_names()
        &&& self.unknown2@.len() == 0
    }

    open spec fn holds(&self, values: Seq<ValueView>) -> bool {
        &&& values.len() == 2
        &&& values[0] == ValueView::Row(self.unknown1.table, self.unknown1.row_index)
        &&& values[1] == ValueView::Bytes(self.unknown2@)
    }

    open spec fn completes(&self, before: &Self, next_row: Option<&Self>, layout: &TableLayout) -> bool {
        *self == *before
    }

    open spec fn spec_pick(rows: &TableRows) -> Option<&MDTable<Self>> {
        match rows {
            TableRows::GenericMethod(table) => Some(table),
            _ => None,
        }
    }

    open spec fn spec_wrap(table: MDTable<Self>) -> TableRows {
        TableRows::GenericMethod(table)
    }

    proof fn columns_are_wf() {
    }

    fn blank() -> (r: Self) {
        GenericMethod {
            unknown1: codedindex::MethodDefOrRef::default(),
            unknown2: Vec::new(),
        }
    }

    fn columns() -> (r: Vec<Column>) {
        let mut columns: Vec<Column> = Vec::new();
        columns.push(Column::Coded(CodedKind::MethodDefOrRef));
        columns.push(Column::Blobs);
        assert(columns@ =~= Self::spec_columns());
        columns
    }

    fn size(
        &self,
        str_offset_size: usize,
        guids_offset_size: usize,
        blobs_offset_size: usize,
        tables_row_counts: &Vec<usize>,
    ) -> (r: usize) {
        let columns = Self::columns();
        row_size(&columns, str_offset_size, guids_offset_size, blobs_offset_size, tables_row_counts)
    }

    fn parse(&mut self, data: &Vec<u8>, layout: &TableLayout, heaps: &Heaps) -> (r: Result<()>) {
        let columns = Self::columns();
        let mut values = decode_row(&columns, data.as_slice(), layout, heaps)?;
        let ghost all = value_views(values@);
        let v1 = values.pop().unwrap();
        let v0 = values.pop().unwrap();
        proof {
            assert(all[0] == v0@);
            assert(all[1] == v1@);
        }
        let (table0, row0) = v0.into_row();
        self.unknown1.set_table(table0);
        self.unknown1.set_row_index(row0);
        self.unknown2 = v1.into_bytes();
        Ok(())
    }

    fn parse2(&mut self, _layout: &TableLayout, _next_row: Option<&Self>) -> (r: Result<()>) {
        Ok(())
    }

    fn pick(rows: &TableRows) -> (r: Option<&MDTable<Self>>) {
        match rows {
            TableRows::GenericMethod(table) => Some(table),
            _ => None,
        }
    }

    fn pick_mut(rows: &mut TableRows) -> (r: Option<&mut MDTable<Self>>) {
        match rows {
            TableRows::GenericMethod(table) => Some(table),
            _ => None,
        }
    }
}

/// A constraint of a generic parameter.
#[derive(Debug, Clone)]
pub struct GenericParamConstraint {
    pub owner: SimpleCodedIndex,
    pub constraint: codedindex::TypeDefOrRef,
}

impl MDTableRowTrait for GenericParamConstraint {
    open spec fn spec_columns() -> Seq<Column> {
        seq![Column::Index("GenericParam"), Column::Coded(CodedKind::TypeDefOrRef)]
    }

    open spec fn is_blank(&self) -> bool {
        &&& self.owner.row_index == 0
        &&& self.owner.table@.len() == 0
        &&& self.constraint.row_index == 0
        &&& self.constraint.table@.len() == 0
        &&& self.constraint.tag_bits == CodedKind::TypeDefOrRef.spec_tag_bits()
        &&& self.constraint.table_names@ == CodedKind::TypeDefOrRef.spec_names()
    }

    open spec fn holds(&self, values: Seq<ValueView>) -> bool {
        &&& values.len() == 2
        &&& values[0] == ValueView::Row(self.owner.table, self.owner.row_index)
        &&& values[1] == ValueView::Row(self.constraint.table, self.constraint.row_index)
    }

    open spec fn completes(&self, before: &Self, next_row: Option<&Self>, layout: &TableLayout) -> bool {
        *self == *before
    }

    open spec fn spec_pick(rows: &TableRows) -> Option<&MDTable<Self>> {
        match rows {
            TableRows::GenericParamConstraint(table) => Some(table),
            _ => None,
        }
    }

    open spec fn spec_wrap(table: MDTable<Self>) -> TableRows {
        TableRows::GenericParamConstraint(table)
    }

    proof fn columns_are_wf() {
    }

    fn blank() -> (r: Self) {
        GenericParamConstraint {
            owner: SimpleCodedIndex::default(),
            constraint: codedindex::TypeDefOrRef::default(),
        }
    }

    fn columns() -> (r: Vec<Column>) {
        let mut columns: Vec<Column> = Vec::new();
        columns.push(Column::Index("GenericParam"));
        columns.push(Column::Coded(CodedKind::TypeDefOrRef));
        assert(columns@ =~= Self::spec_columns());
        columns
    }

    fn size(
        &self,
        str_offset_size: usize,
        guids_offset_size: usize,
        blobs_offset_size: usize,
        tables_row_counts: &Vec<usize>,
    ) -> (r: usize) {
        let columns = Self::columns();
        row_size(&columns, str_offset_size, guids_offset_size, blobs_offset_size, tables_row_counts)
    }

    fn parse(&mut self, data: &Vec<u8>, layout: &TableLayout, heaps: &Heaps) -> (r: Result<()>) {
        let columns = Self::columns();
        let mut values = decode_row(&columns, data.as_slice(), layout, heaps)?;
        let ghost all = value_views(values@);
        let v1 = values.pop().unwrap();
        let v0 = values.pop().unwrap();
        proof {
            assert(all[0] == v0@);
            assert(all[1] == v1@);
        }
        let (table0, row0) = v0.into_row();
        self.owner = SimpleCodedIndex::to_row(table0, row0);
        let (table1, row1) = v1.into_row();
        self.constraint.set_table(table1);
        self.constraint.set_row_index(row1);
        Ok(())
    }

    fn parse2(&mut self, _layout: &TableLayout, _next_row: Option<&Self>) -> (r: Result<()>) {
        Ok(())
    }

    fn pick(rows: &TableRows) -> (r: Option<&MDTable<Self>>) {
        match rows {
            TableRows::GenericParamConstraint(table) => Some(table),
            _ => None,
        }
    }

    fn pick_mut(rows: &mut TableRows) -> (r: Option<&mut MDTable<Self>>) {
        match rows {
            TableRows::GenericParamConstraint(table) => Some(table),
            _ => None,
        }
    }
}

/// A reserved table. Rows of this kind have no reading.
#[derive(Debug, Clone)]
pub struct Unused {}

impl MDTableRowTrait for Unused {
    open spec fn spec_columns() -> Seq<Column> {
        seq![Column::Unsupported]
    }

    open spec fn is_blank(&self) -> bool {
        true
    }

    open spec fn holds(&self, values: Seq<ValueView>) -> bool {
        false
    }

    open spec fn completes(&self, before: &Self, next_row: Option<&Self>, layout: &TableLayout) -> bool {
        *self == *before
    }

    open spec fn spec_pick(rows: &TableRows) -> Option<&MDTable<Self>> {
        match rows {
            TableRows::Unused(table) => Some(table),
            _ => None,
        }
    }

    open spec fn spec_wrap(table: MDTable<Self>) -> TableRows {
        TableRows::Unused(table)
    }

    proof fn columns_are_wf() {
    }

    fn blank() -> (r: Self) {
        Unused {}
    }

    fn columns() -> (r: Vec<Column>) {
        let mut columns: Vec<Column> = Vec::new();
        columns.push(Column::Unsupported);
        assert(columns@ =~= Self::spec_columns());
        columns
    }

    fn size(
        &self,
        str_offset_size: usize,
        guids_offset_size: usize,
        blobs_offset_size: usize,
        tables_row_counts: &Vec<usize>,
    ) -> (r: usize) {
        let columns = Self::columns();
        row_size(&columns, str_offset_size, guids_offset_size, blobs_offset_size, tables_row_counts)
    }

    fn parse(&mut self, data: &Vec<u8>, layout: &TableLayout, heaps: &Heaps) -> (r: Result<()>) {
        let columns = Self::columns();
        let _ = decode_row(&columns, data.as_slice(), layout, heaps)?;
        Ok(())
    }

    fn parse2(&mut self, _layout: &TableLayout, _next_row: Option<&Self>) -> (r: Result<()>) {
        Ok(())
    }

    fn pick(rows: &TableRows) -> (r: Option<&MDTable<Self>>) {
        match rows {
            TableRows::Unused(table) => Some(table),
            _ => None,
        }
    }

    fn pick_mut(rows: &mut TableRows) -> (r: Option<&mut MDTable<Self>>) {
        match rows {
            TableRows::Unused(table) => Some(table),
            _ => None,
        }
    }
}

/// A reserved table. Rows of this kind have no reading.
#[derive(Debug, Clone)]
pub struct MaxTable {}

impl MDTableRowTrait for MaxTable {
    open spec fn spec_columns() -> Seq<Column> {
        seq![Column::Unsupported]
    }

    open spec fn is_blank(&self) -> bool {
        true
    }

    open spec fn holds(&self, values: Seq<ValueView>) -> bool {
        false
    }

    open spec fn completes(&self, before: &Self, next_row: Option<&Self>, layout: &TableLayout) -> bool {
        *self == *before
    }

    open spec fn spec_pick(rows: &TableRows) -> Option<&MDTable<Self>> {
        match rows {
            TableRows::MaxTable(table) => Some(table),
            _ => None,
        }
    }

    open spec fn spec_wrap(table: MDTable<Self>) -> TableRows {
        TableRows::MaxTable(table)
    }

    proof fn columns_are_wf() {
    }

    fn blank() -> (r: Self) {
        MaxTable {}
    }

    fn columns() -> (r: Vec<Column>) {
        let mut columns: Vec<Column> = Vec::new();
        columns.push(Column::Unsupported);
        assert(columns@ =~= Self::spec_columns());
        columns
    }

    fn size(
        &self,
        str_offset_size: usize,
        guids_offset_size: usize,
        blobs_offset_size: usize,
        tables_row_counts: &Vec<usize>,
    ) -> (r: usize) {
        let columns = Self::columns();
        row_size(&columns, str_offset_size, guids_offset_size, blobs_offset_size, tables_row_counts)
    }

    fn parse(&mut self, data: &Vec<u8>, layout: &TableLayout, heaps: &Heaps) -> (r: Result<()>) {
        let columns = Self::columns();
        let _ = decode_row(&columns, data.as_slice(), layout, heaps)?;
        Ok(())
    }

    fn parse2(&mut self, _layout: &TableLayout, _next_row: Option<&Self>) -> (r: Result<()>) {
        Ok(())
    }

    fn pick(rows: &TableRows) -> (r: Option<&MDTable<Self>>) {
        match rows {
            TableRows::MaxTable(table) => Some(table),
            _ => None,
        }
    }

    fn pick_mut(rows: &mut TableRows) -> (r: Option<&mut MDTable<Self>>) {
        match rows {
            TableRows::MaxTable(table) => Some(table),
            _ => None,
        }
    }
}

} // verus!
