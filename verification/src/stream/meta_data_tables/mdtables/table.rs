//! A table of any kind, and the making and reading of tables by number.
use vstd::prelude::*;
use super::names::spec_table_name;
use super::rows;
use super::{
    is_offset_size, reads, spec_first_failure, spec_total_bytes, Heaps, MDTable, MDTableRow,
    MDTableRowTrait, Sizes, TableLayout, MAX_COLUMNS, MAX_TABLES,
};
use crate::error::Error;
use crate::utils::spec_saturating_product;
use crate::Result;

verus! {

/// The rows of a table, by the kind of the table.
#[derive(Debug, Clone)]
pub enum TableRows {
    Module(MDTable<rows::Module>),
    TypeRef(MDTable<rows::TypeRef>),
    TypeDef(MDTable<rows::TypeDef>),
    FieldPtr(MDTable<rows::FieldPtr>),
    Field(MDTable<rows::Field>),
    MethodPtr(MDTable<rows::MethodPtr>),
    MethodDef(MDTable<rows::MethodDef>),
    ParamPtr(MDTable<rows::ParamPtr>),
    Param(MDTable<rows::Param>),
    InterfaceImpl(MDTable<rows::InterfaceImpl>),
    MemberRef(MDTable<rows::MemberRef>),
    Constant(MDTable<rows::Constant>),
    CustomAttribute(MDTable<rows::CustomAttribute>),
    FieldMarshal(MDTable<rows::FieldMarshal>),
    DeclSecurity(MDTable<rows::DeclSecurity>),
    ClassLayout(MDTable<rows::ClassLayout>),
    FieldLayout(MDTable<rows::FieldLayout>),
    StandAloneSig(MDTable<rows::StandAloneSig>),
    EventMap(MDTable<rows::EventMap>),
    EventPtr(MDTable<rows::EventPtr>),
    Event(MDTable<rows::Event>),
    PropertyMap(MDTable<rows::PropertyMap>),
    PropertyPtr(MDTable<rows::PropertyPtr>),
    Property(MDTable<rows::Property>),
    MethodSemantics(MDTable<rows::MethodSemantics>),
    MethodImpl(MDTable<rows::MethodImpl>),
    ModuleRef(MDTable<rows::ModuleRef>),
    TypeSpec(MDTable<rows::TypeSpec>),
    ImplMap(MDTable<rows::ImplMap>),
    FieldRva(MDTable<rows::FieldRva>),
    EncLog(MDTable<rows::EncLog>),
    EncMap(MDTable<rows::EncMap>),
    Assembly(MDTable<rows::Assembly>),
    AssemblyProcessor(MDTable<rows::AssemblyProcessor>),
    AssemblyOS(MDTable<rows::AssemblyOS>),
    AssemblyRef(MDTable<rows::AssemblyRef>),
    AssemblyRefProcessor(MDTable<rows::AssemblyRefProcessor>),
    AssemblyRefOS(MDTable<rows::AssemblyRefOS>),
    File(MDTable<rows::File>),
    ExportedType(MDTable<rows::ExportedType>),
    ManifestResource(MDTable<rows::ManifestResource>),
    NestedClass(MDTable<rows::NestedClass>),
    GenericParam(MDTable<rows::GenericParam>),
    GenericMethod(MDTable<rows::GenericMethod>),
    GenericParamConstraint(MDTable<rows::GenericParamConstraint>),
    Unused(MDTable<rows::Unused>),
    MaxTable(MDTable<rows::MaxTable>),
}

/// Whether the rows `rows` are the rows `before` with their lists of
/// owned rows filled in, each with the help of the row behind it.
pub open spec fn rows_completed<T: MDTableRowTrait>(
    rows: Seq<MDTableRow<T>>,
    before: Seq<MDTableRow<T>>,
    layout: &TableLayout,
) -> bool {
    &&& rows.len() == before.len()
    &&& forall|i: int|
        0 <= i < before.len() ==> {
            &&& (#[trigger] rows[i]).data == before[i].data
            &&& rows[i].sizes() == before[i].sizes()
            &&& rows[i].row.completes(
                &before[i].row,
                if i + 1 < before.len() {
                    Some(&before[i + 1].row)
                } else {
                    None
                },
                layout,
            )
        }
}

impl TableRows {
    /// The number of the table.
    pub open spec fn spec_kind(&self) -> usize {
        match self {
            TableRows::Module(_) => 0,
            TableRows::TypeRef(_) => 1,
            TableRows::TypeDef(_) => 2,
            TableRows::FieldPtr(_) => 3,
            TableRows::Field(_) => 4,
            TableRows::MethodPtr(_) => 5,
            TableRows::MethodDef(_) => 6,
            TableRows::ParamPtr(_) => 7,
            TableRows::Param(_) => 8,
            TableRows::InterfaceImpl(_) => 9,
            TableRows::MemberRef(_) => 10,
            TableRows::Constant(_) => 11,
            TableRows::CustomAttribute(_) => 12,
            TableRows::FieldMarshal(_) => 13,
            TableRows::DeclSecurity(_) => 14,
            TableRows::ClassLayout(_) => 15,
            TableRows::FieldLayout(_) => 16,
            TableRows::StandAloneSig(_) => 17,
            TableRows::EventMap(_) => 18,
            TableRows::EventPtr(_) => 19,
            TableRows::Event(_) => 20,
            TableRows::PropertyMap(_) => 21,
            TableRows::PropertyPtr(_) => 22,
            TableRows::Property(_) => 23,
            TableRows::MethodSemantics(_) => 24,
            TableRows::MethodImpl(_) => 25,
            TableRows::ModuleRef(_) => 26,
            TableRows::TypeSpec(_) => 27,
            TableRows::ImplMap(_) => 28,
            TableRows::FieldRva(_) => 29,
            TableRows::EncLog(_) => 30,
            TableRows::EncMap(_) => 31,
            TableRows::Assembly(_) => 32,
            TableRows::AssemblyProcessor(_) => 33,
            TableRows::AssemblyOS(_) => 34,
            TableRows::AssemblyRef(_) => 35,
            TableRows::AssemblyRefProcessor(_) => 36,
            TableRows::AssemblyRefOS(_) => 37,
            TableRows::File(_) => 38,
            TableRows::ExportedType(_) => 39,
            TableRows::ManifestResource(_) => 40,
            TableRows::NestedClass(_) => 41,
            TableRows::GenericParam(_) => 42,
            TableRows::GenericMethod(_) => 43,
            TableRows::GenericParamConstraint(_) => 44,
            TableRows::Unused(_) => 62,
            TableRows::MaxTable(_) => 63,
        }
    }

    /// The number of rows.
    pub open spec fn spec_row_count(&self) -> nat {
        match self {
            TableRows::Module(t) => t.table@.len(),
            TableRows::TypeRef(t) => t.table@.len(),
            TableRows::TypeDef(t) => t.table@.len(),
            TableRows::FieldPtr(t) => t.table@.len(),
            TableRows::Field(t) => t.table@.len(),
            TableRows::MethodPtr(t) => t.table@.len(),
            TableRows::MethodDef(t) => t.table@.len(),
            TableRows::ParamPtr(t) => t.table@.len(),
            TableRows::Param(t) => t.table@.len(),
            TableRows::InterfaceImpl(t) => t.table@.len(),
            TableRows::MemberRef(t) => t.table@.len(),
            TableRows::Constant(t) => t.table@.len(),
            TableRows::CustomAttribute(t) => t.table@.len(),
            TableRows::FieldMarshal(t) => t.table@.len(),
            TableRows::DeclSecurity(t) => t.table@.len(),
            TableRows::ClassLayout(t) => t.table@.len(),
            TableRows::FieldLayout(t) => t.table@.len(),
            TableRows::StandAloneSig(t) => t.table@.len(),
            TableRows::EventMap(t) => t.table@.len(),
            TableRows::EventPtr(t) => t.table@.len(),
            TableRows::Event(t) => t.table@.len(),
            TableRows::PropertyMap(t) => t.table@.len(),
            TableRows::PropertyPtr(t) => t.table@.len(),
            TableRows::Property(t) => t.table@.len(),
            TableRows::MethodSemantics(t) => t.table@.len(),
            TableRows::MethodImpl(t) => t.table@.len(),
            TableRows::ModuleRef(t) => t.table@.len(),
            TableRows::TypeSpec(t) => t.table@.len(),
            TableRows::ImplMap(t) => t.table@.len(),
            TableRows::FieldRva(t) => t.table@.len(),
            TableRows::EncLog(t) => t.table@.len(),
            TableRows::EncMap(t) => t.table@.len(),
            TableRows::Assembly(t) => t.table@.len(),
            TableRows::AssemblyProcessor(t) => t.table@.len(),
            TableRows::AssemblyOS(t) => t.table@.len(),
            TableRows::AssemblyRef(t) => t.table@.len(),
            TableRows::AssemblyRefProcessor(t) => t.table@.len(),
            TableRows::AssemblyRefOS(t) => t.table@.len(),
            TableRows::File(t) => t.table@.len(),
            TableRows::ExportedType(t) => t.table@.len(),
            TableRows::ManifestResource(t) => t.table@.len(),
            TableRows::NestedClass(t) => t.table@.len(),
            TableRows::GenericParam(t) => t.table@.len(),
            TableRows::GenericMethod(t) => t.table@.len(),
            TableRows::GenericParamConstraint(t) => t.table@.len(),
            TableRows::Unused(t) => t.table@.len(),
            TableRows::MaxTable(t) => t.table@.len(),
        }
    }

    /// Every row was made for sizes that lay out a row, and all for the
    /// same.
    pub open spec fn wf(&self) -> bool {
        match self {
            TableRows::Module(t) => t.wf(),
            TableRows::TypeRef(t) => t.wf(),
            TableRows::TypeDef(t) => t.wf(),
            TableRows::FieldPtr(t) => t.wf(),
            TableRows::Field(t) => t.wf(),
            TableRows::MethodPtr(t) => t.wf(),
            TableRows::MethodDef(t) => t.wf(),
            TableRows::ParamPtr(t) => t.wf(),
            TableRows::Param(t) => t.wf(),
            TableRows::InterfaceImpl(t) => t.wf(),
            TableRows::MemberRef(t) => t.wf(),
            TableRows::Constant(t) => t.wf(),
            TableRows::CustomAttribute(t) => t.wf(),
            TableRows::FieldMarshal(t) => t.wf(),
            TableRows::DeclSecurity(t) => t.wf(),
            TableRows::ClassLayout(t) => t.wf(),
            TableRows::FieldLayout(t) => t.wf(),
            TableRows::StandAloneSig(t) => t.wf(),
            TableRows::EventMap(t) => t.wf(),
            TableRows::EventPtr(t) => t.wf(),
            TableRows::Event(t) => t.wf(),
            TableRows::PropertyMap(t) => t.wf(),
            TableRows::PropertyPtr(t) => t.wf(),
            TableRows::Property(t) => t.wf(),
            TableRows::MethodSemantics(t) => t.wf(),
            TableRows::MethodImpl(t) => t.wf(),
            TableRows::ModuleRef(t) => t.wf(),
            TableRows::TypeSpec(t) => t.wf(),
            TableRows::ImplMap(t) => t.wf(),
            TableRows::FieldRva(t) => t.wf(),
            TableRows::EncLog(t) => t.wf(),
            TableRows::EncMap(t) => t.wf(),
            TableRows::Assembly(t) => t.wf(),
            TableRows::AssemblyProcessor(t) => t.wf(),
            TableRows::AssemblyOS(t) => t.wf(),
            TableRows::AssemblyRef(t) => t.wf(),
            TableRows::AssemblyRefProcessor(t) => t.wf(),
            TableRows::AssemblyRefOS(t) => t.wf(),
            TableRows::File(t) => t.wf(),
            TableRows::ExportedType(t) => t.wf(),
            TableRows::ManifestResource(t) => t.wf(),
            TableRows::NestedClass(t) => t.wf(),
            TableRows::GenericParam(t) => t.wf(),
            TableRows::GenericMethod(t) => t.wf(),
            TableRows::GenericParamConstraint(t) => t.wf(),
            TableRows::Unused(t) => t.wf(),
            TableRows::MaxTable(t) => t.wf(),
        }
    }

    /// The name of the table.
    pub open spec fn spec_name(&self) -> Seq<char> {
        match self {
            TableRows::Module(t) => t.name@,
            TableRows::TypeRef(t) => t.name@,
            TableRows::TypeDef(t) => t.name@,
            TableRows::FieldPtr(t) => t.name@,
            TableRows::Field(t) => t.name@,
            TableRows::MethodPtr(t) => t.name@,
            TableRows::MethodDef(t) => t.name@,
            TableRows::ParamPtr(t) => t.name@,
            TableRows::Param(t) => t.name@,
            TableRows::InterfaceImpl(t) => t.name@,
            TableRows::MemberRef(t) => t.name@,
            TableRows::Constant(t) => t.name@,
            TableRows::CustomAttribute(t) => t.name@,
            TableRows::FieldMarshal(t) => t.name@,
            TableRows::DeclSecurity(t) => t.name@,
            TableRows::ClassLayout(t) => t.name@,
            TableRows::FieldLayout(t) => t.name@,
            TableRows::StandAloneSig(t) => t.name@,
            TableRows::EventMap(t) => t.name@,
            TableRows::EventPtr(t) => t.name@,
            TableRows::Event(t) => t.name@,
            TableRows::PropertyMap(t) => t.name@,
            TableRows::PropertyPtr(t) => t.name@,
            TableRows::Property(t) => t.name@,
            TableRows::MethodSemantics(t) => t.name@,
            TableRows::MethodImpl(t) => t.name@,
            TableRows::ModuleRef(t) => t.name@,
            TableRows::TypeSpec(t) => t.name@,
            TableRows::ImplMap(t) => t.name@,
            TableRows::FieldRva(t) => t.name@,
            TableRows::EncLog(t) => t.name@,
            TableRows::EncMap(t) => t.name@,
            TableRows::Assembly(t) => t.name@,
            TableRows::AssemblyProcessor(t) => t.name@,
            TableRows::AssemblyOS(t) => t.name@,
            TableRows::AssemblyRef(t) => t.name@,
            TableRows::AssemblyRefProcessor(t) => t.name@,
            TableRows::AssemblyRefOS(t) => t.name@,
            TableRows::File(t) => t.name@,
            TableRows::ExportedType(t) => t.name@,
            TableRows::ManifestResource(t) => t.name@,
            TableRows::NestedClass(t) => t.name@,
            TableRows::GenericParam(t) => t.name@,
            TableRows::GenericMethod(t) => t.name@,
            TableRows::GenericParamConstraint(t) => t.name@,
            TableRows::Unused(t) => t.name@,
            TableRows::MaxTable(t) => t.name@,
        }
    }

    /// The size of a row; 0 for a table without rows.
    pub open spec fn spec_row_size(&self) -> int {
        match self {
            TableRows::Module(t) => t.spec_row_size(),
            TableRows::TypeRef(t) => t.spec_row_size(),
            TableRows::TypeDef(t) => t.spec_row_size(),
            TableRows::FieldPtr(t) => t.spec_row_size(),
            TableRows::Field(t) => t.spec_row_size(),
            TableRows::MethodPtr(t) => t.spec_row_size(),
            TableRows::MethodDef(t) => t.spec_row_size(),
            TableRows::ParamPtr(t) => t.spec_row_size(),
            TableRows::Param(t) => t.spec_row_size(),
            TableRows::InterfaceImpl(t) => t.spec_row_size(),
            TableRows::MemberRef(t) => t.spec_row_size(),
            TableRows::Constant(t) => t.spec_row_size(),
            TableRows::CustomAttribute(t) => t.spec_row_size(),
            TableRows::FieldMarshal(t) => t.spec_row_size(),
            TableRows::DeclSecurity(t) => t.spec_row_size(),
            TableRows::ClassLayout(t) => t.spec_row_size(),
            TableRows::FieldLayout(t) => t.spec_row_size(),
            TableRows::StandAloneSig(t) => t.spec_row_size(),
            TableRows::EventMap(t) => t.spec_row_size(),
            TableRows::EventPtr(t) => t.spec_row_size(),
            TableRows::Event(t) => t.spec_row_size(),
            TableRows::PropertyMap(t) => t.spec_row_size(),
            TableRows::PropertyPtr(t) => t.spec_row_size(),
            TableRows::Property(t) => t.spec_row_size(),
            TableRows::MethodSemantics(t) => t.spec_row_size(),
            TableRows::MethodImpl(t) => t.spec_row_size(),
            TableRows::ModuleRef(t) => t.spec_row_size(),
            TableRows::TypeSpec(t) => t.spec_row_size(),
            TableRows::ImplMap(t) => t.spec_row_size(),
            TableRows::FieldRva(t) => t.spec_row_size(),
            TableRows::EncLog(t) => t.spec_row_size(),
            TableRows::EncMap(t) => t.spec_row_size(),
            TableRows::Assembly(t) => t.spec_row_size(),
            TableRows::AssemblyProcessor(t) => t.spec_row_size(),
            TableRows::AssemblyOS(t) => t.spec_row_size(),
            TableRows::AssemblyRef(t) => t.spec_row_size(),
            TableRows::AssemblyRefProcessor(t) => t.spec_row_size(),
            TableRows::AssemblyRefOS(t) => t.spec_row_size(),
            TableRows::File(t) => t.spec_row_size(),
            TableRows::ExportedType(t) => t.spec_row_size(),
            TableRows::ManifestResource(t) => t.spec_row_size(),
            TableRows::NestedClass(t) => t.spec_row_size(),
            TableRows::GenericParam(t) => t.spec_row_size(),
            TableRows::GenericMethod(t) => t.spec_row_size(),
            TableRows::GenericParamConstraint(t) => t.spec_row_size(),
            TableRows::Unused(t) => t.spec_row_size(),
            TableRows::MaxTable(t) => t.spec_row_size(),
        }
    }

    /// The sizes that the rows were made for, where the table has rows.
    pub open spec fn spec_sizes(&self) -> Option<Sizes> {
        match self {
            TableRows::Module(t) => t.spec_sizes(),
            TableRows::TypeRef(t) => t.spec_sizes(),
            TableRows::TypeDef(t) => t.spec_sizes(),
            TableRows::FieldPtr(t) => t.spec_sizes(),
            TableRows::Field(t) => t.spec_sizes(),
            TableRows::MethodPtr(t) => t.spec_sizes(),
            TableRows::MethodDef(t) => t.spec_sizes(),
            TableRows::ParamPtr(t) => t.spec_sizes(),
            TableRows::Param(t) => t.spec_sizes(),
            TableRows::InterfaceImpl(t) => t.spec_sizes(),
            TableRows::MemberRef(t) => t.spec_sizes(),
            TableRows::Constant(t) => t.spec_sizes(),
            TableRows::CustomAttribute(t) => t.spec_sizes(),
            TableRows::FieldMarshal(t) => t.spec_sizes(),
            TableRows::DeclSecurity(t) => t.spec_sizes(),
            TableRows::ClassLayout(t) => t.spec_sizes(),
            TableRows::FieldLayout(t) => t.spec_sizes(),
            TableRows::StandAloneSig(t) => t.spec_sizes(),
            TableRows::EventMap(t) => t.spec_sizes(),
            TableRows::EventPtr(t) => t.spec_sizes(),
            TableRows::Event(t) => t.spec_sizes(),
            TableRows::PropertyMap(t) => t.spec_sizes(),
            TableRows::PropertyPtr(t) => t.spec_sizes(),
            TableRows::Property(t) => t.spec_sizes(),
            TableRows::MethodSemantics(t) => t.spec_sizes(),
            TableRows::MethodImpl(t) => t.spec_sizes(),
            TableRows::ModuleRef(t) => t.spec_sizes(),
            TableRows::TypeSpec(t) => t.spec_sizes(),
            TableRows::ImplMap(t) => t.spec_sizes(),
            TableRows::FieldRva(t) => t.spec_sizes(),
            TableRows::EncLog(t) => t.spec_sizes(),
            TableRows::EncMap(t) => t.spec_sizes(),
            TableRows::Assembly(t) => t.spec_sizes(),
            TableRows::AssemblyProcessor(t) => t.spec_sizes(),
            TableRows::AssemblyOS(t) => t.spec_sizes(),
            TableRows::AssemblyRef(t) => t.spec_sizes(),
            TableRows::AssemblyRefProcessor(t) => t.spec_sizes(),
            TableRows::AssemblyRefOS(t) => t.spec_sizes(),
            TableRows::File(t) => t.spec_sizes(),
            TableRows::ExportedType(t) => t.spec_sizes(),
            TableRows::ManifestResource(t) => t.spec_sizes(),
            TableRows::NestedClass(t) => t.spec_sizes(),
            TableRows::GenericParam(t) => t.spec_sizes(),
            TableRows::GenericMethod(t) => t.spec_sizes(),
            TableRows::GenericParamConstraint(t) => t.spec_sizes(),
            TableRows::Unused(t) => t.spec_sizes(),
            TableRows::MaxTable(t) => t.spec_sizes(),
        }
    }

    /// The number of bytes that the rows hold.
    pub open spec fn spec_bytes(&self) -> int {
        match self {
            TableRows::Module(t) => spec_total_bytes(t.table@, t.table@.len() as int),
            TableRows::TypeRef(t) => spec_total_bytes(t.table@, t.table@.len() as int),
            TableRows::TypeDef(t) => spec_total_bytes(t.table@, t.table@.len() as int),
            TableRows::FieldPtr(t) => spec_total_bytes(t.table@, t.table@.len() as int),
            TableRows::Field(t) => spec_total_bytes(t.table@, t.table@.len() as int),
            TableRows::MethodPtr(t) => spec_total_bytes(t.table@, t.table@.len() as int),
            TableRows::MethodDef(t) => spec_total_bytes(t.table@, t.table@.len() as int),
            TableRows::ParamPtr(t) => spec_total_bytes(t.table@, t.table@.len() as int),
            TableRows::Param(t) => spec_total_bytes(t.table@, t.table@.len() as int),
            TableRows::InterfaceImpl(t) => spec_total_bytes(t.table@, t.table@.len() as int),
            TableRows::MemberRef(t) => spec_total_bytes(t.table@, t.table@.len() as int),
            TableRows::Constant(t) => spec_total_bytes(t.table@, t.table@.len() as int),
            TableRows::CustomAttribute(t) => spec_total_bytes(t.table@, t.table@.len() as int),
            TableRows::FieldMarshal(t) => spec_total_bytes(t.table@, t.table@.len() as int),
            TableRows::DeclSecurity(t) => spec_total_bytes(t.table@, t.table@.len() as int),
            TableRows::ClassLayout(t) => spec_total_bytes(t.table@, t.table@.len() as int),
            TableRows::FieldLayout(t) => spec_total_bytes(t.table@, t.table@.len() as int),
            TableRows::StandAloneSig(t) => spec_total_bytes(t.table@, t.table@.len() as int),
            TableRows::EventMap(t) => spec_total_bytes(t.table@, t.table@.len() as int),
            TableRows::EventPtr(t) => spec_total_bytes(t.table@, t.table@.len() as int),
            TableRows::Event(t) => spec_total_bytes(t.table@, t.table@.len() as int),
            TableRows::PropertyMap(t) => spec_total_bytes(t.table@, t.table@.len() as int),
            TableRows::PropertyPtr(t) => spec_total_bytes(t.table@, t.table@.len() as int),
            TableRows::Property(t) => spec_total_bytes(t.table@, t.table@.len() as int),
            TableRows::MethodSemantics(t) => spec_total_bytes(t.table@, t.table@.len() as int),
            TableRows::MethodImpl(t) => spec_total_bytes(t.table@, t.table@.len() as int),
            TableRows::ModuleRef(t) => spec_total_bytes(t.table@, t.table@.len() as int),
            TableRows::TypeSpec(t) => spec_total_bytes(t.table@, t.table@.len() as int),
            TableRows::ImplMap(t) => spec_total_bytes(t.table@, t.table@.len() as int),
            TableRows::FieldRva(t) => spec_total_bytes(t.table@, t.table@.len() as int),
            TableRows::EncLog(t) => spec_total_bytes(t.table@, t.table@.len() as int),
            TableRows::EncMap(t) => spec_total_bytes(t.table@, t.table@.len() as int),
            TableRows::Assembly(t) => spec_total_bytes(t.table@, t.table@.len() as int),
            TableRows::AssemblyProcessor(t) => spec_total_bytes(t.table@, t.table@.len() as int),
            TableRows::AssemblyOS(t) => spec_total_bytes(t.table@, t.table@.len() as int),
            TableRows::AssemblyRef(t) => spec_total_bytes(t.table@, t.table@.len() as int),
            TableRows::AssemblyRefProcessor(t) => spec_total_bytes(t.table@, t.table@.len() as int),
            TableRows::AssemblyRefOS(t) => spec_total_bytes(t.table@, t.table@.len() as int),
            TableRows::File(t) => spec_total_bytes(t.table@, t.table@.len() as int),
            TableRows::ExportedType(t) => spec_total_bytes(t.table@, t.table@.len() as int),
            TableRows::ManifestResource(t) => spec_total_bytes(t.table@, t.table@.len() as int),
            TableRows::NestedClass(t) => spec_total_bytes(t.table@, t.table@.len() as int),
            TableRows::GenericParam(t) => spec_total_bytes(t.table@, t.table@.len() as int),
            TableRows::GenericMethod(t) => spec_total_bytes(t.table@, t.table@.len() as int),
            TableRows::GenericParamConstraint(t) => spec_total_bytes(t.table@, t.table@.len() as int),
            TableRows::Unused(t) => spec_total_bytes(t.table@, t.table@.len() as int),
            TableRows::MaxTable(t) => spec_total_bytes(t.table@, t.table@.len() as int),
        }
    }

    /// The bytes of row `i`.
    pub open spec fn spec_row_data(&self, i: int) -> Seq<u8> {
        match self {
            TableRows::Module(t) => t.table@[i].data@,
            TableRows::TypeRef(t) => t.table@[i].data@,
            TableRows::TypeDef(t) => t.table@[i].data@,
            TableRows::FieldPtr(t) => t.table@[i].data@,
            TableRows::Field(t) => t.table@[i].data@,
            TableRows::MethodPtr(t) => t.table@[i].data@,
            TableRows::MethodDef(t) => t.table@[i].data@,
            TableRows::ParamPtr(t) => t.table@[i].data@,
            TableRows::Param(t) => t.table@[i].data@,
            TableRows::InterfaceImpl(t) => t.table@[i].data@,
            TableRows::MemberRef(t) => t.table@[i].data@,
            TableRows::Constant(t) => t.table@[i].data@,
            TableRows::CustomAttribute(t) => t.table@[i].data@,
            TableRows::FieldMarshal(t) => t.table@[i].data@,
            TableRows::DeclSecurity(t) => t.table@[i].data@,
            TableRows::ClassLayout(t) => t.table@[i].data@,
            TableRows::FieldLayout(t) => t.table@[i].data@,
            TableRows::StandAloneSig(t) => t.table@[i].data@,
            TableRows::EventMap(t) => t.table@[i].data@,
            TableRows::EventPtr(t) => t.table@[i].data@,
            TableRows::Event(t) => t.table@[i].data@,
            TableRows::PropertyMap(t) => t.table@[i].data@,
            TableRows::PropertyPtr(t) => t.table@[i].data@,
            TableRows::Property(t) => t.table@[i].data@,
            TableRows::MethodSemantics(t) => t.table@[i].data@,
            TableRows::MethodImpl(t) => t.table@[i].data@,
            TableRows::ModuleRef(t) => t.table@[i].data@,
            TableRows::TypeSpec(t) => t.table@[i].data@,
            TableRows::ImplMap(t) => t.table@[i].data@,
            TableRows::FieldRva(t) => t.table@[i].data@,
            TableRows::EncLog(t) => t.table@[i].data@,
            TableRows::EncMap(t) => t.table@[i].data@,
            TableRows::Assembly(t) => t.table@[i].data@,
            TableRows::AssemblyProcessor(t) => t.table@[i].data@,
            TableRows::AssemblyOS(t) => t.table@[i].data@,
            TableRows::AssemblyRef(t) => t.table@[i].data@,
            TableRows::AssemblyRefProcessor(t) => t.table@[i].data@,
            TableRows::AssemblyRefOS(t) => t.table@[i].data@,
            TableRows::File(t) => t.table@[i].data@,
            TableRows::ExportedType(t) => t.table@[i].data@,
            TableRows::ManifestResource(t) => t.table@[i].data@,
            TableRows::NestedClass(t) => t.table@[i].data@,
            TableRows::GenericParam(t) => t.table@[i].data@,
            TableRows::GenericMethod(t) => t.table@[i].data@,
            TableRows::GenericParamConstraint(t) => t.table@[i].data@,
            TableRows::Unused(t) => t.table@[i].data@,
            TableRows::MaxTable(t) => t.table@[i].data@,
        }
    }

    /// The first error that reading the rows meets, in the order of the
    /// rows.
    pub open spec fn spec_failure(&self, layout: &TableLayout, heaps: Heaps) -> Option<Error> {
        match self {
            TableRows::Module(t) => spec_first_failure(t.table@, layout, heaps, 0),
            TableRows::TypeRef(t) => spec_first_failure(t.table@, layout, heaps, 0),
            TableRows::TypeDef(t) => spec_first_failure(t.table@, layout, heaps, 0),
            TableRows::FieldPtr(t) => spec_first_failure(t.table@, layout, heaps, 0),
            TableRows::Field(t) => spec_first_failure(t.table@, layout, heaps, 0),
            TableRows::MethodPtr(t) => spec_first_failure(t.table@, layout, heaps, 0),
            TableRows::MethodDef(t) => spec_first_failure(t.table@, layout, heaps, 0),
            TableRows::ParamPtr(t) => spec_first_failure(t.table@, layout, heaps, 0),
            TableRows::Param(t) => spec_first_failure(t.table@, layout, heaps, 0),
            TableRows::InterfaceImpl(t) => spec_first_failure(t.table@, layout, heaps, 0),
            TableRows::MemberRef(t) => spec_first_failure(t.table@, layout, heaps, 0),
            TableRows::Constant(t) => spec_first_failure(t.table@, layout, heaps, 0),
            TableRows::CustomAttribute(t) => spec_first_failure(t.table@, layout, heaps, 0),
            TableRows::FieldMarshal(t) => spec_first_failure(t.table@, layout, heaps, 0),
            TableRows::DeclSecurity(t) => spec_first_failure(t.table@, layout, heaps, 0),
            TableRows::ClassLayout(t) => spec_first_failure(t.table@, layout, heaps, 0),
            TableRows::FieldLayout(t) => spec_first_failure(t.table@, layout, heaps, 0),
            TableRows::StandAloneSig(t) => spec_first_failure(t.table@, layout, heaps, 0),
            TableRows::EventMap(t) => spec_first_failure(t.table@, layout, heaps, 0),
            TableRows::EventPtr(t) => spec_first_failure(t.table@, layout, heaps, 0),
            TableRows::Event(t) => spec_first_failure(t.table@, layout, heaps, 0),
            TableRows::PropertyMap(t) => spec_first_failure(t.table@, layout, heaps, 0),
            TableRows::PropertyPtr(t) => spec_first_failure(t.table@, layout, heaps, 0),
            TableRows::Property(t) => spec_first_failure(t.table@, layout, heaps, 0),
            TableRows::MethodSemantics(t) => spec_first_failure(t.table@, layout, heaps, 0),
            TableRows::MethodImpl(t) => spec_first_failure(t.table@, layout, heaps, 0),
            TableRows::ModuleRef(t) => spec_first_failure(t.table@, layout, heaps, 0),
            TableRows::TypeSpec(t) => spec_first_failure(t.table@, layout, heaps, 0),
            TableRows::ImplMap(t) => spec_first_failure(t.table@, layout, heaps, 0),
            TableRows::FieldRva(t) => spec_first_failure(t.table@, layout, heaps, 0),
            TableRows::EncLog(t) => spec_first_failure(t.table@, layout, heaps, 0),
            TableRows::EncMap(t) => spec_first_failure(t.table@, layout, heaps, 0),
            TableRows::Assembly(t) => spec_first_failure(t.table@, layout, heaps, 0),
            TableRows::AssemblyProcessor(t) => spec_first_failure(t.table@, layout, heaps, 0),
            TableRows::AssemblyOS(t) => spec_first_failure(t.table@, layout, heaps, 0),
            TableRows::AssemblyRef(t) => spec_first_failure(t.table@, layout, heaps, 0),
            TableRows::AssemblyRefProcessor(t) => spec_first_failure(t.table@, layout, heaps, 0),
            TableRows::AssemblyRefOS(t) => spec_first_failure(t.table@, layout, heaps, 0),
            TableRows::File(t) => spec_first_failure(t.table@, layout, heaps, 0),
            TableRows::ExportedType(t) => spec_first_failure(t.table@, layout, heaps, 0),
            TableRows::ManifestResource(t) => spec_first_failure(t.table@, layout, heaps, 0),
            TableRows::NestedClass(t) => spec_first_failure(t.table@, layout, heaps, 0),
            TableRows::GenericParam(t) => spec_first_failure(t.table@, layout, heaps, 0),
            TableRows::GenericMethod(t) => spec_first_failure(t.table@, layout, heaps, 0),
            TableRows::GenericParamConstraint(t) => spec_first_failure(t.table@, layout, heaps, 0),
            TableRows::Unused(t) => spec_first_failure(t.table@, layout, heaps, 0),
            TableRows::MaxTable(t) => spec_first_failure(t.table@, layout, heaps, 0),
        }
    }

    /// The name of the kind of the table.
    pub open spec fn spec_static_name(&self) -> &'static str {
        match self {
            TableRows::Module(_) => "Module",
            TableRows::TypeRef(_) => "TypeRef",
            TableRows::TypeDef(_) => "TypeDef",
            TableRows::FieldPtr(_) => "FieldPtr",
            TableRows::Field(_) => "Field",
            TableRows::MethodPtr(_) => "MethodPtr",
            TableRows::MethodDef(_) => "MethodDef",
            TableRows::ParamPtr(_) => "ParamPtr",
            TableRows::Param(_) => "Param",
            TableRows::InterfaceImpl(_) => "InterfaceImpl",
            TableRows::MemberRef(_) => "MemberRef",
            TableRows::Constant(_) => "Constant",
            TableRows::CustomAttribute(_) => "CustomAttribute",
            TableRows::FieldMarshal(_) => "FieldMarshal",
            TableRows::DeclSecurity(_) => "DeclSecurity",
            TableRows::ClassLayout(_) => "ClassLayout",
            TableRows::FieldLayout(_) => "FieldLayout",
            TableRows::StandAloneSig(_) => "StandAloneSig",
            TableRows::EventMap(_) => "EventMap",
            TableRows::EventPtr(_) => "EventPtr",
            TableRows::Event(_) => "Event",
            TableRows::PropertyMap(_) => "PropertyMap",
            TableRows::PropertyPtr(_) => "PropertyPtr",
            TableRows::Property(_) => "Property",
            TableRows::MethodSemantics(_) => "MethodSemantics",
            TableRows::MethodImpl(_) => "MethodImpl",
            TableRows::ModuleRef(_) => "ModuleRef",
            TableRows::TypeSpec(_) => "TypeSpec",
            TableRows::ImplMap(_) => "ImplMap",
            TableRows::FieldRva(_) => "FieldRva",
            TableRows::EncLog(_) => "EncLog",
            TableRows::EncMap(_) => "EncMap",
            TableRows::Assembly(_) => "Assembly",
            TableRows::AssemblyProcessor(_) => "AssemblyProcessor",
            TableRows::AssemblyOS(_) => "AssemblyOS",
            TableRows::AssemblyRef(_) => "AssemblyRef",
            TableRows::AssemblyRefProcessor(_) => "AssemblyRefProcessor",
            TableRows::AssemblyRefOS(_) => "AssemblyRefOS",
            TableRows::File(_) => "File",
            TableRows::ExportedType(_) => "ExportedType",
            TableRows::ManifestResource(_) => "ManifestResource",
            TableRows::NestedClass(_) => "NestedClass",
            TableRows::GenericParam(_) => "GenericParam",
            TableRows::GenericMethod(_) => "GenericMethod",
            TableRows::GenericParamConstraint(_) => "GenericParamConstraint",
            TableRows::Unused(_) => "Unused",
            TableRows::MaxTable(_) => "MaxTable",
        }
    }

    /// Whether the rows hold no bytes, and nothing is read into them.
    pub open spec fn is_blank(&self) -> bool {
        match self {
            TableRows::Module(t) => forall|i: int| 0 <= i < t.table@.len() ==> (#[trigger] t.table@[i]).data@.len() == 0 && t.table@[i].row.is_blank(),
            TableRows::TypeRef(t) => forall|i: int| 0 <= i < t.table@.len() ==> (#[trigger] t.table@[i]).data@.len() == 0 && t.table@[i].row.is_blank(),
            TableRows::TypeDef(t) => forall|i: int| 0 <= i < t.table@.len() ==> (#[trigger] t.table@[i]).data@.len() == 0 && t.table@[i].row.is_blank(),
            TableRows::FieldPtr(t) => forall|i: int| 0 <= i < t.table@.len() ==> (#[trigger] t.table@[i]).data@.len() == 0 && t.table@[i].row.is_blank(),
            TableRows::Field(t) => forall|i: int| 0 <= i < t.table@.len() ==> (#[trigger] t.table@[i]).data@.len() == 0 && t.table@[i].row.is_blank(),
            TableRows::MethodPtr(t) => forall|i: int| 0 <= i < t.table@.len() ==> (#[trigger] t.table@[i]).data@.len() == 0 && t.table@[i].row.is_blank(),
            TableRows::MethodDef(t) => forall|i: int| 0 <= i < t.table@.len() ==> (#[trigger] t.table@[i]).data@.len() == 0 && t.table@[i].row.is_blank(),
            TableRows::ParamPtr(t) => forall|i: int| 0 <= i < t.table@.len() ==> (#[trigger] t.table@[i]).data@.len() == 0 && t.table@[i].row.is_blank(),
            TableRows::Param(t) => forall|i: int| 0 <= i < t.table@.len() ==> (#[trigger] t.table@[i]).data@.len() == 0 && t.table@[i].row.is_blank(),
            TableRows::InterfaceImpl(t) => forall|i: int| 0 <= i < t.table@.len() ==> (#[trigger] t.table@[i]).data@.len() == 0 && t.table@[i].row.is_blank(),
            TableRows::MemberRef(t) => forall|i: int| 0 <= i < t.table@.len() ==> (#[trigger] t.table@[i]).data@.len() == 0 && t.table@[i].row.is_blank(),
            TableRows::Constant(t) => forall|i: int| 0 <= i < t.table@.len() ==> (#[trigger] t.table@[i]).data@.len() == 0 && t.table@[i].row.is_blank(),
            TableRows::CustomAttribute(t) => forall|i: int| 0 <= i < t.table@.len() ==> (#[trigger] t.table@[i]).data@.len() == 0 && t.table@[i].row.is_blank(),
            TableRows::FieldMarshal(t) => forall|i: int| 0 <= i < t.table@.len() ==> (#[trigger] t.table@[i]).data@.len() == 0 && t.table@[i].row.is_blank(),
            TableRows::DeclSecurity(t) => forall|i: int| 0 <= i < t.table@.len() ==> (#[trigger] t.table@[i]).data@.len() == 0 && t.table@[i].row.is_blank(),
            TableRows::ClassLayout(t) => forall|i: int| 0 <= i < t.table@.len() ==> (#[trigger] t.table@[i]).data@.len() == 0 && t.table@[i].row.is_blank(),
            TableRows::FieldLayout(t) => forall|i: int| 0 <= i < t.table@.len() ==> (#[trigger] t.table@[i]).data@.len() == 0 && t.table@[i].row.is_blank(),
            TableRows::StandAloneSig(t) => forall|i: int| 0 <= i < t.table@.len() ==> (#[trigger] t.table@[i]).data@.len() == 0 && t.table@[i].row.is_blank(),
            TableRows::EventMap(t) => forall|i: int| 0 <= i < t.table@.len() ==> (#[trigger] t.table@[i]).data@.len() == 0 && t.table@[i].row.is_blank(),
            TableRows::EventPtr(t) => forall|i: int| 0 <= i < t.table@.len() ==> (#[trigger] t.table@[i]).data@.len() == 0 && t.table@[i].row.is_blank(),
            TableRows::Event(t) => forall|i: int| 0 <= i < t.table@.len() ==> (#[trigger] t.table@[i]).data@.len() == 0 && t.table@[i].row.is_blank(),
            TableRows::PropertyMap(t) => forall|i: int| 0 <= i < t.table@.len() ==> (#[trigger] t.table@[i]).data@.len() == 0 && t.table@[i].row.is_blank(),
            TableRows::PropertyPtr(t) => forall|i: int| 0 <= i < t.table@.len() ==> (#[trigger] t.table@[i]).data@.len() == 0 && t.table@[i].row.is_blank(),
            TableRows::Property(t) => forall|i: int| 0 <= i < t.table@.len() ==> (#[trigger] t.table@[i]).data@.len() == 0 && t.table@[i].row.is_blank(),
            TableRows::MethodSemantics(t) => forall|i: int| 0 <= i < t.table@.len() ==> (#[trigger] t.table@[i]).data@.len() == 0 && t.table@[i].row.is_blank(),
            TableRows::MethodImpl(t) => forall|i: int| 0 <= i < t.table@.len() ==> (#[trigger] t.table@[i]).data@.len() == 0 && t.table@[i].row.is_blank(),
            TableRows::ModuleRef(t) => forall|i: int| 0 <= i < t.table@.len() ==> (#[trigger] t.table@[i]).data@.len() == 0 && t.table@[i].row.is_blank(),
            TableRows::TypeSpec(t) => forall|i: int| 0 <= i < t.table@.len() ==> (#[trigger] t.table@[i]).data@.len() == 0 && t.table@[i].row.is_blank(),
            TableRows::ImplMap(t) => forall|i: int| 0 <= i < t.table@.len() ==> (#[trigger] t.table@[i]).data@.len() == 0 && t.table@[i].row.is_blank(),
            TableRows::FieldRva(t) => forall|i: int| 0 <= i < t.table@.len() ==> (#[trigger] t.table@[i]).data@.len() == 0 && t.table@[i].row.is_blank(),
            TableRows::EncLog(t) => forall|i: int| 0 <= i < t.table@.len() ==> (#[trigger] t.table@[i]).data@.len() == 0 && t.table@[i].row.is_blank(),
            TableRows::EncMap(t) => forall|i: int| 0 <= i < t.table@.len() ==> (#[trigger] t.table@[i]).data@.len() == 0 && t.table@[i].row.is_blank(),
            TableRows::Assembly(t) => forall|i: int| 0 <= i < t.table@.len() ==> (#[trigger] t.table@[i]).data@.len() == 0 && t.table@[i].row.is_blank(),
            TableRows::AssemblyProcessor(t) => forall|i: int| 0 <= i < t.table@.len() ==> (#[trigger] t.table@[i]).data@.len() == 0 && t.table@[i].row.is_blank(),
            TableRows::AssemblyOS(t) => forall|i: int| 0 <= i < t.table@.len() ==> (#[trigger] t.table@[i]).data@.len() == 0 && t.table@[i].row.is_blank(),
            TableRows::AssemblyRef(t) => forall|i: int| 0 <= i < t.table@.len() ==> (#[trigger] t.table@[i]).data@.len() == 0 && t.table@[i].row.is_blank(),
            TableRows::AssemblyRefProcessor(t) => forall|i: int| 0 <= i < t.table@.len() ==> (#[trigger] t.table@[i]).data@.len() == 0 && t.table@[i].row.is_blank(),
            TableRows::AssemblyRefOS(t) => forall|i: int| 0 <= i < t.table@.len() ==> (#[trigger] t.table@[i]).data@.len() == 0 && t.table@[i].row.is_blank(),
            TableRows::File(t) => forall|i: int| 0 <= i < t.table@.len() ==> (#[trigger] t.table@[i]).data@.len() == 0 && t.table@[i].row.is_blank(),
            TableRows::ExportedType(t) => forall|i: int| 0 <= i < t.table@.len() ==> (#[trigger] t.table@[i]).data@.len() == 0 && t.table@[i].row.is_blank(),
            TableRows::ManifestResource(t) => forall|i: int| 0 <= i < t.table@.len() ==> (#[trigger] t.table@[i]).data@.len() == 0 && t.table@[i].row.is_blank(),
            TableRows::NestedClass(t) => forall|i: int| 0 <= i < t.table@.len() ==> (#[trigger] t.table@[i]).data@.len() == 0 && t.table@[i].row.is_blank(),
            TableRows::GenericParam(t) => forall|i: int| 0 <= i < t.table@.len() ==> (#[trigger] t.table@[i]).data@.len() == 0 && t.table@[i].row.is_blank(),
            TableRows::GenericMethod(t) => forall|i: int| 0 <= i < t.table@.len() ==> (#[trigger] t.table@[i]).data@.len() == 0 && t.table@[i].row.is_blank(),
            TableRows::GenericParamConstraint(t) => forall|i: int| 0 <= i < t.table@.len() ==> (#[trigger] t.table@[i]).data@.len() == 0 && t.table@[i].row.is_blank(),
            TableRows::Unused(t) => forall|i: int| 0 <= i < t.table@.len() ==> (#[trigger] t.table@[i]).data@.len() == 0 && t.table@[i].row.is_blank(),
            TableRows::MaxTable(t) => forall|i: int| 0 <= i < t.table@.len() ==> (#[trigger] t.table@[i]).data@.len() == 0 && t.table@[i].row.is_blank(),
        }
    }

    /// Whether the fields of every row are what its bytes stand for.
    pub open spec fn was_read(&self, layout: &TableLayout, heaps: Heaps) -> bool {
        match self {
            TableRows::Module(t) => forall|i: int| 0 <= i < t.table@.len() ==> #[trigger] reads(t.table@[i].row, t.table@[i].data@, layout, heaps),
            TableRows::TypeRef(t) => forall|i: int| 0 <= i < t.table@.len() ==> #[trigger] reads(t.table@[i].row, t.table@[i].data@, layout, heaps),
            TableRows::TypeDef(t) => forall|i: int| 0 <= i < t.table@.len() ==> #[trigger] reads(t.table@[i].row, t.table@[i].data@, layout, heaps),
            TableRows::FieldPtr(t) => forall|i: int| 0 <= i < t.table@.len() ==> #[trigger] reads(t.table@[i].row, t.table@[i].data@, layout, heaps),
            TableRows::Field(t) => forall|i: int| 0 <= i < t.table@.len() ==> #[trigger] reads(t.table@[i].row, t.table@[i].data@, layout, heaps),
            TableRows::MethodPtr(t) => forall|i: int| 0 <= i < t.table@.len() ==> #[trigger] reads(t.table@[i].row, t.table@[i].data@, layout, heaps),
            TableRows::MethodDef(t) => forall|i: int| 0 <= i < t.table@.len() ==> #[trigger] reads(t.table@[i].row, t.table@[i].data@, layout, heaps),
            TableRows::ParamPtr(t) => forall|i: int| 0 <= i < t.table@.len() ==> #[trigger] reads(t.table@[i].row, t.table@[i].data@, layout, heaps),
            TableRows::Param(t) => forall|i: int| 0 <= i < t.table@.len() ==> #[trigger] reads(t.table@[i].row, t.table@[i].data@, layout, heaps),
            TableRows::InterfaceImpl(t) => forall|i: int| 0 <= i < t.table@.len() ==> #[trigger] reads(t.table@[i].row, t.table@[i].data@, layout, heaps),
            TableRows::MemberRef(t) => forall|i: int| 0 <= i < t.table@.len() ==> #[trigger] reads(t.table@[i].row, t.table@[i].data@, layout, heaps),
            TableRows::Constant(t) => forall|i: int| 0 <= i < t.table@.len() ==> #[trigger] reads(t.table@[i].row, t.table@[i].data@, layout, heaps),
            TableRows::CustomAttribute(t) => forall|i: int| 0 <= i < t.table@.len() ==> #[trigger] reads(t.table@[i].row, t.table@[i].data@, layout, heaps),
            TableRows::FieldMarshal(t) => forall|i: int| 0 <= i < t.table@.len() ==> #[trigger] reads(t.table@[i].row, t.table@[i].data@, layout, heaps),
            TableRows::DeclSecurity(t) => forall|i: int| 0 <= i < t.table@.len() ==> #[trigger] reads(t.table@[i].row, t.table@[i].data@, layout, heaps),
            TableRows::ClassLayout(t) => forall|i: int| 0 <= i < t.table@.len() ==> #[trigger] reads(t.table@[i].row, t.table@[i].data@, layout, heaps),
            TableRows::FieldLayout(t) => forall|i: int| 0 <= i < t.table@.len() ==> #[trigger] reads(t.table@[i].row, t.table@[i].data@, layout, heaps),
            TableRows::StandAloneSig(t) => forall|i: int| 0 <= i < t.table@.len() ==> #[trigger] reads(t.table@[i].row, t.table@[i].data@, layout, heaps),
            TableRows::EventMap(t) => forall|i: int| 0 <= i < t.table@.len() ==> #[trigger] reads(t.table@[i].row, t.table@[i].data@, layout, heaps),
            TableRows::EventPtr(t) => forall|i: int| 0 <= i < t.table@.len() ==> #[trigger] reads(t.table@[i].row, t.table@[i].data@, layout, heaps),
            TableRows::Event(t) => forall|i: int| 0 <= i < t.table@.len() ==> #[trigger] reads(t.table@[i].row, t.table@[i].data@, layout, heaps),
            TableRows::PropertyMap(t) => forall|i: int| 0 <= i < t.table@.len() ==> #[trigger] reads(t.table@[i].row, t.table@[i].data@, layout, heaps),
            TableRows::PropertyPtr(t) => forall|i: int| 0 <= i < t.table@.len() ==> #[trigger] reads(t.table@[i].row, t.table@[i].data@, layout, heaps),
            TableRows::Property(t) => forall|i: int| 0 <= i < t.table@.len() ==> #[trigger] reads(t.table@[i].row, t.table@[i].data@, layout, heaps),
            TableRows::MethodSemantics(t) => forall|i: int| 0 <= i < t.table@.len() ==> #[trigger] reads(t.table@[i].row, t.table@[i].data@, layout, heaps),
            TableRows::MethodImpl(t) => forall|i: int| 0 <= i < t.table@.len() ==> #[trigger] reads(t.table@[i].row, t.table@[i].data@, layout, heaps),
            TableRows::ModuleRef(t) => forall|i: int| 0 <= i < t.table@.len() ==> #[trigger] reads(t.table@[i].row, t.table@[i].data@, layout, heaps),
            TableRows::TypeSpec(t) => forall|i: int| 0 <= i < t.table@.len() ==> #[trigger] reads(t.table@[i].row, t.table@[i].data@, layout, heaps),
            TableRows::ImplMap(t) => forall|i: int| 0 <= i < t.table@.len() ==> #[trigger] reads(t.table@[i].row, t.table@[i].data@, layout, heaps),
            TableRows::FieldRva(t) => forall|i: int| 0 <= i < t.table@.len() ==> #[trigger] reads(t.table@[i].row, t.table@[i].data@, layout, heaps),
            TableRows::EncLog(t) => forall|i: int| 0 <= i < t.table@.len() ==> #[trigger] reads(t.table@[i].row, t.table@[i].data@, layout, heaps),
            TableRows::EncMap(t) => forall|i: int| 0 <= i < t.table@.len() ==> #[trigger] reads(t.table@[i].row, t.table@[i].data@, layout, heaps),
            TableRows::Assembly(t) => forall|i: int| 0 <= i < t.table@.len() ==> #[trigger] reads(t.table@[i].row, t.table@[i].data@, layout, heaps),
            TableRows::AssemblyProcessor(t) => forall|i: int| 0 <= i < t.table@.len() ==> #[trigger] reads(t.table@[i].row, t.table@[i].data@, layout, heaps),
            TableRows::AssemblyOS(t) => forall|i: int| 0 <= i < t.table@.len() ==> #[trigger] reads(t.table@[i].row, t.table@[i].data@, layout, heaps),
            TableRows::AssemblyRef(t) => forall|i: int| 0 <= i < t.table@.len() ==> #[trigger] reads(t.table@[i].row, t.table@[i].data@, layout, heaps),
            TableRows::AssemblyRefProcessor(t) => forall|i: int| 0 <= i < t.table@.len() ==> #[trigger] reads(t.table@[i].row, t.table@[i].data@, layout, heaps),
            TableRows::AssemblyRefOS(t) => forall|i: int| 0 <= i < t.table@.len() ==> #[trigger] reads(t.table@[i].row, t.table@[i].data@, layout, heaps),
            TableRows::File(t) => forall|i: int| 0 <= i < t.table@.len() ==> #[trigger] reads(t.table@[i].row, t.table@[i].data@, layout, heaps),
            TableRows::ExportedType(t) => forall|i: int| 0 <= i < t.table@.len() ==> #[trigger] reads(t.table@[i].row, t.table@[i].data@, layout, heaps),
            TableRows::ManifestResource(t) => forall|i: int| 0 <= i < t.table@.len() ==> #[trigger] reads(t.table@[i].row, t.table@[i].data@, layout, heaps),
            TableRows::NestedClass(t) => forall|i: int| 0 <= i < t.table@.len() ==> #[trigger] reads(t.table@[i].row, t.table@[i].data@, layout, heaps),
            TableRows::GenericParam(t) => forall|i: int| 0 <= i < t.table@.len() ==> #[trigger] reads(t.table@[i].row, t.table@[i].data@, layout, heaps),
            TableRows::GenericMethod(t) => forall|i: int| 0 <= i < t.table@.len() ==> #[trigger] reads(t.table@[i].row, t.table@[i].data@, layout, heaps),
            TableRows::GenericParamConstraint(t) => forall|i: int| 0 <= i < t.table@.len() ==> #[trigger] reads(t.table@[i].row, t.table@[i].data@, layout, heaps),
            TableRows::Unused(t) => forall|i: int| 0 <= i < t.table@.len() ==> #[trigger] reads(t.table@[i].row, t.table@[i].data@, layout, heaps),
            TableRows::MaxTable(t) => forall|i: int| 0 <= i < t.table@.len() ==> #[trigger] reads(t.table@[i].row, t.table@[i].data@, layout, heaps),
        }
    }

    /// Whether the rows are those of `before`, with their lists of owned
    /// rows filled in.
    pub open spec fn was_completed(&self, before: &TableRows, layout: &TableLayout) -> bool {
        match (self, before) {
            (TableRows::Module(t), TableRows::Module(b)) => rows_completed(t.table@, b.table@, layout),
            (TableRows::TypeRef(t), TableRows::TypeRef(b)) => rows_completed(t.table@, b.table@, layout),
            (TableRows::TypeDef(t), TableRows::TypeDef(b)) => rows_completed(t.table@, b.table@, layout),
            (TableRows::FieldPtr(t), TableRows::FieldPtr(b)) => rows_completed(t.table@, b.table@, layout),
            (TableRows::Field(t), TableRows::Field(b)) => rows_completed(t.table@, b.table@, layout),
            (TableRows::MethodPtr(t), TableRows::MethodPtr(b)) => rows_completed(t.table@, b.table@, layout),
            (TableRows::MethodDef(t), TableRows::MethodDef(b)) => rows_completed(t.table@, b.table@, layout),
            (TableRows::ParamPtr(t), TableRows::ParamPtr(b)) => rows_completed(t.table@, b.table@, layout),
            (TableRows::Param(t), TableRows::Param(b)) => rows_completed(t.table@, b.table@, layout),
            (TableRows::InterfaceImpl(t), TableRows::InterfaceImpl(b)) => rows_completed(t.table@, b.table@, layout),
            (TableRows::MemberRef(t), TableRows::MemberRef(b)) => rows_completed(t.table@, b.table@, layout),
            (TableRows::Constant(t), TableRows::Constant(b)) => rows_completed(t.table@, b.table@, layout),
            (TableRows::CustomAttribute(t), TableRows::CustomAttribute(b)) => rows_completed(t.table@, b.table@, layout),
            (TableRows::FieldMarshal(t), TableRows::FieldMarshal(b)) => rows_completed(t.table@, b.table@, layout),
            (TableRows::DeclSecurity(t), TableRows::DeclSecurity(b)) => rows_completed(t.table@, b.table@, layout),
            (TableRows::ClassLayout(t), TableRows::ClassLayout(b)) => rows_completed(t.table@, b.table@, layout),
            (TableRows::FieldLayout(t), TableRows::FieldLayout(b)) => rows_completed(t.table@, b.table@, layout),
            (TableRows::StandAloneSig(t), TableRows::StandAloneSig(b)) => rows_completed(t.table@, b.table@, layout),
            (TableRows::EventMap(t), TableRows::EventMap(b)) => rows_completed(t.table@, b.table@, layout),
            (TableRows::EventPtr(t), TableRows::EventPtr(b)) => rows_completed(t.table@, b.table@, layout),
            (TableRows::Event(t), TableRows::Event(b)) => rows_completed(t.table@, b.table@, layout),
            (TableRows::PropertyMap(t), TableRows::PropertyMap(b)) => rows_completed(t.table@, b.table@, layout),
            (TableRows::PropertyPtr(t), TableRows::PropertyPtr(b)) => rows_completed(t.table@, b.table@, layout),
            (TableRows::Property(t), TableRows::Property(b)) => rows_completed(t.table@, b.table@, layout),
            (TableRows::MethodSemantics(t), TableRows::MethodSemantics(b)) => rows_completed(t.table@, b.table@, layout),
            (TableRows::MethodImpl(t), TableRows::MethodImpl(b)) => rows_completed(t.table@, b.table@, layout),
            (TableRows::ModuleRef(t), TableRows::ModuleRef(b)) => rows_completed(t.table@, b.table@, layout),
            (TableRows::TypeSpec(t), TableRows::TypeSpec(b)) => rows_completed(t.table@, b.table@, layout),
            (TableRows::ImplMap(t), TableRows::ImplMap(b)) => rows_completed(t.table@, b.table@, layout),
            (TableRows::FieldRva(t), TableRows::FieldRva(b)) => rows_completed(t.table@, b.table@, layout),
            (TableRows::EncLog(t), TableRows::EncLog(b)) => rows_completed(t.table@, b.table@, layout),
            (TableRows::EncMap(t), TableRows::EncMap(b)) => rows_completed(t.table@, b.table@, layout),
            (TableRows::Assembly(t), TableRows::Assembly(b)) => rows_completed(t.table@, b.table@, layout),
            (TableRows::AssemblyProcessor(t), TableRows::AssemblyProcessor(b)) => rows_completed(t.table@, b.table@, layout),
            (TableRows::AssemblyOS(t), TableRows::AssemblyOS(b)) => rows_completed(t.table@, b.table@, layout),
            (TableRows::AssemblyRef(t), TableRows::AssemblyRef(b)) => rows_completed(t.table@, b.table@, layout),
            (TableRows::AssemblyRefProcessor(t), TableRows::AssemblyRefProcessor(b)) => rows_completed(t.table@, b.table@, layout),
            (TableRows::AssemblyRefOS(t), TableRows::AssemblyRefOS(b)) => rows_completed(t.table@, b.table@, layout),
            (TableRows::File(t), TableRows::File(b)) => rows_completed(t.table@, b.table@, layout),
            (TableRows::ExportedType(t), TableRows::ExportedType(b)) => rows_completed(t.table@, b.table@, layout),
            (TableRows::ManifestResource(t), TableRows::ManifestResource(b)) => rows_completed(t.table@, b.table@, layout),
            (TableRows::NestedClass(t), TableRows::NestedClass(b)) => rows_completed(t.table@, b.table@, layout),
            (TableRows::GenericParam(t), TableRows::GenericParam(b)) => rows_completed(t.table@, b.table@, layout),
            (TableRows::GenericMethod(t), TableRows::GenericMethod(b)) => rows_completed(t.table@, b.table@, layout),
            (TableRows::GenericParamConstraint(t), TableRows::GenericParamConstraint(b)) => rows_completed(t.table@, b.table@, layout),
            (TableRows::Unused(t), TableRows::Unused(b)) => rows_completed(t.table@, b.table@, layout),
            (TableRows::MaxTable(t), TableRows::MaxTable(b)) => rows_completed(t.table@, b.table@, layout),
            _ => false,
        }
    }

    /// The number of the table.
    pub fn kind(&self) -> (r: usize)
        ensures
            r == self.spec_kind(),
            r < MAX_TABLES,
    {
        match self {
            TableRows::Module(_) => 0,
            TableRows::TypeRef(_) => 1,
            TableRows::TypeDef(_) => 2,
            TableRows::FieldPtr(_) => 3,
            TableRows::Field(_) => 4,
            TableRows::MethodPtr(_) => 5,
            TableRows::MethodDef(_) => 6,
            TableRows::ParamPtr(_) => 7,
            TableRows::Param(_) => 8,
            TableRows::InterfaceImpl(_) => 9,
            TableRows::MemberRef(_) => 10,
            TableRows::Constant(_) => 11,
            TableRows::CustomAttribute(_) => 12,
            TableRows::FieldMarshal(_) => 13,
            TableRows::DeclSecurity(_) => 14,
            TableRows::ClassLayout(_) => 15,
            TableRows::FieldLayout(_) => 16,
            TableRows::StandAloneSig(_) => 17,
            TableRows::EventMap(_) => 18,
            TableRows::EventPtr(_) => 19,
            TableRows::Event(_) => 20,
            TableRows::PropertyMap(_) => 21,
            TableRows::PropertyPtr(_) => 22,
            TableRows::Property(_) => 23,
            TableRows::MethodSemantics(_) => 24,
            TableRows::MethodImpl(_) => 25,
            TableRows::ModuleRef(_) => 26,
            TableRows::TypeSpec(_) => 27,
            TableRows::ImplMap(_) => 28,
            TableRows::FieldRva(_) => 29,
            TableRows::EncLog(_) => 30,
            TableRows::EncMap(_) => 31,
            TableRows::Assembly(_) => 32,
            TableRows::AssemblyProcessor(_) => 33,
            TableRows::AssemblyOS(_) => 34,
            TableRows::AssemblyRef(_) => 35,
            TableRows::AssemblyRefProcessor(_) => 36,
            TableRows::AssemblyRefOS(_) => 37,
            TableRows::File(_) => 38,
            TableRows::ExportedType(_) => 39,
            TableRows::ManifestResource(_) => 40,
            TableRows::NestedClass(_) => 41,
            TableRows::GenericParam(_) => 42,
            TableRows::GenericMethod(_) => 43,
            TableRows::GenericParamConstraint(_) => 44,
            TableRows::Unused(_) => 62,
            TableRows::MaxTable(_) => 63,
        }
    }

    /// The number of rows.
    pub fn row_count(&self) -> (r: usize)
        ensures
            r == self.spec_row_count(),
    {
        match self {
            TableRows::Module(t) => t.row_count(),
            TableRows::TypeRef(t) => t.row_count(),
            TableRows::TypeDef(t) => t.row_count(),
            TableRows::FieldPtr(t) => t.row_count(),
            TableRows::Field(t) => t.row_count(),
            TableRows::MethodPtr(t) => t.row_count(),
            TableRows::MethodDef(t) => t.row_count(),
            TableRows::ParamPtr(t) => t.row_count(),
            TableRows::Param(t) => t.row_count(),
            TableRows::InterfaceImpl(t) => t.row_count(),
            TableRows::MemberRef(t) => t.row_count(),
            TableRows::Constant(t) => t.row_count(),
            TableRows::CustomAttribute(t) => t.row_count(),
            TableRows::FieldMarshal(t) => t.row_count(),
            TableRows::DeclSecurity(t) => t.row_count(),
            TableRows::ClassLayout(t) => t.row_count(),
            TableRows::FieldLayout(t) => t.row_count(),
            TableRows::StandAloneSig(t) => t.row_count(),
            TableRows::EventMap(t) => t.row_count(),
            TableRows::EventPtr(t) => t.row_count(),
            TableRows::Event(t) => t.row_count(),
            TableRows::PropertyMap(t) => t.row_count(),
            TableRows::PropertyPtr(t) => t.row_count(),
            TableRows::Property(t) => t.row_count(),
            TableRows::MethodSemantics(t) => t.row_count(),
            TableRows::MethodImpl(t) => t.row_count(),
            TableRows::ModuleRef(t) => t.row_count(),
            TableRows::TypeSpec(t) => t.row_count(),
            TableRows::ImplMap(t) => t.row_count(),
            TableRows::FieldRva(t) => t.row_count(),
            TableRows::EncLog(t) => t.row_count(),
            TableRows::EncMap(t) => t.row_count(),
            TableRows::Assembly(t) => t.row_count(),
            TableRows::AssemblyProcessor(t) => t.row_count(),
            TableRows::AssemblyOS(t) => t.row_count(),
            TableRows::AssemblyRef(t) => t.row_count(),
            TableRows::AssemblyRefProcessor(t) => t.row_count(),
            TableRows::AssemblyRefOS(t) => t.row_count(),
            TableRows::File(t) => t.row_count(),
            TableRows::ExportedType(t) => t.row_count(),
            TableRows::ManifestResource(t) => t.row_count(),
            TableRows::NestedClass(t) => t.row_count(),
            TableRows::GenericParam(t) => t.row_count(),
            TableRows::GenericMethod(t) => t.row_count(),
            TableRows::GenericParamConstraint(t) => t.row_count(),
            TableRows::Unused(t) => t.row_count(),
            TableRows::MaxTable(t) => t.row_count(),
        }
    }

    /// The name of the table.
    pub fn name(&self) -> (r: &str)
        ensures
            r@ == self.spec_name(),
    {
        match self {
            TableRows::Module(t) => t.name(),
            TableRows::TypeRef(t) => t.name(),
            TableRows::TypeDef(t) => t.name(),
            TableRows::FieldPtr(t) => t.name(),
            TableRows::Field(t) => t.name(),
            TableRows::MethodPtr(t) => t.name(),
            TableRows::MethodDef(t) => t.name(),
            TableRows::ParamPtr(t) => t.name(),
            TableRows::Param(t) => t.name(),
            TableRows::InterfaceImpl(t) => t.name(),
            TableRows::MemberRef(t) => t.name(),
            TableRows::Constant(t) => t.name(),
            TableRows::CustomAttribute(t) => t.name(),
            TableRows::FieldMarshal(t) => t.name(),
            TableRows::DeclSecurity(t) => t.name(),
            TableRows::ClassLayout(t) => t.name(),
            TableRows::FieldLayout(t) => t.name(),
            TableRows::StandAloneSig(t) => t.name(),
            TableRows::EventMap(t) => t.name(),
            TableRows::EventPtr(t) => t.name(),
            TableRows::Event(t) => t.name(),
            TableRows::PropertyMap(t) => t.name(),
            TableRows::PropertyPtr(t) => t.name(),
            TableRows::Property(t) => t.name(),
            TableRows::MethodSemantics(t) => t.name(),
            TableRows::MethodImpl(t) => t.name(),
            TableRows::ModuleRef(t) => t.name(),
            TableRows::TypeSpec(t) => t.name(),
            TableRows::ImplMap(t) => t.name(),
            TableRows::FieldRva(t) => t.name(),
            TableRows::EncLog(t) => t.name(),
            TableRows::EncMap(t) => t.name(),
            TableRows::Assembly(t) => t.name(),
            TableRows::AssemblyProcessor(t) => t.name(),
            TableRows::AssemblyOS(t) => t.name(),
            TableRows::AssemblyRef(t) => t.name(),
            TableRows::AssemblyRefProcessor(t) => t.name(),
            TableRows::AssemblyRefOS(t) => t.name(),
            TableRows::File(t) => t.name(),
            TableRows::ExportedType(t) => t.name(),
            TableRows::ManifestResource(t) => t.name(),
            TableRows::NestedClass(t) => t.name(),
            TableRows::GenericParam(t) => t.name(),
            TableRows::GenericMethod(t) => t.name(),
            TableRows::GenericParamConstraint(t) => t.name(),
            TableRows::Unused(t) => t.name(),
            TableRows::MaxTable(t) => t.name(),
        }
    }

    /// The size of a row; 0 for a table without rows.
    pub fn row_size(&self) -> (r: usize)
        requires
            self.wf(),
        ensures
            r == self.spec_row_size(),
            r <= 4 * MAX_COLUMNS,
    {
        match self {
            TableRows::Module(t) => t.row_size(),
            TableRows::TypeRef(t) => t.row_size(),
            TableRows::TypeDef(t) => t.row_size(),
            TableRows::FieldPtr(t) => t.row_size(),
            TableRows::Field(t) => t.row_size(),
            TableRows::MethodPtr(t) => t.row_size(),
            TableRows::MethodDef(t) => t.row_size(),
            TableRows::ParamPtr(t) => t.row_size(),
            TableRows::Param(t) => t.row_size(),
            TableRows::InterfaceImpl(t) => t.row_size(),
            TableRows::MemberRef(t) => t.row_size(),
            TableRows::Constant(t) => t.row_size(),
            TableRows::CustomAttribute(t) => t.row_size(),
            TableRows::FieldMarshal(t) => t.row_size(),
            TableRows::DeclSecurity(t) => t.row_size(),
            TableRows::ClassLayout(t) => t.row_size(),
            TableRows::FieldLayout(t) => t.row_size(),
            TableRows::StandAloneSig(t) => t.row_size(),
            TableRows::EventMap(t) => t.row_size(),
            TableRows::EventPtr(t) => t.row_size(),
            TableRows::Event(t) => t.row_size(),
            TableRows::PropertyMap(t) => t.row_size(),
            TableRows::PropertyPtr(t) => t.row_size(),
            TableRows::Property(t) => t.row_size(),
            TableRows::MethodSemantics(t) => t.row_size(),
            TableRows::MethodImpl(t) => t.row_size(),
            TableRows::ModuleRef(t) => t.row_size(),
            TableRows::TypeSpec(t) => t.row_size(),
            TableRows::ImplMap(t) => t.row_size(),
            TableRows::FieldRva(t) => t.row_size(),
            TableRows::EncLog(t) => t.row_size(),
            TableRows::EncMap(t) => t.row_size(),
            TableRows::Assembly(t) => t.row_size(),
            TableRows::AssemblyProcessor(t) => t.row_size(),
            TableRows::AssemblyOS(t) => t.row_size(),
            TableRows::AssemblyRef(t) => t.row_size(),
            TableRows::AssemblyRefProcessor(t) => t.row_size(),
            TableRows::AssemblyRefOS(t) => t.row_size(),
            TableRows::File(t) => t.row_size(),
            TableRows::ExportedType(t) => t.row_size(),
            TableRows::ManifestResource(t) => t.row_size(),
            TableRows::NestedClass(t) => t.row_size(),
            TableRows::GenericParam(t) => t.row_size(),
            TableRows::GenericMethod(t) => t.row_size(),
            TableRows::GenericParamConstraint(t) => t.row_size(),
            TableRows::Unused(t) => t.row_size(),
            TableRows::MaxTable(t) => t.row_size(),
        }
    }

    /// Hands the rows their bytes: row `i` gets the bytes from `i` times
    /// the row size on. Where `data` is too short nothing is changed.
    pub fn set_data(&mut self, data: &Vec<u8>) -> (r: Result<()>)
        requires
            old(self).wf(),
        ensures
            final(self).spec_kind() == old(self).spec_kind(),
            final(self).spec_row_count() == old(self).spec_row_count(),
            final(self).spec_row_size() == old(self).spec_row_size(),
            final(self).spec_name() == old(self).spec_name(),
            final(self).spec_sizes() == old(self).spec_sizes(),
            final(self).wf(),
            match r {
                Ok(_) => {
                    &&& old(self).spec_row_count() * old(self).spec_row_size() <= data@.len()
                    &&& forall|i: int|
                        0 <= i < old(self).spec_row_count() ==> #[trigger] final(self).spec_row_data(
                            i,
                        ) == data@.subrange(
                            i * old(self).spec_row_size(),
                            (i + 1) * old(self).spec_row_size(),
                        )
                    &&& final(self).spec_bytes() == old(self).spec_row_count() * old(
                        self,
                    ).spec_row_size()
                },
                Err(e) => {
                    &&& old(self).spec_row_count() * old(self).spec_row_size() > data@.len()
                    &&& e == Error::NotEnoughData(
                        spec_saturating_product(
                            old(self).spec_row_count() as int,
                            old(self).spec_row_size(),
                        ),
                        data@.len() as usize,
                    )
                    &&& *final(self) == *old(self)
                },
            },
    {
        match self {
            TableRows::Module(t) => t.set_data(data),
            TableRows::TypeRef(t) => t.set_data(data),
            TableRows::TypeDef(t) => t.set_data(data),
            TableRows::FieldPtr(t) => t.set_data(data),
            TableRows::Field(t) => t.set_data(data),
            TableRows::MethodPtr(t) => t.set_data(data),
            TableRows::MethodDef(t) => t.set_data(data),
            TableRows::ParamPtr(t) => t.set_data(data),
            TableRows::Param(t) => t.set_data(data),
            TableRows::InterfaceImpl(t) => t.set_data(data),
            TableRows::MemberRef(t) => t.set_data(data),
            TableRows::Constant(t) => t.set_data(data),
            TableRows::CustomAttribute(t) => t.set_data(data),
            TableRows::FieldMarshal(t) => t.set_data(data),
            TableRows::DeclSecurity(t) => t.set_data(data),
            TableRows::ClassLayout(t) => t.set_data(data),
            TableRows::FieldLayout(t) => t.set_data(data),
            TableRows::StandAloneSig(t) => t.set_data(data),
            TableRows::EventMap(t) => t.set_data(data),
            TableRows::EventPtr(t) => t.set_data(data),
            TableRows::Event(t) => t.set_data(data),
            TableRows::PropertyMap(t) => t.set_data(data),
            TableRows::PropertyPtr(t) => t.set_data(data),
            TableRows::Property(t) => t.set_data(data),
            TableRows::MethodSemantics(t) => t.set_data(data),
            TableRows::MethodImpl(t) => t.set_data(data),
            TableRows::ModuleRef(t) => t.set_data(data),
            TableRows::TypeSpec(t) => t.set_data(data),
            TableRows::ImplMap(t) => t.set_data(data),
            TableRows::FieldRva(t) => t.set_data(data),
            TableRows::EncLog(t) => t.set_data(data),
            TableRows::EncMap(t) => t.set_data(data),
            TableRows::Assembly(t) => t.set_data(data),
            TableRows::AssemblyProcessor(t) => t.set_data(data),
            TableRows::AssemblyOS(t) => t.set_data(data),
            TableRows::AssemblyRef(t) => t.set_data(data),
            TableRows::AssemblyRefProcessor(t) => t.set_data(data),
            TableRows::AssemblyRefOS(t) => t.set_data(data),
            TableRows::File(t) => t.set_data(data),
            TableRows::ExportedType(t) => t.set_data(data),
            TableRows::ManifestResource(t) => t.set_data(data),
            TableRows::NestedClass(t) => t.set_data(data),
            TableRows::GenericParam(t) => t.set_data(data),
            TableRows::GenericMethod(t) => t.set_data(data),
            TableRows::GenericParamConstraint(t) => t.set_data(data),
            TableRows::Unused(t) => t.set_data(data),
            TableRows::MaxTable(t) => t.set_data(data),
        }
    }

    /// Reads the fields of every row from its bytes, in the order of the
    /// rows. The first row that is refused ends the reading.
    pub fn parse_rows(&mut self, layout: &TableLayout, heaps: &Heaps) -> (r: Result<()>)
        requires
            layout.wf(),
        ensures
            final(self).spec_kind() == old(self).spec_kind(),
            final(self).spec_row_count() == old(self).spec_row_count(),
            final(self).spec_name() == old(self).spec_name(),
            final(self).spec_row_size() == old(self).spec_row_size(),
            final(self).spec_sizes() == old(self).spec_sizes(),
            old(self).wf() ==> final(self).wf(),
            forall|i: int|
                0 <= i < old(self).spec_row_count() ==> #[trigger] final(self).spec_row_data(i)
                    == old(self).spec_row_data(i),
            match r {
                Ok(_) => old(self).spec_failure(layout, *heaps) is None && final(self).was_read(
                    layout,
                    *heaps,
                ),
                Err(e) => old(self).spec_failure(layout, *heaps) == Some(e),
            },
    {
        match self {
            TableRows::Module(t) => t.parse_rows(layout, heaps),
            TableRows::TypeRef(t) => t.parse_rows(layout, heaps),
            TableRows::TypeDef(t) => t.parse_rows(layout, heaps),
            TableRows::FieldPtr(t) => t.parse_rows(layout, heaps),
            TableRows::Field(t) => t.parse_rows(layout, heaps),
            TableRows::MethodPtr(t) => t.parse_rows(layout, heaps),
            TableRows::MethodDef(t) => t.parse_rows(layout, heaps),
            TableRows::ParamPtr(t) => t.parse_rows(layout, heaps),
            TableRows::Param(t) => t.parse_rows(layout, heaps),
            TableRows::InterfaceImpl(t) => t.parse_rows(layout, heaps),
            TableRows::MemberRef(t) => t.parse_rows(layout, heaps),
            TableRows::Constant(t) => t.parse_rows(layout, heaps),
            TableRows::CustomAttribute(t) => t.parse_rows(layout, heaps),
            TableRows::FieldMarshal(t) => t.parse_rows(layout, heaps),
            TableRows::DeclSecurity(t) => t.parse_rows(layout, heaps),
            TableRows::ClassLayout(t) => t.parse_rows(layout, heaps),
            TableRows::FieldLayout(t) => t.parse_rows(layout, heaps),
            TableRows::StandAloneSig(t) => t.parse_rows(layout, heaps),
            TableRows::EventMap(t) => t.parse_rows(layout, heaps),
            TableRows::EventPtr(t) => t.parse_rows(layout, heaps),
            TableRows::Event(t) => t.parse_rows(layout, heaps),
            TableRows::PropertyMap(t) => t.parse_rows(layout, heaps),
            TableRows::PropertyPtr(t) => t.parse_rows(layout, heaps),
            TableRows::Property(t) => t.parse_rows(layout, heaps),
            TableRows::MethodSemantics(t) => t.parse_rows(layout, heaps),
            TableRows::MethodImpl(t) => t.parse_rows(layout, heaps),
            TableRows::ModuleRef(t) => t.parse_rows(layout, heaps),
            TableRows::TypeSpec(t) => t.parse_rows(layout, heaps),
            TableRows::ImplMap(t) => t.parse_rows(layout, heaps),
            TableRows::FieldRva(t) => t.parse_rows(layout, heaps),
            TableRows::EncLog(t) => t.parse_rows(layout, heaps),
            TableRows::EncMap(t) => t.parse_rows(layout, heaps),
            TableRows::Assembly(t) => t.parse_rows(layout, heaps),
            TableRows::AssemblyProcessor(t) => t.parse_rows(layout, heaps),
            TableRows::AssemblyOS(t) => t.parse_rows(layout, heaps),
            TableRows::AssemblyRef(t) => t.parse_rows(layout, heaps),
            TableRows::AssemblyRefProcessor(t) => t.parse_rows(layout, heaps),
            TableRows::AssemblyRefOS(t) => t.parse_rows(layout, heaps),
            TableRows::File(t) => t.parse_rows(layout, heaps),
            TableRows::ExportedType(t) => t.parse_rows(layout, heaps),
            TableRows::ManifestResource(t) => t.parse_rows(layout, heaps),
            TableRows::NestedClass(t) => t.parse_rows(layout, heaps),
            TableRows::GenericParam(t) => t.parse_rows(layout, heaps),
            TableRows::GenericMethod(t) => t.parse_rows(layout, heaps),
            TableRows::GenericParamConstraint(t) => t.parse_rows(layout, heaps),
            TableRows::Unused(t) => t.parse_rows(layout, heaps),
            TableRows::MaxTable(t) => t.parse_rows(layout, heaps),
        }
    }

    /// Fills in the lists of owned rows of every row, each with the help
    /// of the row behind it.
    pub fn complete_rows(&mut self, layout: &TableLayout) -> (r: Result<()>)
        requires
            layout.wf(),
        ensures
            r is Ok,
            final(self).was_completed(old(self), layout),
            forall|i: int|
                0 <= i < old(self).spec_row_count() ==> #[trigger] final(self).spec_row_data(i)
                    == old(self).spec_row_data(i),
            final(self).spec_kind() == old(self).spec_kind(),
            final(self).spec_row_count() == old(self).spec_row_count(),
            final(self).spec_name() == old(self).spec_name(),
            final(self).spec_row_size() == old(self).spec_row_size(),
            final(self).spec_sizes() == old(self).spec_sizes(),
            old(self).wf() ==> final(self).wf(),
    {
        match self {
            TableRows::Module(t) => t.complete_rows(layout),
            TableRows::TypeRef(t) => t.complete_rows(layout),
            TableRows::TypeDef(t) => t.complete_rows(layout),
            TableRows::FieldPtr(t) => t.complete_rows(layout),
            TableRows::Field(t) => t.complete_rows(layout),
            TableRows::MethodPtr(t) => t.complete_rows(layout),
            TableRows::MethodDef(t) => t.complete_rows(layout),
            TableRows::ParamPtr(t) => t.complete_rows(layout),
            TableRows::Param(t) => t.complete_rows(layout),
            TableRows::InterfaceImpl(t) => t.complete_rows(layout),
            TableRows::MemberRef(t) => t.complete_rows(layout),
            TableRows::Constant(t) => t.complete_rows(layout),
            TableRows::CustomAttribute(t) => t.complete_rows(layout),
            TableRows::FieldMarshal(t) => t.complete_rows(layout),
            TableRows::DeclSecurity(t) => t.complete_rows(layout),
            TableRows::ClassLayout(t) => t.complete_rows(layout),
            TableRows::FieldLayout(t) => t.complete_rows(layout),
            TableRows::StandAloneSig(t) => t.complete_rows(layout),
            TableRows::EventMap(t) => t.complete_rows(layout),
            TableRows::EventPtr(t) => t.complete_rows(layout),
            TableRows::Event(t) => t.complete_rows(layout),
            TableRows::PropertyMap(t) => t.complete_rows(layout),
            TableRows::PropertyPtr(t) => t.complete_rows(layout),
            TableRows::Property(t) => t.complete_rows(layout),
            TableRows::MethodSemantics(t) => t.complete_rows(layout),
            TableRows::MethodImpl(t) => t.complete_rows(layout),
            TableRows::ModuleRef(t) => t.complete_rows(layout),
            TableRows::TypeSpec(t) => t.complete_rows(layout),
            TableRows::ImplMap(t) => t.complete_rows(layout),
            TableRows::FieldRva(t) => t.complete_rows(layout),
            TableRows::EncLog(t) => t.complete_rows(layout),
            TableRows::EncMap(t) => t.complete_rows(layout),
            TableRows::Assembly(t) => t.complete_rows(layout),
            TableRows::AssemblyProcessor(t) => t.complete_rows(layout),
            TableRows::AssemblyOS(t) => t.complete_rows(layout),
            TableRows::AssemblyRef(t) => t.complete_rows(layout),
            TableRows::AssemblyRefProcessor(t) => t.complete_rows(layout),
            TableRows::AssemblyRefOS(t) => t.complete_rows(layout),
            TableRows::File(t) => t.complete_rows(layout),
            TableRows::ExportedType(t) => t.complete_rows(layout),
            TableRows::ManifestResource(t) => t.complete_rows(layout),
            TableRows::NestedClass(t) => t.complete_rows(layout),
            TableRows::GenericParam(t) => t.complete_rows(layout),
            TableRows::GenericMethod(t) => t.complete_rows(layout),
            TableRows::GenericParamConstraint(t) => t.complete_rows(layout),
            TableRows::Unused(t) => t.complete_rows(layout),
            TableRows::MaxTable(t) => t.complete_rows(layout),
        }
    }
}

/// Whether a table number is that of a kind of table: 0 to 44, and the
/// reserved 62 and 63.
pub open spec fn is_table_kind(index: usize) -> bool {
    index < 45 || index == 62 || index == 63
}

/// A table of an image: its number, its place and its rows.
#[derive(Debug, Clone)]
pub struct MetaDataTable {
    pub number: usize,
    pub is_sorted: bool,
    pub row_size: usize,
    pub num_rows: usize,
    pub rva: u32,
    pub table: TableRows,
}

impl MetaDataTable {
    /// Number, row count and row size are those of the rows.
    pub open spec fn wf(&self) -> bool {
        &&& self.table.wf()
        &&& self.number == self.table.spec_kind()
        &&& self.num_rows == self.table.spec_row_count()
        &&& self.row_size == self.table.spec_row_size()
    }

    /// Hands the rows their bytes: row `i` gets the bytes from `i` times
    /// the row size on. Where `data` is too short nothing is changed.
    pub fn set_data(&mut self, data: &Vec<u8>) -> (r: Result<()>)
        requires
            old(self).wf(),
        ensures
            final(self).wf(),
            final(self).number == old(self).number,
            final(self).is_sorted == old(self).is_sorted,
            final(self).row_size == old(self).row_size,
            final(self).num_rows == old(self).num_rows,
            final(self).rva == old(self).rva,
            final(self).table.spec_name() == old(self).table.spec_name(),
            final(self).table.spec_sizes() == old(self).table.spec_sizes(),
            match r {
                Ok(_) => {
                    &&& old(self).num_rows * old(self).row_size <= data@.len()
                    &&& forall|i: int|
                        0 <= i < old(self).num_rows ==> #[trigger] final(self).table.spec_row_data(i)
                            == data@.subrange(i * old(self).row_size, (i + 1) * old(self).row_size)
                    &&& final(self).table.spec_bytes() == old(self).num_rows * old(self).row_size
                },
                Err(e) => {
                    &&& old(self).num_rows * old(self).row_size > data@.len()
                    &&& e == Error::NotEnoughData(
                        spec_saturating_product(
                            old(self).num_rows as int,
                            old(self).row_size as int,
                        ),
                        data@.len() as usize,
                    )
                    &&& *final(self) == *old(self)
                },
            },
    {
        self.table.set_data(data)
    }

    /// The number of rows.
    pub fn row_count(&self) -> (r: usize)
        ensures
            r == self.table.spec_row_count(),
    {
        self.table.row_count()
    }

    /// Row `i`, counted from zero, with its bytes, where the table is of
    /// the kind `T`.
    pub fn get_row<T: MDTableRowTrait>(&self, i: usize) -> (r: Result<&MDTableRow<T>>)
        ensures
            match T::spec_pick(&self.table) {
                Some(table) => if i < table.table@.len() {
                    r == Ok::<&MDTableRow<T>, Error>(&table.table@[i as int])
                } else {
                    r == Err::<&MDTableRow<T>, Error>(
                        Error::RowIndexOutOfBound(i, table.table@.len() as usize),
                    )
                },
                None => r == Err::<&MDTableRow<T>, Error>(
                    Error::RowIndexOutOfBound(i, self.table.spec_row_count() as usize),
                ),
            },
    {
        match T::pick(&self.table) {
            Some(table) => table.get_row(i),
            None => Err(Error::RowIndexOutOfBound(i, self.row_count())),
        }
    }

    /// Row `i`, counted from zero, to be changed in its place, where the
    /// table is of the kind `T`. The counts and the kind of the table stay.
    pub fn get_mut_row<T: MDTableRowTrait>(&mut self, i: usize) -> (r: Result<&mut MDTableRow<T>>)
        ensures
            final(self).number == old(self).number,
            final(self).is_sorted == old(self).is_sorted,
            final(self).row_size == old(self).row_size,
            final(self).num_rows == old(self).num_rows,
            final(self).rva == old(self).rva,
            match r {
                Ok(row) => {
                    &&& T::spec_pick(&old(self).table) matches Some(before)
                    &&& i < before.table@.len()
                    &&& *row == before.table@[i as int]
                    &&& T::spec_pick(&final(self).table) matches Some(after)
                    &&& after.name == before.name
                    &&& after.table@ == before.table@.update(i as int, *final(row))
                },
                Err(e) => {
                    &&& *final(self) == *old(self)
                    &&& match T::spec_pick(&old(self).table) {
                        Some(before) => {
                            &&& i >= before.table@.len()
                            &&& e == Error::RowIndexOutOfBound(i, before.table@.len() as usize)
                        },
                        None => e == Error::RowIndexOutOfBound(
                            i,
                            old(self).table.spec_row_count() as usize,
                        ),
                    }
                },
            },
    {
        let count = self.table.row_count();
        match T::pick_mut(&mut self.table) {
            Some(table) => table.get_mut_row(i),
            None => Err(Error::RowIndexOutOfBound(i, count)),
        }
    }

    /// The fields of row `i`, counted from zero, where the table is of the
    /// kind `T`.
    pub fn row<T: MDTableRowTrait>(&self, i: usize) -> (r: Result<&T>)
        ensures
            match T::spec_pick(&self.table) {
                Some(table) => if i < table.table@.len() {
                    r == Ok::<&T, Error>(&table.table@[i as int].row)
                } else {
                    r == Err::<&T, Error>(Error::RowIndexOutOfBound(i, table.table@.len() as usize))
                },
                None => r == Err::<&T, Error>(
                    Error::RowIndexOutOfBound(i, self.table.spec_row_count() as usize),
                ),
            },
    {
        let r = self.get_row::<T>(i)?;
        Ok(r.get_row())
    }
}

/// Whether `table` is `before` with the fields of its rows read from their
/// bytes, and with the lists of owned rows filled in after that.
#[verifier::opaque]
pub open spec fn table_was_read(
    table: MetaDataTable,
    before: MetaDataTable,
    layout: &TableLayout,
    heaps: Heaps,
) -> bool {
    exists|read: TableRows|
        {
            &&& read.spec_kind() == before.table.spec_kind()
            &&& read.spec_row_count() == before.table.spec_row_count()
            &&& forall|i: int|
                0 <= i < before.table.spec_row_count() ==> #[trigger] read.spec_row_data(i)
                    == before.table.spec_row_data(i)
            &&& read.was_read(layout, heaps)
            &&& #[trigger] table.table.was_completed(&read, layout)
        }
}

impl crate::DnPe {
    /// Makes table number `i` of an image with the given row counts, with
    /// rows that hold no bytes yet.
    ///
    /// A number that is no kind of table is refused.
    pub fn create_md_table(
        &self,
        i: &usize,
        table_rowcounts: &Vec<usize>,
        is_sorted: bool,
        strings_offset_size: usize,
        guids_offset_size: usize,
        blobs_offset_size: usize,
    ) -> (r: Result<MetaDataTable>)
        requires
            *i < MAX_TABLES,
            is_offset_size(strings_offset_size),
            is_offset_size(guids_offset_size),
            is_offset_size(blobs_offset_size),
            table_rowcounts@.len() == MAX_TABLES,
        ensures
            is_table_kind(*i) ==> (r matches Ok(t) && t.wf() && t.number == *i && t.is_sorted
                == is_sorted && t.num_rows == table_rowcounts@[*i as int] && t.rva == 0
                && t.table.is_blank() && spec_table_name(*i) == Some(t.table.spec_static_name())),
            r matches Ok(t) ==> t.table.spec_name() == t.table.spec_static_name()@,
            r matches Ok(t) ==> (t.num_rows > 0 ==> t.table.spec_sizes() == Some(
                Sizes {
                    strings: strings_offset_size,
                    guids: guids_offset_size,
                    blobs: blobs_offset_size,
                    counts: table_rowcounts@,
                },
            )),
            !is_table_kind(*i) ==> r == Err::<MetaDataTable, Error>(
                Error::UndefinedMetaDataTableIndex(*i as u32),
            ),
    {
        let num_rows = table_rowcounts[*i];
        let table = self.new_mdtable(
            *i,
            &num_rows,
            strings_offset_size,
            guids_offset_size,
            blobs_offset_size,
            table_rowcounts,
        )?;
        let row_size = table.row_size();
        Ok(MetaDataTable { number: *i, is_sorted, row_size, num_rows, rva: 0, table })
    }

    /// Makes a table of `num_rows` rows of the kind `T`, without bytes.
    pub fn new_table<T: MDTableRowTrait>(
        &self,
        name: &str,
        num_rows: &usize,
        strings_offset_size: usize,
        guids_offset_size: usize,
        blobs_offset_size: usize,
        tables_row_counts: &Vec<usize>,
    ) -> (r: Result<MDTable<T>>)
        requires
            is_offset_size(strings_offset_size),
            is_offset_size(guids_offset_size),
            is_offset_size(blobs_offset_size),
            tables_row_counts@.len() == MAX_TABLES,
        ensures
            r matches Ok(t) && t.name@ == name@ && t.table@.len() == *num_rows && t.wf() && forall|
                i: int,
            |
                0 <= i < t.table@.len() ==> (#[trigger] t.table@[i]).data@.len() == 0
                    && t.table@[i].row.is_blank() && t.table@[i].sizes() == (Sizes {
                    strings: strings_offset_size,
                    guids: guids_offset_size,
                    blobs: blobs_offset_size,
                    counts: tables_row_counts@,
                }),
            r matches Ok(t) && (*num_rows > 0 ==> t.spec_sizes() == Some(
                Sizes {
                    strings: strings_offset_size,
                    guids: guids_offset_size,
                    blobs: blobs_offset_size,
                    counts: tables_row_counts@,
                },
            )),
    {
        MDTable::<T>::new(
            name,
            num_rows,
            strings_offset_size,
            guids_offset_size,
            blobs_offset_size,
            tables_row_counts,
        )
    }

    /// Makes the rows of table number `i`, without bytes.
    ///
    /// A number that is no kind of table is refused.
    pub fn new_mdtable(
        &self,
        i: usize,
        num_rows: &usize,
        strings_offset_size: usize,
        guids_offset_size: usize,
        blobs_offset_size: usize,
        tables_row_counts: &Vec<usize>,
    ) -> (r: Result<TableRows>)
        requires
            is_offset_size(strings_offset_size),
            is_offset_size(guids_offset_size),
            is_offset_size(blobs_offset_size),
            tables_row_counts@.len() == MAX_TABLES,
        ensures
            is_table_kind(i) ==> (r matches Ok(t) && t.spec_kind() == i && t.spec_row_count()
                == *num_rows && t.wf() && t.is_blank() && spec_table_name(i) == Some(t.spec_static_name())),
            r matches Ok(t) ==> t.spec_name() == t.spec_static_name()@,
            r matches Ok(t) ==> (*num_rows > 0 ==> t.spec_sizes() == Some(
                Sizes {
                    strings: strings_offset_size,
                    guids: guids_offset_size,
                    blobs: blobs_offset_size,
                    counts: tables_row_counts@,
                },
            )),
            !is_table_kind(i) ==> r == Err::<TableRows, Error>(
                Error::UndefinedMetaDataTableIndex(i as u32),
            ),
    {
        match i {
            0 => Ok(
                TableRows::Module(
                    self.new_table::<rows::Module>(
                        "Module",
                        num_rows,
                        strings_offset_size,
                        guids_offset_size,
                        blobs_offset_size,
                        tables_row_counts,
                    )?,
                ),
            ),
            1 => Ok(
                TableRows::TypeRef(
                    self.new_table::<rows::TypeRef>(
                        "TypeRef",
                        num_rows,
                        strings_offset_size,
                        guids_offset_size,
                        blobs_offset_size,
                        tables_row_counts,
                    )?,
                ),
            ),
            2 => Ok(
                TableRows::TypeDef(
                    self.new_table::<rows::TypeDef>(
                        "TypeDef",
                        num_rows,
                        strings_offset_size,
                        guids_offset_size,
                        blobs_offset_size,
                        tables_row_counts,
                    )?,
                ),
            ),
            3 => Ok(
                TableRows::FieldPtr(
                    self.new_table::<rows::FieldPtr>(
                        "FieldPtr",
                        num_rows,
                        strings_offset_size,
                        guids_offset_size,
                        blobs_offset_size,
                        tables_row_counts,
                    )?,
                ),
            ),
            4 => Ok(
                TableRows::Field(
                    self.new_table::<rows::Field>(
                        "Field",
                        num_rows,
                        strings_offset_size,
                        guids_offset_size,
                        blobs_offset_size,
                        tables_row_counts,
                    )?,
                ),
            ),
            5 => Ok(
                TableRows::MethodPtr(
                    self.new_table::<rows::MethodPtr>(
                        "MethodPtr",
                        num_rows,
                        strings_offset_size,
                        guids_offset_size,
                        blobs_offset_size,
                        tables_row_counts,
                    )?,
                ),
            ),
            6 => Ok(
                TableRows::MethodDef(
                    self.new_table::<rows::MethodDef>(
                        "MethodDef",
                        num_rows,
                        strings_offset_size,
                        guids_offset_size,
                        blobs_offset_size,
                        tables_row_counts,
                    )?,
                ),
            ),
            7 => Ok(
                TableRows::ParamPtr(
                    self.new_table::<rows::ParamPtr>(
                        "ParamPtr",
                        num_rows,
                        strings_offset_size,
                        guids_offset_size,
                        blobs_offset_size,
                        tables_row_counts,
                    )?,
                ),
            ),
            8 => Ok(
                TableRows::Param(
                    self.new_table::<rows::Param>(
                        "Param",
                        num_rows,
                        strings_offset_size,
                        guids_offset_size,
                        blobs_offset_size,
                        tables_row_counts,
                    )?,
                ),
            ),
            9 => Ok(
                TableRows::InterfaceImpl(
                    self.new_table::<rows::InterfaceImpl>(
                        "InterfaceImpl",
                        num_rows,
                        strings_offset_size,
                        guids_offset_size,
                        blobs_offset_size,
                        tables_row_counts,
                    )?,
                ),
            ),
            10 => Ok(
                TableRows::MemberRef(
                    self.new_table::<rows::MemberRef>(
                        "MemberRef",
                        num_rows,
                        strings_offset_size,
                        guids_offset_size,
                        blobs_offset_size,
                        tables_row_counts,
                    )?,
                ),
            ),
            11 => Ok(
                TableRows::Constant(
                    self.new_table::<rows::Constant>(
                        "Constant",
                        num_rows,
                        strings_offset_size,
                        guids_offset_size,
                        blobs_offset_size,
                        tables_row_counts,
                    )?,
                ),
            ),
            12 => Ok(
                TableRows::CustomAttribute(
                    self.new_table::<rows::CustomAttribute>(
                        "CustomAttribute",
                        num_rows,
                        strings_offset_size,
                        guids_offset_size,
                        blobs_offset_size,
                        tables_row_counts,
                    )?,
                ),
            ),
            13 => Ok(
                TableRows::FieldMarshal(
                    self.new_table::<rows::FieldMarshal>(
                        "FieldMarshal",
                        num_rows,
                        strings_offset_size,
                        guids_offset_size,
                        blobs_offset_size,
                        tables_row_counts,
                    )?,
                ),
            ),
            14 => Ok(
                TableRows::DeclSecurity(
                    self.new_table::<rows::DeclSecurity>(
                        "DeclSecurity",
                        num_rows,
                        strings_offset_size,
                        guids_offset_size,
                        blobs_offset_size,
                        tables_row_counts,
                    )?,
                ),
            ),
            15 => Ok(
                TableRows::ClassLayout(
                    self.new_table::<rows::ClassLayout>(
                        "ClassLayout",
                        num_rows,
                        strings_offset_size,
                        guids_offset_size,
                        blobs_offset_size,
                        tables_row_counts,
                    )?,
                ),
            ),
            16 => Ok(
                TableRows::FieldLayout(
                    self.new_table::<rows::FieldLayout>(
                        "FieldLayout",
                        num_rows,
                        strings_offset_size,
                        guids_offset_size,
                        blobs_offset_size,
                        tables_row_counts,
                    )?,
                ),
            ),
            17 => Ok(
                TableRows::StandAloneSig(
                    self.new_table::<rows::StandAloneSig>(
                        "StandAloneSig",
                        num_rows,
                        strings_offset_size,
                        guids_offset_size,
                        blobs_offset_size,
                        tables_row_counts,
                    )?,
                ),
            ),
            18 => Ok(
                TableRows::EventMap(
                    self.new_table::<rows::EventMap>(
                        "EventMap",
                        num_rows,
                        strings_offset_size,
                        guids_offset_size,
                        blobs_offset_size,
                        tables_row_counts,
                    )?,
                ),
            ),
            19 => Ok(
                TableRows::EventPtr(
                    self.new_table::<rows::EventPtr>(
                        "EventPtr",
                        num_rows,
                        strings_offset_size,
                        guids_offset_size,
                        blobs_offset_size,
                        tables_row_counts,
                    )?,
                ),
            ),
            20 => Ok(
                TableRows::Event(
                    self.new_table::<rows::Event>(
                        "Event",
                        num_rows,
                        strings_offset_size,
                        guids_offset_size,
                        blobs_offset_size,
                        tables_row_counts,
                    )?,
                ),
            ),
            21 => Ok(
                TableRows::PropertyMap(
                    self.new_table::<rows::PropertyMap>(
                        "PropertyMap",
                        num_rows,
                        strings_offset_size,
                        guids_offset_size,
                        blobs_offset_size,
                        tables_row_counts,
                    )?,
                ),
            ),
            22 => Ok(
                TableRows::PropertyPtr(
                    self.new_table::<rows::PropertyPtr>(
                        "PropertyPtr",
                        num_rows,
                        strings_offset_size,
                        guids_offset_size,
                        blobs_offset_size,
                        tables_row_counts,
                    )?,
                ),
            ),
            23 => Ok(
                TableRows::Property(
                    self.new_table::<rows::Property>(
                        "Property",
                        num_rows,
                        strings_offset_size,
                        guids_offset_size,
                        blobs_offset_size,
                        tables_row_counts,
                    )?,
                ),
            ),
            24 => Ok(
                TableRows::MethodSemantics(
                    self.new_table::<rows::MethodSemantics>(
                        "MethodSemantics",
                        num_rows,
                        strings_offset_size,
                        guids_offset_size,
                        blobs_offset_size,
                        tables_row_counts,
                    )?,
                ),
            ),
            25 => Ok(
                TableRows::MethodImpl(
                    self.new_table::<rows::MethodImpl>(
                        "MethodImpl",
                        num_rows,
                        strings_offset_size,
                        guids_offset_size,
                        blobs_offset_size,
                        tables_row_counts,
                    )?,
                ),
            ),
            26 => Ok(
                TableRows::ModuleRef(
                    self.new_table::<rows::ModuleRef>(
                        "ModuleRef",
                        num_rows,
                        strings_offset_size,
                        guids_offset_size,
                        blobs_offset_size,
                        tables_row_counts,
                    )?,
                ),
            ),
            27 => Ok(
                TableRows::TypeSpec(
                    self.new_table::<rows::TypeSpec>(
                        "TypeSpec",
                        num_rows,
                        strings_offset_size,
                        guids_offset_size,
                        blobs_offset_size,
                        tables_row_counts,
                    )?,
                ),
            ),
            28 => Ok(
                TableRows::ImplMap(
                    self.new_table::<rows::ImplMap>(
                        "ImplMap",
                        num_rows,
                        strings_offset_size,
                        guids_offset_size,
                        blobs_offset_size,
                        tables_row_counts,
                    )?,
                ),
            ),
            29 => Ok(
                TableRows::FieldRva(
                    self.new_table::<rows::FieldRva>(
                        "FieldRva",
                        num_rows,
                        strings_offset_size,
                        guids_offset_size,
                        blobs_offset_size,
                        tables_row_counts,
                    )?,
                ),
            ),
            30 => Ok(
                TableRows::EncLog(
                    self.new_table::<rows::EncLog>(
                        "EncLog",
                        num_rows,
                        strings_offset_size,
                        guids_offset_size,
                        blobs_offset_size,
                        tables_row_counts,
                    )?,
                ),
            ),
            31 => Ok(
                TableRows::EncMap(
                    self.new_table::<rows::EncMap>(
                        "EncMap",
                        num_rows,
                        strings_offset_size,
                        guids_offset_size,
                        blobs_offset_size,
                        tables_row_counts,
                    )?,
                ),
            ),
            32 => Ok(
                TableRows::Assembly(
                    self.new_table::<rows::Assembly>(
                        "Assembly",
                        num_rows,
                        strings_offset_size,
                        guids_offset_size,
                        blobs_offset_size,
                        tables_row_counts,
                    )?,
                ),
            ),
            33 => Ok(
                TableRows::AssemblyProcessor(
                    self.new_table::<rows::AssemblyProcessor>(
                        "AssemblyProcessor",
                        num_rows,
                        strings_offset_size,
                        guids_offset_size,
                        blobs_offset_size,
                        tables_row_counts,
                    )?,
                ),
            ),
            34 => Ok(
                TableRows::AssemblyOS(
                    self.new_table::<rows::AssemblyOS>(
                        "AssemblyOS",
                        num_rows,
                        strings_offset_size,
                        guids_offset_size,
                        blobs_offset_size,
                        tables_row_counts,
                    )?,
                ),
            ),
            35 => Ok(
                TableRows::AssemblyRef(
                    self.new_table::<rows::AssemblyRef>(
                        "AssemblyRef",
                        num_rows,
                        strings_offset_size,
                        guids_offset_size,
                        blobs_offset_size,
                        tables_row_counts,
                    )?,
                ),
            ),
            36 => Ok(
                TableRows::AssemblyRefProcessor(
                    self.new_table::<rows::AssemblyRefProcessor>(
                        "AssemblyRefProcessor",
                        num_rows,
                        strings_offset_size,
                        guids_offset_size,
                        blobs_offset_size,
                        tables_row_counts,
                    )?,
                ),
            ),
            37 => Ok(
                TableRows::AssemblyRefOS(
                    self.new_table::<rows::AssemblyRefOS>(
                        "AssemblyRefOS",
                        num_rows,
                        strings_offset_size,
                        guids_offset_size,
                        blobs_offset_size,
                        tables_row_counts,
                    )?,
                ),
            ),
            38 => Ok(
                TableRows::File(
                    self.new_table::<rows::File>(
                        "File",
                        num_rows,
                        strings_offset_size,
                        guids_offset_size,
                        blobs_offset_size,
                        tables_row_counts,
                    )?,
                ),
            ),
            39 => Ok(
                TableRows::ExportedType(
                    self.new_table::<rows::ExportedType>(
                        "ExportedType",
                        num_rows,
                        strings_offset_size,
                        guids_offset_size,
                        blobs_offset_size,
                        tables_row_counts,
                    )?,
                ),
            ),
            40 => Ok(
                TableRows::ManifestResource(
                    self.new_table::<rows::ManifestResource>(
                        "ManifestResource",
                        num_rows,
                        strings_offset_size,
                        guids_offset_size,
                        blobs_offset_size,
                        tables_row_counts,
                    )?,
                ),
            ),
            41 => Ok(
                TableRows::NestedClass(
                    self.new_table::<rows::NestedClass>(
                        "NestedClass",
                        num_rows,
                        strings_offset_size,
                        guids_offset_size,
                        blobs_offset_size,
                        tables_row_counts,
                    )?,
                ),
            ),
            42 => Ok(
                TableRows::GenericParam(
                    self.new_table::<rows::GenericParam>(
                        "GenericParam",
                        num_rows,
                        strings_offset_size,
                        guids_offset_size,
                        blobs_offset_size,
                        tables_row_counts,
                    )?,
                ),
            ),
            43 => Ok(
                TableRows::GenericMethod(
                    self.new_table::<rows::GenericMethod>(
                        "GenericMethod",
                        num_rows,
                        strings_offset_size,
                        guids_offset_size,
                        blobs_offset_size,
                        tables_row_counts,
                    )?,
                ),
            ),
            44 => Ok(
                TableRows::GenericParamConstraint(
                    self.new_table::<rows::GenericParamConstraint>(
                        "GenericParamConstraint",
                        num_rows,
                        strings_offset_size,
                        guids_offset_size,
                        blobs_offset_size,
                        tables_row_counts,
                    )?,
                ),
            ),
            62 => Ok(
                TableRows::Unused(
                    self.new_table::<rows::Unused>(
                        "Unused",
                        num_rows,
                        strings_offset_size,
                        guids_offset_size,
                        blobs_offset_size,
                        tables_row_counts,
                    )?,
                ),
            ),
            63 => Ok(
                TableRows::MaxTable(
                    self.new_table::<rows::MaxTable>(
                        "MaxTable",
                        num_rows,
                        strings_offset_size,
                        guids_offset_size,
                        blobs_offset_size,
                        tables_row_counts,
                    )?,
                ),
            ),
            _ => Err(Error::UndefinedMetaDataTableIndex(i as u32)),
        }
    }

    /// Hands the rows of `table` their bytes from `table_data`. Where the
    /// bytes are too few the table stays as it was.
    pub fn parse_rows(&self, table: &mut MetaDataTable, _rva: &u32, table_data: &Vec<u8>) -> (r:
        Result<()>)
        requires
            old(table).wf(),
        ensures
            final(table).wf(),
            final(table).number == old(table).number,
            final(table).is_sorted == old(table).is_sorted,
            final(table).row_size == old(table).row_size,
            final(table).num_rows == old(table).num_rows,
            final(table).rva == old(table).rva,
            final(table).table.spec_sizes() == old(table).table.spec_sizes(),
            match r {
                Ok(_) => {
                    &&& old(table).num_rows * old(table).row_size <= table_data@.len()
                    &&& forall|i: int|
                        0 <= i < old(table).num_rows ==> #[trigger] final(table).table.spec_row_data(i)
                            == table_data@.subrange(
                            i * old(table).row_size,
                            (i + 1) * old(table).row_size,
                        )
                    &&& final(table).table.spec_bytes() == old(table).num_rows * old(table).row_size
                },
                Err(e) => {
                    &&& old(table).num_rows * old(table).row_size > table_data@.len()
                    &&& e == Error::NotEnoughData(
                        spec_saturating_product(
                            old(table).num_rows as int,
                            old(table).row_size as int,
                        ),
                        table_data@.len() as usize,
                    )
                    &&& *final(table) == *old(table)
                },
            },
    {
        table.set_data(table_data)
    }

    /// Reads the fields of every row of `table` from its bytes, and then
    /// fills in the lists of owned rows. The bytes of the rows, and the
    /// sizes that they were made for, stay in every case.
    pub fn parse_table(&self, table: &mut MetaDataTable, layout: &TableLayout, heaps: &Heaps) -> (r:
        Result<()>)
        requires
            layout.wf(),
        ensures
            final(table).number == old(table).number,
            final(table).is_sorted == old(table).is_sorted,
            final(table).row_size == old(table).row_size,
            final(table).num_rows == old(table).num_rows,
            final(table).rva == old(table).rva,
            final(table).table.spec_sizes() == old(table).table.spec_sizes(),
            final(table).table.spec_name() == old(table).table.spec_name(),
            forall|i: int|
                0 <= i < old(table).table.spec_row_count()
                    ==> #[trigger] final(table).table.spec_row_data(i)
                    == old(table).table.spec_row_data(i),
            old(table).wf() ==> final(table).wf(),
            match r {
                Ok(_) => {
                    &&& old(table).table.spec_failure(layout, *heaps) is None
                    &&& table_was_read(*final(table), *old(table), layout, *heaps)
                },
                Err(e) => old(table).table.spec_failure(layout, *heaps) == Some(e),
            },
    {
        table.table.parse_rows(layout, heaps)?;
        let ghost read = table.table;
        let _ = table.table.complete_rows(layout);
        proof {
            reveal(table_was_read);
            assert(table.table.was_completed(&read, layout));
        }
        Ok(())
    }
}

} // verus!
