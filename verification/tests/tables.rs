use dnfile::error::Error;
use dnfile::stream::blob_heap::BlobHeap;
use dnfile::stream::guid_heap::GuidHeap;
use dnfile::stream::meta_data_tables::header::{bit, MDTablesStruct};
use dnfile::stream::meta_data_tables::mdtables::codedindex::CodedKind;
use dnfile::stream::meta_data_tables::mdtables::enums::{
    ClrFieldAttr, ClrMethodAttr, ClrMethodImpl, CorFieldAccess, CorMethodAttrFlag,
    CorMethodCodeType, CorMethodManaged, CorMethodMemberAccess, CorMethodVtableLayout,
    CorTypeVisibility,
};
use dnfile::stream::meta_data_tables::mdtables::{
    column_width, decode_row, row_size, run_list, table_name_2_index, ClassLayout, Column,
    EventPtr, Field, FieldLayout, Heaps, MDTable, MDTableRow, MDTableRowTrait, MaxTable,
    MethodDef, Module, PropertyPtr, TableLayout, TypeDef, TypeRef, Unused, Value,
};
use dnfile::stream::string_heap::StringHeap;
use dnfile::stream::{ClrStream, Stream};
use dnfile::has_body;

fn stream(name: &str, stream: Stream) -> ClrStream {
    ClrStream { name: name.to_string(), rva: 0, size: 0, stream_table_entry_size: 0, stream }
}

fn strings() -> ClrStream {
    stream("#Strings", Stream::StringHeap(StringHeap::new(b"\0<Module>\0Program\0Main\0System\0".to_vec())))
}

fn blobs() -> ClrStream {
    stream("#Blob", Stream::BlobHeap(BlobHeap::new(vec![0x00, 0x03, 0x00, 0x00, 0x01, 0x02, 0x01, 0x08])))
}

fn guids() -> ClrStream {
    stream("#GUID", Stream::GuidHeap(GuidHeap::new((0x10..0x20).collect())))
}

fn layout(of: &[(&'static str, usize)]) -> TableLayout {
    let mut counts = vec![0usize; 64];
    let mut present = vec![false; 64];
    for (name, count) in of {
        counts[table_name_2_index(name).unwrap()] = *count;
        present[table_name_2_index(name).unwrap()] = true;
    }
    TableLayout {
        str_offset_size: 2,
        guids_offset_size: 2,
        blobs_offset_size: 2,
        tables_row_counts: counts,
        tables_present: present,
    }
}

fn small() -> TableLayout {
    layout(&[("Module", 1), ("TypeRef", 1), ("TypeDef", 2), ("Field", 2), ("MethodDef", 3)])
}

fn size_of<T: MDTableRowTrait>(layout: &TableLayout) -> usize {
    T::blank().size(
        layout.str_offset_size,
        layout.guids_offset_size,
        layout.blobs_offset_size,
        &layout.tables_row_counts,
    )
}

#[test]
fn row_sizes() {
    let layout = small();
    assert_eq!(size_of::<Module>(&layout), 2 + 2 + 3 * 2);
    assert_eq!(size_of::<TypeRef>(&layout), 2 + 2 + 2);
    assert_eq!(size_of::<TypeDef>(&layout), 4 + 2 + 2 + 2 + 2 + 2);
    assert_eq!(size_of::<Field>(&layout), 2 + 2 + 2);
    assert_eq!(size_of::<MethodDef>(&layout), 4 + 2 + 2 + 2 + 2 + 2);
    assert_eq!(size_of::<ClassLayout>(&layout), 2 + 4 + 2);
    assert_eq!(size_of::<FieldLayout>(&layout), 4 + 2);
    assert_eq!(size_of::<EventPtr>(&layout), 0);
    assert_eq!(size_of::<PropertyPtr>(&layout), 0);
    assert_eq!(size_of::<Unused>(&layout), 0);
    assert_eq!(size_of::<MaxTable>(&layout), 0);
}

#[test]
fn row_sizes_follow_the_layout() {
    let mut layout = small();
    layout.str_offset_size = 4;
    assert_eq!(size_of::<Module>(&layout), 2 + 4 + 3 * 2);
    assert_eq!(size_of::<TypeDef>(&layout), 4 + 4 + 4 + 2 + 2 + 2);
    layout.guids_offset_size = 4;
    layout.blobs_offset_size = 4;
    assert_eq!(size_of::<Module>(&layout), 2 + 4 + 3 * 4);
    assert_eq!(size_of::<Field>(&layout), 2 + 4 + 4);
    let large = self::layout(&[("TypeDef", 2), ("Field", 70000), ("MethodDef", 3), ("TypeRef", 20000)]);
    // the index of the fields and the coded index of the base type are wide
    assert_eq!(size_of::<TypeDef>(&large), 4 + 2 + 2 + 4 + 4 + 2);
    assert_eq!(size_of::<FieldLayout>(&large), 4 + 4);
    // so is the coded index of the scope of a type reference
    assert_eq!(size_of::<TypeRef>(&large), 4 + 2 + 2);
}

#[test]
fn column_widths() {
    let layout = small();
    let width = |column: Column| column_width(column, 2, 4, 2, &layout.tables_row_counts);
    assert_eq!(width(Column::Fixed(1)), 1);
    assert_eq!(width(Column::Fixed(4)), 4);
    assert_eq!(width(Column::Strings), 2);
    assert_eq!(width(Column::Guids), 4);
    assert_eq!(width(Column::Blobs), 2);
    assert_eq!(width(Column::Index("Field")), 2);
    assert_eq!(width(Column::Skipped("Param")), 2);
    assert_eq!(width(Column::Coded(CodedKind::HasCustomAttribute)), 2);
    assert_eq!(width(Column::Unsupported), 0);
    let columns = vec![Column::Fixed(2), Column::Strings, Column::Guids, Column::Index("Field")];
    assert_eq!(row_size(&columns, 2, 4, 2, &layout.tables_row_counts), 10);
    assert_eq!(row_size(&Vec::new(), 2, 4, 2, &layout.tables_row_counts), 0);
}

#[test]
fn module_row() {
    let (s, b, g) = (strings(), blobs(), guids());
    let heaps = Heaps { strings: Some(&s), blobs: Some(&b), guids: Some(&g) };
    let mut row = Module::blank();
    row.parse(&vec![0x07, 0x00, 0x0A, 0x00, 0x01, 0x00, 0x00, 0x00, 0x00, 0x00], &small(), &heaps).unwrap();
    assert_eq!(row.generation, 7);
    assert_eq!(row.name, "Program");
    assert_eq!(row.mvid.value, 0x1011_1213_1415_1617_1819_1A1B_1C1D_1E1F);
    assert!(row.enc_id.is_nil());
    assert!(row.enc_base_id.is_nil());
}

#[test]
fn type_ref_and_type_def_rows() {
    let (s, b, g) = (strings(), blobs(), guids());
    let heaps = Heaps { strings: Some(&s), blobs: Some(&b), guids: Some(&g) };
    let mut type_ref = TypeRef::blank();
    type_ref.parse(&vec![0x04, 0x00, 0x12, 0x00, 0x17, 0x00], &small(), &heaps).unwrap();
    assert_eq!(type_ref.resolution_scope.table, "Module");
    assert_eq!(type_ref.resolution_scope.row_index, 1);
    assert_eq!(type_ref.name, "Main");
    assert_eq!(type_ref.namespace, "System");
    let mut type_def = TypeDef::blank();
    let data = vec![0x01, 0x00, 0x10, 0x00, 0x0A, 0x00, 0x00, 0x00, 0x05, 0x00, 0x02, 0x00, 0x03, 0x00];
    type_def.parse(&data, &small(), &heaps).unwrap();
    assert_eq!(type_def.flags.visibility, CorTypeVisibility::Public);
    assert_eq!(type_def.name, "Program");
    assert_eq!(type_def.namespace, "");
    assert_eq!((type_def.extends.table, type_def.extends.row_index), ("TypeRef", 1));
    assert_eq!(type_def.field_list.len(), 1);
    assert_eq!((type_def.field_list[0].table, type_def.field_list[0].row_index), ("Field", 2));
    assert_eq!(type_def.method_list.len(), 1);
    assert_eq!((type_def.method_list[0].table, type_def.method_list[0].row_index), ("MethodDef", 3));
}

#[test]
fn field_and_method_rows() {
    let (s, b, g) = (strings(), blobs(), guids());
    let heaps = Heaps { strings: Some(&s), blobs: Some(&b), guids: Some(&g) };
    let mut field = Field::blank();
    field.parse(&vec![0x16, 0x00, 0x12, 0x00, 0x06, 0x00], &small(), &heaps).unwrap();
    assert_eq!(field.flags, vec![ClrFieldAttr::FieldAccess(CorFieldAccess::Public), ClrFieldAttr::Static]);
    assert_eq!(field.name, "Main");
    assert_eq!(field.signature, vec![0x08]);
    let mut method = MethodDef::blank();
    let data = vec![0x50, 0x20, 0x00, 0x00, 0x00, 0x00, 0x96, 0x00, 0x12, 0x00, 0x01, 0x00, 0x09, 0x00];
    method.parse(&data, &small(), &heaps).unwrap();
    assert_eq!(method.rva, 0x2050);
    assert_eq!(
        method.impl_flags,
        vec![
            ClrMethodImpl::MethodCodeType(CorMethodCodeType::IL),
            ClrMethodImpl::MethodManaged(CorMethodManaged::Managed)
        ]
    );
    assert_eq!(
        method.flags,
        vec![
            ClrMethodAttr::MemberAccess(CorMethodMemberAccess::Public),
            ClrMethodAttr::AttrFlag(CorMethodAttrFlag::Static),
            ClrMethodAttr::AttrFlag(CorMethodAttrFlag::HideBySig),
            ClrMethodAttr::VtableLayout(CorMethodVtableLayout::ReuseSlot),
        ]
    );
    assert_eq!(method.name, "Main");
    assert_eq!(method.signature, vec![0x00, 0x00, 0x01]);
    assert!(method.param_list.is_empty());
    assert!(has_body(&method));
}

#[test]
fn methods_without_a_body() {
    let (s, b, g) = (strings(), blobs(), guids());
    let heaps = Heaps { strings: Some(&s), blobs: Some(&b), guids: Some(&g) };
    let with = |impl_flags: u16, flags: u16| {
        let mut data = vec![0x50, 0x20, 0x00, 0x00];
        data.extend(impl_flags.to_le_bytes());
        data.extend(flags.to_le_bytes());
        data.extend([0x12, 0x00, 0x01, 0x00, 0x00, 0x00]);
        let mut method = MethodDef::blank();
        method.parse(&data, &small(), &heaps).unwrap();
        has_body(&method)
    };
    assert!(with(0x0000, 0x0096));
    assert!(with(0x0080, 0x0096));
    // native, optimized and runtime code
    assert!(!with(0x0001, 0x0096));
    assert!(!with(0x0002, 0x0096));
    assert!(!with(0x0003, 0x0096));
    // abstract methods and platform invokes
    assert!(!with(0x0000, 0x0496));
    assert!(!with(0x0000, 0x2096));
    assert!(!with(0x0000, 0x2496));
}

#[test]
fn rows_with_explicit_layout() {
    let (s, b, g) = (strings(), blobs(), guids());
    let heaps = Heaps { strings: Some(&s), blobs: Some(&b), guids: Some(&g) };
    let mut class = ClassLayout::blank();
    class.parse(&vec![0x08, 0x00, 0x40, 0x30, 0x20, 0x10, 0x02, 0x00], &small(), &heaps).unwrap();
    assert_eq!(class.packing_size, 8);
    assert_eq!(class.class_size, 0x1020_3040);
    assert_eq!((class.parent.table, class.parent.row_index), ("TypeDef", 2));
    let mut field = FieldLayout::blank();
    field.parse(&vec![0x10, 0x00, 0x00, 0x00, 0x01, 0x00], &small(), &heaps).unwrap();
    assert_eq!(field.offset, 16);
    assert_eq!((field.field.table, field.field.row_index), ("Field", 1));
}

#[test]
fn rows_that_are_refused() {
    let (s, b, g) = (strings(), blobs(), guids());
    let heaps = Heaps { strings: Some(&s), blobs: Some(&b), guids: Some(&g) };
    let layout = small();
    // too few bytes
    assert_eq!(Field::blank().parse(&vec![0x16, 0x00, 0x12], &layout, &heaps), Err(Error::NotEnoughData(6, 3)));
    assert_eq!(Module::blank().parse(&vec![], &layout, &heaps), Err(Error::NotEnoughData(10, 0)));
    // a heap that the image does not have
    let no_strings = Heaps { strings: None, blobs: Some(&b), guids: Some(&g) };
    assert_eq!(
        Field::blank().parse(&vec![0x16, 0x00, 0x12, 0x00, 0x06, 0x00], &layout, &no_strings),
        Err(Error::RefToUndefinedHeap("string"))
    );
    let no_blobs = Heaps { strings: Some(&s), blobs: None, guids: None };
    assert_eq!(
        Field::blank().parse(&vec![0x16, 0x00, 0x12, 0x00, 0x06, 0x00], &layout, &no_blobs),
        Err(Error::RefToUndefinedHeap("blob"))
    );
    assert_eq!(
        Module::blank().parse(&vec![0; 10], &layout, &no_blobs),
        Err(Error::RefToUndefinedHeap("guid"))
    );
    // a heap of another kind
    let swapped = Heaps { strings: Some(&b), blobs: Some(&s), guids: Some(&g) };
    assert_eq!(
        Field::blank().parse(&vec![0x16, 0x00, 0x12, 0x00, 0x06, 0x00], &layout, &swapped),
        Err(Error::TryReadStringFromNotStringHeap)
    );
    // indices past the heaps
    assert_eq!(
        Field::blank().parse(&vec![0x16, 0x00, 0x00, 0x01, 0x06, 0x00], &layout, &heaps),
        Err(Error::StringHeapReadOutOfBound(0x100, 30))
    );
    assert_eq!(
        Field::blank().parse(&vec![0x16, 0x00, 0x12, 0x00, 0x08, 0x00], &layout, &heaps),
        Err(Error::BlobHeapReadOutOfBound(8, 8))
    );
    assert_eq!(
        Module::blank().parse(&vec![0, 0, 0, 0, 2, 0, 0, 0, 0, 0], &layout, &heaps),
        Err(Error::GuidHeapReadOutOfBound(2, 16))
    );
    // a reference into a table that is not present
    assert_eq!(
        TypeRef::blank().parse(&vec![0x06, 0x00, 0x12, 0x00, 0x17, 0x00], &layout, &heaps),
        Err(Error::CodedIndexWithUndefinedTable("AssemblyRef"))
    );
    // kinds of rows without a reading
    assert_eq!(EventPtr::blank().parse(&vec![], &layout, &heaps), Err(Error::NotImplementedError));
    assert_eq!(PropertyPtr::blank().parse(&vec![1, 2], &layout, &heaps), Err(Error::NotImplementedError));
    assert_eq!(Unused::blank().parse(&vec![], &layout, &heaps), Err(Error::NotImplementedError));
    assert_eq!(MaxTable::blank().parse(&vec![], &layout, &heaps), Err(Error::NotImplementedError));
}

#[test]
fn columns_of_a_row() {
    let (s, b, g) = (strings(), blobs(), guids());
    let heaps = Heaps { strings: Some(&s), blobs: Some(&b), guids: Some(&g) };
    let columns = vec![
        Column::Fixed(1),
        Column::Strings,
        Column::Blobs,
        Column::Guids,
        Column::Index("Field"),
        Column::Coded(CodedKind::TypeDefOrRef),
        Column::Skipped("Param"),
        Column::Fixed(4),
    ];
    let data = [0x2A, 0x0A, 0x00, 0x01, 0x00, 0x01, 0x00, 0x02, 0x00, 0x09, 0x00, 0xFF, 0xFF, 0x78, 0x56, 0x34, 0x12, 0xEE];
    let values = decode_row(&columns, &data, &small(), &heaps).unwrap();
    assert_eq!(values.len(), 8);
    assert!(matches!(values[0], Value::Number(0x2A)));
    assert!(matches!(&values[1], Value::Text(t) if t == "Program"));
    assert!(matches!(&values[2], Value::Bytes(b) if b == &[0x00, 0x00, 0x01]));
    assert!(matches!(values[3], Value::Id(g) if g.value == 0x1011_1213_1415_1617_1819_1A1B_1C1D_1E1F));
    assert!(matches!(values[4], Value::Row("Field", 2)));
    assert!(matches!(values[5], Value::Row("TypeRef", 2)));
    assert!(matches!(values[6], Value::Nothing));
    assert!(matches!(values[7], Value::Number(0x1234_5678)));
    assert_eq!(decode_row(&columns, &data[..17], &small(), &heaps).unwrap().len(), 8);
    assert_eq!(decode_row(&columns, &data[..16], &small(), &heaps).err(), Some(Error::NotEnoughData(17, 16)));
}

#[test]
fn table_gets_its_bytes_row_by_row() {
    let layout = small();
    let mut table = MDTable::<Field>::new("Field", &2, 2, 2, 2, &layout.tables_row_counts).unwrap();
    assert_eq!(table.name(), "Field");
    assert_eq!(table.row_count(), 2);
    assert_eq!(table.row_size(), 6);
    let data: Vec<u8> = vec![0x16, 0x00, 0x12, 0x00, 0x06, 0x00, 0x01, 0x00, 0x0A, 0x00, 0x01, 0x00, 0xEE, 0xEE];
    table.set_data(&data).unwrap();
    assert_eq!(table.get_row(0).unwrap().data, &data[0..6]);
    assert_eq!(table.get_row(1).unwrap().data, &data[6..12]);
    let total: usize = table.table.iter().map(|row| row.data.len()).sum();
    assert_eq!(total, table.row_count() * table.row_size());
    assert_eq!(table.get_row(2).err(), Some(Error::RowIndexOutOfBound(2, 2)));
    assert_eq!(table.set_data(&data[..11].to_vec()), Err(Error::NotEnoughData(12, 11)));
    // nothing was changed
    assert_eq!(table.get_row(1).unwrap().data, &data[6..12]);
    let empty = MDTable::<Field>::new("Field", &0, 2, 2, 2, &layout.tables_row_counts).unwrap();
    assert_eq!(empty.row_size(), 0);
    assert_eq!(empty.row_count(), 0);
}

#[test]
fn table_rows_are_read_in_order() {
    let (s, b, g) = (strings(), blobs(), guids());
    let heaps = Heaps { strings: Some(&s), blobs: Some(&b), guids: Some(&g) };
    let layout = small();
    let mut table = MDTable::<Field>::new("Field", &2, 2, 2, 2, &layout.tables_row_counts).unwrap();
    table.set_data(&vec![0x16, 0x00, 0x12, 0x00, 0x06, 0x00, 0x01, 0x00, 0x0A, 0x00, 0x01, 0x00]).unwrap();
    table.parse_rows(&layout, &heaps).unwrap();
    assert_eq!(table.get_row(0).unwrap().get_row().name, "Main");
    assert_eq!(table.get_row(1).unwrap().get_row().name, "Program");
    assert_eq!(table.get_row(1).unwrap().get_row().flags, vec![ClrFieldAttr::FieldAccess(CorFieldAccess::Private)]);
    // the first row that is refused decides the error
    let mut table = MDTable::<Field>::new("Field", &2, 2, 2, 2, &layout.tables_row_counts).unwrap();
    table.set_data(&vec![0x16, 0x00, 0x00, 0x02, 0x06, 0x00, 0x01, 0x00, 0x00, 0x03, 0x01, 0x00]).unwrap();
    assert_eq!(table.parse_rows(&layout, &heaps), Err(Error::StringHeapReadOutOfBound(0x200, 30)));
}

#[test]
fn lists_of_owned_rows() {
    let (s, b, g) = (strings(), blobs(), guids());
    let heaps = Heaps { strings: Some(&s), blobs: Some(&b), guids: Some(&g) };
    let layout = layout(&[("TypeRef", 1), ("TypeDef", 3), ("Field", 4), ("MethodDef", 5)]);
    let mut table = MDTable::<TypeDef>::new("TypeDef", &3, 2, 2, 2, &layout.tables_row_counts).unwrap();
    let mut data = Vec::new();
    for (fields, methods) in [(1u16, 1u16), (1, 3), (4, 6)] {
        data.extend([0x00, 0x00, 0x00, 0x00, 0x0A, 0x00, 0x00, 0x00, 0x00, 0x00]);
        data.extend(fields.to_le_bytes());
        data.extend(methods.to_le_bytes());
    }
    table.set_data(&data).unwrap();
    table.parse_rows(&layout, &heaps).unwrap();
    let firsts: Vec<usize> = table.table.iter().map(|row| row.row.field_list[0].row_index).collect();
    assert_eq!(firsts, vec![1, 1, 4]);
    table.complete_rows(&layout).unwrap();
    let rows = |list: &Vec<dnfile::stream::meta_data_tables::mdtables::codedindex::SimpleCodedIndex>| {
        list.iter().map(|index| (index.table, index.row_index)).collect::<Vec<_>>()
    };
    assert_eq!(rows(&table.table[0].row.field_list), vec![]);
    assert_eq!(rows(&table.table[0].row.method_list), vec![("MethodDef", 1), ("MethodDef", 2)]);
    assert_eq!(rows(&table.table[1].row.field_list), vec![("Field", 1), ("Field", 2), ("Field", 3)]);
    assert_eq!(rows(&table.table[1].row.method_list), vec![("MethodDef", 3), ("MethodDef", 4), ("MethodDef", 5)]);
    // the last row owns what is left
    assert_eq!(rows(&table.table[2].row.field_list), vec![("Field", 4)]);
    assert_eq!(rows(&table.table[2].row.method_list), vec![]);
    assert_eq!(table.table[1].row.name, "Program");
}

#[test]
fn runs_of_rows() {
    let rows = |first, next, count| {
        run_list("Field", first, next, count).iter().map(|index| index.row_index).collect::<Vec<_>>()
    };
    assert_eq!(rows(1, Some(4), 10), vec![1, 2, 3]);
    assert_eq!(rows(2, None, 5), vec![2, 3, 4, 5]);
    assert_eq!(rows(3, Some(3), 10), Vec::<usize>::new());
    assert_eq!(rows(3, Some(20), 5), vec![3, 4, 5]);
    assert_eq!(rows(6, None, 5), Vec::<usize>::new());
    assert_eq!(rows(5, None, 5), vec![5]);
    assert_eq!(rows(1, Some(0), 5), Vec::<usize>::new());
    assert_eq!(rows(0, Some(2), 5), vec![0, 1]);
    let list = run_list("Event", 2, Some(4), 9);
    assert!(list.iter().all(|index| index.table == "Event" && index.tag_bits == 0));
}

#[test]
fn row_without_bytes() {
    let layout = small();
    let mut row = MDTableRow::<Field>::new(2, 2, 2, &layout.tables_row_counts);
    assert!(row.data.is_empty());
    assert_eq!(row.size(), 6);
    row.set_data(&[1, 2, 3, 4, 5, 6]).unwrap();
    assert_eq!(row.data, vec![1, 2, 3, 4, 5, 6]);
}

fn tables_stream(heap_sizes: u8, valid: u64, sorted: u64, counts: &[u32]) -> Vec<u8> {
    let mut data = vec![0, 0, 0, 0, 2, 0, heap_sizes, 1];
    data.extend(valid.to_le_bytes());
    data.extend(sorted.to_le_bytes());
    for count in counts {
        data.extend(count.to_le_bytes());
    }
    data
}

#[test]
fn tables_stream_header() {
    let data = tables_stream(0x05, 0x0000_0009_0000_0057, 0x0000_1600_0000_0000, &[1, 2, 3, 4, 5, 6, 7]);
    let header = MDTablesStruct::parse(&data).unwrap();
    assert_eq!(header.reserved_1, 0);
    assert_eq!((header.major_version, header.minor_version), (2, 0));
    assert_eq!(header.heap_offset_sizes, 5);
    assert_eq!(header.reserved_2, 1);
    assert_eq!(header.mask_valid, 0x0000_0009_0000_0057);
    assert_eq!(header.mask_sorted, 0x0000_1600_0000_0000);
    assert_eq!(header.strings_offset_size(), 4);
    assert_eq!(header.guids_offset_size(), 2);
    assert_eq!(header.blobs_offset_size(), 4);
    assert!(bit(header.mask_valid, 0) && bit(header.mask_valid, 35) && !bit(header.mask_valid, 3));
    assert_eq!(MDTablesStruct::parse(&data[..23]), Err(Error::NotEnoughData(24, 23)));
}

#[test]
fn tables_stream_layout() {
    let data = tables_stream(0x00, 0x0000_0009_0000_0057, 0, &[1, 2, 3, 4, 5, 6, 7]);
    let header = MDTablesStruct::parse(&data).unwrap();
    let (layout, start) = header.layout(&data).unwrap();
    assert_eq!(start, 24 + 7 * 4);
    assert_eq!((layout.str_offset_size, layout.guids_offset_size, layout.blobs_offset_size), (2, 2, 2));
    let mut counts = vec![0usize; 64];
    for (table, count) in [(0, 1), (1, 2), (2, 3), (4, 4), (6, 5), (32, 6), (35, 7)] {
        counts[table] = count;
    }
    assert_eq!(layout.tables_row_counts, counts);
    let present: Vec<usize> = (0..64).filter(|i| layout.tables_present[*i]).collect();
    assert_eq!(present, vec![0, 1, 2, 4, 6, 32, 35]);
    // a count is missing
    assert_eq!(header.layout(&data[..data.len() - 1]).err(), Some(Error::NotEnoughData(52, 51)));
}

#[test]
fn tables_stream_with_extra_data_and_unknown_tables() {
    let mut data = tables_stream(0x47, 0x8000_2000_0000_0001, 0, &[9, 8, 7]);
    data.extend([0xAA; 4]);
    let header = MDTablesStruct::parse(&data).unwrap();
    let (layout, start) = header.layout(&data).unwrap();
    assert_eq!(start, 24 + 3 * 4 + 4);
    assert_eq!((layout.str_offset_size, layout.guids_offset_size, layout.blobs_offset_size), (4, 4, 4));
    assert_eq!(layout.tables_row_counts[0], 9);
    assert_eq!(layout.tables_row_counts[45], 8);
    assert_eq!(layout.tables_row_counts[63], 7);
    // table 45 has a row count, but there is no such kind of table
    assert!(layout.tables_present[0] && !layout.tables_present[45] && layout.tables_present[63]);
    assert_eq!(header.layout(&data[..39]).err(), Some(Error::NotEnoughData(40, 39)));
}

#[test]
fn rows_with_nothing_read_into_them() {
    let module = Module::blank();
    assert_eq!(module.generation, 0);
    assert!(module.name.is_empty());
    assert!(module.mvid.is_nil());
    let type_def = TypeDef::blank();
    assert_eq!(type_def.flags.visibility, CorTypeVisibility::NotPublic);
    assert_eq!((type_def.extends.table, type_def.extends.row_index, type_def.extends.tag_bits), ("", 0, 2));
    assert_eq!(type_def.extends.table_names, CodedKind::TypeDefOrRef.names());
    assert!(type_def.field_list.is_empty() && type_def.method_list.is_empty());
    let method = MethodDef::blank();
    assert_eq!(method.rva, 0);
    assert!(method.flags.is_empty() && method.impl_flags.is_empty());
    // a method without flags has no code type, and so no body
    assert!(!has_body(&method));
    let layout = FieldLayout::blank();
    assert_eq!((layout.offset, layout.field.table, layout.field.row_index), (0, "", 0));
}

#[test]
fn row_is_changed_in_its_place() {
    let layout = small();
    let mut table = MDTable::<Field>::new("Field", &2, 2, 2, 2, &layout.tables_row_counts).unwrap();
    table.get_mut_row(1).unwrap().row.name = "changed".to_string();
    table.get_mut_row(0).unwrap().set_data(&[1, 2, 3, 4, 5, 6]).unwrap();
    assert_eq!(table.get_row(1).unwrap().get_row().name, "changed");
    assert_eq!(table.get_row(0).unwrap().data, vec![1, 2, 3, 4, 5, 6]);
    assert!(table.get_row(0).unwrap().get_row().name.is_empty());
    assert_eq!(table.get_mut_row(2).err(), Some(Error::RowIndexOutOfBound(2, 2)));
}
