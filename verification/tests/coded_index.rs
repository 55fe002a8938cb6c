use dnfile::error::Error;
use dnfile::stream::meta_data_tables::mdtables::codedindex::{
    clr_coded_index_struct_size, decode_coded_index, power_of_two, CodedIndex, CodedKind,
    CustomAttributeType, HasCustomAttribute, ResolutionScope, SimpleCodedIndex, TypeDefOrRef,
};
use dnfile::stream::meta_data_tables::mdtables::{
    table_index_2_name, table_name_2_index, TableLayout,
};

fn counts(of: &[(&'static str, usize)]) -> Vec<usize> {
    let mut counts = vec![0usize; 64];
    for (name, count) in of {
        counts[table_name_2_index(name).unwrap()] = *count;
    }
    counts
}

fn layout(of: &[(&'static str, usize)]) -> TableLayout {
    let counts = counts(of);
    let mut present = vec![false; 64];
    for (name, _) in of {
        present[table_name_2_index(name).unwrap()] = true;
    }
    TableLayout {
        str_offset_size: 2,
        guids_offset_size: 2,
        blobs_offset_size: 2,
        tables_row_counts: counts,
        tables_present: present,
    }
}

#[test]
fn coded_index_width() {
    let names = ["TypeDef", "TypeRef", "TypeSpec"];
    let small = counts(&[("TypeDef", 10), ("TypeRef", 5), ("TypeSpec", 2)]);
    assert_eq!(clr_coded_index_struct_size(2, &names, &small), 2);
    let large = counts(&[("TypeDef", 20000), ("TypeRef", 5), ("TypeSpec", 2)]);
    assert_eq!(clr_coded_index_struct_size(2, &names, &large), 4);
}

#[test]
fn coded_index_width_at_the_limit() {
    let names = ["TypeDef", "TypeRef", "TypeSpec"];
    assert_eq!(clr_coded_index_struct_size(2, &names, &counts(&[("TypeRef", 16384)])), 2);
    assert_eq!(clr_coded_index_struct_size(2, &names, &counts(&[("TypeRef", 16385)])), 4);
    assert_eq!(clr_coded_index_struct_size(0, &["Field"], &counts(&[("Field", 65536)])), 2);
    assert_eq!(clr_coded_index_struct_size(0, &["Field"], &counts(&[("Field", 65537)])), 4);
    let attribute = HasCustomAttribute::names();
    assert_eq!(clr_coded_index_struct_size(5, &attribute, &counts(&[("Assembly", 2048)])), 2);
    assert_eq!(clr_coded_index_struct_size(5, &attribute, &counts(&[("Assembly", 2049)])), 4);
    // a table that the kind does not point to does not count
    assert_eq!(clr_coded_index_struct_size(2, &names, &counts(&[("Field", 70000)])), 2);
    assert_eq!(clr_coded_index_struct_size(2, &[], &counts(&[("Field", 70000)])), 2);
}

#[test]
fn powers_of_two() {
    assert_eq!(power_of_two(0), 1);
    assert_eq!(power_of_two(1), 2);
    assert_eq!(power_of_two(5), 32);
    assert_eq!(power_of_two(14), 16384);
    assert_eq!(power_of_two(16), 65536);
}

#[test]
fn coded_index_kinds() {
    assert_eq!(CodedKind::TypeDefOrRef.tag_bits(), 2);
    assert_eq!(CodedKind::TypeDefOrRef.names(), vec!["TypeDef", "TypeRef", "TypeSpec"]);
    assert_eq!(CodedKind::HasCustomAttribute.tag_bits(), 5);
    assert_eq!(CodedKind::HasCustomAttribute.names().len(), 21);
    assert_eq!(CodedKind::HasFieldMarshall.tag_bits(), 1);
    assert_eq!(CodedKind::MemberRefParent.tag_bits(), 3);
    assert_eq!(
        CodedKind::MemberRefParent.names(),
        vec!["TypeDef", "TypeRef", "ModuleRef", "MethodDef", "TypeSpec"]
    );
    assert_eq!(
        CodedKind::ResolutionScope.names(),
        vec!["Module", "ModuleRef", "AssemblyRef", "TypeRef"]
    );
    assert_eq!(
        CodedKind::CustomAttributeType.names(),
        vec!["Unused", "Unused", "MethodDef", "MemberRef", "Unused"]
    );
    let scope = ResolutionScope::default();
    assert_eq!(scope.tag_bits, 2);
    assert_eq!(scope.row_index, 0);
    assert_eq!(scope.table, "");
    assert_eq!(scope.table_names, CodedKind::ResolutionScope.names());
}

#[test]
fn coded_index_decoding() {
    let layout = layout(&[("TypeDef", 10), ("TypeRef", 5)]);
    let names = ["TypeDef", "TypeRef", "TypeSpec"];
    // row 10 of the table of tag 1
    assert_eq!(decode_coded_index(2, &names, &[0x29, 0x00], &layout), Ok(("TypeRef", 10)));
    assert_eq!(decode_coded_index(2, &names, &[0x28, 0x00], &layout), Ok(("TypeDef", 10)));
    assert_eq!(decode_coded_index(2, &names, &[0x00, 0x00], &layout), Ok(("TypeDef", 0)));
    assert_eq!(
        decode_coded_index(2, &names, &[0x05, 0x00, 0x01, 0x00], &layout),
        Ok(("TypeRef", 0x4001))
    );
    assert_eq!(decode_coded_index(0, &["TypeRef"], &[0x34, 0x12], &layout), Ok(("TypeRef", 0x1234)));
}

#[test]
fn coded_index_with_undefined_table() {
    let layout = layout(&[("TypeDef", 10), ("TypeRef", 5), ("MethodDef", 3)]);
    let names = ["TypeDef", "TypeRef", "TypeSpec"];
    // the table of tag 2 is not present
    assert_eq!(
        decode_coded_index(2, &names, &[0x06, 0x00], &layout),
        Err(Error::CodedIndexWithUndefinedTable("TypeSpec"))
    );
    // tag 3 has no table
    assert_eq!(
        decode_coded_index(2, &names, &[0x07, 0x00], &layout),
        Err(Error::CodedIndexWithUndefinedTable("Unused"))
    );
    // an unused slot is refused, a used one of the same kind is not
    let kind = CustomAttributeType::names();
    assert_eq!(
        decode_coded_index(3, &kind, &[0x08, 0x00], &layout),
        Err(Error::CodedIndexWithUndefinedTable("Unused"))
    );
    assert_eq!(decode_coded_index(3, &kind, &[0x0A, 0x00], &layout), Ok(("MethodDef", 1)));
    assert_eq!(
        decode_coded_index(0, &["Field"], &[0x01, 0x00], &layout),
        Err(Error::CodedIndexWithUndefinedTable("Field"))
    );
    assert_eq!(
        decode_coded_index(0, &["NoSuchTable"], &[0x01, 0x00], &layout),
        Err(Error::CodedIndexWithUndefinedTable("NoSuchTable"))
    );
    assert_eq!(
        decode_coded_index(2, &names, &[0x01, 0x00, 0x00], &layout),
        Err(Error::CantReadUsizeFromBytesLen(3))
    );
}

#[test]
fn reserved_tables_are_never_referred_to() {
    let mut layout = layout(&[("TypeDef", 10)]);
    layout.tables_present[62] = true;
    layout.tables_present[63] = true;
    assert_eq!(
        decode_coded_index(0, &["Unused"], &[0x01, 0x00], &layout),
        Err(Error::CodedIndexWithUndefinedTable("Unused"))
    );
    assert_eq!(
        decode_coded_index(0, &["MaxTable"], &[0x01, 0x00], &layout),
        Err(Error::CodedIndexWithUndefinedTable("MaxTable"))
    );
}

#[test]
fn decoded_index_points_into_a_present_table() {
    let of = [("TypeDef", 10usize), ("TypeRef", 5), ("TypeSpec", 1)];
    let layout = layout(&of);
    let names = ["TypeDef", "TypeRef", "TypeSpec"];
    for value in 0u16..0x40 {
        let (table, row) = decode_coded_index(2, &names, &value.to_le_bytes(), &layout).unwrap_or(("", 0));
        if table.is_empty() {
            // only the tag without a table is refused here
            assert_eq!(value & 3, 3);
            continue;
        }
        let number = table_name_2_index(table).unwrap();
        assert!(layout.tables_present[number]);
        assert_eq!(row, (value >> 2) as usize);
        assert_eq!(table, names[(value & 3) as usize]);
    }
}

#[test]
fn simple_coded_index() {
    let layout = layout(&[("Field", 3)]);
    let index = SimpleCodedIndex::new(vec!["Field"], 0, &[0x02, 0x00], &layout).unwrap();
    assert_eq!(index.table, "Field");
    assert_eq!(index.row_index, 2);
    assert_eq!(index.tag_bits, 0);
    assert_eq!(index.table_names, vec!["Field"]);
    assert_eq!(
        SimpleCodedIndex::new(vec!["Param"], 0, &[0x02, 0x00], &layout).err(),
        Some(Error::CodedIndexWithUndefinedTable("Param"))
    );
    let made = SimpleCodedIndex::to_row("MethodDef", 7);
    assert_eq!((made.table, made.row_index, made.tag_bits), ("MethodDef", 7, 0));
    let none = SimpleCodedIndex::default();
    assert_eq!((none.table, none.row_index), ("", 0));
    assert!(none.table_names.is_empty());
}

#[test]
fn coded_index_set() {
    let layout = layout(&[("TypeDef", 10), ("TypeRef", 5)]);
    let mut index = TypeDefOrRef::default();
    assert_eq!(index.get_tag_bits(), 2);
    assert_eq!(index.get_table_name(1), Ok("TypeRef"));
    assert_eq!(index.get_table_name(3), Err(Error::CodedIndexWithUndefinedTable("Unused")));
    index.set(&[0x0D, 0x00], &layout).unwrap();
    assert_eq!(index.table(), "TypeRef");
    assert_eq!(index.row_index(), 3);
    // a reference that is refused leaves the old one
    assert_eq!(index.set(&[0x0E, 0x00], &layout), Err(Error::CodedIndexWithUndefinedTable("TypeSpec")));
    assert_eq!(index.table(), "TypeRef");
    assert_eq!(index.row_index(), 3);
    index.set_row_index(4);
    index.set_table("TypeDef");
    assert_eq!((index.table, index.row_index), ("TypeDef", 4));
}

#[test]
fn table_names_and_numbers() {
    assert_eq!(table_name_2_index("Module"), Ok(0));
    assert_eq!(table_name_2_index("TypeDef"), Ok(2));
    assert_eq!(table_name_2_index("MethodDef"), Ok(6));
    assert_eq!(table_name_2_index("GenericParamConstraint"), Ok(44));
    assert_eq!(table_name_2_index("Unused"), Ok(62));
    assert_eq!(table_name_2_index("MaxTable"), Ok(63));
    assert_eq!(
        table_name_2_index("Nothing"),
        Err(Error::UndefinedMetaDataTableName("Nothing"))
    );
    assert_eq!(table_name_2_index(""), Err(Error::UndefinedMetaDataTableName("")));
    let mut known = 0;
    for number in 0..64 {
        match table_index_2_name(number) {
            Some(name) => {
                known += 1;
                assert_eq!(table_name_2_index(name), Ok(number));
            }
            None => assert!((45..62).contains(&number)),
        }
    }
    assert_eq!(known, 47);
    assert_eq!(table_index_2_name(64), None);
}
