use dnfile::cil::cil::enums::OpCodeValue;
use dnfile::cil::cil::instruction::Operand;
use dnfile::cil::clr::token::Token;
use dnfile::error::Error;
use dnfile::stream::meta_data_tables::mdtables::codedindex::SimpleCodedIndex;
use dnfile::stream::meta_data_tables::mdtables::{
    Field, Heaps, MethodDef, Module, TableRows, TypeDef, TypeRef,
};
use dnfile::stream::{Stream, StreamKind};
use dnfile::pe::{find_offset, in_range, Section};
use dnfile::{ClrHeaderFlags, ClrStruct, DnPe, MetaDataStruct};

const SECTION_RVA: u32 = 0x2000;
const SECTION_AT: usize = 0x200;
const SECTION_SIZE: usize = 0x400;
const METADATA: usize = 0x80;
const TINY_BODY: usize = 0x48;
const FAT_BODY: usize = 0x4C;

fn put(bytes: &mut [u8], at: usize, data: &[u8]) {
    bytes[at..at + data.len()].copy_from_slice(data);
}

fn put16(bytes: &mut [u8], at: usize, value: u16) {
    put(bytes, at, &value.to_le_bytes());
}

fn put32(bytes: &mut [u8], at: usize, value: u32) {
    put(bytes, at, &value.to_le_bytes());
}

/// The headers of a portable executable with one section.
fn container(with_optional_header: bool, with_runtime_header: bool) -> Vec<u8> {
    let mut b = vec![0u8; SECTION_AT + SECTION_SIZE];
    put(&mut b, 0, b"MZ");
    put32(&mut b, 0x3C, 0x80);
    put(&mut b, 0x80, b"PE\0\0");
    put16(&mut b, 0x84, 0x014C);
    put16(&mut b, 0x86, 1);
    put16(&mut b, 0x96, 0x0102);
    let mut sections = 0x98;
    if with_optional_header {
        put16(&mut b, 0x94, 0xE0);
        put16(&mut b, 0x98, 0x010B);
        put32(&mut b, 0xB4, 0x0040_0000);
        put32(&mut b, 0xB8, 0x2000);
        put32(&mut b, 0xBC, 0x200);
        put32(&mut b, 0xD0, 0x4000);
        put32(&mut b, 0xD4, 0x200);
        put16(&mut b, 0xDC, 3);
        put32(&mut b, 0xF4, 16);
        if with_runtime_header {
            put32(&mut b, 0x168, SECTION_RVA);
            put32(&mut b, 0x16C, 72);
        }
        sections = 0x178;
    }
    put(&mut b, sections, b".text\0\0\0");
    put32(&mut b, sections + 8, SECTION_SIZE as u32);
    put32(&mut b, sections + 12, SECTION_RVA);
    put32(&mut b, sections + 16, SECTION_SIZE as u32);
    put32(&mut b, sections + 20, SECTION_AT as u32);
    put32(&mut b, sections + 36, 0x6000_0020);
    b
}

struct Names {
    bytes: Vec<u8>,
}

impl Names {
    fn add(&mut self, name: &str) -> u16 {
        let at = self.bytes.len() as u16;
        self.bytes.extend(name.as_bytes());
        self.bytes.push(0);
        at
    }
}

fn pad4(bytes: &mut Vec<u8>) {
    while bytes.len() % 4 != 0 {
        bytes.push(0);
    }
}

/// The metadata root with its five streams.
fn metadata() -> Vec<u8> {
    metadata_with(None)
}

/// The metadata root with its five streams, and with one more stream of
/// user strings behind them where its bytes are given.
fn metadata_with(more_user_strings: Option<Vec<u8>>) -> Vec<u8> {
    let mut names = Names { bytes: vec![0] };
    let module_type = names.add("<Module>");
    let program = names.add("Program");
    let main = names.add("Main");
    let run = names.add("Run");
    let skip = names.add("Skip");
    let count = names.add("count");
    let total = names.add("total");
    let object = names.add("Object");
    let system = names.add("System");
    let file = names.add("demo.exe");
    let mut strings = names.bytes;
    pad4(&mut strings);

    let mut tables = vec![0, 0, 0, 0, 2, 0, 0, 1];
    tables.extend(0x57u64.to_le_bytes());
    tables.extend(0u64.to_le_bytes());
    for rows in [1u32, 1, 2, 2, 3] {
        tables.extend(rows.to_le_bytes());
    }
    let mut row = |fields: &[(u32, usize)]| {
        for (value, width) in fields {
            tables.extend(&value.to_le_bytes()[..*width]);
        }
    };
    // Module
    row(&[(0, 2), (file as u32, 2), (1, 2), (0, 2), (0, 2)]);
    // TypeRef: System.Object, in this module
    row(&[(4, 2), (object as u32, 2), (system as u32, 2)]);
    // TypeDef: <Module>, and Program, which extends the reference
    row(&[(0, 4), (module_type as u32, 2), (0, 2), (0, 2), (1, 2), (1, 2)]);
    row(&[(0x0010_0001, 4), (program as u32, 2), (0, 2), (5, 2), (1, 2), (1, 2)]);
    // Field
    row(&[(0x0011, 2), (count as u32, 2), (1, 2)]);
    row(&[(0x0016, 2), (total as u32, 2), (1, 2)]);
    // MethodDef: a tiny body, a fat body, and an abstract method
    row(&[(SECTION_RVA + TINY_BODY as u32, 4), (0, 2), (0x0096, 2), (main as u32, 2), (4, 2), (1, 2)]);
    row(&[(SECTION_RVA + FAT_BODY as u32, 4), (0, 2), (0x0086, 2), (run as u32, 2), (4, 2), (1, 2)]);
    row(&[(0, 4), (0, 2), (0x0486, 2), (skip as u32, 2), (4, 2), (1, 2)]);
    pad4(&mut tables);

    let mut user_strings = vec![0x00, 0x05, 0x48, 0x00, 0x69, 0x00, 0x00];
    pad4(&mut user_strings);
    let guids: Vec<u8> = (0xA0..0xB0).collect();
    let mut blobs = vec![0x00, 0x02, 0x06, 0x08, 0x03, 0x00, 0x00, 0x01];
    pad4(&mut blobs);

    let mut streams: Vec<(&str, &Vec<u8>)> = vec![
        ("#~", &tables),
        ("#Strings", &strings),
        ("#US", &user_strings),
        ("#GUID", &guids),
        ("#Blob", &blobs),
    ];
    if let Some(more) = &more_user_strings {
        streams.push(("#US", more));
    }
    let mut root = Vec::new();
    root.extend(0x424A_5342u32.to_le_bytes());
    root.extend(1u16.to_le_bytes());
    root.extend(1u16.to_le_bytes());
    root.extend(0u32.to_le_bytes());
    root.extend(12u32.to_le_bytes());
    root.extend(b"v4.0.30319\0\0");
    root.extend(0u16.to_le_bytes());
    root.extend((streams.len() as u16).to_le_bytes());
    let directory: usize = streams.iter().map(|(name, _)| 8 + name.len() + (4 - name.len() % 4)).sum();
    let mut at = root.len() + directory;
    for (name, data) in &streams {
        root.extend((at as u32).to_le_bytes());
        root.extend((data.len() as u32).to_le_bytes());
        root.extend(name.as_bytes());
        root.extend(&[0u8; 4][..4 - name.len() % 4]);
        at += data.len();
    }
    for (_, data) in &streams {
        root.extend(*data);
    }
    root
}

fn fat_body() -> Vec<u8> {
    let mut bytes = vec![0x1B, 0x30, 0x02, 0x00, 0x0C, 0x00, 0x00, 0x00, 0x01, 0x00, 0x00, 0x11];
    bytes.extend([0x72, 0x01, 0x00, 0x00, 0x70, 0x26, 0x1F, 0xFE, 0x26, 0x2B, 0x00, 0x2A]);
    bytes.extend([0x01, 0x01, 0x00, 0x00]);
    bytes.extend([0x00, 0x00, 0x00, 0x00, 0x09, 0x09, 0x00, 0x02, 0x01, 0x00, 0x00, 0x01]);
    bytes
}

fn image() -> Vec<u8> {
    image_with(metadata())
}

fn image_with(root: Vec<u8>) -> Vec<u8> {
    let mut b = container(true, true);
    let s = SECTION_AT;
    put32(&mut b, s, 72);
    put16(&mut b, s + 4, 2);
    put16(&mut b, s + 6, 5);
    put32(&mut b, s + 8, SECTION_RVA + METADATA as u32);
    put32(&mut b, s + 12, root.len() as u32);
    put32(&mut b, s + 16, 0x0002_0003);
    put32(&mut b, s + 20, 0x0600_0001);
    put(&mut b, s + TINY_BODY, &[0x0A, 0x17, 0x2A]);
    put(&mut b, s + FAT_BODY, &fat_body());
    put(&mut b, s + METADATA, &root);
    b
}

fn open() -> DnPe {
    DnPe::new("demo.exe", image()).unwrap()
}

#[test]
fn image_is_read() {
    let pe = open();
    assert_eq!(pe.name(), "demo.exe");
    let net = pe.net().unwrap();
    assert_eq!(
        net.flags,
        vec![ClrHeaderFlags::IlOnly, ClrHeaderFlags::BitRequired32, ClrHeaderFlags::Prefer32Bit]
    );
    assert_eq!(net.metadata._version, "v4.0.30319\0\0");
    assert_eq!(net.metadata.flags, 0);
    let names: Vec<&str> = net.metadata.streams.iter().map(|s| s.name()).collect();
    assert_eq!(names, vec!["#~", "#Strings", "#US", "#GUID", "#Blob"]);
    let kinds: Vec<StreamKind> = net.metadata.streams.iter().map(|s| s.stream.kind()).collect();
    assert_eq!(
        kinds,
        vec![
            StreamKind::Tables,
            StreamKind::Strings,
            StreamKind::UserStrings,
            StreamKind::Guids,
            StreamKind::Blobs
        ]
    );
    let sizes: Vec<usize> = net.metadata.streams.iter().map(|s| s.stream_table_entry_size).collect();
    assert_eq!(sizes, vec![12, 20, 12, 16, 16]);
    assert_eq!(net.metadata.streams[0].rva, SECTION_RVA + METADATA as u32 + 108);
    assert_eq!(net.metadata.streams[3].size, 16);
}

#[test]
fn addresses_are_resolved() {
    let pe = open();
    assert_eq!(pe.offset(SECTION_RVA), Ok(SECTION_AT));
    assert_eq!(pe.offset(SECTION_RVA + 0x3FF), Ok(SECTION_AT + 0x3FF));
    assert_eq!(pe.offset(SECTION_RVA + 0x400), Err(Error::UnresolvedRvaError(SECTION_RVA + 0x400)));
    assert_eq!(pe.offset(0x1000), Err(Error::UnresolvedRvaError(0x1000)));
    assert_eq!(pe.get_dword_at_rva(&SECTION_RVA), Ok(72));
    assert_eq!(pe.get_dword_at_rva(&(SECTION_RVA + METADATA as u32)), Ok(0x424A_5342));
    assert_eq!(pe.get_word_at_rva(&(SECTION_RVA + 4)), Ok(2));
    assert_eq!(pe.get_vec(&(SECTION_RVA + TINY_BODY as u32), &3), Ok(vec![0x0A, 0x17, 0x2A]));
    assert_eq!(pe.get_vec(&(SECTION_RVA + 0x3FE), &2), Ok(vec![0, 0]));
    assert_eq!(pe.get_vec(&(SECTION_RVA + 0x3FE), &3), Err(Error::NotEnoughData(3, 2)));
    assert_eq!(pe.get_dword_at_rva(&7), Err(Error::UnresolvedRvaError(7)));
    let name = SECTION_RVA + METADATA as u32 + 32 + 12 + 8;
    assert_eq!(pe.get_nullterminated_string(&name), Ok("#Strings".to_string()));
    assert_eq!(pe.get_nullterminated_string(&(name + 3)), Ok("rings".to_string()));
    assert_eq!(pe.name_at(&(name + 8)), Ok(vec![]));
}

#[test]
fn headers_of_the_managed_part() {
    let bytes = image();
    let header = ClrStruct::parse(&bytes, SECTION_AT).unwrap();
    assert_eq!(header.cb, 72);
    assert_eq!((header.majorr_runtime_version, header.minor_runtime_version), (2, 5));
    assert_eq!(header.meta_data_rva, SECTION_RVA + METADATA as u32);
    assert_eq!(header.flags, 0x0002_0003);
    assert_eq!(header.entry_point_token_or_rva, 0x0600_0001);
    assert_eq!(header.managed_native_header_size, 0);
    assert_eq!(ClrStruct::parse(&bytes, bytes.len() - 71), Err(Error::NotEnoughData(72, 71)));
    assert_eq!(ClrStruct::parse(&bytes, bytes.len() + 5), Err(Error::NotEnoughData(72, 0)));
    let root = MetaDataStruct::parse(&bytes, SECTION_AT + METADATA).unwrap();
    assert_eq!(root.signature, 0x424A_5342);
    assert_eq!((root.major_version, root.minor_version), (1, 1));
    assert_eq!(root.version_length, 12);
    assert_eq!(
        MetaDataStruct::parse(&bytes, SECTION_AT),
        Err(Error::UnsupportedBinaryFormat("metadata signature"))
    );
    assert_eq!(MetaDataStruct::parse(&bytes, bytes.len() - 3), Err(Error::NotEnoughData(16, 3)));
}

#[test]
fn tables_of_the_image() {
    let pe = open();
    let net = pe.net().unwrap();
    let module = net.md_table("Module").unwrap();
    assert_eq!((module.number, module.num_rows, module.row_size), (0, 1, 10));
    assert_eq!(module.rva, SECTION_RVA + METADATA as u32 + 108 + 44);
    let row = module.row::<Module>(0).unwrap();
    assert_eq!(row.name, "demo.exe");
    assert_eq!(row.mvid.value, 0xA0A1_A2A3_A4A5_A6A7_A8A9_AAAB_ACAD_AEAF);
    assert!(row.enc_id.is_nil());
    let type_ref = net.md_table("TypeRef").unwrap().row::<TypeRef>(0).unwrap();
    assert_eq!((type_ref.name.as_str(), type_ref.namespace.as_str()), ("Object", "System"));
    assert_eq!((type_ref.resolution_scope.table, type_ref.resolution_scope.row_index), ("Module", 1));
    let fields = net.md_table("Field").unwrap();
    assert_eq!((fields.number, fields.num_rows, fields.row_size), (4, 2, 6));
    assert_eq!(fields.row::<Field>(0).unwrap().name, "count");
    assert_eq!(fields.row::<Field>(1).unwrap().name, "total");
    assert_eq!(fields.row::<Field>(1).unwrap().signature, vec![0x06, 0x08]);
    let methods = net.md_table("MethodDef").unwrap();
    assert_eq!(methods.row_count(), 3);
    assert_eq!(methods.row::<MethodDef>(0).unwrap().name, "Main");
    assert_eq!(methods.row::<MethodDef>(0).unwrap().rva, SECTION_RVA + TINY_BODY as u32);
    assert_eq!(methods.row::<MethodDef>(2).unwrap().name, "Skip");
    assert_eq!(methods.row::<MethodDef>(2).unwrap().signature, vec![0x00, 0x00, 0x01]);
    // rows are asked for by their kind, and counted from zero
    assert_eq!(methods.row::<MethodDef>(3).err(), Some(Error::RowIndexOutOfBound(3, 3)));
    assert_eq!(methods.row::<Field>(0).err(), Some(Error::RowIndexOutOfBound(0, 3)));
    assert_eq!(net.md_table("Param").err(), Some(Error::UndefinedMetaDataTableName("Param")));
    assert_eq!(net.md_table("Nothing").err(), Some(Error::UndefinedMetaDataTableName("Nothing")));
}

#[test]
fn tables_follow_each_other_in_the_stream() {
    let pe = open();
    let net = pe.net().unwrap();
    let tables = match &net.metadata.streams[0].stream {
        Stream::MetaDataTables(stream) => &stream.tables,
        _ => panic!("the first stream holds the tables"),
    };
    let numbers: Vec<usize> = tables.iter().map(|t| t.number).collect();
    assert_eq!(numbers, vec![0, 1, 2, 4, 6]);
    let start = SECTION_RVA + METADATA as u32 + 108 + 24 + 5 * 4;
    let mut at = start;
    for table in tables {
        assert_eq!(table.rva, at);
        at += (table.num_rows * table.row_size) as u32;
        let held = match &table.table {
            TableRows::Module(t) => t.table.iter().map(|r| r.data.len()).sum::<usize>(),
            TableRows::TypeRef(t) => t.table.iter().map(|r| r.data.len()).sum(),
            TableRows::TypeDef(t) => t.table.iter().map(|r| r.data.len()).sum(),
            TableRows::Field(t) => t.table.iter().map(|r| r.data.len()).sum(),
            TableRows::MethodDef(t) => t.table.iter().map(|r| r.data.len()).sum(),
            _ => panic!("no other table is present"),
        };
        assert_eq!(held, table.num_rows * table.row_size);
        assert!(!table.is_sorted);
    }
    assert_eq!(at - start, 10 + 6 + 28 + 12 + 42);
}

#[test]
fn types_own_their_fields_and_methods() {
    let pe = open();
    let net = pe.net().unwrap();
    let types = net.md_table("TypeDef").unwrap();
    let rows = |list: &Vec<SimpleCodedIndex>| {
        list.iter().map(|index| (index.table, index.row_index)).collect::<Vec<_>>()
    };
    let module = types.row::<TypeDef>(0).unwrap();
    assert_eq!(module.name, "<Module>");
    assert_eq!(rows(&module.field_list), vec![]);
    assert_eq!(rows(&module.method_list), vec![]);
    let program = types.row::<TypeDef>(1).unwrap();
    assert_eq!(program.name, "Program");
    assert_eq!(rows(&program.field_list), vec![("Field", 1), ("Field", 2)]);
    assert_eq!(
        rows(&program.method_list),
        vec![("MethodDef", 1), ("MethodDef", 2), ("MethodDef", 3)]
    );
}

#[test]
fn references_are_resolved() {
    let pe = open();
    let net = pe.net().unwrap();
    let program = net.md_table("TypeDef").unwrap().row::<TypeDef>(1).unwrap();
    assert_eq!((program.extends.table, program.extends.row_index), ("TypeRef", 1));
    let base: &TypeRef = net.resolve_coded_index(&program.extends).unwrap();
    assert_eq!(base.name, "Object");
    let first_method: &MethodDef = net.resolve_coded_index(&program.method_list[0]).unwrap();
    assert_eq!(first_method.name, "Main");
    let last_method: &MethodDef = net.resolve_coded_index(&program.method_list[2]).unwrap();
    assert_eq!(last_method.name, "Skip");
    // row zero is no row
    let module = net.md_table("TypeDef").unwrap().row::<TypeDef>(0).unwrap();
    assert_eq!((module.extends.table, module.extends.row_index), ("TypeDef", 0));
    assert_eq!(
        net.resolve_coded_index::<TypeDef, _>(&module.extends).err(),
        Some(Error::RowIndexOutOfBound(0, 2))
    );
    assert_eq!(
        net.resolve_coded_index::<MethodDef, _>(&SimpleCodedIndex::to_row("MethodDef", 4)).err(),
        Some(Error::RowIndexOutOfBound(4, 3))
    );
    assert_eq!(
        net.resolve_coded_index::<Field, _>(&SimpleCodedIndex::to_row("MethodDef", 1)).err(),
        Some(Error::RowIndexOutOfBound(1, 3))
    );
    assert_eq!(
        net.resolve_coded_index::<Field, _>(&SimpleCodedIndex::to_row("Param", 1)).err(),
        Some(Error::UndefinedMetaDataTableName("Param"))
    );
}

#[test]
fn method_bodies_of_the_image() {
    let pe = open();
    let net = pe.net().unwrap();
    let functions = net.functions();
    // the abstract method has no body
    assert_eq!(functions.len(), 2);
    let tiny = &functions[0];
    assert_eq!(tiny.offset, SECTION_AT + TINY_BODY);
    assert_eq!(tiny.size, 3);
    assert_eq!(tiny.instructions.len(), 2);
    assert_eq!(tiny.instructions[1].opcode.value, OpCodeValue::Ret);
    let fat = &functions[1];
    assert_eq!(fat.offset, SECTION_AT + FAT_BODY);
    assert_eq!((fat.header_size, fat.max_stack, fat.code_size), (12, 2, 12));
    assert_eq!(fat.local_var_sig_tok, Some(Token::new(0x1100_0001)));
    assert_eq!(fat.size, 12 + 12 + 16);
    let offsets: Vec<usize> = fat.instructions.iter().map(|i| i.offset).collect();
    assert_eq!(offsets, vec![0, 5, 6, 8, 9, 11]);
    assert_eq!(fat.instructions[0].operand, Operand::StringToken(Token::new(0x7000_0001)));
    assert_eq!(fat.instructions[2].operand, Operand::Int(-2));
    assert_eq!(fat.instructions[4].operand, Operand::Int(11));
    let total: usize = fat.instructions.iter().map(|i| i.size()).sum();
    assert_eq!(total, fat.code_size);
    assert_eq!(fat.exception_handlers.len(), 1);
    let handler = fat.exception_handlers[0];
    assert!(handler.is_catch());
    assert_eq!((handler.try_start, handler.try_end), (0, 9));
    assert_eq!((handler.handler_start, handler.handler_end), (9, 11));
    assert_eq!(handler.catch_type, Some(Token::new(0x0100_0001)));
    let user_string = fat.instructions[0].operand.value().unwrap();
    assert_eq!(net.get_us(Token::new(user_string).rid()), Ok("Hi".to_string()));
}

#[test]
fn every_method_with_a_body_is_read() {
    let pe = open();
    let net = pe.net().unwrap();
    let methods = net.md_table("MethodDef").unwrap();
    let mut with_body = 0;
    for i in 0..methods.row_count() {
        let row = methods.row::<MethodDef>(i).unwrap();
        if dnfile::has_body(row) {
            let f = pe.parse_function(row).unwrap();
            assert_eq!(f.offset, pe.offset(row.rva).unwrap());
            assert_eq!(f.instructions.len(), net.functions()[with_body].instructions.len());
            with_body += 1;
        }
    }
    assert_eq!(with_body, net.functions().len());
    assert_eq!(pe.parse_functions(&net.metadata).unwrap().len(), 2);
}

#[test]
fn a_method_body_that_cannot_be_read_is_an_error() {
    let mut bytes = image();
    // the header byte of the first body selects no format
    bytes[SECTION_AT + TINY_BODY] = 0x08;
    assert_eq!(DnPe::new("demo.exe", bytes).err(), Some(Error::MethodBodyFormatError(0)));
}

#[test]
fn user_strings_of_the_image() {
    let pe = open();
    let net = pe.net().unwrap();
    assert_eq!(net.get_us(1), Ok("Hi".to_string()));
    assert_eq!(net.get_us(0), Ok(String::new()));
    assert_eq!(net.metadata.get_us(1), Ok("Hi".to_string()));
    assert_eq!(net.get_us(100), Err(Error::UserStringHeapReadOutOfBound(100, 8)));
}

#[test]
fn streams_by_name() {
    let pe = open();
    let data = vec![0x00, 0x41, 0x00];
    let made = |name: &str| pe.nnew_clr_stream(&0x2000, &0x70, &3, name, data.clone());
    assert_eq!(made("#~").unwrap().stream.kind(), StreamKind::Tables);
    assert_eq!(made("#-").unwrap().stream.kind(), StreamKind::Tables);
    assert_eq!(made("#Strings").unwrap().stream.kind(), StreamKind::Strings);
    assert_eq!(made("#US").unwrap().stream.kind(), StreamKind::UserStrings);
    assert_eq!(made("#GUID").unwrap().stream.kind(), StreamKind::Guids);
    assert_eq!(made("#Blob").unwrap().stream.kind(), StreamKind::Blobs);
    assert_eq!(made("_").unwrap().stream.kind(), StreamKind::Generic);
    for name in ["", "#", "#strings", "#Strings ", "#Pdb", "__", "#JTD"] {
        assert_eq!(made(name).err(), Some(Error::UndefinedStream));
    }
    let strings = made("#Strings").unwrap();
    assert_eq!(strings.name(), "#Strings");
    assert_eq!(strings.rva, 0x2070);
    assert_eq!(strings.size, 3);
    assert_eq!(strings.stream_table_entry_size, 8 + 4 + 8);
    assert_eq!(made("#US").unwrap().stream_table_entry_size, 3 + 1 + 8);
    assert_eq!(made("#GUID").unwrap().stream_table_entry_size, 5 + 3 + 8);
    assert_eq!(made("_").unwrap().stream_table_entry_size, 1 + 3 + 8);
    assert_eq!(strings.get_string(&[0x01, 0x00]), Ok("A".to_string()));
    assert_eq!(strings.get_string(&[0x01, 0x00, 0x00, 0x00]), Ok("A".to_string()));
    assert_eq!(strings.get_blob(&[0x01, 0x00]), Err(Error::TryReadBlobFromNotBlobHeap));
    assert_eq!(strings.get_guid(&[0x01, 0x00]), Err(Error::TryReadGuidFromNotGuidHeap));
    assert_eq!(made("#Blob").unwrap().get_blob(&[0x00, 0x00]), Ok(vec![]));
    assert_eq!(made("#Blob").unwrap().get_string(&[0x00, 0x00]), Err(Error::TryReadStringFromNotStringHeap));
    assert_eq!(made("#GUID").unwrap().get_guid(&[0x00]).map(|g| g.value), Ok(0));
}

#[test]
fn tables_are_made_by_number() {
    let pe = open();
    let counts = {
        let mut counts = vec![0usize; 64];
        counts[4] = 3;
        counts[2] = 70000;
        counts
    };
    let fields = pe.create_md_table(&4, &counts, true, 2, 2, 4).unwrap();
    assert_eq!((fields.number, fields.num_rows, fields.row_size), (4, 3, 2 + 2 + 4));
    assert!(fields.is_sorted);
    assert_eq!(fields.rva, 0);
    assert!(matches!(fields.table, TableRows::Field(_)));
    assert_eq!(fields.table.name(), "Field");
    assert_eq!(fields.table.kind(), 4);
    let row = fields.get_row::<Field>(2).unwrap();
    assert_eq!((row.str_offset_size, row.guids_offset_size, row.blobs_offset_size), (2, 2, 4));
    assert_eq!(row.tables_row_counts, counts);
    let wide = pe.create_md_table(&4, &counts, true, 4, 2, 2).unwrap();
    assert_eq!(wide.row_size, 2 + 4 + 2);
    assert_eq!(wide.get_row::<Field>(0).unwrap().str_offset_size, 4);
    assert_eq!(wide.get_row::<Field>(0).unwrap().blobs_offset_size, 2);
    let nested = pe.create_md_table(&41, &counts, false, 2, 2, 2).unwrap();
    assert_eq!((nested.num_rows, nested.row_size), (0, 0));
    let reserved = pe.create_md_table(&62, &counts, false, 2, 2, 2).unwrap();
    assert_eq!(reserved.table.name(), "Unused");
    for number in [45usize, 50, 61] {
        assert_eq!(
            pe.create_md_table(&number, &counts, false, 2, 2, 2).err(),
            Some(Error::UndefinedMetaDataTableIndex(number as u32))
        );
    }
    let table = pe.new_mdtable(25, &2, 2, 2, 2, &counts).unwrap();
    // an index into the types is wide, a coded index of methods is not
    assert_eq!(table.row_size(), 4 + 2 + 2);
    assert_eq!(table.name(), "MethodImpl");
    assert_eq!(table.row_count(), 2);
}

#[test]
fn tables_of_a_stream_are_read_again() {
    let pe = open();
    let net = pe.net().unwrap();
    let streams = &net.metadata.streams;
    let heaps = Heaps { strings: Some(&streams[1]), blobs: Some(&streams[4]), guids: Some(&streams[3]) };
    let stream = match &streams[0].stream {
        Stream::MetaDataTables(stream) => stream,
        _ => panic!("the first stream holds the tables"),
    };
    let tables = pe.parse_meta_data_tables(stream, &heaps).unwrap();
    assert_eq!(tables.len(), 5);
    assert_eq!(tables[4].row::<MethodDef>(1).unwrap().name, "Run");
    // without the heap of strings no name can be read
    let none = Heaps { strings: None, blobs: Some(&streams[4]), guids: Some(&streams[3]) };
    assert_eq!(pe.parse_meta_data_tables(stream, &none).err(), Some(Error::RefToUndefinedHeap("string")));
    // a stream that ends within a table
    let mut cut = stream.clone();
    cut.data.truncate(24 + 20 + 10 + 6 + 27);
    assert_eq!(pe.parse_meta_data_tables(&cut, &heaps).err(), Some(Error::NotEnoughData(28, 27)));
    cut.data.truncate(30);
    assert_eq!(pe.parse_meta_data_tables(&cut, &heaps).err(), Some(Error::NotEnoughData(44, 30)));
    cut.data.truncate(3);
    assert_eq!(pe.parse_meta_data_tables(&cut, &heaps).err(), Some(Error::NotEnoughData(24, 3)));
}

#[test]
fn files_that_are_no_managed_executables() {
    assert_eq!(DnPe::new("empty", Vec::new()).err(), Some(Error::ParseError));
    assert_eq!(
        DnPe::new("zeros", vec![0u8; 64]).err(),
        Some(Error::UnsupportedBinaryFormat("main"))
    );
    assert_eq!(
        DnPe::new("native.exe", container(true, false)).err(),
        Some(Error::UnsupportedBinaryFormat("ClR runtime header absence"))
    );
    assert_eq!(
        DnPe::new("object", container(false, false)).err(),
        Some(Error::UnsupportedBinaryFormat("optional header absence"))
    );
    let mut cut = container(true, true);
    cut.truncate(0x100);
    assert_eq!(DnPe::new("cut.exe", cut).err(), Some(Error::ParseError));
}

#[test]
fn metadata_that_is_refused() {
    let mut bytes = image();
    bytes[SECTION_AT + METADATA] = 0x00;
    assert!(DnPe::new("demo.exe", bytes).is_err());
    // a stream with a name that is not known
    let mut bytes = image();
    bytes[SECTION_AT + METADATA + 32 + 12 + 8 + 1] = b's';
    assert!(matches!(
        DnPe::new("demo.exe", bytes).err(),
        Some(Error::UndefinedStream) | Some(Error::ParseError)
    ));
}

#[test]
fn names_that_cannot_be_read() {
    let mut bytes = image();
    let last = bytes.len() - 1;
    bytes[SECTION_AT + 0x3F0..SECTION_AT + 0x3F3].copy_from_slice(&[0x41, 0xFF, 0x42]);
    bytes[last] = 0x41;
    let pe = DnPe::new("demo.exe", bytes).unwrap();
    let malformed = SECTION_RVA + 0x3F0;
    assert_eq!(pe.name_at(&malformed), Ok(vec![0x41, 0xFF, 0x42]));
    assert_eq!(pe.get_nullterminated_string(&malformed), Err(Error::Utf8Error));
    assert_eq!(pe.get_nullterminated_string(&(malformed + 2)), Ok("B".to_string()));
    // a name that runs to the end of the file
    assert_eq!(pe.get_nullterminated_string(&(SECTION_RVA + 0x3FF)), Err(Error::NotEnoughData(1, 0)));
    assert_eq!(pe.get_nullterminated_string(&0x10), Err(Error::UnresolvedRvaError(0x10)));
}

#[test]
fn later_stream_of_a_name_stays() {
    let more = vec![0x00, 0x07, 0x42, 0x00, 0x79, 0x00, 0x65, 0x00, 0x00, 0x00, 0x00, 0x00];
    let pe = DnPe::new("demo.exe", image_with(metadata_with(Some(more)))).unwrap();
    let net = pe.net().unwrap();
    let names: Vec<&str> = net.metadata.streams.iter().map(|s| s.name()).collect();
    assert_eq!(names, vec!["#~", "#Strings", "#US", "#GUID", "#Blob"]);
    assert_eq!(net.get_us(1), Ok("Bye".to_string()));
    assert_eq!(net.metadata.streams[2].size, 12);
    // the tables are read with the heaps that stay
    assert_eq!(net.md_table("MethodDef").unwrap().row::<MethodDef>(1).unwrap().name, "Run");
    assert_eq!(net.functions().len(), 2);
}

#[test]
fn streams_are_read_from_the_directory() {
    let pe = open();
    let root = SECTION_RVA + METADATA as u32;
    let directory = root + 32;
    let entries = pe.read_directory(&root, &directory, &5).unwrap();
    assert_eq!(entries.len(), 5);
    assert!(matches!(&entries[0].stream, Stream::MetaDataTables(m) if m.tables.is_empty() && m.rva == root + 108));
    let streams = pe.new_streams(&root, &directory, &5).unwrap();
    assert!(matches!(&streams[0].stream, Stream::MetaDataTables(m) if m.tables.len() == 5));
    let mut again = entries;
    pe.read_stream_tables(&mut again).unwrap();
    assert!(matches!(&again[0].stream, Stream::MetaDataTables(m) if m.tables.len() == 5));
    // without the heap of identifiers the row of the module cannot be read
    assert_eq!(pe.read_directory(&root, &directory, &2).unwrap().len(), 2);
    assert_eq!(pe.new_streams(&root, &directory, &2).err(), Some(Error::RefToUndefinedHeap("guid")));
    assert_eq!(pe.new_streams(&root, &directory, &0).unwrap().len(), 0);
    // behind the directory lie the tables, which are no directory entry
    assert!(pe.new_streams(&root, &directory, &6).is_err());
    let strings = pe.new_clr_stream(&(directory + 12), &root).unwrap();
    assert_eq!(strings.name(), "#Strings");
    assert_eq!(strings.stream.kind(), StreamKind::Strings);
    assert_eq!(strings.get_string(&[0x0A, 0x00]), Ok("Program".to_string()));
    assert_eq!(pe.new_clr_stream(&0x10, &root).err(), Some(Error::UnresolvedRvaError(0x10)));
    // an entry that is read from the middle of another points nowhere
    assert!(matches!(
        pe.new_clr_stream(&(directory + 13), &root),
        Err(Error::UnresolvedRvaError(_))
    ));
}

#[test]
fn addresses_are_added_within_their_range() {
    assert_eq!(dnfile::rva_add(0x2000, 0x10), Ok(0x2010));
    assert_eq!(dnfile::rva_add(u32::MAX - 1, 1), Ok(u32::MAX));
    assert_eq!(dnfile::rva_add(u32::MAX, 1), Err(Error::UnresolvedRvaError(u32::MAX)));
    assert_eq!(dnfile::rva_add(5, u32::MAX), Err(Error::UnresolvedRvaError(5)));
}

#[test]
fn metadata_root_of_the_image() {
    let pe = open();
    let root = SECTION_RVA + METADATA as u32;
    let header = MetaDataStruct::parse(&image(), SECTION_AT + METADATA).unwrap();
    let metadata = pe.new_metadata(&root, header).unwrap();
    assert_eq!(metadata._version, "v4.0.30319\0\0");
    assert_eq!(metadata.streams.len(), 5);
    assert_eq!(metadata.md_table("TypeDef").unwrap().num_rows, 2);
    assert_eq!(pe.new_metadata(&(u32::MAX - 10), header).err(), Some(Error::UnresolvedRvaError(u32::MAX - 10)));
    let functions = pe.parse_functions(&metadata).unwrap();
    assert_eq!(functions.len(), 2);
    let clr = ClrStruct::parse(&image(), SECTION_AT).unwrap();
    let net = pe.new_clrdata(clr).unwrap();
    assert_eq!(net.functions.len(), 2);
    assert_eq!(net.flags.len(), 3);
}

#[test]
fn row_of_a_table_is_changed_in_its_place() {
    let pe = open();
    let mut counts = vec![0usize; 64];
    counts[4] = 3;
    let mut fields = pe.create_md_table(&4, &counts, false, 2, 2, 2).unwrap();
    fields.get_mut_row::<Field>(2).unwrap().row.name = "last".to_string();
    assert_eq!(fields.row::<Field>(2).unwrap().name, "last");
    assert!(fields.row::<Field>(1).unwrap().name.is_empty());
    assert_eq!((fields.number, fields.num_rows, fields.row_count()), (4, 3, 3));
    assert_eq!(fields.get_mut_row::<Field>(3).err(), Some(Error::RowIndexOutOfBound(3, 3)));
    assert_eq!(fields.get_mut_row::<MethodDef>(0).err(), Some(Error::RowIndexOutOfBound(0, 3)));
}

#[test]
fn addresses_are_resolved_through_the_sections() {
    let text = Section {
        virtual_address: 0x2000,
        virtual_size: 0x400,
        pointer_to_raw_data: 0x200,
        size_of_raw_data: 0x400,
    };
    assert!(in_range(&text, 0x200));
    let sections = vec![text];
    assert_eq!(find_offset(0x2000, &sections, 0x200), Some(0x200));
    assert_eq!(find_offset(0x2010, &sections, 0x200), Some(0x210));
    assert_eq!(find_offset(0x1FFF, &sections, 0x200), None);
    assert_eq!(find_offset(0x2400, &sections, 0x200), None);
    // an alignment that is no power of two resolves nothing
    assert_eq!(find_offset(0x2010, &sections, 0), None);
    assert_eq!(find_offset(0x2010, &sections, 0x300), None);
    assert_eq!(find_offset(0x2010, &Vec::new(), 0x200), None);
}

#[test]
fn sections_out_of_range_resolve_nothing() {
    let wide = Section {
        virtual_address: 0x2000,
        virtual_size: 0xFFFF_F000,
        pointer_to_raw_data: 0x200,
        size_of_raw_data: 0x400,
    };
    assert!(!in_range(&wide, 0x200));
    let last = Section { virtual_address: 0xFFFF_F000, virtual_size: 0xFFF, ..wide };
    assert!(in_range(&last, 0x200));
    let text = Section { virtual_size: 0x400, ..wide };
    // one section out of range is enough, wherever it stands
    assert_eq!(find_offset(0x2010, &vec![text, wide], 0x200), None);
    assert_eq!(find_offset(0x2010, &vec![wide, text], 0x200), None);
    assert_eq!(find_offset(0x2010, &vec![text, last], 0x200), Some(0x210));

    let mut bytes = image();
    put32(&mut bytes, 0x178 + 8, 0xFFFF_F000);
    assert_eq!(DnPe::new("wide.exe", bytes).err(), Some(Error::UnresolvedRvaError(SECTION_RVA)));
}

#[test]
fn fat_header_with_the_third_bit_set() {
    let mut body = fat_body();
    body[0] |= 0x04;
    let mut bytes = image();
    put(&mut bytes, SECTION_AT + FAT_BODY, &body);
    let pe = DnPe::new("demo.exe", bytes).unwrap();
    let given = open();
    let functions = pe.net().unwrap().functions();
    let expected = given.net().unwrap().functions();
    assert_eq!(functions.len(), expected.len());
    let fat = functions.iter().find(|f| f.flags.flags & 7 == 7).unwrap();
    assert!(fat.flags.is_fat() && !fat.flags.is_tiny() && !fat.flags.fat_format());
    let plain = expected.iter().find(|f| f.flags.is_fat()).unwrap();
    assert_eq!(fat.flags.flags, plain.flags.flags | 4);
    assert_eq!((fat.max_stack, fat.code_size, fat.size), (plain.max_stack, plain.code_size, plain.size));
    assert_eq!(fat.instructions.len(), plain.instructions.len());
}

#[test]
fn bytes_that_are_too_few_change_no_row() {
    let pe = open();
    let mut counts = vec![0usize; 64];
    counts[4] = 2;
    let mut fields = pe.create_md_table(&4, &counts, false, 2, 2, 2).unwrap();
    fields.set_data(&vec![1, 2, 3, 4, 5, 6, 7, 8, 9, 10, 11, 12, 13]).unwrap();
    let short = vec![9u8; 11];
    assert_eq!(fields.set_data(&short).err(), Some(Error::NotEnoughData(12, 11)));
    assert_eq!(fields.get_row::<Field>(0).unwrap().data, vec![1, 2, 3, 4, 5, 6]);
    assert_eq!(fields.get_row::<Field>(1).unwrap().data, vec![7, 8, 9, 10, 11, 12]);
    assert_eq!(pe.parse_rows(&mut fields, &0, &short).err(), Some(Error::NotEnoughData(12, 11)));
    assert_eq!(fields.get_row::<Field>(0).unwrap().data, vec![1, 2, 3, 4, 5, 6]);
    assert_eq!(fields.get_row::<Field>(1).unwrap().data, vec![7, 8, 9, 10, 11, 12]);
    assert_eq!((fields.num_rows, fields.row_size, fields.row_count()), (2, 6, 2));
    pe.parse_rows(&mut fields, &0, &vec![0u8; 12]).unwrap();
    assert_eq!(fields.get_row::<Field>(1).unwrap().data, vec![0u8; 6]);
}
