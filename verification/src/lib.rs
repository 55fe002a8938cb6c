//! Reader for the managed (CLR) part of Windows portable executables: metadata
//! root, streams and heaps, the metadata tables, and CIL method bodies.
use vstd::prelude::*;
use cil::cil::function::reader::{available, Reader};
use cil::cil::function::{spec_function, Function, FunctionView};
use pe::{find_offset, pe_image, pe_image_of, spec_find_offset, Section};
use stream::meta_data_tables::mdtables::codedindex::CodedIndex;
use stream::meta_data_tables::mdtables::enums::{
    select_flags, spec_select_flags, ClrMethodAttr, ClrMethodImpl, CorMethodAttrFlag,
    CorMethodCodeType,
};
use stream::meta_data_tables::mdtables::names::{spec_table_index, table_name_2_index};
use stream::meta_data_tables::mdtables::{Heaps, MDTableRowTrait, MetaDataTable, MethodDef, TableRows};
use stream::string_heap::{name_bytes, name_length};
use stream::{ClrStream, Stream, StreamKind};
use utils::{copy_range, le_u16, le_u16_at, le_u32, le_u32_at, str_eq, string_from_utf8};

pub mod cil;
pub mod error;
pub mod pe;
pub mod stream;
pub mod utils;

verus! {

/// Result of every fallible operation of this crate.
pub type Result<T> = core::result::Result<T, error::Error>;

/// The signature of the metadata root: `BSJB`.
pub const METADATA_SIGNATURE: u32 = 0x424A5342;

/// The size of the runtime header.
pub const CLR_HEADER_SIZE: usize = 72;

/// The size of the fixed start of the metadata root.
pub const METADATA_HEADER_SIZE: usize = 16;

/// The runtime header of an image.
#[derive(Debug, Clone, Copy, PartialEq, Eq, Structural)]
pub struct ClrStruct {
    pub cb: u32,
    pub majorr_runtime_version: u16,
    pub minor_runtime_version: u16,
    pub meta_data_rva: u32,
    pub meta_data_size: u32,
    pub flags: u32,
    pub entry_point_token_or_rva: u32,
    pub resources_rva: u32,
    pub resources_size: u32,
    pub strong_name_signature_rva: u32,
    pub strong_name_signature_size: u32,
    pub code_manager_table_rva: u32,
    pub code_manager_table_size: u32,
    pub v_table_fixups_rva: u32,
    pub v_table_fixups_size: u32,
    pub export_address_table_jumps_rva: u32,
    pub export_address_table_jumps_size: u32,
    pub managed_native_header_rva: u32,
    pub managed_native_header_size: u32,
}

impl ClrStruct {
    /// The runtime header that the 72 bytes from `at` on hold: the size,
    /// the two halves of the runtime version in two bytes each, and then
    /// sixteen fields of four bytes, all with the lowest byte first.
    pub open spec fn spec_parse(data: Seq<u8>, at: int) -> Result<ClrStruct> {
        if available(data, at) < CLR_HEADER_SIZE {
            Err(error::Error::NotEnoughData(CLR_HEADER_SIZE, available(data, at) as usize))
        } else {
            Ok(
                ClrStruct {
                    cb: le_u32_at(data, at) as u32,
                    majorr_runtime_version: le_u16_at(data, at + 4) as u16,
                    minor_runtime_version: le_u16_at(data, at + 6) as u16,
                    meta_data_rva: le_u32_at(data, at + 8) as u32,
                    meta_data_size: le_u32_at(data, at + 12) as u32,
                    flags: le_u32_at(data, at + 16) as u32,
                    entry_point_token_or_rva: le_u32_at(data, at + 20) as u32,
                    resources_rva: le_u32_at(data, at + 24) as u32,
                    resources_size: le_u32_at(data, at + 28) as u32,
                    strong_name_signature_rva: le_u32_at(data, at + 32) as u32,
                    strong_name_signature_size: le_u32_at(data, at + 36) as u32,
                    code_manager_table_rva: le_u32_at(data, at + 40) as u32,
                    code_manager_table_size: le_u32_at(data, at + 44) as u32,
                    v_table_fixups_rva: le_u32_at(data, at + 48) as u32,
                    v_table_fixups_size: le_u32_at(data, at + 52) as u32,
                    export_address_table_jumps_rva: le_u32_at(data, at + 56) as u32,
                    export_address_table_jumps_size: le_u32_at(data, at + 60) as u32,
                    managed_native_header_rva: le_u32_at(data, at + 64) as u32,
                    managed_native_header_size: le_u32_at(data, at + 68) as u32,
                },
            )
        }
    }

    /// Reads the runtime header that starts at `at`.
    pub fn parse(data: &[u8], at: usize) -> (r: Result<ClrStruct>)
        ensures
            r == ClrStruct::spec_parse(data@, at as int),
    {
        let mut reader = Reader::new(data);
        reader.seek(at)?;
        let left = reader.bytes_left();
        if left < CLR_HEADER_SIZE {
            return Err(error::Error::NotEnoughData(CLR_HEADER_SIZE, left));
        }
        Ok(
            ClrStruct {
                cb: reader.read_u32()?,
                majorr_runtime_version: reader.read_u16()?,
                minor_runtime_version: reader.read_u16()?,
                meta_data_rva: reader.read_u32()?,
                meta_data_size: reader.read_u32()?,
                flags: reader.read_u32()?,
                entry_point_token_or_rva: reader.read_u32()?,
                resources_rva: reader.read_u32()?,
                resources_size: reader.read_u32()?,
                strong_name_signature_rva: reader.read_u32()?,
                strong_name_signature_size: reader.read_u32()?,
                code_manager_table_rva: reader.read_u32()?,
                code_manager_table_size: reader.read_u32()?,
                v_table_fixups_rva: reader.read_u32()?,
                v_table_fixups_size: reader.read_u32()?,
                export_address_table_jumps_rva: reader.read_u32()?,
                export_address_table_jumps_size: reader.read_u32()?,
                managed_native_header_rva: reader.read_u32()?,
                managed_native_header_size: reader.read_u32()?,
            },
        )
    }
}

/// The flags of the runtime header.
#[derive(Debug, Clone, Copy, PartialEq, Eq, Structural)]
pub enum ClrHeaderFlags {
    IlOnly,
    BitRequired32,
    IlLibrary,
    StrongNamesSigned,
    NativeEntryPiont,
    TrackDebugData,
    Prefer32Bit,
}

impl ClrHeaderFlags {
    /// The single bits and the flags they stand for, in rising order.
    pub open spec fn spec_bits() -> Seq<(usize, Self)> {
        seq![
            (0x1usize, Self::IlOnly),
            (0x2usize, Self::BitRequired32),
            (0x4usize, Self::IlLibrary),
            (0x8usize, Self::StrongNamesSigned),
            (0x10usize, Self::NativeEntryPiont),
            (0x10000usize, Self::TrackDebugData),
            (0x20000usize, Self::Prefer32Bit),
        ]
    }

    /// The flags that are set in `value`, in rising order and each once.
    pub open spec fn spec_new(value: usize) -> Seq<Self> {
        spec_select_flags(value, Self::spec_bits(), Self::spec_bits().len() as int)
    }

    /// Decodes the flags that are set in `value`.
    pub fn new(value: usize) -> (r: Vec<Self>)
        ensures
            r@ == Self::spec_new(value),
    {
        let mut bits: Vec<(usize, Self)> = Vec::new();
        bits.push((0x1, Self::IlOnly));
        bits.push((0x2, Self::BitRequired32));
        bits.push((0x4, Self::IlLibrary));
        bits.push((0x8, Self::StrongNamesSigned));
        bits.push((0x10, Self::NativeEntryPiont));
        bits.push((0x10000, Self::TrackDebugData));
        bits.push((0x20000, Self::Prefer32Bit));
        assert(bits@ =~= Self::spec_bits());
        select_flags(value, &bits)
    }
}

/// The fixed start of the metadata root.
#[derive(Debug, Clone, Copy, PartialEq, Eq, Structural)]
pub struct MetaDataStruct {
    pub signature: u32,
    pub major_version: u16,
    pub minor_version: u16,
    pub reserved: u32,
    pub version_length: u32,
}

impl MetaDataStruct {
    /// The start of the metadata root that the 16 bytes from `at` on hold.
    /// A signature other than `BSJB` is refused.
    pub open spec fn spec_parse(data: Seq<u8>, at: int) -> Result<MetaDataStruct> {
        if available(data, at) < METADATA_HEADER_SIZE {
            Err(error::Error::NotEnoughData(METADATA_HEADER_SIZE, available(data, at) as usize))
        } else if le_u32_at(data, at) != METADATA_SIGNATURE {
            Err(error::Error::UnsupportedBinaryFormat("metadata signature"))
        } else {
            Ok(
                MetaDataStruct {
                    signature: le_u32_at(data, at) as u32,
                    major_version: le_u16_at(data, at + 4) as u16,
                    minor_version: le_u16_at(data, at + 6) as u16,
                    reserved: le_u32_at(data, at + 8) as u32,
                    version_length: le_u32_at(data, at + 12) as u32,
                },
            )
        }
    }

    /// Reads the start of the metadata root at `at`.
    pub fn parse(data: &[u8], at: usize) -> (r: Result<MetaDataStruct>)
        ensures
            r == MetaDataStruct::spec_parse(data@, at as int),
    {
        let mut reader = Reader::new(data);
        reader.seek(at)?;
        let left = reader.bytes_left();
        if left < METADATA_HEADER_SIZE {
            return Err(error::Error::NotEnoughData(METADATA_HEADER_SIZE, left));
        }
        let signature = reader.read_u32()?;
        if signature != METADATA_SIGNATURE {
            return Err(error::Error::UnsupportedBinaryFormat("metadata signature"));
        }
        Ok(
            MetaDataStruct {
                signature,
                major_version: reader.read_u16()?,
                minor_version: reader.read_u16()?,
                reserved: reader.read_u32()?,
                version_length: reader.read_u32()?,
            },
        )
    }
}

/// The index of the first of the streams from `i` on that is of the kind
/// `kind`.
pub open spec fn spec_find_stream(streams: Seq<ClrStream>, kind: StreamKind, i: int) -> Option<int>
    decreases streams.len() - i,
{
    if i < 0 || i >= streams.len() {
        None
    } else if streams[i].stream.spec_kind() == kind {
        Some(i)
    } else {
        spec_find_stream(streams, kind, i + 1)
    }
}

/// The first stream of a kind lies among the streams and is of that kind.
pub proof fn lemma_find_stream(streams: Seq<ClrStream>, kind: StreamKind, i: int)
    requires
        0 <= i,
    ensures
        spec_find_stream(streams, kind, i) matches Some(k) ==> i <= k < streams.len()
            && streams[k].stream.spec_kind() == kind,
        spec_find_stream(streams, kind, i) is None ==> forall|k: int|
            i <= k < streams.len() ==> (#[trigger] streams[k]).stream.spec_kind() != kind,
    decreases streams.len() - i,
{
    if i < streams.len() && streams[i].stream.spec_kind() != kind {
        lemma_find_stream(streams, kind, i + 1);
    }
}

/// The index of the first of the streams that is of the kind `kind`.
pub fn find_stream(streams: &Vec<ClrStream>, kind: StreamKind) -> (r: Option<usize>)
    ensures
        match r {
            Some(k) => spec_find_stream(streams@, kind, 0) == Some(k as int) && k < streams@.len(),
            None => spec_find_stream(streams@, kind, 0) is None,
        },
{
    let mut i: usize = 0;
    while i < streams.len()
        invariant
            i <= streams.len(),
            spec_find_stream(streams@, kind, 0) == spec_find_stream(streams@, kind, i as int),
        decreases streams.len() - i,
    {
        if streams[i].stream.kind() == kind {
            return Some(i);
        }
        i = i + 1;
    }
    None
}

/// The heaps among the streams: of each kind the first.
pub open spec fn spec_heaps(streams: Seq<ClrStream>) -> Heaps<'static> {
    Heaps {
        strings: match spec_find_stream(streams, StreamKind::Strings, 0) {
            Some(k) => Some(&streams[k]),
            None => None,
        },
        blobs: match spec_find_stream(streams, StreamKind::Blobs, 0) {
            Some(k) => Some(&streams[k]),
            None => None,
        },
        guids: match spec_find_stream(streams, StreamKind::Guids, 0) {
            Some(k) => Some(&streams[k]),
            None => None,
        },
    }
}

/// The heaps among the streams: of each kind the first.
pub fn heaps_of<'a>(streams: &'a Vec<ClrStream>) -> (r: Heaps<'a>)
    ensures
        r == spec_heaps(streams@),
{
    Heaps {
        strings: match find_stream(streams, StreamKind::Strings) {
            Some(k) => Some(&streams[k]),
            None => None,
        },
        blobs: match find_stream(streams, StreamKind::Blobs) {
            Some(k) => Some(&streams[k]),
            None => None,
        },
        guids: match find_stream(streams, StreamKind::Guids) {
            Some(k) => Some(&streams[k]),
            None => None,
        },
    }
}

/// The index of the table with the number `number` among the first `i`
/// of `tables`.
pub open spec fn spec_find_table(tables: Seq<MetaDataTable>, number: usize, i: int) -> Option<int>
    decreases i,
{
    if i <= 0 || i > tables.len() {
        None
    } else if tables[i - 1].number == number {
        Some(i - 1)
    } else {
        spec_find_table(tables, number, i - 1)
    }
}

/// The metadata of an image: the version and the flags of its root, and
/// its streams in the order of the stream directory.
#[derive(Debug, Clone)]
pub struct MetaData {
    pub _version: String,
    pub flags: u16,
    pub streams: Vec<ClrStream>,
}

impl MetaData {
    /// The tables of the first stream of metadata tables.
    pub open spec fn spec_tables(&self) -> Option<Seq<MetaDataTable>> {
        match spec_find_stream(self.streams@, StreamKind::Tables, 0) {
            Some(k) => match self.streams@[k].stream {
                Stream::MetaDataTables(m) => Some(m.tables@),
                _ => None,
            },
            None => None,
        }
    }

    /// The table with the given name: the one with the number of the name
    /// among the tables of the first stream of metadata tables.
    pub open spec fn spec_md_table(&self, name: Seq<char>) -> Option<MetaDataTable> {
        match (self.spec_tables(), spec_table_index(name)) {
            (Some(tables), Some(number)) => match spec_find_table(
                tables,
                number,
                tables.len() as int,
            ) {
                Some(k) => Some(tables[k]),
                None => None,
            },
            _ => None,
        }
    }

    /// The table with the given name.
    pub fn md_table(&self, name: &'static str) -> (r: Result<&MetaDataTable>)
        ensures
            match self.spec_md_table(name@) {
                Some(table) => r == Ok::<&MetaDataTable, error::Error>(&table),
                None => r == Err::<&MetaDataTable, error::Error>(
                    error::Error::UndefinedMetaDataTableName(name),
                ),
            },
    {
        let k = match find_stream(&self.streams, StreamKind::Tables) {
            Some(k) => k,
            None => {
                return Err(error::Error::UndefinedMetaDataTableName(name));
            },
        };
        match &self.streams[k].stream {
            Stream::MetaDataTables(mt) => {
                let number = match table_name_2_index(name) {
                    Ok(number) => number,
                    Err(_) => {
                        return Err(error::Error::UndefinedMetaDataTableName(name));
                    },
                };
                let mut i: usize = mt.tables.len();
                while i > 0
                    invariant
                        i <= mt.tables@.len(),
                        self.spec_tables() == Some(mt.tables@),
                        spec_table_index(name@) == Some(number),
                        spec_find_table(mt.tables@, number, mt.tables@.len() as int)
                            == spec_find_table(mt.tables@, number, i as int),
                    decreases i,
                {
                    if mt.tables[i - 1].number == number {
                        return Ok(&mt.tables[i - 1]);
                    }
                    i = i - 1;
                }
                Err(error::Error::UndefinedMetaDataTableName(name))
            },
            _ => Err(error::Error::UndefinedMetaDataTableName(name)),
        }
    }

    /// What `get_us` gives for the index `rid`: the string literal there in
    /// the first heap of user strings.
    pub open spec fn spec_get_us(&self, rid: usize) -> Result<Seq<char>> {
        match spec_find_stream(self.streams@, StreamKind::UserStrings, 0) {
            Some(k) => match self.streams@[k].stream {
                Stream::UserStringHeap(us) => us.spec_get_us(rid),
                _ => Err(error::Error::UndefinedMetaDataTableName("US")),
            },
            None => Err(error::Error::UndefinedMetaDataTableName("US")),
        }
    }

    /// The string literal at the index `rid` of the heap of user strings.
    pub fn get_us(&self, rid: usize) -> (r: Result<String>)
        ensures
            match r {
                Ok(s) => self.spec_get_us(rid) == Ok::<Seq<char>, error::Error>(s@),
                Err(e) => self.spec_get_us(rid) == Err::<Seq<char>, error::Error>(e),
            },
    {
        match find_stream(&self.streams, StreamKind::UserStrings) {
            Some(k) => match &self.streams[k].stream {
                Stream::UserStringHeap(us) => us.get_us(rid),
                _ => Err(error::Error::UndefinedMetaDataTableName("US")),
            },
            None => Err(error::Error::UndefinedMetaDataTableName("US")),
        }
    }
}

/// What is read of the managed part of an image.
#[derive(Debug, Clone)]
pub struct ClrData {
    pub metadata: MetaData,
    pub flags: Vec<ClrHeaderFlags>,
    pub functions: Vec<Function>,
}

impl ClrData {
    /// The table with the given name.
    pub fn md_table(&self, name: &'static str) -> (r: Result<&MetaDataTable>)
        ensures
            match self.metadata.spec_md_table(name@) {
                Some(table) => r == Ok::<&MetaDataTable, error::Error>(&table),
                None => r == Err::<&MetaDataTable, error::Error>(
                    error::Error::UndefinedMetaDataTableName(name),
                ),
            },
    {
        self.metadata.md_table(name)
    }

    /// The row that `index` refers to: row `index.row_index()`, counted
    /// from one, of the table `index.table()`, where that table holds rows
    /// of the kind `T`.
    ///
    /// A reference to row zero refers to no row and is refused, as is
    /// one past the last row.
    pub fn resolve_coded_index<T: MDTableRowTrait, I: CodedIndex>(&self, index: &I) -> (r: Result<
        &T,
    >)
        ensures
            match self.metadata.spec_md_table(index.spec_table()@) {
                None => r == Err::<&T, error::Error>(
                    error::Error::UndefinedMetaDataTableName(index.spec_table()),
                ),
                Some(table) => match T::spec_pick(&table.table) {
                    Some(rows) => if 1 <= index.spec_row_index() <= rows.table@.len() {
                        r == Ok::<&T, error::Error>(&rows.table@[index.spec_row_index() - 1].row)
                    } else {
                        r == Err::<&T, error::Error>(
                            error::Error::RowIndexOutOfBound(
                                index.spec_row_index(),
                                rows.table@.len() as usize,
                            ),
                        )
                    },
                    None => r == Err::<&T, error::Error>(
                        error::Error::RowIndexOutOfBound(
                            index.spec_row_index(),
                            table.table.spec_row_count() as usize,
                        ),
                    ),
                },
            },
    {
        let table = self.md_table(index.table())?;
        let row_index = index.row_index();
        match T::pick(&table.table) {
            Some(rows) => {
                let count = rows.row_count();
                if row_index == 0 || row_index > count {
                    return Err(error::Error::RowIndexOutOfBound(row_index, count));
                }
                Ok(rows.get_row(row_index - 1)?.get_row())
            },
            None => Err(error::Error::RowIndexOutOfBound(row_index, table.row_count())),
        }
    }

    /// The method bodies of the image, in the order of their methods.
    pub fn functions(&self) -> (r: &Vec<Function>)
        ensures
            r == &self.functions,
    {
        &self.functions
    }

    /// The string literal at the index `rid` of the heap of user strings.
    pub fn get_us(&self, rid: usize) -> (r: Result<String>)
        ensures
            match r {
                Ok(s) => self.metadata.spec_get_us(rid) == Ok::<Seq<char>, error::Error>(s@),
                Err(e) => self.metadata.spec_get_us(rid) == Err::<Seq<char>, error::Error>(e),
            },
    {
        self.metadata.get_us(rid)
    }
}

/// Whether a method has a body to read: its code is CIL, and it is
/// neither abstract nor a platform invoke.
pub open spec fn spec_has_body(row: &MethodDef) -> bool {
    &&& row.impl_flags@.contains(ClrMethodImpl::MethodCodeType(CorMethodCodeType::IL))
    &&& !row.flags@.contains(ClrMethodAttr::AttrFlag(CorMethodAttrFlag::Abstract))
    &&& !row.flags@.contains(ClrMethodAttr::AttrFlag(CorMethodAttrFlag::PinvokeImpl))
}

/// Whether a method has a body to read.
pub fn has_body(row: &MethodDef) -> (r: bool)
    ensures
        r == spec_has_body(row),
{
    let mut il = false;
    let mut i: usize = 0;
    while i < row.impl_flags.len()
        invariant
            i <= row.impl_flags@.len(),
            il == row.impl_flags@.subrange(0, i as int).contains(
                ClrMethodImpl::MethodCodeType(CorMethodCodeType::IL),
            ),
        decreases row.impl_flags@.len() - i,
    {
        let ghost before = row.impl_flags@.subrange(0, i as int);
        if row.impl_flags[i] == ClrMethodImpl::MethodCodeType(CorMethodCodeType::IL) {
            il = true;
        }
        proof {
            assert(row.impl_flags@.subrange(0, i + 1) =~= before.push(row.impl_flags@[i as int]));
            lemma_contains_push(
                before,
                row.impl_flags@[i as int],
                ClrMethodImpl::MethodCodeType(CorMethodCodeType::IL),
            );
        }
        i = i + 1;
    }
    assert(row.impl_flags@.subrange(0, row.impl_flags@.len() as int) =~= row.impl_flags@);
    let mut none = true;
    let mut i: usize = 0;
    while i < row.flags.len()
        invariant
            i <= row.flags@.len(),
            none == (!row.flags@.subrange(0, i as int).contains(
                ClrMethodAttr::AttrFlag(CorMethodAttrFlag::Abstract),
            ) && !row.flags@.subrange(0, i as int).contains(
                ClrMethodAttr::AttrFlag(CorMethodAttrFlag::PinvokeImpl),
            )),
        decreases row.flags@.len() - i,
    {
        let ghost before = row.flags@.subrange(0, i as int);
        if row.flags[i] == ClrMethodAttr::AttrFlag(CorMethodAttrFlag::Abstract) || row.flags[i]
            == ClrMethodAttr::AttrFlag(CorMethodAttrFlag::PinvokeImpl) {
            none = false;
        }
        proof {
            assert(row.flags@.subrange(0, i + 1) =~= before.push(row.flags@[i as int]));
            lemma_contains_push(
                before,
                row.flags@[i as int],
                ClrMethodAttr::AttrFlag(CorMethodAttrFlag::Abstract),
            );
            lemma_contains_push(
                before,
                row.flags@[i as int],
                ClrMethodAttr::AttrFlag(CorMethodAttrFlag::PinvokeImpl),
            );
        }
        i = i + 1;
    }
    assert(row.flags@.subrange(0, row.flags@.len() as int) =~= row.flags@);
    il && none
}

/// A sequence with one more element holds what it held before, and that
/// element.
pub proof fn lemma_contains_push<T>(s: Seq<T>, x: T, wanted: T)
    ensures
        s.push(x).contains(wanted) <==> s.contains(wanted) || x == wanted,
{
    if s.contains(wanted) {
        let k = choose|k: int| 0 <= k < s.len() && s[k] == wanted;
        assert(s.push(x)[k] == wanted);
    }
    if x == wanted {
        assert(s.push(x)[s.len() as int] == wanted);
    }
}

/// A managed portable executable: its bytes, what its container tells,
/// and what is read of its managed part.
#[derive(Debug)]
pub struct DnPe {
    name: String,
    data: Vec<u8>,
    sections: Vec<Section>,
    file_alignment: u32,
    net: Option<ClrData>,
}

impl DnPe {
    /// The name of the file.
    pub closed spec fn spec_name(&self) -> Seq<char> {
        self.name@
    }

    /// The bytes of the file.
    pub closed spec fn bytes(&self) -> Seq<u8> {
        self.data@
    }

    /// The sections of the container.
    pub closed spec fn sections(&self) -> Seq<Section> {
        self.sections@
    }

    /// The file alignment of the container.
    pub closed spec fn alignment(&self) -> u32 {
        self.file_alignment
    }

    /// What is read of the managed part, once it is read.
    pub closed spec fn spec_net(&self) -> Option<ClrData> {
        self.net
    }

    /// The image as it was before its managed part was read.
    pub closed spec fn before_reading(&self) -> DnPe {
        DnPe {
            name: self.name,
            data: self.data,
            sections: self.sections,
            file_alignment: self.file_alignment,
            net: None,
        }
    }

    /// The offset in the file of the relative virtual address `rva`.
    pub open spec fn spec_offset(&self, rva: u32) -> Result<usize> {
        match spec_find_offset(rva, self.sections(), self.alignment()) {
            Some(offset) => Ok(offset),
            None => Err(error::Error::UnresolvedRvaError(rva)),
        }
    }

    /// The `size` bytes at the relative virtual address `rva`.
    pub open spec fn spec_get_vec(&self, rva: u32, size: usize) -> Result<Seq<u8>> {
        match self.spec_offset(rva) {
            Ok(offset) => if offset > self.bytes().len() || available(self.bytes(), offset as int)
                < size {
                Err(
                    error::Error::NotEnoughData(
                        size,
                        available(self.bytes(), offset as int) as usize,
                    ),
                )
            } else {
                Ok(self.bytes().subrange(offset as int, offset + size))
            },
            Err(e) => Err(e),
        }
    }

    /// The four bytes at the relative virtual address `rva`, the lowest
    /// first.
    pub open spec fn spec_dword_at(&self, rva: u32) -> Result<u32> {
        match self.spec_get_vec(rva, 4) {
            Ok(bytes) => Ok(le_u32_at(bytes, 0) as u32),
            Err(e) => Err(e),
        }
    }

    /// The bytes from the relative virtual address `rva` up to the next
    /// NUL byte, which must lie within the file.
    pub open spec fn spec_name_at(&self, rva: u32) -> Result<Seq<u8>> {
        match self.spec_offset(rva) {
            Ok(offset) => {
                let end = offset + name_length(self.bytes(), offset as int);
                if offset >= self.bytes().len() || end >= self.bytes().len() {
                    Err(error::Error::NotEnoughData(1, 0))
                } else {
                    Ok(name_bytes(self.bytes(), offset as int))
                }
            },
            Err(e) => Err(e),
        }
    }

    /// The text at the relative virtual address `rva`, up to the next NUL
    /// byte.
    pub open spec fn spec_string_at(&self, rva: u32) -> Result<Seq<char>> {
        match self.spec_name_at(rva) {
            Ok(bytes) => if vstd::utf8::valid_utf8(bytes) {
                Ok(vstd::utf8::decode_utf8(bytes))
            } else {
                Err(error::Error::Utf8Error)
            },
            Err(e) => Err(e),
        }
    }

    /// The method body at the relative virtual address `rva`.
    pub open spec fn spec_function_at(&self, rva: u32) -> Result<FunctionView> {
        match self.spec_offset(rva) {
            Ok(offset) => spec_function(self.bytes(), offset as int),
            Err(e) => Err(e),
        }
    }

    /// The bodies of the methods from row `i` on that have one, in the
    /// order of the rows. The first body that cannot be read decides the
    /// error.
    pub open spec fn spec_functions(
        &self,
        rows: Seq<stream::meta_data_tables::mdtables::MDTableRow<MethodDef>>,
        i: int,
    ) -> Result<Seq<FunctionView>>
        decreases rows.len() - i,
    {
        if i < 0 || i >= rows.len() {
            Ok(Seq::empty())
        } else if !spec_has_body(&rows[i].row) {
            self.spec_functions(rows, i + 1)
        } else {
            match self.spec_function_at(rows[i].row.rva) {
                Err(e) => Err(e),
                Ok(f) => match self.spec_functions(rows, i + 1) {
                    Err(e) => Err(e),
                    Ok(rest) => Ok(seq![f] + rest),
                },
            }
        }
    }

    /// What is read of the managed part of the image.
    pub fn net(&self) -> (r: Result<&ClrData>)
        ensures
            match self.spec_net() {
                Some(net) => r == Ok::<&ClrData, error::Error>(&net),
                None => r == Err::<&ClrData, error::Error>(error::Error::NotImplementedError),
            },
    {
        match &self.net {
            Some(s) => Ok(s),
            None => Err(error::Error::NotImplementedError),
        }
    }

    /// Reads the managed part of the file with the name `name` and the
    /// bytes `data`.
    ///
    /// The file must be a portable executable with an optional header and
    /// a runtime header.
    pub fn new(name: &str, data: Vec<u8>) -> (r: Result<DnPe>)
        ensures
            match pe_image_of(data@) {
                None => r == Err::<DnPe, error::Error>(error::Error::ParseError),
                Some(None) => r == Err::<DnPe, error::Error>(
                    error::Error::UnsupportedBinaryFormat("main"),
                ),
                Some(Some(image)) => match (image.file_alignment, image.clr_directory) {
                    (None, _) => r == Err::<DnPe, error::Error>(
                        error::Error::UnsupportedBinaryFormat("optional header absence"),
                    ),
                    (Some(_), None) => r == Err::<DnPe, error::Error>(
                        error::Error::UnsupportedBinaryFormat("ClR runtime header absence"),
                    ),
                    (Some(alignment), Some((rva, _))) => match spec_find_offset(
                        rva,
                        image.sections,
                        alignment,
                    ) {
                        None => r == Err::<DnPe, error::Error>(
                            error::Error::UnresolvedRvaError(rva),
                        ),
                        Some(at) => match ClrStruct::spec_parse(data@, at as int) {
                            Err(e) => r == Err::<DnPe, error::Error>(e),
                            Ok(header) => match r {
                                Ok(pe) => {
                                    &&& pe.spec_name() == name@
                                    &&& pe.bytes() == data@
                                    &&& pe.sections() == image.sections
                                    &&& pe.alignment() == alignment
                                    &&& pe.spec_net() matches Some(net)
                                    &&& pe.before_reading().clrdata_result(header, Ok(net))
                                },
                                Err(e) => exists|pe: DnPe|
                                    {
                                        &&& pe.bytes() == data@
                                        &&& pe.sections() == image.sections
                                        &&& pe.alignment() == alignment
                                        &&& #[trigger] pe.clrdata_result(header, Err(e))
                                    },
                            },
                        },
                    },
                },
            },
    {
        let image = match pe_image(data.as_slice()) {
            None => {
                return Err(error::Error::ParseError);
            },
            Some(None) => {
                return Err(error::Error::UnsupportedBinaryFormat("main"));
            },
            Some(Some(image)) => image,
        };
        let file_alignment = match image.file_alignment {
            Some(alignment) => alignment,
            None => {
                return Err(error::Error::UnsupportedBinaryFormat("optional header absence"));
            },
        };
        let clr_rva = match image.clr_directory {
            Some((rva, _)) => rva,
            None => {
                return Err(error::Error::UnsupportedBinaryFormat("ClR runtime header absence"));
            },
        };
        let mut res = DnPe {
            name: name.to_owned(),
            data,
            sections: image.sections,
            file_alignment,
            net: None,
        };
        let at = res.offset(clr_rva)?;
        let clr_struct = ClrStruct::parse(res.data.as_slice(), at)?;
        let ghost before = res;
        let net = match res.new_clrdata(clr_struct) {
            Ok(net) => net,
            Err(e) => {
                proof {
                    assert(res.clrdata_result(clr_struct, Err(e)));
                }
                return Err(e);
            },
        };
        res.net = Some(net);
        proof {
            assert(res.before_reading() == before);
        }
        Ok(res)
    }

    /// The name of the file.
    pub fn name(&self) -> (r: &str)
        ensures
            r@ == self.spec_name(),
    {
        self.name.as_str()
    }

    /// The offset in the file of the relative virtual address `rva`. An
    /// address is resolved only where the fields of every section are in
    /// range; otherwise it counts as unresolved.
    pub fn offset(&self, rva: u32) -> (r: Result<usize>)
        ensures
            r == self.spec_offset(rva),
    {
        match find_offset(rva, &self.sections, self.file_alignment) {
            Some(s) => Ok(s),
            None => Err(error::Error::UnresolvedRvaError(rva)),
        }
    }

    /// The text at the relative virtual address `rva`, up to the next NUL
    /// byte.
    pub fn get_nullterminated_string(&self, rva: &u32) -> (r: Result<String>)
        ensures
            match r {
                Ok(s) => self.spec_string_at(*rva) == Ok::<Seq<char>, error::Error>(s@),
                Err(e) => self.spec_string_at(*rva) == Err::<Seq<char>, error::Error>(e),
            },
    {
        let bytes = self.name_at(rva)?;
        match string_from_utf8(bytes) {
            Some(s) => Ok(s),
            None => Err(error::Error::Utf8Error),
        }
    }

    /// The bytes from the relative virtual address `rva` up to the next
    /// NUL byte.
    pub fn name_at(&self, rva: &u32) -> (r: Result<Vec<u8>>)
        ensures
            match r {
                Ok(b) => self.spec_name_at(*rva) == Ok::<Seq<u8>, error::Error>(b@),
                Err(e) => self.spec_name_at(*rva) == Err::<Seq<u8>, error::Error>(e),
            },
    {
        let offset = self.offset(*rva)?;
        let len = self.data.len();
        if offset >= len {
            return Err(error::Error::NotEnoughData(1, 0));
        }
        let mut end: usize = offset;
        while end < len && self.data[end] != 0
            invariant
                offset <= end <= len,
                len == self.data@.len(),
                name_length(self.data@, offset as int) == (end - offset) + name_length(
                    self.data@,
                    end as int,
                ),
            decreases len - end,
        {
            end = end + 1;
        }
        if end >= len {
            return Err(error::Error::NotEnoughData(1, 0));
        }
        Ok(copy_range(self.data.as_slice(), offset, end))
    }

    /// The `size` bytes at the relative virtual address `rva`.
    pub fn get_vec(&self, rva: &u32, size: &usize) -> (r: Result<Vec<u8>>)
        ensures
            match r {
                Ok(b) => self.spec_get_vec(*rva, *size) == Ok::<Seq<u8>, error::Error>(b@),
                Err(e) => self.spec_get_vec(*rva, *size) == Err::<Seq<u8>, error::Error>(e),
            },
    {
        let offset = self.offset(*rva)?;
        let len = self.data.len();
        if offset > len {
            return Err(error::Error::NotEnoughData(*size, 0));
        }
        let left = len - offset;
        if left < *size {
            return Err(error::Error::NotEnoughData(*size, left));
        }
        Ok(copy_range(self.data.as_slice(), offset, offset + *size))
    }

    /// The four bytes at the relative virtual address `rva`, the lowest
    /// first.
    pub fn get_dword_at_rva(&self, rva: &u32) -> (r: Result<u32>)
        ensures
            r == self.spec_dword_at(*rva),
    {
        let bytes = self.get_vec(rva, &4)?;
        Ok(le_u32(bytes.as_slice()))
    }

    /// The two bytes at the relative virtual address `rva`, the lower
    /// first.
    pub fn get_word_at_rva(&self, rva: &u32) -> (r: Result<u16>)
        ensures
            match self.spec_get_vec(*rva, 2) {
                Ok(bytes) => r == Ok::<u16, error::Error>(le_u16_at(bytes, 0) as u16),
                Err(e) => r == Err::<u16, error::Error>(e),
            },
    {
        let bytes = self.get_vec(rva, &2)?;
        Ok(le_u16(bytes.as_slice()))
    }

    /// Reads the managed part that the runtime header `clr_struct`
    /// describes: the metadata, and the bodies of the methods.
    pub fn new_clrdata(&self, clr_struct: ClrStruct) -> (r: Result<ClrData>)
        ensures
            self.clrdata_result(clr_struct, r),
    {
        let at = self.offset(clr_struct.meta_data_rva)?;
        let metadata_struct = MetaDataStruct::parse(self.data.as_slice(), at)?;
        let metadata = self.new_metadata(&clr_struct.meta_data_rva, metadata_struct)?;
        let flags = ClrHeaderFlags::new(clr_struct.flags as usize);
        let functions = match self.parse_functions(&metadata) {
            Ok(functions) => functions,
            Err(e) => {
                proof {
                    assert(self.metadata_result(
                        clr_struct.meta_data_rva,
                        metadata_struct,
                        Ok(metadata),
                    ));
                    assert(functions_refused(self, &metadata, e));
                }
                return Err(e);
            },
        };
        Ok(ClrData { metadata, flags, functions })
    }

    /// Reads the bodies of the methods of the table of methods that have
    /// one, in the order of the rows. The first body that cannot be read
    /// ends the reading.
    pub fn parse_functions(&self, metadata: &MetaData) -> (r: Result<Vec<Function>>)
        ensures
            match r {
                Ok(functions) => functions_read(self, metadata, functions@),
                Err(e) => functions_refused(self, metadata, e),
            },
    {
        let method_def_table = metadata.md_table("MethodDef")?;
        match &method_def_table.table {
            TableRows::MethodDef(rows) => self.parse_functions_of(rows),
            _ => Err(error::Error::RowIndexOutOfBound(0, method_def_table.row_count())),
        }
    }

    /// Reads the bodies of the methods of the rows `rows` that have one,
    /// in the order of the rows.
    pub fn parse_functions_of(
        &self,
        rows: &stream::meta_data_tables::mdtables::MDTable<MethodDef>,
    ) -> (r: Result<Vec<Function>>)
        ensures
            match r {
                Ok(functions) => self.spec_functions(rows.table@, 0) == Ok::<
                    Seq<FunctionView>,
                    error::Error,
                >(function_views(functions@)),
                Err(e) => self.spec_functions(rows.table@, 0) == Err::<
                    Seq<FunctionView>,
                    error::Error,
                >(e),
            },
    {
        let mut res: Vec<Function> = Vec::new();
        let n = rows.row_count();
        let mut i: usize = 0;
        while i < n
            invariant
                i <= n,
                n == rows.table@.len(),
                match self.spec_functions(rows.table@, i as int) {
                    Ok(rest) => self.spec_functions(rows.table@, 0) == Ok::<
                        Seq<FunctionView>,
                        error::Error,
                    >(function_views(res@) + rest),
                    Err(e) => self.spec_functions(rows.table@, 0) == Err::<
                        Seq<FunctionView>,
                        error::Error,
                    >(e),
                },
            decreases n - i,
        {
            let row = &rows.table[i].row;
            if has_body(row) {
                let function = self.parse_function(row)?;
                proof {
                    let before = function_views(res@);
                    assert(function_views(res@.push(function)) =~= before.push(function@));
                    if let Ok(rest) = self.spec_functions(rows.table@, i + 1) {
                        assert(before + (seq![function@] + rest) =~= before.push(function@) + rest);
                    }
                }
                res.push(function);
            }
            i = i + 1;
        }
        proof {
            assert(function_views(res@) + Seq::<FunctionView>::empty() =~= function_views(res@));
        }
        Ok(res)
    }

    /// Reads the body of the method of the row `row`.
    pub fn parse_function(&self, row: &MethodDef) -> (r: Result<Function>)
        ensures
            match r {
                Ok(f) => self.spec_function_at(row.rva) == Ok::<FunctionView, error::Error>(f@),
                Err(e) => self.spec_function_at(row.rva) == Err::<FunctionView, error::Error>(e),
            },
    {
        let mut reader = Reader::new(self.data.as_slice());
        reader.seek(self.offset(row.rva)?)?;
        Function::new(&mut reader)
    }

    /// Reads the metadata root at `metadata_rva`, whose fixed start is
    /// `metadata_struct`: the version, the flags, and the streams of the
    /// stream directory.
    pub fn new_metadata(&self, metadata_rva: &u32, metadata_struct: MetaDataStruct) -> (r: Result<
        MetaData,
    >)
        ensures
            self.metadata_result(*metadata_rva, metadata_struct, r),
    {
        let version_rva = rva_add(*metadata_rva, 16)?;
        let flags_rva = rva_add(version_rva, metadata_struct.version_length)?;
        let count_rva = rva_add(flags_rva, 2)?;
        let streams_table_rva = rva_add(count_rva, 2)?;
        let version = self.get_vec(&version_rva, &(metadata_struct.version_length as usize))?;
        let version = match string_from_utf8(version) {
            Some(s) => s,
            None => {
                return Err(error::Error::Utf8Error);
            },
        };
        let flags = self.get_word_at_rva(&flags_rva)?;
        let number_of_streams = self.get_word_at_rva(&count_rva)?;
        let streams = if number_of_streams > 0 {
            self.new_streams(metadata_rva, &streams_table_rva, &(number_of_streams as usize))?
        } else {
            Vec::new()
        };
        Ok(MetaData { _version: version, flags, streams })
    }

    /// Reads the `number_of_streams` streams of the stream directory at
    /// `streams_table_rva`, and then the tables of each stream of metadata
    /// tables, with the help of the heaps among the streams.
    ///
    /// Of two streams with one name the later one stays, in the place of
    /// the earlier one.
    pub fn new_streams(
        &self,
        metadata_rva: &u32,
        streams_table_rva: &u32,
        number_of_streams: &usize,
    ) -> (r: Result<Vec<ClrStream>>)
        ensures
            self.streams_result(*metadata_rva, *streams_table_rva, *number_of_streams, r),
    {
        let mut res = self.read_directory(metadata_rva, streams_table_rva, number_of_streams)?;
        let ghost fresh = res@;
        match self.read_stream_tables(&mut res) {
            Ok(_) => {
                proof {
                    let list = self.spec_streams(
                        *streams_table_rva,
                        *metadata_rva,
                        *number_of_streams as nat,
                    );
                    assert forall|k: int| 0 <= k < list.len() implies #[trigger] is_stream_of(
                        res@[k],
                        list[k],
                        *metadata_rva,
                    ) by {
                        assert(is_stream_of(fresh[k], list[k], *metadata_rva));
                        assert(same_stream(res@[k], fresh[k]));
                    }
                }
                Ok(res)
            },
            Err(e) => Err(e),
        }
    }

    /// Reads the `number_of_streams` entries of the stream directory at
    /// `streams_table_rva`, and the bytes of their streams.
    ///
    /// Of two streams with one name the later one stays, in the place of
    /// the earlier one.
    pub fn read_directory(
        &self,
        metadata_rva: &u32,
        streams_table_rva: &u32,
        number_of_streams: &usize,
    ) -> (r: Result<Vec<ClrStream>>)
        ensures
            match self.spec_directory(
                *streams_table_rva,
                *metadata_rva,
                *number_of_streams as nat,
            ) {
                Err(e) => r == Err::<Vec<ClrStream>, error::Error>(e),
                Ok(entries) => r matches Ok(streams) && streams_of(
                    streams@,
                    spec_collect(entries, entries.len() as int),
                    *metadata_rva,
                ),
            },
    {
        let mut res: Vec<ClrStream> = Vec::new();
        let mut stream_entry_rva = *streams_table_rva;
        let ghost seen = Seq::<StreamEntry>::empty();
        let mut i: usize = 0;
        while i < *number_of_streams
            invariant
                i <= *number_of_streams,
                seen.len() == i,
                streams_of(res@, spec_collect(seen, i as int), *metadata_rva),
                match self.spec_directory(
                    stream_entry_rva,
                    *metadata_rva,
                    (*number_of_streams - i) as nat,
                ) {
                    Ok(rest) => self.spec_directory(
                        *streams_table_rva,
                        *metadata_rva,
                        *number_of_streams as nat,
                    ) == Ok::<Seq<StreamEntry>, error::Error>(seen + rest),
                    Err(e) => self.spec_directory(
                        *streams_table_rva,
                        *metadata_rva,
                        *number_of_streams as nat,
                    ) == Err::<Seq<StreamEntry>, error::Error>(e),
                },
            decreases *number_of_streams - i,
        {
            let ghost entry = self.spec_stream_entry(stream_entry_rva, *metadata_rva);
            let stream = self.new_clr_stream(&stream_entry_rva, metadata_rva)?;
            let ghost x = entry.unwrap();
            if stream.stream_table_entry_size > u32::MAX as usize {
                return Err(error::Error::UnresolvedRvaError(stream_entry_rva));
            }
            let next = rva_add(stream_entry_rva, stream.stream_table_entry_size as u32)?;
            let ghost collected = spec_collect(seen, i as int);
            let mut k: usize = 0;
            while k < res.len() && !str_eq(res[k].name(), stream.name())
                invariant
                    k <= res@.len(),
                    res@.len() == collected.len(),
                    streams_of(res@, collected, *metadata_rva),
                    stream.name@ == x.name,
                    spec_place(collected, x.name, 0) == spec_place(collected, x.name, k as int),
                decreases res@.len() - k,
            {
                proof {
                    assert(is_stream_of(res@[k as int], collected[k as int], *metadata_rva));
                }
                k = k + 1;
            }
            proof {
                if k < res@.len() {
                    assert(is_stream_of(res@[k as int], collected[k as int], *metadata_rva));
                }
                assert(spec_place(collected, x.name, 0) == k);
                assert(seen.push(x).subrange(0, i as int) =~= seen);
                lemma_collect_prefix(seen.push(x), seen, i as int);
                if let Ok(rest) = self.spec_directory(
                    next,
                    *metadata_rva,
                    (*number_of_streams - i - 1) as nat,
                ) {
                    assert(seen + (seq![x] + rest) =~= seen.push(x) + rest);
                }
            }
            if k < res.len() {
                res.set(k, stream);
            } else {
                res.push(stream);
            }
            proof {
                seen = seen.push(x);
                let after = spec_collect(seen, i + 1);
                assert forall|j: int| 0 <= j < after.len() implies #[trigger] is_stream_of(
                    res@[j],
                    after[j],
                    *metadata_rva,
                ) && is_fresh(res@[j]) by {
                    if j != k {
                        assert(is_stream_of(res@[j], collected[j], *metadata_rva));
                    }
                }
            }
            stream_entry_rva = next;
            i = i + 1;
        }
        proof {
            assert(seen + Seq::<StreamEntry>::empty() =~= seen);
        }
        Ok(res)
    }

    /// Reads the tables of every stream of metadata tables among the
    /// streams, in the order of the streams, each with the help of the heaps
    /// among the other streams. Where the tables of a stream are refused,
    /// that stream is lost from the list.
    pub fn read_stream_tables(&self, streams: &mut Vec<ClrStream>) -> (r: Result<()>)
        ensures
            match r {
                Ok(_) => {
                    &&& final(streams)@.len() == old(streams)@.len()
                    &&& forall|k: int|
                        0 <= k < old(streams)@.len() ==> #[trigger] same_stream(
                            final(streams)@[k],
                            old(streams)@[k],
                        )
                    &&& streams_read(final(streams)@)
                },
                Err(e) => streams_refused(old(streams)@, e),
            },
    {
        let n = streams.len();
        let mut k: usize = 0;
        while k < n
            invariant
                k <= n,
                n == streams@.len(),
                n == old(streams)@.len(),
                forall|j: int| 0 <= j < n ==> #[trigger] same_stream(streams@[j], old(streams)@[j]),
                forall|j: int|
                    0 <= j < k ==> ((#[trigger] streams@[j]).stream matches Stream::MetaDataTables(m)
                        ==> tables_of_stream_read(m, streams@.remove(j))),
            decreases n - k,
        {
            match streams[k].stream.kind() {
                StreamKind::Tables => {
                    let ghost before = streams@;
                    let stream = streams.remove(k);
                    let ghost others = streams@;
                    let heaps = heaps_of(streams);
                    let parsed = match self.parse_clr_stream(stream, &heaps) {
                        Ok(parsed) => parsed,
                        Err(e) => {
                            proof {
                                assert(same_stream(before[k as int], old(streams)@[k as int]));
                                lemma_heaps_of_same(others, old(streams)@.remove(k as int));
                                assert forall|j: int| 0 <= j < k implies #[trigger] stream_is_read(
                                    old(streams)@,
                                    j,
                                ) by {
                                    assert(same_stream(before[j], old(streams)@[j]));
                                    lemma_heaps_of_same(
                                        before.remove(j),
                                        old(streams)@.remove(j),
                                    );
                                    match before[j].stream {
                                        Stream::MetaDataTables(read) => {
                                            assert(tables_of_stream_read(read, before.remove(j)));
                                        },
                                        _ => {},
                                    }
                                }
                                assert(stream_refused(old(streams)@, k as int, e));
                            }
                            return Err(e);
                        },
                    };
                    streams.insert(k, parsed);
                    proof {
                        assert(streams@.remove(k as int) =~= others);
                        assert forall|j: int| 0 <= j < n implies #[trigger] same_stream(
                            streams@[j],
                            old(streams)@[j],
                        ) by {
                            if j != k {
                                assert(streams@[j] == before[j]);
                            }
                            assert(same_stream(before[j], old(streams)@[j]));
                        }
                        assert forall|j: int| 0 <= j < k implies ((#[trigger] streams@[j]).stream matches Stream::MetaDataTables(
                            m,
                        ) ==> tables_of_stream_read(m, streams@.remove(j))) by {
                            assert(streams@[j] == before[j]);
                            if let Stream::MetaDataTables(m) = streams@[j].stream {
                                lemma_heaps_without_tables(before, streams@, j, k as int);
                            }
                        }
                    }
                },
                _ => {},
            }
            k = k + 1;
        }
        Ok(())
    }

    /// Reads the stream whose directory entry lies at
    /// `stream_table_entry_rva`: the offset of its bytes from the metadata
    /// root and their number, four bytes each, and its name up to a NUL
    /// byte.
    pub fn new_clr_stream(&self, stream_table_entry_rva: &u32, metadata_rva: &u32) -> (r: Result<
        ClrStream,
    >)
        ensures
            match self.spec_stream_entry(*stream_table_entry_rva, *metadata_rva) {
                Err(e) => r == Err::<ClrStream, error::Error>(e),
                Ok(entry) => r matches Ok(s) && is_stream_of(s, entry, *metadata_rva) && is_fresh(s),
            },
    {
        let stream_offset = self.get_dword_at_rva(stream_table_entry_rva)?;
        let size_rva = rva_add(*stream_table_entry_rva, 4)?;
        let name_rva = rva_add(size_rva, 4)?;
        let stream_size = self.get_dword_at_rva(&size_rva)?;
        let stream_name = self.get_nullterminated_string(&name_rva)?;
        let data_rva = rva_add(*metadata_rva, stream_offset)?;
        let stream_data = self.get_vec(&data_rva, &(stream_size as usize))?;
        self.nnew_clr_stream(
            metadata_rva,
            &stream_offset,
            &(stream_size as usize),
            stream_name.as_str(),
            stream_data,
        )
    }

    /// What the directory entry at `entry` says of its stream, and the
    /// bytes of the stream: the offset from the metadata root and the size in
    /// four bytes each, and the name up to a NUL byte. The name must be that
    /// of a kind of stream.
    pub open spec fn spec_stream_entry(&self, entry: u32, metadata_rva: u32) -> Result<StreamEntry> {
        match self.spec_dword_at(entry) {
            Err(e) => Err(e),
            Ok(offset) => if entry + 4 > u32::MAX {
                Err(error::Error::UnresolvedRvaError(entry))
            } else if entry + 8 > u32::MAX {
                Err(error::Error::UnresolvedRvaError((entry + 4) as u32))
            } else {
                match self.spec_dword_at((entry + 4) as u32) {
                    Err(e) => Err(e),
                    Ok(size) => match self.spec_string_at((entry + 8) as u32) {
                        Err(e) => Err(e),
                        Ok(name) => if metadata_rva + offset > u32::MAX {
                            Err(error::Error::UnresolvedRvaError(metadata_rva))
                        } else {
                            match self.spec_get_vec((metadata_rva + offset) as u32, size as usize) {
                                Err(e) => Err(e),
                                Ok(data) => if stream::spec_stream_kind(
                                    vstd::utf8::encode_utf8(name),
                                ) is None {
                                    Err(error::Error::UndefinedStream)
                                } else {
                                    Ok(StreamEntry { offset, size, name, data })
                                },
                            }
                        },
                    },
                }
            },
        }
    }

    /// The `count` entries of the stream directory from `entry` on, each
    /// behind the one before it.
    pub open spec fn spec_directory(&self, entry: u32, metadata_rva: u32, count: nat) -> Result<
        Seq<StreamEntry>,
    >
        decreases count,
    {
        if count == 0 {
            Ok(Seq::empty())
        } else {
            match self.spec_stream_entry(entry, metadata_rva) {
                Err(e) => Err(e),
                Ok(x) => if entry + x.entry_size() > u32::MAX {
                    Err(error::Error::UnresolvedRvaError(entry))
                } else {
                    match self.spec_directory(
                        (entry + x.entry_size()) as u32,
                        metadata_rva,
                        (count - 1) as nat,
                    ) {
                        Err(e) => Err(e),
                        Ok(rest) => Ok(seq![x] + rest),
                    }
                },
            }
        }
    }

    /// The streams that the `count` entries of the stream directory at
    /// `entry` stand for; none where the directory cannot be read.
    pub open spec fn spec_streams(&self, entry: u32, metadata_rva: u32, count: nat) -> Seq<
        StreamEntry,
    > {
        match self.spec_directory(entry, metadata_rva, count) {
            Ok(entries) => spec_collect(entries, entries.len() as int),
            Err(_) => Seq::empty(),
        }
    }

    /// Whether `r` is what the reading of the streams of the directory at
    /// `streams_table_rva` gives.
    ///
    /// An error of the directory is the result. Otherwise the result holds
    /// a stream for each entry of the directory, with the tables of every
    /// stream of metadata tables read; or it is the error of such a stream
    /// whose tables are refused.
    pub open spec fn streams_result(
        &self,
        metadata_rva: u32,
        streams_table_rva: u32,
        number_of_streams: usize,
        r: Result<Vec<ClrStream>>,
    ) -> bool {
        match self.spec_directory(streams_table_rva, metadata_rva, number_of_streams as nat) {
            Err(e) => r == Err::<Vec<ClrStream>, error::Error>(e),
            Ok(entries) => match r {
                Ok(streams) => {
                    &&& streams@.len() == spec_collect(entries, entries.len() as int).len()
                    &&& forall|k: int|
                        0 <= k < streams@.len() ==> #[trigger] is_stream_of(
                            streams@[k],
                            spec_collect(entries, entries.len() as int)[k],
                            metadata_rva,
                        )
                    &&& streams_read(streams@)
                },
                Err(e) => exists|fresh: Seq<ClrStream>|
                    #[trigger] streams_of(
                        fresh,
                        spec_collect(entries, entries.len() as int),
                        metadata_rva,
                    ) && streams_refused(fresh, e),
            },
        }
    }

    /// Whether `r` is what the reading of the metadata root at
    /// `metadata_rva` gives, whose fixed start is `header`.
    ///
    /// Behind the fixed start of sixteen bytes lie the version in as many
    /// bytes as the start says, the flags and the number of streams in two
    /// bytes each, and the stream directory. The first of these that cannot
    /// be read decides the error.
    pub open spec fn metadata_result(
        &self,
        metadata_rva: u32,
        header: MetaDataStruct,
        r: Result<MetaData>,
    ) -> bool {
        if metadata_rva + 16 > u32::MAX {
            r == Err::<MetaData, error::Error>(error::Error::UnresolvedRvaError(metadata_rva))
        } else if metadata_rva + 16 + header.version_length > u32::MAX {
            r == Err::<MetaData, error::Error>(
                error::Error::UnresolvedRvaError((metadata_rva + 16) as u32),
            )
        } else if metadata_rva + 18 + header.version_length > u32::MAX {
            r == Err::<MetaData, error::Error>(
                error::Error::UnresolvedRvaError(
                    (metadata_rva + 16 + header.version_length) as u32,
                ),
            )
        } else if metadata_rva + 20 + header.version_length > u32::MAX {
            r == Err::<MetaData, error::Error>(
                error::Error::UnresolvedRvaError(
                    (metadata_rva + 18 + header.version_length) as u32,
                ),
            )
        } else {
            let flags_rva = (metadata_rva + 16 + header.version_length) as u32;
            match self.spec_get_vec((metadata_rva + 16) as u32, header.version_length as usize) {
                Err(e) => r == Err::<MetaData, error::Error>(e),
                Ok(version) => if !vstd::utf8::valid_utf8(version) {
                    r == Err::<MetaData, error::Error>(error::Error::Utf8Error)
                } else {
                    match (self.spec_get_vec(flags_rva, 2), self.spec_get_vec((flags_rva + 2) as u32, 2)) {
                        (Err(e), _) => r == Err::<MetaData, error::Error>(e),
                        (Ok(_), Err(e)) => r == Err::<MetaData, error::Error>(e),
                        (Ok(flags), Ok(count)) => match r {
                            Ok(metadata) => {
                                &&& metadata._version@ == vstd::utf8::decode_utf8(version)
                                &&& metadata.flags == le_u16_at(flags, 0)
                                &&& if le_u16_at(count, 0) > 0 {
                                    self.streams_result(
                                        metadata_rva,
                                        (flags_rva + 4) as u32,
                                        le_u16_at(count, 0) as usize,
                                        Ok(metadata.streams),
                                    )
                                } else {
                                    metadata.streams@.len() == 0
                                }
                            },
                            Err(e) => le_u16_at(count, 0) > 0 && self.streams_result(
                                metadata_rva,
                                (flags_rva + 4) as u32,
                                le_u16_at(count, 0) as usize,
                                Err(e),
                            ),
                        },
                    }
                },
            }
        }
    }

    /// Whether `r` is what the reading of the managed part gives that the
    /// runtime header `header` describes: the metadata, the flags of the
    /// header taken apart, and the bodies of the methods. The first part that
    /// cannot be read decides the error.
    pub open spec fn clrdata_result(&self, header: ClrStruct, r: Result<ClrData>) -> bool {
        match self.spec_offset(header.meta_data_rva) {
            Err(e) => r == Err::<ClrData, error::Error>(e),
            Ok(at) => match MetaDataStruct::spec_parse(self.bytes(), at as int) {
                Err(e) => r == Err::<ClrData, error::Error>(e),
                Ok(root) => match r {
                    Ok(net) => {
                        &&& self.metadata_result(header.meta_data_rva, root, Ok(net.metadata))
                        &&& net.flags@ == ClrHeaderFlags::spec_new(header.flags as usize)
                        &&& functions_read(self, &net.metadata, net.functions@)
                    },
                    Err(e) => self.metadata_result(header.meta_data_rva, root, Err(e)) || exists|
                        metadata: MetaData,
                    |
                        #[trigger] self.metadata_result(header.meta_data_rva, root, Ok(metadata))
                            && functions_refused(self, &metadata, e),
                },
            },
        }
    }
}

/// Where the bodies of the methods from row `i` on are read, every method
/// from there on that has a body has one that can be read.
pub proof fn lemma_every_body_is_read(
    pe: &DnPe,
    rows: Seq<stream::meta_data_tables::mdtables::MDTableRow<MethodDef>>,
    i: int,
    k: int,
)
    requires
        0 <= i <= k < rows.len(),
        pe.spec_functions(rows, i) is Ok,
        spec_has_body(&rows[k].row),
    ensures
        pe.spec_function_at(rows[k].row.rva) is Ok,
    decreases k - i,
{
    if i < k {
        lemma_every_body_is_read(pe, rows, i + 1, k);
    }
}

/// What a directory entry says of its stream, and the bytes of the stream.
pub struct StreamEntry {
    pub offset: u32,
    pub size: u32,
    pub name: Seq<char>,
    pub data: Seq<u8>,
}

impl StreamEntry {
    /// The size of the directory entry.
    pub open spec fn entry_size(self) -> int {
        stream::spec_stream_table_entry_size(vstd::utf8::encode_utf8(self.name).len() as int)
    }
}

/// Whether the stream `s` is the one that the directory entry `entry` of
/// the metadata root at `metadata_rva` stands for.
pub open spec fn is_stream_of(s: ClrStream, entry: StreamEntry, metadata_rva: u32) -> bool {
    &&& s.name@ == entry.name
    &&& s.rva == metadata_rva + entry.offset
    &&& s.size == entry.size
    &&& s.stream_table_entry_size == entry.entry_size()
    &&& stream::spec_stream_kind(vstd::utf8::encode_utf8(entry.name)) == Some(s.stream.spec_kind())
    &&& !(s.stream is GenericStream) ==> s.stream.spec_bytes() == entry.data
    &&& s.stream matches Stream::MetaDataTables(m) ==> m.rva == s.rva
}

/// Whether the tables of a stream have not been read yet.
pub open spec fn is_fresh(s: ClrStream) -> bool {
    s.stream matches Stream::MetaDataTables(m) ==> m.tables@.len() == 0
}

/// Whether the streams are those that the entries stand for, one for
/// each, with no tables read yet.
pub open spec fn streams_of(streams: Seq<ClrStream>, entries: Seq<StreamEntry>, metadata_rva: u32) -> bool {
    &&& streams.len() == entries.len()
    &&& forall|k: int|
        0 <= k < streams.len() ==> #[trigger] is_stream_of(streams[k], entries[k], metadata_rva)
            && is_fresh(streams[k])
}

/// Whether the stream `after` is the stream `before` but for the tables
/// that were read from it.
pub open spec fn same_stream(after: ClrStream, before: ClrStream) -> bool {
    &&& after.name == before.name
    &&& after.rva == before.rva
    &&& after.size == before.size
    &&& after.stream_table_entry_size == before.stream_table_entry_size
    &&& match (after.stream, before.stream) {
        (Stream::MetaDataTables(a), Stream::MetaDataTables(b)) => a.data == b.data && a.rva == b.rva,
        (a, b) => a == b,
    }
}

/// The first place from `i` on at which `entries` holds an entry with the
/// name `name`; the length of `entries` where there is none.
pub open spec fn spec_place(entries: Seq<StreamEntry>, name: Seq<char>, i: int) -> int
    decreases entries.len() - i,
{
    if i < 0 || i >= entries.len() {
        entries.len() as int
    } else if entries[i].name == name {
        i
    } else {
        spec_place(entries, name, i + 1)
    }
}

/// The first `n` entries with each name kept once: an entry with the name
/// of an earlier one takes its place.
pub open spec fn spec_collect(entries: Seq<StreamEntry>, n: int) -> Seq<StreamEntry>
    decreases n,
{
    if n <= 0 || n > entries.len() {
        Seq::empty()
    } else {
        let before = spec_collect(entries, n - 1);
        let k = spec_place(before, entries[n - 1].name, 0);
        if k < before.len() {
            before.update(k, entries[n - 1])
        } else {
            before.push(entries[n - 1])
        }
    }
}

/// The place that `spec_place` finds holds the name, and no place before
/// it does.
pub proof fn lemma_place(entries: Seq<StreamEntry>, name: Seq<char>, i: int)
    requires
        0 <= i <= entries.len(),
    ensures
        i <= spec_place(entries, name, i) <= entries.len(),
        spec_place(entries, name, i) < entries.len() ==> entries[spec_place(
            entries,
            name,
            i,
        )].name == name,
        forall|j: int| i <= j < spec_place(entries, name, i) ==> (#[trigger] entries[j]).name != name,
    decreases entries.len() - i,
{
    if i < entries.len() && entries[i].name != name {
        lemma_place(entries, name, i + 1);
    }
}

/// No name occurs twice among the entries that are kept.
pub proof fn lemma_collect_distinct(entries: Seq<StreamEntry>, n: int)
    requires
        0 <= n <= entries.len(),
    ensures
        forall|a: int, b: int|
            0 <= a < b < spec_collect(entries, n).len() ==> (#[trigger] spec_collect(
                entries,
                n,
            )[a]).name != (#[trigger] spec_collect(entries, n)[b]).name,
    decreases n,
{
    if n > 0 {
        lemma_collect_distinct(entries, n - 1);
        let before = spec_collect(entries, n - 1);
        let name = entries[n - 1].name;
        lemma_place(before, name, 0);
        let k = spec_place(before, name, 0);
        let after = spec_collect(entries, n);
        assert forall|a: int, b: int| 0 <= a < b < after.len() implies (#[trigger] after[a]).name != (
        #[trigger] after[b]).name by {
            if k < before.len() {
                assert(after[a].name == before[a].name);
                assert(after[b].name == before[b].name);
            } else if b < before.len() {
                assert(after[a] == before[a]);
                assert(after[b] == before[b]);
            } else {
                assert(after[a] == before[a]);
            }
        }
    }
}

/// What is kept of the first `n` entries depends on these entries alone.
pub proof fn lemma_collect_prefix(entries: Seq<StreamEntry>, prefix: Seq<StreamEntry>, n: int)
    requires
        0 <= n <= prefix.len() <= entries.len(),
        forall|k: int| 0 <= k < prefix.len() ==> entries[k] == prefix[k],
    ensures
        spec_collect(entries, n) == spec_collect(prefix, n),
    decreases n,
{
    if n > 0 {
        lemma_collect_prefix(entries, prefix, n - 1);
    }
}

/// Whether stream `k` is a stream of metadata tables whose tables are
/// refused with the error `e`, read with the help of the heaps among the
/// other streams, while the tables of the streams before it are read.
pub open spec fn stream_refused(streams: Seq<ClrStream>, k: int, e: error::Error) -> bool {
    &&& 0 <= k < streams.len()
    &&& streams[k].stream matches Stream::MetaDataTables(m)
    &&& stream::meta_data_tables::tables_refused(
        m.data@,
        m.rva,
        spec_heaps(streams.remove(k)),
        e,
    )
    &&& forall|j: int| 0 <= j < k ==> #[trigger] stream_is_read(streams, j)
}

/// Whether stream `j` is no stream of metadata tables, or one whose tables
/// can be read with the help of the heaps among the other streams.
pub open spec fn stream_is_read(streams: Seq<ClrStream>, j: int) -> bool {
    streams[j].stream matches Stream::MetaDataTables(m) ==> exists|tables: Seq<MetaDataTable>|
        #[trigger] stream::meta_data_tables::tables_read(
            tables,
            m.data@,
            m.rva,
            spec_heaps(streams.remove(j)),
        )
}

/// Whether the tables of one of the streams are refused with the error
/// `e`.
pub open spec fn streams_refused(streams: Seq<ClrStream>, e: error::Error) -> bool {
    exists|k: int| #[trigger] stream_refused(streams, k, e)
}

/// Whether the reading of the bodies of the methods of the metadata ends
/// with the error `e`.
pub open spec fn functions_refused(pe: &DnPe, metadata: &MetaData, e: error::Error) -> bool {
    match metadata.spec_md_table("MethodDef"@) {
        None => e == error::Error::UndefinedMetaDataTableName("MethodDef"),
        Some(table) => match table.table {
            TableRows::MethodDef(rows) => pe.spec_functions(rows.table@, 0) == Err::<
                Seq<FunctionView>,
                error::Error,
            >(e),
            _ => e == error::Error::RowIndexOutOfBound(0, table.table.spec_row_count() as usize),
        },
    }
}

/// Streams that are the same but for the tables read from them have the
/// same heaps among them.
pub proof fn lemma_heaps_of_same(a: Seq<ClrStream>, b: Seq<ClrStream>)
    requires
        a.len() == b.len(),
        forall|k: int| 0 <= k < a.len() ==> #[trigger] same_stream(a[k], b[k]),
    ensures
        spec_heaps(a) == spec_heaps(b),
{
    lemma_find_alike(a, b, StreamKind::Strings, 0);
    lemma_find_alike(a, b, StreamKind::Blobs, 0);
    lemma_find_alike(a, b, StreamKind::Guids, 0);
    lemma_find_stream(a, StreamKind::Strings, 0);
    lemma_find_stream(a, StreamKind::Blobs, 0);
    lemma_find_stream(a, StreamKind::Guids, 0);
    assert forall|k: int|
        0 <= k < a.len() && (#[trigger] a[k]).stream.spec_kind() != StreamKind::Tables implies a[k]
        == b[k] by {
        assert(same_stream(a[k], b[k]));
    }
}

/// Streams that are the same but for the tables read from them have
/// their first stream of a kind at one place.
pub proof fn lemma_find_alike(a: Seq<ClrStream>, b: Seq<ClrStream>, kind: StreamKind, i: int)
    requires
        a.len() == b.len(),
        0 <= i,
        forall|k: int| 0 <= k < a.len() ==> #[trigger] same_stream(a[k], b[k]),
    ensures
        spec_find_stream(a, kind, i) == spec_find_stream(b, kind, i),
    decreases a.len() - i,
{
    if i < a.len() {
        assert(same_stream(a[i], b[i]));
        lemma_find_alike(a, b, kind, i + 1);
    }
}

/// The reading of the managed part leaves the bytes of the file and what
/// its container tells as they are.
pub proof fn lemma_before_reading(pe: &DnPe)
    ensures
        pe.before_reading().bytes() == pe.bytes(),
        pe.before_reading().sections() == pe.sections(),
        pe.before_reading().alignment() == pe.alignment(),
        pe.before_reading().spec_net() is None,
{
}

/// The sum of a relative virtual address and a distance, where it is one.
pub fn rva_add(rva: u32, delta: u32) -> (r: Result<u32>)
    ensures
        rva + delta <= u32::MAX ==> r == Ok::<u32, error::Error>((rva + delta) as u32),
        rva + delta > u32::MAX ==> r == Err::<u32, error::Error>(
            error::Error::UnresolvedRvaError(rva),
        ),
{
    if rva > u32::MAX - delta {
        Err(error::Error::UnresolvedRvaError(rva))
    } else {
        Ok(rva + delta)
    }
}

/// The views of a sequence of method bodies.
pub open spec fn function_views(functions: Seq<Function>) -> Seq<FunctionView> {
    functions.map_values(|f: Function| f@)
}

/// Whether `functions` are the bodies of the methods of the metadata that
/// have one, in the order of the rows of the table of methods.
pub open spec fn functions_read(pe: &DnPe, metadata: &MetaData, functions: Seq<Function>) -> bool {
    metadata.spec_md_table("MethodDef"@) matches Some(table) && table.table matches TableRows::MethodDef(
        rows,
    ) && pe.spec_functions(rows.table@, 0) == Ok::<Seq<FunctionView>, error::Error>(
        function_views(functions),
    )
}

/// Whether the tables of the stream `m` are read from its bytes with the
/// help of the heaps among the streams `others`.
pub open spec fn tables_of_stream_read(
    m: stream::meta_data_tables::MetaDataTable,
    others: Seq<ClrStream>,
) -> bool {
    stream::meta_data_tables::tables_read(m.tables@, m.data@, m.rva, spec_heaps(others))
}

/// Whether every stream of metadata tables among the streams has its
/// tables read, with the help of the heaps among the other streams.
pub open spec fn streams_read(streams: Seq<ClrStream>) -> bool {
    forall|j: int|
        0 <= j < streams.len() ==> ((#[trigger] streams[j]).stream matches Stream::MetaDataTables(m)
            ==> tables_of_stream_read(m, streams.remove(j)))
}

/// The heaps among the streams do not depend on the streams of metadata
/// tables: where only such a stream changes, the heaps among the others
/// stay what they were.
pub proof fn lemma_heaps_without_tables(
    before: Seq<ClrStream>,
    after: Seq<ClrStream>,
    j: int,
    k: int,
)
    requires
        before.len() == after.len(),
        0 <= j < before.len(),
        0 <= k < before.len(),
        j != k,
        before[k].stream.spec_kind() == StreamKind::Tables,
        after[k].stream.spec_kind() == StreamKind::Tables,
        forall|i: int| 0 <= i < before.len() && i != k ==> before[i] == after[i],
    ensures
        spec_heaps(after.remove(j)) == spec_heaps(before.remove(j)),
{
    let a = after.remove(j);
    let b = before.remove(j);
    let kk = if k < j {
        k
    } else {
        k - 1
    };
    assert(a.len() == b.len());
    assert(forall|i: int| 0 <= i < a.len() && i != kk ==> a[i] == b[i]);
    assert(a[kk].stream.spec_kind() == StreamKind::Tables);
    assert(b[kk].stream.spec_kind() == StreamKind::Tables);
    lemma_find_same(a, b, StreamKind::Strings, kk, 0);
    lemma_find_same(a, b, StreamKind::Blobs, kk, 0);
    lemma_find_same(a, b, StreamKind::Guids, kk, 0);
    lemma_find_stream(a, StreamKind::Strings, 0);
    lemma_find_stream(a, StreamKind::Blobs, 0);
    lemma_find_stream(a, StreamKind::Guids, 0);
}

/// Two lists of streams that differ in one stream alone, which is of
/// another kind in both, have their first stream of a kind at one place.
pub proof fn lemma_find_same(
    a: Seq<ClrStream>,
    b: Seq<ClrStream>,
    kind: StreamKind,
    k: int,
    i: int,
)
    requires
        a.len() == b.len(),
        0 <= k < a.len(),
        0 <= i,
        a[k].stream.spec_kind() != kind,
        b[k].stream.spec_kind() != kind,
        forall|j: int| 0 <= j < a.len() && j != k ==> a[j] == b[j],
    ensures
        spec_find_stream(a, kind, i) == spec_find_stream(b, kind, i),
    decreases a.len() - i,
{
    if i < a.len() {
        if i != k {
            assert(a[i] == b[i]);
        }
        lemma_find_same(a, b, kind, k, i + 1);
    }
}

} // verus!
