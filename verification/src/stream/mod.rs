//! The streams of the metadata root.
use vstd::prelude::*;
use crate::error::Error;
use crate::utils::{bytes_eq, read_usize, spec_read_usize};
use crate::Result;
use meta_data_tables::mdtables::Heaps;

pub mod blob_heap;
pub mod generic_stream;
pub mod guid_heap;
pub mod meta_data_tables;
pub mod string_heap;
pub mod user_string_heap;

verus! {

/// What a stream holds, by the parser that its name selects.
#[derive(Debug, Clone)]
pub enum Stream {
    GenericStream(generic_stream::GenericStream),
    MetaDataTables(meta_data_tables::MetaDataTable),
    StringHeap(string_heap::StringHeap),
    BlobHeap(blob_heap::BlobHeap),
    GuidHeap(guid_heap::GuidHeap),
    UserStringHeap(user_string_heap::UserStringHeap),
}

/// A stream of the metadata root: its directory entry and its content.
#[derive(Debug, Clone)]
pub struct ClrStream {
    pub name: String,
    pub rva: u32,
    pub size: usize,
    pub stream_table_entry_size: usize,
    pub stream: Stream,
}

impl ClrStream {
    /// What `get_string` makes of the index field `index`.
    pub open spec fn spec_get_string(&self, index: Seq<u8>) -> Result<Seq<char>> {
        match self.stream {
            Stream::StringHeap(heap) => match spec_read_usize(index) {
                Ok(i) => heap.spec_get(i),
                Err(e) => Err(e),
            },
            _ => Err(Error::TryReadStringFromNotStringHeap),
        }
    }

    /// What `get_blob` makes of the index field `index`.
    pub open spec fn spec_get_blob(&self, index: Seq<u8>) -> Result<Seq<u8>> {
        match self.stream {
            Stream::BlobHeap(heap) => match spec_read_usize(index) {
                Ok(i) => blob_heap::spec_blob_at(heap.bytes(), i),
                Err(e) => Err(e),
            },
            _ => Err(Error::TryReadBlobFromNotBlobHeap),
        }
    }

    /// What `get_guid` makes of the index field `index`.
    pub open spec fn spec_get_guid(&self, index: Seq<u8>) -> Result<guid_heap::Guid> {
        match self.stream {
            Stream::GuidHeap(heap) => match spec_read_usize(index) {
                Ok(i) => heap.spec_get(i),
                Err(e) => Err(e),
            },
            _ => Err(Error::TryReadGuidFromNotGuidHeap),
        }
    }

    /// The name of the stream.
    pub fn name(&self) -> (r: &str)
        ensures
            r@ == self.name@,
    {
        self.name.as_str()
    }

    /// The name that the little-endian index field `index` points to, where
    /// the stream is a string heap.
    pub fn get_string(&self, index: &[u8]) -> (r: Result<String>)
        ensures
            match r {
                Ok(s) => self.spec_get_string(index@) == Ok::<Seq<char>, Error>(s@),
                Err(e) => self.spec_get_string(index@) == Err::<Seq<char>, Error>(e),
            },
    {
        match &self.stream {
            Stream::StringHeap(s) => {
                let index = read_usize(index)?;
                s.get(index)
            },
            _ => Err(Error::TryReadStringFromNotStringHeap),
        }
    }

    /// The blob that the little-endian index field `index` points to, where
    /// the stream is a blob heap.
    pub fn get_blob(&self, index: &[u8]) -> (r: Result<Vec<u8>>)
        ensures
            match r {
                Ok(b) => self.spec_get_blob(index@) == Ok::<Seq<u8>, Error>(b@),
                Err(e) => self.spec_get_blob(index@) == Err::<Seq<u8>, Error>(e),
            },
    {
        match &self.stream {
            Stream::BlobHeap(s) => {
                let index = read_usize(index)?;
                s.get(index)
            },
            _ => Err(Error::TryReadBlobFromNotBlobHeap),
        }
    }

    /// The identifier in the slot that the little-endian index field
    /// `index` names, where the stream is a GUID heap.
    pub fn get_guid(&self, index: &[u8]) -> (r: Result<guid_heap::Guid>)
        ensures
            r == self.spec_get_guid(index@),
    {
        match &self.stream {
            Stream::GuidHeap(s) => {
                let index = read_usize(index)?;
                s.get(index)
            },
            _ => Err(Error::TryReadGuidFromNotGuidHeap),
        }
    }
}

/// The kinds of stream that a name can select.
#[derive(Debug, Clone, Copy, PartialEq, Eq, Structural)]
pub enum StreamKind {
    Tables,
    Strings,
    Guids,
    Blobs,
    UserStrings,
    Generic,
}

/// The kind of stream that the bytes of a name select: `#~` and `#-` the
/// metadata tables, `#Strings`, `#GUID`, `#Blob` and `#US` the heaps, and
/// `_` a stream that is kept as it is. No other name is known.
pub open spec fn spec_stream_kind(name: Seq<u8>) -> Option<StreamKind> {
    if name == seq![0x23u8, 0x7E] || name == seq![0x23u8, 0x2D] {
        Some(StreamKind::Tables)
    } else if name == seq![0x23u8, 0x53, 0x74, 0x72, 0x69, 0x6E, 0x67, 0x73] {
        Some(StreamKind::Strings)
    } else if name == seq![0x23u8, 0x47, 0x55, 0x49, 0x44] {
        Some(StreamKind::Guids)
    } else if name == seq![0x23u8, 0x42, 0x6C, 0x6F, 0x62] {
        Some(StreamKind::Blobs)
    } else if name == seq![0x23u8, 0x55, 0x53] {
        Some(StreamKind::UserStrings)
    } else if name == seq![0x5Fu8] {
        Some(StreamKind::Generic)
    } else {
        None
    }
}

/// The kind of stream that the bytes of a name select.
pub fn stream_kind(name: &[u8]) -> (r: Option<StreamKind>)
    ensures
        r == spec_stream_kind(name@),
        r is Some ==> name@.len() <= 8,
{
    let tables: [u8; 2] = [0x23, 0x7E];
    let tables_unoptimized: [u8; 2] = [0x23, 0x2D];
    let strings: [u8; 8] = [0x23, 0x53, 0x74, 0x72, 0x69, 0x6E, 0x67, 0x73];
    let guids: [u8; 5] = [0x23, 0x47, 0x55, 0x49, 0x44];
    let blobs: [u8; 5] = [0x23, 0x42, 0x6C, 0x6F, 0x62];
    let user_strings: [u8; 3] = [0x23, 0x55, 0x53];
    let generic: [u8; 1] = [0x5F];
    proof {
        assert(tables@ =~= seq![0x23u8, 0x7E]);
        assert(tables_unoptimized@ =~= seq![0x23u8, 0x2D]);
        assert(strings@ =~= seq![0x23u8, 0x53, 0x74, 0x72, 0x69, 0x6E, 0x67, 0x73]);
        assert(guids@ =~= seq![0x23u8, 0x47, 0x55, 0x49, 0x44]);
        assert(blobs@ =~= seq![0x23u8, 0x42, 0x6C, 0x6F, 0x62]);
        assert(user_strings@ =~= seq![0x23u8, 0x55, 0x53]);
        assert(generic@ =~= seq![0x5Fu8]);
    }
    if bytes_eq(name, tables.as_slice()) || bytes_eq(name, tables_unoptimized.as_slice()) {
        Some(StreamKind::Tables)
    } else if bytes_eq(name, strings.as_slice()) {
        Some(StreamKind::Strings)
    } else if bytes_eq(name, guids.as_slice()) {
        Some(StreamKind::Guids)
    } else if bytes_eq(name, blobs.as_slice()) {
        Some(StreamKind::Blobs)
    } else if bytes_eq(name, user_strings.as_slice()) {
        Some(StreamKind::UserStrings)
    } else if bytes_eq(name, generic.as_slice()) {
        Some(StreamKind::Generic)
    } else {
        None
    }
}

/// The size of the directory entry of a stream whose name has `n` bytes:
/// the name with its padding to the next multiple of four, behind offset
/// and size of four bytes each.
pub open spec fn spec_stream_table_entry_size(n: int) -> int {
    n + (4 - n % 4) + 8
}

impl Stream {
    /// The kind of the stream.
    pub open spec fn spec_kind(&self) -> StreamKind {
        match self {
            Stream::GenericStream(_) => StreamKind::Generic,
            Stream::MetaDataTables(_) => StreamKind::Tables,
            Stream::StringHeap(_) => StreamKind::Strings,
            Stream::BlobHeap(_) => StreamKind::Blobs,
            Stream::GuidHeap(_) => StreamKind::Guids,
            Stream::UserStringHeap(_) => StreamKind::UserStrings,
        }
    }

    /// The bytes that the stream keeps; a generic stream keeps none.
    pub open spec fn spec_bytes(&self) -> Seq<u8> {
        match self {
            Stream::GenericStream(_) => Seq::empty(),
            Stream::MetaDataTables(m) => m.data@,
            Stream::StringHeap(h) => h.bytes(),
            Stream::BlobHeap(h) => h.bytes(),
            Stream::GuidHeap(h) => h.bytes(),
            Stream::UserStringHeap(h) => h.bytes(),
        }
    }

    /// The kind of the stream.
    pub fn kind(&self) -> (r: StreamKind)
        ensures
            r == self.spec_kind(),
    {
        match self {
            Stream::GenericStream(_) => StreamKind::Generic,
            Stream::MetaDataTables(_) => StreamKind::Tables,
            Stream::StringHeap(_) => StreamKind::Strings,
            Stream::BlobHeap(_) => StreamKind::Blobs,
            Stream::GuidHeap(_) => StreamKind::Guids,
            Stream::UserStringHeap(_) => StreamKind::UserStrings,
        }
    }
}

impl crate::DnPe {
    /// Makes the stream with the given name and bytes, which lies at
    /// `stream_offset` from the metadata root at `metadata_rva`.
    ///
    /// The name selects what the bytes are taken for; a name that is not
    /// known is refused.
    pub fn nnew_clr_stream(
        &self,
        metadata_rva: &u32,
        stream_offset: &u32,
        stream_size: &usize,
        stream_name: &str,
        stream_data: Vec<u8>,
    ) -> (r: Result<ClrStream>)
        ensures
            match spec_stream_kind(vstd::utf8::encode_utf8(stream_name@)) {
                Some(kind) => {
                    &&& r matches Ok(s)
                    &&& s.name@ == stream_name@
                    &&& s.rva == (*metadata_rva + *stream_offset) as u32
                    &&& s.size == stream_data@.len()
                    &&& s.stream_table_entry_size == spec_stream_table_entry_size(
                        vstd::utf8::encode_utf8(stream_name@).len() as int,
                    )
                    &&& s.stream.spec_kind() == kind
                    &&& kind != StreamKind::Generic ==> s.stream.spec_bytes() == stream_data@
                    &&& s.stream matches Stream::MetaDataTables(m) ==> m.tables@.len() == 0 && m.rva
                        == s.rva
                },
                None => r == Err::<ClrStream, Error>(Error::UndefinedStream),
            },
    {
        let name_bytes = stream_name.as_bytes();
        let kind = match stream_kind(name_bytes) {
            Some(kind) => kind,
            None => {
                return Err(Error::UndefinedStream);
            },
        };
        let n = name_bytes.len();
        let size = stream_data.len();
        let stream = match kind {
            StreamKind::Tables => self.new_meta_data_table(
                metadata_rva,
                stream_offset,
                stream_size,
                stream_name,
                stream_data,
            )?,
            StreamKind::Strings => self.new_string_heap(
                metadata_rva,
                stream_offset,
                stream_size,
                stream_name,
                stream_data,
            )?,
            StreamKind::Guids => self.new_guid_heap(
                metadata_rva,
                stream_offset,
                stream_size,
                stream_name,
                stream_data,
            )?,
            StreamKind::Blobs => self.new_blob_heap(
                metadata_rva,
                stream_offset,
                stream_size,
                stream_name,
                stream_data,
            )?,
            StreamKind::UserStrings => self.new_user_string_heap(
                metadata_rva,
                stream_offset,
                stream_size,
                stream_name,
                stream_data,
            )?,
            StreamKind::Generic => self.new_generic_stream(
                metadata_rva,
                stream_offset,
                stream_size,
                stream_name,
                stream_data,
            )?,
        };
        Ok(
            ClrStream {
                name: stream_name.to_owned(),
                rva: #[verifier::truncate]
                ((*metadata_rva as u64 + *stream_offset as u64) as u32),
                size,
                stream_table_entry_size: n + (4 - n % 4) + 8,
                stream,
            },
        )
    }

    /// Reads what a stream holds beyond its bytes: the tables of the
    /// stream of the metadata tables, with the help of the heaps. The other
    /// streams stay as they are.
    pub fn parse_clr_stream(&self, stream: ClrStream, heaps: &Heaps) -> (r: Result<ClrStream>)
        ensures
            match stream.stream {
                Stream::MetaDataTables(m) => match r {
                    Ok(s) => {
                        &&& s.name == stream.name
                        &&& s.rva == stream.rva
                        &&& s.size == stream.size
                        &&& s.stream_table_entry_size == stream.stream_table_entry_size
                        &&& s.stream matches Stream::MetaDataTables(read)
                        &&& read.data == m.data
                        &&& read.rva == m.rva
                        &&& meta_data_tables::tables_read(read.tables@, m.data@, m.rva, *heaps)
                    },
                    Err(e) => meta_data_tables::tables_refused(m.data@, m.rva, *heaps, e),
                },
                _ => r == Ok::<ClrStream, Error>(stream),
            },
    {
        let mut res = stream;
        match res.stream {
            Stream::MetaDataTables(m) => {
                let tables = self.parse_meta_data_tables(&m, heaps)?;
                res.stream = Stream::MetaDataTables(
                    meta_data_tables::MetaDataTable { data: m.data, rva: m.rva, tables },
                );
                Ok(res)
            },
            other => {
                res.stream = other;
                Ok(res)
            },
        }
    }
}

} // verus!
