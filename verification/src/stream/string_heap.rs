//! The `#Strings` heap: NUL-terminated names, addressed by byte offset.
use vstd::prelude::*;
use crate::error::Error;
use crate::Result;

verus! {

/// The text that `String::from_utf8_lossy` makes of a byte sequence.
pub uninterp spec fn utf8_lossy(bytes: Seq<u8>) -> Seq<char>;

/// Decodes bytes as UTF-8, with the replacement character in place of what
/// is malformed.
///
/// Trusted: `String::from_utf8_lossy` depends on the bytes alone, and on
/// well-formed UTF-8 it gives exactly the text that the bytes encode.
#[verifier::external_body]
pub(crate) fn string_from_utf8_lossy(bytes: &[u8]) -> (s: String)
    ensures
        s@ == utf8_lossy(bytes@),
        vstd::utf8::valid_utf8(bytes@) ==> s@ == vstd::utf8::decode_utf8(bytes@),
{
    String::from_utf8_lossy(bytes).to_string()
}

/// The number of bytes from `from` up to the first NUL byte, or to the end
/// of `data` if there is none.
pub open spec fn name_length(data: Seq<u8>, from: int) -> int
    decreases data.len() - from,
{
    if from < 0 || from >= data.len() || data[from] == 0 {
        0
    } else {
        1 + name_length(data, from + 1)
    }
}

/// The bytes of the name that starts at `index`: up to, and without, the
/// next NUL byte.
pub open spec fn name_bytes(data: Seq<u8>, index: int) -> Seq<u8> {
    data.subrange(index, index + name_length(data, index))
}

/// The string heap of an image.
#[derive(Debug, Clone)]
pub struct StringHeap {
    data: Vec<u8>,
}

impl StringHeap {
    /// The bytes of the heap.
    pub closed spec fn bytes(&self) -> Seq<u8> {
        self.data@
    }

    /// What a lookup at `index` gives.
    pub open spec fn spec_get(&self, index: usize) -> Result<Seq<char>> {
        if index >= self.bytes().len() {
            Err(Error::StringHeapReadOutOfBound(index, self.bytes().len() as usize))
        } else {
            Ok(utf8_lossy(name_bytes(self.bytes(), index as int)))
        }
    }

    /// A heap over the bytes of a `#Strings` stream.
    pub fn new(data: Vec<u8>) -> (r: Self)
        ensures
            r.bytes() == data@,
    {
        StringHeap { data }
    }

    /// The name at byte offset `index`, read up to the next NUL byte.
    pub fn get(&self, index: usize) -> (r: Result<String>)
        ensures
            match r {
                Ok(s) => self.spec_get(index) == Ok::<Seq<char>, Error>(s@),
                Err(e) => self.spec_get(index) == Err::<Seq<char>, Error>(e),
            },
            index < self.bytes().len() && self.bytes()[index as int] == 0 ==> r is Ok
                && r.unwrap()@.len() == 0,
    {
        if index >= self.data.len() {
            return Err(Error::StringHeapReadOutOfBound(index, self.data.len()));
        }
        let mut end: usize = index;
        while end < self.data.len() && self.data[end] != 0
            invariant
                index <= end <= self.data.len(),
                name_length(self.data@, index as int) == (end - index) + name_length(
                    self.data@,
                    end as int,
                ),
            decreases self.data.len() - end,
        {
            end = end + 1;
        }
        let name = vstd::slice::slice_subrange(self.data.as_slice(), index, end);
        proof {
            if end == index {
                assert(name@ =~= Seq::<u8>::empty());
                assert(vstd::utf8::valid_utf8(name@));
                assert(vstd::utf8::decode_utf8(name@) =~= Seq::<char>::empty());
            }
        }
        Ok(string_from_utf8_lossy(name))
    }
}

impl crate::DnPe {
    /// Wraps the bytes of a `#Strings` stream.
    pub fn new_string_heap(
        &self,
        _metadata_rva: &u32,
        _stream_offset: &u32,
        _stream_size: &usize,
        _stream_name: &str,
        stream_data: Vec<u8>,
    ) -> (r: Result<super::Stream>)
        ensures
            r matches Ok(super::Stream::StringHeap(h)) && h.bytes() == stream_data@,
    {
        Ok(super::Stream::StringHeap(StringHeap::new(stream_data)))
    }
}

} // verus!
