//! The `#US` heap: UTF-16 string literals behind a compressed length.
use vstd::prelude::*;
use crate::error::Error;
use crate::utils::{copy_range, read_compressed_usize, spec_read_compressed_usize};
use crate::Result;

verus! {

/// The text that `String::from_utf16` makes of a sequence of code units, if
/// they are well-formed UTF-16.
pub uninterp spec fn utf16_text(units: Seq<u16>) -> Option<Seq<char>>;

/// Decodes UTF-16 code units.
///
/// Trusted: `String::from_utf16` depends on the code units alone; it fails
/// on an unpaired surrogate and on nothing else.
#[verifier::external_body]
pub(crate) fn string_from_utf16(units: &[u16]) -> (r: Option<String>)
    ensures
        match r {
            Some(s) => utf16_text(units@) == Some(s@),
            None => utf16_text(units@) is None,
        },
{
    String::from_utf16(units).ok()
}

/// The little-endian code units of `data`, two bytes each; an odd last
/// byte is left out.
pub open spec fn utf16_units(data: Seq<u8>) -> Seq<u16> {
    Seq::new(
        data.len() / 2,
        |i: int| (data[2 * i] as int + 0x100 * (data[2 * i + 1] as int)) as u16,
    )
}

/// The user string that starts at `index` of a heap with the bytes `data`:
/// a compressed length, then that many bytes.
pub open spec fn spec_user_string_at(data: Seq<u8>, index: usize) -> Result<Seq<u8>> {
    if index >= data.len() {
        Err(Error::UserStringHeapReadOutOfBound(index, data.len() as usize))
    } else {
        match spec_read_compressed_usize(data.subrange(index as int, data.len() as int)) {
            Ok((length, prefix)) => if index + prefix + length > data.len() {
                Err(Error::UserStringHeapReadOutOfBound(index, data.len() as usize))
            } else {
                Ok(data.subrange(index + prefix, index + prefix + length))
            },
            Err(Error::NotEnoughData(_, _)) => Err(
                Error::UserStringHeapReadOutOfBound(index, data.len() as usize),
            ),
            Err(e) => Err(e),
        }
    }
}

/// The user-string heap of an image.
#[derive(Debug, Clone)]
pub struct UserStringHeap {
    data: Vec<u8>,
}

impl UserStringHeap {
    /// The bytes of the heap.
    pub closed spec fn bytes(&self) -> Seq<u8> {
        self.data@
    }

    /// What `get_us` gives at `index`: the text of the code units of the
    /// entry there.
    pub open spec fn spec_get_us(&self, index: usize) -> Result<Seq<char>> {
        match spec_user_string_at(self.bytes(), index) {
            Ok(payload) => match utf16_text(utf16_units(payload)) {
                Some(text) => Ok(text),
                None => Err(Error::Utf16Error),
            },
            Err(e) => Err(e),
        }
    }

    /// A heap over the bytes of a `#US` stream.
    pub fn new(data: Vec<u8>) -> (r: Self)
        ensures
            r.bytes() == data@,
    {
        UserStringHeap { data }
    }

    /// The raw bytes of the entry at byte offset `index`: the code units
    /// and the final byte.
    pub fn get(&self, index: usize) -> (r: Result<Vec<u8>>)
        ensures
            match r {
                Ok(payload) => spec_user_string_at(self.bytes(), index) == Ok::<Seq<u8>, Error>(
                    payload@,
                ),
                Err(e) => spec_user_string_at(self.bytes(), index) == Err::<Seq<u8>, Error>(e),
            },
    {
        let len = self.data.len();
        if index >= len {
            return Err(Error::UserStringHeapReadOutOfBound(index, len));
        }
        let tail = vstd::slice::slice_subrange(self.data.as_slice(), index, len);
        match read_compressed_usize(tail) {
            Ok((length, prefix)) => {
                if length > len - index - prefix {
                    Err(Error::UserStringHeapReadOutOfBound(index, len))
                } else {
                    Ok(copy_range(self.data.as_slice(), index + prefix, index + prefix + length))
                }
            },
            Err(Error::NotEnoughData(_, _)) => Err(Error::UserStringHeapReadOutOfBound(index, len)),
            Err(e) => Err(e),
        }
    }

    /// The string literal at byte offset `index`.
    pub fn get_us(&self, index: usize) -> (r: Result<String>)
        ensures
            match r {
                Ok(s) => self.spec_get_us(index) == Ok::<Seq<char>, Error>(s@),
                Err(e) => self.spec_get_us(index) == Err::<Seq<char>, Error>(e),
            },
    {
        let data = self.get(index)?;
        let n = data.len() / 2;
        let mut units: Vec<u16> = Vec::new();
        let mut i: usize = 0;
        while i < n
            invariant
                i <= n,
                n == data@.len() / 2,
                2 * n <= data@.len() <= usize::MAX,
                units@.len() == i,
                forall|j: int| 0 <= j < i ==> units@[j] == utf16_units(data@)[j],
            decreases n - i,
        {
            let unit: u16 = data[2 * i] as u16 + 0x100 * (data[2 * i + 1] as u16);
            units.push(unit);
            i = i + 1;
        }
        assert(units@ =~= utf16_units(data@));
        match string_from_utf16(units.as_slice()) {
            Some(s) => Ok(s),
            None => Err(Error::Utf16Error),
        }
    }
}

impl crate::DnPe {
    /// Wraps the bytes of a `#US` stream.
    pub fn new_user_string_heap(
        &self,
        _metadata_rva: &u32,
        _stream_offset: &u32,
        _stream_size: &usize,
        _stream_name: &str,
        stream_data: Vec<u8>,
    ) -> (r: Result<super::Stream>)
        ensures
            r matches Ok(super::Stream::UserStringHeap(h)) && h.bytes() == stream_data@,
    {
        Ok(super::Stream::UserStringHeap(UserStringHeap::new(stream_data)))
    }
}

} // verus!
