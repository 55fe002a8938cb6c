//! The `#GUID` heap: sixteen-byte slots, counted from one.
use vstd::prelude::*;
use crate::error::Error;
use crate::Result;

verus! {

/// The size of a slot of the heap.
pub const GUID_SIZE: usize = 16;

/// A 128-bit identifier: the sixteen bytes of a slot, the first byte the
/// most significant.
#[derive(Debug, Clone, Copy, PartialEq, Eq, Structural)]
pub struct Guid {
    pub value: u128,
}

impl Guid {
    /// The identifier whose bits are all zero.
    pub fn nil() -> (r: Self)
        ensures
            r.value == 0,
    {
        Guid { value: 0 }
    }

    /// Whether all bits are zero.
    pub fn is_nil(&self) -> (r: bool)
        ensures
            r == (self.value == 0),
    {
        self.value == 0
    }
}

impl Default for Guid {
    fn default() -> (r: Self)
        ensures
            r.value == 0,
    {
        Guid { value: 0 }
    }
}

/// The value of the first `n` bytes of `s`, the first byte the most
/// significant.
pub open spec fn be_value(s: Seq<u8>, n: int) -> int
    decreases n,
{
    if n <= 0 {
        0
    } else {
        0x100 * be_value(s, n - 1) + s[n - 1] as int
    }
}

/// Packs sixteen bytes into a 128-bit value through `uuid`.
///
/// Trusted: `Uuid::from_slice` fails on any length other than 16 and
/// otherwise keeps the bytes as they are; `Uuid::as_u128` reads them with
/// the first byte the most significant.
#[verifier::external_body]
pub(crate) fn uuid_from_slice(b: &[u8]) -> (r: Option<u128>)
    ensures
        r is Some <==> b@.len() == 16,
        r matches Some(v) ==> v as int == be_value(b@, 16),
{
    uuid::Uuid::from_slice(b).ok().map(|u| u.as_u128())
}

/// The GUID heap of an image.
#[derive(Debug, Clone)]
pub struct GuidHeap {
    data: Vec<u8>,
}

impl GuidHeap {
    /// The bytes of the heap.
    pub closed spec fn bytes(&self) -> Seq<u8> {
        self.data@
    }

    /// What a lookup of slot `index` gives: index 0 is the nil identifier,
    /// index `k` the sixteen bytes that start at `(k - 1) * 16`.
    pub open spec fn spec_get(&self, index: usize) -> Result<Guid> {
        if index < 1 {
            Ok(Guid { value: 0 })
        } else if (index - 1) * 16 + 16 > self.bytes().len() {
            Err(Error::GuidHeapReadOutOfBound(index, self.bytes().len() as usize))
        } else {
            Ok(
                Guid {
                    value: be_value(
                        self.bytes().subrange((index - 1) * 16, (index - 1) * 16 + 16),
                        16,
                    ) as u128,
                },
            )
        }
    }

    /// A heap over the bytes of a `#GUID` stream.
    pub fn new(data: Vec<u8>) -> (r: Self)
        ensures
            r.bytes() == data@,
    {
        GuidHeap { data }
    }

    /// The identifier in slot `index`; slots are counted from one, and
    /// index 0 stands for the nil identifier.
    pub fn get(&self, index: usize) -> (r: Result<Guid>)
        ensures
            r == self.spec_get(index),
            index == 0 ==> r == Ok::<Guid, Error>(Guid { value: 0 }),
    {
        if index < 1 {
            return Ok(Guid::nil());
        }
        let len = self.data.len();
        if len < GUID_SIZE || index - 1 > (len - GUID_SIZE) / GUID_SIZE {
            return Err(Error::GuidHeapReadOutOfBound(index, len));
        }
        let offset = (index - 1) * GUID_SIZE;
        let slot = vstd::slice::slice_subrange(self.data.as_slice(), offset, offset + GUID_SIZE);
        match uuid_from_slice(slot) {
            Some(value) => Ok(Guid { value }),
            None => Err(Error::ParseGuidError),
        }
    }
}

impl crate::DnPe {
    /// Wraps the bytes of a `#GUID` stream.
    pub fn new_guid_heap(
        &self,
        _metadata_rva: &u32,
        _stream_offset: &u32,
        _stream_size: &usize,
        _stream_name: &str,
        stream_data: Vec<u8>,
    ) -> (r: Result<super::Stream>)
        ensures
            r matches Ok(super::Stream::GuidHeap(h)) && h.bytes() == stream_data@,
    {
        Ok(super::Stream::GuidHeap(GuidHeap::new(stream_data)))
    }
}

} // verus!
