//! The `#Blob` heap: byte strings behind a compressed length.
use vstd::prelude::*;
use crate::error::Error;
use crate::utils::{
    copy_range, read_compressed_usize, saturating_sum, spec_read_compressed_usize,
    spec_saturating_sum,
};
use crate::Result;

verus! {

/// The blob heap of an image.
#[derive(Debug, Clone)]
pub struct BlobHeap {
    data: Vec<u8>,
}

/// The blob that starts at `index` of a heap with the bytes `data`: a
/// compressed length, then that many bytes.
///
/// A length prefix that is cut off by the end of the heap counts as a blob
/// that ends past it. The error names the end of the blob, or the largest
/// `usize` where the end is larger.
pub open spec fn spec_blob_at(data: Seq<u8>, index: usize) -> Result<Seq<u8>> {
    if index >= data.len() {
        Err(Error::BlobHeapReadOutOfBound(index, data.len() as usize))
    } else {
        match spec_read_compressed_usize(data.subrange(index as int, data.len() as int)) {
            Ok((length, prefix)) => if index + prefix + length > data.len() {
                Err(
                    Error::BlobHeapReadOutOfBound(
                        spec_saturating_sum(index + prefix, length as int),
                        data.len() as usize,
                    ),
                )
            } else {
                Ok(data.subrange(index + prefix, index + prefix + length))
            },
            Err(Error::NotEnoughData(needed, _)) => Err(
                Error::BlobHeapReadOutOfBound(
                    spec_saturating_sum(index as int, needed as int),
                    data.len() as usize,
                ),
            ),
            Err(e) => Err(e),
        }
    }
}

impl BlobHeap {
    /// The bytes of the heap.
    pub closed spec fn bytes(&self) -> Seq<u8> {
        self.data@
    }

    /// A heap over the bytes of a `#Blob` stream.
    pub fn new(data: Vec<u8>) -> (r: Self)
        ensures
            r.bytes() == data@,
    {
        BlobHeap { data }
    }

    /// The blob at byte offset `index`.
    pub fn get(&self, index: usize) -> (r: Result<Vec<u8>>)
        ensures
            match r {
                Ok(blob) => spec_blob_at(self.bytes(), index) == Ok::<Seq<u8>, Error>(blob@),
                Err(e) => spec_blob_at(self.bytes(), index) == Err::<Seq<u8>, Error>(e),
            },
    {
        let len = self.data.len();
        if index >= len {
            return Err(Error::BlobHeapReadOutOfBound(index, len));
        }
        let tail = vstd::slice::slice_subrange(self.data.as_slice(), index, len);
        match read_compressed_usize(tail) {
            Ok((length, prefix)) => {
                if length > len - index - prefix {
                    Err(Error::BlobHeapReadOutOfBound(saturating_sum(index + prefix, length), len))
                } else {
                    Ok(copy_range(self.data.as_slice(), index + prefix, index + prefix + length))
                }
            },
            Err(Error::NotEnoughData(needed, _)) => Err(
                Error::BlobHeapReadOutOfBound(saturating_sum(index, needed), len),
            ),
            Err(e) => Err(e),
        }
    }
}

impl crate::DnPe {
    /// Wraps the bytes of a `#Blob` stream.
    pub fn new_blob_heap(
        &self,
        _metadata_rva: &u32,
        _stream_offset: &u32,
        _stream_size: &usize,
        _stream_name: &str,
        stream_data: Vec<u8>,
    ) -> (r: Result<super::Stream>)
        ensures
            r matches Ok(super::Stream::BlobHeap(h)) && h.bytes() == stream_data@,
    {
        Ok(super::Stream::BlobHeap(BlobHeap::new(stream_data)))
    }
}

} // verus!
