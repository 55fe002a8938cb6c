//! A stream that is kept without interpretation.
use vstd::prelude::*;
use crate::Result;

verus! {

/// A stream whose bytes no parser claims.
#[derive(Debug, Clone, Copy, PartialEq, Eq, Structural)]
pub struct GenericStream {}

impl crate::DnPe {
    /// Makes the placeholder for a stream that is not interpreted.
    pub fn new_generic_stream(
        &self,
        _metadata_rva: &u32,
        _stream_offset: &u32,
        _stream_size: &usize,
        _stream_name: &str,
        _stream_data: Vec<u8>,
    ) -> (r: Result<super::Stream>)
        ensures
            r matches Ok(super::Stream::GenericStream(_)),
    {
        Ok(super::Stream::GenericStream(GenericStream {  }))
    }
}

} // verus!
