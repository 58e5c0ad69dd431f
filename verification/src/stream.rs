//! Font file streams: sized, randomly readable capabilities over font bytes.
//!
//! A stream is what a loader hands back to the engine for a decoded key.
//! Reads are by absolute offset, so the capability is safe to use from a
//! context other than the one that created it: no cursor, no shared state.

use crate::error::{Error, ErrorKind, STATUS_IO_FAILED};
use vstd::prelude::*;

verus! {

/// An in-memory stream over font bytes.
#[derive(Debug)]
pub struct FontStream {
    data: Vec<u8>,
}

impl View for FontStream {
    type V = Seq<u8>;

    closed spec fn view(&self) -> Seq<u8> {
        self.data@
    }
}

impl FontStream {
    /// Wrap a buffer of font bytes as a stream.
    pub fn new(data: Vec<u8>) -> (r: FontStream)
        ensures
            r@ == data@,
    {
        FontStream { data }
    }

    /// The total size of the stream in bytes.
    pub fn size(&self) -> (r: usize)
        ensures
            r == self@.len(),
    {
        self.data.len()
    }

    /// Read `length` bytes starting at `offset`. Succeeds exactly when the
    /// requested fragment lies within the stream; a request past the end
    /// fails with an `IOFailure`.
    pub fn read_fragment(&self, offset: usize, length: usize) -> (r: Result<Vec<u8>, Error>)
        ensures
            offset + length <= self@.len() ==> (r matches Ok(v)
                && v@ == self@.subrange(offset as int, offset + length)),
            offset + length > self@.len() ==> (r matches Err(e)
                && e.kind == ErrorKind::IOFailure && e.status == STATUS_IO_FAILED),
    {
        if offset <= self.data.len() && length <= self.data.len() - offset {
            let part = vstd::slice::slice_subrange(self.data.as_slice(), offset, offset + length);
            Ok(vstd::slice::slice_to_vec(part))
        } else {
            Err(Error::from_status(STATUS_IO_FAILED))
        }
    }
}

} // verus!
