//! The handle on a data buffer that is handed to the device.
use vstd::prelude::*;

verus! {

/// A contiguous buffer in physically addressable memory: where it starts and
/// how many bytes it has. The handle names the memory; it does not own it.
#[derive(Debug, PartialEq, Eq, Structural)]
pub struct BufPtr {
    buf_ptr: usize,
    len: usize,
}

impl BufPtr {
    /// The physical address of the first byte.
    pub closed spec fn addr(&self) -> usize {
        self.buf_ptr
    }

    /// The number of bytes.
    pub closed spec fn size(&self) -> usize {
        self.len
    }

    /// The handle on `len` bytes at physical address `buf_ptr`.
    pub fn new(buf_ptr: usize, len: usize) -> (buf: Self)
        ensures
            buf.addr() == buf_ptr,
            buf.size() == len,
    {
        BufPtr { buf_ptr, len }
    }

    /// The physical address of the first byte.
    pub fn as_ptr(&self) -> (addr: usize)
        ensures
            addr == self.addr(),
    {
        self.buf_ptr
    }

    /// The number of bytes.
    pub fn len(&self) -> (len: usize)
        ensures
            len == self.size(),
    {
        self.len
    }
}

} // verus!
