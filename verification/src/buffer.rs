//! Byte-buffer views: a borrowed read-only window and an owned writable
//! region, the leaves every codec chain bottoms out in.

use vstd::prelude::*;
use crate::codec::Reader;
use vstd::slice::slice_subrange;

verus! {

/// A borrowed, read-only window over a byte region.
#[derive(Clone, Copy)]
pub struct ReadBuf<'a> {
    pub data: &'a [u8],
}

impl<'a> ReadBuf<'a> {
    pub fn new(data: &'a [u8]) -> (r: ReadBuf<'a>)
        ensures
            r.data@ == data@,
    {
        ReadBuf { data }
    }
}

impl<'a> Reader for ReadBuf<'a> {
    open spec fn bytes(&self) -> Seq<u8> {
        self.data@
    }

    open spec fn readable(&self) -> bool {
        true
    }

    fn buf_len(&self) -> (r: usize) {
        self.data.len()
    }

    fn get_u8_at(&self, offset: usize) -> (r: u8) {
        self.data[offset]
    }

    fn get_slice_at(&self, offset: usize, len: usize) -> (r: &[u8]) {
        let n: usize = self.data.len();
        assert(offset + len <= n);
        slice_subrange(self.data, offset, offset + len)
    }
}

/// An owned, writable byte region; writes replace bytes in place and never
/// change its length.
pub struct WriteBuf {
    pub data: Vec<u8>,
}

impl WriteBuf {
    pub fn new(data: Vec<u8>) -> (r: WriteBuf)
        ensures
            r.data@ == data@,
    {
        WriteBuf { data }
    }

    /// Hands the byte region back once encoding is done.
    pub fn into_inner(self) -> (r: Vec<u8>)
        ensures
            r@ == self.data@,
    {
        self.data
    }

    pub fn len(&self) -> (r: usize)
        ensures
            r == self.data@.len(),
    {
        self.data.len()
    }

    pub fn put_u8_at(&mut self, offset: usize, value: u8)
        requires
            offset < old(self).data@.len(),
        ensures
            final(self).data@ == old(self).data@.update(offset as int, value),
    {
        self.data[offset] = value;
    }
}

impl Default for WriteBuf {
    fn default() -> (r: WriteBuf)
        ensures
            r.data@.len() == 0,
    {
        WriteBuf { data: Vec::new() }
    }
}

} // verus!
