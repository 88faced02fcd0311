//! The cursor protocol shared by every codec: byte access plus the `limit`
//! frontier, expressed as traits so that group codecs can delegate buffer
//! and limit ownership to an arbitrary parent codec.

use vstd::prelude::*;
use vstd::bytes::spec_u16_from_le_bytes;
use vstd::bytes::spec_u32_from_le_bytes;
use vstd::bytes::spec_u64_from_le_bytes;
use vstd::bytes::spec_u16_to_le_bytes;
use vstd::bytes::spec_u32_to_le_bytes;
use vstd::bytes::spec_u64_to_le_bytes;
use vstd::bytes::u16_from_le_bytes;
use vstd::bytes::u32_from_le_bytes;
use vstd::bytes::u64_from_le_bytes;
use vstd::bytes::u16_to_le_bytes;
use vstd::bytes::u32_to_le_bytes;
use vstd::bytes::u64_to_le_bytes;
use crate::wire::splice;
use crate::wire::spec_i8_from_le_bytes;
use crate::wire::spec_i32_from_le_bytes;
use crate::wire::spec_i64_from_le_bytes;
use crate::wire::spec_i8_to_le_bytes;
use crate::wire::spec_i32_to_le_bytes;
use crate::wire::spec_i64_to_le_bytes;

verus! {

broadcast use vstd::seq_lib::group_seq_lib_default;

/// Read access to the bytes underneath a decoding codec. `readable` says the
/// chain of parent handles down to the buffer is intact.
pub trait Reader: Sized {
    spec fn bytes(&self) -> Seq<u8>;

    spec fn readable(&self) -> bool;

    fn buf_len(&self) -> (r: usize)
        requires
            self.readable(),
        ensures
            r == self.bytes().len(),
    ;

    fn get_u8_at(&self, offset: usize) -> (r: u8)
        requires
            self.readable(),
            offset < self.bytes().len(),
        ensures
            r == self.bytes()[offset as int],
    ;

    fn get_slice_at(&self, offset: usize, len: usize) -> (r: &[u8])
        requires
            self.readable(),
            offset + len <= self.bytes().len(),
        ensures
            r@ == self.bytes().subrange(offset as int, offset + len),
    ;

    fn get_u16_at(&self, offset: usize) -> (r: u16)
        requires
            self.readable(),
            offset + 2 <= self.bytes().len(),
        ensures
            r == spec_u16_from_le_bytes(self.bytes().subrange(offset as int, offset + 2)),
    {
        let n: usize = self.buf_len();
        assert(offset + 2 <= n);
        u16_from_le_bytes(self.get_slice_at(offset, 2))
    }

    fn get_u32_at(&self, offset: usize) -> (r: u32)
        requires
            self.readable(),
            offset + 4 <= self.bytes().len(),
        ensures
            r == spec_u32_from_le_bytes(self.bytes().subrange(offset as int, offset + 4)),
    {
        let n: usize = self.buf_len();
        assert(offset + 4 <= n);
        u32_from_le_bytes(self.get_slice_at(offset, 4))
    }

    fn get_u64_at(&self, offset: usize) -> (r: u64)
        requires
            self.readable(),
            offset + 8 <= self.bytes().len(),
        ensures
            r == spec_u64_from_le_bytes(self.bytes().subrange(offset as int, offset + 8)),
    {
        let n: usize = self.buf_len();
        assert(offset + 8 <= n);
        u64_from_le_bytes(self.get_slice_at(offset, 8))
    }

    fn get_i8_at(&self, offset: usize) -> (r: i8)
        requires
            self.readable(),
            offset + 1 <= self.bytes().len(),
        ensures
            r == spec_i8_from_le_bytes(self.bytes().subrange(offset as int, offset + 1)),
    {
        let b = self.get_u8_at(offset);
        proof {
            assert(self.bytes().subrange(offset as int, offset + 1)[0] == b);
        }
        #[verifier::truncate] (b as i8)
    }

    fn get_i32_at(&self, offset: usize) -> (r: i32)
        requires
            self.readable(),
            offset + 4 <= self.bytes().len(),
        ensures
            r == spec_i32_from_le_bytes(self.bytes().subrange(offset as int, offset + 4)),
    {
        let b = self.get_u32_at(offset);
        #[verifier::truncate] (b as i32)
    }

    fn get_i64_at(&self, offset: usize) -> (r: i64)
        requires
            self.readable(),
            offset + 8 <= self.bytes().len(),
        ensures
            r == spec_i64_from_le_bytes(self.bytes().subrange(offset as int, offset + 8)),
    {
        let b = self.get_u64_at(offset);
        #[verifier::truncate] (b as i64)
    }

    fn get_bytes_at(&self, offset: usize) -> (r: [u8; 16])
        requires
            self.readable(),
            offset + 16 <= self.bytes().len(),
        ensures
            r@ == self.bytes().subrange(offset as int, offset + 16),
    {
        let n: usize = self.buf_len();
        assert(offset + 16 <= n);
        let r: [u8; 16] = [
            self.get_u8_at(offset),
            self.get_u8_at(offset + 1),
            self.get_u8_at(offset + 2),
            self.get_u8_at(offset + 3),
            self.get_u8_at(offset + 4),
            self.get_u8_at(offset + 5),
            self.get_u8_at(offset + 6),
            self.get_u8_at(offset + 7),
            self.get_u8_at(offset + 8),
            self.get_u8_at(offset + 9),
            self.get_u8_at(offset + 10),
            self.get_u8_at(offset + 11),
            self.get_u8_at(offset + 12),
            self.get_u8_at(offset + 13),
            self.get_u8_at(offset + 14),
            self.get_u8_at(offset + 15),
        ];
        assert(r@ =~= self.bytes().subrange(offset as int, offset + 16));
        r
    }
}

/// A decoding codec with a `limit`: the first byte not yet consumed. Group
/// and variable-length decoding advance it; everything else about the codec
/// (`same_frame`) stays put.
pub trait Decoder: Reader {
    spec fn spec_limit(&self) -> int;

    /// `other` agrees with `self` on every part of the state except,
    /// possibly, the limit.
    spec fn same_frame(&self, other: &Self) -> bool;

    proof fn lemma_frame_refl(&self)
        ensures
            self.same_frame(self),
    ;

    proof fn lemma_frame_trans(&self, b: &Self, c: &Self)
        requires
            self.same_frame(b),
            b.same_frame(c),
        ensures
            self.same_frame(c),
    ;

    proof fn lemma_frame_props(&self, other: &Self)
        requires
            self.same_frame(other),
        ensures
            other.bytes() == self.bytes(),
            other.readable() == self.readable(),
    ;

    fn get_limit(&self) -> (r: usize)
        requires
            self.readable(),
        ensures
            r == self.spec_limit(),
    ;

    fn set_limit(&mut self, limit: usize)
        requires
            old(self).readable(),
            limit <= old(self).bytes().len(),
        ensures
            final(self).readable(),
            final(self).bytes() == old(self).bytes(),
            final(self).spec_limit() == limit,
            old(self).same_frame(final(self)),
    ;
}

/// An encoding codec: write access to the bytes underneath, plus the
/// `limit` frontier where groups and variable-length data are appended.
/// Writes replace bytes in place and never change the buffer's length;
/// `same_frame` says everything except the byte contents and the limit is
/// unchanged.
pub trait Encoder: Sized {
    spec fn bytes(&self) -> Seq<u8>;

    spec fn writable(&self) -> bool;

    spec fn spec_limit(&self) -> int;

    /// `other` agrees with `self` on every part of the state except,
    /// possibly, the byte contents and the limit.
    spec fn same_frame(&self, other: &Self) -> bool;

    proof fn lemma_frame_refl(&self)
        ensures
            self.same_frame(self),
    ;

    proof fn lemma_frame_trans(&self, b: &Self, c: &Self)
        requires
            self.same_frame(b),
            b.same_frame(c),
        ensures
            self.same_frame(c),
    ;

    proof fn lemma_frame_props(&self, other: &Self)
        requires
            self.same_frame(other),
        ensures
            other.writable() == self.writable(),
            other.bytes().len() == self.bytes().len(),
    ;

    fn buf_len(&self) -> (r: usize)
        requires
            self.writable(),
        ensures
            r == self.bytes().len(),
    ;

    fn get_limit(&self) -> (r: usize)
        requires
            self.writable(),
        ensures
            r == self.spec_limit(),
    ;

    fn set_limit(&mut self, limit: usize)
        requires
            old(self).writable(),
            limit <= old(self).bytes().len(),
        ensures
            final(self).writable(),
            final(self).bytes() == old(self).bytes(),
            final(self).spec_limit() == limit,
            old(self).same_frame(final(self)),
    ;

    fn put_u8_at(&mut self, offset: usize, value: u8)
        requires
            old(self).writable(),
            offset < old(self).bytes().len(),
        ensures
            final(self).writable(),
            final(self).bytes() == old(self).bytes().update(offset as int, value),
            final(self).spec_limit() == old(self).spec_limit(),
            old(self).same_frame(final(self)),
    ;

    fn put_slice_at(&mut self, offset: usize, src: &[u8])
        requires
            old(self).writable(),
            offset + src@.len() <= old(self).bytes().len(),
        ensures
            final(self).writable(),
            final(self).bytes() == splice(old(self).bytes(), offset as int, src@),
            final(self).spec_limit() == old(self).spec_limit(),
            old(self).same_frame(final(self)),
    {
        let ghost s0: Self = *self;
        let n: usize = self.buf_len();
        let m: usize = src.len();
        proof {
            self.lemma_frame_refl();
        }
        let mut i: usize = 0;
        while i < m
            invariant
                i <= m,
                m == src@.len(),
                offset + m <= n,
                n == s0.bytes().len(),
                self.writable(),
                self.bytes().len() == s0.bytes().len(),
                self.spec_limit() == s0.spec_limit(),
                s0.same_frame(self),
                forall|k: int|
                    0 <= k < s0.bytes().len() ==> self.bytes()[k] == (if offset <= k < offset + i {
                        src@[k - offset]
                    } else {
                        s0.bytes()[k]
                    }),
            decreases m - i,
        {
            let ghost sa: Self = *self;
            let v: u8 = src[i];
            self.put_u8_at(offset + i, v);
            proof {
                s0.lemma_frame_trans(&sa, self);
            }
            i += 1;
        }
        proof {
            assert(self.bytes() =~= splice(s0.bytes(), offset as int, src@));
        }
    }

    fn put_u16_at(&mut self, offset: usize, value: u16)
        requires
            old(self).writable(),
            offset + 2 <= old(self).bytes().len(),
        ensures
            final(self).writable(),
            final(self).bytes() == splice(
                old(self).bytes(),
                offset as int,
                spec_u16_to_le_bytes(value),
            ),
            final(self).spec_limit() == old(self).spec_limit(),
            old(self).same_frame(final(self)),
    {
        proof {
            vstd::bytes::lemma_auto_spec_u16_to_from_le_bytes();
        }
        let b = u16_to_le_bytes(value);
        self.put_slice_at(offset, b.as_slice());
    }

    fn put_u32_at(&mut self, offset: usize, value: u32)
        requires
            old(self).writable(),
            offset + 4 <= old(self).bytes().len(),
        ensures
            final(self).writable(),
            final(self).bytes() == splice(
                old(self).bytes(),
                offset as int,
                spec_u32_to_le_bytes(value),
            ),
            final(self).spec_limit() == old(self).spec_limit(),
            old(self).same_frame(final(self)),
    {
        proof {
            vstd::bytes::lemma_auto_spec_u32_to_from_le_bytes();
        }
        let b = u32_to_le_bytes(value);
        self.put_slice_at(offset, b.as_slice());
    }

    fn put_u64_at(&mut self, offset: usize, value: u64)
        requires
            old(self).writable(),
            offset + 8 <= old(self).bytes().len(),
        ensures
            final(self).writable(),
            final(self).bytes() == splice(
                old(self).bytes(),
                offset as int,
                spec_u64_to_le_bytes(value),
            ),
            final(self).spec_limit() == old(self).spec_limit(),
            old(self).same_frame(final(self)),
    {
        proof {
            vstd::bytes::lemma_auto_spec_u64_to_from_le_bytes();
        }
        let b = u64_to_le_bytes(value);
        self.put_slice_at(offset, b.as_slice());
    }

    fn put_i8_at(&mut self, offset: usize, value: i8)
        requires
            old(self).writable(),
            offset + 1 <= old(self).bytes().len(),
        ensures
            final(self).writable(),
            final(self).bytes() == splice(
                old(self).bytes(),
                offset as int,
                spec_i8_to_le_bytes(value),
            ),
            final(self).spec_limit() == old(self).spec_limit(),
            old(self).same_frame(final(self)),
    {
        self.put_u8_at(offset, #[verifier::truncate] (value as u8));
        proof {
            assert(final(self).bytes() =~= splice(
                old(self).bytes(),
                offset as int,
                spec_i8_to_le_bytes(value),
            ));
        }
    }

    fn put_i32_at(&mut self, offset: usize, value: i32)
        requires
            old(self).writable(),
            offset + 4 <= old(self).bytes().len(),
        ensures
            final(self).writable(),
            final(self).bytes() == splice(
                old(self).bytes(),
                offset as int,
                spec_i32_to_le_bytes(value),
            ),
            final(self).spec_limit() == old(self).spec_limit(),
            old(self).same_frame(final(self)),
    {
        self.put_u32_at(offset, #[verifier::truncate] (value as u32));
    }

    fn put_i64_at(&mut self, offset: usize, value: i64)
        requires
            old(self).writable(),
            offset + 8 <= old(self).bytes().len(),
        ensures
            final(self).writable(),
            final(self).bytes() == splice(
                old(self).bytes(),
                offset as int,
                spec_i64_to_le_bytes(value),
            ),
            final(self).spec_limit() == old(self).spec_limit(),
            old(self).same_frame(final(self)),
    {
        self.put_u64_at(offset, #[verifier::truncate] (value as u64));
    }

    fn put_bytes_at(&mut self, offset: usize, value: [u8; 16])
        requires
            old(self).writable(),
            offset + 16 <= old(self).bytes().len(),
        ensures
            final(self).writable(),
            final(self).bytes() == splice(old(self).bytes(), offset as int, value@),
            final(self).spec_limit() == old(self).spec_limit(),
            old(self).same_frame(final(self)),
    {
        self.put_slice_at(offset, value.as_slice());
    }
}

} // verus!
