//! Codec for the notional filter message: a fixed block of six fields and no
//! groups or variable-length data.

use vstd::prelude::*;
use vstd::bytes::spec_u16_to_le_bytes;
use crate::buffer::ReadBuf;
use crate::buffer::WriteBuf;
use crate::codec::Decoder;
use crate::codec::Encoder;
use crate::codec::Reader;
use crate::enums::BoolEnum;
use crate::enums::bool_enum_from_byte;
use crate::enums::bool_enum_to_byte;
use crate::enums::FilterType;
use crate::enums::filter_type_from_byte;
use crate::enums::filter_type_to_byte;
use crate::message_header_codec;
use crate::message_header_codec::MessageHeaderDecoder;
use crate::message_header_codec::MessageHeaderEncoder;
use crate::message_header_codec::header_image;
use crate::wire::spec_i32_from_le_bytes;
use crate::wire::spec_i32_to_le_bytes;
use crate::wire::spec_i64_from_le_bytes;
use crate::wire::spec_i64_to_le_bytes;
use crate::wire::spec_i8_from_le_bytes;
use crate::wire::spec_i8_to_le_bytes;
use crate::wire::splice;
use crate::SbeErr;
use crate::SbeResult;

use vstd::seq_lib::group_seq_lib_default;

verus! {

broadcast use group_seq_lib_default;

pub const SBE_BLOCK_LENGTH: u16 = 23;

pub const SBE_TEMPLATE_ID: u16 = 6;

pub const SBE_SCHEMA_ID: u16 = 2;

pub const SBE_SCHEMA_VERSION: u16 = 1;

pub const SBE_SEMANTIC_VERSION: &'static str = "5.2";

/// Writes the fixed block of a message, then groups and
/// variable-length data at the advancing limit.
pub struct NotionalFilterEncoder {
    pub buf: WriteBuf,
    pub initial_offset: usize,
    pub offset: usize,
    pub limit: usize,
}

impl Default for NotionalFilterEncoder {
    fn default() -> (r: NotionalFilterEncoder)
        ensures
            r.buf.data@.len() == 0,
            r.offset == 0,
            r.limit == 0,
    {
        NotionalFilterEncoder {
            buf: WriteBuf { data: Vec::new() },
            initial_offset: 0,
            offset: 0,
            limit: 0,
        }
    }
}

impl Encoder for NotionalFilterEncoder {
    open spec fn bytes(&self) -> Seq<u8> {
        self.buf.data@
    }

    open spec fn writable(&self) -> bool {
        true
    }

    open spec fn spec_limit(&self) -> int {
        self.limit as int
    }

    open spec fn same_frame(&self, other: &Self) -> bool {
        &&& other.initial_offset == self.initial_offset
        &&& other.offset == self.offset
        &&& other.buf.data@.len() == self.buf.data@.len()
    }

    proof fn lemma_frame_refl(&self) {
    }

    proof fn lemma_frame_trans(&self, b: &Self, c: &Self) {
    }

    proof fn lemma_frame_props(&self, other: &Self) {
    }

    fn buf_len(&self) -> (r: usize) {
        self.buf.len()
    }

    fn get_limit(&self) -> (r: usize) {
        self.limit
    }

    fn set_limit(&mut self, limit: usize) {
        self.limit = limit;
    }

    fn put_u8_at(&mut self, offset: usize, value: u8) {
        self.buf.put_u8_at(offset, value);
    }
}

impl NotionalFilterEncoder {
    /// The encoder is positioned on a block that lies inside the
    /// buffer, with the limit at or past the end of the block.
    pub open spec fn wf(&self) -> bool {
        &&& self.offset == self.initial_offset
        &&& self.offset + SBE_BLOCK_LENGTH as int <= self.limit
        &&& self.limit <= self.buf.data@.len()
    }

    /// Positions the encoder's fixed block at `offset`; fails when the
    /// block does not fit in the buffer.
    pub fn wrap(self, buf: WriteBuf, offset: usize) -> (r: SbeResult<Self>)
        ensures
            match r {
                Ok(e) => {
                    &&& offset + SBE_BLOCK_LENGTH as int <= buf.data@.len()
                    &&& e.wf()
                    &&& e.bytes() == buf.data@
                    &&& e.offset == offset
                    &&& e.spec_limit() == offset + SBE_BLOCK_LENGTH as int
                },
                Err(err) => {
                    &&& err == SbeErr::BufferOverrun
                    &&& offset + SBE_BLOCK_LENGTH as int > buf.data@.len()
                },
            },
    {
        let n: usize = buf.len();
        if offset > n || n - offset < SBE_BLOCK_LENGTH as usize {
            return Err(SbeErr::BufferOverrun);
        }
        Ok(NotionalFilterEncoder {
            buf,
            initial_offset: offset,
            offset,
            limit: offset + SBE_BLOCK_LENGTH as usize,
        })
    }

    /// Bytes written or reserved so far for this message.
    pub fn encoded_length(&self) -> (r: usize)
        requires
            self.wf(),
        ensures
            r == self.spec_limit() - self.offset,
    {
        self.limit - self.offset
    }

    /// Hands the finished buffer back.
    pub fn into_writebuf(self) -> (r: WriteBuf)
        ensures
            r.data@ == self.bytes(),
    {
        self.buf
    }

    /// Writes this message's envelope at `offset` and returns the
    /// header codec holding this encoder as its parent.
    pub fn header(self, offset: usize) -> (r: SbeResult<MessageHeaderEncoder<Self>>)
        requires
            self.wf(),
        ensures
            match r {
                Ok(h) => {
                    &&& h.parent is Some
                    &&& h.offset == offset
                    &&& h.wf()
                    &&& h.parent->0.wf()
                    &&& h.parent->0.bytes() == splice(
                        self.bytes(),
                        offset as int,
                        header_image(
                            SBE_BLOCK_LENGTH,
                            SBE_TEMPLATE_ID,
                            SBE_SCHEMA_ID,
                            SBE_SCHEMA_VERSION,
                        ),
                    )
                    &&& h.parent->0.spec_limit() == self.spec_limit()
                    &&& self.same_frame(&h.parent->0)
                },
                Err(e) => {
                    &&& e == SbeErr::BufferOverrun
                    &&& offset + message_header_codec::ENCODED_LENGTH as int
                        > self.bytes().len()
                },
            },
    {
        proof {
            vstd::bytes::lemma_auto_spec_u16_to_from_le_bytes();
        }
        let mut h = MessageHeaderEncoder::default().wrap(self, offset)?;
        h.block_length(SBE_BLOCK_LENGTH)?;
        h.template_id(SBE_TEMPLATE_ID)?;
        h.schema_id(SBE_SCHEMA_ID)?;
        h.version(SBE_SCHEMA_VERSION)?;
        proof {
            assert(h.parent->0.bytes() =~= splice(
                self.bytes(),
                offset as int,
                header_image(
                    SBE_BLOCK_LENGTH,
                    SBE_TEMPLATE_ID,
                    SBE_SCHEMA_ID,
                    SBE_SCHEMA_VERSION,
                ),
            ));
        }
        Ok(h)
    }

    /// Writes the 'price_exponent' field (i8, block offset 0).
    pub fn price_exponent(&mut self, value: i8)
        requires
            old(self).wf(),
        ensures
            final(self).wf(),
            final(self).bytes() == splice(old(self).bytes(), old(self).offset as int, spec_i8_to_le_bytes(value)),
            final(self).spec_limit() == old(self).spec_limit(),
            old(self).same_frame(final(self)),
    {
        let n: usize = self.buf.len();
        assert(self.offset + SBE_BLOCK_LENGTH as int <= n);
        let offset = self.offset;
        self.put_i8_at(offset, value);
    }

    /// Writes the 'min_notional' field (i64, block offset 1).
    pub fn min_notional(&mut self, value: i64)
        requires
            old(self).wf(),
        ensures
            final(self).wf(),
            final(self).bytes() == splice(old(self).bytes(), old(self).offset + 1, spec_i64_to_le_bytes(value)),
            final(self).spec_limit() == old(self).spec_limit(),
            old(self).same_frame(final(self)),
    {
        let n: usize = self.buf.len();
        assert(self.offset + SBE_BLOCK_LENGTH as int <= n);
        let offset = self.offset + 1;
        self.put_i64_at(offset, value);
    }

    /// Writes the single-byte 'apply_min_to_market' enum field at block offset 9.
    pub fn apply_min_to_market(&mut self, value: BoolEnum)
        requires
            old(self).wf(),
        ensures
            final(self).wf(),
            final(self).bytes() == old(self).bytes().update(old(self).offset + 9, bool_enum_to_byte(value)),
            final(self).spec_limit() == old(self).spec_limit(),
            old(self).same_frame(final(self)),
    {
        let n: usize = self.buf.len();
        assert(self.offset + SBE_BLOCK_LENGTH as int <= n);
        let offset = self.offset + 9;
        let b = value.value();
        self.put_u8_at(offset, b);
    }

    /// Writes the 'max_notional' field (i64, block offset 10).
    pub fn max_notional(&mut self, value: i64)
        requires
            old(self).wf(),
        ensures
            final(self).wf(),
            final(self).bytes() == splice(old(self).bytes(), old(self).offset + 10, spec_i64_to_le_bytes(value)),
            final(self).spec_limit() == old(self).spec_limit(),
            old(self).same_frame(final(self)),
    {
        let n: usize = self.buf.len();
        assert(self.offset + SBE_BLOCK_LENGTH as int <= n);
        let offset = self.offset + 10;
        self.put_i64_at(offset, value);
    }

    /// Writes the single-byte 'apply_max_to_market' enum field at block offset 18.
    pub fn apply_max_to_market(&mut self, value: BoolEnum)
        requires
            old(self).wf(),
        ensures
            final(self).wf(),
            final(self).bytes() == old(self).bytes().update(old(self).offset + 18, bool_enum_to_byte(value)),
            final(self).spec_limit() == old(self).spec_limit(),
            old(self).same_frame(final(self)),
    {
        let n: usize = self.buf.len();
        assert(self.offset + SBE_BLOCK_LENGTH as int <= n);
        let offset = self.offset + 18;
        let b = value.value();
        self.put_u8_at(offset, b);
    }

    /// Writes the 'avg_price_mins' field (i32, block offset 19).
    pub fn avg_price_mins(&mut self, value: i32)
        requires
            old(self).wf(),
        ensures
            final(self).wf(),
            final(self).bytes() == splice(old(self).bytes(), old(self).offset + 19, spec_i32_to_le_bytes(value)),
            final(self).spec_limit() == old(self).spec_limit(),
            old(self).same_frame(final(self)),
    {
        let n: usize = self.buf.len();
        assert(self.offset + SBE_BLOCK_LENGTH as int <= n);
        let offset = self.offset + 19;
        self.put_i32_at(offset, value);
    }
}

/// Reads the fixed block of a message, then groups and
/// variable-length data at the advancing limit.
#[derive(Clone, Copy)]
pub struct NotionalFilterDecoder<'a> {
    pub buf: ReadBuf<'a>,
    pub initial_offset: usize,
    pub offset: usize,
    pub limit: usize,
    pub acting_block_length: u16,
    pub acting_version: u16,
}

impl<'a> Default for NotionalFilterDecoder<'a> {
    fn default() -> (r: NotionalFilterDecoder<'a>)
        ensures
            r.offset == 0,
            r.limit == 0,
            r.acting_block_length == 0,
            r.acting_version == 0,
    {
        NotionalFilterDecoder {
            buf: ReadBuf { data: &[] },
            initial_offset: 0,
            offset: 0,
            limit: 0,
            acting_block_length: 0,
            acting_version: 0,
        }
    }
}

impl<'a> Reader for NotionalFilterDecoder<'a> {
    open spec fn bytes(&self) -> Seq<u8> {
        self.buf.data@
    }

    open spec fn readable(&self) -> bool {
        true
    }

    fn buf_len(&self) -> (r: usize) {
        self.buf.data.len()
    }

    fn get_u8_at(&self, offset: usize) -> (r: u8) {
        self.buf.get_u8_at(offset)
    }

    fn get_slice_at(&self, offset: usize, len: usize) -> (r: &[u8]) {
        self.buf.get_slice_at(offset, len)
    }
}

impl<'a> Decoder for NotionalFilterDecoder<'a> {
    open spec fn spec_limit(&self) -> int {
        self.limit as int
    }

    open spec fn same_frame(&self, other: &Self) -> bool {
        &&& other.buf.data@ == self.buf.data@
        &&& other.initial_offset == self.initial_offset
        &&& other.offset == self.offset
        &&& other.acting_block_length == self.acting_block_length
        &&& other.acting_version == self.acting_version
    }

    proof fn lemma_frame_refl(&self) {
    }

    proof fn lemma_frame_trans(&self, b: &Self, c: &Self) {
    }

    proof fn lemma_frame_props(&self, other: &Self) {
    }

    fn get_limit(&self) -> (r: usize) {
        self.limit
    }

    fn set_limit(&mut self, limit: usize) {
        self.limit = limit;
    }
}

impl<'a> NotionalFilterDecoder<'a> {
    /// The decoder is positioned on an acting block that lies inside
    /// the buffer.
    pub open spec fn wf(&self) -> bool {
        &&& self.offset == self.initial_offset
        &&& self.offset + self.acting_block_length as int <= self.buf.data@.len()
        &&& self.offset <= self.limit <= self.buf.data@.len()
    }

    /// Positions the decoder at `offset` with the block length and
    /// schema version the envelope declared; fails when the declared
    /// block does not lie inside the buffer.
    pub fn wrap(
        self,
        buf: ReadBuf<'a>,
        offset: usize,
        acting_block_length: u16,
        acting_version: u16,
    ) -> (r: SbeResult<Self>)
        ensures
            match r {
                Ok(d) => {
                    &&& offset + acting_block_length as int <= buf.data@.len()
                    &&& d.wf()
                    &&& d.bytes() == buf.data@
                    &&& d.offset == offset
                    &&& d.acting_block_length == acting_block_length
                    &&& d.acting_version == acting_version
                    &&& d.spec_limit() == offset + acting_block_length as int
                },
                Err(e) => {
                    &&& e == SbeErr::BufferOverrun
                    &&& offset + acting_block_length as int > buf.data@.len()
                },
            },
    {
        let n: usize = buf.data.len();
        if offset > n || n - offset < acting_block_length as usize {
            return Err(SbeErr::BufferOverrun);
        }
        Ok(NotionalFilterDecoder {
            buf,
            initial_offset: offset,
            offset,
            limit: offset + acting_block_length as usize,
            acting_block_length,
            acting_version,
        })
    }

    /// Bytes consumed or declared so far for this message.
    pub fn encoded_length(&self) -> (r: usize)
        requires
            self.wf(),
        ensures
            r == self.spec_limit() - self.offset,
    {
        self.limit - self.offset
    }

    /// Checks the envelope's template id and positions the decoder
    /// right behind the envelope, using the block length and version
    /// the envelope declares.
    pub fn header(self, header: MessageHeaderDecoder<ReadBuf<'a>>) -> (r: SbeResult<Self>)
        requires
            header.wf(),
            header.offset == 0,
        ensures
            match r {
                Ok(d) => {
                    &&& header.parent is Some
                    &&& header.spec_template_id() == SBE_TEMPLATE_ID
                    &&& d.wf()
                    &&& d.bytes() == header.parent->0.bytes()
                    &&& d.offset == message_header_codec::ENCODED_LENGTH
                    &&& d.acting_block_length == header.spec_block_length()
                    &&& d.acting_version == header.spec_version()
                    &&& d.spec_limit() == message_header_codec::ENCODED_LENGTH
                        + header.spec_block_length() as int
                },
                Err(e) => {
                    ||| (e == SbeErr::ParentNotSet && header.parent is None)
                    ||| (e == SbeErr::UnexpectedTemplate && header.parent is Some
                        && header.spec_template_id() != SBE_TEMPLATE_ID)
                    ||| (e == SbeErr::BufferOverrun && header.parent is Some
                        && header.spec_template_id() == SBE_TEMPLATE_ID
                        && message_header_codec::ENCODED_LENGTH
                            + header.spec_block_length() as int
                            > header.parent->0.bytes().len())
                },
            },
    {
        let template_id = header.template_id()?;
        if template_id != SBE_TEMPLATE_ID {
            return Err(SbeErr::UnexpectedTemplate);
        }
        let acting_block_length = header.block_length()?;
        let acting_version = header.version()?;
        let mut h = header;
        let buf = h.parent()?;
        self.wrap(
            buf,
            message_header_codec::ENCODED_LENGTH,
            acting_block_length,
            acting_version,
        )
    }

    /// The filter kind; a constant of this template, never read from
    /// the buffer.
    pub fn filter_type(&self) -> (r: FilterType)
        ensures
            r == FilterType::Notional,
    {
        FilterType::Notional
    }

    /// Reads the 'price_exponent' field (i8, block offset 0).
    pub fn price_exponent(&self) -> (r: SbeResult<i8>)
        requires
            self.wf(),
        ensures
            match r {
                Ok(v) => {
                    &&& 1 <= self.acting_block_length
                    &&& v == spec_i8_from_le_bytes(self.bytes().subrange(self.offset as int, self.offset + 1))
                },
                Err(e) => e == SbeErr::BufferOverrun && self.acting_block_length < 1,
            },
    {
        if (self.acting_block_length as usize) < 1 {
            return Err(SbeErr::BufferOverrun);
        }
        let n: usize = self.buf.data.len();
        assert(self.offset + self.acting_block_length as int <= n);
        Ok(self.get_i8_at(self.offset))
    }

    /// Reads the 'min_notional' field (i64, block offset 1).
    pub fn min_notional(&self) -> (r: SbeResult<i64>)
        requires
            self.wf(),
        ensures
            match r {
                Ok(v) => {
                    &&& 9 <= self.acting_block_length
                    &&& v == spec_i64_from_le_bytes(self.bytes().subrange(self.offset + 1, self.offset + 9))
                },
                Err(e) => e == SbeErr::BufferOverrun && self.acting_block_length < 9,
            },
    {
        if (self.acting_block_length as usize) < 9 {
            return Err(SbeErr::BufferOverrun);
        }
        let n: usize = self.buf.data.len();
        assert(self.offset + self.acting_block_length as int <= n);
        Ok(self.get_i64_at(self.offset + 1))
    }

    /// Reads the single-byte 'apply_min_to_market' enum field at block offset 9;
    /// an unrecognized byte decodes to the reserved null value.
    pub fn apply_min_to_market(&self) -> (r: SbeResult<BoolEnum>)
        requires
            self.wf(),
        ensures
            match r {
                Ok(v) => {
                    &&& 10 <= self.acting_block_length
                    &&& v == bool_enum_from_byte(self.bytes()[self.offset + 9])
                },
                Err(e) => e == SbeErr::BufferOverrun && self.acting_block_length < 10,
            },
    {
        if (self.acting_block_length as usize) < 10 {
            return Err(SbeErr::BufferOverrun);
        }
        let n: usize = self.buf.data.len();
        assert(self.offset + self.acting_block_length as int <= n);
        Ok(BoolEnum::from(self.get_u8_at(self.offset + 9)))
    }

    /// Reads the 'max_notional' field (i64, block offset 10).
    pub fn max_notional(&self) -> (r: SbeResult<i64>)
        requires
            self.wf(),
        ensures
            match r {
                Ok(v) => {
                    &&& 18 <= self.acting_block_length
                    &&& v == spec_i64_from_le_bytes(self.bytes().subrange(self.offset + 10, self.offset + 18))
                },
                Err(e) => e == SbeErr::BufferOverrun && self.acting_block_length < 18,
            },
    {
        if (self.acting_block_length as usize) < 18 {
            return Err(SbeErr::BufferOverrun);
        }
        let n: usize = self.buf.data.len();
        assert(self.offset + self.acting_block_length as int <= n);
        Ok(self.get_i64_at(self.offset + 10))
    }

    /// Reads the single-byte 'apply_max_to_market' enum field at block offset 18;
    /// an unrecognized byte decodes to the reserved null value.
    pub fn apply_max_to_market(&self) -> (r: SbeResult<BoolEnum>)
        requires
            self.wf(),
        ensures
            match r {
                Ok(v) => {
                    &&& 19 <= self.acting_block_length
                    &&& v == bool_enum_from_byte(self.bytes()[self.offset + 18])
                },
                Err(e) => e == SbeErr::BufferOverrun && self.acting_block_length < 19,
            },
    {
        if (self.acting_block_length as usize) < 19 {
            return Err(SbeErr::BufferOverrun);
        }
        let n: usize = self.buf.data.len();
        assert(self.offset + self.acting_block_length as int <= n);
        Ok(BoolEnum::from(self.get_u8_at(self.offset + 18)))
    }

    /// Reads the 'avg_price_mins' field (i32, block offset 19).
    pub fn avg_price_mins(&self) -> (r: SbeResult<i32>)
        requires
            self.wf(),
        ensures
            match r {
                Ok(v) => {
                    &&& 23 <= self.acting_block_length
                    &&& v == spec_i32_from_le_bytes(self.bytes().subrange(self.offset + 19, self.offset + 23))
                },
                Err(e) => e == SbeErr::BufferOverrun && self.acting_block_length < 23,
            },
    {
        if (self.acting_block_length as usize) < 23 {
            return Err(SbeErr::BufferOverrun);
        }
        let n: usize = self.buf.data.len();
        assert(self.offset + self.acting_block_length as int <= n);
        Ok(self.get_i32_at(self.offset + 19))
    }
}

} // verus!
