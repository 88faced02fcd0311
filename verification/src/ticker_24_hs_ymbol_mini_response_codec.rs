//! Codec for the 24-hour mini ticker response message: price and volume
//! fields followed by one variable-length symbol.

use vstd::prelude::*;
use vstd::bytes::spec_u16_to_le_bytes;
use crate::buffer::ReadBuf;
use crate::buffer::WriteBuf;
use crate::codec::Decoder;
use crate::codec::Encoder;
use crate::codec::Reader;
use crate::message_header_codec;
use crate::message_header_codec::MessageHeaderDecoder;
use crate::message_header_codec::MessageHeaderEncoder;
use crate::message_header_codec::header_image;
use crate::wire::opt_i64;
use crate::wire::spec_i64_from_le_bytes;
use crate::wire::spec_i64_to_le_bytes;
use crate::wire::spec_i8_from_le_bytes;
use crate::wire::spec_i8_to_le_bytes;
use crate::wire::splice;
use crate::SbeErr;
use crate::SbeResult;

use vstd::seq_lib::group_seq_lib_default;

verus! {

broadcast use group_seq_lib_default;

pub const SBE_BLOCK_LENGTH: u16 = 106;

pub const SBE_TEMPLATE_ID: u16 = 207;

pub const SBE_SCHEMA_ID: u16 = 2;

pub const SBE_SCHEMA_VERSION: u16 = 1;

pub const SBE_SEMANTIC_VERSION: &'static str = "5.2";

/// Writes the fixed block of a message, then groups and
/// variable-length data at the advancing limit.
pub struct Ticker24hSymbolMiniResponseEncoder {
    pub buf: WriteBuf,
    pub initial_offset: usize,
    pub offset: usize,
    pub limit: usize,
}

impl Default for Ticker24hSymbolMiniResponseEncoder {
    fn default() -> (r: Ticker24hSymbolMiniResponseEncoder)
        ensures
            r.buf.data@.len() == 0,
            r.offset == 0,
            r.limit == 0,
    {
        Ticker24hSymbolMiniResponseEncoder {
            buf: WriteBuf { data: Vec::new() },
            initial_offset: 0,
            offset: 0,
            limit: 0,
        }
    }
}

impl Encoder for Ticker24hSymbolMiniResponseEncoder {
    open spec fn bytes(&self) -> Seq<u8> {
        self.buf.data@
    }

    open spec fn writable(&self) -> bool {
        true
    }

    open spec fn spec_limit(&self) -> int {
        self.limit as int
    }

    open spec fn same_frame(&self, other: &Self) -> bool {
        &&& other.initial_offset == self.initial_offset
        &&& other.offset == self.offset
        &&& other.buf.data@.len() == self.buf.data@.len()
    }

    proof fn lemma_frame_refl(&self) {
    }

    proof fn lemma_frame_trans(&self, b: &Self, c: &Self) {
    }

    proof fn lemma_frame_props(&self, other: &Self) {
    }

    fn buf_len(&self) -> (r: usize) {
        self.buf.len()
    }

    fn get_limit(&self) -> (r: usize) {
        self.limit
    }

    fn set_limit(&mut self, limit: usize) {
        self.limit = limit;
    }

    fn put_u8_at(&mut self, offset: usize, value: u8) {
        self.buf.put_u8_at(offset, value);
    }
}

impl Ticker24hSymbolMiniResponseEncoder {
    /// The encoder is positioned on a block that lies inside the
    /// buffer, with the limit at or past the end of the block.
    pub open spec fn wf(&self) -> bool {
        &&& self.offset == self.initial_offset
        &&& self.offset + SBE_BLOCK_LENGTH as int <= self.limit
        &&& self.limit <= self.buf.data@.len()
    }

    /// Positions the encoder's fixed block at `offset`; fails when the
    /// block does not fit in the buffer.
    pub fn wrap(self, buf: WriteBuf, offset: usize) -> (r: SbeResult<Self>)
        ensures
            match r {
                Ok(e) => {
                    &&& offset + SBE_BLOCK_LENGTH as int <= buf.data@.len()
                    &&& e.wf()
                    &&& e.bytes() == buf.data@
                    &&& e.offset == offset
                    &&& e.spec_limit() == offset + SBE_BLOCK_LENGTH as int
                },
                Err(err) => {
                    &&& err == SbeErr::BufferOverrun
                    &&& offset + SBE_BLOCK_LENGTH as int > buf.data@.len()
                },
            },
    {
        let n: usize = buf.len();
        if offset > n || n - offset < SBE_BLOCK_LENGTH as usize {
            return Err(SbeErr::BufferOverrun);
        }
        Ok(Ticker24hSymbolMiniResponseEncoder {
            buf,
            initial_offset: offset,
            offset,
            limit: offset + SBE_BLOCK_LENGTH as usize,
        })
    }

    /// Bytes written or reserved so far for this message.
    pub fn encoded_length(&self) -> (r: usize)
        requires
            self.wf(),
        ensures
            r == self.spec_limit() - self.offset,
    {
        self.limit - self.offset
    }

    /// Hands the finished buffer back.
    pub fn into_writebuf(self) -> (r: WriteBuf)
        ensures
            r.data@ == self.bytes(),
    {
        self.buf
    }

    /// Writes this message's envelope at `offset` and returns the
    /// header codec holding this encoder as its parent.
    pub fn header(self, offset: usize) -> (r: SbeResult<MessageHeaderEncoder<Self>>)
        requires
            self.wf(),
        ensures
            match r {
                Ok(h) => {
                    &&& h.parent is Some
                    &&& h.offset == offset
                    &&& h.wf()
                    &&& h.parent->0.wf()
                    &&& h.parent->0.bytes() == splice(
                        self.bytes(),
                        offset as int,
                        header_image(
                            SBE_BLOCK_LENGTH,
                            SBE_TEMPLATE_ID,
                            SBE_SCHEMA_ID,
                            SBE_SCHEMA_VERSION,
                        ),
                    )
                    &&& h.parent->0.spec_limit() == self.spec_limit()
                    &&& self.same_frame(&h.parent->0)
                },
                Err(e) => {
                    &&& e == SbeErr::BufferOverrun
                    &&& offset + message_header_codec::ENCODED_LENGTH as int
                        > self.bytes().len()
                },
            },
    {
        proof {
            vstd::bytes::lemma_auto_spec_u16_to_from_le_bytes();
        }
        let mut h = MessageHeaderEncoder::default().wrap(self, offset)?;
        h.block_length(SBE_BLOCK_LENGTH)?;
        h.template_id(SBE_TEMPLATE_ID)?;
        h.schema_id(SBE_SCHEMA_ID)?;
        h.version(SBE_SCHEMA_VERSION)?;
        proof {
            assert(h.parent->0.bytes() =~= splice(
                self.bytes(),
                offset as int,
                header_image(
                    SBE_BLOCK_LENGTH,
                    SBE_TEMPLATE_ID,
                    SBE_SCHEMA_ID,
                    SBE_SCHEMA_VERSION,
                ),
            ));
        }
        Ok(h)
    }

    /// Writes the 'price_exponent' field (i8, block offset 0).
    pub fn price_exponent(&mut self, value: i8)
        requires
            old(self).wf(),
        ensures
            final(self).wf(),
            final(self).bytes() == splice(old(self).bytes(), old(self).offset as int, spec_i8_to_le_bytes(value)),
            final(self).spec_limit() == old(self).spec_limit(),
            old(self).same_frame(final(self)),
    {
        let n: usize = self.buf.len();
        assert(self.offset + SBE_BLOCK_LENGTH as int <= n);
        let offset = self.offset;
        self.put_i8_at(offset, value);
    }

    /// Writes the 'qty_exponent' field (i8, block offset 1).
    pub fn qty_exponent(&mut self, value: i8)
        requires
            old(self).wf(),
        ensures
            final(self).wf(),
            final(self).bytes() == splice(old(self).bytes(), old(self).offset + 1, spec_i8_to_le_bytes(value)),
            final(self).spec_limit() == old(self).spec_limit(),
            old(self).same_frame(final(self)),
    {
        let n: usize = self.buf.len();
        assert(self.offset + SBE_BLOCK_LENGTH as int <= n);
        let offset = self.offset + 1;
        self.put_i8_at(offset, value);
    }

    /// Writes the 'open_price' field (i64, block offset 2).
    pub fn open_price(&mut self, value: i64)
        requires
            old(self).wf(),
        ensures
            final(self).wf(),
            final(self).bytes() == splice(old(self).bytes(), old(self).offset + 2, spec_i64_to_le_bytes(value)),
            final(self).spec_limit() == old(self).spec_limit(),
            old(self).same_frame(final(self)),
    {
        let n: usize = self.buf.len();
        assert(self.offset + SBE_BLOCK_LENGTH as int <= n);
        let offset = self.offset + 2;
        self.put_i64_at(offset, value);
    }

    /// Writes the 'high_price' field (i64, block offset 10).
    pub fn high_price(&mut self, value: i64)
        requires
            old(self).wf(),
        ensures
            final(self).wf(),
            final(self).bytes() == splice(old(self).bytes(), old(self).offset + 10, spec_i64_to_le_bytes(value)),
            final(self).spec_limit() == old(self).spec_limit(),
            old(self).same_frame(final(self)),
    {
        let n: usize = self.buf.len();
        assert(self.offset + SBE_BLOCK_LENGTH as int <= n);
        let offset = self.offset + 10;
        self.put_i64_at(offset, value);
    }

    /// Writes the 'low_price' field (i64, block offset 18).
    pub fn low_price(&mut self, value: i64)
        requires
            old(self).wf(),
        ensures
            final(self).wf(),
            final(self).bytes() == splice(old(self).bytes(), old(self).offset + 18, spec_i64_to_le_bytes(value)),
            final(self).spec_limit() == old(self).spec_limit(),
            old(self).same_frame(final(self)),
    {
        let n: usize = self.buf.len();
        assert(self.offset + SBE_BLOCK_LENGTH as int <= n);
        let offset = self.offset + 18;
        self.put_i64_at(offset, value);
    }

    /// Writes the 'last_price' field (i64, block offset 26).
    pub fn last_price(&mut self, value: i64)
        requires
            old(self).wf(),
        ensures
            final(self).wf(),
            final(self).bytes() == splice(old(self).bytes(), old(self).offset + 26, spec_i64_to_le_bytes(value)),
            final(self).spec_limit() == old(self).spec_limit(),
            old(self).same_frame(final(self)),
    {
        let n: usize = self.buf.len();
        assert(self.offset + SBE_BLOCK_LENGTH as int <= n);
        let offset = self.offset + 26;
        self.put_i64_at(offset, value);
    }

    /// Writes the 'volume' field ([u8; 16], block offset 34).
    pub fn volume(&mut self, value: [u8; 16])
        requires
            old(self).wf(),
        ensures
            final(self).wf(),
            final(self).bytes() == splice(old(self).bytes(), old(self).offset + 34, value@),
            final(self).spec_limit() == old(self).spec_limit(),
            old(self).same_frame(final(self)),
    {
        let n: usize = self.buf.len();
        assert(self.offset + SBE_BLOCK_LENGTH as int <= n);
        let offset = self.offset + 34;
        self.put_bytes_at(offset, value);
    }

    /// Writes the 'quote_volume' field ([u8; 16], block offset 50).
    pub fn quote_volume(&mut self, value: [u8; 16])
        requires
            old(self).wf(),
        ensures
            final(self).wf(),
            final(self).bytes() == splice(old(self).bytes(), old(self).offset + 50, value@),
            final(self).spec_limit() == old(self).spec_limit(),
            old(self).same_frame(final(self)),
    {
        let n: usize = self.buf.len();
        assert(self.offset + SBE_BLOCK_LENGTH as int <= n);
        let offset = self.offset + 50;
        self.put_bytes_at(offset, value);
    }

    /// Writes the 'open_time' field (i64, block offset 66).
    pub fn open_time(&mut self, value: i64)
        requires
            old(self).wf(),
        ensures
            final(self).wf(),
            final(self).bytes() == splice(old(self).bytes(), old(self).offset + 66, spec_i64_to_le_bytes(value)),
            final(self).spec_limit() == old(self).spec_limit(),
            old(self).same_frame(final(self)),
    {
        let n: usize = self.buf.len();
        assert(self.offset + SBE_BLOCK_LENGTH as int <= n);
        let offset = self.offset + 66;
        self.put_i64_at(offset, value);
    }

    /// Writes the 'close_time' field (i64, block offset 74).
    pub fn close_time(&mut self, value: i64)
        requires
            old(self).wf(),
        ensures
            final(self).wf(),
            final(self).bytes() == splice(old(self).bytes(), old(self).offset + 74, spec_i64_to_le_bytes(value)),
            final(self).spec_limit() == old(self).spec_limit(),
            old(self).same_frame(final(self)),
    {
        let n: usize = self.buf.len();
        assert(self.offset + SBE_BLOCK_LENGTH as int <= n);
        let offset = self.offset + 74;
        self.put_i64_at(offset, value);
    }

    /// Writes the 'first_id' field (i64, block offset 82).
    pub fn first_id(&mut self, value: i64)
        requires
            old(self).wf(),
        ensures
            final(self).wf(),
            final(self).bytes() == splice(old(self).bytes(), old(self).offset + 82, spec_i64_to_le_bytes(value)),
            final(self).spec_limit() == old(self).spec_limit(),
            old(self).same_frame(final(self)),
    {
        let n: usize = self.buf.len();
        assert(self.offset + SBE_BLOCK_LENGTH as int <= n);
        let offset = self.offset + 82;
        self.put_i64_at(offset, value);
    }

    /// Writes the 'last_id' field (i64, block offset 90).
    pub fn last_id(&mut self, value: i64)
        requires
            old(self).wf(),
        ensures
            final(self).wf(),
            final(self).bytes() == splice(old(self).bytes(), old(self).offset + 90, spec_i64_to_le_bytes(value)),
            final(self).spec_limit() == old(self).spec_limit(),
            old(self).same_frame(final(self)),
    {
        let n: usize = self.buf.len();
        assert(self.offset + SBE_BLOCK_LENGTH as int <= n);
        let offset = self.offset + 90;
        self.put_i64_at(offset, value);
    }

    /// Writes the 'num_trades' field (i64, block offset 98).
    pub fn num_trades(&mut self, value: i64)
        requires
            old(self).wf(),
        ensures
            final(self).wf(),
            final(self).bytes() == splice(old(self).bytes(), old(self).offset + 98, spec_i64_to_le_bytes(value)),
            final(self).spec_limit() == old(self).spec_limit(),
            old(self).same_frame(final(self)),
    {
        let n: usize = self.buf.len();
        assert(self.offset + SBE_BLOCK_LENGTH as int <= n);
        let offset = self.offset + 98;
        self.put_i64_at(offset, value);
    }

    /// Appends the variable-length 'symbol' field at the current limit: a
    /// one-byte length prefix followed by the payload bytes.
    pub fn symbol(&mut self, value: &[u8]) -> (r: SbeResult<()>)
        requires
            old(self).wf(),
        ensures
            final(self).wf(),
            old(self).same_frame(final(self)),
            match r {
                Ok(()) => {
                    &&& value@.len() <= 255
                    &&& old(self).spec_limit() + 1 + value@.len() <= old(self).bytes().len()
                    &&& final(self).bytes() == splice(
                        old(self).bytes(),
                        old(self).spec_limit(),
                        seq![value@.len() as u8] + value@,
                    )
                    &&& final(self).spec_limit() == old(self).spec_limit() + 1 + value@.len()
                },
                Err(e) => {
                    &&& e == SbeErr::BufferOverrun
                    &&& *final(self) == *old(self)
                    &&& (value@.len() > 255 || old(self).spec_limit() + 1 + value@.len()
                        > old(self).bytes().len())
                },
            },
    {
        let data_length = value.len();
        if data_length > 255 {
            return Err(SbeErr::BufferOverrun);
        }
        let limit = self.limit;
        let n: usize = self.buf.len();
        if limit >= n || n - limit - 1 < data_length {
            return Err(SbeErr::BufferOverrun);
        }
        self.put_u8_at(limit, data_length as u8);
        self.put_slice_at(limit + 1, value);
        self.limit = limit + 1 + data_length;
        proof {
            assert(final(self).bytes() =~= splice(
                old(self).bytes(),
                old(self).spec_limit(),
                seq![value@.len() as u8] + value@,
            ));
        }
        Ok(())
    }
}

/// Reads the fixed block of a message, then groups and
/// variable-length data at the advancing limit.
#[derive(Clone, Copy)]
pub struct Ticker24hSymbolMiniResponseDecoder<'a> {
    pub buf: ReadBuf<'a>,
    pub initial_offset: usize,
    pub offset: usize,
    pub limit: usize,
    pub acting_block_length: u16,
    pub acting_version: u16,
}

impl<'a> Default for Ticker24hSymbolMiniResponseDecoder<'a> {
    fn default() -> (r: Ticker24hSymbolMiniResponseDecoder<'a>)
        ensures
            r.offset == 0,
            r.limit == 0,
            r.acting_block_length == 0,
            r.acting_version == 0,
    {
        Ticker24hSymbolMiniResponseDecoder {
            buf: ReadBuf { data: &[] },
            initial_offset: 0,
            offset: 0,
            limit: 0,
            acting_block_length: 0,
            acting_version: 0,
        }
    }
}

impl<'a> Reader for Ticker24hSymbolMiniResponseDecoder<'a> {
    open spec fn bytes(&self) -> Seq<u8> {
        self.buf.data@
    }

    open spec fn readable(&self) -> bool {
        true
    }

    fn buf_len(&self) -> (r: usize) {
        self.buf.data.len()
    }

    fn get_u8_at(&self, offset: usize) -> (r: u8) {
        self.buf.get_u8_at(offset)
    }

    fn get_slice_at(&self, offset: usize, len: usize) -> (r: &[u8]) {
        self.buf.get_slice_at(offset, len)
    }
}

impl<'a> Decoder for Ticker24hSymbolMiniResponseDecoder<'a> {
    open spec fn spec_limit(&self) -> int {
        self.limit as int
    }

    open spec fn same_frame(&self, other: &Self) -> bool {
        &&& other.buf.data@ == self.buf.data@
        &&& other.initial_offset == self.initial_offset
        &&& other.offset == self.offset
        &&& other.acting_block_length == self.acting_block_length
        &&& other.acting_version == self.acting_version
    }

    proof fn lemma_frame_refl(&self) {
    }

    proof fn lemma_frame_trans(&self, b: &Self, c: &Self) {
    }

    proof fn lemma_frame_props(&self, other: &Self) {
    }

    fn get_limit(&self) -> (r: usize) {
        self.limit
    }

    fn set_limit(&mut self, limit: usize) {
        self.limit = limit;
    }
}

impl<'a> Ticker24hSymbolMiniResponseDecoder<'a> {
    /// The decoder is positioned on an acting block that lies inside
    /// the buffer.
    pub open spec fn wf(&self) -> bool {
        &&& self.offset == self.initial_offset
        &&& self.offset + self.acting_block_length as int <= self.buf.data@.len()
        &&& self.offset <= self.limit <= self.buf.data@.len()
    }

    /// Positions the decoder at `offset` with the block length and
    /// schema version the envelope declared; fails when the declared
    /// block does not lie inside the buffer.
    pub fn wrap(
        self,
        buf: ReadBuf<'a>,
        offset: usize,
        acting_block_length: u16,
        acting_version: u16,
    ) -> (r: SbeResult<Self>)
        ensures
            match r {
                Ok(d) => {
                    &&& offset + acting_block_length as int <= buf.data@.len()
                    &&& d.wf()
                    &&& d.bytes() == buf.data@
                    &&& d.offset == offset
                    &&& d.acting_block_length == acting_block_length
                    &&& d.acting_version == acting_version
                    &&& d.spec_limit() == offset + acting_block_length as int
                },
                Err(e) => {
                    &&& e == SbeErr::BufferOverrun
                    &&& offset + acting_block_length as int > buf.data@.len()
                },
            },
    {
        let n: usize = buf.data.len();
        if offset > n || n - offset < acting_block_length as usize {
            return Err(SbeErr::BufferOverrun);
        }
        Ok(Ticker24hSymbolMiniResponseDecoder {
            buf,
            initial_offset: offset,
            offset,
            limit: offset + acting_block_length as usize,
            acting_block_length,
            acting_version,
        })
    }

    /// Bytes consumed or declared so far for this message.
    pub fn encoded_length(&self) -> (r: usize)
        requires
            self.wf(),
        ensures
            r == self.spec_limit() - self.offset,
    {
        self.limit - self.offset
    }

    /// Checks the envelope's template id and positions the decoder
    /// right behind the envelope, using the block length and version
    /// the envelope declares.
    pub fn header(self, header: MessageHeaderDecoder<ReadBuf<'a>>) -> (r: SbeResult<Self>)
        requires
            header.wf(),
            header.offset == 0,
        ensures
            match r {
                Ok(d) => {
                    &&& header.parent is Some
                    &&& header.spec_template_id() == SBE_TEMPLATE_ID
                    &&& d.wf()
                    &&& d.bytes() == header.parent->0.bytes()
                    &&& d.offset == message_header_codec::ENCODED_LENGTH
                    &&& d.acting_block_length == header.spec_block_length()
                    &&& d.acting_version == header.spec_version()
                    &&& d.spec_limit() == message_header_codec::ENCODED_LENGTH
                        + header.spec_block_length() as int
                },
                Err(e) => {
                    ||| (e == SbeErr::ParentNotSet && header.parent is None)
                    ||| (e == SbeErr::UnexpectedTemplate && header.parent is Some
                        && header.spec_template_id() != SBE_TEMPLATE_ID)
                    ||| (e == SbeErr::BufferOverrun && header.parent is Some
                        && header.spec_template_id() == SBE_TEMPLATE_ID
                        && message_header_codec::ENCODED_LENGTH
                            + header.spec_block_length() as int
                            > header.parent->0.bytes().len())
                },
            },
    {
        let template_id = header.template_id()?;
        if template_id != SBE_TEMPLATE_ID {
            return Err(SbeErr::UnexpectedTemplate);
        }
        let acting_block_length = header.block_length()?;
        let acting_version = header.version()?;
        let mut h = header;
        let buf = h.parent()?;
        self.wrap(
            buf,
            message_header_codec::ENCODED_LENGTH,
            acting_block_length,
            acting_version,
        )
    }

    /// Reads the 'price_exponent' field (i8, block offset 0).
    pub fn price_exponent(&self) -> (r: SbeResult<i8>)
        requires
            self.wf(),
        ensures
            match r {
                Ok(v) => {
                    &&& 1 <= self.acting_block_length
                    &&& v == spec_i8_from_le_bytes(self.bytes().subrange(self.offset as int, self.offset + 1))
                },
                Err(e) => e == SbeErr::BufferOverrun && self.acting_block_length < 1,
            },
    {
        if (self.acting_block_length as usize) < 1 {
            return Err(SbeErr::BufferOverrun);
        }
        let n: usize = self.buf.data.len();
        assert(self.offset + self.acting_block_length as int <= n);
        Ok(self.get_i8_at(self.offset))
    }

    /// Reads the 'qty_exponent' field (i8, block offset 1).
    pub fn qty_exponent(&self) -> (r: SbeResult<i8>)
        requires
            self.wf(),
        ensures
            match r {
                Ok(v) => {
                    &&& 2 <= self.acting_block_length
                    &&& v == spec_i8_from_le_bytes(self.bytes().subrange(self.offset + 1, self.offset + 2))
                },
                Err(e) => e == SbeErr::BufferOverrun && self.acting_block_length < 2,
            },
    {
        if (self.acting_block_length as usize) < 2 {
            return Err(SbeErr::BufferOverrun);
        }
        let n: usize = self.buf.data.len();
        assert(self.offset + self.acting_block_length as int <= n);
        Ok(self.get_i8_at(self.offset + 1))
    }

    /// Reads the optional 'open_price' field at block offset 2: the
    /// reserved null sentinel decodes to `None`.
    pub fn open_price(&self) -> (r: SbeResult<Option<i64>>)
        requires
            self.wf(),
        ensures
            match r {
                Ok(v) => {
                    &&& 10 <= self.acting_block_length
                    &&& v == opt_i64(spec_i64_from_le_bytes(self.bytes().subrange(self.offset + 2, self.offset + 10)))
                },
                Err(e) => e == SbeErr::BufferOverrun && self.acting_block_length < 10,
            },
    {
        if (self.acting_block_length as usize) < 10 {
            return Err(SbeErr::BufferOverrun);
        }
        let n: usize = self.buf.data.len();
        assert(self.offset + self.acting_block_length as int <= n);
        let value = self.get_i64_at(self.offset + 2);
        if value == i64::MIN {
            Ok(None)
        } else {
            Ok(Some(value))
        }
    }

    /// Reads the optional 'high_price' field at block offset 10: the
    /// reserved null sentinel decodes to `None`.
    pub fn high_price(&self) -> (r: SbeResult<Option<i64>>)
        requires
            self.wf(),
        ensures
            match r {
                Ok(v) => {
                    &&& 18 <= self.acting_block_length
                    &&& v == opt_i64(spec_i64_from_le_bytes(self.bytes().subrange(self.offset + 10, self.offset + 18)))
                },
                Err(e) => e == SbeErr::BufferOverrun && self.acting_block_length < 18,
            },
    {
        if (self.acting_block_length as usize) < 18 {
            return Err(SbeErr::BufferOverrun);
        }
        let n: usize = self.buf.data.len();
        assert(self.offset + self.acting_block_length as int <= n);
        let value = self.get_i64_at(self.offset + 10);
        if value == i64::MIN {
            Ok(None)
        } else {
            Ok(Some(value))
        }
    }

    /// Reads the optional 'low_price' field at block offset 18: the
    /// reserved null sentinel decodes to `None`.
    pub fn low_price(&self) -> (r: SbeResult<Option<i64>>)
        requires
            self.wf(),
        ensures
            match r {
                Ok(v) => {
                    &&& 26 <= self.acting_block_length
                    &&& v == opt_i64(spec_i64_from_le_bytes(self.bytes().subrange(self.offset + 18, self.offset + 26)))
                },
                Err(e) => e == SbeErr::BufferOverrun && self.acting_block_length < 26,
            },
    {
        if (self.acting_block_length as usize) < 26 {
            return Err(SbeErr::BufferOverrun);
        }
        let n: usize = self.buf.data.len();
        assert(self.offset + self.acting_block_length as int <= n);
        let value = self.get_i64_at(self.offset + 18);
        if value == i64::MIN {
            Ok(None)
        } else {
            Ok(Some(value))
        }
    }

    /// Reads the optional 'last_price' field at block offset 26: the
    /// reserved null sentinel decodes to `None`.
    pub fn last_price(&self) -> (r: SbeResult<Option<i64>>)
        requires
            self.wf(),
        ensures
            match r {
                Ok(v) => {
                    &&& 34 <= self.acting_block_length
                    &&& v == opt_i64(spec_i64_from_le_bytes(self.bytes().subrange(self.offset + 26, self.offset + 34)))
                },
                Err(e) => e == SbeErr::BufferOverrun && self.acting_block_length < 34,
            },
    {
        if (self.acting_block_length as usize) < 34 {
            return Err(SbeErr::BufferOverrun);
        }
        let n: usize = self.buf.data.len();
        assert(self.offset + self.acting_block_length as int <= n);
        let value = self.get_i64_at(self.offset + 26);
        if value == i64::MIN {
            Ok(None)
        } else {
            Ok(Some(value))
        }
    }

    /// Reads the fixed 16-byte 'volume' array field at block offset 34.
    pub fn volume(&self) -> (r: SbeResult<[u8; 16]>)
        requires
            self.wf(),
        ensures
            match r {
                Ok(v) => {
                    &&& 50 <= self.acting_block_length
                    &&& v@ == self.bytes().subrange(self.offset + 34, self.offset + 50)
                },
                Err(e) => e == SbeErr::BufferOverrun && self.acting_block_length < 50,
            },
    {
        if (self.acting_block_length as usize) < 50 {
            return Err(SbeErr::BufferOverrun);
        }
        let n: usize = self.buf.data.len();
        assert(self.offset + self.acting_block_length as int <= n);
        Ok(self.get_bytes_at(self.offset + 34))
    }

    /// Reads the fixed 16-byte 'quote_volume' array field at block offset 50.
    pub fn quote_volume(&self) -> (r: SbeResult<[u8; 16]>)
        requires
            self.wf(),
        ensures
            match r {
                Ok(v) => {
                    &&& 66 <= self.acting_block_length
                    &&& v@ == self.bytes().subrange(self.offset + 50, self.offset + 66)
                },
                Err(e) => e == SbeErr::BufferOverrun && self.acting_block_length < 66,
            },
    {
        if (self.acting_block_length as usize) < 66 {
            return Err(SbeErr::BufferOverrun);
        }
        let n: usize = self.buf.data.len();
        assert(self.offset + self.acting_block_length as int <= n);
        Ok(self.get_bytes_at(self.offset + 50))
    }

    /// Reads the 'open_time' field (i64, block offset 66).
    pub fn open_time(&self) -> (r: SbeResult<i64>)
        requires
            self.wf(),
        ensures
            match r {
                Ok(v) => {
                    &&& 74 <= self.acting_block_length
                    &&& v == spec_i64_from_le_bytes(self.bytes().subrange(self.offset + 66, self.offset + 74))
                },
                Err(e) => e == SbeErr::BufferOverrun && self.acting_block_length < 74,
            },
    {
        if (self.acting_block_length as usize) < 74 {
            return Err(SbeErr::BufferOverrun);
        }
        let n: usize = self.buf.data.len();
        assert(self.offset + self.acting_block_length as int <= n);
        Ok(self.get_i64_at(self.offset + 66))
    }

    /// Reads the 'close_time' field (i64, block offset 74).
    pub fn close_time(&self) -> (r: SbeResult<i64>)
        requires
            self.wf(),
        ensures
            match r {
                Ok(v) => {
                    &&& 82 <= self.acting_block_length
                    &&& v == spec_i64_from_le_bytes(self.bytes().subrange(self.offset + 74, self.offset + 82))
                },
                Err(e) => e == SbeErr::BufferOverrun && self.acting_block_length < 82,
            },
    {
        if (self.acting_block_length as usize) < 82 {
            return Err(SbeErr::BufferOverrun);
        }
        let n: usize = self.buf.data.len();
        assert(self.offset + self.acting_block_length as int <= n);
        Ok(self.get_i64_at(self.offset + 74))
    }

    /// Reads the optional 'first_id' field at block offset 82: the
    /// reserved null sentinel decodes to `None`.
    pub fn first_id(&self) -> (r: SbeResult<Option<i64>>)
        requires
            self.wf(),
        ensures
            match r {
                Ok(v) => {
                    &&& 90 <= self.acting_block_length
                    &&& v == opt_i64(spec_i64_from_le_bytes(self.bytes().subrange(self.offset + 82, self.offset + 90)))
                },
                Err(e) => e == SbeErr::BufferOverrun && self.acting_block_length < 90,
            },
    {
        if (self.acting_block_length as usize) < 90 {
            return Err(SbeErr::BufferOverrun);
        }
        let n: usize = self.buf.data.len();
        assert(self.offset + self.acting_block_length as int <= n);
        let value = self.get_i64_at(self.offset + 82);
        if value == i64::MIN {
            Ok(None)
        } else {
            Ok(Some(value))
        }
    }

    /// Reads the optional 'last_id' field at block offset 90: the
    /// reserved null sentinel decodes to `None`.
    pub fn last_id(&self) -> (r: SbeResult<Option<i64>>)
        requires
            self.wf(),
        ensures
            match r {
                Ok(v) => {
                    &&& 98 <= self.acting_block_length
                    &&& v == opt_i64(spec_i64_from_le_bytes(self.bytes().subrange(self.offset + 90, self.offset + 98)))
                },
                Err(e) => e == SbeErr::BufferOverrun && self.acting_block_length < 98,
            },
    {
        if (self.acting_block_length as usize) < 98 {
            return Err(SbeErr::BufferOverrun);
        }
        let n: usize = self.buf.data.len();
        assert(self.offset + self.acting_block_length as int <= n);
        let value = self.get_i64_at(self.offset + 90);
        if value == i64::MIN {
            Ok(None)
        } else {
            Ok(Some(value))
        }
    }

    /// Reads the 'num_trades' field (i64, block offset 98).
    pub fn num_trades(&self) -> (r: SbeResult<i64>)
        requires
            self.wf(),
        ensures
            match r {
                Ok(v) => {
                    &&& 106 <= self.acting_block_length
                    &&& v == spec_i64_from_le_bytes(self.bytes().subrange(self.offset + 98, self.offset + 106))
                },
                Err(e) => e == SbeErr::BufferOverrun && self.acting_block_length < 106,
            },
    {
        if (self.acting_block_length as usize) < 106 {
            return Err(SbeErr::BufferOverrun);
        }
        let n: usize = self.buf.data.len();
        assert(self.offset + self.acting_block_length as int <= n);
        Ok(self.get_i64_at(self.offset + 98))
    }

    /// Consumes the variable-length 'symbol' field at the current limit and
    /// returns the coordinates (start, length) of its payload within the
    /// buffer; the limit advances past the length prefix and the payload.
    pub fn symbol_decoder(&mut self) -> (r: SbeResult<(usize, usize)>)
        requires
            old(self).wf(),
        ensures
            final(self).wf(),
            final(self).bytes() == old(self).bytes(),
            old(self).same_frame(final(self)),
            match r {
                Ok(c) => {
                    &&& old(self).spec_limit() + 1 <= old(self).bytes().len()
                    &&& c.1 == old(self).bytes()[old(self).spec_limit()]
                    &&& c.0 == old(self).spec_limit() + 1
                    &&& c.0 + c.1 <= old(self).bytes().len()
                    &&& final(self).spec_limit() == old(self).spec_limit() + 1 + c.1
                },
                Err(e) => {
                    &&& e == SbeErr::BufferOverrun
                    &&& *final(self) == *old(self)
                    &&& (old(self).spec_limit() + 1 > old(self).bytes().len()
                        || old(self).spec_limit() + 1 + old(self).bytes()[old(self).spec_limit()]
                            > old(self).bytes().len())
                },
            },
    {
        let limit = self.limit;
        let n: usize = self.buf.data.len();
        if limit >= n {
            return Err(SbeErr::BufferOverrun);
        }
        let data_length = self.get_u8_at(limit) as usize;
        if n - limit - 1 < data_length {
            return Err(SbeErr::BufferOverrun);
        }
        self.limit = limit + 1 + data_length;
        Ok((limit + 1, data_length))
    }

    /// The payload bytes of a previously decoded 'symbol' field, addressed
    /// by the coordinates its decoder returned.
    pub fn symbol_slice(&self, coordinates: (usize, usize)) -> (r: &[u8])
        requires
            coordinates.0 + coordinates.1 <= self.bytes().len(),
        ensures
            r@ == self.bytes().subrange(
                coordinates.0 as int,
                coordinates.0 + coordinates.1,
            ),
    {
        self.buf.get_slice_at(coordinates.0, coordinates.1)
    }
}

} // verus!
