//! Codec for the execution report event message: the full order/execution
//! fixed block followed by six trailing variable-length fields.

use vstd::prelude::*;
use vstd::bytes::spec_u16_to_le_bytes;
use vstd::bytes::spec_u64_from_le_bytes;
use vstd::bytes::spec_u64_to_le_bytes;
use crate::buffer::ReadBuf;
use crate::buffer::WriteBuf;
use crate::codec::Decoder;
use crate::codec::Encoder;
use crate::codec::Reader;
use crate::enums::BoolEnum;
use crate::enums::bool_enum_from_byte;
use crate::enums::bool_enum_to_byte;
use crate::execution_type::ExecutionType;
use crate::execution_type::execution_type_from_byte;
use crate::execution_type::execution_type_to_byte;
use crate::enums::Floor;
use crate::enums::floor_from_byte;
use crate::enums::floor_to_byte;
use crate::enums::MatchType;
use crate::enums::match_type_from_byte;
use crate::enums::match_type_to_byte;
use crate::enums::OrderCapacity;
use crate::enums::order_capacity_from_byte;
use crate::enums::order_capacity_to_byte;
use crate::enums::OrderSide;
use crate::enums::order_side_from_byte;
use crate::enums::order_side_to_byte;
use crate::enums::OrderStatus;
use crate::enums::order_status_from_byte;
use crate::enums::order_status_to_byte;
use crate::enums::OrderType;
use crate::enums::order_type_from_byte;
use crate::enums::order_type_to_byte;
use crate::enums::SelfTradePreventionMode;
use crate::enums::self_trade_prevention_mode_from_byte;
use crate::enums::self_trade_prevention_mode_to_byte;
use crate::enums::TimeInForce;
use crate::enums::time_in_force_from_byte;
use crate::enums::time_in_force_to_byte;
use crate::message_header_codec;
use crate::message_header_codec::MessageHeaderDecoder;
use crate::message_header_codec::MessageHeaderEncoder;
use crate::message_header_codec::header_image;
use crate::wire::null_i64;
use crate::wire::opt_i32;
use crate::wire::opt_i64;
use crate::wire::opt_u64;
use crate::wire::spec_i32_from_le_bytes;
use crate::wire::spec_i32_to_le_bytes;
use crate::wire::spec_i64_from_le_bytes;
use crate::wire::spec_i64_to_le_bytes;
use crate::wire::spec_i8_from_le_bytes;
use crate::wire::spec_i8_to_le_bytes;
use crate::wire::splice;
use crate::SbeErr;
use crate::SbeResult;

use vstd::seq_lib::group_seq_lib_default;

verus! {

broadcast use group_seq_lib_default;

pub const SBE_BLOCK_LENGTH: u16 = 268;

pub const SBE_TEMPLATE_ID: u16 = 603;

pub const SBE_SCHEMA_ID: u16 = 2;

pub const SBE_SCHEMA_VERSION: u16 = 1;

pub const SBE_SEMANTIC_VERSION: &'static str = "5.2";

/// Writes the fixed block of a message, then groups and
/// variable-length data at the advancing limit.
pub struct ExecutionReportEventEncoder {
    pub buf: WriteBuf,
    pub initial_offset: usize,
    pub offset: usize,
    pub limit: usize,
}

impl Default for ExecutionReportEventEncoder {
    fn default() -> (r: ExecutionReportEventEncoder)
        ensures
            r.buf.data@.len() == 0,
            r.offset == 0,
            r.limit == 0,
    {
        ExecutionReportEventEncoder {
            buf: WriteBuf { data: Vec::new() },
            initial_offset: 0,
            offset: 0,
            limit: 0,
        }
    }
}

impl Encoder for ExecutionReportEventEncoder {
    open spec fn bytes(&self) -> Seq<u8> {
        self.buf.data@
    }

    open spec fn writable(&self) -> bool {
        true
    }

    open spec fn spec_limit(&self) -> int {
        self.limit as int
    }

    open spec fn same_frame(&self, other: &Self) -> bool {
        &&& other.initial_offset == self.initial_offset
        &&& other.offset == self.offset
        &&& other.buf.data@.len() == self.buf.data@.len()
    }

    proof fn lemma_frame_refl(&self) {
    }

    proof fn lemma_frame_trans(&self, b: &Self, c: &Self) {
    }

    proof fn lemma_frame_props(&self, other: &Self) {
    }

    fn buf_len(&self) -> (r: usize) {
        self.buf.len()
    }

    fn get_limit(&self) -> (r: usize) {
        self.limit
    }

    fn set_limit(&mut self, limit: usize) {
        self.limit = limit;
    }

    fn put_u8_at(&mut self, offset: usize, value: u8) {
        self.buf.put_u8_at(offset, value);
    }
}

impl ExecutionReportEventEncoder {
    /// The encoder is positioned on a block that lies inside the
    /// buffer, with the limit at or past the end of the block.
    pub open spec fn wf(&self) -> bool {
        &&& self.offset == self.initial_offset
        &&& self.offset + SBE_BLOCK_LENGTH as int <= self.limit
        &&& self.limit <= self.buf.data@.len()
    }

    /// Positions the encoder's fixed block at `offset`; fails when the
    /// block does not fit in the buffer.
    pub fn wrap(self, buf: WriteBuf, offset: usize) -> (r: SbeResult<Self>)
        ensures
            match r {
                Ok(e) => {
                    &&& offset + SBE_BLOCK_LENGTH as int <= buf.data@.len()
                    &&& e.wf()
                    &&& e.bytes() == buf.data@
                    &&& e.offset == offset
                    &&& e.spec_limit() == offset + SBE_BLOCK_LENGTH as int
                },
                Err(err) => {
                    &&& err == SbeErr::BufferOverrun
                    &&& offset + SBE_BLOCK_LENGTH as int > buf.data@.len()
                },
            },
    {
        let n: usize = buf.len();
        if offset > n || n - offset < SBE_BLOCK_LENGTH as usize {
            return Err(SbeErr::BufferOverrun);
        }
        Ok(ExecutionReportEventEncoder {
            buf,
            initial_offset: offset,
            offset,
            limit: offset + SBE_BLOCK_LENGTH as usize,
        })
    }

    /// Bytes written or reserved so far for this message.
    pub fn encoded_length(&self) -> (r: usize)
        requires
            self.wf(),
        ensures
            r == self.spec_limit() - self.offset,
    {
        self.limit - self.offset
    }

    /// Hands the finished buffer back.
    pub fn into_writebuf(self) -> (r: WriteBuf)
        ensures
            r.data@ == self.bytes(),
    {
        self.buf
    }

    /// Writes this message's envelope at `offset` and returns the
    /// header codec holding this encoder as its parent.
    pub fn header(self, offset: usize) -> (r: SbeResult<MessageHeaderEncoder<Self>>)
        requires
            self.wf(),
        ensures
            match r {
                Ok(h) => {
                    &&& h.parent is Some
                    &&& h.offset == offset
                    &&& h.wf()
                    &&& h.parent->0.wf()
                    &&& h.parent->0.bytes() == splice(
                        self.bytes(),
                        offset as int,
                        header_image(
                            SBE_BLOCK_LENGTH,
                            SBE_TEMPLATE_ID,
                            SBE_SCHEMA_ID,
                            SBE_SCHEMA_VERSION,
                        ),
                    )
                    &&& h.parent->0.spec_limit() == self.spec_limit()
                    &&& self.same_frame(&h.parent->0)
                },
                Err(e) => {
                    &&& e == SbeErr::BufferOverrun
                    &&& offset + message_header_codec::ENCODED_LENGTH as int
                        > self.bytes().len()
                },
            },
    {
        proof {
            vstd::bytes::lemma_auto_spec_u16_to_from_le_bytes();
        }
        let mut h = MessageHeaderEncoder::default().wrap(self, offset)?;
        h.block_length(SBE_BLOCK_LENGTH)?;
        h.template_id(SBE_TEMPLATE_ID)?;
        h.schema_id(SBE_SCHEMA_ID)?;
        h.version(SBE_SCHEMA_VERSION)?;
        proof {
            assert(h.parent->0.bytes() =~= splice(
                self.bytes(),
                offset as int,
                header_image(
                    SBE_BLOCK_LENGTH,
                    SBE_TEMPLATE_ID,
                    SBE_SCHEMA_ID,
                    SBE_SCHEMA_VERSION,
                ),
            ));
        }
        Ok(h)
    }

    /// Writes the 'event_time' field (i64, block offset 0).
    pub fn event_time(&mut self, value: i64)
        requires
            old(self).wf(),
        ensures
            final(self).wf(),
            final(self).bytes() == splice(old(self).bytes(), old(self).offset as int, spec_i64_to_le_bytes(value)),
            final(self).spec_limit() == old(self).spec_limit(),
            old(self).same_frame(final(self)),
    {
        let n: usize = self.buf.len();
        assert(self.offset + SBE_BLOCK_LENGTH as int <= n);
        let offset = self.offset;
        self.put_i64_at(offset, value);
    }

    /// Writes the 'transact_time' field (i64, block offset 8).
    pub fn transact_time(&mut self, value: i64)
        requires
            old(self).wf(),
        ensures
            final(self).wf(),
            final(self).bytes() == splice(old(self).bytes(), old(self).offset + 8, spec_i64_to_le_bytes(value)),
            final(self).spec_limit() == old(self).spec_limit(),
            old(self).same_frame(final(self)),
    {
        let n: usize = self.buf.len();
        assert(self.offset + SBE_BLOCK_LENGTH as int <= n);
        let offset = self.offset + 8;
        self.put_i64_at(offset, value);
    }

    /// Writes the 'price_exponent' field (i8, block offset 16).
    pub fn price_exponent(&mut self, value: i8)
        requires
            old(self).wf(),
        ensures
            final(self).wf(),
            final(self).bytes() == splice(old(self).bytes(), old(self).offset + 16, spec_i8_to_le_bytes(value)),
            final(self).spec_limit() == old(self).spec_limit(),
            old(self).same_frame(final(self)),
    {
        let n: usize = self.buf.len();
        assert(self.offset + SBE_BLOCK_LENGTH as int <= n);
        let offset = self.offset + 16;
        self.put_i8_at(offset, value);
    }

    /// Writes the 'qty_exponent' field (i8, block offset 17).
    pub fn qty_exponent(&mut self, value: i8)
        requires
            old(self).wf(),
        ensures
            final(self).wf(),
            final(self).bytes() == splice(old(self).bytes(), old(self).offset + 17, spec_i8_to_le_bytes(value)),
            final(self).spec_limit() == old(self).spec_limit(),
            old(self).same_frame(final(self)),
    {
        let n: usize = self.buf.len();
        assert(self.offset + SBE_BLOCK_LENGTH as int <= n);
        let offset = self.offset + 17;
        self.put_i8_at(offset, value);
    }

    /// Writes the 'commission_exponent' field (i8, block offset 18).
    pub fn commission_exponent(&mut self, value: i8)
        requires
            old(self).wf(),
        ensures
            final(self).wf(),
            final(self).bytes() == splice(old(self).bytes(), old(self).offset + 18, spec_i8_to_le_bytes(value)),
            final(self).spec_limit() == old(self).spec_limit(),
            old(self).same_frame(final(self)),
    {
        let n: usize = self.buf.len();
        assert(self.offset + SBE_BLOCK_LENGTH as int <= n);
        let offset = self.offset + 18;
        self.put_i8_at(offset, value);
    }

    /// Writes the 'order_creation_time' field (i64, block offset 19).
    pub fn order_creation_time(&mut self, value: i64)
        requires
            old(self).wf(),
        ensures
            final(self).wf(),
            final(self).bytes() == splice(old(self).bytes(), old(self).offset + 19, spec_i64_to_le_bytes(value)),
            final(self).spec_limit() == old(self).spec_limit(),
            old(self).same_frame(final(self)),
    {
        let n: usize = self.buf.len();
        assert(self.offset + SBE_BLOCK_LENGTH as int <= n);
        let offset = self.offset + 19;
        self.put_i64_at(offset, value);
    }

    /// Writes the 'working_time' field (i64, block offset 27).
    pub fn working_time(&mut self, value: i64)
        requires
            old(self).wf(),
        ensures
            final(self).wf(),
            final(self).bytes() == splice(old(self).bytes(), old(self).offset + 27, spec_i64_to_le_bytes(value)),
            final(self).spec_limit() == old(self).spec_limit(),
            old(self).same_frame(final(self)),
    {
        let n: usize = self.buf.len();
        assert(self.offset + SBE_BLOCK_LENGTH as int <= n);
        let offset = self.offset + 27;
        self.put_i64_at(offset, value);
    }

    /// Writes the 'order_id' field (i64, block offset 35).
    pub fn order_id(&mut self, value: i64)
        requires
            old(self).wf(),
        ensures
            final(self).wf(),
            final(self).bytes() == splice(old(self).bytes(), old(self).offset + 35, spec_i64_to_le_bytes(value)),
            final(self).spec_limit() == old(self).spec_limit(),
            old(self).same_frame(final(self)),
    {
        let n: usize = self.buf.len();
        assert(self.offset + SBE_BLOCK_LENGTH as int <= n);
        let offset = self.offset + 35;
        self.put_i64_at(offset, value);
    }

    /// Writes the 'order_list_id' field (i64, block offset 43).
    pub fn order_list_id(&mut self, value: i64)
        requires
            old(self).wf(),
        ensures
            final(self).wf(),
            final(self).bytes() == splice(old(self).bytes(), old(self).offset + 43, spec_i64_to_le_bytes(value)),
            final(self).spec_limit() == old(self).spec_limit(),
            old(self).same_frame(final(self)),
    {
        let n: usize = self.buf.len();
        assert(self.offset + SBE_BLOCK_LENGTH as int <= n);
        let offset = self.offset + 43;
        self.put_i64_at(offset, value);
    }

    /// Writes the 'orig_qty' field (i64, block offset 51).
    pub fn orig_qty(&mut self, value: i64)
        requires
            old(self).wf(),
        ensures
            final(self).wf(),
            final(self).bytes() == splice(old(self).bytes(), old(self).offset + 51, spec_i64_to_le_bytes(value)),
            final(self).spec_limit() == old(self).spec_limit(),
            old(self).same_frame(final(self)),
    {
        let n: usize = self.buf.len();
        assert(self.offset + SBE_BLOCK_LENGTH as int <= n);
        let offset = self.offset + 51;
        self.put_i64_at(offset, value);
    }

    /// Writes the 'price' field (i64, block offset 59).
    pub fn price(&mut self, value: i64)
        requires
            old(self).wf(),
        ensures
            final(self).wf(),
            final(self).bytes() == splice(old(self).bytes(), old(self).offset + 59, spec_i64_to_le_bytes(value)),
            final(self).spec_limit() == old(self).spec_limit(),
            old(self).same_frame(final(self)),
    {
        let n: usize = self.buf.len();
        assert(self.offset + SBE_BLOCK_LENGTH as int <= n);
        let offset = self.offset + 59;
        self.put_i64_at(offset, value);
    }

    /// Writes the 'orig_quote_order_qty' field (i64, block offset 67).
    pub fn orig_quote_order_qty(&mut self, value: i64)
        requires
            old(self).wf(),
        ensures
            final(self).wf(),
            final(self).bytes() == splice(old(self).bytes(), old(self).offset + 67, spec_i64_to_le_bytes(value)),
            final(self).spec_limit() == old(self).spec_limit(),
            old(self).same_frame(final(self)),
    {
        let n: usize = self.buf.len();
        assert(self.offset + SBE_BLOCK_LENGTH as int <= n);
        let offset = self.offset + 67;
        self.put_i64_at(offset, value);
    }

    /// Writes the 'iceberg_qty' field (i64, block offset 75).
    pub fn iceberg_qty(&mut self, value: i64)
        requires
            old(self).wf(),
        ensures
            final(self).wf(),
            final(self).bytes() == splice(old(self).bytes(), old(self).offset + 75, spec_i64_to_le_bytes(value)),
            final(self).spec_limit() == old(self).spec_limit(),
            old(self).same_frame(final(self)),
    {
        let n: usize = self.buf.len();
        assert(self.offset + SBE_BLOCK_LENGTH as int <= n);
        let offset = self.offset + 75;
        self.put_i64_at(offset, value);
    }

    /// Writes the 'stop_price' field (i64, block offset 83).
    pub fn stop_price(&mut self, value: i64)
        requires
            old(self).wf(),
        ensures
            final(self).wf(),
            final(self).bytes() == splice(old(self).bytes(), old(self).offset + 83, spec_i64_to_le_bytes(value)),
            final(self).spec_limit() == old(self).spec_limit(),
            old(self).same_frame(final(self)),
    {
        let n: usize = self.buf.len();
        assert(self.offset + SBE_BLOCK_LENGTH as int <= n);
        let offset = self.offset + 83;
        self.put_i64_at(offset, value);
    }

    /// Writes the single-byte 'order_type' enum field at block offset 91.
    pub fn order_type(&mut self, value: OrderType)
        requires
            old(self).wf(),
        ensures
            final(self).wf(),
            final(self).bytes() == old(self).bytes().update(old(self).offset + 91, order_type_to_byte(value)),
            final(self).spec_limit() == old(self).spec_limit(),
            old(self).same_frame(final(self)),
    {
        let n: usize = self.buf.len();
        assert(self.offset + SBE_BLOCK_LENGTH as int <= n);
        let offset = self.offset + 91;
        let b = value.value();
        self.put_u8_at(offset, b);
    }

    /// Writes the single-byte 'side' enum field at block offset 92.
    pub fn side(&mut self, value: OrderSide)
        requires
            old(self).wf(),
        ensures
            final(self).wf(),
            final(self).bytes() == old(self).bytes().update(old(self).offset + 92, order_side_to_byte(value)),
            final(self).spec_limit() == old(self).spec_limit(),
            old(self).same_frame(final(self)),
    {
        let n: usize = self.buf.len();
        assert(self.offset + SBE_BLOCK_LENGTH as int <= n);
        let offset = self.offset + 92;
        let b = value.value();
        self.put_u8_at(offset, b);
    }

    /// Writes the single-byte 'time_in_force' enum field at block offset 93.
    pub fn time_in_force(&mut self, value: TimeInForce)
        requires
            old(self).wf(),
        ensures
            final(self).wf(),
            final(self).bytes() == old(self).bytes().update(old(self).offset + 93, time_in_force_to_byte(value)),
            final(self).spec_limit() == old(self).spec_limit(),
            old(self).same_frame(final(self)),
    {
        let n: usize = self.buf.len();
        assert(self.offset + SBE_BLOCK_LENGTH as int <= n);
        let offset = self.offset + 93;
        let b = value.value();
        self.put_u8_at(offset, b);
    }

    /// Writes the single-byte 'execution_type' enum field at block offset 94.
    pub fn execution_type(&mut self, value: ExecutionType)
        requires
            old(self).wf(),
        ensures
            final(self).wf(),
            final(self).bytes() == old(self).bytes().update(old(self).offset + 94, execution_type_to_byte(value)),
            final(self).spec_limit() == old(self).spec_limit(),
            old(self).same_frame(final(self)),
    {
        let n: usize = self.buf.len();
        assert(self.offset + SBE_BLOCK_LENGTH as int <= n);
        let offset = self.offset + 94;
        let b = value.value();
        self.put_u8_at(offset, b);
    }

    /// Writes the single-byte 'order_status' enum field at block offset 95.
    pub fn order_status(&mut self, value: OrderStatus)
        requires
            old(self).wf(),
        ensures
            final(self).wf(),
            final(self).bytes() == old(self).bytes().update(old(self).offset + 95, order_status_to_byte(value)),
            final(self).spec_limit() == old(self).spec_limit(),
            old(self).same_frame(final(self)),
    {
        let n: usize = self.buf.len();
        assert(self.offset + SBE_BLOCK_LENGTH as int <= n);
        let offset = self.offset + 95;
        let b = value.value();
        self.put_u8_at(offset, b);
    }

    /// Writes the 'trade_id' field (i64, block offset 96).
    pub fn trade_id(&mut self, value: i64)
        requires
            old(self).wf(),
        ensures
            final(self).wf(),
            final(self).bytes() == splice(old(self).bytes(), old(self).offset + 96, spec_i64_to_le_bytes(value)),
            final(self).spec_limit() == old(self).spec_limit(),
            old(self).same_frame(final(self)),
    {
        let n: usize = self.buf.len();
        assert(self.offset + SBE_BLOCK_LENGTH as int <= n);
        let offset = self.offset + 96;
        self.put_i64_at(offset, value);
    }

    /// Writes the 'execution_id' field (i64, block offset 104).
    pub fn execution_id(&mut self, value: i64)
        requires
            old(self).wf(),
        ensures
            final(self).wf(),
            final(self).bytes() == splice(old(self).bytes(), old(self).offset + 104, spec_i64_to_le_bytes(value)),
            final(self).spec_limit() == old(self).spec_limit(),
            old(self).same_frame(final(self)),
    {
        let n: usize = self.buf.len();
        assert(self.offset + SBE_BLOCK_LENGTH as int <= n);
        let offset = self.offset + 104;
        self.put_i64_at(offset, value);
    }

    /// Writes the 'executed_qty' field (i64, block offset 112).
    pub fn executed_qty(&mut self, value: i64)
        requires
            old(self).wf(),
        ensures
            final(self).wf(),
            final(self).bytes() == splice(old(self).bytes(), old(self).offset + 112, spec_i64_to_le_bytes(value)),
            final(self).spec_limit() == old(self).spec_limit(),
            old(self).same_frame(final(self)),
    {
        let n: usize = self.buf.len();
        assert(self.offset + SBE_BLOCK_LENGTH as int <= n);
        let offset = self.offset + 112;
        self.put_i64_at(offset, value);
    }

    /// Writes the 'cummulative_quote_qty' field (i64, block offset 120).
    pub fn cummulative_quote_qty(&mut self, value: i64)
        requires
            old(self).wf(),
        ensures
            final(self).wf(),
            final(self).bytes() == splice(old(self).bytes(), old(self).offset + 120, spec_i64_to_le_bytes(value)),
            final(self).spec_limit() == old(self).spec_limit(),
            old(self).same_frame(final(self)),
    {
        let n: usize = self.buf.len();
        assert(self.offset + SBE_BLOCK_LENGTH as int <= n);
        let offset = self.offset + 120;
        self.put_i64_at(offset, value);
    }

    /// Writes the 'last_qty' field (i64, block offset 128).
    pub fn last_qty(&mut self, value: i64)
        requires
            old(self).wf(),
        ensures
            final(self).wf(),
            final(self).bytes() == splice(old(self).bytes(), old(self).offset + 128, spec_i64_to_le_bytes(value)),
            final(self).spec_limit() == old(self).spec_limit(),
            old(self).same_frame(final(self)),
    {
        let n: usize = self.buf.len();
        assert(self.offset + SBE_BLOCK_LENGTH as int <= n);
        let offset = self.offset + 128;
        self.put_i64_at(offset, value);
    }

    /// Writes the 'last_price' field (i64, block offset 136).
    pub fn last_price(&mut self, value: i64)
        requires
            old(self).wf(),
        ensures
            final(self).wf(),
            final(self).bytes() == splice(old(self).bytes(), old(self).offset + 136, spec_i64_to_le_bytes(value)),
            final(self).spec_limit() == old(self).spec_limit(),
            old(self).same_frame(final(self)),
    {
        let n: usize = self.buf.len();
        assert(self.offset + SBE_BLOCK_LENGTH as int <= n);
        let offset = self.offset + 136;
        self.put_i64_at(offset, value);
    }

    /// Writes the 'quote_qty' field (i64, block offset 144).
    pub fn quote_qty(&mut self, value: i64)
        requires
            old(self).wf(),
        ensures
            final(self).wf(),
            final(self).bytes() == splice(old(self).bytes(), old(self).offset + 144, spec_i64_to_le_bytes(value)),
            final(self).spec_limit() == old(self).spec_limit(),
            old(self).same_frame(final(self)),
    {
        let n: usize = self.buf.len();
        assert(self.offset + SBE_BLOCK_LENGTH as int <= n);
        let offset = self.offset + 144;
        self.put_i64_at(offset, value);
    }

    /// Writes the 'commission' field (i64, block offset 152).
    pub fn commission(&mut self, value: i64)
        requires
            old(self).wf(),
        ensures
            final(self).wf(),
            final(self).bytes() == splice(old(self).bytes(), old(self).offset + 152, spec_i64_to_le_bytes(value)),
            final(self).spec_limit() == old(self).spec_limit(),
            old(self).same_frame(final(self)),
    {
        let n: usize = self.buf.len();
        assert(self.offset + SBE_BLOCK_LENGTH as int <= n);
        let offset = self.offset + 152;
        self.put_i64_at(offset, value);
    }

    /// Writes the single-byte 'is_working' enum field at block offset 160.
    pub fn is_working(&mut self, value: BoolEnum)
        requires
            old(self).wf(),
        ensures
            final(self).wf(),
            final(self).bytes() == old(self).bytes().update(old(self).offset + 160, bool_enum_to_byte(value)),
            final(self).spec_limit() == old(self).spec_limit(),
            old(self).same_frame(final(self)),
    {
        let n: usize = self.buf.len();
        assert(self.offset + SBE_BLOCK_LENGTH as int <= n);
        let offset = self.offset + 160;
        let b = value.value();
        self.put_u8_at(offset, b);
    }

    /// Writes the single-byte 'is_maker' enum field at block offset 161.
    pub fn is_maker(&mut self, value: BoolEnum)
        requires
            old(self).wf(),
        ensures
            final(self).wf(),
            final(self).bytes() == old(self).bytes().update(old(self).offset + 161, bool_enum_to_byte(value)),
            final(self).spec_limit() == old(self).spec_limit(),
            old(self).same_frame(final(self)),
    {
        let n: usize = self.buf.len();
        assert(self.offset + SBE_BLOCK_LENGTH as int <= n);
        let offset = self.offset + 161;
        let b = value.value();
        self.put_u8_at(offset, b);
    }

    /// Writes the single-byte 'is_best_match' enum field at block offset 162.
    pub fn is_best_match(&mut self, value: BoolEnum)
        requires
            old(self).wf(),
        ensures
            final(self).wf(),
            final(self).bytes() == old(self).bytes().update(old(self).offset + 162, bool_enum_to_byte(value)),
            final(self).spec_limit() == old(self).spec_limit(),
            old(self).same_frame(final(self)),
    {
        let n: usize = self.buf.len();
        assert(self.offset + SBE_BLOCK_LENGTH as int <= n);
        let offset = self.offset + 162;
        let b = value.value();
        self.put_u8_at(offset, b);
    }

    /// Writes the single-byte 'match_type' enum field at block offset 163.
    pub fn match_type(&mut self, value: MatchType)
        requires
            old(self).wf(),
        ensures
            final(self).wf(),
            final(self).bytes() == old(self).bytes().update(old(self).offset + 163, match_type_to_byte(value)),
            final(self).spec_limit() == old(self).spec_limit(),
            old(self).same_frame(final(self)),
    {
        let n: usize = self.buf.len();
        assert(self.offset + SBE_BLOCK_LENGTH as int <= n);
        let offset = self.offset + 163;
        let b = value.value();
        self.put_u8_at(offset, b);
    }

    /// Writes the single-byte 'self_trade_prevention_mode' enum field at block offset 164.
    pub fn self_trade_prevention_mode(&mut self, value: SelfTradePreventionMode)
        requires
            old(self).wf(),
        ensures
            final(self).wf(),
            final(self).bytes() == old(self).bytes().update(old(self).offset + 164, self_trade_prevention_mode_to_byte(value)),
            final(self).spec_limit() == old(self).spec_limit(),
            old(self).same_frame(final(self)),
    {
        let n: usize = self.buf.len();
        assert(self.offset + SBE_BLOCK_LENGTH as int <= n);
        let offset = self.offset + 164;
        let b = value.value();
        self.put_u8_at(offset, b);
    }

    /// Writes the single-byte 'order_capacity' enum field at block offset 165.
    pub fn order_capacity(&mut self, value: OrderCapacity)
        requires
            old(self).wf(),
        ensures
            final(self).wf(),
            final(self).bytes() == old(self).bytes().update(old(self).offset + 165, order_capacity_to_byte(value)),
            final(self).spec_limit() == old(self).spec_limit(),
            old(self).same_frame(final(self)),
    {
        let n: usize = self.buf.len();
        assert(self.offset + SBE_BLOCK_LENGTH as int <= n);
        let offset = self.offset + 165;
        let b = value.value();
        self.put_u8_at(offset, b);
    }

    /// Writes the single-byte 'working_floor' enum field at block offset 166.
    pub fn working_floor(&mut self, value: Floor)
        requires
            old(self).wf(),
        ensures
            final(self).wf(),
            final(self).bytes() == old(self).bytes().update(old(self).offset + 166, floor_to_byte(value)),
            final(self).spec_limit() == old(self).spec_limit(),
            old(self).same_frame(final(self)),
    {
        let n: usize = self.buf.len();
        assert(self.offset + SBE_BLOCK_LENGTH as int <= n);
        let offset = self.offset + 166;
        let b = value.value();
        self.put_u8_at(offset, b);
    }

    /// Writes the single-byte 'used_sor' enum field at block offset 167.
    pub fn used_sor(&mut self, value: BoolEnum)
        requires
            old(self).wf(),
        ensures
            final(self).wf(),
            final(self).bytes() == old(self).bytes().update(old(self).offset + 167, bool_enum_to_byte(value)),
            final(self).spec_limit() == old(self).spec_limit(),
            old(self).same_frame(final(self)),
    {
        let n: usize = self.buf.len();
        assert(self.offset + SBE_BLOCK_LENGTH as int <= n);
        let offset = self.offset + 167;
        let b = value.value();
        self.put_u8_at(offset, b);
    }

    /// Writes the 'alloc_id' field (i64, block offset 168).
    pub fn alloc_id(&mut self, value: i64)
        requires
            old(self).wf(),
        ensures
            final(self).wf(),
            final(self).bytes() == splice(old(self).bytes(), old(self).offset + 168, spec_i64_to_le_bytes(value)),
            final(self).spec_limit() == old(self).spec_limit(),
            old(self).same_frame(final(self)),
    {
        let n: usize = self.buf.len();
        assert(self.offset + SBE_BLOCK_LENGTH as int <= n);
        let offset = self.offset + 168;
        self.put_i64_at(offset, value);
    }

    /// Writes the 'trailing_delta' field (u64, block offset 176).
    pub fn trailing_delta(&mut self, value: u64)
        requires
            old(self).wf(),
        ensures
            final(self).wf(),
            final(self).bytes() == splice(old(self).bytes(), old(self).offset + 176, spec_u64_to_le_bytes(value)),
            final(self).spec_limit() == old(self).spec_limit(),
            old(self).same_frame(final(self)),
    {
        let n: usize = self.buf.len();
        assert(self.offset + SBE_BLOCK_LENGTH as int <= n);
        let offset = self.offset + 176;
        self.put_u64_at(offset, value);
    }

    /// Writes the 'trailing_time' field (i64, block offset 184).
    pub fn trailing_time(&mut self, value: i64)
        requires
            old(self).wf(),
        ensures
            final(self).wf(),
            final(self).bytes() == splice(old(self).bytes(), old(self).offset + 184, spec_i64_to_le_bytes(value)),
            final(self).spec_limit() == old(self).spec_limit(),
            old(self).same_frame(final(self)),
    {
        let n: usize = self.buf.len();
        assert(self.offset + SBE_BLOCK_LENGTH as int <= n);
        let offset = self.offset + 184;
        self.put_i64_at(offset, value);
    }

    /// Writes the 'trade_group_id' field (i64, block offset 192).
    pub fn trade_group_id(&mut self, value: i64)
        requires
            old(self).wf(),
        ensures
            final(self).wf(),
            final(self).bytes() == splice(old(self).bytes(), old(self).offset + 192, spec_i64_to_le_bytes(value)),
            final(self).spec_limit() == old(self).spec_limit(),
            old(self).same_frame(final(self)),
    {
        let n: usize = self.buf.len();
        assert(self.offset + SBE_BLOCK_LENGTH as int <= n);
        let offset = self.offset + 192;
        self.put_i64_at(offset, value);
    }

    /// Writes the 'prevented_qty' field (i64, block offset 200).
    pub fn prevented_qty(&mut self, value: i64)
        requires
            old(self).wf(),
        ensures
            final(self).wf(),
            final(self).bytes() == splice(old(self).bytes(), old(self).offset + 200, spec_i64_to_le_bytes(value)),
            final(self).spec_limit() == old(self).spec_limit(),
            old(self).same_frame(final(self)),
    {
        let n: usize = self.buf.len();
        assert(self.offset + SBE_BLOCK_LENGTH as int <= n);
        let offset = self.offset + 200;
        self.put_i64_at(offset, value);
    }

    /// Writes the 'last_prevented_qty' field (i64, block offset 208).
    pub fn last_prevented_qty(&mut self, value: i64)
        requires
            old(self).wf(),
        ensures
            final(self).wf(),
            final(self).bytes() == splice(old(self).bytes(), old(self).offset + 208, spec_i64_to_le_bytes(value)),
            final(self).spec_limit() == old(self).spec_limit(),
            old(self).same_frame(final(self)),
    {
        let n: usize = self.buf.len();
        assert(self.offset + SBE_BLOCK_LENGTH as int <= n);
        let offset = self.offset + 208;
        self.put_i64_at(offset, value);
    }

    /// Writes the 'prevented_match_id' field (i64, block offset 216).
    pub fn prevented_match_id(&mut self, value: i64)
        requires
            old(self).wf(),
        ensures
            final(self).wf(),
            final(self).bytes() == splice(old(self).bytes(), old(self).offset + 216, spec_i64_to_le_bytes(value)),
            final(self).spec_limit() == old(self).spec_limit(),
            old(self).same_frame(final(self)),
    {
        let n: usize = self.buf.len();
        assert(self.offset + SBE_BLOCK_LENGTH as int <= n);
        let offset = self.offset + 216;
        self.put_i64_at(offset, value);
    }

    /// Writes the 'prevented_execution_qty' field (i64, block offset 224).
    pub fn prevented_execution_qty(&mut self, value: i64)
        requires
            old(self).wf(),
        ensures
            final(self).wf(),
            final(self).bytes() == splice(old(self).bytes(), old(self).offset + 224, spec_i64_to_le_bytes(value)),
            final(self).spec_limit() == old(self).spec_limit(),
            old(self).same_frame(final(self)),
    {
        let n: usize = self.buf.len();
        assert(self.offset + SBE_BLOCK_LENGTH as int <= n);
        let offset = self.offset + 224;
        self.put_i64_at(offset, value);
    }

    /// Writes the 'prevented_execution_price' field (i64, block offset 232).
    pub fn prevented_execution_price(&mut self, value: i64)
        requires
            old(self).wf(),
        ensures
            final(self).wf(),
            final(self).bytes() == splice(old(self).bytes(), old(self).offset + 232, spec_i64_to_le_bytes(value)),
            final(self).spec_limit() == old(self).spec_limit(),
            old(self).same_frame(final(self)),
    {
        let n: usize = self.buf.len();
        assert(self.offset + SBE_BLOCK_LENGTH as int <= n);
        let offset = self.offset + 232;
        self.put_i64_at(offset, value);
    }

    /// Writes the 'prevented_execution_quote_qty' field (i64, block offset 240).
    pub fn prevented_execution_quote_qty(&mut self, value: i64)
        requires
            old(self).wf(),
        ensures
            final(self).wf(),
            final(self).bytes() == splice(old(self).bytes(), old(self).offset + 240, spec_i64_to_le_bytes(value)),
            final(self).spec_limit() == old(self).spec_limit(),
            old(self).same_frame(final(self)),
    {
        let n: usize = self.buf.len();
        assert(self.offset + SBE_BLOCK_LENGTH as int <= n);
        let offset = self.offset + 240;
        self.put_i64_at(offset, value);
    }

    /// Writes the 'strategy_type' field (i32, block offset 248).
    pub fn strategy_type(&mut self, value: i32)
        requires
            old(self).wf(),
        ensures
            final(self).wf(),
            final(self).bytes() == splice(old(self).bytes(), old(self).offset + 248, spec_i32_to_le_bytes(value)),
            final(self).spec_limit() == old(self).spec_limit(),
            old(self).same_frame(final(self)),
    {
        let n: usize = self.buf.len();
        assert(self.offset + SBE_BLOCK_LENGTH as int <= n);
        let offset = self.offset + 248;
        self.put_i32_at(offset, value);
    }

    /// Writes the 'strategy_id' field (i64, block offset 252).
    pub fn strategy_id(&mut self, value: i64)
        requires
            old(self).wf(),
        ensures
            final(self).wf(),
            final(self).bytes() == splice(old(self).bytes(), old(self).offset + 252, spec_i64_to_le_bytes(value)),
            final(self).spec_limit() == old(self).spec_limit(),
            old(self).same_frame(final(self)),
    {
        let n: usize = self.buf.len();
        assert(self.offset + SBE_BLOCK_LENGTH as int <= n);
        let offset = self.offset + 252;
        self.put_i64_at(offset, value);
    }

    /// Writes the 'counter_order_id' field (i64, block offset 260).
    pub fn counter_order_id(&mut self, value: i64)
        requires
            old(self).wf(),
        ensures
            final(self).wf(),
            final(self).bytes() == splice(old(self).bytes(), old(self).offset + 260, spec_i64_to_le_bytes(value)),
            final(self).spec_limit() == old(self).spec_limit(),
            old(self).same_frame(final(self)),
    {
        let n: usize = self.buf.len();
        assert(self.offset + SBE_BLOCK_LENGTH as int <= n);
        let offset = self.offset + 260;
        self.put_i64_at(offset, value);
    }

    /// Appends the variable-length 'symbol' field at the current limit: a
    /// one-byte length prefix followed by the payload bytes.
    pub fn symbol(&mut self, value: &[u8]) -> (r: SbeResult<()>)
        requires
            old(self).wf(),
        ensures
            final(self).wf(),
            old(self).same_frame(final(self)),
            match r {
                Ok(()) => {
                    &&& value@.len() <= 255
                    &&& old(self).spec_limit() + 1 + value@.len() <= old(self).bytes().len()
                    &&& final(self).bytes() == splice(
                        old(self).bytes(),
                        old(self).spec_limit(),
                        seq![value@.len() as u8] + value@,
                    )
                    &&& final(self).spec_limit() == old(self).spec_limit() + 1 + value@.len()
                },
                Err(e) => {
                    &&& e == SbeErr::BufferOverrun
                    &&& *final(self) == *old(self)
                    &&& (value@.len() > 255 || old(self).spec_limit() + 1 + value@.len()
                        > old(self).bytes().len())
                },
            },
    {
        let data_length = value.len();
        if data_length > 255 {
            return Err(SbeErr::BufferOverrun);
        }
        let limit = self.limit;
        let n: usize = self.buf.len();
        if limit >= n || n - limit - 1 < data_length {
            return Err(SbeErr::BufferOverrun);
        }
        self.put_u8_at(limit, data_length as u8);
        self.put_slice_at(limit + 1, value);
        self.limit = limit + 1 + data_length;
        proof {
            assert(final(self).bytes() =~= splice(
                old(self).bytes(),
                old(self).spec_limit(),
                seq![value@.len() as u8] + value@,
            ));
        }
        Ok(())
    }

    /// Appends the variable-length 'client_order_id' field at the current limit: a
    /// one-byte length prefix followed by the payload bytes.
    pub fn client_order_id(&mut self, value: &[u8]) -> (r: SbeResult<()>)
        requires
            old(self).wf(),
        ensures
            final(self).wf(),
            old(self).same_frame(final(self)),
            match r {
                Ok(()) => {
                    &&& value@.len() <= 255
                    &&& old(self).spec_limit() + 1 + value@.len() <= old(self).bytes().len()
                    &&& final(self).bytes() == splice(
                        old(self).bytes(),
                        old(self).spec_limit(),
                        seq![value@.len() as u8] + value@,
                    )
                    &&& final(self).spec_limit() == old(self).spec_limit() + 1 + value@.len()
                },
                Err(e) => {
                    &&& e == SbeErr::BufferOverrun
                    &&& *final(self) == *old(self)
                    &&& (value@.len() > 255 || old(self).spec_limit() + 1 + value@.len()
                        > old(self).bytes().len())
                },
            },
    {
        let data_length = value.len();
        if data_length > 255 {
            return Err(SbeErr::BufferOverrun);
        }
        let limit = self.limit;
        let n: usize = self.buf.len();
        if limit >= n || n - limit - 1 < data_length {
            return Err(SbeErr::BufferOverrun);
        }
        self.put_u8_at(limit, data_length as u8);
        self.put_slice_at(limit + 1, value);
        self.limit = limit + 1 + data_length;
        proof {
            assert(final(self).bytes() =~= splice(
                old(self).bytes(),
                old(self).spec_limit(),
                seq![value@.len() as u8] + value@,
            ));
        }
        Ok(())
    }

    /// Appends the variable-length 'orig_client_order_id' field at the current limit: a
    /// one-byte length prefix followed by the payload bytes.
    pub fn orig_client_order_id(&mut self, value: &[u8]) -> (r: SbeResult<()>)
        requires
            old(self).wf(),
        ensures
            final(self).wf(),
            old(self).same_frame(final(self)),
            match r {
                Ok(()) => {
                    &&& value@.len() <= 255
                    &&& old(self).spec_limit() + 1 + value@.len() <= old(self).bytes().len()
                    &&& final(self).bytes() == splice(
                        old(self).bytes(),
                        old(self).spec_limit(),
                        seq![value@.len() as u8] + value@,
                    )
                    &&& final(self).spec_limit() == old(self).spec_limit() + 1 + value@.len()
                },
                Err(e) => {
                    &&& e == SbeErr::BufferOverrun
                    &&& *final(self) == *old(self)
                    &&& (value@.len() > 255 || old(self).spec_limit() + 1 + value@.len()
                        > old(self).bytes().len())
                },
            },
    {
        let data_length = value.len();
        if data_length > 255 {
            return Err(SbeErr::BufferOverrun);
        }
        let limit = self.limit;
        let n: usize = self.buf.len();
        if limit >= n || n - limit - 1 < data_length {
            return Err(SbeErr::BufferOverrun);
        }
        self.put_u8_at(limit, data_length as u8);
        self.put_slice_at(limit + 1, value);
        self.limit = limit + 1 + data_length;
        proof {
            assert(final(self).bytes() =~= splice(
                old(self).bytes(),
                old(self).spec_limit(),
                seq![value@.len() as u8] + value@,
            ));
        }
        Ok(())
    }

    /// Appends the variable-length 'commission_asset' field at the current limit: a
    /// one-byte length prefix followed by the payload bytes.
    pub fn commission_asset(&mut self, value: &[u8]) -> (r: SbeResult<()>)
        requires
            old(self).wf(),
        ensures
            final(self).wf(),
            old(self).same_frame(final(self)),
            match r {
                Ok(()) => {
                    &&& value@.len() <= 255
                    &&& old(self).spec_limit() + 1 + value@.len() <= old(self).bytes().len()
                    &&& final(self).bytes() == splice(
                        old(self).bytes(),
                        old(self).spec_limit(),
                        seq![value@.len() as u8] + value@,
                    )
                    &&& final(self).spec_limit() == old(self).spec_limit() + 1 + value@.len()
                },
                Err(e) => {
                    &&& e == SbeErr::BufferOverrun
                    &&& *final(self) == *old(self)
                    &&& (value@.len() > 255 || old(self).spec_limit() + 1 + value@.len()
                        > old(self).bytes().len())
                },
            },
    {
        let data_length = value.len();
        if data_length > 255 {
            return Err(SbeErr::BufferOverrun);
        }
        let limit = self.limit;
        let n: usize = self.buf.len();
        if limit >= n || n - limit - 1 < data_length {
            return Err(SbeErr::BufferOverrun);
        }
        self.put_u8_at(limit, data_length as u8);
        self.put_slice_at(limit + 1, value);
        self.limit = limit + 1 + data_length;
        proof {
            assert(final(self).bytes() =~= splice(
                old(self).bytes(),
                old(self).spec_limit(),
                seq![value@.len() as u8] + value@,
            ));
        }
        Ok(())
    }

    /// Appends the variable-length 'reject_reason' field at the current limit: a
    /// one-byte length prefix followed by the payload bytes.
    pub fn reject_reason(&mut self, value: &[u8]) -> (r: SbeResult<()>)
        requires
            old(self).wf(),
        ensures
            final(self).wf(),
            old(self).same_frame(final(self)),
            match r {
                Ok(()) => {
                    &&& value@.len() <= 255
                    &&& old(self).spec_limit() + 1 + value@.len() <= old(self).bytes().len()
                    &&& final(self).bytes() == splice(
                        old(self).bytes(),
                        old(self).spec_limit(),
                        seq![value@.len() as u8] + value@,
                    )
                    &&& final(self).spec_limit() == old(self).spec_limit() + 1 + value@.len()
                },
                Err(e) => {
                    &&& e == SbeErr::BufferOverrun
                    &&& *final(self) == *old(self)
                    &&& (value@.len() > 255 || old(self).spec_limit() + 1 + value@.len()
                        > old(self).bytes().len())
                },
            },
    {
        let data_length = value.len();
        if data_length > 255 {
            return Err(SbeErr::BufferOverrun);
        }
        let limit = self.limit;
        let n: usize = self.buf.len();
        if limit >= n || n - limit - 1 < data_length {
            return Err(SbeErr::BufferOverrun);
        }
        self.put_u8_at(limit, data_length as u8);
        self.put_slice_at(limit + 1, value);
        self.limit = limit + 1 + data_length;
        proof {
            assert(final(self).bytes() =~= splice(
                old(self).bytes(),
                old(self).spec_limit(),
                seq![value@.len() as u8] + value@,
            ));
        }
        Ok(())
    }

    /// Appends the variable-length 'counter_symbol' field at the current limit: a
    /// one-byte length prefix followed by the payload bytes.
    pub fn counter_symbol(&mut self, value: &[u8]) -> (r: SbeResult<()>)
        requires
            old(self).wf(),
        ensures
            final(self).wf(),
            old(self).same_frame(final(self)),
            match r {
                Ok(()) => {
                    &&& value@.len() <= 255
                    &&& old(self).spec_limit() + 1 + value@.len() <= old(self).bytes().len()
                    &&& final(self).bytes() == splice(
                        old(self).bytes(),
                        old(self).spec_limit(),
                        seq![value@.len() as u8] + value@,
                    )
                    &&& final(self).spec_limit() == old(self).spec_limit() + 1 + value@.len()
                },
                Err(e) => {
                    &&& e == SbeErr::BufferOverrun
                    &&& *final(self) == *old(self)
                    &&& (value@.len() > 255 || old(self).spec_limit() + 1 + value@.len()
                        > old(self).bytes().len())
                },
            },
    {
        let data_length = value.len();
        if data_length > 255 {
            return Err(SbeErr::BufferOverrun);
        }
        let limit = self.limit;
        let n: usize = self.buf.len();
        if limit >= n || n - limit - 1 < data_length {
            return Err(SbeErr::BufferOverrun);
        }
        self.put_u8_at(limit, data_length as u8);
        self.put_slice_at(limit + 1, value);
        self.limit = limit + 1 + data_length;
        proof {
            assert(final(self).bytes() =~= splice(
                old(self).bytes(),
                old(self).spec_limit(),
                seq![value@.len() as u8] + value@,
            ));
        }
        Ok(())
    }
}

/// Reads the fixed block of a message, then groups and
/// variable-length data at the advancing limit.
#[derive(Clone, Copy)]
pub struct ExecutionReportEventDecoder<'a> {
    pub buf: ReadBuf<'a>,
    pub initial_offset: usize,
    pub offset: usize,
    pub limit: usize,
    pub acting_block_length: u16,
    pub acting_version: u16,
}

impl<'a> Default for ExecutionReportEventDecoder<'a> {
    fn default() -> (r: ExecutionReportEventDecoder<'a>)
        ensures
            r.offset == 0,
            r.limit == 0,
            r.acting_block_length == 0,
            r.acting_version == 0,
    {
        ExecutionReportEventDecoder {
            buf: ReadBuf { data: &[] },
            initial_offset: 0,
            offset: 0,
            limit: 0,
            acting_block_length: 0,
            acting_version: 0,
        }
    }
}

impl<'a> Reader for ExecutionReportEventDecoder<'a> {
    open spec fn bytes(&self) -> Seq<u8> {
        self.buf.data@
    }

    open spec fn readable(&self) -> bool {
        true
    }

    fn buf_len(&self) -> (r: usize) {
        self.buf.data.len()
    }

    fn get_u8_at(&self, offset: usize) -> (r: u8) {
        self.buf.get_u8_at(offset)
    }

    fn get_slice_at(&self, offset: usize, len: usize) -> (r: &[u8]) {
        self.buf.get_slice_at(offset, len)
    }
}

impl<'a> Decoder for ExecutionReportEventDecoder<'a> {
    open spec fn spec_limit(&self) -> int {
        self.limit as int
    }

    open spec fn same_frame(&self, other: &Self) -> bool {
        &&& other.buf.data@ == self.buf.data@
        &&& other.initial_offset == self.initial_offset
        &&& other.offset == self.offset
        &&& other.acting_block_length == self.acting_block_length
        &&& other.acting_version == self.acting_version
    }

    proof fn lemma_frame_refl(&self) {
    }

    proof fn lemma_frame_trans(&self, b: &Self, c: &Self) {
    }

    proof fn lemma_frame_props(&self, other: &Self) {
    }

    fn get_limit(&self) -> (r: usize) {
        self.limit
    }

    fn set_limit(&mut self, limit: usize) {
        self.limit = limit;
    }
}

impl<'a> ExecutionReportEventDecoder<'a> {
    /// The decoder is positioned on an acting block that lies inside
    /// the buffer.
    pub open spec fn wf(&self) -> bool {
        &&& self.offset == self.initial_offset
        &&& self.offset + self.acting_block_length as int <= self.buf.data@.len()
        &&& self.offset <= self.limit <= self.buf.data@.len()
    }

    /// Positions the decoder at `offset` with the block length and
    /// schema version the envelope declared; fails when the declared
    /// block does not lie inside the buffer.
    pub fn wrap(
        self,
        buf: ReadBuf<'a>,
        offset: usize,
        acting_block_length: u16,
        acting_version: u16,
    ) -> (r: SbeResult<Self>)
        ensures
            match r {
                Ok(d) => {
                    &&& offset + acting_block_length as int <= buf.data@.len()
                    &&& d.wf()
                    &&& d.bytes() == buf.data@
                    &&& d.offset == offset
                    &&& d.acting_block_length == acting_block_length
                    &&& d.acting_version == acting_version
                    &&& d.spec_limit() == offset + acting_block_length as int
                },
                Err(e) => {
                    &&& e == SbeErr::BufferOverrun
                    &&& offset + acting_block_length as int > buf.data@.len()
                },
            },
    {
        let n: usize = buf.data.len();
        if offset > n || n - offset < acting_block_length as usize {
            return Err(SbeErr::BufferOverrun);
        }
        Ok(ExecutionReportEventDecoder {
            buf,
            initial_offset: offset,
            offset,
            limit: offset + acting_block_length as usize,
            acting_block_length,
            acting_version,
        })
    }

    /// Bytes consumed or declared so far for this message.
    pub fn encoded_length(&self) -> (r: usize)
        requires
            self.wf(),
        ensures
            r == self.spec_limit() - self.offset,
    {
        self.limit - self.offset
    }

    /// Checks the envelope's template id and positions the decoder
    /// right behind the envelope, using the block length and version
    /// the envelope declares.
    pub fn header(self, header: MessageHeaderDecoder<ReadBuf<'a>>) -> (r: SbeResult<Self>)
        requires
            header.wf(),
            header.offset == 0,
        ensures
            match r {
                Ok(d) => {
                    &&& header.parent is Some
                    &&& header.spec_template_id() == SBE_TEMPLATE_ID
                    &&& d.wf()
                    &&& d.bytes() == header.parent->0.bytes()
                    &&& d.offset == message_header_codec::ENCODED_LENGTH
                    &&& d.acting_block_length == header.spec_block_length()
                    &&& d.acting_version == header.spec_version()
                    &&& d.spec_limit() == message_header_codec::ENCODED_LENGTH
                        + header.spec_block_length() as int
                },
                Err(e) => {
                    ||| (e == SbeErr::ParentNotSet && header.parent is None)
                    ||| (e == SbeErr::UnexpectedTemplate && header.parent is Some
                        && header.spec_template_id() != SBE_TEMPLATE_ID)
                    ||| (e == SbeErr::BufferOverrun && header.parent is Some
                        && header.spec_template_id() == SBE_TEMPLATE_ID
                        && message_header_codec::ENCODED_LENGTH
                            + header.spec_block_length() as int
                            > header.parent->0.bytes().len())
                },
            },
    {
        let template_id = header.template_id()?;
        if template_id != SBE_TEMPLATE_ID {
            return Err(SbeErr::UnexpectedTemplate);
        }
        let acting_block_length = header.block_length()?;
        let acting_version = header.version()?;
        let mut h = header;
        let buf = h.parent()?;
        self.wrap(
            buf,
            message_header_codec::ENCODED_LENGTH,
            acting_block_length,
            acting_version,
        )
    }

    /// Reads the 'event_time' field (i64, block offset 0).
    pub fn event_time(&self) -> (r: SbeResult<i64>)
        requires
            self.wf(),
        ensures
            match r {
                Ok(v) => {
                    &&& 8 <= self.acting_block_length
                    &&& v == spec_i64_from_le_bytes(self.bytes().subrange(self.offset as int, self.offset + 8))
                },
                Err(e) => e == SbeErr::BufferOverrun && self.acting_block_length < 8,
            },
    {
        if (self.acting_block_length as usize) < 8 {
            return Err(SbeErr::BufferOverrun);
        }
        let n: usize = self.buf.data.len();
        assert(self.offset + self.acting_block_length as int <= n);
        Ok(self.get_i64_at(self.offset))
    }

    /// Reads the 'transact_time' field (i64, block offset 8).
    pub fn transact_time(&self) -> (r: SbeResult<i64>)
        requires
            self.wf(),
        ensures
            match r {
                Ok(v) => {
                    &&& 16 <= self.acting_block_length
                    &&& v == spec_i64_from_le_bytes(self.bytes().subrange(self.offset + 8, self.offset + 16))
                },
                Err(e) => e == SbeErr::BufferOverrun && self.acting_block_length < 16,
            },
    {
        if (self.acting_block_length as usize) < 16 {
            return Err(SbeErr::BufferOverrun);
        }
        let n: usize = self.buf.data.len();
        assert(self.offset + self.acting_block_length as int <= n);
        Ok(self.get_i64_at(self.offset + 8))
    }

    /// Reads the 'price_exponent' field (i8, block offset 16).
    pub fn price_exponent(&self) -> (r: SbeResult<i8>)
        requires
            self.wf(),
        ensures
            match r {
                Ok(v) => {
                    &&& 17 <= self.acting_block_length
                    &&& v == spec_i8_from_le_bytes(self.bytes().subrange(self.offset + 16, self.offset + 17))
                },
                Err(e) => e == SbeErr::BufferOverrun && self.acting_block_length < 17,
            },
    {
        if (self.acting_block_length as usize) < 17 {
            return Err(SbeErr::BufferOverrun);
        }
        let n: usize = self.buf.data.len();
        assert(self.offset + self.acting_block_length as int <= n);
        Ok(self.get_i8_at(self.offset + 16))
    }

    /// Reads the 'qty_exponent' field (i8, block offset 17).
    pub fn qty_exponent(&self) -> (r: SbeResult<i8>)
        requires
            self.wf(),
        ensures
            match r {
                Ok(v) => {
                    &&& 18 <= self.acting_block_length
                    &&& v == spec_i8_from_le_bytes(self.bytes().subrange(self.offset + 17, self.offset + 18))
                },
                Err(e) => e == SbeErr::BufferOverrun && self.acting_block_length < 18,
            },
    {
        if (self.acting_block_length as usize) < 18 {
            return Err(SbeErr::BufferOverrun);
        }
        let n: usize = self.buf.data.len();
        assert(self.offset + self.acting_block_length as int <= n);
        Ok(self.get_i8_at(self.offset + 17))
    }

    /// Reads the 'commission_exponent' field (i8, block offset 18).
    pub fn commission_exponent(&self) -> (r: SbeResult<i8>)
        requires
            self.wf(),
        ensures
            match r {
                Ok(v) => {
                    &&& 19 <= self.acting_block_length
                    &&& v == spec_i8_from_le_bytes(self.bytes().subrange(self.offset + 18, self.offset + 19))
                },
                Err(e) => e == SbeErr::BufferOverrun && self.acting_block_length < 19,
            },
    {
        if (self.acting_block_length as usize) < 19 {
            return Err(SbeErr::BufferOverrun);
        }
        let n: usize = self.buf.data.len();
        assert(self.offset + self.acting_block_length as int <= n);
        Ok(self.get_i8_at(self.offset + 18))
    }

    /// Reads the 'order_creation_time' field (i64, block offset 19).
    pub fn order_creation_time(&self) -> (r: SbeResult<i64>)
        requires
            self.wf(),
        ensures
            match r {
                Ok(v) => {
                    &&& 27 <= self.acting_block_length
                    &&& v == spec_i64_from_le_bytes(self.bytes().subrange(self.offset + 19, self.offset + 27))
                },
                Err(e) => e == SbeErr::BufferOverrun && self.acting_block_length < 27,
            },
    {
        if (self.acting_block_length as usize) < 27 {
            return Err(SbeErr::BufferOverrun);
        }
        let n: usize = self.buf.data.len();
        assert(self.offset + self.acting_block_length as int <= n);
        Ok(self.get_i64_at(self.offset + 19))
    }

    /// Reads the optional 'working_time' field at block offset 27: the
    /// reserved null sentinel decodes to `None`.
    pub fn working_time(&self) -> (r: SbeResult<Option<i64>>)
        requires
            self.wf(),
        ensures
            match r {
                Ok(v) => {
                    &&& 35 <= self.acting_block_length
                    &&& v == opt_i64(spec_i64_from_le_bytes(self.bytes().subrange(self.offset + 27, self.offset + 35)))
                },
                Err(e) => e == SbeErr::BufferOverrun && self.acting_block_length < 35,
            },
    {
        if (self.acting_block_length as usize) < 35 {
            return Err(SbeErr::BufferOverrun);
        }
        let n: usize = self.buf.data.len();
        assert(self.offset + self.acting_block_length as int <= n);
        let value = self.get_i64_at(self.offset + 27);
        if value == i64::MIN {
            Ok(None)
        } else {
            Ok(Some(value))
        }
    }

    /// Reads the 'order_id' field (i64, block offset 35).
    pub fn order_id(&self) -> (r: SbeResult<i64>)
        requires
            self.wf(),
        ensures
            match r {
                Ok(v) => {
                    &&& 43 <= self.acting_block_length
                    &&& v == spec_i64_from_le_bytes(self.bytes().subrange(self.offset + 35, self.offset + 43))
                },
                Err(e) => e == SbeErr::BufferOverrun && self.acting_block_length < 43,
            },
    {
        if (self.acting_block_length as usize) < 43 {
            return Err(SbeErr::BufferOverrun);
        }
        let n: usize = self.buf.data.len();
        assert(self.offset + self.acting_block_length as int <= n);
        Ok(self.get_i64_at(self.offset + 35))
    }

    /// Reads the optional 'order_list_id' field at block offset 43: the
    /// reserved null sentinel decodes to `None`.
    pub fn order_list_id(&self) -> (r: SbeResult<Option<i64>>)
        requires
            self.wf(),
        ensures
            match r {
                Ok(v) => {
                    &&& 51 <= self.acting_block_length
                    &&& v == opt_i64(spec_i64_from_le_bytes(self.bytes().subrange(self.offset + 43, self.offset + 51)))
                },
                Err(e) => e == SbeErr::BufferOverrun && self.acting_block_length < 51,
            },
    {
        if (self.acting_block_length as usize) < 51 {
            return Err(SbeErr::BufferOverrun);
        }
        let n: usize = self.buf.data.len();
        assert(self.offset + self.acting_block_length as int <= n);
        let value = self.get_i64_at(self.offset + 43);
        if value == i64::MIN {
            Ok(None)
        } else {
            Ok(Some(value))
        }
    }

    /// Reads the 'orig_qty' field (i64, block offset 51).
    pub fn orig_qty(&self) -> (r: SbeResult<i64>)
        requires
            self.wf(),
        ensures
            match r {
                Ok(v) => {
                    &&& 59 <= self.acting_block_length
                    &&& v == spec_i64_from_le_bytes(self.bytes().subrange(self.offset + 51, self.offset + 59))
                },
                Err(e) => e == SbeErr::BufferOverrun && self.acting_block_length < 59,
            },
    {
        if (self.acting_block_length as usize) < 59 {
            return Err(SbeErr::BufferOverrun);
        }
        let n: usize = self.buf.data.len();
        assert(self.offset + self.acting_block_length as int <= n);
        Ok(self.get_i64_at(self.offset + 51))
    }

    /// Reads the 'price' field (i64, block offset 59).
    pub fn price(&self) -> (r: SbeResult<i64>)
        requires
            self.wf(),
        ensures
            match r {
                Ok(v) => {
                    &&& 67 <= self.acting_block_length
                    &&& v == spec_i64_from_le_bytes(self.bytes().subrange(self.offset + 59, self.offset + 67))
                },
                Err(e) => e == SbeErr::BufferOverrun && self.acting_block_length < 67,
            },
    {
        if (self.acting_block_length as usize) < 67 {
            return Err(SbeErr::BufferOverrun);
        }
        let n: usize = self.buf.data.len();
        assert(self.offset + self.acting_block_length as int <= n);
        Ok(self.get_i64_at(self.offset + 59))
    }

    /// Reads the 'orig_quote_order_qty' field (i64, block offset 67).
    pub fn orig_quote_order_qty(&self) -> (r: SbeResult<i64>)
        requires
            self.wf(),
        ensures
            match r {
                Ok(v) => {
                    &&& 75 <= self.acting_block_length
                    &&& v == spec_i64_from_le_bytes(self.bytes().subrange(self.offset + 67, self.offset + 75))
                },
                Err(e) => e == SbeErr::BufferOverrun && self.acting_block_length < 75,
            },
    {
        if (self.acting_block_length as usize) < 75 {
            return Err(SbeErr::BufferOverrun);
        }
        let n: usize = self.buf.data.len();
        assert(self.offset + self.acting_block_length as int <= n);
        Ok(self.get_i64_at(self.offset + 67))
    }

    /// Reads the 'iceberg_qty' field (i64, block offset 75).
    pub fn iceberg_qty(&self) -> (r: SbeResult<i64>)
        requires
            self.wf(),
        ensures
            match r {
                Ok(v) => {
                    &&& 83 <= self.acting_block_length
                    &&& v == spec_i64_from_le_bytes(self.bytes().subrange(self.offset + 75, self.offset + 83))
                },
                Err(e) => e == SbeErr::BufferOverrun && self.acting_block_length < 83,
            },
    {
        if (self.acting_block_length as usize) < 83 {
            return Err(SbeErr::BufferOverrun);
        }
        let n: usize = self.buf.data.len();
        assert(self.offset + self.acting_block_length as int <= n);
        Ok(self.get_i64_at(self.offset + 75))
    }

    /// Reads the 'stop_price' field (i64, block offset 83).
    pub fn stop_price(&self) -> (r: SbeResult<i64>)
        requires
            self.wf(),
        ensures
            match r {
                Ok(v) => {
                    &&& 91 <= self.acting_block_length
                    &&& v == spec_i64_from_le_bytes(self.bytes().subrange(self.offset + 83, self.offset + 91))
                },
                Err(e) => e == SbeErr::BufferOverrun && self.acting_block_length < 91,
            },
    {
        if (self.acting_block_length as usize) < 91 {
            return Err(SbeErr::BufferOverrun);
        }
        let n: usize = self.buf.data.len();
        assert(self.offset + self.acting_block_length as int <= n);
        Ok(self.get_i64_at(self.offset + 83))
    }

    /// Reads the single-byte 'order_type' enum field at block offset 91;
    /// an unrecognized byte decodes to the reserved null value.
    pub fn order_type(&self) -> (r: SbeResult<OrderType>)
        requires
            self.wf(),
        ensures
            match r {
                Ok(v) => {
                    &&& 92 <= self.acting_block_length
                    &&& v == order_type_from_byte(self.bytes()[self.offset + 91])
                },
                Err(e) => e == SbeErr::BufferOverrun && self.acting_block_length < 92,
            },
    {
        if (self.acting_block_length as usize) < 92 {
            return Err(SbeErr::BufferOverrun);
        }
        let n: usize = self.buf.data.len();
        assert(self.offset + self.acting_block_length as int <= n);
        Ok(OrderType::from(self.get_u8_at(self.offset + 91)))
    }

    /// Reads the single-byte 'side' enum field at block offset 92;
    /// an unrecognized byte decodes to the reserved null value.
    pub fn side(&self) -> (r: SbeResult<OrderSide>)
        requires
            self.wf(),
        ensures
            match r {
                Ok(v) => {
                    &&& 93 <= self.acting_block_length
                    &&& v == order_side_from_byte(self.bytes()[self.offset + 92])
                },
                Err(e) => e == SbeErr::BufferOverrun && self.acting_block_length < 93,
            },
    {
        if (self.acting_block_length as usize) < 93 {
            return Err(SbeErr::BufferOverrun);
        }
        let n: usize = self.buf.data.len();
        assert(self.offset + self.acting_block_length as int <= n);
        Ok(OrderSide::from(self.get_u8_at(self.offset + 92)))
    }

    /// Reads the single-byte 'time_in_force' enum field at block offset 93;
    /// an unrecognized byte decodes to the reserved null value.
    pub fn time_in_force(&self) -> (r: SbeResult<TimeInForce>)
        requires
            self.wf(),
        ensures
            match r {
                Ok(v) => {
                    &&& 94 <= self.acting_block_length
                    &&& v == time_in_force_from_byte(self.bytes()[self.offset + 93])
                },
                Err(e) => e == SbeErr::BufferOverrun && self.acting_block_length < 94,
            },
    {
        if (self.acting_block_length as usize) < 94 {
            return Err(SbeErr::BufferOverrun);
        }
        let n: usize = self.buf.data.len();
        assert(self.offset + self.acting_block_length as int <= n);
        Ok(TimeInForce::from(self.get_u8_at(self.offset + 93)))
    }

    /// Reads the single-byte 'execution_type' enum field at block offset 94;
    /// an unrecognized byte decodes to the reserved null value.
    /// Payloads older than schema version 1 do not carry this field;
    /// for them the reserved null value is returned without reading the
    /// buffer.
    pub fn execution_type(&self) -> (r: SbeResult<ExecutionType>)
        requires
            self.wf(),
        ensures
            match r {
                Ok(v) => {
                    &&& (self.acting_version < 1 ==> v == ExecutionType::NullVal)
                    &&& (self.acting_version >= 1 ==> 95 <= self.acting_block_length && v == execution_type_from_byte(self.bytes()[self.offset + 94]))
                },
                Err(e) => e == SbeErr::BufferOverrun && self.acting_version >= 1 && self.acting_block_length < 95,
            },
    {
        if self.acting_version < 1 {
            return Ok(ExecutionType::NullVal);
        }
        if (self.acting_block_length as usize) < 95 {
            return Err(SbeErr::BufferOverrun);
        }
        let n: usize = self.buf.data.len();
        assert(self.offset + self.acting_block_length as int <= n);
        Ok(ExecutionType::from(self.get_u8_at(self.offset + 94)))
    }

    /// Reads the single-byte 'order_status' enum field at block offset 95;
    /// an unrecognized byte decodes to the reserved null value.
    pub fn order_status(&self) -> (r: SbeResult<OrderStatus>)
        requires
            self.wf(),
        ensures
            match r {
                Ok(v) => {
                    &&& 96 <= self.acting_block_length
                    &&& v == order_status_from_byte(self.bytes()[self.offset + 95])
                },
                Err(e) => e == SbeErr::BufferOverrun && self.acting_block_length < 96,
            },
    {
        if (self.acting_block_length as usize) < 96 {
            return Err(SbeErr::BufferOverrun);
        }
        let n: usize = self.buf.data.len();
        assert(self.offset + self.acting_block_length as int <= n);
        Ok(OrderStatus::from(self.get_u8_at(self.offset + 95)))
    }

    /// Reads the optional 'trade_id' field at block offset 96: the
    /// reserved null sentinel decodes to `None`.
    pub fn trade_id(&self) -> (r: SbeResult<Option<i64>>)
        requires
            self.wf(),
        ensures
            match r {
                Ok(v) => {
                    &&& 104 <= self.acting_block_length
                    &&& v == opt_i64(spec_i64_from_le_bytes(self.bytes().subrange(self.offset + 96, self.offset + 104)))
                },
                Err(e) => e == SbeErr::BufferOverrun && self.acting_block_length < 104,
            },
    {
        if (self.acting_block_length as usize) < 104 {
            return Err(SbeErr::BufferOverrun);
        }
        let n: usize = self.buf.data.len();
        assert(self.offset + self.acting_block_length as int <= n);
        let value = self.get_i64_at(self.offset + 96);
        if value == i64::MIN {
            Ok(None)
        } else {
            Ok(Some(value))
        }
    }

    /// Reads the 'execution_id' field (i64, block offset 104).
    /// Payloads older than schema version 1 do not carry this field;
    /// for them the reserved null value is returned without reading the
    /// buffer.
    pub fn execution_id(&self) -> (r: SbeResult<i64>)
        requires
            self.wf(),
        ensures
            match r {
                Ok(v) => {
                    &&& (self.acting_version < 1 ==> v == null_i64())
                    &&& (self.acting_version >= 1 ==> 112 <= self.acting_block_length && v == spec_i64_from_le_bytes(self.bytes().subrange(self.offset + 104, self.offset + 112)))
                },
                Err(e) => e == SbeErr::BufferOverrun && self.acting_version >= 1 && self.acting_block_length < 112,
            },
    {
        if self.acting_version < 1 {
            return Ok(i64::MIN);
        }
        if (self.acting_block_length as usize) < 112 {
            return Err(SbeErr::BufferOverrun);
        }
        let n: usize = self.buf.data.len();
        assert(self.offset + self.acting_block_length as int <= n);
        Ok(self.get_i64_at(self.offset + 104))
    }

    /// Reads the 'executed_qty' field (i64, block offset 112).
    pub fn executed_qty(&self) -> (r: SbeResult<i64>)
        requires
            self.wf(),
        ensures
            match r {
                Ok(v) => {
                    &&& 120 <= self.acting_block_length
                    &&& v == spec_i64_from_le_bytes(self.bytes().subrange(self.offset + 112, self.offset + 120))
                },
                Err(e) => e == SbeErr::BufferOverrun && self.acting_block_length < 120,
            },
    {
        if (self.acting_block_length as usize) < 120 {
            return Err(SbeErr::BufferOverrun);
        }
        let n: usize = self.buf.data.len();
        assert(self.offset + self.acting_block_length as int <= n);
        Ok(self.get_i64_at(self.offset + 112))
    }

    /// Reads the 'cummulative_quote_qty' field (i64, block offset 120).
    pub fn cummulative_quote_qty(&self) -> (r: SbeResult<i64>)
        requires
            self.wf(),
        ensures
            match r {
                Ok(v) => {
                    &&& 128 <= self.acting_block_length
                    &&& v == spec_i64_from_le_bytes(self.bytes().subrange(self.offset + 120, self.offset + 128))
                },
                Err(e) => e == SbeErr::BufferOverrun && self.acting_block_length < 128,
            },
    {
        if (self.acting_block_length as usize) < 128 {
            return Err(SbeErr::BufferOverrun);
        }
        let n: usize = self.buf.data.len();
        assert(self.offset + self.acting_block_length as int <= n);
        Ok(self.get_i64_at(self.offset + 120))
    }

    /// Reads the 'last_qty' field (i64, block offset 128).
    pub fn last_qty(&self) -> (r: SbeResult<i64>)
        requires
            self.wf(),
        ensures
            match r {
                Ok(v) => {
                    &&& 136 <= self.acting_block_length
                    &&& v == spec_i64_from_le_bytes(self.bytes().subrange(self.offset + 128, self.offset + 136))
                },
                Err(e) => e == SbeErr::BufferOverrun && self.acting_block_length < 136,
            },
    {
        if (self.acting_block_length as usize) < 136 {
            return Err(SbeErr::BufferOverrun);
        }
        let n: usize = self.buf.data.len();
        assert(self.offset + self.acting_block_length as int <= n);
        Ok(self.get_i64_at(self.offset + 128))
    }

    /// Reads the 'last_price' field (i64, block offset 136).
    pub fn last_price(&self) -> (r: SbeResult<i64>)
        requires
            self.wf(),
        ensures
            match r {
                Ok(v) => {
                    &&& 144 <= self.acting_block_length
                    &&& v == spec_i64_from_le_bytes(self.bytes().subrange(self.offset + 136, self.offset + 144))
                },
                Err(e) => e == SbeErr::BufferOverrun && self.acting_block_length < 144,
            },
    {
        if (self.acting_block_length as usize) < 144 {
            return Err(SbeErr::BufferOverrun);
        }
        let n: usize = self.buf.data.len();
        assert(self.offset + self.acting_block_length as int <= n);
        Ok(self.get_i64_at(self.offset + 136))
    }

    /// Reads the 'quote_qty' field (i64, block offset 144).
    pub fn quote_qty(&self) -> (r: SbeResult<i64>)
        requires
            self.wf(),
        ensures
            match r {
                Ok(v) => {
                    &&& 152 <= self.acting_block_length
                    &&& v == spec_i64_from_le_bytes(self.bytes().subrange(self.offset + 144, self.offset + 152))
                },
                Err(e) => e == SbeErr::BufferOverrun && self.acting_block_length < 152,
            },
    {
        if (self.acting_block_length as usize) < 152 {
            return Err(SbeErr::BufferOverrun);
        }
        let n: usize = self.buf.data.len();
        assert(self.offset + self.acting_block_length as int <= n);
        Ok(self.get_i64_at(self.offset + 144))
    }

    /// Reads the 'commission' field (i64, block offset 152).
    pub fn commission(&self) -> (r: SbeResult<i64>)
        requires
            self.wf(),
        ensures
            match r {
                Ok(v) => {
                    &&& 160 <= self.acting_block_length
                    &&& v == spec_i64_from_le_bytes(self.bytes().subrange(self.offset + 152, self.offset + 160))
                },
                Err(e) => e == SbeErr::BufferOverrun && self.acting_block_length < 160,
            },
    {
        if (self.acting_block_length as usize) < 160 {
            return Err(SbeErr::BufferOverrun);
        }
        let n: usize = self.buf.data.len();
        assert(self.offset + self.acting_block_length as int <= n);
        Ok(self.get_i64_at(self.offset + 152))
    }

    /// Reads the single-byte 'is_working' enum field at block offset 160;
    /// an unrecognized byte decodes to the reserved null value.
    pub fn is_working(&self) -> (r: SbeResult<BoolEnum>)
        requires
            self.wf(),
        ensures
            match r {
                Ok(v) => {
                    &&& 161 <= self.acting_block_length
                    &&& v == bool_enum_from_byte(self.bytes()[self.offset + 160])
                },
                Err(e) => e == SbeErr::BufferOverrun && self.acting_block_length < 161,
            },
    {
        if (self.acting_block_length as usize) < 161 {
            return Err(SbeErr::BufferOverrun);
        }
        let n: usize = self.buf.data.len();
        assert(self.offset + self.acting_block_length as int <= n);
        Ok(BoolEnum::from(self.get_u8_at(self.offset + 160)))
    }

    /// Reads the single-byte 'is_maker' enum field at block offset 161;
    /// an unrecognized byte decodes to the reserved null value.
    pub fn is_maker(&self) -> (r: SbeResult<BoolEnum>)
        requires
            self.wf(),
        ensures
            match r {
                Ok(v) => {
                    &&& 162 <= self.acting_block_length
                    &&& v == bool_enum_from_byte(self.bytes()[self.offset + 161])
                },
                Err(e) => e == SbeErr::BufferOverrun && self.acting_block_length < 162,
            },
    {
        if (self.acting_block_length as usize) < 162 {
            return Err(SbeErr::BufferOverrun);
        }
        let n: usize = self.buf.data.len();
        assert(self.offset + self.acting_block_length as int <= n);
        Ok(BoolEnum::from(self.get_u8_at(self.offset + 161)))
    }

    /// Reads the single-byte 'is_best_match' enum field at block offset 162;
    /// an unrecognized byte decodes to the reserved null value.
    pub fn is_best_match(&self) -> (r: SbeResult<BoolEnum>)
        requires
            self.wf(),
        ensures
            match r {
                Ok(v) => {
                    &&& 163 <= self.acting_block_length
                    &&& v == bool_enum_from_byte(self.bytes()[self.offset + 162])
                },
                Err(e) => e == SbeErr::BufferOverrun && self.acting_block_length < 163,
            },
    {
        if (self.acting_block_length as usize) < 163 {
            return Err(SbeErr::BufferOverrun);
        }
        let n: usize = self.buf.data.len();
        assert(self.offset + self.acting_block_length as int <= n);
        Ok(BoolEnum::from(self.get_u8_at(self.offset + 162)))
    }

    /// Reads the single-byte 'match_type' enum field at block offset 163;
    /// an unrecognized byte decodes to the reserved null value.
    pub fn match_type(&self) -> (r: SbeResult<MatchType>)
        requires
            self.wf(),
        ensures
            match r {
                Ok(v) => {
                    &&& 164 <= self.acting_block_length
                    &&& v == match_type_from_byte(self.bytes()[self.offset + 163])
                },
                Err(e) => e == SbeErr::BufferOverrun && self.acting_block_length < 164,
            },
    {
        if (self.acting_block_length as usize) < 164 {
            return Err(SbeErr::BufferOverrun);
        }
        let n: usize = self.buf.data.len();
        assert(self.offset + self.acting_block_length as int <= n);
        Ok(MatchType::from(self.get_u8_at(self.offset + 163)))
    }

    /// Reads the single-byte 'self_trade_prevention_mode' enum field at block offset 164;
    /// an unrecognized byte decodes to the reserved null value.
    pub fn self_trade_prevention_mode(&self) -> (r: SbeResult<SelfTradePreventionMode>)
        requires
            self.wf(),
        ensures
            match r {
                Ok(v) => {
                    &&& 165 <= self.acting_block_length
                    &&& v == self_trade_prevention_mode_from_byte(self.bytes()[self.offset + 164])
                },
                Err(e) => e == SbeErr::BufferOverrun && self.acting_block_length < 165,
            },
    {
        if (self.acting_block_length as usize) < 165 {
            return Err(SbeErr::BufferOverrun);
        }
        let n: usize = self.buf.data.len();
        assert(self.offset + self.acting_block_length as int <= n);
        Ok(SelfTradePreventionMode::from(self.get_u8_at(self.offset + 164)))
    }

    /// Reads the single-byte 'order_capacity' enum field at block offset 165;
    /// an unrecognized byte decodes to the reserved null value.
    pub fn order_capacity(&self) -> (r: SbeResult<OrderCapacity>)
        requires
            self.wf(),
        ensures
            match r {
                Ok(v) => {
                    &&& 166 <= self.acting_block_length
                    &&& v == order_capacity_from_byte(self.bytes()[self.offset + 165])
                },
                Err(e) => e == SbeErr::BufferOverrun && self.acting_block_length < 166,
            },
    {
        if (self.acting_block_length as usize) < 166 {
            return Err(SbeErr::BufferOverrun);
        }
        let n: usize = self.buf.data.len();
        assert(self.offset + self.acting_block_length as int <= n);
        Ok(OrderCapacity::from(self.get_u8_at(self.offset + 165)))
    }

    /// Reads the single-byte 'working_floor' enum field at block offset 166;
    /// an unrecognized byte decodes to the reserved null value.
    pub fn working_floor(&self) -> (r: SbeResult<Floor>)
        requires
            self.wf(),
        ensures
            match r {
                Ok(v) => {
                    &&& 167 <= self.acting_block_length
                    &&& v == floor_from_byte(self.bytes()[self.offset + 166])
                },
                Err(e) => e == SbeErr::BufferOverrun && self.acting_block_length < 167,
            },
    {
        if (self.acting_block_length as usize) < 167 {
            return Err(SbeErr::BufferOverrun);
        }
        let n: usize = self.buf.data.len();
        assert(self.offset + self.acting_block_length as int <= n);
        Ok(Floor::from(self.get_u8_at(self.offset + 166)))
    }

    /// Reads the single-byte 'used_sor' enum field at block offset 167;
    /// an unrecognized byte decodes to the reserved null value.
    pub fn used_sor(&self) -> (r: SbeResult<BoolEnum>)
        requires
            self.wf(),
        ensures
            match r {
                Ok(v) => {
                    &&& 168 <= self.acting_block_length
                    &&& v == bool_enum_from_byte(self.bytes()[self.offset + 167])
                },
                Err(e) => e == SbeErr::BufferOverrun && self.acting_block_length < 168,
            },
    {
        if (self.acting_block_length as usize) < 168 {
            return Err(SbeErr::BufferOverrun);
        }
        let n: usize = self.buf.data.len();
        assert(self.offset + self.acting_block_length as int <= n);
        Ok(BoolEnum::from(self.get_u8_at(self.offset + 167)))
    }

    /// Reads the optional 'alloc_id' field at block offset 168: the
    /// reserved null sentinel decodes to `None`.
    pub fn alloc_id(&self) -> (r: SbeResult<Option<i64>>)
        requires
            self.wf(),
        ensures
            match r {
                Ok(v) => {
                    &&& 176 <= self.acting_block_length
                    &&& v == opt_i64(spec_i64_from_le_bytes(self.bytes().subrange(self.offset + 168, self.offset + 176)))
                },
                Err(e) => e == SbeErr::BufferOverrun && self.acting_block_length < 176,
            },
    {
        if (self.acting_block_length as usize) < 176 {
            return Err(SbeErr::BufferOverrun);
        }
        let n: usize = self.buf.data.len();
        assert(self.offset + self.acting_block_length as int <= n);
        let value = self.get_i64_at(self.offset + 168);
        if value == i64::MIN {
            Ok(None)
        } else {
            Ok(Some(value))
        }
    }

    /// Reads the optional 'trailing_delta' field at block offset 176: the
    /// reserved null sentinel decodes to `None`.
    pub fn trailing_delta(&self) -> (r: SbeResult<Option<u64>>)
        requires
            self.wf(),
        ensures
            match r {
                Ok(v) => {
                    &&& 184 <= self.acting_block_length
                    &&& v == opt_u64(spec_u64_from_le_bytes(self.bytes().subrange(self.offset + 176, self.offset + 184)))
                },
                Err(e) => e == SbeErr::BufferOverrun && self.acting_block_length < 184,
            },
    {
        if (self.acting_block_length as usize) < 184 {
            return Err(SbeErr::BufferOverrun);
        }
        let n: usize = self.buf.data.len();
        assert(self.offset + self.acting_block_length as int <= n);
        let value = self.get_u64_at(self.offset + 176);
        if value == u64::MAX {
            Ok(None)
        } else {
            Ok(Some(value))
        }
    }

    /// Reads the optional 'trailing_time' field at block offset 184: the
    /// reserved null sentinel decodes to `None`.
    pub fn trailing_time(&self) -> (r: SbeResult<Option<i64>>)
        requires
            self.wf(),
        ensures
            match r {
                Ok(v) => {
                    &&& 192 <= self.acting_block_length
                    &&& v == opt_i64(spec_i64_from_le_bytes(self.bytes().subrange(self.offset + 184, self.offset + 192)))
                },
                Err(e) => e == SbeErr::BufferOverrun && self.acting_block_length < 192,
            },
    {
        if (self.acting_block_length as usize) < 192 {
            return Err(SbeErr::BufferOverrun);
        }
        let n: usize = self.buf.data.len();
        assert(self.offset + self.acting_block_length as int <= n);
        let value = self.get_i64_at(self.offset + 184);
        if value == i64::MIN {
            Ok(None)
        } else {
            Ok(Some(value))
        }
    }

    /// Reads the optional 'trade_group_id' field at block offset 192: the
    /// reserved null sentinel decodes to `None`.
    pub fn trade_group_id(&self) -> (r: SbeResult<Option<i64>>)
        requires
            self.wf(),
        ensures
            match r {
                Ok(v) => {
                    &&& 200 <= self.acting_block_length
                    &&& v == opt_i64(spec_i64_from_le_bytes(self.bytes().subrange(self.offset + 192, self.offset + 200)))
                },
                Err(e) => e == SbeErr::BufferOverrun && self.acting_block_length < 200,
            },
    {
        if (self.acting_block_length as usize) < 200 {
            return Err(SbeErr::BufferOverrun);
        }
        let n: usize = self.buf.data.len();
        assert(self.offset + self.acting_block_length as int <= n);
        let value = self.get_i64_at(self.offset + 192);
        if value == i64::MIN {
            Ok(None)
        } else {
            Ok(Some(value))
        }
    }

    /// Reads the optional 'prevented_qty' field at block offset 200: the
    /// reserved null sentinel decodes to `None`.
    pub fn prevented_qty(&self) -> (r: SbeResult<Option<i64>>)
        requires
            self.wf(),
        ensures
            match r {
                Ok(v) => {
                    &&& 208 <= self.acting_block_length
                    &&& v == opt_i64(spec_i64_from_le_bytes(self.bytes().subrange(self.offset + 200, self.offset + 208)))
                },
                Err(e) => e == SbeErr::BufferOverrun && self.acting_block_length < 208,
            },
    {
        if (self.acting_block_length as usize) < 208 {
            return Err(SbeErr::BufferOverrun);
        }
        let n: usize = self.buf.data.len();
        assert(self.offset + self.acting_block_length as int <= n);
        let value = self.get_i64_at(self.offset + 200);
        if value == i64::MIN {
            Ok(None)
        } else {
            Ok(Some(value))
        }
    }

    /// Reads the optional 'last_prevented_qty' field at block offset 208: the
    /// reserved null sentinel decodes to `None`.
    pub fn last_prevented_qty(&self) -> (r: SbeResult<Option<i64>>)
        requires
            self.wf(),
        ensures
            match r {
                Ok(v) => {
                    &&& 216 <= self.acting_block_length
                    &&& v == opt_i64(spec_i64_from_le_bytes(self.bytes().subrange(self.offset + 208, self.offset + 216)))
                },
                Err(e) => e == SbeErr::BufferOverrun && self.acting_block_length < 216,
            },
    {
        if (self.acting_block_length as usize) < 216 {
            return Err(SbeErr::BufferOverrun);
        }
        let n: usize = self.buf.data.len();
        assert(self.offset + self.acting_block_length as int <= n);
        let value = self.get_i64_at(self.offset + 208);
        if value == i64::MIN {
            Ok(None)
        } else {
            Ok(Some(value))
        }
    }

    /// Reads the optional 'prevented_match_id' field at block offset 216: the
    /// reserved null sentinel decodes to `None`.
    pub fn prevented_match_id(&self) -> (r: SbeResult<Option<i64>>)
        requires
            self.wf(),
        ensures
            match r {
                Ok(v) => {
                    &&& 224 <= self.acting_block_length
                    &&& v == opt_i64(spec_i64_from_le_bytes(self.bytes().subrange(self.offset + 216, self.offset + 224)))
                },
                Err(e) => e == SbeErr::BufferOverrun && self.acting_block_length < 224,
            },
    {
        if (self.acting_block_length as usize) < 224 {
            return Err(SbeErr::BufferOverrun);
        }
        let n: usize = self.buf.data.len();
        assert(self.offset + self.acting_block_length as int <= n);
        let value = self.get_i64_at(self.offset + 216);
        if value == i64::MIN {
            Ok(None)
        } else {
            Ok(Some(value))
        }
    }

    /// Reads the optional 'prevented_execution_qty' field at block offset 224: the
    /// reserved null sentinel decodes to `None`.
    pub fn prevented_execution_qty(&self) -> (r: SbeResult<Option<i64>>)
        requires
            self.wf(),
        ensures
            match r {
                Ok(v) => {
                    &&& 232 <= self.acting_block_length
                    &&& v == opt_i64(spec_i64_from_le_bytes(self.bytes().subrange(self.offset + 224, self.offset + 232)))
                },
                Err(e) => e == SbeErr::BufferOverrun && self.acting_block_length < 232,
            },
    {
        if (self.acting_block_length as usize) < 232 {
            return Err(SbeErr::BufferOverrun);
        }
        let n: usize = self.buf.data.len();
        assert(self.offset + self.acting_block_length as int <= n);
        let value = self.get_i64_at(self.offset + 224);
        if value == i64::MIN {
            Ok(None)
        } else {
            Ok(Some(value))
        }
    }

    /// Reads the optional 'prevented_execution_price' field at block offset 232: the
    /// reserved null sentinel decodes to `None`.
    pub fn prevented_execution_price(&self) -> (r: SbeResult<Option<i64>>)
        requires
            self.wf(),
        ensures
            match r {
                Ok(v) => {
                    &&& 240 <= self.acting_block_length
                    &&& v == opt_i64(spec_i64_from_le_bytes(self.bytes().subrange(self.offset + 232, self.offset + 240)))
                },
                Err(e) => e == SbeErr::BufferOverrun && self.acting_block_length < 240,
            },
    {
        if (self.acting_block_length as usize) < 240 {
            return Err(SbeErr::BufferOverrun);
        }
        let n: usize = self.buf.data.len();
        assert(self.offset + self.acting_block_length as int <= n);
        let value = self.get_i64_at(self.offset + 232);
        if value == i64::MIN {
            Ok(None)
        } else {
            Ok(Some(value))
        }
    }

    /// Reads the optional 'prevented_execution_quote_qty' field at block offset 240: the
    /// reserved null sentinel decodes to `None`.
    pub fn prevented_execution_quote_qty(&self) -> (r: SbeResult<Option<i64>>)
        requires
            self.wf(),
        ensures
            match r {
                Ok(v) => {
                    &&& 248 <= self.acting_block_length
                    &&& v == opt_i64(spec_i64_from_le_bytes(self.bytes().subrange(self.offset + 240, self.offset + 248)))
                },
                Err(e) => e == SbeErr::BufferOverrun && self.acting_block_length < 248,
            },
    {
        if (self.acting_block_length as usize) < 248 {
            return Err(SbeErr::BufferOverrun);
        }
        let n: usize = self.buf.data.len();
        assert(self.offset + self.acting_block_length as int <= n);
        let value = self.get_i64_at(self.offset + 240);
        if value == i64::MIN {
            Ok(None)
        } else {
            Ok(Some(value))
        }
    }

    /// Reads the optional 'strategy_type' field at block offset 248: the
    /// reserved null sentinel decodes to `None`.
    pub fn strategy_type(&self) -> (r: SbeResult<Option<i32>>)
        requires
            self.wf(),
        ensures
            match r {
                Ok(v) => {
                    &&& 252 <= self.acting_block_length
                    &&& v == opt_i32(spec_i32_from_le_bytes(self.bytes().subrange(self.offset + 248, self.offset + 252)))
                },
                Err(e) => e == SbeErr::BufferOverrun && self.acting_block_length < 252,
            },
    {
        if (self.acting_block_length as usize) < 252 {
            return Err(SbeErr::BufferOverrun);
        }
        let n: usize = self.buf.data.len();
        assert(self.offset + self.acting_block_length as int <= n);
        let value = self.get_i32_at(self.offset + 248);
        if value == i32::MIN {
            Ok(None)
        } else {
            Ok(Some(value))
        }
    }

    /// Reads the optional 'strategy_id' field at block offset 252: the
    /// reserved null sentinel decodes to `None`.
    pub fn strategy_id(&self) -> (r: SbeResult<Option<i64>>)
        requires
            self.wf(),
        ensures
            match r {
                Ok(v) => {
                    &&& 260 <= self.acting_block_length
                    &&& v == opt_i64(spec_i64_from_le_bytes(self.bytes().subrange(self.offset + 252, self.offset + 260)))
                },
                Err(e) => e == SbeErr::BufferOverrun && self.acting_block_length < 260,
            },
    {
        if (self.acting_block_length as usize) < 260 {
            return Err(SbeErr::BufferOverrun);
        }
        let n: usize = self.buf.data.len();
        assert(self.offset + self.acting_block_length as int <= n);
        let value = self.get_i64_at(self.offset + 252);
        if value == i64::MIN {
            Ok(None)
        } else {
            Ok(Some(value))
        }
    }

    /// Reads the optional 'counter_order_id' field at block offset 260: the
    /// reserved null sentinel decodes to `None`.
    pub fn counter_order_id(&self) -> (r: SbeResult<Option<i64>>)
        requires
            self.wf(),
        ensures
            match r {
                Ok(v) => {
                    &&& 268 <= self.acting_block_length
                    &&& v == opt_i64(spec_i64_from_le_bytes(self.bytes().subrange(self.offset + 260, self.offset + 268)))
                },
                Err(e) => e == SbeErr::BufferOverrun && self.acting_block_length < 268,
            },
    {
        if (self.acting_block_length as usize) < 268 {
            return Err(SbeErr::BufferOverrun);
        }
        let n: usize = self.buf.data.len();
        assert(self.offset + self.acting_block_length as int <= n);
        let value = self.get_i64_at(self.offset + 260);
        if value == i64::MIN {
            Ok(None)
        } else {
            Ok(Some(value))
        }
    }

    /// Consumes the variable-length 'symbol' field at the current limit and
    /// returns the coordinates (start, length) of its payload within the
    /// buffer; the limit advances past the length prefix and the payload.
    pub fn symbol_decoder(&mut self) -> (r: SbeResult<(usize, usize)>)
        requires
            old(self).wf(),
        ensures
            final(self).wf(),
            final(self).bytes() == old(self).bytes(),
            old(self).same_frame(final(self)),
            match r {
                Ok(c) => {
                    &&& old(self).spec_limit() + 1 <= old(self).bytes().len()
                    &&& c.1 == old(self).bytes()[old(self).spec_limit()]
                    &&& c.0 == old(self).spec_limit() + 1
                    &&& c.0 + c.1 <= old(self).bytes().len()
                    &&& final(self).spec_limit() == old(self).spec_limit() + 1 + c.1
                },
                Err(e) => {
                    &&& e == SbeErr::BufferOverrun
                    &&& *final(self) == *old(self)
                    &&& (old(self).spec_limit() + 1 > old(self).bytes().len()
                        || old(self).spec_limit() + 1 + old(self).bytes()[old(self).spec_limit()]
                            > old(self).bytes().len())
                },
            },
    {
        let limit = self.limit;
        let n: usize = self.buf.data.len();
        if limit >= n {
            return Err(SbeErr::BufferOverrun);
        }
        let data_length = self.get_u8_at(limit) as usize;
        if n - limit - 1 < data_length {
            return Err(SbeErr::BufferOverrun);
        }
        self.limit = limit + 1 + data_length;
        Ok((limit + 1, data_length))
    }

    /// The payload bytes of a previously decoded 'symbol' field, addressed
    /// by the coordinates its decoder returned.
    pub fn symbol_slice(&self, coordinates: (usize, usize)) -> (r: &[u8])
        requires
            coordinates.0 + coordinates.1 <= self.bytes().len(),
        ensures
            r@ == self.bytes().subrange(
                coordinates.0 as int,
                coordinates.0 + coordinates.1,
            ),
    {
        self.buf.get_slice_at(coordinates.0, coordinates.1)
    }

    /// Consumes the variable-length 'client_order_id' field at the current limit and
    /// returns the coordinates (start, length) of its payload within the
    /// buffer; the limit advances past the length prefix and the payload.
    pub fn client_order_id_decoder(&mut self) -> (r: SbeResult<(usize, usize)>)
        requires
            old(self).wf(),
        ensures
            final(self).wf(),
            final(self).bytes() == old(self).bytes(),
            old(self).same_frame(final(self)),
            match r {
                Ok(c) => {
                    &&& old(self).spec_limit() + 1 <= old(self).bytes().len()
                    &&& c.1 == old(self).bytes()[old(self).spec_limit()]
                    &&& c.0 == old(self).spec_limit() + 1
                    &&& c.0 + c.1 <= old(self).bytes().len()
                    &&& final(self).spec_limit() == old(self).spec_limit() + 1 + c.1
                },
                Err(e) => {
                    &&& e == SbeErr::BufferOverrun
                    &&& *final(self) == *old(self)
                    &&& (old(self).spec_limit() + 1 > old(self).bytes().len()
                        || old(self).spec_limit() + 1 + old(self).bytes()[old(self).spec_limit()]
                            > old(self).bytes().len())
                },
            },
    {
        let limit = self.limit;
        let n: usize = self.buf.data.len();
        if limit >= n {
            return Err(SbeErr::BufferOverrun);
        }
        let data_length = self.get_u8_at(limit) as usize;
        if n - limit - 1 < data_length {
            return Err(SbeErr::BufferOverrun);
        }
        self.limit = limit + 1 + data_length;
        Ok((limit + 1, data_length))
    }

    /// The payload bytes of a previously decoded 'client_order_id' field, addressed
    /// by the coordinates its decoder returned.
    pub fn client_order_id_slice(&self, coordinates: (usize, usize)) -> (r: &[u8])
        requires
            coordinates.0 + coordinates.1 <= self.bytes().len(),
        ensures
            r@ == self.bytes().subrange(
                coordinates.0 as int,
                coordinates.0 + coordinates.1,
            ),
    {
        self.buf.get_slice_at(coordinates.0, coordinates.1)
    }

    /// Consumes the variable-length 'orig_client_order_id' field at the current limit and
    /// returns the coordinates (start, length) of its payload within the
    /// buffer; the limit advances past the length prefix and the payload.
    pub fn orig_client_order_id_decoder(&mut self) -> (r: SbeResult<(usize, usize)>)
        requires
            old(self).wf(),
        ensures
            final(self).wf(),
            final(self).bytes() == old(self).bytes(),
            old(self).same_frame(final(self)),
            match r {
                Ok(c) => {
                    &&& old(self).spec_limit() + 1 <= old(self).bytes().len()
                    &&& c.1 == old(self).bytes()[old(self).spec_limit()]
                    &&& c.0 == old(self).spec_limit() + 1
                    &&& c.0 + c.1 <= old(self).bytes().len()
                    &&& final(self).spec_limit() == old(self).spec_limit() + 1 + c.1
                },
                Err(e) => {
                    &&& e == SbeErr::BufferOverrun
                    &&& *final(self) == *old(self)
                    &&& (old(self).spec_limit() + 1 > old(self).bytes().len()
                        || old(self).spec_limit() + 1 + old(self).bytes()[old(self).spec_limit()]
                            > old(self).bytes().len())
                },
            },
    {
        let limit = self.limit;
        let n: usize = self.buf.data.len();
        if limit >= n {
            return Err(SbeErr::BufferOverrun);
        }
        let data_length = self.get_u8_at(limit) as usize;
        if n - limit - 1 < data_length {
            return Err(SbeErr::BufferOverrun);
        }
        self.limit = limit + 1 + data_length;
        Ok((limit + 1, data_length))
    }

    /// The payload bytes of a previously decoded 'orig_client_order_id' field, addressed
    /// by the coordinates its decoder returned.
    pub fn orig_client_order_id_slice(&self, coordinates: (usize, usize)) -> (r: &[u8])
        requires
            coordinates.0 + coordinates.1 <= self.bytes().len(),
        ensures
            r@ == self.bytes().subrange(
                coordinates.0 as int,
                coordinates.0 + coordinates.1,
            ),
    {
        self.buf.get_slice_at(coordinates.0, coordinates.1)
    }

    /// Consumes the variable-length 'commission_asset' field at the current limit and
    /// returns the coordinates (start, length) of its payload within the
    /// buffer; the limit advances past the length prefix and the payload.
    pub fn commission_asset_decoder(&mut self) -> (r: SbeResult<(usize, usize)>)
        requires
            old(self).wf(),
        ensures
            final(self).wf(),
            final(self).bytes() == old(self).bytes(),
            old(self).same_frame(final(self)),
            match r {
                Ok(c) => {
                    &&& old(self).spec_limit() + 1 <= old(self).bytes().len()
                    &&& c.1 == old(self).bytes()[old(self).spec_limit()]
                    &&& c.0 == old(self).spec_limit() + 1
                    &&& c.0 + c.1 <= old(self).bytes().len()
                    &&& final(self).spec_limit() == old(self).spec_limit() + 1 + c.1
                },
                Err(e) => {
                    &&& e == SbeErr::BufferOverrun
                    &&& *final(self) == *old(self)
                    &&& (old(self).spec_limit() + 1 > old(self).bytes().len()
                        || old(self).spec_limit() + 1 + old(self).bytes()[old(self).spec_limit()]
                            > old(self).bytes().len())
                },
            },
    {
        let limit = self.limit;
        let n: usize = self.buf.data.len();
        if limit >= n {
            return Err(SbeErr::BufferOverrun);
        }
        let data_length = self.get_u8_at(limit) as usize;
        if n - limit - 1 < data_length {
            return Err(SbeErr::BufferOverrun);
        }
        self.limit = limit + 1 + data_length;
        Ok((limit + 1, data_length))
    }

    /// The payload bytes of a previously decoded 'commission_asset' field, addressed
    /// by the coordinates its decoder returned.
    pub fn commission_asset_slice(&self, coordinates: (usize, usize)) -> (r: &[u8])
        requires
            coordinates.0 + coordinates.1 <= self.bytes().len(),
        ensures
            r@ == self.bytes().subrange(
                coordinates.0 as int,
                coordinates.0 + coordinates.1,
            ),
    {
        self.buf.get_slice_at(coordinates.0, coordinates.1)
    }

    /// Consumes the variable-length 'reject_reason' field at the current limit and
    /// returns the coordinates (start, length) of its payload within the
    /// buffer; the limit advances past the length prefix and the payload.
    pub fn reject_reason_decoder(&mut self) -> (r: SbeResult<(usize, usize)>)
        requires
            old(self).wf(),
        ensures
            final(self).wf(),
            final(self).bytes() == old(self).bytes(),
            old(self).same_frame(final(self)),
            match r {
                Ok(c) => {
                    &&& old(self).spec_limit() + 1 <= old(self).bytes().len()
                    &&& c.1 == old(self).bytes()[old(self).spec_limit()]
                    &&& c.0 == old(self).spec_limit() + 1
                    &&& c.0 + c.1 <= old(self).bytes().len()
                    &&& final(self).spec_limit() == old(self).spec_limit() + 1 + c.1
                },
                Err(e) => {
                    &&& e == SbeErr::BufferOverrun
                    &&& *final(self) == *old(self)
                    &&& (old(self).spec_limit() + 1 > old(self).bytes().len()
                        || old(self).spec_limit() + 1 + old(self).bytes()[old(self).spec_limit()]
                            > old(self).bytes().len())
                },
            },
    {
        let limit = self.limit;
        let n: usize = self.buf.data.len();
        if limit >= n {
            return Err(SbeErr::BufferOverrun);
        }
        let data_length = self.get_u8_at(limit) as usize;
        if n - limit - 1 < data_length {
            return Err(SbeErr::BufferOverrun);
        }
        self.limit = limit + 1 + data_length;
        Ok((limit + 1, data_length))
    }

    /// The payload bytes of a previously decoded 'reject_reason' field, addressed
    /// by the coordinates its decoder returned.
    pub fn reject_reason_slice(&self, coordinates: (usize, usize)) -> (r: &[u8])
        requires
            coordinates.0 + coordinates.1 <= self.bytes().len(),
        ensures
            r@ == self.bytes().subrange(
                coordinates.0 as int,
                coordinates.0 + coordinates.1,
            ),
    {
        self.buf.get_slice_at(coordinates.0, coordinates.1)
    }

    /// Consumes the variable-length 'counter_symbol' field at the current limit and
    /// returns the coordinates (start, length) of its payload within the
    /// buffer; the limit advances past the length prefix and the payload.
    pub fn counter_symbol_decoder(&mut self) -> (r: SbeResult<(usize, usize)>)
        requires
            old(self).wf(),
        ensures
            final(self).wf(),
            final(self).bytes() == old(self).bytes(),
            old(self).same_frame(final(self)),
            match r {
                Ok(c) => {
                    &&& old(self).spec_limit() + 1 <= old(self).bytes().len()
                    &&& c.1 == old(self).bytes()[old(self).spec_limit()]
                    &&& c.0 == old(self).spec_limit() + 1
                    &&& c.0 + c.1 <= old(self).bytes().len()
                    &&& final(self).spec_limit() == old(self).spec_limit() + 1 + c.1
                },
                Err(e) => {
                    &&& e == SbeErr::BufferOverrun
                    &&& *final(self) == *old(self)
                    &&& (old(self).spec_limit() + 1 > old(self).bytes().len()
                        || old(self).spec_limit() + 1 + old(self).bytes()[old(self).spec_limit()]
                            > old(self).bytes().len())
                },
            },
    {
        let limit = self.limit;
        let n: usize = self.buf.data.len();
        if limit >= n {
            return Err(SbeErr::BufferOverrun);
        }
        let data_length = self.get_u8_at(limit) as usize;
        if n - limit - 1 < data_length {
            return Err(SbeErr::BufferOverrun);
        }
        self.limit = limit + 1 + data_length;
        Ok((limit + 1, data_length))
    }

    /// The payload bytes of a previously decoded 'counter_symbol' field, addressed
    /// by the coordinates its decoder returned.
    pub fn counter_symbol_slice(&self, coordinates: (usize, usize)) -> (r: &[u8])
        requires
            coordinates.0 + coordinates.1 <= self.bytes().len(),
        ensures
            r@ == self.bytes().subrange(
                coordinates.0 as int,
                coordinates.0 + coordinates.1,
            ),
    {
        self.buf.get_slice_at(coordinates.0, coordinates.1)
    }
}

} // verus!
