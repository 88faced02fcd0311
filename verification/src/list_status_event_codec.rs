//! Codec for the list status event message: order-list fields, a repeating
//! group of orders with their own variable-length names, and three
//! trailing variable-length fields.

use vstd::prelude::*;
use vstd::bytes::spec_u16_from_le_bytes;
use vstd::bytes::spec_u16_to_le_bytes;
use vstd::pervasive::unreached;
use crate::buffer::ReadBuf;
use crate::buffer::WriteBuf;
use crate::codec::Decoder;
use crate::codec::Encoder;
use crate::codec::Reader;
use crate::contingency_type::ContingencyType;
use crate::contingency_type::contingency_type_from_byte;
use crate::contingency_type::contingency_type_to_byte;
use crate::enums::ListOrderStatus;
use crate::enums::list_order_status_from_byte;
use crate::enums::list_order_status_to_byte;
use crate::enums::ListStatusType;
use crate::enums::list_status_type_from_byte;
use crate::enums::list_status_type_to_byte;
use crate::message_header_codec;
use crate::message_header_codec::MessageHeaderDecoder;
use crate::message_header_codec::MessageHeaderEncoder;
use crate::message_header_codec::header_image;
use crate::wire::group_step;
use crate::wire::spec_i64_from_le_bytes;
use crate::wire::spec_i64_to_le_bytes;
use crate::wire::splice;
use crate::SbeErr;
use crate::SbeResult;

use vstd::seq_lib::group_seq_lib_default;

verus! {

broadcast use group_seq_lib_default;

pub const SBE_BLOCK_LENGTH: u16 = 27;

pub const SBE_TEMPLATE_ID: u16 = 606;

pub const SBE_SCHEMA_ID: u16 = 2;

pub const SBE_SCHEMA_VERSION: u16 = 1;

pub const SBE_SEMANTIC_VERSION: &'static str = "5.2";

/// The byte image of the 'orders' group's dimension header: the
/// per-element block length followed by the element count.
pub open spec fn orders_dim_image(count: u16) -> Seq<u8> {
    spec_u16_to_le_bytes(8u16) + spec_u16_to_le_bytes(count)
}

/// Writes the fixed block of a message, then groups and
/// variable-length data at the advancing limit.
pub struct ListStatusEventEncoder {
    pub buf: WriteBuf,
    pub initial_offset: usize,
    pub offset: usize,
    pub limit: usize,
}

impl Default for ListStatusEventEncoder {
    fn default() -> (r: ListStatusEventEncoder)
        ensures
            r.buf.data@.len() == 0,
            r.offset == 0,
            r.limit == 0,
    {
        ListStatusEventEncoder {
            buf: WriteBuf { data: Vec::new() },
            initial_offset: 0,
            offset: 0,
            limit: 0,
        }
    }
}

impl Encoder for ListStatusEventEncoder {
    open spec fn bytes(&self) -> Seq<u8> {
        self.buf.data@
    }

    open spec fn writable(&self) -> bool {
        true
    }

    open spec fn spec_limit(&self) -> int {
        self.limit as int
    }

    open spec fn same_frame(&self, other: &Self) -> bool {
        &&& other.initial_offset == self.initial_offset
        &&& other.offset == self.offset
        &&& other.buf.data@.len() == self.buf.data@.len()
    }

    proof fn lemma_frame_refl(&self) {
    }

    proof fn lemma_frame_trans(&self, b: &Self, c: &Self) {
    }

    proof fn lemma_frame_props(&self, other: &Self) {
    }

    fn buf_len(&self) -> (r: usize) {
        self.buf.len()
    }

    fn get_limit(&self) -> (r: usize) {
        self.limit
    }

    fn set_limit(&mut self, limit: usize) {
        self.limit = limit;
    }

    fn put_u8_at(&mut self, offset: usize, value: u8) {
        self.buf.put_u8_at(offset, value);
    }
}

impl ListStatusEventEncoder {
    /// The encoder is positioned on a block that lies inside the
    /// buffer, with the limit at or past the end of the block.
    pub open spec fn wf(&self) -> bool {
        &&& self.offset == self.initial_offset
        &&& self.offset + SBE_BLOCK_LENGTH as int <= self.limit
        &&& self.limit <= self.buf.data@.len()
    }

    /// Positions the encoder's fixed block at `offset`; fails when the
    /// block does not fit in the buffer.
    pub fn wrap(self, buf: WriteBuf, offset: usize) -> (r: SbeResult<Self>)
        ensures
            match r {
                Ok(e) => {
                    &&& offset + SBE_BLOCK_LENGTH as int <= buf.data@.len()
                    &&& e.wf()
                    &&& e.bytes() == buf.data@
                    &&& e.offset == offset
                    &&& e.spec_limit() == offset + SBE_BLOCK_LENGTH as int
                },
                Err(err) => {
                    &&& err == SbeErr::BufferOverrun
                    &&& offset + SBE_BLOCK_LENGTH as int > buf.data@.len()
                },
            },
    {
        let n: usize = buf.len();
        if offset > n || n - offset < SBE_BLOCK_LENGTH as usize {
            return Err(SbeErr::BufferOverrun);
        }
        Ok(ListStatusEventEncoder {
            buf,
            initial_offset: offset,
            offset,
            limit: offset + SBE_BLOCK_LENGTH as usize,
        })
    }

    /// Bytes written or reserved so far for this message.
    pub fn encoded_length(&self) -> (r: usize)
        requires
            self.wf(),
        ensures
            r == self.spec_limit() - self.offset,
    {
        self.limit - self.offset
    }

    /// Hands the finished buffer back.
    pub fn into_writebuf(self) -> (r: WriteBuf)
        ensures
            r.data@ == self.bytes(),
    {
        self.buf
    }

    /// Writes this message's envelope at `offset` and returns the
    /// header codec holding this encoder as its parent.
    pub fn header(self, offset: usize) -> (r: SbeResult<MessageHeaderEncoder<Self>>)
        requires
            self.wf(),
        ensures
            match r {
                Ok(h) => {
                    &&& h.parent is Some
                    &&& h.offset == offset
                    &&& h.wf()
                    &&& h.parent->0.wf()
                    &&& h.parent->0.bytes() == splice(
                        self.bytes(),
                        offset as int,
                        header_image(
                            SBE_BLOCK_LENGTH,
                            SBE_TEMPLATE_ID,
                            SBE_SCHEMA_ID,
                            SBE_SCHEMA_VERSION,
                        ),
                    )
                    &&& h.parent->0.spec_limit() == self.spec_limit()
                    &&& self.same_frame(&h.parent->0)
                },
                Err(e) => {
                    &&& e == SbeErr::BufferOverrun
                    &&& offset + message_header_codec::ENCODED_LENGTH as int
                        > self.bytes().len()
                },
            },
    {
        proof {
            vstd::bytes::lemma_auto_spec_u16_to_from_le_bytes();
        }
        let mut h = MessageHeaderEncoder::default().wrap(self, offset)?;
        h.block_length(SBE_BLOCK_LENGTH)?;
        h.template_id(SBE_TEMPLATE_ID)?;
        h.schema_id(SBE_SCHEMA_ID)?;
        h.version(SBE_SCHEMA_VERSION)?;
        proof {
            assert(h.parent->0.bytes() =~= splice(
                self.bytes(),
                offset as int,
                header_image(
                    SBE_BLOCK_LENGTH,
                    SBE_TEMPLATE_ID,
                    SBE_SCHEMA_ID,
                    SBE_SCHEMA_VERSION,
                ),
            ));
        }
        Ok(h)
    }

    /// Writes the 'event_time' field (i64, block offset 0).
    pub fn event_time(&mut self, value: i64)
        requires
            old(self).wf(),
        ensures
            final(self).wf(),
            final(self).bytes() == splice(old(self).bytes(), old(self).offset as int, spec_i64_to_le_bytes(value)),
            final(self).spec_limit() == old(self).spec_limit(),
            old(self).same_frame(final(self)),
    {
        let n: usize = self.buf.len();
        assert(self.offset + SBE_BLOCK_LENGTH as int <= n);
        let offset = self.offset;
        self.put_i64_at(offset, value);
    }

    /// Writes the 'transact_time' field (i64, block offset 8).
    pub fn transact_time(&mut self, value: i64)
        requires
            old(self).wf(),
        ensures
            final(self).wf(),
            final(self).bytes() == splice(old(self).bytes(), old(self).offset + 8, spec_i64_to_le_bytes(value)),
            final(self).spec_limit() == old(self).spec_limit(),
            old(self).same_frame(final(self)),
    {
        let n: usize = self.buf.len();
        assert(self.offset + SBE_BLOCK_LENGTH as int <= n);
        let offset = self.offset + 8;
        self.put_i64_at(offset, value);
    }

    /// Writes the 'order_list_id' field (i64, block offset 16).
    pub fn order_list_id(&mut self, value: i64)
        requires
            old(self).wf(),
        ensures
            final(self).wf(),
            final(self).bytes() == splice(old(self).bytes(), old(self).offset + 16, spec_i64_to_le_bytes(value)),
            final(self).spec_limit() == old(self).spec_limit(),
            old(self).same_frame(final(self)),
    {
        let n: usize = self.buf.len();
        assert(self.offset + SBE_BLOCK_LENGTH as int <= n);
        let offset = self.offset + 16;
        self.put_i64_at(offset, value);
    }

    /// Writes the single-byte 'contingency_type' enum field at block offset 24.
    pub fn contingency_type(&mut self, value: ContingencyType)
        requires
            old(self).wf(),
        ensures
            final(self).wf(),
            final(self).bytes() == old(self).bytes().update(old(self).offset + 24, contingency_type_to_byte(value)),
            final(self).spec_limit() == old(self).spec_limit(),
            old(self).same_frame(final(self)),
    {
        let n: usize = self.buf.len();
        assert(self.offset + SBE_BLOCK_LENGTH as int <= n);
        let offset = self.offset + 24;
        let b = value.value();
        self.put_u8_at(offset, b);
    }

    /// Writes the single-byte 'list_status_type' enum field at block offset 25.
    pub fn list_status_type(&mut self, value: ListStatusType)
        requires
            old(self).wf(),
        ensures
            final(self).wf(),
            final(self).bytes() == old(self).bytes().update(old(self).offset + 25, list_status_type_to_byte(value)),
            final(self).spec_limit() == old(self).spec_limit(),
            old(self).same_frame(final(self)),
    {
        let n: usize = self.buf.len();
        assert(self.offset + SBE_BLOCK_LENGTH as int <= n);
        let offset = self.offset + 25;
        let b = value.value();
        self.put_u8_at(offset, b);
    }

    /// Writes the single-byte 'list_order_status' enum field at block offset 26.
    pub fn list_order_status(&mut self, value: ListOrderStatus)
        requires
            old(self).wf(),
        ensures
            final(self).wf(),
            final(self).bytes() == old(self).bytes().update(old(self).offset + 26, list_order_status_to_byte(value)),
            final(self).spec_limit() == old(self).spec_limit(),
            old(self).same_frame(final(self)),
    {
        let n: usize = self.buf.len();
        assert(self.offset + SBE_BLOCK_LENGTH as int <= n);
        let offset = self.offset + 26;
        let b = value.value();
        self.put_u8_at(offset, b);
    }

    /// GROUP ENCODER: writes the 'orders' group's dimension header at the
    /// current limit and hands this encoder to the group codec, which
    /// returns it through `parent` once the group is done.
    pub fn orders_encoder(self, count: u16, orders_encoder: OrdersEncoder<Self>) -> (r: SbeResult<
        OrdersEncoder<Self>,
    >)
        requires
            self.wf(),
        ensures
            match r {
                Ok(g) => {
                    &&& self.spec_limit() + 4 <= self.bytes().len()
                    &&& g.wf()
                    &&& g.has_parent()
                    &&& g.count == count
                    &&& g.index_model() == -1
                    &&& g.initial_limit == self.spec_limit()
                    &&& g.bytes() == splice(self.bytes(), self.spec_limit(), orders_dim_image(count))
                    &&& g.spec_limit() == self.spec_limit() + 4
                    &&& self.same_frame(&g.parent->0)
                },
                Err(e) => {
                    &&& e == SbeErr::BufferOverrun
                    &&& self.spec_limit() + 4 > self.bytes().len()
                },
            },
    {
        orders_encoder.wrap(self, count)
    }

    /// Appends the variable-length 'symbol' field at the current limit: a
    /// one-byte length prefix followed by the payload bytes.
    pub fn symbol(&mut self, value: &[u8]) -> (r: SbeResult<()>)
        requires
            old(self).wf(),
        ensures
            final(self).wf(),
            old(self).same_frame(final(self)),
            match r {
                Ok(()) => {
                    &&& value@.len() <= 255
                    &&& old(self).spec_limit() + 1 + value@.len() <= old(self).bytes().len()
                    &&& final(self).bytes() == splice(
                        old(self).bytes(),
                        old(self).spec_limit(),
                        seq![value@.len() as u8] + value@,
                    )
                    &&& final(self).spec_limit() == old(self).spec_limit() + 1 + value@.len()
                },
                Err(e) => {
                    &&& e == SbeErr::BufferOverrun
                    &&& *final(self) == *old(self)
                    &&& (value@.len() > 255 || old(self).spec_limit() + 1 + value@.len()
                        > old(self).bytes().len())
                },
            },
    {
        let data_length = value.len();
        if data_length > 255 {
            return Err(SbeErr::BufferOverrun);
        }
        let limit = self.limit;
        let n: usize = self.buf.len();
        if limit >= n || n - limit - 1 < data_length {
            return Err(SbeErr::BufferOverrun);
        }
        self.put_u8_at(limit, data_length as u8);
        self.put_slice_at(limit + 1, value);
        self.limit = limit + 1 + data_length;
        proof {
            assert(final(self).bytes() =~= splice(
                old(self).bytes(),
                old(self).spec_limit(),
                seq![value@.len() as u8] + value@,
            ));
        }
        Ok(())
    }

    /// Appends the variable-length 'list_client_order_id' field at the current limit: a
    /// one-byte length prefix followed by the payload bytes.
    pub fn list_client_order_id(&mut self, value: &[u8]) -> (r: SbeResult<()>)
        requires
            old(self).wf(),
        ensures
            final(self).wf(),
            old(self).same_frame(final(self)),
            match r {
                Ok(()) => {
                    &&& value@.len() <= 255
                    &&& old(self).spec_limit() + 1 + value@.len() <= old(self).bytes().len()
                    &&& final(self).bytes() == splice(
                        old(self).bytes(),
                        old(self).spec_limit(),
                        seq![value@.len() as u8] + value@,
                    )
                    &&& final(self).spec_limit() == old(self).spec_limit() + 1 + value@.len()
                },
                Err(e) => {
                    &&& e == SbeErr::BufferOverrun
                    &&& *final(self) == *old(self)
                    &&& (value@.len() > 255 || old(self).spec_limit() + 1 + value@.len()
                        > old(self).bytes().len())
                },
            },
    {
        let data_length = value.len();
        if data_length > 255 {
            return Err(SbeErr::BufferOverrun);
        }
        let limit = self.limit;
        let n: usize = self.buf.len();
        if limit >= n || n - limit - 1 < data_length {
            return Err(SbeErr::BufferOverrun);
        }
        self.put_u8_at(limit, data_length as u8);
        self.put_slice_at(limit + 1, value);
        self.limit = limit + 1 + data_length;
        proof {
            assert(final(self).bytes() =~= splice(
                old(self).bytes(),
                old(self).spec_limit(),
                seq![value@.len() as u8] + value@,
            ));
        }
        Ok(())
    }

    /// Appends the variable-length 'reject_reason' field at the current limit: a
    /// one-byte length prefix followed by the payload bytes.
    pub fn reject_reason(&mut self, value: &[u8]) -> (r: SbeResult<()>)
        requires
            old(self).wf(),
        ensures
            final(self).wf(),
            old(self).same_frame(final(self)),
            match r {
                Ok(()) => {
                    &&& value@.len() <= 255
                    &&& old(self).spec_limit() + 1 + value@.len() <= old(self).bytes().len()
                    &&& final(self).bytes() == splice(
                        old(self).bytes(),
                        old(self).spec_limit(),
                        seq![value@.len() as u8] + value@,
                    )
                    &&& final(self).spec_limit() == old(self).spec_limit() + 1 + value@.len()
                },
                Err(e) => {
                    &&& e == SbeErr::BufferOverrun
                    &&& *final(self) == *old(self)
                    &&& (value@.len() > 255 || old(self).spec_limit() + 1 + value@.len()
                        > old(self).bytes().len())
                },
            },
    {
        let data_length = value.len();
        if data_length > 255 {
            return Err(SbeErr::BufferOverrun);
        }
        let limit = self.limit;
        let n: usize = self.buf.len();
        if limit >= n || n - limit - 1 < data_length {
            return Err(SbeErr::BufferOverrun);
        }
        self.put_u8_at(limit, data_length as u8);
        self.put_slice_at(limit + 1, value);
        self.limit = limit + 1 + data_length;
        proof {
            assert(final(self).bytes() =~= splice(
                old(self).bytes(),
                old(self).spec_limit(),
                seq![value@.len() as u8] + value@,
            ));
        }
        Ok(())
    }
}

/// Encodes the repeating 'orders' group: takes ownership of the parent
/// codec, writes one fixed block per `advance`, and hands the parent
/// back through `parent`.
pub struct OrdersEncoder<P> {
    pub parent: Option<P>,
    pub count: u16,
    pub index: usize,
    pub offset: usize,
    pub initial_limit: usize,
}

impl<P> Default for OrdersEncoder<P> {
    fn default() -> (r: OrdersEncoder<P>)
        ensures
            r.parent is None,
            r.count == 0,
    {
        OrdersEncoder { parent: None, count: 0, index: 0, offset: 0, initial_limit: 0 }
    }
}

impl<P: Encoder> Encoder for OrdersEncoder<P> {
    open spec fn bytes(&self) -> Seq<u8> {
        match self.parent {
            Some(p) => p.bytes(),
            None => Seq::empty(),
        }
    }

    open spec fn writable(&self) -> bool {
        match self.parent {
            Some(p) => p.writable(),
            None => false,
        }
    }

    open spec fn spec_limit(&self) -> int {
        match self.parent {
            Some(p) => p.spec_limit(),
            None => 0,
        }
    }

    open spec fn same_frame(&self, other: &Self) -> bool {
        &&& match (self.parent, other.parent) {
            (Some(p), Some(q)) => p.same_frame(&q),
            (None, None) => true,
            _ => false,
        }
        &&& other.count == self.count
        &&& other.index == self.index
        &&& other.offset == self.offset
        &&& other.initial_limit == self.initial_limit
    }

    proof fn lemma_frame_refl(&self) {
        match self.parent {
            Some(p) => p.lemma_frame_refl(),
            None => {},
        }
    }

    proof fn lemma_frame_trans(&self, b: &Self, c: &Self) {
        match (self.parent, b.parent, c.parent) {
            (Some(p), Some(q), Some(s)) => p.lemma_frame_trans(&q, &s),
            _ => {},
        }
    }

    proof fn lemma_frame_props(&self, other: &Self) {
        match (self.parent, other.parent) {
            (Some(p), Some(q)) => p.lemma_frame_props(&q),
            _ => {},
        }
    }

    fn buf_len(&self) -> (r: usize) {
        match &self.parent {
            Some(p) => p.buf_len(),
            None => unreached(),
        }
    }

    fn get_limit(&self) -> (r: usize) {
        match &self.parent {
            Some(p) => p.get_limit(),
            None => unreached(),
        }
    }

    fn set_limit(&mut self, limit: usize) {
        match &mut self.parent {
            Some(p) => p.set_limit(limit),
            None => proof { assert(false); },
        }
    }

    fn put_u8_at(&mut self, offset: usize, value: u8) {
        match &mut self.parent {
            Some(p) => p.put_u8_at(offset, value),
            None => proof { assert(false); },
        }
    }
}

impl<P: Encoder> OrdersEncoder<P> {
    /// The group still holds its parent codec.
    pub open spec fn has_parent(&self) -> bool {
        self.parent is Some
    }

    /// The element index the cursor sits on; `-1` before the first
    /// `advance`.
    pub open spec fn index_model(&self) -> int {
        if self.index == usize::MAX {
            -1
        } else {
            self.index as int
        }
    }

    /// The cursor is positioned on an element.
    pub open spec fn in_element(&self) -> bool {
        self.index != usize::MAX
    }

    /// While a parent is held: it is writable, its limit lies inside the
    /// buffer, and any current element's block lies below the limit.
    pub open spec fn wf(&self) -> bool {
        match self.parent {
            Some(p) => {
                &&& p.writable()
                &&& p.spec_limit() <= p.bytes().len()
                &&& (self.index != usize::MAX ==> {
                    &&& (self.index as int) < self.count as int
                    &&& self.offset + 8 <= p.spec_limit()
                })
            },
            None => true,
        }
    }

    /// Reserves the group's dimension header at the parent's limit and
    /// records the element count; fails when the header would not fit.
    pub fn wrap(self, parent: P, count: u16) -> (r: SbeResult<Self>)
        requires
            parent.writable(),
        ensures
            match r {
                Ok(g) => {
                    &&& parent.spec_limit() + 4 <= parent.bytes().len()
                    &&& g.wf()
                    &&& g.has_parent()
                    &&& g.count == count
                    &&& g.index_model() == -1
                    &&& g.initial_limit == parent.spec_limit()
                    &&& g.bytes() == splice(parent.bytes(), parent.spec_limit(), orders_dim_image(count))
                    &&& g.spec_limit() == parent.spec_limit() + 4
                    &&& parent.same_frame(&g.parent->0)
                },
                Err(e) => {
                    &&& e == SbeErr::BufferOverrun
                    &&& parent.spec_limit() + 4 > parent.bytes().len()
                },
            },
    {
        let mut p = parent;
        let initial_limit = p.get_limit();
        let n: usize = p.buf_len();
        if initial_limit > n || n - initial_limit < 4 {
            return Err(SbeErr::BufferOverrun);
        }
        p.set_limit(initial_limit + 4);
        let ghost p1 = p;
        p.put_u16_at(initial_limit, 8u16);
        let ghost p2 = p;
        p.put_u16_at(initial_limit + 2, count);
        proof {
            parent.lemma_frame_trans(&p1, &p2);
            parent.lemma_frame_trans(&p2, &p);
            vstd::bytes::lemma_auto_spec_u16_to_from_le_bytes();
            assert(p.bytes() =~= splice(parent.bytes(), parent.spec_limit(), orders_dim_image(count)));
        }
        Ok(OrdersEncoder {
            parent: Some(p),
            count,
            index: usize::MAX,
            offset: usize::MAX,
            initial_limit,
        })
    }

    /// The fixed byte width of one element's block.
    pub fn block_length() -> (r: u16)
        ensures
            r == 8,
    {
        8
    }

    /// Releases and returns the parent codec; every later group
    /// operation reports that the parent is gone.
    pub fn parent(&mut self) -> (r: SbeResult<P>)
        ensures
            final(self).parent is None,
            final(self).count == old(self).count,
            final(self).index == old(self).index,
            final(self).offset == old(self).offset,
            final(self).initial_limit == old(self).initial_limit,
            match r {
                Ok(p) => old(self).parent == Some(p),
                Err(e) => e == SbeErr::ParentNotSet && old(self).parent is None,
            },
    {
        match self.parent.take() {
            Some(p) => Ok(p),
            None => Err(SbeErr::ParentNotSet),
        }
    }

    /// Moves the cursor to the next element, reserving its fixed block at
    /// the shared limit. Fails once the parent has been released; while
    /// the parent is held it yields the new index, or `None` once all
    /// `count` elements have been written, the `count + 1`-th call always
    /// yielding `None`.
    pub fn advance(&mut self) -> (r: SbeResult<Option<usize>>)
        requires
            old(self).wf(),
        ensures
            final(self).wf(),
            final(self).count == old(self).count,
            match r {
                Ok(opt) => {
                    &&& old(self).has_parent()
                    &&& match group_step(old(self).index_model(), old(self).count as int) {
                        Some(i) => {
                            &&& opt == Some(i as usize)
                            &&& final(self).has_parent()
                            &&& final(self).index_model() == i
                            &&& final(self).offset == old(self).spec_limit()
                            &&& final(self).bytes() == old(self).bytes()
                            &&& final(self).spec_limit() == old(self).spec_limit() + 8
                            &&& final(self).initial_limit == old(self).initial_limit
                            &&& old(self).parent->0.same_frame(&final(self).parent->0)
                        },
                        None => opt is None && *final(self) == *old(self),
                    }
                },
                Err(e) => {
                    ||| (e == SbeErr::ParentNotSet && !old(self).has_parent()
                        && *final(self) == *old(self))
                    ||| (e == SbeErr::BufferOverrun && old(self).has_parent()
                        && group_step(old(self).index_model(), old(self).count as int) is Some
                        && old(self).spec_limit() + 8 > old(self).bytes().len()
                        && *final(self) == *old(self))
                },
            },
    {
        if self.parent.is_none() {
            return Err(SbeErr::ParentNotSet);
        }
        let index: usize = if self.index == usize::MAX {
            0
        } else {
            self.index + 1
        };
        if index >= self.count as usize {
            return Ok(None);
        }
        match &mut self.parent {
            Some(p) => {
                let limit = p.get_limit();
                let n: usize = p.buf_len();
                if limit > n || n - limit < 8 {
                    return Err(SbeErr::BufferOverrun);
                }
                p.set_limit(limit + 8);
                self.offset = limit;
                self.index = index;
                Ok(Some(index))
            },
            None => Err(SbeErr::ParentNotSet),
        }
    }

    /// Writes the 'order_id' field (i64, block offset 0). Fails when the parent was already released.
    pub fn order_id(&mut self, value: i64) -> (r: SbeResult<()>)
        requires
            old(self).wf(),
            old(self).has_parent() ==> old(self).in_element(),
        ensures
            final(self).wf(),
            match r {
                Ok(()) => {
                    &&& old(self).has_parent()
                    &&& final(self).bytes() == splice(old(self).bytes(), old(self).offset as int, spec_i64_to_le_bytes(value))
                    &&& final(self).spec_limit() == old(self).spec_limit()
                    &&& old(self).same_frame(final(self))
                },
                Err(e) => e == SbeErr::ParentNotSet && !old(self).has_parent()
                    && *final(self) == *old(self),
            },
    {
        if self.parent.is_none() {
            return Err(SbeErr::ParentNotSet);
        }
        let n: usize = self.buf_len();
        assert(self.offset + 8 <= n);
        let offset = self.offset;
        self.put_i64_at(offset, value);
        Ok(())
    }

    /// Appends the variable-length 'symbol' field of the current element at
    /// the shared limit: a one-byte length prefix followed by the payload.
    pub fn symbol(&mut self, value: &[u8]) -> (r: SbeResult<()>)
        requires
            old(self).wf(),
        ensures
            final(self).wf(),
            old(self).same_frame(final(self)),
            match r {
                Ok(()) => {
                    &&& old(self).has_parent()
                    &&& value@.len() <= 255
                    &&& old(self).spec_limit() + 1 + value@.len() <= old(self).bytes().len()
                    &&& final(self).bytes() == splice(
                        old(self).bytes(),
                        old(self).spec_limit(),
                        seq![value@.len() as u8] + value@,
                    )
                    &&& final(self).spec_limit() == old(self).spec_limit() + 1 + value@.len()
                },
                Err(e) => {
                    ||| (e == SbeErr::ParentNotSet && !old(self).has_parent()
                        && *final(self) == *old(self))
                    ||| (e == SbeErr::BufferOverrun && old(self).has_parent()
                        && *final(self) == *old(self)
                        && (value@.len() > 255 || old(self).spec_limit() + 1 + value@.len()
                            > old(self).bytes().len()))
                },
            },
    {
        proof {
            self.lemma_frame_refl();
        }
        if self.parent.is_none() {
            return Err(SbeErr::ParentNotSet);
        }
        let data_length = value.len();
        if data_length > 255 {
            return Err(SbeErr::BufferOverrun);
        }
        let limit = self.get_limit();
        let n: usize = self.buf_len();
        if limit >= n || n - limit - 1 < data_length {
            return Err(SbeErr::BufferOverrun);
        }
        self.put_u8_at(limit, data_length as u8);
        let ghost s1 = *self;
        self.put_slice_at(limit + 1, value);
        let ghost s2 = *self;
        self.set_limit(limit + 1 + data_length);
        proof {
            old(self).lemma_frame_trans(&s1, &s2);
            old(self).lemma_frame_trans(&s2, self);
            assert(final(self).bytes() =~= splice(
                old(self).bytes(),
                old(self).spec_limit(),
                seq![value@.len() as u8] + value@,
            ));
        }
        Ok(())
    }

    /// Appends the variable-length 'client_order_id' field of the current element at
    /// the shared limit: a one-byte length prefix followed by the payload.
    pub fn client_order_id(&mut self, value: &[u8]) -> (r: SbeResult<()>)
        requires
            old(self).wf(),
        ensures
            final(self).wf(),
            old(self).same_frame(final(self)),
            match r {
                Ok(()) => {
                    &&& old(self).has_parent()
                    &&& value@.len() <= 255
                    &&& old(self).spec_limit() + 1 + value@.len() <= old(self).bytes().len()
                    &&& final(self).bytes() == splice(
                        old(self).bytes(),
                        old(self).spec_limit(),
                        seq![value@.len() as u8] + value@,
                    )
                    &&& final(self).spec_limit() == old(self).spec_limit() + 1 + value@.len()
                },
                Err(e) => {
                    ||| (e == SbeErr::ParentNotSet && !old(self).has_parent()
                        && *final(self) == *old(self))
                    ||| (e == SbeErr::BufferOverrun && old(self).has_parent()
                        && *final(self) == *old(self)
                        && (value@.len() > 255 || old(self).spec_limit() + 1 + value@.len()
                            > old(self).bytes().len()))
                },
            },
    {
        proof {
            self.lemma_frame_refl();
        }
        if self.parent.is_none() {
            return Err(SbeErr::ParentNotSet);
        }
        let data_length = value.len();
        if data_length > 255 {
            return Err(SbeErr::BufferOverrun);
        }
        let limit = self.get_limit();
        let n: usize = self.buf_len();
        if limit >= n || n - limit - 1 < data_length {
            return Err(SbeErr::BufferOverrun);
        }
        self.put_u8_at(limit, data_length as u8);
        let ghost s1 = *self;
        self.put_slice_at(limit + 1, value);
        let ghost s2 = *self;
        self.set_limit(limit + 1 + data_length);
        proof {
            old(self).lemma_frame_trans(&s1, &s2);
            old(self).lemma_frame_trans(&s2, self);
            assert(final(self).bytes() =~= splice(
                old(self).bytes(),
                old(self).spec_limit(),
                seq![value@.len() as u8] + value@,
            ));
        }
        Ok(())
    }
}

/// Reads the fixed block of a message, then groups and
/// variable-length data at the advancing limit.
#[derive(Clone, Copy)]
pub struct ListStatusEventDecoder<'a> {
    pub buf: ReadBuf<'a>,
    pub initial_offset: usize,
    pub offset: usize,
    pub limit: usize,
    pub acting_block_length: u16,
    pub acting_version: u16,
}

impl<'a> Default for ListStatusEventDecoder<'a> {
    fn default() -> (r: ListStatusEventDecoder<'a>)
        ensures
            r.offset == 0,
            r.limit == 0,
            r.acting_block_length == 0,
            r.acting_version == 0,
    {
        ListStatusEventDecoder {
            buf: ReadBuf { data: &[] },
            initial_offset: 0,
            offset: 0,
            limit: 0,
            acting_block_length: 0,
            acting_version: 0,
        }
    }
}

impl<'a> Reader for ListStatusEventDecoder<'a> {
    open spec fn bytes(&self) -> Seq<u8> {
        self.buf.data@
    }

    open spec fn readable(&self) -> bool {
        true
    }

    fn buf_len(&self) -> (r: usize) {
        self.buf.data.len()
    }

    fn get_u8_at(&self, offset: usize) -> (r: u8) {
        self.buf.get_u8_at(offset)
    }

    fn get_slice_at(&self, offset: usize, len: usize) -> (r: &[u8]) {
        self.buf.get_slice_at(offset, len)
    }
}

impl<'a> Decoder for ListStatusEventDecoder<'a> {
    open spec fn spec_limit(&self) -> int {
        self.limit as int
    }

    open spec fn same_frame(&self, other: &Self) -> bool {
        &&& other.buf.data@ == self.buf.data@
        &&& other.initial_offset == self.initial_offset
        &&& other.offset == self.offset
        &&& other.acting_block_length == self.acting_block_length
        &&& other.acting_version == self.acting_version
    }

    proof fn lemma_frame_refl(&self) {
    }

    proof fn lemma_frame_trans(&self, b: &Self, c: &Self) {
    }

    proof fn lemma_frame_props(&self, other: &Self) {
    }

    fn get_limit(&self) -> (r: usize) {
        self.limit
    }

    fn set_limit(&mut self, limit: usize) {
        self.limit = limit;
    }
}

impl<'a> ListStatusEventDecoder<'a> {
    /// The decoder is positioned on an acting block that lies inside
    /// the buffer.
    pub open spec fn wf(&self) -> bool {
        &&& self.offset == self.initial_offset
        &&& self.offset + self.acting_block_length as int <= self.buf.data@.len()
        &&& self.offset <= self.limit <= self.buf.data@.len()
    }

    /// Positions the decoder at `offset` with the block length and
    /// schema version the envelope declared; fails when the declared
    /// block does not lie inside the buffer.
    pub fn wrap(
        self,
        buf: ReadBuf<'a>,
        offset: usize,
        acting_block_length: u16,
        acting_version: u16,
    ) -> (r: SbeResult<Self>)
        ensures
            match r {
                Ok(d) => {
                    &&& offset + acting_block_length as int <= buf.data@.len()
                    &&& d.wf()
                    &&& d.bytes() == buf.data@
                    &&& d.offset == offset
                    &&& d.acting_block_length == acting_block_length
                    &&& d.acting_version == acting_version
                    &&& d.spec_limit() == offset + acting_block_length as int
                },
                Err(e) => {
                    &&& e == SbeErr::BufferOverrun
                    &&& offset + acting_block_length as int > buf.data@.len()
                },
            },
    {
        let n: usize = buf.data.len();
        if offset > n || n - offset < acting_block_length as usize {
            return Err(SbeErr::BufferOverrun);
        }
        Ok(ListStatusEventDecoder {
            buf,
            initial_offset: offset,
            offset,
            limit: offset + acting_block_length as usize,
            acting_block_length,
            acting_version,
        })
    }

    /// Bytes consumed or declared so far for this message.
    pub fn encoded_length(&self) -> (r: usize)
        requires
            self.wf(),
        ensures
            r == self.spec_limit() - self.offset,
    {
        self.limit - self.offset
    }

    /// Checks the envelope's template id and positions the decoder
    /// right behind the envelope, using the block length and version
    /// the envelope declares.
    pub fn header(self, header: MessageHeaderDecoder<ReadBuf<'a>>) -> (r: SbeResult<Self>)
        requires
            header.wf(),
            header.offset == 0,
        ensures
            match r {
                Ok(d) => {
                    &&& header.parent is Some
                    &&& header.spec_template_id() == SBE_TEMPLATE_ID
                    &&& d.wf()
                    &&& d.bytes() == header.parent->0.bytes()
                    &&& d.offset == message_header_codec::ENCODED_LENGTH
                    &&& d.acting_block_length == header.spec_block_length()
                    &&& d.acting_version == header.spec_version()
                    &&& d.spec_limit() == message_header_codec::ENCODED_LENGTH
                        + header.spec_block_length() as int
                },
                Err(e) => {
                    ||| (e == SbeErr::ParentNotSet && header.parent is None)
                    ||| (e == SbeErr::UnexpectedTemplate && header.parent is Some
                        && header.spec_template_id() != SBE_TEMPLATE_ID)
                    ||| (e == SbeErr::BufferOverrun && header.parent is Some
                        && header.spec_template_id() == SBE_TEMPLATE_ID
                        && message_header_codec::ENCODED_LENGTH
                            + header.spec_block_length() as int
                            > header.parent->0.bytes().len())
                },
            },
    {
        let template_id = header.template_id()?;
        if template_id != SBE_TEMPLATE_ID {
            return Err(SbeErr::UnexpectedTemplate);
        }
        let acting_block_length = header.block_length()?;
        let acting_version = header.version()?;
        let mut h = header;
        let buf = h.parent()?;
        self.wrap(
            buf,
            message_header_codec::ENCODED_LENGTH,
            acting_block_length,
            acting_version,
        )
    }

    /// Reads the 'event_time' field (i64, block offset 0).
    pub fn event_time(&self) -> (r: SbeResult<i64>)
        requires
            self.wf(),
        ensures
            match r {
                Ok(v) => {
                    &&& 8 <= self.acting_block_length
                    &&& v == spec_i64_from_le_bytes(self.bytes().subrange(self.offset as int, self.offset + 8))
                },
                Err(e) => e == SbeErr::BufferOverrun && self.acting_block_length < 8,
            },
    {
        if (self.acting_block_length as usize) < 8 {
            return Err(SbeErr::BufferOverrun);
        }
        let n: usize = self.buf.data.len();
        assert(self.offset + self.acting_block_length as int <= n);
        Ok(self.get_i64_at(self.offset))
    }

    /// Reads the 'transact_time' field (i64, block offset 8).
    pub fn transact_time(&self) -> (r: SbeResult<i64>)
        requires
            self.wf(),
        ensures
            match r {
                Ok(v) => {
                    &&& 16 <= self.acting_block_length
                    &&& v == spec_i64_from_le_bytes(self.bytes().subrange(self.offset + 8, self.offset + 16))
                },
                Err(e) => e == SbeErr::BufferOverrun && self.acting_block_length < 16,
            },
    {
        if (self.acting_block_length as usize) < 16 {
            return Err(SbeErr::BufferOverrun);
        }
        let n: usize = self.buf.data.len();
        assert(self.offset + self.acting_block_length as int <= n);
        Ok(self.get_i64_at(self.offset + 8))
    }

    /// Reads the 'order_list_id' field (i64, block offset 16).
    pub fn order_list_id(&self) -> (r: SbeResult<i64>)
        requires
            self.wf(),
        ensures
            match r {
                Ok(v) => {
                    &&& 24 <= self.acting_block_length
                    &&& v == spec_i64_from_le_bytes(self.bytes().subrange(self.offset + 16, self.offset + 24))
                },
                Err(e) => e == SbeErr::BufferOverrun && self.acting_block_length < 24,
            },
    {
        if (self.acting_block_length as usize) < 24 {
            return Err(SbeErr::BufferOverrun);
        }
        let n: usize = self.buf.data.len();
        assert(self.offset + self.acting_block_length as int <= n);
        Ok(self.get_i64_at(self.offset + 16))
    }

    /// Reads the single-byte 'contingency_type' enum field at block offset 24;
    /// an unrecognized byte decodes to the reserved null value.
    pub fn contingency_type(&self) -> (r: SbeResult<ContingencyType>)
        requires
            self.wf(),
        ensures
            match r {
                Ok(v) => {
                    &&& 25 <= self.acting_block_length
                    &&& v == contingency_type_from_byte(self.bytes()[self.offset + 24])
                },
                Err(e) => e == SbeErr::BufferOverrun && self.acting_block_length < 25,
            },
    {
        if (self.acting_block_length as usize) < 25 {
            return Err(SbeErr::BufferOverrun);
        }
        let n: usize = self.buf.data.len();
        assert(self.offset + self.acting_block_length as int <= n);
        Ok(ContingencyType::from(self.get_u8_at(self.offset + 24)))
    }

    /// Reads the single-byte 'list_status_type' enum field at block offset 25;
    /// an unrecognized byte decodes to the reserved null value.
    pub fn list_status_type(&self) -> (r: SbeResult<ListStatusType>)
        requires
            self.wf(),
        ensures
            match r {
                Ok(v) => {
                    &&& 26 <= self.acting_block_length
                    &&& v == list_status_type_from_byte(self.bytes()[self.offset + 25])
                },
                Err(e) => e == SbeErr::BufferOverrun && self.acting_block_length < 26,
            },
    {
        if (self.acting_block_length as usize) < 26 {
            return Err(SbeErr::BufferOverrun);
        }
        let n: usize = self.buf.data.len();
        assert(self.offset + self.acting_block_length as int <= n);
        Ok(ListStatusType::from(self.get_u8_at(self.offset + 25)))
    }

    /// Reads the single-byte 'list_order_status' enum field at block offset 26;
    /// an unrecognized byte decodes to the reserved null value.
    pub fn list_order_status(&self) -> (r: SbeResult<ListOrderStatus>)
        requires
            self.wf(),
        ensures
            match r {
                Ok(v) => {
                    &&& 27 <= self.acting_block_length
                    &&& v == list_order_status_from_byte(self.bytes()[self.offset + 26])
                },
                Err(e) => e == SbeErr::BufferOverrun && self.acting_block_length < 27,
            },
    {
        if (self.acting_block_length as usize) < 27 {
            return Err(SbeErr::BufferOverrun);
        }
        let n: usize = self.buf.data.len();
        assert(self.offset + self.acting_block_length as int <= n);
        Ok(ListOrderStatus::from(self.get_u8_at(self.offset + 26)))
    }

    /// GROUP DECODER: reads the 'orders' group's dimension header at the
    /// current limit and hands this decoder to the group codec, which
    /// returns it through `parent` once the group is done.
    pub fn orders_decoder(self) -> (r: SbeResult<OrdersDecoder<Self>>)
        requires
            self.wf(),
        ensures
            match r {
                Ok(g) => {
                    &&& self.spec_limit() + 4 <= self.bytes().len()
                    &&& g.wf()
                    &&& g.has_parent()
                    &&& g.bytes() == self.bytes()
                    &&& g.block_length == spec_u16_from_le_bytes(
                        self.bytes().subrange(self.spec_limit(), self.spec_limit() + 2),
                    ) as usize
                    &&& g.count == spec_u16_from_le_bytes(
                        self.bytes().subrange(self.spec_limit() + 2, self.spec_limit() + 4),
                    )
                    &&& g.index_model() == -1
                    &&& g.spec_limit() == self.spec_limit() + 4
                    &&& self.same_frame(&g.parent->0)
                },
                Err(e) => {
                    &&& e == SbeErr::BufferOverrun
                    &&& self.spec_limit() + 4 > self.bytes().len()
                },
            },
    {
        OrdersDecoder::default().wrap(self)
    }

    /// Consumes the variable-length 'symbol' field at the current limit and
    /// returns the coordinates (start, length) of its payload within the
    /// buffer; the limit advances past the length prefix and the payload.
    pub fn symbol_decoder(&mut self) -> (r: SbeResult<(usize, usize)>)
        requires
            old(self).wf(),
        ensures
            final(self).wf(),
            final(self).bytes() == old(self).bytes(),
            old(self).same_frame(final(self)),
            match r {
                Ok(c) => {
                    &&& old(self).spec_limit() + 1 <= old(self).bytes().len()
                    &&& c.1 == old(self).bytes()[old(self).spec_limit()]
                    &&& c.0 == old(self).spec_limit() + 1
                    &&& c.0 + c.1 <= old(self).bytes().len()
                    &&& final(self).spec_limit() == old(self).spec_limit() + 1 + c.1
                },
                Err(e) => {
                    &&& e == SbeErr::BufferOverrun
                    &&& *final(self) == *old(self)
                    &&& (old(self).spec_limit() + 1 > old(self).bytes().len()
                        || old(self).spec_limit() + 1 + old(self).bytes()[old(self).spec_limit()]
                            > old(self).bytes().len())
                },
            },
    {
        let limit = self.limit;
        let n: usize = self.buf.data.len();
        if limit >= n {
            return Err(SbeErr::BufferOverrun);
        }
        let data_length = self.get_u8_at(limit) as usize;
        if n - limit - 1 < data_length {
            return Err(SbeErr::BufferOverrun);
        }
        self.limit = limit + 1 + data_length;
        Ok((limit + 1, data_length))
    }

    /// The payload bytes of a previously decoded 'symbol' field, addressed
    /// by the coordinates its decoder returned.
    pub fn symbol_slice(&self, coordinates: (usize, usize)) -> (r: &[u8])
        requires
            coordinates.0 + coordinates.1 <= self.bytes().len(),
        ensures
            r@ == self.bytes().subrange(
                coordinates.0 as int,
                coordinates.0 + coordinates.1,
            ),
    {
        self.buf.get_slice_at(coordinates.0, coordinates.1)
    }

    /// Consumes the variable-length 'list_client_order_id' field at the current limit and
    /// returns the coordinates (start, length) of its payload within the
    /// buffer; the limit advances past the length prefix and the payload.
    pub fn list_client_order_id_decoder(&mut self) -> (r: SbeResult<(usize, usize)>)
        requires
            old(self).wf(),
        ensures
            final(self).wf(),
            final(self).bytes() == old(self).bytes(),
            old(self).same_frame(final(self)),
            match r {
                Ok(c) => {
                    &&& old(self).spec_limit() + 1 <= old(self).bytes().len()
                    &&& c.1 == old(self).bytes()[old(self).spec_limit()]
                    &&& c.0 == old(self).spec_limit() + 1
                    &&& c.0 + c.1 <= old(self).bytes().len()
                    &&& final(self).spec_limit() == old(self).spec_limit() + 1 + c.1
                },
                Err(e) => {
                    &&& e == SbeErr::BufferOverrun
                    &&& *final(self) == *old(self)
                    &&& (old(self).spec_limit() + 1 > old(self).bytes().len()
                        || old(self).spec_limit() + 1 + old(self).bytes()[old(self).spec_limit()]
                            > old(self).bytes().len())
                },
            },
    {
        let limit = self.limit;
        let n: usize = self.buf.data.len();
        if limit >= n {
            return Err(SbeErr::BufferOverrun);
        }
        let data_length = self.get_u8_at(limit) as usize;
        if n - limit - 1 < data_length {
            return Err(SbeErr::BufferOverrun);
        }
        self.limit = limit + 1 + data_length;
        Ok((limit + 1, data_length))
    }

    /// The payload bytes of a previously decoded 'list_client_order_id' field, addressed
    /// by the coordinates its decoder returned.
    pub fn list_client_order_id_slice(&self, coordinates: (usize, usize)) -> (r: &[u8])
        requires
            coordinates.0 + coordinates.1 <= self.bytes().len(),
        ensures
            r@ == self.bytes().subrange(
                coordinates.0 as int,
                coordinates.0 + coordinates.1,
            ),
    {
        self.buf.get_slice_at(coordinates.0, coordinates.1)
    }

    /// Consumes the variable-length 'reject_reason' field at the current limit and
    /// returns the coordinates (start, length) of its payload within the
    /// buffer; the limit advances past the length prefix and the payload.
    pub fn reject_reason_decoder(&mut self) -> (r: SbeResult<(usize, usize)>)
        requires
            old(self).wf(),
        ensures
            final(self).wf(),
            final(self).bytes() == old(self).bytes(),
            old(self).same_frame(final(self)),
            match r {
                Ok(c) => {
                    &&& old(self).spec_limit() + 1 <= old(self).bytes().len()
                    &&& c.1 == old(self).bytes()[old(self).spec_limit()]
                    &&& c.0 == old(self).spec_limit() + 1
                    &&& c.0 + c.1 <= old(self).bytes().len()
                    &&& final(self).spec_limit() == old(self).spec_limit() + 1 + c.1
                },
                Err(e) => {
                    &&& e == SbeErr::BufferOverrun
                    &&& *final(self) == *old(self)
                    &&& (old(self).spec_limit() + 1 > old(self).bytes().len()
                        || old(self).spec_limit() + 1 + old(self).bytes()[old(self).spec_limit()]
                            > old(self).bytes().len())
                },
            },
    {
        let limit = self.limit;
        let n: usize = self.buf.data.len();
        if limit >= n {
            return Err(SbeErr::BufferOverrun);
        }
        let data_length = self.get_u8_at(limit) as usize;
        if n - limit - 1 < data_length {
            return Err(SbeErr::BufferOverrun);
        }
        self.limit = limit + 1 + data_length;
        Ok((limit + 1, data_length))
    }

    /// The payload bytes of a previously decoded 'reject_reason' field, addressed
    /// by the coordinates its decoder returned.
    pub fn reject_reason_slice(&self, coordinates: (usize, usize)) -> (r: &[u8])
        requires
            coordinates.0 + coordinates.1 <= self.bytes().len(),
        ensures
            r@ == self.bytes().subrange(
                coordinates.0 as int,
                coordinates.0 + coordinates.1,
            ),
    {
        self.buf.get_slice_at(coordinates.0, coordinates.1)
    }
}

/// Decodes the repeating 'orders' group: reads the dimension header at
/// the parent's limit, then walks the elements with `advance`.
pub struct OrdersDecoder<P> {
    pub parent: Option<P>,
    pub block_length: usize,
    pub count: u16,
    pub index: usize,
    pub offset: usize,
}

impl<P> Default for OrdersDecoder<P> {
    fn default() -> (r: OrdersDecoder<P>)
        ensures
            r.parent is None,
            r.count == 0,
    {
        OrdersDecoder { parent: None, block_length: 0, count: 0, index: 0, offset: 0 }
    }
}

impl<P: Decoder> Reader for OrdersDecoder<P> {
    open spec fn bytes(&self) -> Seq<u8> {
        match self.parent {
            Some(p) => p.bytes(),
            None => Seq::empty(),
        }
    }

    open spec fn readable(&self) -> bool {
        match self.parent {
            Some(p) => p.readable(),
            None => false,
        }
    }

    fn buf_len(&self) -> (r: usize) {
        match &self.parent {
            Some(p) => p.buf_len(),
            None => unreached(),
        }
    }

    fn get_u8_at(&self, offset: usize) -> (r: u8) {
        match &self.parent {
            Some(p) => p.get_u8_at(offset),
            None => unreached(),
        }
    }

    fn get_slice_at(&self, offset: usize, len: usize) -> (r: &[u8]) {
        match &self.parent {
            Some(p) => p.get_slice_at(offset, len),
            None => unreached(),
        }
    }
}

impl<P: Decoder> Decoder for OrdersDecoder<P> {
    open spec fn spec_limit(&self) -> int {
        match self.parent {
            Some(p) => p.spec_limit(),
            None => 0,
        }
    }

    open spec fn same_frame(&self, other: &Self) -> bool {
        &&& match (self.parent, other.parent) {
            (Some(p), Some(q)) => p.same_frame(&q),
            (None, None) => true,
            _ => false,
        }
        &&& other.block_length == self.block_length
        &&& other.count == self.count
        &&& other.index == self.index
        &&& other.offset == self.offset
    }

    proof fn lemma_frame_refl(&self) {
        match self.parent {
            Some(p) => p.lemma_frame_refl(),
            None => {},
        }
    }

    proof fn lemma_frame_trans(&self, b: &Self, c: &Self) {
        match (self.parent, b.parent, c.parent) {
            (Some(p), Some(q), Some(s)) => p.lemma_frame_trans(&q, &s),
            _ => {},
        }
    }

    proof fn lemma_frame_props(&self, other: &Self) {
        match (self.parent, other.parent) {
            (Some(p), Some(q)) => p.lemma_frame_props(&q),
            _ => {},
        }
    }

    fn get_limit(&self) -> (r: usize) {
        match &self.parent {
            Some(p) => p.get_limit(),
            None => unreached(),
        }
    }

    fn set_limit(&mut self, limit: usize) {
        match &mut self.parent {
            Some(p) => p.set_limit(limit),
            None => proof { assert(false); },
        }
    }
}

impl<P: Decoder> OrdersDecoder<P> {
    /// The group still holds its parent codec.
    pub open spec fn has_parent(&self) -> bool {
        self.parent is Some
    }

    /// The element index the cursor sits on; `-1` before the first
    /// `advance`.
    pub open spec fn index_model(&self) -> int {
        if self.index == usize::MAX {
            -1
        } else {
            self.index as int
        }
    }

    /// The cursor is positioned on an element.
    pub open spec fn in_element(&self) -> bool {
        self.index != usize::MAX
    }

    /// While a parent is held: it is readable, its limit lies inside the
    /// buffer, and any current element's block lies below the limit.
    pub open spec fn wf(&self) -> bool {
        match self.parent {
            Some(p) => {
                &&& p.readable()
                &&& p.spec_limit() <= p.bytes().len()
                &&& (self.index != usize::MAX ==> {
                    &&& (self.index as int) < self.count as int
                    &&& self.offset + self.block_length <= p.spec_limit()
                })
            },
            None => true,
        }
    }

    /// Reads the group's dimension header at the parent's limit and
    /// advances the limit past it; fails when the header lies outside
    /// the buffer.
    pub fn wrap(self, parent: P) -> (r: SbeResult<Self>)
        requires
            parent.readable(),
        ensures
            match r {
                Ok(g) => {
                    &&& parent.spec_limit() + 4 <= parent.bytes().len()
                    &&& g.wf()
                    &&& g.has_parent()
                    &&& g.bytes() == parent.bytes()
                    &&& g.block_length == spec_u16_from_le_bytes(
                        parent.bytes().subrange(parent.spec_limit(), parent.spec_limit() + 2),
                    ) as usize
                    &&& g.count == spec_u16_from_le_bytes(
                        parent.bytes().subrange(parent.spec_limit() + 2, parent.spec_limit() + 4),
                    )
                    &&& g.index_model() == -1
                    &&& g.spec_limit() == parent.spec_limit() + 4
                    &&& parent.same_frame(&g.parent->0)
                },
                Err(e) => {
                    &&& e == SbeErr::BufferOverrun
                    &&& parent.spec_limit() + 4 > parent.bytes().len()
                },
            },
    {
        let mut p = parent;
        let initial_offset = p.get_limit();
        let n: usize = p.buf_len();
        if initial_offset > n || n - initial_offset < 4 {
            return Err(SbeErr::BufferOverrun);
        }
        let block_length = p.get_u16_at(initial_offset) as usize;
        let count = p.get_u16_at(initial_offset + 2);
        p.set_limit(initial_offset + 4);
        Ok(OrdersDecoder {
            parent: Some(p),
            block_length,
            count,
            index: usize::MAX,
            offset: 0,
        })
    }

    /// Releases and returns the parent codec; every later group
    /// operation reports that the parent is gone.
    pub fn parent(&mut self) -> (r: SbeResult<P>)
        ensures
            final(self).parent is None,
            final(self).block_length == old(self).block_length,
            final(self).count == old(self).count,
            final(self).index == old(self).index,
            final(self).offset == old(self).offset,
            match r {
                Ok(p) => old(self).parent == Some(p),
                Err(e) => e == SbeErr::ParentNotSet && old(self).parent is None,
            },
    {
        match self.parent.take() {
            Some(p) => Ok(p),
            None => Err(SbeErr::ParentNotSet),
        }
    }

    /// The element count the dimension header declared.
    pub fn count(&self) -> (r: u16)
        ensures
            r == self.count,
    {
        self.count
    }

    /// Moves the cursor to the next element, whose fixed block starts at
    /// the shared limit; the limit advances past it. Fails once the
    /// parent has been released; while the parent is held it yields the
    /// new index, or `None` once all `count` elements have been visited,
    /// the `count + 1`-th call always yielding `None`.
    pub fn advance(&mut self) -> (r: SbeResult<Option<usize>>)
        requires
            old(self).wf(),
        ensures
            final(self).wf(),
            final(self).count == old(self).count,
            final(self).block_length == old(self).block_length,
            match r {
                Ok(opt) => {
                    &&& old(self).has_parent()
                    &&& match group_step(old(self).index_model(), old(self).count as int) {
                        Some(i) => {
                            &&& opt == Some(i as usize)
                            &&& final(self).has_parent()
                            &&& final(self).index_model() == i
                            &&& final(self).offset == old(self).spec_limit()
                            &&& final(self).bytes() == old(self).bytes()
                            &&& final(self).spec_limit() == old(self).spec_limit()
                                + old(self).block_length
                            &&& old(self).parent->0.same_frame(&final(self).parent->0)
                        },
                        None => opt is None && *final(self) == *old(self),
                    }
                },
                Err(e) => {
                    ||| (e == SbeErr::ParentNotSet && !old(self).has_parent()
                        && *final(self) == *old(self))
                    ||| (e == SbeErr::BufferOverrun && old(self).has_parent()
                        && group_step(old(self).index_model(), old(self).count as int) is Some
                        && old(self).spec_limit() + old(self).block_length
                            > old(self).bytes().len()
                        && *final(self) == *old(self))
                },
            },
    {
        if self.parent.is_none() {
            return Err(SbeErr::ParentNotSet);
        }
        let index: usize = if self.index == usize::MAX {
            0
        } else {
            self.index + 1
        };
        if index >= self.count as usize {
            return Ok(None);
        }
        match &mut self.parent {
            Some(p) => {
                let limit = p.get_limit();
                let n: usize = p.buf_len();
                if limit > n || n - limit < self.block_length {
                    return Err(SbeErr::BufferOverrun);
                }
                p.set_limit(limit + self.block_length);
                self.offset = limit;
                self.index = index;
                Ok(Some(index))
            },
            None => Err(SbeErr::ParentNotSet),
        }
    }

    /// Reads the 'order_id' field (i64, block offset 0).
    pub fn order_id(&self) -> (r: SbeResult<i64>)
        requires
            self.wf(),
            self.has_parent() ==> self.in_element(),
        ensures
            match r {
                Ok(v) => {
                    &&& 8 <= self.block_length
                    &&& v == spec_i64_from_le_bytes(self.bytes().subrange(self.offset as int, self.offset + 8))
                },
                Err(e) => {
                    ||| (e == SbeErr::ParentNotSet && !self.has_parent())
                    ||| (e == SbeErr::BufferOverrun && self.has_parent() && self.block_length < 8)
                },
            },
    {
        if self.parent.is_none() {
            return Err(SbeErr::ParentNotSet);
        }
        if self.block_length < 8 {
            return Err(SbeErr::BufferOverrun);
        }
        let n: usize = self.buf_len();
        assert(self.offset + self.block_length <= n);
        Ok(self.get_i64_at(self.offset))
    }

    /// Consumes the variable-length 'symbol' field of the current element at
    /// the shared limit and returns the coordinates (start, length) of its
    /// payload within the buffer.
    pub fn symbol_decoder(&mut self) -> (r: SbeResult<(usize, usize)>)
        requires
            old(self).wf(),
        ensures
            final(self).wf(),
            final(self).bytes() == old(self).bytes(),
            old(self).same_frame(final(self)),
            match r {
                Ok(c) => {
                    &&& old(self).has_parent()
                    &&& old(self).spec_limit() + 1 <= old(self).bytes().len()
                    &&& c.1 == old(self).bytes()[old(self).spec_limit()]
                    &&& c.0 == old(self).spec_limit() + 1
                    &&& c.0 + c.1 <= old(self).bytes().len()
                    &&& final(self).spec_limit() == old(self).spec_limit() + 1 + c.1
                },
                Err(e) => {
                    ||| (e == SbeErr::ParentNotSet && !old(self).has_parent()
                        && *final(self) == *old(self))
                    ||| (e == SbeErr::BufferOverrun && old(self).has_parent()
                        && *final(self) == *old(self)
                        && (old(self).spec_limit() + 1 > old(self).bytes().len()
                            || old(self).spec_limit() + 1
                                + old(self).bytes()[old(self).spec_limit()]
                                > old(self).bytes().len()))
                },
            },
    {
        proof {
            self.lemma_frame_refl();
        }
        if self.parent.is_none() {
            return Err(SbeErr::ParentNotSet);
        }
        let limit = self.get_limit();
        let n: usize = self.buf_len();
        if limit >= n {
            return Err(SbeErr::BufferOverrun);
        }
        let data_length = self.get_u8_at(limit) as usize;
        if n - limit - 1 < data_length {
            return Err(SbeErr::BufferOverrun);
        }
        self.set_limit(limit + 1 + data_length);
        Ok((limit + 1, data_length))
    }

    /// The payload bytes of a previously decoded 'symbol' field, addressed
    /// by the coordinates its decoder returned; fails once the parent has
    /// been released.
    pub fn symbol_slice(&self, coordinates: (usize, usize)) -> (r: SbeResult<&[u8]>)
        requires
            self.wf(),
            coordinates.0 + coordinates.1 <= self.bytes().len(),
        ensures
            match r {
                Ok(s) => self.has_parent() && s@ == self.bytes().subrange(
                    coordinates.0 as int,
                    coordinates.0 + coordinates.1,
                ),
                Err(e) => e == SbeErr::ParentNotSet && !self.has_parent(),
            },
    {
        if self.parent.is_none() {
            return Err(SbeErr::ParentNotSet);
        }
        Ok(self.get_slice_at(coordinates.0, coordinates.1))
    }

    /// Consumes the variable-length 'client_order_id' field of the current element at
    /// the shared limit and returns the coordinates (start, length) of its
    /// payload within the buffer.
    pub fn client_order_id_decoder(&mut self) -> (r: SbeResult<(usize, usize)>)
        requires
            old(self).wf(),
        ensures
            final(self).wf(),
            final(self).bytes() == old(self).bytes(),
            old(self).same_frame(final(self)),
            match r {
                Ok(c) => {
                    &&& old(self).has_parent()
                    &&& old(self).spec_limit() + 1 <= old(self).bytes().len()
                    &&& c.1 == old(self).bytes()[old(self).spec_limit()]
                    &&& c.0 == old(self).spec_limit() + 1
                    &&& c.0 + c.1 <= old(self).bytes().len()
                    &&& final(self).spec_limit() == old(self).spec_limit() + 1 + c.1
                },
                Err(e) => {
                    ||| (e == SbeErr::ParentNotSet && !old(self).has_parent()
                        && *final(self) == *old(self))
                    ||| (e == SbeErr::BufferOverrun && old(self).has_parent()
                        && *final(self) == *old(self)
                        && (old(self).spec_limit() + 1 > old(self).bytes().len()
                            || old(self).spec_limit() + 1
                                + old(self).bytes()[old(self).spec_limit()]
                                > old(self).bytes().len()))
                },
            },
    {
        proof {
            self.lemma_frame_refl();
        }
        if self.parent.is_none() {
            return Err(SbeErr::ParentNotSet);
        }
        let limit = self.get_limit();
        let n: usize = self.buf_len();
        if limit >= n {
            return Err(SbeErr::BufferOverrun);
        }
        let data_length = self.get_u8_at(limit) as usize;
        if n - limit - 1 < data_length {
            return Err(SbeErr::BufferOverrun);
        }
        self.set_limit(limit + 1 + data_length);
        Ok((limit + 1, data_length))
    }

    /// The payload bytes of a previously decoded 'client_order_id' field, addressed
    /// by the coordinates its decoder returned; fails once the parent has
    /// been released.
    pub fn client_order_id_slice(&self, coordinates: (usize, usize)) -> (r: SbeResult<&[u8]>)
        requires
            self.wf(),
            coordinates.0 + coordinates.1 <= self.bytes().len(),
        ensures
            match r {
                Ok(s) => self.has_parent() && s@ == self.bytes().subrange(
                    coordinates.0 as int,
                    coordinates.0 + coordinates.1,
                ),
                Err(e) => e == SbeErr::ParentNotSet && !self.has_parent(),
            },
    {
        if self.parent.is_none() {
            return Err(SbeErr::ParentNotSet);
        }
        Ok(self.get_slice_at(coordinates.0, coordinates.1))
    }
}

} // verus!
