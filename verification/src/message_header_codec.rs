//! The fixed-size message envelope that precedes every message body:
//! block length, template id, schema id and schema version, four
//! little-endian `u16` fields.

use vstd::prelude::*;
use vstd::bytes::spec_u16_from_le_bytes;
use vstd::bytes::spec_u16_to_le_bytes;
use crate::codec::Encoder;
use crate::codec::Reader;
use crate::wire::splice;
use crate::SbeErr;
use crate::SbeResult;

verus! {

broadcast use vstd::seq_lib::group_seq_lib_default;

/// Total width of the envelope in bytes.
pub const ENCODED_LENGTH: usize = 8;

/// The byte image of a whole envelope.
pub open spec fn header_image(
    block_length: u16,
    template_id: u16,
    schema_id: u16,
    version: u16,
) -> Seq<u8> {
    spec_u16_to_le_bytes(block_length) + spec_u16_to_le_bytes(template_id) + spec_u16_to_le_bytes(
        schema_id,
    ) + spec_u16_to_le_bytes(version)
}

/// Writes the four envelope fields at a fixed offset of the parent
/// encoder's buffer, then hands the parent back through `parent`.
pub struct MessageHeaderEncoder<P> {
    pub parent: Option<P>,
    pub offset: usize,
}

impl<P> Default for MessageHeaderEncoder<P> {
    fn default() -> (r: MessageHeaderEncoder<P>)
        ensures
            r.parent is None,
            r.offset == 0,
    {
        MessageHeaderEncoder { parent: None, offset: 0 }
    }
}

impl<P: Encoder> MessageHeaderEncoder<P> {
    /// The codec is usable while it still holds a writable parent whose
    /// buffer has room for the whole envelope.
    pub open spec fn wf(&self) -> bool {
        match self.parent {
            Some(p) => p.writable() && self.offset + ENCODED_LENGTH <= p.bytes().len(),
            None => true,
        }
    }

    /// Takes ownership of the parent and positions the envelope at
    /// `offset`; fails without consuming state changes when the envelope
    /// would not fit.
    pub fn wrap(self, parent: P, offset: usize) -> (r: SbeResult<Self>)
        requires
            parent.writable(),
        ensures
            match r {
                Ok(h) => {
                    &&& offset + ENCODED_LENGTH <= parent.bytes().len()
                    &&& h.parent == Some(parent)
                    &&& h.offset == offset
                    &&& h.wf()
                },
                Err(e) => {
                    &&& e == SbeErr::BufferOverrun
                    &&& offset + ENCODED_LENGTH > parent.bytes().len()
                },
            },
    {
        let n: usize = parent.buf_len();
        if offset > n || n - offset < ENCODED_LENGTH {
            return Err(SbeErr::BufferOverrun);
        }
        Ok(Self { parent: Some(parent), offset })
    }

    /// Releases and returns the parent encoder.
    pub fn parent(&mut self) -> (r: SbeResult<P>)
        ensures
            final(self).parent is None,
            final(self).offset == old(self).offset,
            match r {
                Ok(p) => old(self).parent == Some(p),
                Err(e) => e == SbeErr::ParentNotSet && old(self).parent is None,
            },
    {
        match self.parent.take() {
            Some(p) => Ok(p),
            None => Err(SbeErr::ParentNotSet),
        }
    }

    /// Writes the envelope's block-length field.
    pub fn block_length(&mut self, value: u16) -> (r: SbeResult<()>)
        requires
            old(self).wf(),
        ensures
            final(self).wf(),
            final(self).offset == old(self).offset,
            match r {
                Ok(()) => {
                    &&& old(self).parent is Some
                    &&& final(self).parent is Some
                    &&& final(self).parent->0.bytes() == splice(
                        old(self).parent->0.bytes(),
                        old(self).offset as int,
                        spec_u16_to_le_bytes(value),
                    )
                    &&& final(self).parent->0.spec_limit() == old(self).parent->0.spec_limit()
                    &&& old(self).parent->0.same_frame(&final(self).parent->0)
                },
                Err(e) => e == SbeErr::ParentNotSet && old(self).parent is None && *final(self)
                    == *old(self),
            },
    {
        let offset = self.offset;
        match &mut self.parent {
            Some(p) => {
                let n: usize = p.buf_len();
                assert(offset + 2 <= n);
                p.put_u16_at(offset, value);
                Ok(())
            },
            None => Err(SbeErr::ParentNotSet),
        }
    }

    /// Writes the envelope's template-id field.
    pub fn template_id(&mut self, value: u16) -> (r: SbeResult<()>)
        requires
            old(self).wf(),
        ensures
            final(self).wf(),
            final(self).offset == old(self).offset,
            match r {
                Ok(()) => {
                    &&& old(self).parent is Some
                    &&& final(self).parent is Some
                    &&& final(self).parent->0.bytes() == splice(
                        old(self).parent->0.bytes(),
                        old(self).offset + 2,
                        spec_u16_to_le_bytes(value),
                    )
                    &&& final(self).parent->0.spec_limit() == old(self).parent->0.spec_limit()
                    &&& old(self).parent->0.same_frame(&final(self).parent->0)
                },
                Err(e) => e == SbeErr::ParentNotSet && old(self).parent is None && *final(self)
                    == *old(self),
            },
    {
        let offset = self.offset;
        match &mut self.parent {
            Some(p) => {
                let n: usize = p.buf_len();
                assert(offset + 4 <= n);
                p.put_u16_at(offset + 2, value);
                Ok(())
            },
            None => Err(SbeErr::ParentNotSet),
        }
    }

    /// Writes the envelope's schema-id field.
    pub fn schema_id(&mut self, value: u16) -> (r: SbeResult<()>)
        requires
            old(self).wf(),
        ensures
            final(self).wf(),
            final(self).offset == old(self).offset,
            match r {
                Ok(()) => {
                    &&& old(self).parent is Some
                    &&& final(self).parent is Some
                    &&& final(self).parent->0.bytes() == splice(
                        old(self).parent->0.bytes(),
                        old(self).offset + 4,
                        spec_u16_to_le_bytes(value),
                    )
                    &&& final(self).parent->0.spec_limit() == old(self).parent->0.spec_limit()
                    &&& old(self).parent->0.same_frame(&final(self).parent->0)
                },
                Err(e) => e == SbeErr::ParentNotSet && old(self).parent is None && *final(self)
                    == *old(self),
            },
    {
        let offset = self.offset;
        match &mut self.parent {
            Some(p) => {
                let n: usize = p.buf_len();
                assert(offset + 6 <= n);
                p.put_u16_at(offset + 4, value);
                Ok(())
            },
            None => Err(SbeErr::ParentNotSet),
        }
    }

    /// Writes the envelope's schema-version field.
    pub fn version(&mut self, value: u16) -> (r: SbeResult<()>)
        requires
            old(self).wf(),
        ensures
            final(self).wf(),
            final(self).offset == old(self).offset,
            match r {
                Ok(()) => {
                    &&& old(self).parent is Some
                    &&& final(self).parent is Some
                    &&& final(self).parent->0.bytes() == splice(
                        old(self).parent->0.bytes(),
                        old(self).offset + 6,
                        spec_u16_to_le_bytes(value),
                    )
                    &&& final(self).parent->0.spec_limit() == old(self).parent->0.spec_limit()
                    &&& old(self).parent->0.same_frame(&final(self).parent->0)
                },
                Err(e) => e == SbeErr::ParentNotSet && old(self).parent is None && *final(self)
                    == *old(self),
            },
    {
        let offset = self.offset;
        match &mut self.parent {
            Some(p) => {
                let n: usize = p.buf_len();
                assert(offset + 8 <= n);
                p.put_u16_at(offset + 6, value);
                Ok(())
            },
            None => Err(SbeErr::ParentNotSet),
        }
    }
}

/// Reads the four envelope fields at a fixed offset of the parent reader's
/// buffer.
pub struct MessageHeaderDecoder<P> {
    pub parent: Option<P>,
    pub offset: usize,
}

impl<P> Default for MessageHeaderDecoder<P> {
    fn default() -> (r: MessageHeaderDecoder<P>)
        ensures
            r.parent is None,
            r.offset == 0,
    {
        MessageHeaderDecoder { parent: None, offset: 0 }
    }
}

impl<P: Reader> MessageHeaderDecoder<P> {
    pub open spec fn wf(&self) -> bool {
        match self.parent {
            Some(p) => p.readable() && self.offset + ENCODED_LENGTH <= p.bytes().len(),
            None => true,
        }
    }

    /// The bytes underneath the parent reader; arbitrary while no parent is
    /// held.
    pub open spec fn parent_bytes(&self) -> Seq<u8> {
        match self.parent {
            Some(p) => p.bytes(),
            None => Seq::empty(),
        }
    }

    /// The envelope's block-length field as decoded from the buffer.
    pub open spec fn spec_block_length(&self) -> u16 {
        spec_u16_from_le_bytes(self.parent_bytes().subrange(self.offset as int, self.offset + 2))
    }

    /// The envelope's template-id field as decoded from the buffer.
    pub open spec fn spec_template_id(&self) -> u16 {
        spec_u16_from_le_bytes(
            self.parent_bytes().subrange(self.offset + 2, self.offset + 4),
        )
    }

    /// The envelope's schema-id field as decoded from the buffer.
    pub open spec fn spec_schema_id(&self) -> u16 {
        spec_u16_from_le_bytes(
            self.parent_bytes().subrange(self.offset + 4, self.offset + 6),
        )
    }

    /// The envelope's schema-version field as decoded from the buffer.
    pub open spec fn spec_version(&self) -> u16 {
        spec_u16_from_le_bytes(
            self.parent_bytes().subrange(self.offset + 6, self.offset + 8),
        )
    }

    /// Takes ownership of the parent and positions the envelope at
    /// `offset`; fails when the buffer is too short to hold an envelope
    /// there.
    pub fn wrap(self, parent: P, offset: usize) -> (r: SbeResult<Self>)
        requires
            parent.readable(),
        ensures
            match r {
                Ok(h) => {
                    &&& offset + ENCODED_LENGTH <= parent.bytes().len()
                    &&& h.parent == Some(parent)
                    &&& h.offset == offset
                    &&& h.wf()
                },
                Err(e) => {
                    &&& e == SbeErr::BufferOverrun
                    &&& offset + ENCODED_LENGTH > parent.bytes().len()
                },
            },
    {
        let n: usize = parent.buf_len();
        if offset > n || n - offset < ENCODED_LENGTH {
            return Err(SbeErr::BufferOverrun);
        }
        Ok(Self { parent: Some(parent), offset })
    }

    /// Releases and returns the parent reader.
    pub fn parent(&mut self) -> (r: SbeResult<P>)
        ensures
            final(self).parent is None,
            final(self).offset == old(self).offset,
            match r {
                Ok(p) => old(self).parent == Some(p),
                Err(e) => e == SbeErr::ParentNotSet && old(self).parent is None,
            },
    {
        match self.parent.take() {
            Some(p) => Ok(p),
            None => Err(SbeErr::ParentNotSet),
        }
    }

    /// Reads the envelope's block-length field.
    pub fn block_length(&self) -> (r: SbeResult<u16>)
        requires
            self.wf(),
        ensures
            match r {
                Ok(v) => self.parent is Some && v == self.spec_block_length(),
                Err(e) => e == SbeErr::ParentNotSet && self.parent is None,
            },
    {
        match &self.parent {
            Some(p) => {
                let n: usize = p.buf_len();
                assert(self.offset + 2 <= n);
                Ok(p.get_u16_at(self.offset))
            },
            None => Err(SbeErr::ParentNotSet),
        }
    }

    /// Reads the envelope's template-id field.
    pub fn template_id(&self) -> (r: SbeResult<u16>)
        requires
            self.wf(),
        ensures
            match r {
                Ok(v) => self.parent is Some && v == self.spec_template_id(),
                Err(e) => e == SbeErr::ParentNotSet && self.parent is None,
            },
    {
        match &self.parent {
            Some(p) => {
                let n: usize = p.buf_len();
                assert(self.offset + 4 <= n);
                Ok(p.get_u16_at(self.offset + 2))
            },
            None => Err(SbeErr::ParentNotSet),
        }
    }

    /// Reads the envelope's schema-id field.
    pub fn schema_id(&self) -> (r: SbeResult<u16>)
        requires
            self.wf(),
        ensures
            match r {
                Ok(v) => self.parent is Some && v == self.spec_schema_id(),
                Err(e) => e == SbeErr::ParentNotSet && self.parent is None,
            },
    {
        match &self.parent {
            Some(p) => {
                let n: usize = p.buf_len();
                assert(self.offset + 6 <= n);
                Ok(p.get_u16_at(self.offset + 4))
            },
            None => Err(SbeErr::ParentNotSet),
        }
    }

    /// Reads the envelope's schema-version field.
    pub fn version(&self) -> (r: SbeResult<u16>)
        requires
            self.wf(),
        ensures
            match r {
                Ok(v) => self.parent is Some && v == self.spec_version(),
                Err(e) => e == SbeErr::ParentNotSet && self.parent is None,
            },
    {
        match &self.parent {
            Some(p) => {
                let n: usize = p.buf_len();
                assert(self.offset + 8 <= n);
                Ok(p.get_u16_at(self.offset + 6))
            },
            None => Err(SbeErr::ParentNotSet),
        }
    }
}

} // verus!
