//! Positional reading of a received datagram.
use crate::errors::{agrees, ErrorKind, Fault, Result};
use crate::packet::base_header::{decode_base_header, BaseHeader};
use crate::packet::bytes::{be_u64_value, boxed};
use crate::packet::session_header::SessionHeader;
use vstd::prelude::*;
use vstd::slice::{slice_subrange, slice_to_vec};

verus! {

/// The id in the eight bytes of `s` that start at `pos`, or, where `s` ends
/// before them, the fault named `missing`.
pub open spec fn decode_id_at(s: Seq<u8>, pos: int, missing: Fault) -> core::result::Result<
    u64,
    Fault,
> {
    if pos + 8 <= s.len() {
        Ok(be_u64_value(s.subrange(pos, pos + 8)))
    } else {
        Err(missing)
    }
}

/// Where the session id stands: after the base header.
pub open spec fn session_offset() -> int {
    3
}

/// Where the peer id of a Connect packet stands: after the session id.
pub open spec fn peer_id_offset() -> int {
    11
}

/// Can be used to read the packet contents.
///
/// The reader keeps the position after the last header it read; the payload
/// is what follows it.
pub struct PacketReader<'s> {
    buffer: &'s [u8],
    position: u64,
}

impl<'s> PacketReader<'s> {
    /// The bytes being read.
    pub closed spec fn spec_buffer(&self) -> Seq<u8> {
        self.buffer@
    }

    /// The position after the last header read.
    pub closed spec fn spec_position(&self) -> int {
        self.position as int
    }

    /// Construct a new instance of `PacketReader`, the given `buffer` will be used to read information from.
    pub fn new(buffer: &'s [u8]) -> (r: PacketReader<'s>)
        ensures
            r.spec_buffer() == buffer@,
            r.spec_position() == 0,
    {
        PacketReader { buffer, position: 0 }
    }

    /// Reads the `BaseHeader` from the underlying buffer.
    ///
    /// # Remark
    /// - Will change the position to the location of `BaseHeader`
    pub fn read_base_header(&mut self) -> (r: Result<BaseHeader>)
        ensures
            final(self).spec_buffer() == old(self).spec_buffer(),
            final(self).spec_position() == if old(self).spec_buffer().len() >= 3 {
                3int
            } else {
                0int
            },
            agrees(
                r,
                decode_base_header(old(self).spec_buffer()),
                |h: BaseHeader| (h.spec_protocol_version(), h.spec_packet_type()),
            ),
    {
        self.position = 0;
        if self.can_read(BaseHeader::size()) {
            self.position = 3;
            BaseHeader::read(self.buffer)
        } else {
            Err(ErrorKind::CouldNotReadHeader("base".to_owned()))
        }
    }

    /// Reads the `SessionHeader` for session id from the underlying buffer.
    ///
    /// # Remark
    /// - Will change the position to the location of `SessionHeader`
    pub fn read_session_header(&mut self) -> (r: Result<SessionHeader>)
        ensures
            final(self).spec_buffer() == old(self).spec_buffer(),
            final(self).spec_position() == if session_offset() + 8 <= old(
                self,
            ).spec_buffer().len() {
                session_offset() + 8
            } else {
                session_offset()
            },
            agrees(
                r,
                decode_id_at(
                    old(self).spec_buffer(),
                    session_offset(),
                    Fault::MissingSessionHeader,
                ),
                |h: SessionHeader| h@,
            ),
    {
        self.session_header(3, "session id")
    }

    /// Reads the `SessionHeader` for peer id from the underlying buffer.
    ///
    /// # Remark
    /// - Will change the position to the location of `SessionHeader`
    pub fn read_id_header(&mut self) -> (r: Result<SessionHeader>)
        ensures
            final(self).spec_buffer() == old(self).spec_buffer(),
            final(self).spec_position() == if peer_id_offset() + 8 <= old(
                self,
            ).spec_buffer().len() {
                peer_id_offset() + 8
            } else {
                peer_id_offset()
            },
            agrees(
                r,
                decode_id_at(old(self).spec_buffer(), peer_id_offset(), Fault::MissingPeerIdHeader),
                |h: SessionHeader| h@,
            ),
    {
        self.session_header(11, "peer id")
    }

    /// Reads a `SessionHeader` at `pos`; where the buffer ends before it, the
    /// error names the header `msg`.
    pub fn session_header(&mut self, pos: u64, msg: &str) -> (r: Result<SessionHeader>)
        ensures
            final(self).spec_buffer() == old(self).spec_buffer(),
            final(self).spec_position() == if pos + 8 <= old(self).spec_buffer().len() {
                pos + 8
            } else {
                pos as int
            },
            pos + 8 <= old(self).spec_buffer().len() ==> (r matches Ok(h) && h@ == be_u64_value(
                old(self).spec_buffer().subrange(pos as int, pos + 8),
            )),
            pos + 8 > old(self).spec_buffer().len() ==> (r matches Err(
                ErrorKind::CouldNotReadHeader(m),
            ) && m@ == msg@),
    {
        self.position = pos;
        if self.can_read(SessionHeader::size()) {
            let len = self.buffer.len();
            assert(pos + 8 <= len);
            let start = pos as usize;
            let header = SessionHeader::read(slice_subrange(self.buffer, start, start + 8));
            self.position = pos + 8;
            header
        } else {
            Err(ErrorKind::CouldNotReadHeader(msg.to_owned()))
        }
    }

    /// Reads the payload` from the underlying buffer.
    ///
    /// # Remark
    /// - Notice that this will continue on the position of last read header;
    /// e.g. when reading `BaseHeader` the position of the underlying `Cursor` will be at the end where it left of,
    /// when calling this function afterward it will read all the bytes from there on.
    pub fn read_payload(&self) -> (r: Box<[u8]>)
        ensures
            r@ == if self.spec_position() <= self.spec_buffer().len() {
                self.spec_buffer().subrange(self.spec_position(), self.spec_buffer().len() as int)
            } else {
                Seq::empty()
            },
    {
        let len = self.buffer.len();
        let start = if self.position <= len as u64 {
            self.position as usize
        } else {
            len
        };
        boxed(slice_to_vec(slice_subrange(self.buffer, start, len)))
    }

    /// Checks if a given length of bytes could be read with the buffer.
    pub fn can_read(&self, length: u8) -> (r: bool)
        ensures
            r == (self.spec_position() + length <= self.spec_buffer().len()),
    {
        let len = self.buffer.len() as u64;
        self.position <= len && len - self.position >= length as u64
    }
}

} // verus!
