//! Building a datagram: headers in order, then the payload.
use crate::errors::Fault;
use crate::packet::base_header::{
    base_header_bytes, decode_base_header, lemma_base_header_bytes_round_trip, BaseHeader,
};
use crate::packet::bytes::{
    append_bytes, be_u64_bytes, be_u64_value, boxed, lemma_be_u64_round_trip,
};
use crate::packet::enums::PacketType;
use crate::packet::packet_reader::{decode_id_at, peer_id_offset, session_offset};
use crate::packet::session_header::SessionHeader;
use crate::protocol_version::version_crc;
use vstd::prelude::*;

verus! {

/// A datagram of type `t` in session `session` carrying `payload`: base
/// header, session header, payload.
pub open spec fn frame(t: PacketType, session: u64, payload: Seq<u8>) -> Seq<u8> {
    base_header_bytes(version_crc(), t) + be_u64_bytes(session) + payload
}

/// Builder that could be used to construct an outgoing packet.
pub struct OutgoingPacketBuilder<'p> {
    header: Vec<u8>,
    payload: &'p [u8],
}

impl<'p> OutgoingPacketBuilder<'p> {
    /// The header bytes written so far.
    pub closed spec fn spec_header(&self) -> Seq<u8> {
        self.header@
    }

    /// The payload that will follow the headers.
    pub closed spec fn spec_payload(&self) -> Seq<u8> {
        self.payload@
    }

    /// Construct a new builder from the given `payload`.
    pub fn new(payload: &'p [u8]) -> (r: OutgoingPacketBuilder<'p>)
        ensures
            r.spec_header() == Seq::<u8>::empty(),
            r.spec_payload() == payload@,
    {
        OutgoingPacketBuilder { header: Vec::new(), payload }
    }

    /// Adds the `SessionHeader` to the header.
    pub fn with_session_header(self, session_id: u64) -> (r: Self)
        ensures
            r.spec_header() == self.spec_header() + be_u64_bytes(session_id),
            r.spec_payload() == self.spec_payload(),
    {
        let mut this = self;
        let header = SessionHeader::new(session_id);
        let _ = header.parse(&mut this.header);
        this
    }

    /// Adds the [`BaseHeader`](./header/base_header) to the header.
    pub fn with_default_header(self, packet_type: PacketType) -> (r: Self)
        ensures
            r.spec_header() == self.spec_header() + base_header_bytes(version_crc(), packet_type),
            r.spec_payload() == self.spec_payload(),
    {
        let mut this = self;
        let header = BaseHeader::new(packet_type);
        let _ = header.parse(&mut this.header);
        this
    }

    /// Constructs an `OutgoingPacket` from the contents constructed with this builder.
    pub fn build(self) -> (r: OutgoingPacket<'p>)
        ensures
            r.spec_header() == self.spec_header(),
            r.spec_payload() == self.spec_payload(),
    {
        OutgoingPacket { header: self.header, payload: self.payload }
    }
}

/// Packet that that contains data which is ready to be sent to a remote endpoint.
#[derive(Debug)]
pub struct OutgoingPacket<'p> {
    header: Vec<u8>,
    payload: &'p [u8],
}

impl<'p> OutgoingPacket<'p> {
    /// The header bytes.
    pub closed spec fn spec_header(&self) -> Seq<u8> {
        self.header@
    }

    /// The payload that follows the headers.
    pub closed spec fn spec_payload(&self) -> Seq<u8> {
        self.payload@
    }

    /// Return the contents of this packet; the content includes the header and payload bytes.
    pub fn contents(&self) -> (r: Box<[u8]>)
        ensures
            r@ == self.spec_header() + self.spec_payload(),
    {
        let mut bytes: Vec<u8> = Vec::new();
        append_bytes(&mut bytes, self.header.as_slice());
        append_bytes(&mut bytes, self.payload);
        boxed(bytes)
    }
}

/// The contents of a packet built with a base header of type `t`, then a
/// session header `session`, decode to that type, the current protocol
/// version, that session, and the payload unchanged.
pub proof fn lemma_outgoing_decodes(packet: OutgoingPacket, t: PacketType, session: u64)
    requires
        packet.spec_header() == base_header_bytes(version_crc(), t) + be_u64_bytes(session),
    ensures
        decode_base_header(packet.spec_header() + packet.spec_payload()) == Ok::<
            (u16, PacketType),
            Fault,
        >((version_crc(), t)),
        decode_id_at(
            packet.spec_header() + packet.spec_payload(),
            session_offset(),
            Fault::MissingSessionHeader,
        ) == Ok::<u64, Fault>(session),
        (packet.spec_header() + packet.spec_payload()).subrange(
            11,
            (packet.spec_header() + packet.spec_payload()).len() as int,
        ) == packet.spec_payload(),
{
    let p = packet.spec_payload();
    let c = packet.spec_header() + p;
    assert(c == frame(t, session, p));
    assert(c == base_header_bytes(version_crc(), t) + (be_u64_bytes(session) + p));
    lemma_base_header_bytes_round_trip(version_crc(), t, be_u64_bytes(session) + p);
    assert(c.subrange(3, 11) == be_u64_bytes(session));
    lemma_be_u64_round_trip(session, Seq::empty());
    assert(be_u64_bytes(session) + Seq::<u8>::empty() == be_u64_bytes(session));
    assert(c.subrange(11, c.len() as int) == p);
}

/// A frame decodes to its type and the current protocol version, its
/// session, and, where the payload starts with eight bytes, to their value as
/// the peer id; the payload follows the session header.
pub proof fn lemma_frame_decodes(t: PacketType, session: u64, payload: Seq<u8>)
    ensures
        frame(t, session, payload).len() == 11 + payload.len(),
        decode_base_header(frame(t, session, payload)) == Ok::<(u16, PacketType), Fault>(
            (version_crc(), t),
        ),
        decode_id_at(frame(t, session, payload), session_offset(), Fault::MissingSessionHeader)
            == Ok::<u64, Fault>(session),
        frame(t, session, payload).subrange(11, 11 + payload.len() as int) == payload,
        payload.len() >= 8 ==> decode_id_at(
            frame(t, session, payload),
            peer_id_offset(),
            Fault::MissingPeerIdHeader,
        ) == Ok::<u64, Fault>(be_u64_value(payload)),
{
    let c = frame(t, session, payload);
    assert(c == base_header_bytes(version_crc(), t) + (be_u64_bytes(session) + payload));
    lemma_base_header_bytes_round_trip(version_crc(), t, be_u64_bytes(session) + payload);
    assert(c.subrange(3, 11) == be_u64_bytes(session));
    lemma_be_u64_round_trip(session, Seq::empty());
    assert(be_u64_bytes(session) + Seq::<u8>::empty() == be_u64_bytes(session));
    assert(c.subrange(11, c.len() as int) == payload);
    if payload.len() >= 8 {
        assert(c.subrange(11, 19) == payload.subrange(0, 8));
        assert(be_u64_value(payload.subrange(0, 8)) == be_u64_value(payload));
    }
}

} // verus!
