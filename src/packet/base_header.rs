//! The header at the front of every datagram: protocol fingerprint and type.
use crate::errors::{agrees, ErrorKind, Fault, Result};
use crate::net::constants::BASE_HEADER_SIZE;
use crate::packet::bytes::{
    append_bytes, be_u16_bytes, be_u16_value, lemma_be_u16_round_trip, read_be_u16, write_be_u16,
};
use crate::packet::enums::{
    lemma_packet_type_round_trip, packet_type_code, packet_type_of, PacketType,
};
use crate::packet::EnumConverter;
use crate::protocol_version::{version_crc, ProtocolVersion};
use vstd::prelude::*;

verus! {

/// The three bytes of a base header: the fingerprint big-endian, then the type.
pub open spec fn base_header_bytes(version: u16, t: PacketType) -> Seq<u8> {
    be_u16_bytes(version).push(packet_type_code(t))
}

/// The base header at the front of `s`, or why there is none.
pub open spec fn decode_base_header(s: Seq<u8>) -> core::result::Result<(u16, PacketType), Fault> {
    if s.len() < 3 {
        Err(Fault::MissingBaseHeader)
    } else {
        match packet_type_of(s[2]) {
            Some(t) => Ok((be_u16_value(s), t)),
            None => Err(Fault::UnknownPacketType),
        }
    }
}

/// This header will be included in each packet, and contains some basic information.
#[derive(Copy, Clone, Debug)]
pub struct BaseHeader {
    protocol_version: u16,
    packet_type: PacketType,
}

/// Decoding the three bytes of a version and a type, whatever follows them,
/// gives back the version and the type.
pub proof fn lemma_base_header_bytes_round_trip(version: u16, t: PacketType, rest: Seq<u8>)
    ensures
        decode_base_header(base_header_bytes(version, t) + rest) == Ok::<(u16, PacketType), Fault>(
            (version, t),
        ),
{
    let s = base_header_bytes(version, t) + rest;
    lemma_be_u16_round_trip(version, seq![packet_type_code(t)] + rest);
    assert(be_u16_bytes(version) + (seq![packet_type_code(t)] + rest) == s);
    lemma_packet_type_round_trip(t);
}

/// Decoding the encoding of a base header, whatever follows it, gives back
/// its protocol version and its packet type.
pub proof fn lemma_base_header_round_trip(header: BaseHeader, rest: Seq<u8>)
    ensures
        decode_base_header(
            base_header_bytes(header.spec_protocol_version(), header.spec_packet_type()) + rest,
        ) == Ok::<(u16, PacketType), Fault>(
            (header.spec_protocol_version(), header.spec_packet_type()),
        ),
{
    lemma_base_header_bytes_round_trip(header.spec_protocol_version(), header.spec_packet_type(), rest);
}

impl BaseHeader {
    /// The protocol fingerprint that the header carries.
    pub closed spec fn spec_protocol_version(&self) -> u16 {
        self.protocol_version
    }

    /// The packet type that the header carries.
    pub closed spec fn spec_packet_type(&self) -> PacketType {
        self.packet_type
    }

    /// Creates new header.
    pub fn new(packet_type: PacketType) -> (r: Self)
        ensures
            r.spec_protocol_version() == version_crc(),
            r.spec_packet_type() == packet_type,
    {
        BaseHeader { protocol_version: ProtocolVersion::get_crc16(), packet_type }
    }

    /// Returns the protocol version
    pub fn protocol_version(&self) -> (r: u16)
        ensures
            r == self.spec_protocol_version(),
    {
        self.protocol_version
    }

    /// Returns the PacketType
    pub fn packet_type(&self) -> (r: PacketType)
        ensures
            r == self.spec_packet_type(),
    {
        self.packet_type
    }

    /// Checks if the protocol version in the packet is a valid version
    pub fn is_current_protocol(&self) -> (r: bool)
        ensures
            r == (self.spec_protocol_version() == version_crc()),
    {
        ProtocolVersion::valid_version(self.protocol_version)
    }

    /// Writes the header at the end of `buffer`.
    pub fn parse(&self, buffer: &mut Vec<u8>) -> (r: Result<()>)
        ensures
            r is Ok,
            final(buffer)@ == old(buffer)@ + base_header_bytes(
                self.spec_protocol_version(),
                self.spec_packet_type(),
            ),
    {
        let version = write_be_u16(self.protocol_version);
        append_bytes(buffer, &version);
        buffer.push(self.packet_type.to_u8());
        Ok(())
    }

    /// Reads the header at the front of `buffer`.
    pub fn read(buffer: &[u8]) -> (r: Result<BaseHeader>)
        ensures
            agrees(
                r,
                decode_base_header(buffer@),
                |h: BaseHeader| (h.spec_protocol_version(), h.spec_packet_type()),
            ),
    {
        if buffer.len() < 3 {
            return Err(ErrorKind::CouldNotReadHeader("base".to_owned()));
        }
        let protocol_version = read_be_u16(buffer);
        match PacketType::try_from(buffer[2]) {
            Ok(packet_type) => Ok(BaseHeader { protocol_version, packet_type }),
            Err(e) => Err(e),
        }
    }

    /// Returns the size of this header.
    pub fn size() -> (r: u8)
        ensures
            r == BASE_HEADER_SIZE,
    {
        BASE_HEADER_SIZE
    }
}

impl Default for BaseHeader {
    fn default() -> (r: Self)
        ensures
            r.spec_protocol_version() == version_crc(),
            r.spec_packet_type() == PacketType::Data,
    {
        BaseHeader::new(PacketType::Data)
    }
}

} // verus!
