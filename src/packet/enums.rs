//! The packet type byte.
use crate::errors::{DecodingErrorKind, ErrorKind};
use crate::packet::EnumConverter;
use vstd::prelude::*;

verus! {

/// Id to identify a certain packet type.
#[derive(Copy, Clone, Debug, PartialOrd, PartialEq, Eq, Structural)]
pub enum PacketType {
    Data,
    Connect,
    Disconnect,
    Heartbeat,
}

/// The byte that stands for `t` on the wire.
pub open spec fn packet_type_code(t: PacketType) -> u8 {
    match t {
        PacketType::Data => 0,
        PacketType::Connect => 1,
        PacketType::Disconnect => 2,
        PacketType::Heartbeat => 3,
    }
}

/// The packet type that the byte `b` stands for, if any.
pub open spec fn packet_type_of(b: u8) -> Option<PacketType> {
    if b == 0 {
        Some(PacketType::Data)
    } else if b == 1 {
        Some(PacketType::Connect)
    } else if b == 2 {
        Some(PacketType::Disconnect)
    } else if b == 3 {
        Some(PacketType::Heartbeat)
    } else {
        None
    }
}

/// Every packet type comes back from its byte.
pub proof fn lemma_packet_type_round_trip(t: PacketType)
    ensures
        packet_type_of(packet_type_code(t)) == Some(t),
{
}

impl EnumConverter for PacketType {
    type Enum = PacketType;

    open spec fn spec_to_u8(&self) -> u8 {
        packet_type_code(*self)
    }

    fn to_u8(&self) -> (r: u8) {
        match self {
            PacketType::Data => 0,
            PacketType::Connect => 1,
            PacketType::Disconnect => 2,
            PacketType::Heartbeat => 3,
        }
    }
}

impl TryFrom<u8> for PacketType {
    type Error = ErrorKind;

    fn try_from(value: u8) -> (r: core::result::Result<Self, Self::Error>) {
        match value {
            0 => Ok(PacketType::Data),
            1 => Ok(PacketType::Connect),
            2 => Ok(PacketType::Disconnect),
            3 => Ok(PacketType::Heartbeat),
            _ => Err(ErrorKind::DecodingError(DecodingErrorKind::PacketType)),
        }
    }
}

impl vstd::std_specs::convert::TryFromSpecImpl<u8> for PacketType {
    open spec fn obeys_try_from_spec() -> bool {
        true
    }

    open spec fn try_from_spec(v: u8) -> core::result::Result<Self, ErrorKind> {
        match packet_type_of(v) {
            Some(t) => Ok(t),
            None => Err(ErrorKind::DecodingError(DecodingErrorKind::PacketType)),
        }
    }
}

} // verus!
