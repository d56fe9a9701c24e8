//! A connection-oriented datagram relay: the packet codec, the per-peer
//! handshake state machine, the connection lifecycle and the fan-out relay.
//!
//! The library computes; it does no I/O. A caller owns the socket, hands each
//! received datagram to [`ConnectionManager::manual_poll`] with the current
//! time in milliseconds, and sends the datagrams it returns.
use vstd::prelude::*;

pub mod address;
pub mod errors;
pub mod features;
pub mod net;
pub mod packet;
pub mod protocol_version;

pub use address::PeerAddr;
pub use errors::{DecodingErrorKind, ErrorKind, Result};
pub use features::connectivity::{ConnectivityHandler, ConnectivityState};
pub use net::{Connection, ConnectionManager};
pub use packet::{
    BaseHeader, EnumConverter, OutgoingPacket, OutgoingPacketBuilder, Packet, PacketReader,
    PacketType, SessionHeader,
};
pub use protocol_version::ProtocolVersion;

verus! {

} // verus!
