//! Sizes, timeouts and the version string of the protocol.
use vstd::prelude::*;

verus! {

/// The size of the standard header.
pub const BASE_HEADER_SIZE: u8 = 3;

/// The size of the client header.
pub const SESSION_HEADER_SIZE: u8 = 8;

/// Maximum transmission unit of the payload.
///
/// Derived from ethernet_mtu - ipv6_header_size - udp_header_size - packet header size
///       1452 = 1500         - 40               - 8               - 8
pub const DEFAULT_MTU: u16 = 1452;

/// Time without a datagram from the peer after which a connection is dropped,
/// in milliseconds.
pub const DEFAULT_IDLE_TIMEOUT: u64 = 5000;

/// Time without a datagram to the peer after which a heartbeat is sent, in
/// milliseconds.
pub const DEFAULT_HEARTBEAT: u64 = 1000;

/// Size of the challenge that follows the peer id in every Connect packet.
/// Both sides send it filled with zeros and refuse a Connect that is shorter.
pub const CONNECT_PAYLOAD_SIZE: u8 = 32;

/// The current protocol version: its CRC-16 goes into every base header,
/// and arriving packets must carry the same.
pub const PROTOCOL_VERSION: &'static str = "physync-0.1.0";

} // verus!
