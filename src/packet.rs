//! Wire format: headers, the positional reader and the outgoing builder.
use vstd::prelude::*;

pub mod base_header;
pub mod bytes;
pub mod enums;
pub mod outgoing;
pub mod packet_reader;
pub mod packet_struct;
pub mod session_header;

pub use base_header::BaseHeader;
pub use enums::PacketType;
pub use outgoing::{OutgoingPacket, OutgoingPacketBuilder};
pub use packet_reader::PacketReader;
pub use packet_struct::Packet;
pub use session_header::SessionHeader;

verus! {

/// Conversion of a wire enum to its byte.
pub trait EnumConverter {
    type Enum;

    /// The byte that `self` stands for.
    spec fn spec_to_u8(&self) -> u8;

    fn to_u8(&self) -> (r: u8)
        ensures
            r == self.spec_to_u8(),
    ;
}

} // verus!
