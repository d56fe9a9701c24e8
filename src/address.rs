//! Addresses of peers.
use vstd::prelude::*;

verus! {

/// The address of a remote endpoint: an IP address and a port.
///
/// An IPv4 address is held in the low 32 bits of `ip`, with `is_v6` false.
#[derive(Clone, Copy, Debug, PartialEq, Eq, Hash, Structural)]
pub struct PeerAddr {
    pub ip: u128,
    pub port: u16,
    pub is_v6: bool,
}

} // verus!
