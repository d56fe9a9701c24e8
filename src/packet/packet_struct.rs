//! A datagram with the address it came from or goes to.
use crate::address::PeerAddr;
use crate::packet::bytes::boxed;
use vstd::prelude::*;
use vstd::slice::slice_to_vec;

verus! {

#[derive(PartialEq, Eq, Debug)]
pub struct Packet {
    /// The endpoint from where it came.
    addr: PeerAddr,
    /// The raw payload of the packet.
    payload: Box<[u8]>,
}

impl Packet {
    /// The endpoint of the packet.
    pub closed spec fn spec_addr(&self) -> PeerAddr {
        self.addr
    }

    /// The bytes of the packet.
    pub closed spec fn spec_payload(&self) -> Seq<u8> {
        self.payload@
    }

    /// Creates a new packet by passing the receiver and data
    pub fn new(addr: PeerAddr, payload: Box<[u8]>) -> (r: Packet)
        ensures
            r.spec_addr() == addr,
            r.spec_payload() == payload@,
    {
        Packet { addr, payload }
    }

    /// Returns the payload of this packet.
    pub fn payload(&self) -> (r: &[u8])
        ensures
            r@ == self.spec_payload(),
    {
        &self.payload
    }

    /// Returns the address of this packet.
    ///
    /// # Remark
    /// Could be both the receiving endpoint or the one to send this packet to.
    /// This depends whether it is a packet that has been received or one that needs to be send.
    pub fn addr(&self) -> (r: PeerAddr)
        ensures
            r == self.spec_addr(),
    {
        self.addr
    }
}

impl Clone for Packet {
    fn clone(&self) -> (r: Self)
        ensures
            r.spec_addr() == self.spec_addr(),
            r.spec_payload() == self.spec_payload(),
    {
        Packet { addr: self.addr, payload: boxed(slice_to_vec(&self.payload)) }
    }
}

} // verus!
