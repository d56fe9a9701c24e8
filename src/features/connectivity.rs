//! The salt-exchange handshake of one connection.
use crate::address::PeerAddr;
use crate::errors::{agrees, DecodingErrorKind, ErrorKind, Fault, Result};
use crate::net::constants::CONNECT_PAYLOAD_SIZE;
use crate::packet::base_header::BaseHeader;
use crate::packet::bytes::be_u64_bytes;
use crate::packet::enums::PacketType;
use crate::packet::outgoing::OutgoingPacketBuilder;
use crate::packet::packet_reader::{decode_id_at, peer_id_offset, session_offset, PacketReader};
use crate::packet::packet_struct::Packet;
use crate::packet::session_header::SessionHeader;
use vstd::prelude::*;

verus! {

/// Where a connection stands in the handshake.
#[derive(Copy, Clone, Debug, PartialEq, Eq, Structural)]
pub enum ConnectivityState {
    Pending,
    Connected,
    Disconnected,
}

/// What a handler knows: its state, its own salt and the peer's salt.
pub ghost struct HandlerView {
    pub state: ConnectivityState,
    pub local_id: u64,
    pub peer_id: Option<u64>,
}

/// The session id: both salts xor-ed once the peer's is known, else 0.
pub open spec fn session_of(h: HandlerView) -> u64 {
    match h.peer_id {
        Some(p) => p ^ h.local_id,
        None => 0,
    }
}

/// A connected handler knows its peer's salt.
pub open spec fn handler_wf(h: HandlerView) -> bool {
    h.state == ConnectivityState::Connected ==> h.peer_id is Some
}

/// `h` with its state set to `state`.
pub open spec fn with_state(h: HandlerView, state: ConnectivityState) -> HandlerView {
    HandlerView { state, local_id: h.local_id, peer_id: h.peer_id }
}

/// The challenge that follows the peer id in a Connect packet.
pub open spec fn challenge() -> Seq<u8> {
    Seq::new(CONNECT_PAYLOAD_SIZE as nat, |i: int| 0u8)
}

/// Checking an incoming session id: a mismatch disconnects; a match
/// completes a pending handshake once the peer's salt is known.
pub open spec fn checked(h: HandlerView, session: u64) -> (HandlerView, core::result::Result<
    (),
    Fault,
>) {
    if session != session_of(h) {
        (with_state(h, ConnectivityState::Disconnected), Err(Fault::SessionMismatch))
    } else if h.state == ConnectivityState::Pending && h.peer_id is Some {
        (with_state(h, ConnectivityState::Connected), Ok(()))
    } else {
        (h, Ok(()))
    }
}

/// The first Connect from a peer records its salt. Where it already carries
/// the session id that the two salts make (the reply of a responder), the
/// handshake completes at once.
pub open spec fn recorded(h: HandlerView, session: u64, peer: u64) -> HandlerView {
    let known = HandlerView { state: h.state, local_id: h.local_id, peer_id: Some(peer) };
    if session == session_of(known) && h.state == ConnectivityState::Pending {
        with_state(known, ConnectivityState::Connected)
    } else {
        known
    }
}

/// What a handler becomes, and what it reports, on a packet of type `t`
/// whose bytes are `buf`.
pub open spec fn handshake(h: HandlerView, t: PacketType, buf: Seq<u8>) -> (
    HandlerView,
    core::result::Result<(), Fault>,
) {
    match decode_id_at(buf, session_offset(), Fault::MissingSessionHeader) {
        Err(f) => (h, Err(f)),
        Ok(session) => {
            if t == PacketType::Connect {
                match decode_id_at(buf, peer_id_offset(), Fault::MissingPeerIdHeader) {
                    Err(f) => (h, Err(f)),
                    Ok(peer) => {
                        if buf.len() < peer_id_offset() + 8 + CONNECT_PAYLOAD_SIZE {
                            (h, Err(Fault::ShortChallenge))
                        } else if h.peer_id is None {
                            (recorded(h, session, peer), Ok(()))
                        } else {
                            checked(h, session)
                        }
                    },
                }
            } else {
                let (h1, res) = checked(h, session);
                if res is Ok && t == PacketType::Disconnect {
                    (with_state(h1, ConnectivityState::Disconnected), res)
                } else {
                    (h1, res)
                }
            }
        },
    }
}

/// Relies on `rand::random`: a fresh `u64` from the thread-local generator.
/// Nothing is known of its value.
#[verifier::external_body]
pub(crate) fn random_salt() -> (r: u64) {
    rand::random()
}

#[derive(Copy, Clone, Debug)]
pub struct ConnectivityHandler {
    state: ConnectivityState,
    id: u64,
    peer_id: Option<u64>,
}

impl View for ConnectivityHandler {
    type V = HandlerView;

    closed spec fn view(&self) -> HandlerView {
        HandlerView { state: self.state, local_id: self.id, peer_id: self.peer_id }
    }
}

impl ConnectivityHandler {
    /// A pending handler with a random salt.
    pub fn new() -> (r: Self)
        ensures
            r@.state == ConnectivityState::Pending,
            r@.peer_id is None,
    {
        Self::with_id(random_salt())
    }

    /// A pending handler whose salt is `id`.
    pub fn with_id(id: u64) -> (r: Self)
        ensures
            r@ == (HandlerView { state: ConnectivityState::Pending, local_id: id, peer_id: None }),
    {
        ConnectivityHandler { state: ConnectivityState::Pending, id, peer_id: None }
    }

    /// Handles the session part of an incoming packet whose base header is
    /// `header`. The first Connect records the peer's salt; every other
    /// packet must carry the session id, else the handler disconnects; a
    /// Disconnect ends it. The reader is left after the last header read.
    pub fn process_in(&mut self, header: &BaseHeader, reader: &mut PacketReader) -> (r: Result<()>)
        ensures
            final(self)@ == handshake(
                old(self)@,
                header.spec_packet_type(),
                old(reader).spec_buffer(),
            ).0,
            agrees(
                r,
                handshake(old(self)@, header.spec_packet_type(), old(reader).spec_buffer()).1,
                |u: ()| u,
            ),
            final(reader).spec_buffer() == old(reader).spec_buffer(),
            r is Ok ==> final(reader).spec_position() == if header.spec_packet_type()
                == PacketType::Connect {
                peer_id_offset() + 8
            } else {
                session_offset() + 8
            },
    {
        let session = match reader.read_session_header() {
            Ok(s) => s,
            Err(e) => return Err(e),
        };
        if header.packet_type() == PacketType::Connect {
            let peer_id = match reader.read_id_header() {
                Ok(p) => p,
                Err(e) => return Err(e),
            };
            if !reader.can_read(CONNECT_PAYLOAD_SIZE) {
                return Err(ErrorKind::DecodingError(DecodingErrorKind::Payload));
            }
            if self.peer_id.is_none() {
                self.peer_id = Some(peer_id.session_id());
                // A responder's reply already carries the shared session id.
                if session.session_id() == self.session_id() && self.state
                    == ConnectivityState::Pending {
                    self.state = ConnectivityState::Connected;
                }
                return Ok(());
            }
            return self.check_session(&session);
        }
        match self.check_session(&session) {
            Ok(()) => {},
            Err(e) => return Err(e),
        }
        if header.packet_type() == PacketType::Disconnect {
            self.disconnect();
        }
        Ok(())
    }

    /// The session id: both salts xor-ed once the peer's is known, else 0.
    pub fn session_id(&self) -> (r: u64)
        ensures
            r == session_of(self@),
    {
        match self.peer_id {
            Some(id) => id ^ self.id,
            None => 0,
        }
    }

    /// While the handshake is pending, the packet that carries this side's
    /// salt to `addr`: the peer id header, then a zero challenge. The caller
    /// puts the base and session headers in front of it.
    pub fn create_connection_packet(&self, addr: PeerAddr) -> (r: Option<Packet>)
        ensures
            r is Some <==> self@.state == ConnectivityState::Pending,
            r matches Some(p) ==> p.spec_addr() == addr && p.spec_payload() == be_u64_bytes(
                self@.local_id,
            ) + challenge(),
    {
        if self.state == ConnectivityState::Pending {
            let payload: Vec<u8> = vec![0u8; CONNECT_PAYLOAD_SIZE as usize];
            let out = OutgoingPacketBuilder::new(payload.as_slice()).with_session_header(
                self.id,
            ).build();
            assert(payload@ == challenge());
            return Some(Packet::new(addr, out.contents()));
        }
        None
    }

    /// Whether the handler has disconnected.
    pub fn should_drop(&self) -> (r: bool)
        ensures
            r == (self@.state == ConnectivityState::Disconnected),
    {
        self.state == ConnectivityState::Disconnected
    }

    /// Whether the handshake has completed.
    pub fn is_connected(&self) -> (r: bool)
        ensures
            r == (self@.state == ConnectivityState::Connected),
    {
        self.state == ConnectivityState::Connected
    }

    fn disconnect(&mut self)
        ensures
            final(self)@ == with_state(old(self)@, ConnectivityState::Disconnected),
    {
        self.state = ConnectivityState::Disconnected;
    }

    fn check_session(&mut self, session: &SessionHeader) -> (r: Result<()>)
        ensures
            final(self)@ == checked(old(self)@, session@).0,
            agrees(r, checked(old(self)@, session@).1, |u: ()| u),
    {
        if session.session_id() != self.session_id() {
            self.disconnect();
            return Err(ErrorKind::SessionMismatch);
        }
        if self.state == ConnectivityState::Pending && self.peer_id.is_some() {
            self.state = ConnectivityState::Connected;
        }
        Ok(())
    }
}

impl Default for ConnectivityHandler {
    fn default() -> (r: Self)
        ensures
            r@.state == ConnectivityState::Pending,
            r@.peer_id is None,
    {
        Self::new()
    }
}

} // verus!

verus! {

/// Two peers that hold each other's salts derive the same session id, and
/// distinct salts never give the session id 0.
pub proof fn lemma_session_id_shared(a: u64, b: u64, sa: ConnectivityState, sb: ConnectivityState)
    ensures
        session_of(HandlerView { state: sa, local_id: a, peer_id: Some(b) }) == session_of(
            HandlerView { state: sb, local_id: b, peer_id: Some(a) },
        ),
        a != b ==> session_of(HandlerView { state: sa, local_id: a, peer_id: Some(b) }) != 0,
{
    assert(b ^ a == a ^ b) by (bit_vector);
    assert(a != b ==> b ^ a != 0) by (bit_vector);
}

/// Whatever arrives, a handler that knows its peer's salt whenever it is
/// connected still does afterwards.
pub proof fn lemma_handshake_keeps_wf(h: HandlerView, t: PacketType, buf: Seq<u8>)
    requires
        handler_wf(h),
    ensures
        handler_wf(handshake(h, t, buf).0),
{
}

} // verus!
