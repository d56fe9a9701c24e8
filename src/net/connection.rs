//! One peer: its timers, its address and its handshake.
use crate::address::PeerAddr;
use crate::errors::{agrees, ErrorKind, Fault, Result};
use crate::features::connectivity::{
    challenge, handshake, lemma_session_id_shared, session_of, ConnectivityHandler,
    ConnectivityState, HandlerView,
};
use crate::net::constants::{DEFAULT_HEARTBEAT, DEFAULT_IDLE_TIMEOUT};
use crate::packet::base_header::decode_base_header;
use crate::packet::bytes::{be_u64_bytes, boxed, lemma_be_u64_round_trip};
use crate::packet::enums::PacketType;
use crate::packet::outgoing::{frame, lemma_frame_decodes, OutgoingPacketBuilder};
use crate::packet::packet_reader::PacketReader;
use crate::packet::packet_struct::Packet;
use crate::protocol_version::version_crc;
use vstd::prelude::*;

verus! {

/// What a connection holds: its timestamps in milliseconds, the peer's
/// address and its handshake.
pub ghost struct ConnectionView {
    pub last_seen: u64,
    pub last_sent: u64,
    pub peer_address: PeerAddr,
    pub connectivity: HandlerView,
}

/// Milliseconds from `then` to `now`, or 0 where `now` is earlier.
pub open spec fn since(now: u64, then: u64) -> u64 {
    if now >= then {
        (now - then) as u64
    } else {
        0
    }
}

/// A datagram as the contracts speak of it: where it goes, and its bytes.
pub type Datagram = (PeerAddr, Seq<u8>);

/// The address and bytes of `p`.
pub open spec fn datagram_of(p: Packet) -> Datagram {
    (p.spec_addr(), p.spec_payload())
}

/// A connection is dropped when its peer has been silent for the idle
/// timeout, or when its handshake has ended.
pub open spec fn conn_should_drop(c: ConnectionView, time: u64) -> bool {
    since(time, c.last_seen) >= DEFAULT_IDLE_TIMEOUT || c.connectivity.state
        == ConnectivityState::Disconnected
}

/// A connection takes relayed data from `sender` when it is connected and
/// is not `sender` itself.
pub open spec fn conn_is_ready(c: ConnectionView, sender: PeerAddr) -> bool {
    c.connectivity.state == ConnectivityState::Connected && sender != c.peer_address
}

/// The datagram that carries `payload` as a packet of type `t` to the peer,
/// in the connection's session.
pub open spec fn outgoing(c: ConnectionView, t: PacketType, payload: Seq<u8>) -> Datagram {
    (c.peer_address, frame(t, session_of(c.connectivity), payload))
}

/// `c` having sent at `time`.
pub open spec fn sent(c: ConnectionView, time: u64) -> ConnectionView {
    ConnectionView {
        last_seen: c.last_seen,
        last_sent: time,
        peer_address: c.peer_address,
        connectivity: c.connectivity,
    }
}

/// What a connection sends on a tick at `time`: its Connect while the
/// handshake is pending, else a heartbeat once it has not sent for the
/// heartbeat interval, else nothing.
pub open spec fn update_packet(c: ConnectionView, time: u64) -> Option<Datagram> {
    if c.connectivity.state == ConnectivityState::Pending {
        Some(outgoing(c, PacketType::Connect, be_u64_bytes(c.connectivity.local_id) + challenge()))
    } else if since(time, c.last_sent) >= DEFAULT_HEARTBEAT {
        Some(outgoing(c, PacketType::Heartbeat, Seq::empty()))
    } else {
        None
    }
}

/// The connection after a tick at `time`.
pub open spec fn after_update(c: ConnectionView, time: u64) -> ConnectionView {
    if update_packet(c, time) is Some {
        sent(c, time)
    } else {
        c
    }
}

/// The connection after the datagram `bytes` arrived at `time`, and what it
/// yields: the payload to relay for a data packet, nothing for the others,
/// or why the datagram was refused.
pub open spec fn received(c: ConnectionView, bytes: Seq<u8>, time: u64) -> (
    ConnectionView,
    core::result::Result<Option<Seq<u8>>, Fault>,
) {
    let seen = ConnectionView {
        last_seen: time,
        last_sent: c.last_sent,
        peer_address: c.peer_address,
        connectivity: c.connectivity,
    };
    match decode_base_header(bytes) {
        Err(f) => (seen, Err(f)),
        Ok((version, t)) => {
            if version != version_crc() {
                (seen, Err(Fault::VersionMismatch))
            } else {
                let (h, res) = handshake(c.connectivity, t, bytes);
                let next = ConnectionView {
                    last_seen: time,
                    last_sent: c.last_sent,
                    peer_address: c.peer_address,
                    connectivity: h,
                };
                match res {
                    Err(f) => (next, Err(f)),
                    Ok(()) => (
                        next,
                        Ok(
                            if t == PacketType::Data {
                                Some(bytes.subrange(11, bytes.len() as int))
                            } else {
                                None
                            },
                        ),
                    ),
                }
            }
        },
    }
}

#[derive(Copy, Clone, Debug)]
pub struct Connection {
    last_seen: u64,
    last_sent: u64,
    peer_address: PeerAddr,
    connectivity: ConnectivityHandler,
}

impl View for Connection {
    type V = ConnectionView;

    closed spec fn view(&self) -> ConnectionView {
        ConnectionView {
            last_seen: self.last_seen,
            last_sent: self.last_sent,
            peer_address: self.peer_address,
            connectivity: self.connectivity@,
        }
    }
}

impl Connection {
    /// A connection to `peer_address` first heard of at `time` (milliseconds),
    /// with a random salt.
    pub fn new(peer_address: PeerAddr, time: u64) -> (r: Self)
        ensures
            r@.last_seen == time,
            r@.last_sent == time,
            r@.peer_address == peer_address,
            r@.connectivity.state == ConnectivityState::Pending,
            r@.connectivity.peer_id is None,
    {
        Self::with_connectivity(peer_address, time, ConnectivityHandler::new())
    }

    /// A connection to `peer_address` first heard of at `time`, with the
    /// given handshake.
    pub fn with_connectivity(peer_address: PeerAddr, time: u64, connectivity: ConnectivityHandler) -> (r: Self)
        ensures
            r@ == (ConnectionView {
                last_seen: time,
                last_sent: time,
                peer_address,
                connectivity: connectivity@,
            }),
    {
        Connection { last_seen: time, last_sent: time, peer_address, connectivity }
    }

    /// The address of the peer.
    pub fn peer_address(&self) -> (r: PeerAddr)
        ensures
            r == self@.peer_address,
    {
        self.peer_address
    }

    /// Returns the milliseconds since we last heard from the client
    pub fn last_seen(&self, time: u64) -> (r: u64)
        ensures
            r == since(time, self@.last_seen),
    {
        if time >= self.last_seen {
            time - self.last_seen
        } else {
            0
        }
    }

    /// Returns the milliseconds since we last sent to the client
    pub fn last_sent(&self, time: u64) -> (r: u64)
        ensures
            r == since(time, self@.last_sent),
    {
        if time >= self.last_sent {
            time - self.last_sent
        } else {
            0
        }
    }

    /// Handles the datagram `payload` that arrived from the peer at `time`.
    /// A data packet yields its payload, addressed from the peer, for relay.
    pub fn process_in(&mut self, payload: &[u8], time: u64) -> (r: Result<Option<Packet>>)
        ensures
            final(self)@ == received(old(self)@, payload@, time).0,
            agrees(
                r,
                received(old(self)@, payload@, time).1,
                |o: Option<Packet>|
                    match o {
                        Some(p) => Some(p.spec_payload()),
                        None => None,
                    },
            ),
            r matches Ok(Some(p)) ==> p.spec_addr() == old(self)@.peer_address,
    {
        self.last_seen = time;
        let mut reader = PacketReader::new(payload);
        let header = match reader.read_base_header() {
            Ok(h) => h,
            Err(e) => return Err(e),
        };
        if !header.is_current_protocol() {
            return Err(ErrorKind::ProtocolVersionMismatch);
        }
        match self.connectivity.process_in(&header, &mut reader) {
            Ok(()) => {},
            Err(e) => return Err(e),
        }
        if header.packet_type() == PacketType::Data {
            let payload = reader.read_payload();
            return Ok(Some(Packet::new(self.peer_address, payload)));
        }
        Ok(None)
    }

    /// Wraps the payload of `packet` as a packet of type `ptype` in this
    /// connection's session, addressed to the peer, and notes it sent at `time`.
    pub fn process_out(&mut self, packet: &Packet, ptype: PacketType, time: u64) -> (r: Packet)
        ensures
            final(self)@ == sent(old(self)@, time),
            datagram_of(r) == outgoing(old(self)@, ptype, packet.spec_payload()),
    {
        self.last_sent = time;
        let out = OutgoingPacketBuilder::new(packet.payload()).with_default_header(
            ptype,
        ).with_session_header(self.connectivity.session_id()).build();
        Packet::new(self.peer_address, out.contents())
    }

    /// The packet to send on a tick at `time`, if any: the Connect while the
    /// handshake is pending, else a heartbeat when nothing was sent for the
    /// heartbeat interval.
    pub fn update(&mut self, time: u64) -> (r: Option<Packet>)
        ensures
            final(self)@ == after_update(old(self)@, time),
            match r {
                Some(p) => update_packet(old(self)@, time) == Some(datagram_of(p)),
                None => update_packet(old(self)@, time) is None,
            },
    {
        match self.connectivity.create_connection_packet(self.peer_address) {
            Some(connect) => {
                return Some(self.process_out(&connect, PacketType::Connect, time));
            },
            None => {},
        }
        if self.last_sent(time) >= DEFAULT_HEARTBEAT {
            let heartbeat = Packet::new(self.peer_address, boxed(Vec::new()));
            return Some(self.process_out(&heartbeat, PacketType::Heartbeat, time));
        }
        None
    }

    /// Whether the connection should be dropped at `time`.
    pub fn should_drop(&self, time: u64) -> (r: bool)
        ensures
            r == conn_should_drop(self@, time),
    {
        self.last_seen(time) >= DEFAULT_IDLE_TIMEOUT || self.connectivity.should_drop()
    }

    /// Whether data relayed from `sender` goes to this connection.
    pub fn is_ready(&self, sender: &PeerAddr) -> (r: bool)
        ensures
            r == conn_is_ready(self@, *sender),
    {
        self.connectivity.is_connected() && *sender != self.peer_address
    }

    /// Whether the handshake with the peer has completed.
    pub fn is_connected(&self) -> (r: bool)
        ensures
            r == (self@.connectivity.state == ConnectivityState::Connected),
    {
        self.connectivity.is_connected()
    }
}

/// A connection whose peer has been silent for the idle timeout is dropped.
pub proof fn lemma_idle_connection_dropped(c: ConnectionView, time: u64)
    requires
        since(time, c.last_seen) >= DEFAULT_IDLE_TIMEOUT,
    ensures
        conn_should_drop(c, time),
{
}

/// A connected connection that has not sent for the heartbeat interval sends
/// an empty heartbeat on its next tick, and notes it sent.
pub proof fn lemma_heartbeat_due(c: ConnectionView, time: u64)
    requires
        c.connectivity.state == ConnectivityState::Connected,
        since(time, c.last_sent) >= DEFAULT_HEARTBEAT,
    ensures
        update_packet(c, time) == Some(outgoing(c, PacketType::Heartbeat, Seq::empty())),
        after_update(c, time) == sent(c, time),
{
}

/// Two connections, each pending with its own salt, that exchange the
/// handshake: `a` ticks at `t1` and its Connect reaches `b` at `t2`; `b`
/// ticks at `t3` and its Connect reaches `a` at `t4`; `a` sends `data` at
/// `t5` and it reaches `b` at `t6`. Gives both connections afterwards.
pub open spec fn handshake_exchange(
    a: ConnectionView,
    b: ConnectionView,
    t1: u64,
    t2: u64,
    t3: u64,
    t4: u64,
    t5: u64,
    t6: u64,
    data: Seq<u8>,
) -> (ConnectionView, ConnectionView) {
    let a1 = after_update(a, t1);
    let b1 = received(b, (update_packet(a, t1)->0).1, t2).0;
    let b2 = after_update(b1, t3);
    let a2 = received(a1, (update_packet(b1, t3)->0).1, t4).0;
    let a3 = sent(a2, t5);
    let b3 = received(b2, outgoing(a2, PacketType::Data, data).1, t6).0;
    (a3, b3)
}

/// After a full handshake between two pending connections with distinct
/// salts, both are connected.
pub proof fn lemma_handshake_connects_both(
    a: ConnectionView,
    b: ConnectionView,
    t1: u64,
    t2: u64,
    t3: u64,
    t4: u64,
    t5: u64,
    t6: u64,
    data: Seq<u8>,
)
    requires
        a.connectivity.state == ConnectivityState::Pending,
        a.connectivity.peer_id is None,
        b.connectivity.state == ConnectivityState::Pending,
        b.connectivity.peer_id is None,
        a.connectivity.local_id != b.connectivity.local_id,
    ensures
        handshake_exchange(a, b, t1, t2, t3, t4, t5, t6, data).0.connectivity.state
            == ConnectivityState::Connected,
        handshake_exchange(a, b, t1, t2, t3, t4, t5, t6, data).1.connectivity.state
            == ConnectivityState::Connected,
{
    let ida = a.connectivity.local_id;
    let idb = b.connectivity.local_id;
    lemma_session_id_shared(ida, idb, ConnectivityState::Pending, ConnectivityState::Pending);
    lemma_session_id_shared(
        ida,
        idb,
        ConnectivityState::Connected,
        ConnectivityState::Pending,
    );
    // a's Connect: session 0, a's salt, the challenge.
    let salt_a_payload = be_u64_bytes(ida) + challenge();
    lemma_be_u64_round_trip(ida, challenge());
    lemma_frame_decodes(PacketType::Connect, 0, salt_a_payload);
    let b1 = received(b, (update_packet(a, t1)->0).1, t2).0;
    assert((update_packet(a, t1)->0).1 == frame(PacketType::Connect, 0, salt_a_payload));
    assert(b1.connectivity.peer_id == Some(ida));
    assert(b1.connectivity.state == ConnectivityState::Pending);
    // b's Connect: the shared session, b's salt, the challenge.
    let salt_b_payload = be_u64_bytes(idb) + challenge();
    lemma_be_u64_round_trip(idb, challenge());
    lemma_frame_decodes(PacketType::Connect, idb ^ ida, salt_b_payload);
    let a1 = after_update(a, t1);
    let a2 = received(a1, (update_packet(b1, t3)->0).1, t4).0;
    assert((update_packet(b1, t3)->0).1 == frame(PacketType::Connect, ida ^ idb, salt_b_payload));
    assert(a2.connectivity.peer_id == Some(idb));
    assert(a2.connectivity.state == ConnectivityState::Connected);
    // a's data in the shared session.
    lemma_frame_decodes(PacketType::Data, idb ^ ida, data);
    let b2 = after_update(b1, t3);
    assert(b2.connectivity == b1.connectivity);
}

} // verus!
