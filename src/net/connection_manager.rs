//! The table of connections and one poll cycle: receive, relay, tick, evict.
use crate::address::PeerAddr;
use crate::errors::{agrees, Fault, Result};
use crate::features::connectivity::{
    handler_wf, lemma_handshake_keeps_wf, random_salt, ConnectivityHandler, ConnectivityState,
    HandlerView,
};
use crate::net::connection::{
    after_update, conn_is_ready, conn_should_drop, datagram_of, outgoing, received, sent,
    update_packet, Connection, ConnectionView, Datagram,
};
use crate::packet::base_header::decode_base_header;
use crate::packet::enums::PacketType;
use crate::packet::packet_struct::Packet;
use vstd::prelude::*;

verus! {

/// No two connections share a peer address.
pub open spec fn addresses_unique(cs: Seq<ConnectionView>) -> bool {
    forall|i: int, j: int|
        0 <= i < cs.len() && 0 <= j < cs.len() && i != j ==> cs[i].peer_address
            != cs[j].peer_address
}

/// The table's invariant: one connection per address, each of whose
/// handshakes knows the peer's salt once connected.
pub open spec fn manager_wf(cs: Seq<ConnectionView>) -> bool {
    &&& addresses_unique(cs)
    &&& forall|i: int| 0 <= i < cs.len() ==> handler_wf(#[trigger] cs[i].connectivity)
}

/// The position of the connection to `addr`, if there is one.
pub open spec fn lookup(cs: Seq<ConnectionView>, addr: PeerAddr) -> Option<int> {
    if exists|i: int| 0 <= i < cs.len() && cs[i].peer_address == addr {
        Some(choose|i: int| 0 <= i < cs.len() && cs[i].peer_address == addr)
    } else {
        None
    }
}

/// A new connection to `addr`, first heard of at `time`, with salt `salt`.
pub open spec fn fresh(addr: PeerAddr, time: u64, salt: u64) -> ConnectionView {
    ConnectionView {
        last_seen: time,
        last_sent: time,
        peer_address: addr,
        connectivity: HandlerView {
            state: ConnectivityState::Pending,
            local_id: salt,
            peer_id: None,
        },
    }
}

/// The data datagrams that relaying `payload` from `sender` sends, in the
/// order of the table: one to each connection that is ready for it.
pub open spec fn relay_packets(cs: Seq<ConnectionView>, sender: PeerAddr, payload: Seq<u8>) -> Seq<
    Datagram,
>
    decreases cs.len(),
{
    if cs.len() == 0 {
        Seq::empty()
    } else {
        let prev = relay_packets(cs.drop_last(), sender, payload);
        if conn_is_ready(cs.last(), sender) {
            prev.push(outgoing(cs.last(), PacketType::Data, payload))
        } else {
            prev
        }
    }
}

/// The table after relaying from `sender` at `time`.
pub open spec fn relayed(cs: Seq<ConnectionView>, sender: PeerAddr, time: u64) -> Seq<
    ConnectionView,
> {
    cs.map_values(
        |c: ConnectionView|
            if conn_is_ready(c, sender) {
                sent(c, time)
            } else {
                c
            },
    )
}

/// The datagrams of one tick of every connection, in the order of the table.
pub open spec fn update_packets(cs: Seq<ConnectionView>, time: u64) -> Seq<Datagram>
    decreases cs.len(),
{
    if cs.len() == 0 {
        Seq::empty()
    } else {
        let prev = update_packets(cs.drop_last(), time);
        match update_packet(cs.last(), time) {
            Some(d) => prev.push(d),
            None => prev,
        }
    }
}

/// The table after one tick of every connection.
pub open spec fn updated(cs: Seq<ConnectionView>, time: u64) -> Seq<ConnectionView> {
    cs.map_values(|c: ConnectionView| after_update(c, time))
}

/// The connections that are not to be dropped at `time`, in order.
pub open spec fn kept(cs: Seq<ConnectionView>, time: u64) -> Seq<ConnectionView>
    decreases cs.len(),
{
    if cs.len() == 0 {
        Seq::empty()
    } else {
        let prev = kept(cs.drop_last(), time);
        if conn_should_drop(cs.last(), time) {
            prev
        } else {
            prev.push(cs.last())
        }
    }
}

/// The receive phase of a poll: the datagram `bytes` from `addr` goes to its
/// connection, created with `salt` if there is none; a data payload is
/// relayed to the others. Gives the table, the relayed datagrams and the
/// outcome.
pub open spec fn receive_phase(
    cs: Seq<ConnectionView>,
    addr: PeerAddr,
    bytes: Seq<u8>,
    time: u64,
    salt: u64,
) -> (Seq<ConnectionView>, Seq<Datagram>, core::result::Result<(), Fault>) {
    let (cs0, i) = match lookup(cs, addr) {
        Some(i) => (cs, i),
        None => (cs.push(fresh(addr, time, salt)), cs.len() as int),
    };
    let (c, res) = received(cs0[i], bytes, time);
    let cs1 = cs0.update(i, c);
    match res {
        Ok(Some(p)) => (relayed(cs1, addr, time), relay_packets(cs1, addr, p), Ok(())),
        Ok(None) => (cs1, Seq::empty(), Ok(())),
        Err(f) => (cs1, Seq::empty(), Err(f)),
    }
}

/// One poll cycle at `time` on the table `cs`, with the datagram that
/// arrived, if any: receive and relay, tick every connection, evict.
/// Gives the table, every datagram sent in order, and the outcome.
pub open spec fn poll(
    cs: Seq<ConnectionView>,
    arrived: Option<Datagram>,
    time: u64,
    salt: u64,
) -> (Seq<ConnectionView>, Seq<Datagram>, core::result::Result<(), Fault>) {
    let (cs1, relay_out, res) = match arrived {
        Some(d) => receive_phase(cs, d.0, d.1, time, salt),
        None => (cs, Seq::empty(), Ok(())),
    };
    (kept(updated(cs1, time), time), relay_out + update_packets(cs1, time), res)
}

/// The address and bytes of the packet that arrived, if any.
pub open spec fn arrived_of(p: Option<Packet>) -> Option<Datagram> {
    match p {
        Some(p) => Some(datagram_of(p)),
        None => None,
    }
}

/// The addresses and bytes of `ps`, in order.
pub open spec fn datagrams_of(ps: Seq<Packet>) -> Seq<Datagram> {
    ps.map_values(|p: Packet| datagram_of(p))
}

#[derive(Debug)]
pub struct ConnectionManager {
    connections: Vec<Connection>,
}

impl View for ConnectionManager {
    type V = Seq<ConnectionView>;

    closed spec fn view(&self) -> Seq<ConnectionView> {
        self.connections@.map_values(|c: Connection| c@)
    }
}

impl ConnectionManager {
    /// An empty table.
    pub fn new() -> (r: Self)
        ensures
            r@ == Seq::<ConnectionView>::empty(),
            manager_wf(r@),
    {
        let r = ConnectionManager { connections: Vec::new() };
        assert(r@ =~= Seq::<ConnectionView>::empty());
        r
    }

    /// The number of connections.
    pub fn len(&self) -> (r: usize)
        ensures
            r == self@.len(),
    {
        self.connections.len()
    }

    /// The connection to `addr`, if there is one.
    pub fn get(&self, addr: &PeerAddr) -> (r: Option<Connection>)
        requires
            manager_wf(self@),
        ensures
            match lookup(self@, *addr) {
                Some(i) => r matches Some(c) && c@ == self@[i],
                None => r is None,
            },
    {
        match self.find(addr) {
            Some(i) => Some(self.connections[i]),
            None => None,
        }
    }

    fn find(&self, addr: &PeerAddr) -> (r: Option<usize>)
        requires
            manager_wf(self@),
        ensures
            r matches Some(i) ==> lookup(self@, *addr) == Some(i as int),
            r is None ==> lookup(self@, *addr) is None,
    {
        let mut i: usize = 0;
        while i < self.connections.len()
            invariant
                i <= self@.len(),
                self@.len() == self.connections@.len(),
                manager_wf(self@),
                forall|j: int| 0 <= j < i ==> self@[j].peer_address != *addr,
            decreases self@.len() - i,
        {
            if self.connections[i].peer_address() == *addr {
                assert(self@[i as int].peer_address == *addr);
                let ghost k = choose|k: int| 0 <= k < self@.len() && self@[k].peer_address == *addr;
                assert(k == i as int) by {
                    if k != i as int {
                        assert(self@[k].peer_address != self@[i as int].peer_address);
                    }
                }
                return Some(i);
            }
            i = i + 1;
        }
        None
    }

    /// Relays `packet` to every connection that is ready for data from its
    /// address, each in its own session, and notes them sent at `time`.
    pub fn push_to_all(&mut self, packet: &Packet, time: u64) -> (r: Vec<Packet>)
        requires
            manager_wf(old(self)@),
        ensures
            manager_wf(final(self)@),
            final(self)@ == relayed(old(self)@, packet.spec_addr(), time),
            datagrams_of(r@) == relay_packets(old(self)@, packet.spec_addr(), packet.spec_payload()),
    {
        let ghost cs = self@;
        let sender = packet.addr();
        let mut out: Vec<Packet> = Vec::new();
        let mut i: usize = 0;
        while i < self.connections.len()
            invariant
                i <= cs.len(),
                self.connections@.len() == cs.len(),
                sender == packet.spec_addr(),
                forall|j: int| 0 <= j < i ==> #[trigger] self@[j] == relayed(cs, sender, time)[j],
                forall|j: int| i <= j < cs.len() ==> #[trigger] self@[j] == cs[j],
                datagrams_of(out@) == relay_packets(cs.take(i as int), sender, packet.spec_payload()),
            decreases cs.len() - i,
        {
            let mut con = self.connections[i];
            assert(self@[i as int] == cs[i as int]);
            assert(con@ == cs[i as int]);
            assert(cs.take(i + 1).drop_last() == cs.take(i as int));
            assert(cs.take(i + 1).last() == cs[i as int]);
            let ghost before_view = self@;
            if con.is_ready(&sender) {
                let p = con.process_out(packet, PacketType::Data, time);
                self.connections.set(i, con);
                assert(self@ =~= before_view.update(i as int, con@));
                let ghost before = out@;
                out.push(p);
                assert(datagrams_of(out@) =~= datagrams_of(before).push(datagram_of(p)));
            }
            assert(self@[i as int] == relayed(cs, sender, time)[i as int]);
            i = i + 1;
        }
        assert(cs.take(i as int) == cs);
        assert(self@ =~= relayed(cs, sender, time));
        out
    }

    /// One poll cycle at `time` (milliseconds), with the datagram that
    /// arrived, if any. A new address gets a connection whose salt is
    /// `salt`. Gives every datagram to send, in order, and the outcome of the
    /// arrived datagram; the table has evicted what is to be dropped.
    pub fn poll_with_salt(&mut self, arrived: Option<Packet>, time: u64, salt: u64) -> (r: (
        Vec<Packet>,
        Result<()>,
    ))
        requires
            manager_wf(old(self)@),
        ensures
            manager_wf(final(self)@),
            final(self)@ == poll(old(self)@, arrived_of(arrived), time, salt).0,
            datagrams_of(r.0@) == poll(old(self)@, arrived_of(arrived), time, salt).1,
            agrees(r.1, poll(old(self)@, arrived_of(arrived), time, salt).2, |u: ()| u),
            forall|i: int|
                0 <= i < final(self)@.len() ==> !conn_should_drop(#[trigger] final(self)@[i], time),
    {
        let ghost cs = self@;
        let mut out: Vec<Packet> = Vec::new();
        let mut result: Result<()> = Ok(());
        match arrived {
            Some(packet) => {
                let addr = packet.addr();
                let idx = match self.find(&addr) {
                    Some(i) => i,
                    None => {
                        let con = Connection::with_connectivity(
                            addr,
                            time,
                            ConnectivityHandler::with_id(salt),
                        );
                        self.connections.push(con);
                        assert(self@ =~= cs.push(fresh(addr, time, salt)));
                        self.connections.len() - 1
                    },
                };
                let ghost cs0 = self@;
                let mut con = self.connections[idx];
                assert(self@[idx as int] == cs0[idx as int]);
                let res = con.process_in(packet.payload(), time);
                self.connections.set(idx, con);
                assert(self@ =~= cs0.update(idx as int, con@));
                proof {
                    lemma_handshake_keeps_wf_at(cs0, idx as int, con@, packet.spec_payload(), time);
                }
                match res {
                    Ok(Some(relay)) => {
                        out = self.push_to_all(&relay, time);
                    },
                    Ok(None) => {},
                    Err(e) => {
                        result = Err(e);
                    },
                }
            },
            None => {},
        }
        let ghost cs1 = self@;
        let mut updates = self.update_all(time);
        let ghost relay_out = out@;
        out.append(&mut updates);
        assert(datagrams_of(out@) =~= datagrams_of(relay_out) + update_packets(cs1, time));
        self.evict(time);
        proof {
            lemma_kept_none_dropped(updated(cs1, time), time);
        }
        (out, result)
    }

    /// One poll cycle at `time` (milliseconds), with the datagram that
    /// arrived, if any; a new address gets a connection with a random salt.
    /// Gives every datagram to send, in order, and the outcome of the arrived
    /// datagram.
    pub fn manual_poll(&mut self, arrived: Option<Packet>, time: u64) -> (r: (
        Vec<Packet>,
        Result<()>,
    ))
        requires
            manager_wf(old(self)@),
        ensures
            manager_wf(final(self)@),
            exists|salt: u64|
                {
                    &&& final(self)@ == poll(old(self)@, arrived_of(arrived), time, salt).0
                    &&& datagrams_of(r.0@) == poll(old(self)@, arrived_of(arrived), time, salt).1
                    &&& agrees(
                        r.1,
                        poll(old(self)@, arrived_of(arrived), time, salt).2,
                        |u: ()| u,
                    )
                },
            forall|i: int|
                0 <= i < final(self)@.len() ==> !conn_should_drop(#[trigger] final(self)@[i], time),
    {
        let salt = random_salt();
        self.poll_with_salt(arrived, time, salt)
    }

    fn update_all(&mut self, time: u64) -> (r: Vec<Packet>)
        requires
            manager_wf(old(self)@),
        ensures
            manager_wf(final(self)@),
            final(self)@ == updated(old(self)@, time),
            datagrams_of(r@) == update_packets(old(self)@, time),
    {
        let ghost cs = self@;
        let mut out: Vec<Packet> = Vec::new();
        let mut i: usize = 0;
        while i < self.connections.len()
            invariant
                i <= cs.len(),
                self.connections@.len() == cs.len(),
                forall|j: int| 0 <= j < i ==> #[trigger] self@[j] == updated(cs, time)[j],
                forall|j: int| i <= j < cs.len() ==> #[trigger] self@[j] == cs[j],
                datagrams_of(out@) == update_packets(cs.take(i as int), time),
            decreases cs.len() - i,
        {
            let mut con = self.connections[i];
            assert(self@[i as int] == cs[i as int]);
            assert(con@ == cs[i as int]);
            assert(cs.take(i + 1).drop_last() == cs.take(i as int));
            assert(cs.take(i + 1).last() == cs[i as int]);
            let ghost before_view = self@;
            let sent = con.update(time);
            self.connections.set(i, con);
            assert(self@ =~= before_view.update(i as int, con@));
            match sent {
                Some(p) => {
                    let ghost before = out@;
                    out.push(p);
                    assert(datagrams_of(out@) =~= datagrams_of(before).push(datagram_of(p)));
                },
                None => {},
            }
            assert(self@[i as int] == updated(cs, time)[i as int]);
            i = i + 1;
        }
        assert(cs.take(i as int) == cs);
        assert(self@ =~= updated(cs, time));
        out
    }

    fn evict(&mut self, time: u64)
        requires
            manager_wf(old(self)@),
        ensures
            manager_wf(final(self)@),
            final(self)@ == kept(old(self)@, time),
    {
        let ghost cs = self@;
        let mut remaining: Vec<Connection> = Vec::new();
        let mut i: usize = 0;
        while i < self.connections.len()
            invariant
                i <= cs.len(),
                self@ == cs,
                remaining@.map_values(|c: Connection| c@) == kept(cs.take(i as int), time),
            decreases cs.len() - i,
        {
            let con = self.connections[i];
            assert(self@[i as int] == cs[i as int]);
            assert(cs.take(i + 1).drop_last() == cs.take(i as int));
            assert(cs.take(i + 1).last() == cs[i as int]);
            if !con.should_drop(time) {
                let ghost before = remaining@;
                remaining.push(con);
                assert(remaining@.map_values(|c: Connection| c@) =~= before.map_values(
                    |c: Connection| c@,
                ).push(con@));
            }
            i = i + 1;
        }
        assert(cs.take(i as int) == cs);
        self.connections = remaining;
        proof {
            lemma_kept_wf(cs, time);
        }
    }
}

/// Every connection kept is one of the table's, and a later one stays later.
proof fn lemma_kept_from(cs: Seq<ConnectionView>, time: u64)
    ensures
        kept(cs, time).len() <= cs.len(),
        forall|k: int|
            0 <= k < kept(cs, time).len() ==> exists|i: int|
                0 <= i < cs.len() && #[trigger] kept(cs, time)[k] == cs[i],
    decreases cs.len(),
{
    if cs.len() > 0 {
        lemma_kept_from(cs.drop_last(), time);
        let prev = kept(cs.drop_last(), time);
        assert forall|k: int| 0 <= k < kept(cs, time).len() implies exists|i: int|
            0 <= i < cs.len() && #[trigger] kept(cs, time)[k] == cs[i] by {
            if k < prev.len() {
                let i = choose|i: int|
                    0 <= i < cs.drop_last().len() && #[trigger] prev[k] == cs.drop_last()[i];
                assert(kept(cs, time)[k] == cs[i]);
            } else {
                assert(kept(cs, time)[k] == cs[cs.len() - 1]);
            }
        }
    }
}

/// Eviction keeps the table's invariant.
proof fn lemma_kept_wf(cs: Seq<ConnectionView>, time: u64)
    requires
        manager_wf(cs),
    ensures
        manager_wf(kept(cs, time)),
    decreases cs.len(),
{
    if cs.len() > 0 {
        let init = cs.drop_last();
        assert(manager_wf(init));
        lemma_kept_wf(init, time);
        lemma_kept_from(init, time);
        let prev = kept(init, time);
        if !conn_should_drop(cs.last(), time) {
            let next = prev.push(cs.last());
            assert forall|a: int, b: int|
                0 <= a < next.len() && 0 <= b < next.len() && a != b implies next[a].peer_address
                != next[b].peer_address by {
                if a < prev.len() && b < prev.len() {
                    assert(next[a] == prev[a] && next[b] == prev[b]);
                } else if a < prev.len() {
                    let i = choose|i: int| 0 <= i < init.len() && #[trigger] prev[a] == init[i];
                    assert(cs[i] == init[i]);
                    assert(cs[i].peer_address != cs[cs.len() - 1].peer_address);
                } else {
                    let i = choose|i: int| 0 <= i < init.len() && #[trigger] prev[b] == init[i];
                    assert(cs[i] == init[i]);
                    assert(cs[i].peer_address != cs[cs.len() - 1].peer_address);
                }
            }
            assert forall|a: int| 0 <= a < next.len() implies handler_wf(
                #[trigger] next[a].connectivity,
            ) by {
                if a < prev.len() {
                    assert(next[a] == prev[a]);
                }
            }
        }
    }
}

/// Handling a datagram at one connection keeps the table's invariant.
proof fn lemma_handshake_keeps_wf_at(
    cs: Seq<ConnectionView>,
    i: int,
    c: ConnectionView,
    bytes: Seq<u8>,
    time: u64,
)
    requires
        addresses_unique(cs),
        forall|j: int| 0 <= j < cs.len() && j != i ==> handler_wf(#[trigger] cs[j].connectivity),
        handler_wf(cs[i].connectivity),
        0 <= i < cs.len(),
        c == received(cs[i], bytes, time).0,
    ensures
        manager_wf(cs.update(i, c)),
{
    match decode_base_header(bytes) {
        Ok((v, t)) => {
            lemma_handshake_keeps_wf(cs[i].connectivity, t, bytes);
        },
        Err(_) => {},
    }
    assert forall|j: int| 0 <= j < cs.len() implies handler_wf(
        #[trigger] cs.update(i, c)[j].connectivity,
    ) by {
        if j != i {
            assert(cs.update(i, c)[j] == cs[j]);
        }
    }
}

/// No relayed datagram goes back to the sender.
pub proof fn lemma_relay_skips_sender(cs: Seq<ConnectionView>, sender: PeerAddr, payload: Seq<u8>)
    ensures
        forall|k: int|
            0 <= k < relay_packets(cs, sender, payload).len() ==> (#[trigger] relay_packets(
                cs,
                sender,
                payload,
            )[k]).0 != sender,
    decreases cs.len(),
{
    if cs.len() > 0 {
        let prev = relay_packets(cs.drop_last(), sender, payload);
        lemma_relay_skips_sender(cs.drop_last(), sender, payload);
        let all = relay_packets(cs, sender, payload);
        assert forall|k: int| 0 <= k < all.len() implies (#[trigger] all[k]).0 != sender by {
            if k < prev.len() {
                assert(all[k] == prev[k]);
            }
        }
    }
}

/// Where every connection is connected and none is the sender, relaying
/// sends one datagram to each.
proof fn lemma_relay_count_without_sender(
    cs: Seq<ConnectionView>,
    sender: PeerAddr,
    payload: Seq<u8>,
)
    requires
        forall|i: int|
            0 <= i < cs.len() ==> (#[trigger] cs[i]).connectivity.state
                == ConnectivityState::Connected && cs[i].peer_address != sender,
    ensures
        relay_packets(cs, sender, payload).len() == cs.len(),
    decreases cs.len(),
{
    if cs.len() > 0 {
        let init = cs.drop_last();
        assert forall|i: int| 0 <= i < init.len() implies (#[trigger] init[i]).connectivity.state
            == ConnectivityState::Connected && init[i].peer_address != sender by {
            assert(init[i] == cs[i]);
        }
        lemma_relay_count_without_sender(init, sender, payload);
        assert(cs.last() == cs[cs.len() - 1]);
    }
}

/// Relaying a packet from one of N connected peers sends exactly N - 1
/// datagrams, none of them to that peer.
pub proof fn lemma_relay_reaches_every_other_peer(
    cs: Seq<ConnectionView>,
    sender: PeerAddr,
    payload: Seq<u8>,
)
    requires
        addresses_unique(cs),
        forall|i: int|
            0 <= i < cs.len() ==> (#[trigger] cs[i]).connectivity.state
                == ConnectivityState::Connected,
        exists|i: int| 0 <= i < cs.len() && cs[i].peer_address == sender,
    ensures
        relay_packets(cs, sender, payload).len() == cs.len() - 1,
        forall|k: int|
            0 <= k < relay_packets(cs, sender, payload).len() ==> (#[trigger] relay_packets(
                cs,
                sender,
                payload,
            )[k]).0 != sender,
    decreases cs.len(),
{
    lemma_relay_skips_sender(cs, sender, payload);
    let init = cs.drop_last();
    let last = cs.len() - 1;
    assert(cs.last() == cs[last]);
    if cs[last].peer_address == sender {
        assert forall|i: int| 0 <= i < init.len() implies (#[trigger] init[i]).connectivity.state
            == ConnectivityState::Connected && init[i].peer_address != sender by {
            assert(init[i] == cs[i]);
        }
        lemma_relay_count_without_sender(init, sender, payload);
    } else {
        let j = choose|j: int| 0 <= j < cs.len() && cs[j].peer_address == sender;
        assert(init[j] == cs[j]);
        assert forall|i: int| 0 <= i < init.len() implies (#[trigger] init[i]).connectivity.state
            == ConnectivityState::Connected by {
            assert(init[i] == cs[i]);
        }
        assert forall|a: int, b: int|
            0 <= a < init.len() && 0 <= b < init.len() && a != b implies init[a].peer_address
            != init[b].peer_address by {
            assert(init[a] == cs[a] && init[b] == cs[b]);
        }
        lemma_relay_reaches_every_other_peer(init, sender, payload);
    }
}

/// Eviction leaves no connection that is to be dropped.
pub proof fn lemma_kept_none_dropped(cs: Seq<ConnectionView>, time: u64)
    ensures
        forall|i: int|
            0 <= i < kept(cs, time).len() ==> !conn_should_drop(#[trigger] kept(cs, time)[i], time),
    decreases cs.len(),
{
    if cs.len() > 0 {
        lemma_kept_none_dropped(cs.drop_last(), time);
        let prev = kept(cs.drop_last(), time);
        assert forall|i: int| 0 <= i < kept(cs, time).len() implies !conn_should_drop(
            #[trigger] kept(cs, time)[i],
            time,
        ) by {
            if i < prev.len() {
                assert(kept(cs, time)[i] == prev[i]);
            }
        }
    }
}

} // verus!
