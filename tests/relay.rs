use physync::net::constants::DEFAULT_IDLE_TIMEOUT;
use physync::{
    ConnectionManager, ConnectivityHandler, Connection, ErrorKind, Packet, PacketReader,
    PacketType, PeerAddr,
};

fn addr(port: u16) -> PeerAddr {
    PeerAddr { ip: 0x7f00_0001, port, is_v6: false }
}

const SERVER: u16 = 4000;

/// A client connection to the server, with its own salt.
fn client(salt: u64) -> Connection {
    Connection::with_connectivity(addr(SERVER), 0, ConnectivityHandler::with_id(salt))
}

/// A datagram that `from` sent to the server.
fn arriving(from: u16, p: &Packet) -> Option<Packet> {
    Some(Packet::new(addr(from), p.payload().to_vec().into_boxed_slice()))
}

/// Completes the handshake of `c`, at `port`, with the server at `time`;
/// the server salts the new connection with `salt`.
fn join(server: &mut ConnectionManager, c: &mut Connection, port: u16, time: u64, salt: u64) {
    let connect = c.update(time).unwrap();
    let (out, res) = server.poll_with_salt(arriving(port, &connect), time, salt);
    assert!(res.is_ok());
    let reply = out.iter().find(|p| p.addr() == addr(port)).unwrap();
    assert!(c.process_in(reply.payload(), time).unwrap().is_none());
    assert!(c.is_connected());
    let beat = c.process_out(&Packet::new(addr(SERVER), Box::new([])), PacketType::Heartbeat, time);
    let (_, res) = server.poll_with_salt(arriving(port, &beat), time, 0);
    assert!(res.is_ok());
    assert!(server.get(&addr(port)).unwrap().is_connected());
}

fn data_payload(bytes: &[u8]) -> (PacketType, u64, Vec<u8>) {
    let mut reader = PacketReader::new(bytes);
    let t = reader.read_base_header().unwrap().packet_type();
    let s = reader.read_session_header().unwrap().session_id();
    (t, s, reader.read_payload().to_vec())
}

#[test]
fn three_peer_relay() {
    let mut server = ConnectionManager::new();
    let mut a = client(0xA1);
    let mut b = client(0xB1);
    let mut c = client(0xC1);
    join(&mut server, &mut a, 1, 0, 0x5A);
    join(&mut server, &mut b, 2, 0, 0x5B);
    join(&mut server, &mut c, 3, 0, 0x5C);
    assert_eq!(server.len(), 3);

    let hi = a.process_out(&Packet::new(addr(SERVER), Box::new(*b"hi")), PacketType::Data, 10);
    let (out, res) = server.poll_with_salt(arriving(1, &hi), 10, 0);
    assert!(res.is_ok());
    assert_eq!(out.len(), 2);
    assert!(out.iter().all(|p| p.addr() != addr(1)));
    let to_b = out.iter().find(|p| p.addr() == addr(2)).unwrap();
    let to_c = out.iter().find(|p| p.addr() == addr(3)).unwrap();
    assert_eq!(data_payload(to_b.payload()), (PacketType::Data, 0xB1 ^ 0x5B, b"hi".to_vec()));
    assert_eq!(data_payload(to_c.payload()), (PacketType::Data, 0xC1 ^ 0x5C, b"hi".to_vec()));
    let got_b = b.process_in(to_b.payload(), 11).unwrap().unwrap();
    let got_c = c.process_in(to_c.payload(), 11).unwrap().unwrap();
    assert_eq!(got_b.payload(), b"hi");
    assert_eq!(got_c.payload(), b"hi");
}

#[test]
fn push_to_all_skips_sender() {
    let mut server = ConnectionManager::new();
    let mut peers = Vec::new();
    for port in 1..=4_u16 {
        let mut c = client(port as u64 * 7);
        join(&mut server, &mut c, port, 0, port as u64 * 100);
        peers.push(c);
    }
    let out = server.push_to_all(&Packet::new(addr(3), Box::new([1, 2, 3])), 20);
    assert_eq!(out.len(), 3);
    assert!(out.iter().all(|p| p.addr() != addr(3)));
    for p in &out {
        assert_eq!(data_payload(p.payload()).2, vec![1, 2, 3]);
    }
}

#[test]
fn protocol_mismatch_drop() {
    let mut server = ConnectionManager::new();
    let mut a = client(0xA1);
    join(&mut server, &mut a, 1, 0, 0x5A);
    let mut bad = vec![0x00, 0x00, 0x00];
    bad.extend_from_slice(&(0xA1_u64 ^ 0x5A).to_be_bytes());
    bad.extend_from_slice(b"evil");
    let (out, res) = server.poll_with_salt(Some(Packet::new(addr(9), bad.into_boxed_slice())), 5, 0x59);
    assert!(matches!(res, Err(ErrorKind::ProtocolVersionMismatch)));
    assert!(out.iter().all(|p| p.addr() != addr(1)));
    assert!(server.get(&addr(9)).is_some());

    // A valid Connect from the same address then proceeds normally.
    let mut x = client(0x99);
    let connect = x.update(6).unwrap();
    let (out, res) = server.poll_with_salt(arriving(9, &connect), 6, 0);
    assert!(res.is_ok());
    let reply = out.iter().find(|p| p.addr() == addr(9)).unwrap();
    assert!(x.process_in(reply.payload(), 6).unwrap().is_none());
    assert!(x.is_connected());
}

#[test]
fn session_mismatch_eviction() {
    let mut server = ConnectionManager::new();
    let mut a = client(0xA1);
    join(&mut server, &mut a, 1, 0, 0x5A);
    let session = 0xA1_u64 ^ 0x5A;
    let mut wrong = vec![0x5C, 0xFB, 0];
    wrong.extend_from_slice(&(session + 1).to_be_bytes());
    wrong.extend_from_slice(b"data");
    let (out, res) = server.poll_with_salt(Some(Packet::new(addr(1), wrong.into_boxed_slice())), 5, 0);
    assert!(matches!(res, Err(ErrorKind::SessionMismatch)));
    assert!(out.is_empty());
    assert!(server.get(&addr(1)).is_none());
    assert_eq!(server.len(), 0);
}

#[test]
fn idle_eviction() {
    let mut server = ConnectionManager::new();
    let mut a = client(0xA1);
    join(&mut server, &mut a, 1, 0, 0x5A);
    let (out, res) = server.poll_with_salt(None, 500, 0);
    assert!(res.is_ok());
    assert!(out.is_empty());
    assert!(server.get(&addr(1)).is_some());
    let (_, res) = server.poll_with_salt(None, DEFAULT_IDLE_TIMEOUT, 0);
    assert!(res.is_ok());
    assert!(server.get(&addr(1)).is_none());
}

#[test]
fn disconnect_tear_down() {
    let mut server = ConnectionManager::new();
    let mut a = client(0xA1);
    join(&mut server, &mut a, 1, 0, 0x5A);
    let bye = a.process_out(&Packet::new(addr(SERVER), Box::new([])), PacketType::Disconnect, 5);
    let (_, res) = server.poll_with_salt(arriving(1, &bye), 5, 0);
    assert!(res.is_ok());
    assert!(server.get(&addr(1)).is_none());

    // A new Connect from A makes a brand-new connection.
    let mut again = client(0xA2);
    let connect = again.update(6).unwrap();
    let (out, res) = server.poll_with_salt(arriving(1, &connect), 6, 0x77);
    assert!(res.is_ok());
    let fresh = server.get(&addr(1)).unwrap();
    assert!(!fresh.is_connected());
    let reply = out.iter().find(|p| p.addr() == addr(1)).unwrap();
    assert_eq!(data_payload(reply.payload()).1, 0xA2 ^ 0x77);
}

#[test]
fn heartbeat_from_server_after_interval() {
    let mut server = ConnectionManager::new();
    let mut a = client(0xA1);
    join(&mut server, &mut a, 1, 0, 0x5A);
    let (out, _) = server.poll_with_salt(None, 1000, 0);
    assert_eq!(out.len(), 1);
    assert_eq!(out[0].addr(), addr(1));
    assert_eq!(data_payload(out[0].payload()), (PacketType::Heartbeat, 0xA1 ^ 0x5A, vec![]));
}

#[test]
fn manual_poll_creates_connection_for_new_address() {
    let mut server = ConnectionManager::new();
    let mut a = client(0xA1);
    let connect = a.update(0).unwrap();
    let (out, res) = server.manual_poll(arriving(1, &connect), 0);
    assert!(res.is_ok());
    assert_eq!(server.len(), 1);
    let reply = out.iter().find(|p| p.addr() == addr(1)).unwrap();
    assert!(a.process_in(reply.payload(), 0).unwrap().is_none());
    assert!(a.is_connected());
}
