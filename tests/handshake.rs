use physync::net::constants::{DEFAULT_HEARTBEAT, DEFAULT_IDLE_TIMEOUT};
use physync::{
    ConnectivityHandler, Connection, DecodingErrorKind, ErrorKind, Packet, PacketReader,
    PacketType, PeerAddr,
};

const SALT_A: u64 = 0xAAAA_AAAA_AAAA_AAAA;
const SALT_B: u64 = 0xBBBB_BBBB_BBBB_BBBB;

fn addr(port: u16) -> PeerAddr {
    PeerAddr { ip: 0x7f00_0001, port, is_v6: false }
}

fn be(n: u64) -> Vec<u8> {
    n.to_be_bytes().to_vec()
}

fn frame(t: u8, session: u64, rest: &[u8]) -> Vec<u8> {
    [vec![0x5C, 0xFB, t], be(session), rest.to_vec()].concat()
}

fn connect_frame(session: u64, id: u64) -> Vec<u8> {
    frame(1, session, &[be(id), vec![0; 32]].concat())
}

/// Runs the handshake of two fresh connections; gives them connected.
fn handshaken() -> (Connection, Connection) {
    let mut a = Connection::with_connectivity(addr(2), 0, ConnectivityHandler::with_id(SALT_A));
    let mut b = Connection::with_connectivity(addr(1), 0, ConnectivityHandler::with_id(SALT_B));
    let c1 = a.update(0).unwrap();
    assert!(b.process_in(c1.payload(), 1).unwrap().is_none());
    let c2 = b.update(2).unwrap();
    assert!(a.process_in(c2.payload(), 3).unwrap().is_none());
    let data = a.process_out(&Packet::new(addr(2), Box::new([7_u8])), PacketType::Data, 4);
    assert!(b.process_in(data.payload(), 5).unwrap().is_some());
    (a, b)
}

#[test]
fn handshake_completes() {
    let mut a = Connection::with_connectivity(addr(2), 0, ConnectivityHandler::with_id(SALT_A));
    let mut b = Connection::with_connectivity(addr(1), 0, ConnectivityHandler::with_id(SALT_B));

    // A: Connect with session 0, its salt and a zero challenge.
    let c1 = a.update(0).unwrap();
    assert_eq!(c1.addr(), addr(2));
    assert_eq!(c1.payload().to_vec(), connect_frame(0, SALT_A));
    assert!(b.process_in(c1.payload(), 1).unwrap().is_none());
    assert!(!b.is_connected());

    // B: Connect with the shared session and its own salt.
    let c2 = b.update(2).unwrap();
    assert_eq!(c2.addr(), addr(1));
    assert_eq!(c2.payload().to_vec(), connect_frame(SALT_A ^ SALT_B, SALT_B));
    assert!(a.process_in(c2.payload(), 3).unwrap().is_none());
    assert!(a.is_connected());

    // A: data in the shared session; B connects on it.
    let data = a.process_out(&Packet::new(addr(2), Box::new([1_u8, 2])), PacketType::Data, 4);
    assert_eq!(data.payload().to_vec(), frame(0, SALT_A ^ SALT_B, &[1, 2]));
    let relayed = b.process_in(data.payload(), 5).unwrap().unwrap();
    assert_eq!(relayed.payload().to_vec(), vec![1, 2]);
    assert_eq!(relayed.addr(), addr(1));
    assert!(b.is_connected());

    // Neither sends a Connect any more.
    assert!(a.update(6).is_none());
    assert!(b.update(6).is_none());
}

#[test]
fn both_sides_derive_the_same_session() {
    let mut a = ConnectivityHandler::with_id(SALT_A);
    let mut b = ConnectivityHandler::with_id(SALT_B);
    assert_eq!(a.session_id(), 0);
    let to_b = connect_frame(0, SALT_A);
    let mut reader = PacketReader::new(&to_b);
    let header = reader.read_base_header().unwrap();
    b.process_in(&header, &mut reader).unwrap();
    let to_a = connect_frame(b.session_id(), SALT_B);
    let mut reader = PacketReader::new(&to_a);
    let header = reader.read_base_header().unwrap();
    a.process_in(&header, &mut reader).unwrap();
    assert_eq!(a.session_id(), b.session_id());
    assert_eq!(a.session_id(), SALT_A ^ SALT_B);
    assert_ne!(a.session_id(), 0);
}

#[test]
fn both_report_connected_after_handshake() {
    let (a, b) = handshaken();
    assert!(a.is_connected());
    assert!(b.is_connected());
}

#[test]
fn idle_connection_should_drop() {
    let c = Connection::with_connectivity(addr(1), 1000, ConnectivityHandler::with_id(3));
    assert!(!c.should_drop(1000 + DEFAULT_IDLE_TIMEOUT - 1));
    assert!(c.should_drop(1000 + DEFAULT_IDLE_TIMEOUT));
    assert!(c.should_drop(1000 + 60_000));
    assert_eq!(c.last_seen(1000 + 250), 250);
    assert_eq!(c.last_seen(10), 0);
}

#[test]
fn connected_connection_sends_heartbeat_after_interval() {
    let (mut a, _) = handshaken();
    // a last sent at 4.
    assert!(a.update(4 + DEFAULT_HEARTBEAT - 1).is_none());
    let beat = a.update(4 + DEFAULT_HEARTBEAT).unwrap();
    assert_eq!(beat.addr(), addr(2));
    assert_eq!(beat.payload().to_vec(), frame(3, SALT_A ^ SALT_B, &[]));
    assert_eq!(a.last_sent(4 + DEFAULT_HEARTBEAT), 0);
    assert!(a.update(4 + DEFAULT_HEARTBEAT + 10).is_none());
}

#[test]
fn pending_connection_repeats_its_connect() {
    let mut a = Connection::with_connectivity(addr(2), 0, ConnectivityHandler::with_id(5));
    assert_eq!(a.update(0).unwrap().payload().to_vec(), connect_frame(0, 5));
    assert_eq!(a.update(1).unwrap().payload().to_vec(), connect_frame(0, 5));
}

#[test]
fn protocol_mismatch_is_reported_and_not_relayed() {
    let mut b = Connection::with_connectivity(addr(1), 0, ConnectivityHandler::with_id(SALT_B));
    let bad = [vec![0, 0, 0], be(0), vec![1, 2, 3]].concat();
    assert!(matches!(b.process_in(&bad, 7), Err(ErrorKind::ProtocolVersionMismatch)));
    assert_eq!(b.last_seen(7), 0);
    assert!(!b.should_drop(7));
}

#[test]
fn session_mismatch_disconnects() {
    let (mut a, mut b) = handshaken();
    let wrong = frame(0, (SALT_A ^ SALT_B) + 1, b"x");
    assert!(matches!(b.process_in(&wrong, 10), Err(ErrorKind::SessionMismatch)));
    assert!(!b.is_connected());
    assert!(b.should_drop(10));
    // a is unaffected.
    assert!(!a.should_drop(10));
    assert!(a.update(11).is_none());
}

#[test]
fn disconnect_packet_disconnects() {
    let (_, mut b) = handshaken();
    let bye = frame(2, SALT_A ^ SALT_B, &[]);
    assert!(b.process_in(&bye, 10).unwrap().is_none());
    assert!(b.should_drop(10));
}

#[test]
fn short_connect_is_refused() {
    let mut b = Connection::with_connectivity(addr(1), 0, ConnectivityHandler::with_id(SALT_B));
    let short = frame(1, 0, &[be(SALT_A), vec![0; 31]].concat());
    assert!(matches!(
        b.process_in(&short, 1),
        Err(ErrorKind::DecodingError(DecodingErrorKind::Payload))
    ));
    let no_id = frame(1, 0, &[1, 2, 3]);
    match b.process_in(&no_id, 1) {
        Err(ErrorKind::CouldNotReadHeader(which)) => assert_eq!(which, "peer id"),
        _ => panic!("expected a missing peer id"),
    }
    let no_session = vec![0x5C, 0xFB, 0, 1];
    match b.process_in(&no_session, 1) {
        Err(ErrorKind::CouldNotReadHeader(which)) => assert_eq!(which, "session id"),
        _ => panic!("expected a missing session id"),
    }
    match b.process_in(&[0x5C], 1) {
        Err(ErrorKind::CouldNotReadHeader(which)) => assert_eq!(which, "base"),
        _ => panic!("expected a missing base header"),
    }
    // None of these disconnected it.
    assert!(!b.should_drop(1));
    assert_eq!(b.update(1).unwrap().payload().to_vec(), connect_frame(0, SALT_B));
}

#[test]
fn random_salts_differ() {
    let first = ConnectivityHandler::new().create_connection_packet(addr(1)).unwrap();
    let second = ConnectivityHandler::default().create_connection_packet(addr(1)).unwrap();
    assert_eq!(first.payload().len(), 8 + 32);
    assert_ne!(first.payload()[..8], second.payload()[..8]);
}

#[test]
fn is_ready_excludes_sender_and_pending() {
    let (a, _) = handshaken();
    assert!(a.is_ready(&addr(9)));
    assert!(!a.is_ready(&addr(2)));
    let pending = Connection::new(addr(3), 0);
    assert!(!pending.is_ready(&addr(9)));
}
