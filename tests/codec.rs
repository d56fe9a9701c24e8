use byteorder::{BigEndian, ReadBytesExt};
use physync::net::constants::{BASE_HEADER_SIZE, DEFAULT_MTU, SESSION_HEADER_SIZE};
use physync::{
    BaseHeader, DecodingErrorKind, EnumConverter, ErrorKind, OutgoingPacketBuilder, PacketReader,
    PacketType, ProtocolVersion, SessionHeader,
};
use std::convert::TryFrom;

fn test_payload() -> Vec<u8> {
    b"test".to_vec()
}

#[test]
fn base_header_serialize() {
    let mut buffer = Vec::new();
    let header = BaseHeader::new(PacketType::Data);
    assert![header.parse(&mut buffer).is_ok()];

    assert_eq!(
        buffer.as_slice().read_u16::<BigEndian>().unwrap(),
        ProtocolVersion::get_crc16()
    );
    assert_eq!(buffer[2], PacketType::Data.to_u8());
}

#[test]
fn base_header_deserialize() {
    let buffer = vec![0, 1, 0];

    let header = BaseHeader::read(buffer.as_slice()).unwrap();

    assert_eq!(header.protocol_version(), 1);
    assert_eq!(header.packet_type(), PacketType::Data);
}

#[test]
fn base_header_size() {
    assert_eq!(BaseHeader::size(), BASE_HEADER_SIZE);
}

#[test]
fn session_header_serialize() {
    let mut buffer = Vec::new();
    let header = SessionHeader::new(1_u64);
    assert![header.parse(&mut buffer).is_ok()];

    assert_eq!(buffer[7], 1);
}

#[test]
fn session_header_deserialize() {
    let buffer = vec![0, 0, 0, 0, 0, 0, 0, 1];

    let header = SessionHeader::read(buffer.as_slice()).unwrap();

    assert_eq!(header.session_id(), 1);
}

#[test]
fn session_header_size() {
    assert_eq!(SessionHeader::size(), SESSION_HEADER_SIZE);
}

#[test]
fn assure_creation_session_header() {
    let payload = test_payload();

    let outgoing = OutgoingPacketBuilder::new(&payload)
        .with_session_header(1_u64)
        .build();

    let expected: Vec<u8> = [vec![0, 0, 0, 0, 0, 0, 0, 1], test_payload()]
        .concat()
        .to_vec();

    assert_eq!(outgoing.contents().to_vec(), expected);
}

#[test]
fn assure_creation_default_header() {
    let payload = test_payload();

    let outgoing = OutgoingPacketBuilder::new(&payload)
        .with_default_header(PacketType::Connect)
        .build();

    let expected: Vec<u8> = [vec![1], test_payload()].concat().to_vec();

    assert_eq!(
        outgoing.contents()[2..outgoing.contents().len()].to_vec(),
        expected
    );
}

#[test]
fn can_read_bytes() {
    let buffer = vec![1, 2, 3, 4, 5, 6, 7, 8, 9, 10];

    let reader = PacketReader::new(buffer.as_slice());
    assert_eq!(reader.can_read(buffer.len() as u8), true);
    assert_eq!(reader.can_read((buffer.len() + 1) as u8), false);
}

#[test]
fn assure_read_base_header() {
    // base header
    let payload: Vec<u8> = vec![vec![0, 1, 0]].concat();

    let mut reader = PacketReader::new(payload.as_slice());

    let header = reader.read_base_header().unwrap();

    assert_eq!(header.protocol_version(), 1);
    assert_eq!(header.packet_type(), PacketType::Data);
}

#[test]
fn assure_read_session_header() {
    // base header, session header
    let payload: Vec<u8> = vec![vec![0, 1, 0], vec![0, 0, 0, 0, 0, 0, 0, 3]].concat();

    let mut reader = PacketReader::new(payload.as_slice());

    let header = reader.read_session_header().unwrap();

    assert_eq!(header.session_id(), 3);
}

#[test]
fn assure_read_id_header() {
    // base header, session header, id header
    let payload: Vec<u8> = vec![
        vec![0, 1, 0],
        vec![0, 0, 0, 0, 0, 0, 0, 3],
        vec![0, 0, 0, 0, 0, 0, 0, 5],
    ]
    .concat();

    let mut reader = PacketReader::new(payload.as_slice());

    let header = reader.read_id_header().unwrap();

    assert_eq!(header.session_id(), 5);
}

#[test]
fn expect_read_error() {
    // base header (with one corrupt byte)
    let payload: Vec<u8> = vec![vec![0, 1]].concat();

    let mut reader = PacketReader::new(payload.as_slice());

    assert!(reader.read_base_header().is_err());
}

#[test]
fn protocol_fingerprint_is_crc16_ccitt_of_version() {
    assert_eq!(ProtocolVersion::get_crc16(), 0x5CFB);
    assert!(ProtocolVersion::valid_version(0x5CFB));
    assert!(!ProtocolVersion::valid_version(0));
}

#[test]
fn base_header_bytes_are_fingerprint_then_type() {
    let mut buffer = vec![9];
    BaseHeader::new(PacketType::Heartbeat).parse(&mut buffer).unwrap();
    assert_eq!(buffer, vec![9, 0x5C, 0xFB, 3]);
    assert!(BaseHeader::new(PacketType::Heartbeat).is_current_protocol());
    assert_eq!(BaseHeader::default().packet_type(), PacketType::Data);
}

#[test]
fn session_header_bytes_are_big_endian() {
    let mut buffer = Vec::new();
    SessionHeader::new(0x0102_0304_0506_0708).parse(&mut buffer).unwrap();
    assert_eq!(buffer, vec![1, 2, 3, 4, 5, 6, 7, 8]);
    let read = SessionHeader::read(&[0x80, 0, 0, 0, 0, 0, 0x01, 0x02, 0xFF]).unwrap();
    assert_eq!(read.session_id(), 0x8000_0000_0000_0102);
}

#[test]
fn base_header_round_trip_for_every_type() {
    for t in [
        PacketType::Data,
        PacketType::Connect,
        PacketType::Disconnect,
        PacketType::Heartbeat,
    ] {
        let header = BaseHeader::new(t);
        let mut buffer = Vec::new();
        header.parse(&mut buffer).unwrap();
        buffer.push(42);
        let back = BaseHeader::read(&buffer).unwrap();
        assert_eq!(back.packet_type(), t);
        assert_eq!(back.protocol_version(), header.protocol_version());
        assert!(back.is_current_protocol());
    }
}

#[test]
fn session_header_round_trip() {
    for id in [0_u64, 1, 0xAAAA_AAAA_AAAA_AAAA, u64::MAX] {
        let mut buffer = Vec::new();
        SessionHeader::new(id).parse(&mut buffer).unwrap();
        assert_eq!(SessionHeader::read(&buffer).unwrap().session_id(), id);
    }
}

#[test]
fn builder_contents_decode_to_type_session_and_payload() {
    let payload = b"hello".to_vec();
    let out = OutgoingPacketBuilder::new(&payload)
        .with_default_header(PacketType::Data)
        .with_session_header(0x1234)
        .build();
    let contents = out.contents();
    assert_eq!(contents.len(), 3 + 8 + 5);
    let mut reader = PacketReader::new(&contents);
    let base = reader.read_base_header().unwrap();
    assert_eq!(base.packet_type(), PacketType::Data);
    assert!(base.is_current_protocol());
    assert_eq!(reader.read_session_header().unwrap().session_id(), 0x1234);
    assert_eq!(reader.read_payload().to_vec(), payload);
    assert!(contents.len() <= DEFAULT_MTU as usize);
}

#[test]
fn unknown_packet_type_is_a_decoding_error() {
    let buffer = vec![0x5C, 0xFB, 4];
    assert!(matches!(
        BaseHeader::read(&buffer),
        Err(ErrorKind::DecodingError(DecodingErrorKind::PacketType))
    ));
    assert!(matches!(
        PacketType::try_from(7),
        Err(ErrorKind::DecodingError(DecodingErrorKind::PacketType))
    ));
    assert_eq!(PacketType::try_from(2).unwrap(), PacketType::Disconnect);
}

#[test]
fn short_buffers_name_the_missing_header() {
    let mut reader = PacketReader::new(&[0, 1]);
    match reader.read_base_header() {
        Err(ErrorKind::CouldNotReadHeader(which)) => assert_eq!(which, "base"),
        _ => panic!("expected a missing base header"),
    }
    let bytes = [0x5C, 0xFB, 1, 0, 0, 0, 0, 0, 0, 0, 7, 1, 2];
    let mut reader = PacketReader::new(&bytes);
    match reader.read_id_header() {
        Err(ErrorKind::CouldNotReadHeader(which)) => assert_eq!(which, "peer id"),
        _ => panic!("expected a missing peer id header"),
    }
    match reader.read_session_header() {
        Ok(h) => assert_eq!(h.session_id(), 7),
        Err(_) => panic!("expected a session header"),
    }
    match PacketReader::new(&bytes[..6]).read_session_header() {
        Err(ErrorKind::CouldNotReadHeader(which)) => assert_eq!(which, "session id"),
        _ => panic!("expected a missing session header"),
    }
}

#[test]
fn payload_follows_the_last_header_read() {
    let bytes = [0x5C, 0xFB, 0, 1, 2, 3, 4, 5, 6, 7, 8, 10, 11];
    let mut reader = PacketReader::new(&bytes);
    reader.read_base_header().unwrap();
    assert_eq!(reader.read_payload().to_vec(), vec![1, 2, 3, 4, 5, 6, 7, 8, 10, 11]);
    reader.read_session_header().unwrap();
    assert_eq!(reader.read_payload().to_vec(), vec![10, 11]);
    let short = [1_u8, 2];
    let mut reader = PacketReader::new(&short);
    assert!(reader.read_session_header().is_err());
    assert!(reader.read_payload().is_empty());
}

#[test]
fn error_messages() {
    assert_eq!(
        ErrorKind::CouldNotReadHeader(String::from("base")).message(),
        "Expected base header but could not be read from buffer."
    );
    assert_eq!(
        ErrorKind::ProtocolVersionMismatch.message(),
        "The protocol versions do not match."
    );
    assert_eq!(ErrorKind::SessionMismatch.message(), "The session id does not match.");
    assert_eq!(
        ErrorKind::DecodingError(DecodingErrorKind::PacketType).message(),
        "Something went wrong with parsing the header. Reason: The packet type could not be read.."
    );
    assert_eq!(
        DecodingErrorKind::Payload.message(),
        "The payload is shorter than its packet type requires."
    );
    let io = ErrorKind::from(std::io::Error::new(std::io::ErrorKind::Other, "boom"));
    assert!(io.message().starts_with("An IO Error occurred. Reason: "));
    assert!(io.message().ends_with('.'));
}
