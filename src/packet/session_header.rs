//! The eight-byte header that carries a session id or a peer id.
use crate::errors::{agrees, ErrorKind, Fault, Result};
use crate::net::constants::SESSION_HEADER_SIZE;
use crate::packet::bytes::{
    append_bytes, be_u64_bytes, be_u64_value, lemma_be_u64_round_trip, read_be_u64, write_be_u64,
};
use vstd::prelude::*;

verus! {

/// The session header at the front of `s`, or why there is none.
pub open spec fn decode_session_header(s: Seq<u8>) -> core::result::Result<u64, Fault> {
    if s.len() < 8 {
        Err(Fault::MissingSessionHeader)
    } else {
        Ok(be_u64_value(s))
    }
}

/// This header will be included in each packet sent by client, with server_salt^client_salt value
///
/// When requesting connection intermediate values are used:
/// client provides client_salt, server provides server_salt with client_salt in payload,
#[derive(Copy, Clone, Debug)]
pub struct SessionHeader {
    session_id: u64,
}

/// Decoding the encoding of a session header, whatever follows it, gives back
/// its id.
pub proof fn lemma_session_header_round_trip(header: SessionHeader, rest: Seq<u8>)
    ensures
        decode_session_header(be_u64_bytes(header@) + rest) == Ok::<u64, Fault>(header@),
{
    lemma_be_u64_round_trip(header@, rest);
}

impl View for SessionHeader {
    type V = u64;

    closed spec fn view(&self) -> u64 {
        self.session_id
    }
}

impl SessionHeader {
    /// Creates new header.
    pub fn new(session_id: u64) -> (r: Self)
        ensures
            r@ == session_id,
    {
        SessionHeader { session_id }
    }

    /// Returns the id that the header carries.
    pub fn session_id(&self) -> (r: u64)
        ensures
            r == self@,
    {
        self.session_id
    }

    /// Writes the header at the end of `buffer`.
    pub fn parse(&self, buffer: &mut Vec<u8>) -> (r: Result<()>)
        ensures
            r is Ok,
            final(buffer)@ == old(buffer)@ + be_u64_bytes(self@),
    {
        let bytes = write_be_u64(self.session_id);
        append_bytes(buffer, &bytes);
        Ok(())
    }

    /// Reads the header at the front of `buffer`.
    pub fn read(buffer: &[u8]) -> (r: Result<SessionHeader>)
        ensures
            agrees(r, decode_session_header(buffer@), |h: SessionHeader| h@),
    {
        if buffer.len() < 8 {
            return Err(ErrorKind::CouldNotReadHeader("session id".to_owned()));
        }
        Ok(SessionHeader { session_id: read_be_u64(buffer) })
    }

    /// Returns the size of this header.
    pub fn size() -> (r: u8)
        ensures
            r == SESSION_HEADER_SIZE,
    {
        SESSION_HEADER_SIZE
    }
}

} // verus!
