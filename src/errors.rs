//! Errors of the codec, of the handshake and of the socket around them.
use vstd::prelude::*;
use vstd::string::StringExecFns;

verus! {

/// `std::io::Error`, carried unopened in `ErrorKind::IOError`.
#[verifier::external_type_specification]
#[verifier::external_body]
pub struct ExIoError(std::io::Error);

/// tokio's `time::Elapsed`, the error of a timed-out receive, carried
/// unopened in `ErrorKind::ReadTimeout`.
#[verifier::external_type_specification]
#[verifier::external_body]
pub struct ExElapsed(tokio::time::Elapsed);

pub type Result<T> = core::result::Result<T, ErrorKind>;

#[derive(Debug)]
pub enum ErrorKind {
    /// Wrapper around a std io::Error
    IOError(std::io::Error),
    /// Error in decoding the packet
    DecodingError(DecodingErrorKind),
    /// Expected header but could not be read from buffer.
    CouldNotReadHeader(String),
    /// Protocol version does not match
    ProtocolVersionMismatch,
    /// Invalid session id
    SessionMismatch,
    /// Socket read timeout expired
    ReadTimeout(tokio::time::Elapsed),
}

/// Errors that could occur while parsing packet contents
#[derive(Debug, PartialEq, Eq, Clone, Copy, Structural)]
pub enum DecodingErrorKind {
    /// The packet type could not be read
    PacketType,
    /// The payload is shorter than its packet type requires
    Payload,
}

/// Why a datagram was refused, as the contracts speak of it.
pub ghost enum Fault {
    MissingBaseHeader,
    MissingSessionHeader,
    MissingPeerIdHeader,
    UnknownPacketType,
    ShortChallenge,
    VersionMismatch,
    SessionMismatch,
}

/// `e` is the error that reports `f`.
pub open spec fn reports(e: ErrorKind, f: Fault) -> bool {
    match f {
        Fault::MissingBaseHeader => e matches ErrorKind::CouldNotReadHeader(m) && m@ == "base"@,
        Fault::MissingSessionHeader => e matches ErrorKind::CouldNotReadHeader(m) && m@
            == "session id"@,
        Fault::MissingPeerIdHeader => e matches ErrorKind::CouldNotReadHeader(m) && m@
            == "peer id"@,
        Fault::UnknownPacketType => e == ErrorKind::DecodingError(DecodingErrorKind::PacketType),
        Fault::ShortChallenge => e == ErrorKind::DecodingError(DecodingErrorKind::Payload),
        Fault::VersionMismatch => e == ErrorKind::ProtocolVersionMismatch,
        Fault::SessionMismatch => e == ErrorKind::SessionMismatch,
    }
}

/// `r` fails exactly where `expected` does, with the error that reports its
/// fault, and succeeds with the value that `view` maps to the expected one.
pub open spec fn agrees<T, U>(
    r: Result<T>,
    expected: core::result::Result<U, Fault>,
    view: spec_fn(T) -> U,
) -> bool {
    match expected {
        Ok(u) => r matches Ok(t) && view(t) == u,
        Err(f) => r matches Err(e) && reports(e, f),
    }
}

/// Relies on the `Debug` impl of `std::io::Error`. Nothing is promised of
/// the text.
#[verifier::external_body]
fn io_error_text(e: &std::io::Error) -> (r: String) {
    format!("{:?}", e)
}

/// Relies on the `Display` impl of tokio's `Elapsed`, which writes the fixed
/// text "deadline has elapsed".
#[verifier::external_body]
fn elapsed_text(e: &tokio::time::Elapsed) -> (r: String)
    ensures
        r@ == "deadline has elapsed"@,
{
    format!("{}", e)
}

impl DecodingErrorKind {
    /// A sentence that describes the error.
    pub fn message(&self) -> (r: String)
        ensures
            *self == DecodingErrorKind::PacketType ==> r@ == "The packet type could not be read."@,
            *self == DecodingErrorKind::Payload ==> r@
                == "The payload is shorter than its packet type requires."@,
    {
        match self {
            DecodingErrorKind::PacketType => "The packet type could not be read.".to_owned(),
            DecodingErrorKind::Payload => "The payload is shorter than its packet type requires.".to_owned(),
        }
    }
}

impl ErrorKind {
    /// A sentence that describes the error.
    pub fn message(&self) -> (r: String)
        ensures
            self is IOError ==> exists|reason: Seq<char>|
                r@ == "An IO Error occurred. Reason: "@ + reason + "."@,
            self matches ErrorKind::DecodingError(d) ==> (d == DecodingErrorKind::PacketType
                ==> r@ == "Something went wrong with parsing the header. Reason: "@
                + "The packet type could not be read."@ + "."@),
            self matches ErrorKind::DecodingError(d) ==> (d == DecodingErrorKind::Payload ==> r@
                == "Something went wrong with parsing the header. Reason: "@
                + "The payload is shorter than its packet type requires."@ + "."@),
            self matches ErrorKind::CouldNotReadHeader(h) ==> r@ == "Expected "@ + h@
                + " header but could not be read from buffer."@,
            self is ProtocolVersionMismatch ==> r@ == "The protocol versions do not match."@,
            self is SessionMismatch ==> r@ == "The session id does not match."@,
            self is ReadTimeout ==> r@ == "The socket read timeout expired. Reason: "@
                + "deadline has elapsed"@ + "."@,
    {
        match self {
            ErrorKind::IOError(e) => {
                let mut r = "An IO Error occurred. Reason: ".to_owned();
                let reason = io_error_text(e);
                r.append(reason.as_str());
                r.append(".");
                r
            },
            ErrorKind::DecodingError(d) => {
                let mut r = "Something went wrong with parsing the header. Reason: ".to_owned();
                let reason = d.message();
                r.append(reason.as_str());
                r.append(".");
                r
            },
            ErrorKind::CouldNotReadHeader(header) => {
                let mut r = "Expected ".to_owned();
                r.append(header.as_str());
                r.append(" header but could not be read from buffer.");
                r
            },
            ErrorKind::ProtocolVersionMismatch => "The protocol versions do not match.".to_owned(),
            ErrorKind::SessionMismatch => "The session id does not match.".to_owned(),
            ErrorKind::ReadTimeout(elapsed) => {
                let mut r = "The socket read timeout expired. Reason: ".to_owned();
                let reason = elapsed_text(elapsed);
                r.append(reason.as_str());
                r.append(".");
                r
            },
        }
    }
}

impl From<std::io::Error> for ErrorKind {
    fn from(inner: std::io::Error) -> (r: ErrorKind) {
        ErrorKind::IOError(inner)
    }
}

impl vstd::std_specs::convert::FromSpecImpl<std::io::Error> for ErrorKind {
    open spec fn obeys_from_spec() -> bool {
        true
    }

    open spec fn from_spec(v: std::io::Error) -> ErrorKind {
        ErrorKind::IOError(v)
    }
}

impl From<tokio::time::Elapsed> for ErrorKind {
    fn from(inner: tokio::time::Elapsed) -> (r: ErrorKind) {
        ErrorKind::ReadTimeout(inner)
    }
}

impl vstd::std_specs::convert::FromSpecImpl<tokio::time::Elapsed> for ErrorKind {
    open spec fn obeys_from_spec() -> bool {
        true
    }

    open spec fn from_spec(v: tokio::time::Elapsed) -> ErrorKind {
        ErrorKind::ReadTimeout(v)
    }
}

} // verus!
