//! The error taxonomy of the client.
//!
//! Every failure the library reports carries one of these kinds, so that a
//! caller can tell a local legality check (`IncorrectStateForCommand`,
//! `MessageIsDeleted`) from a malformed server reply (`InvalidResponse`,
//! `ParseInt`) and from a server that declined a well-formed command
//! (`ServerError`, which carries the server's own text).

use vstd::prelude::*;

verus! {

/// What went wrong. Transport-level kinds (`Io`, `Tls`, `ConnectionClosed`)
/// are constructed by the transport adapter around this library; the core
/// itself only produces the parse, sequencing and policy kinds.
#[derive(Debug, PartialEq, Eq)]
pub enum ErrorKind {
    /// Failure while establishing or using a TLS-wrapped transport.
    Tls,
    /// Failure reading from or writing to the transport.
    Io,
    /// A numeric field of a reply was not a valid non-negative integer.
    ParseInt,
    /// A textual field of a reply was not valid text.
    ParseString,
    /// The server declined the command with a negative status; the payload
    /// is the server's own explanation, verbatim.
    ServerError(Vec<u8>),
    /// A command was issued on a session whose transport is gone.
    NotConnected,
    /// A connection was requested while one is already open.
    ShouldNotBeConnected,
    /// The command is not legal in the session's current state.
    IncorrectStateForCommand,
    /// The referenced message was already marked deleted in this session.
    MessageIsDeleted,
    /// A capability was requested that the server did not advertise.
    FeatureUnsupported,
    /// The first reply after connecting was missing or negative.
    ServerFailedToGreet,
    /// A reply did not have the shape the protocol requires.
    InvalidResponse,
    /// A multi-line reply exceeded the accumulated-size budget.
    ResponseTooLarge,
    /// A reply was handled with no command outstanding.
    MissingRequest,
    /// A command could not be rendered to the wire.
    ParseCommand,
    /// A reply was well-formed but not of the kind the command expects.
    UnexpectedResponse,
    /// The server closed the connection mid-conversation.
    ConnectionClosed,
}

/// An error: a kind plus a human-readable message.
#[derive(Debug)]
pub struct Error {
    pub message: String,
    pub kind: ErrorKind,
}

impl Error {
    pub fn new(error_kind: ErrorKind, message: String) -> (e: Error)
        ensures
            e.kind == error_kind,
            e.message == message,
    {
        Error { message, kind: error_kind }
    }

    pub fn message(&self) -> (m: &str)
        ensures
            m@ == self.message@,
    {
        self.message.as_str()
    }

    pub fn kind(&self) -> (k: &ErrorKind)
        ensures
            *k == self.kind,
    {
        &self.kind
    }
}

} // verus!
