//! Error taxonomy of the protocol engine.

use vstd::prelude::*;

verus! {

/// What the transport reported when a read, write or flush failed.
#[derive(Clone, Copy, Debug, PartialEq, Eq)]
pub enum IoFault {
    /// The read timeout elapsed before the peer answered.
    TimedOut,
    /// Any other failure of the established connection.
    Other,
}

/// Detail of a protocol violation.
#[allow(inconsistent_fields)]
#[derive(Clone, Debug, PartialEq, Eq)]
pub enum ProtocolFault {
    /// The response carries another opcode than the request.
    CommandMismatch { received: u8, expected: u8 },
    /// The response is too short to hold an opcode.
    MissingCommand,
    /// The response is too short to hold a result code.
    MissingResult,
    /// A successful response carries the wrong number of data bytes.
    ResponseLength { expected: usize, received: usize },
    /// The device reported an application error with this message.
    Device(String),
    /// The device answered with an unrecognised result code.
    ResultCode(u8),
    /// A request payload has the wrong number of bytes.
    RequestLength { expected: usize, received: usize },
}

/// Everything that can go wrong while talking to a device.
#[derive(Clone, Debug, PartialEq, Eq)]
pub enum Gbl32Error {
    /// The retry budget ran out while establishing the link.
    Handshake,
    /// The frame codec rejected the received bytes.
    Decode,
    /// The peer broke the protocol.
    Protocol(ProtocolFault),
    /// Opening or configuring the connection failed.
    Serial,
    /// Reading, writing or flushing the connection failed.
    Io(IoFault),
}

/// Mathematical model of a [`Gbl32Error`].
#[allow(inconsistent_fields)]
pub enum Fault {
    Handshake,
    Decode,
    CommandMismatch { received: u8, expected: u8 },
    MissingCommand,
    MissingResult,
    ResponseLength { expected: usize, received: usize },
    Device(Seq<char>),
    ResultCode(u8),
    RequestLength { expected: usize, received: usize },
    Serial,
    Io(IoFault),
}

impl View for ProtocolFault {
    type V = Fault;

    open spec fn view(&self) -> Fault {
        match *self {
            ProtocolFault::CommandMismatch { received, expected } => Fault::CommandMismatch {
                received,
                expected,
            },
            ProtocolFault::MissingCommand => Fault::MissingCommand,
            ProtocolFault::MissingResult => Fault::MissingResult,
            ProtocolFault::ResponseLength { expected, received } => Fault::ResponseLength {
                expected,
                received,
            },
            ProtocolFault::Device(message) => Fault::Device(message@),
            ProtocolFault::ResultCode(code) => Fault::ResultCode(code),
            ProtocolFault::RequestLength { expected, received } => Fault::RequestLength {
                expected,
                received,
            },
        }
    }
}

impl View for Gbl32Error {
    type V = Fault;

    open spec fn view(&self) -> Fault {
        match *self {
            Gbl32Error::Handshake => Fault::Handshake,
            Gbl32Error::Decode => Fault::Decode,
            Gbl32Error::Protocol(detail) => detail@,
            Gbl32Error::Serial => Fault::Serial,
            Gbl32Error::Io(fault) => Fault::Io(fault),
        }
    }
}

impl Fault {
    /// Whether a handshake round that ended in this fault may be tried again:
    /// a read timeout, a frame that does not decode, or a protocol violation.
    pub open spec fn retryable(self) -> bool {
        match self {
            Fault::Handshake | Fault::Serial => false,
            Fault::Io(fault) => fault == IoFault::TimedOut,
            _ => true,
        }
    }
}

impl Gbl32Error {
    /// Tells whether a handshake round that ended in this error counts as a
    /// failed round, rather than ending the handshake at once.
    pub fn is_retryable(&self) -> (r: bool)
        ensures
            r == self@.retryable(),
    {
        match self {
            Gbl32Error::Decode => true,
            Gbl32Error::Protocol(_) => true,
            Gbl32Error::Io(IoFault::TimedOut) => true,
            _ => false,
        }
    }
}

} // verus!
