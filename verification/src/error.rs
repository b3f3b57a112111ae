//! Error kinds raised by the codec and by the connection engine.

use vstd::prelude::*;
use crate::message::MessageType;

verus! {

/// A failure while encoding or decoding the wire format, or a message of an
/// unexpected type at dispatch.
#[derive(Debug, Clone, Copy, PartialEq, Eq, Structural)]
pub enum ProtocolError {
    /// The received message type does not match what the caller or the
    /// dispatcher expected.
    UnexpectedMessage(MessageType),
    /// The low 12 bits of the protocol-flags word differ from 1024.
    InvalidProtocol(u16),
    /// The addressable bit of the protocol-flags word is clear.
    NotAddressable,
    /// The origin bits of the protocol-flags word are nonzero.
    InvalidOrigin(u8),
    /// A label field is not valid UTF-8.
    InvalidLabel,
    /// A color temperature outside the accepted Kelvin range.
    InvalidKelvin(u16),
    /// The buffer ended before the full header or payload.
    InsufficientData,
    /// A frame whose declared size exceeds the accepted maximum.
    PacketTooLarge(u16),
}

/// A failure of a client operation.
#[derive(Debug, Clone, Copy, PartialEq, Eq, Structural)]
pub enum Error {
    /// Every sequence number has a response outstanding.
    SequenceExhausted,
    /// A wire-format or dispatch failure.
    Protocol(ProtocolError),
    /// The connection engine has stopped.
    ConnectionClosed,
}

} // verus!
