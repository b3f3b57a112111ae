//! Reply selection for the client facade: each higher-level operation sends
//! one message and expects one reply shape; anything else is an
//! unexpected-message error.

use vstd::prelude::*;
use crate::error::{Error, ProtocolError};
use crate::label::Label;
use crate::message::{Message, MessageModel, State};

verus! {

/// The label carried by a `StateLabel` reply. Any other message yields an
/// unexpected-message error naming the type that arrived.
pub fn expect_state_label(message: Message) -> (r: Result<Label, Error>)
    ensures
        match message@ {
            MessageModel::StateLabel { label } => (r matches Ok(l) && l@ == label),
            _ => r == Err::<Label, Error>(
                Error::Protocol(ProtocolError::UnexpectedMessage(message@.spec_type())),
            ),
        },
{
    match message {
        Message::StateLabel(inner) => Ok(inner.label),
        other => Err(Error::Protocol(ProtocolError::UnexpectedMessage(other.message_type()))),
    }
}

/// The light state carried by a `State` reply. Any other message yields an
/// unexpected-message error naming the type that arrived.
pub fn expect_state(message: Message) -> (r: Result<State, Error>)
    ensures
        match message@ {
            MessageModel::State { color, power, label } => (r matches Ok(s) && s.color == color
                && s.power == power && s.label@ == label),
            _ => r == Err::<State, Error>(
                Error::Protocol(ProtocolError::UnexpectedMessage(message@.spec_type())),
            ),
        },
{
    match message {
        Message::State(inner) => Ok(inner),
        other => Err(Error::Protocol(ProtocolError::UnexpectedMessage(other.message_type()))),
    }
}

} // verus!
