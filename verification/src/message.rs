//! The catalog of supported LIFX messages and their payload codecs.

use vstd::prelude::*;
use vstd::utf8::encode_utf8;
use crate::color::Hsbk;
use crate::error::ProtocolError;
use crate::label::Label;
use crate::wire::{
    u16_le_bytes, u32_le_bytes, u16_from_le, u32_from_le, zero_bytes, push_u16_le, push_u32_le,
    push_zero_bytes, read_u16_le, read_u32_le,
};

verus! {

/// The type of a LIFX message, as carried in the header's `message_type`
/// field. Codes without a supported payload are kept as `Other`.
#[derive(Debug, Clone, Copy, PartialEq, Eq, Structural)]
pub enum MessageType {
    GetService,
    StateService,
    GetLabel,
    SetLabel,
    StateLabel,
    Acknowledgement,
    Get,
    SetColor,
    State,
    Other(u16),
}

/// Service exposed by a LIFX device.
#[derive(Debug, Clone, Copy, PartialEq, Eq, Structural)]
pub enum Service {
    Udp,
    Unknown(u8),
}

impl MessageType {
    /// The message type denoted by a wire code.
    pub open spec fn spec_from_code(value: u16) -> MessageType {
        if value == 2 {
            MessageType::GetService
        } else if value == 3 {
            MessageType::StateService
        } else if value == 23 {
            MessageType::GetLabel
        } else if value == 24 {
            MessageType::SetLabel
        } else if value == 25 {
            MessageType::StateLabel
        } else if value == 45 {
            MessageType::Acknowledgement
        } else if value == 101 {
            MessageType::Get
        } else if value == 102 {
            MessageType::SetColor
        } else if value == 107 {
            MessageType::State
        } else {
            MessageType::Other(value)
        }
    }

    /// The wire code of a message type.
    pub open spec fn spec_code(self) -> u16 {
        match self {
            MessageType::GetService => 2,
            MessageType::StateService => 3,
            MessageType::GetLabel => 23,
            MessageType::SetLabel => 24,
            MessageType::StateLabel => 25,
            MessageType::Acknowledgement => 45,
            MessageType::Get => 101,
            MessageType::SetColor => 102,
            MessageType::State => 107,
            MessageType::Other(value) => value,
        }
    }

    /// Reads a message type from its wire code.
    pub fn from_code(value: u16) -> (r: MessageType)
        ensures
            r == MessageType::spec_from_code(value),
    {
        match value {
            2 => MessageType::GetService,
            3 => MessageType::StateService,
            23 => MessageType::GetLabel,
            24 => MessageType::SetLabel,
            25 => MessageType::StateLabel,
            45 => MessageType::Acknowledgement,
            101 => MessageType::Get,
            102 => MessageType::SetColor,
            107 => MessageType::State,
            _ => MessageType::Other(value),
        }
    }

    /// The wire code of this message type.
    pub fn code(self) -> (r: u16)
        ensures
            r == self.spec_code(),
    {
        match self {
            MessageType::GetService => 2,
            MessageType::StateService => 3,
            MessageType::GetLabel => 23,
            MessageType::SetLabel => 24,
            MessageType::StateLabel => 25,
            MessageType::Acknowledgement => 45,
            MessageType::Get => 101,
            MessageType::SetColor => 102,
            MessageType::State => 107,
            MessageType::Other(value) => value,
        }
    }
}

/// A LIFX message: one variant per supported protocol code.
#[derive(Debug, Clone, PartialEq, Eq)]
pub enum Message {
    GetService,
    StateService(StateService),
    GetLabel,
    SetLabel(SetLabel),
    StateLabel(StateLabel),
    Acknowledgement,
    Get,
    SetColor(SetColor),
    State(State),
}

/// Payload of a `StateService` message, sent by devices during discovery.
#[derive(Debug, Clone, Copy, PartialEq, Eq, Structural)]
pub struct StateService {
    pub service: Service,
    pub port: u32,
}

/// Payload of a `SetLabel` message.
#[derive(Debug, Clone, PartialEq, Eq)]
pub struct SetLabel {
    pub label: Label,
}

/// Payload of a `StateLabel` message.
#[derive(Debug, Clone, PartialEq, Eq)]
pub struct StateLabel {
    pub label: Label,
}

/// Payload of a `SetColor` message.
#[derive(Debug, Clone, Copy, PartialEq, Eq, Structural)]
pub struct SetColor {
    pub color: Hsbk,
    /// Color transition time, in milliseconds.
    pub duration_ms: u32,
}

/// Payload of a `State` message, describing a light's current state.
#[derive(Debug, Clone, PartialEq, Eq)]
pub struct State {
    pub color: Hsbk,
    pub power: u16,
    pub label: Label,
}

/// The mathematical value of a [`Message`]: the same shape, with each label
/// given by its character sequence.
pub enum MessageModel {
    GetService,
    StateService { service: Service, port: u32 },
    GetLabel,
    SetLabel { label: Seq<char> },
    StateLabel { label: Seq<char> },
    Acknowledgement,
    Get,
    SetColor { color: Hsbk, duration_ms: u32 },
    State { color: Hsbk, power: u16, label: Seq<char> },
}

impl View for Message {
    type V = MessageModel;

    open spec fn view(&self) -> MessageModel {
        match self {
            Message::GetService => MessageModel::GetService,
            Message::StateService(inner) => MessageModel::StateService {
                service: inner.service,
                port: inner.port,
            },
            Message::GetLabel => MessageModel::GetLabel,
            Message::SetLabel(inner) => MessageModel::SetLabel { label: inner.label@ },
            Message::StateLabel(inner) => MessageModel::StateLabel { label: inner.label@ },
            Message::Acknowledgement => MessageModel::Acknowledgement,
            Message::Get => MessageModel::Get,
            Message::SetColor(inner) => MessageModel::SetColor {
                color: inner.color,
                duration_ms: inner.duration_ms,
            },
            Message::State(inner) => MessageModel::State {
                color: inner.color,
                power: inner.power,
                label: inner.label@,
            },
        }
    }
}

impl MessageModel {
    /// The message type of this payload.
    pub open spec fn spec_type(self) -> MessageType {
        match self {
            MessageModel::GetService => MessageType::GetService,
            MessageModel::StateService { .. } => MessageType::StateService,
            MessageModel::GetLabel => MessageType::GetLabel,
            MessageModel::SetLabel { .. } => MessageType::SetLabel,
            MessageModel::StateLabel { .. } => MessageType::StateLabel,
            MessageModel::Acknowledgement => MessageType::Acknowledgement,
            MessageModel::Get => MessageType::Get,
            MessageModel::SetColor { .. } => MessageType::SetColor,
            MessageModel::State { .. } => MessageType::State,
        }
    }

    /// The payload size of this message on the wire, in bytes.
    pub open spec fn spec_payload_size(self) -> nat {
        match self {
            MessageModel::GetService => 0,
            MessageModel::StateService { .. } => 5,
            MessageModel::GetLabel => 0,
            MessageModel::SetLabel { .. } => 32,
            MessageModel::StateLabel { .. } => 32,
            MessageModel::Acknowledgement => 0,
            MessageModel::Get => 0,
            MessageModel::SetColor { .. } => 13,
            MessageModel::State { .. } => 52,
        }
    }

    /// Whether labels fit in 32 bytes and temperatures lie in the accepted
    /// Kelvin range.
    pub open spec fn wf(self) -> bool {
        match self {
            MessageModel::SetLabel { label } => encode_utf8(label).len() <= 32,
            MessageModel::StateLabel { label } => encode_utf8(label).len() <= 32,
            MessageModel::SetColor { color, .. } => color.wf(),
            MessageModel::State { color, label, .. } => color.wf() && encode_utf8(label).len()
                <= 32,
            _ => true,
        }
    }

    /// Whether this message is left unchanged by a trip through the wire:
    /// labels carry no trailing NUL character (decode strips them) and the
    /// service code is not an `Unknown` shadowing the UDP code.
    pub open spec fn normalized(self) -> bool {
        match self {
            MessageModel::StateService { service, .. } => Service::spec_from_code(
                service.spec_code(),
            ) == service,
            MessageModel::SetLabel { label } => label.len() > 0 ==> label.last() != '\0',
            MessageModel::StateLabel { label } => label.len() > 0 ==> label.last() != '\0',
            MessageModel::State { label, .. } => label.len() > 0 ==> label.last() != '\0',
            _ => true,
        }
    }

    /// The wire image of this message's payload.
    pub open spec fn spec_payload(self) -> Seq<u8>
        recommends
            self.wf(),
    {
        match self {
            MessageModel::GetService => Seq::empty(),
            MessageModel::StateService { service, port } => seq![service.spec_code()]
                + u32_le_bytes(port),
            MessageModel::GetLabel => Seq::empty(),
            MessageModel::SetLabel { label } => Label::spec_wire(label),
            MessageModel::StateLabel { label } => Label::spec_wire(label),
            MessageModel::Acknowledgement => Seq::empty(),
            MessageModel::Get => Seq::empty(),
            MessageModel::SetColor { color, duration_ms } => seq![0u8] + color.spec_encode()
                + u32_le_bytes(duration_ms),
            MessageModel::State { color, power, label } => color.spec_encode() + zero_bytes(2)
                + u16_le_bytes(power) + Label::spec_wire(label) + zero_bytes(8),
        }
    }

    /// The message denoted by a payload of type `t`, or the error raised.
    /// Bytes beyond the type's payload size are ignored, and a too-short
    /// payload is rejected.
    pub open spec fn spec_parse(t: MessageType, b: Seq<u8>) -> Result<MessageModel, ProtocolError> {
        match t {
            MessageType::GetService => Ok(MessageModel::GetService),
            MessageType::StateService => if b.len() < 5 {
                Err(ProtocolError::InsufficientData)
            } else {
                Ok(
                    MessageModel::StateService {
                        service: Service::spec_from_code(b[0]),
                        port: u32_from_le(b[1], b[2], b[3], b[4]),
                    },
                )
            },
            MessageType::GetLabel => Ok(MessageModel::GetLabel),
            MessageType::SetLabel => if b.len() < 32 {
                Err(ProtocolError::InsufficientData)
            } else {
                match Label::spec_parse(b.subrange(0, 32)) {
                    Ok(label) => Ok(MessageModel::SetLabel { label }),
                    Err(e) => Err(e),
                }
            },
            MessageType::StateLabel => if b.len() < 32 {
                Err(ProtocolError::InsufficientData)
            } else {
                match Label::spec_parse(b.subrange(0, 32)) {
                    Ok(label) => Ok(MessageModel::StateLabel { label }),
                    Err(e) => Err(e),
                }
            },
            MessageType::Acknowledgement => Ok(MessageModel::Acknowledgement),
            MessageType::Get => Ok(MessageModel::Get),
            MessageType::SetColor => if b.len() < 13 {
                Err(ProtocolError::InsufficientData)
            } else {
                match Hsbk::spec_parse(b.subrange(1, 9)) {
                    Ok(color) => Ok(
                        MessageModel::SetColor {
                            color,
                            duration_ms: u32_from_le(b[9], b[10], b[11], b[12]),
                        },
                    ),
                    Err(e) => Err(e),
                }
            },
            MessageType::State => if b.len() < 52 {
                Err(ProtocolError::InsufficientData)
            } else {
                match Hsbk::spec_parse(b.subrange(0, 8)) {
                    Ok(color) => match Label::spec_parse(b.subrange(12, 44)) {
                        Ok(label) => Ok(
                            MessageModel::State {
                                color,
                                power: u16_from_le(b[10], b[11]),
                                label,
                            },
                        ),
                        Err(e) => Err(e),
                    },
                    Err(e) => Err(e),
                }
            },
            MessageType::Other(_) => Err(ProtocolError::UnexpectedMessage(t)),
        }
    }
}

impl Message {
    /// The message type of this message.
    pub fn message_type(&self) -> (r: MessageType)
        ensures
            r == self@.spec_type(),
    {
        match self {
            Message::GetService => MessageType::GetService,
            Message::StateService(_) => MessageType::StateService,
            Message::GetLabel => MessageType::GetLabel,
            Message::SetLabel(_) => MessageType::SetLabel,
            Message::StateLabel(_) => MessageType::StateLabel,
            Message::Acknowledgement => MessageType::Acknowledgement,
            Message::Get => MessageType::Get,
            Message::SetColor(_) => MessageType::SetColor,
            Message::State(_) => MessageType::State,
        }
    }

    /// The payload size of this message on the wire, in bytes.
    pub fn payload_size(&self) -> (r: usize)
        ensures
            r == self@.spec_payload_size(),
    {
        match self {
            Message::GetService => 0,
            Message::StateService(_) => 5,
            Message::GetLabel => 0,
            Message::SetLabel(_) => 32,
            Message::StateLabel(_) => 32,
            Message::Acknowledgement => 0,
            Message::Get => 0,
            Message::SetColor(_) => 13,
            Message::State(_) => 52,
        }
    }

    /// Serializes this message's payload, appending it to `buf`.
    pub(crate) fn encode_payload(&self, buf: &mut Vec<u8>)
        ensures
            final(buf)@ == old(buf)@ + self@.spec_payload(),
            final(buf)@.len() == old(buf)@.len() + self@.spec_payload_size(),
    {
        match self {
            Message::GetService => (),
            Message::StateService(inner) => {
                buf.push(inner.service.code());
                push_u32_le(buf, inner.port);
            },
            Message::GetLabel => (),
            Message::SetLabel(inner) => {
                inner.label.encode(buf);
            },
            Message::StateLabel(inner) => {
                inner.label.encode(buf);
            },
            Message::Acknowledgement => (),
            Message::Get => (),
            Message::SetColor(inner) => {
                buf.push(0u8);
                inner.color.encode(buf);
                push_u32_le(buf, inner.duration_ms);
            },
            Message::State(inner) => {
                inner.color.encode(buf);
                push_zero_bytes(buf, 2);
                push_u16_le(buf, inner.power);
                inner.label.encode(buf);
                push_zero_bytes(buf, 8);
            },
        }
        assert(buf@ =~= old(buf)@ + self@.spec_payload());
    }

    /// Deserializes the payload of a message of type `t` from the front of
    /// `payload`.
    pub(crate) fn decode(t: MessageType, payload: &[u8]) -> (r: Result<Message, ProtocolError>)
        ensures
            match r {
                Ok(m) => MessageModel::spec_parse(t, payload@) == Ok::<
                    MessageModel,
                    ProtocolError,
                >(m@),
                Err(e) => MessageModel::spec_parse(t, payload@) == Err::<
                    MessageModel,
                    ProtocolError,
                >(e),
            },
    {
        let n = payload.len();
        match t {
            MessageType::GetService => Ok(Message::GetService),
            MessageType::StateService => {
                if n < 5 {
                    return Err(ProtocolError::InsufficientData);
                }
                let service = Service::from_code(payload[0]);
                let port = read_u32_le(payload, 1);
                Ok(Message::StateService(StateService { service, port }))
            },
            MessageType::GetLabel => Ok(Message::GetLabel),
            MessageType::SetLabel => {
                if n < 32 {
                    return Err(ProtocolError::InsufficientData);
                }
                proof {
                    assert(payload@.subrange(0, 32) =~= payload@.subrange(0int, 32int));
                }
                match Label::decode(payload, 0) {
                    Ok(label) => Ok(Message::SetLabel(SetLabel { label })),
                    Err(e) => Err(e),
                }
            },
            MessageType::StateLabel => {
                if n < 32 {
                    return Err(ProtocolError::InsufficientData);
                }
                proof {
                    assert(payload@.subrange(0, 32) =~= payload@.subrange(0int, 32int));
                }
                match Label::decode(payload, 0) {
                    Ok(label) => Ok(Message::StateLabel(StateLabel { label })),
                    Err(e) => Err(e),
                }
            },
            MessageType::Acknowledgement => Ok(Message::Acknowledgement),
            MessageType::Get => Ok(Message::Get),
            MessageType::SetColor => {
                if n < 13 {
                    return Err(ProtocolError::InsufficientData);
                }
                match Hsbk::decode(payload, 1) {
                    Ok(color) => {
                        let duration_ms = read_u32_le(payload, 9);
                        Ok(Message::SetColor(SetColor { color, duration_ms }))
                    },
                    Err(e) => Err(e),
                }
            },
            MessageType::State => {
                if n < 52 {
                    return Err(ProtocolError::InsufficientData);
                }
                match Hsbk::decode(payload, 0) {
                    Ok(color) => {
                        let power = read_u16_le(payload, 10);
                        match Label::decode(payload, 12) {
                            Ok(label) => Ok(Message::State(State { color, power, label })),
                            Err(e) => Err(e),
                        }
                    },
                    Err(e) => Err(e),
                }
            },
            MessageType::Other(_) => Err(ProtocolError::UnexpectedMessage(t)),
        }
    }
}

/// The payload image of a well-formed message is exactly as long as its
/// declared payload size.
pub proof fn lemma_payload_len(m: MessageModel)
    requires
        m.wf(),
    ensures
        m.spec_payload().len() == m.spec_payload_size(),
{
}

/// A well-formed, normalized message is recovered exactly from its own
/// payload image by a parse at its own message type.
#[verifier::rlimit(60)]
pub proof fn lemma_payload_roundtrip(m: MessageModel)
    requires
        m.wf(),
        m.normalized(),
    ensures
        MessageModel::spec_parse(m.spec_type(), m.spec_payload()) == Ok::<
            MessageModel,
            ProtocolError,
        >(m),
{
    let b = m.spec_payload();
    lemma_payload_len(m);
    match m {
        MessageModel::StateService { service, port } => {
            assert(b[0] == service.spec_code());
            assert(b[1] == u32_le_bytes(port)[0]);
            assert(b[2] == u32_le_bytes(port)[1]);
            assert(b[3] == u32_le_bytes(port)[2]);
            assert(b[4] == u32_le_bytes(port)[3]);
            crate::wire::lemma_u32_le_roundtrip(port);
        },
        MessageModel::SetLabel { label } => {
            assert(b.subrange(0, 32) =~= Label::spec_wire(label));
            crate::label::lemma_label_roundtrip(label);
        },
        MessageModel::StateLabel { label } => {
            assert(b.subrange(0, 32) =~= Label::spec_wire(label));
            crate::label::lemma_label_roundtrip(label);
        },
        MessageModel::SetColor { color, duration_ms } => {
            assert(b.subrange(1, 9) =~= color.spec_encode());
            crate::color::lemma_hsbk_roundtrip(color);
            assert(b[9] == u32_le_bytes(duration_ms)[0]);
            assert(b[10] == u32_le_bytes(duration_ms)[1]);
            assert(b[11] == u32_le_bytes(duration_ms)[2]);
            assert(b[12] == u32_le_bytes(duration_ms)[3]);
            crate::wire::lemma_u32_le_roundtrip(duration_ms);
        },
        MessageModel::State { color, power, label } => {
            assert(b.subrange(0, 8) =~= color.spec_encode());
            crate::color::lemma_hsbk_roundtrip(color);
            assert(b[10] == u16_le_bytes(power)[0]);
            assert(b[11] == u16_le_bytes(power)[1]);
            crate::wire::lemma_u16_le_roundtrip(power);
            assert(b.subrange(12, 44) =~= Label::spec_wire(label));
            crate::label::lemma_label_roundtrip(label);
        },
        _ => {},
    }
}

/// Whatever a payload parse yields is well-formed and normalized: its labels
/// fit in 32 bytes without trailing NULs, its temperature is in range, and
/// its service code is canonical.
pub proof fn lemma_parse_payload_normalized(t: MessageType, b: Seq<u8>)
    ensures
        MessageModel::spec_parse(t, b) matches Ok(m) ==> m.wf() && m.normalized(),
{
    if let Ok(m) = MessageModel::spec_parse(t, b) {
        match m {
            MessageModel::SetLabel { label } => {
                crate::label::lemma_label_parse_normalized(b.subrange(0, 32), label);
            },
            MessageModel::StateLabel { label } => {
                crate::label::lemma_label_parse_normalized(b.subrange(0, 32), label);
            },
            MessageModel::State { label, .. } => {
                crate::label::lemma_label_parse_normalized(b.subrange(12, 44), label);
            },
            _ => {},
        }
    }
}

impl Service {
    /// The service denoted by a wire code: 1 is UDP, anything else unknown.
    pub open spec fn spec_from_code(value: u8) -> Service {
        if value == 1 {
            Service::Udp
        } else {
            Service::Unknown(value)
        }
    }

    /// The wire code of a service.
    pub open spec fn spec_code(self) -> u8 {
        match self {
            Service::Udp => 1,
            Service::Unknown(id) => id,
        }
    }

    /// Reads a service from its wire code.
    pub fn from_code(value: u8) -> (r: Service)
        ensures
            r == Service::spec_from_code(value),
    {
        if value == 1 {
            Service::Udp
        } else {
            Service::Unknown(value)
        }
    }

    /// The wire code of this service.
    pub fn code(self) -> (r: u8)
        ensures
            r == self.spec_code(),
    {
        match self {
            Service::Udp => 1,
            Service::Unknown(id) => id,
        }
    }
}

} // verus!
