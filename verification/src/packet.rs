//! A complete LIFX packet: header fields (excluding the derived size) plus a
//! message, with bit-exact serialization to and from wire bytes.

use vstd::prelude::*;
use crate::error::ProtocolError;
use crate::header::{
    canonical_message_type, lemma_header_byte_layout, lemma_header_roundtrip,
    lemma_proto_flags_fields, lemma_spec_encode_len, DeviceTarget, Header, MacAddress,
};
use crate::message::{lemma_payload_len, lemma_payload_roundtrip, Message, MessageModel};
use crate::wire::{lemma_u16_le_roundtrip, u16_from_le};

verus! {

/// A packet to be sent to, or received from, a device: header fields
/// (excluding `size`, which is derived) plus a message.
#[derive(Debug, Clone, PartialEq, Eq)]
pub struct Packet {
    source: u32,
    target: DeviceTarget,
    sequence: u8,
    response_required: bool,
    acknowledgement_required: bool,
    message: Message,
}

/// The mathematical value of a [`Packet`].
pub struct PacketModel {
    pub source: u32,
    pub target: DeviceTarget,
    pub sequence: u8,
    pub response_required: bool,
    pub acknowledgement_required: bool,
    pub message: MessageModel,
}

impl View for Packet {
    type V = PacketModel;

    closed spec fn view(&self) -> PacketModel {
        PacketModel {
            source: self.source,
            target: self.target,
            sequence: self.sequence,
            response_required: self.response_required,
            acknowledgement_required: self.acknowledgement_required,
            message: self.message@,
        }
    }
}

impl PacketModel {
    /// Whether the message's labels and colors are well-formed.
    pub open spec fn wf(self) -> bool {
        self.message.wf()
    }

    /// Whether the message is left unchanged by a trip through the wire.
    pub open spec fn normalized(self) -> bool {
        self.message.normalized()
    }

    /// The total wire length: a 36-byte header followed by the payload.
    pub open spec fn spec_len(self) -> nat {
        36 + self.message.spec_payload_size()
    }

    /// The header written for this packet.
    pub open spec fn spec_header(self) -> Header {
        Header {
            size: self.spec_len() as u16,
            source: self.source,
            target: self.target,
            response_required: self.response_required,
            acknowledgement_required: self.acknowledgement_required,
            sequence: self.sequence,
            message_type: self.message.spec_type(),
        }
    }

    /// The full wire image: header bytes followed by payload bytes.
    pub open spec fn spec_encode(self) -> Seq<u8> {
        self.spec_header().spec_encode() + self.message.spec_payload()
    }

    /// The packet denoted by wire bytes, or the error raised. The declared
    /// size field is not consulted here; framing checks it separately.
    pub open spec fn spec_parse(b: Seq<u8>) -> Result<PacketModel, ProtocolError> {
        if b.len() < 36 {
            Err(ProtocolError::InsufficientData)
        } else {
            match Header::spec_parse(b) {
                Ok(h) => match MessageModel::spec_parse(h.message_type, b.skip(36)) {
                    Ok(m) => Ok(
                        PacketModel {
                            source: h.source,
                            target: h.target,
                            sequence: h.sequence,
                            response_required: h.response_required,
                            acknowledgement_required: h.acknowledgement_required,
                            message: m,
                        },
                    ),
                    Err(e) => Err(e),
                },
                Err(e) => Err(e),
            }
        }
    }
}

impl Packet {
    /// Assembles a packet from its header fields and message.
    pub fn new(
        source: u32,
        target: DeviceTarget,
        sequence: u8,
        response_required: bool,
        acknowledgement_required: bool,
        message: Message,
    ) -> (r: Packet)
        ensures
            r@ == (PacketModel {
                source,
                target,
                sequence,
                response_required,
                acknowledgement_required,
                message: message@,
            }),
    {
        Packet { source, target, sequence, response_required, acknowledgement_required, message }
    }

    /// The total wire length of this packet, in bytes.
    pub fn len(&self) -> (r: usize)
        ensures
            r == self@.spec_len(),
            r <= 88,
    {
        36 + self.message.payload_size()
    }

    /// The source identifier the packet carries.
    pub fn source(&self) -> (r: u32)
        ensures
            r == self@.source,
    {
        self.source
    }

    /// The sequence number the packet carries.
    pub fn sequence(&self) -> (r: u8)
        ensures
            r == self@.sequence,
    {
        self.sequence
    }

    /// The device target the packet carries.
    pub fn target(&self) -> (r: DeviceTarget)
        ensures
            r == self@.target,
    {
        self.target
    }

    /// The message the packet carries.
    pub fn message(&self) -> (r: &Message)
        ensures
            r@ == self@.message,
    {
        &self.message
    }

    /// The message the packet carries, by value.
    pub fn into_message(self) -> (r: Message)
        ensures
            r@ == self@.message,
    {
        self.message
    }

    /// Serializes this packet, appending its wire image to `buf`.
    pub fn encode(&self, buf: &mut Vec<u8>)
        ensures
            final(buf)@ == old(buf)@ + self@.spec_encode(),
            final(buf)@.len() == old(buf)@.len() + self@.spec_len(),
    {
        let size = self.len() as u16;
        let header = Header {
            size,
            source: self.source,
            target: self.target,
            sequence: self.sequence,
            response_required: self.response_required,
            acknowledgement_required: self.acknowledgement_required,
            message_type: self.message.message_type(),
        };
        header.encode(buf);
        self.message.encode_payload(buf);
        assert(buf@ =~= old(buf)@ + self@.spec_encode());
    }

    /// Deserializes a packet from `bytes`. Fails when the bytes are too short
    /// for the header or for the payload the message type calls for, or when
    /// any field is invalid.
    pub fn decode(bytes: &[u8]) -> (r: Result<Packet, ProtocolError>)
        ensures
            match r {
                Ok(p) => PacketModel::spec_parse(bytes@) == Ok::<PacketModel, ProtocolError>(p@),
                Err(e) => PacketModel::spec_parse(bytes@) == Err::<PacketModel, ProtocolError>(e),
            },
    {
        let n = bytes.len();
        if n < 36 {
            return Err(ProtocolError::InsufficientData);
        }
        let header = match Header::decode(bytes) {
            Ok(h) => h,
            Err(e) => {
                return Err(e);
            },
        };
        let payload = vstd::slice::slice_subrange(bytes, 36, n);
        proof {
            assert(payload@ =~= bytes@.skip(36));
        }
        match Message::decode(header.message_type, payload) {
            Ok(message) => Ok(
                Packet {
                    source: header.source,
                    target: header.target,
                    sequence: header.sequence,
                    response_required: header.response_required,
                    acknowledgement_required: header.acknowledgement_required,
                    message,
                },
            ),
            Err(e) => Err(e),
        }
    }
}

/// Round trip: a well-formed, normalized packet is recovered exactly from its
/// own wire image.
pub proof fn lemma_packet_roundtrip(p: PacketModel)
    requires
        p.wf(),
        p.normalized(),
    ensures
        PacketModel::spec_parse(p.spec_encode()) == Ok::<PacketModel, ProtocolError>(p),
{
    let h = p.spec_header();
    let b = p.spec_encode();
    lemma_spec_encode_len(h);
    lemma_payload_len(p.message);
    assert(b.len() == 36 + p.message.spec_payload_size());
    assert(canonical_message_type(h.message_type));
    lemma_header_roundtrip(h);
    assert(Header::spec_parse(b) == Header::spec_parse(h.spec_encode())) by {
        assert(h.spec_encode().subrange(0, 36) =~= b.subrange(0, 36));
        lemma_parse_header_depends_on_prefix(h.spec_encode(), b);
    }
    assert(b.skip(36) =~= p.message.spec_payload());
    lemma_payload_roundtrip(p.message);
}

/// Whatever a packet parse yields is well-formed and normalized, so by the
/// round-trip law it is recovered exactly from its own wire image: decoding
/// normalizes, and loses nothing beyond reserved bytes and padding.
pub proof fn lemma_parse_normalized(b: Seq<u8>)
    ensures
        PacketModel::spec_parse(b) matches Ok(p) ==> p.wf() && p.normalized(),
{
    if b.len() >= 36 {
        if let Ok(h) = Header::spec_parse(b) {
            crate::message::lemma_parse_payload_normalized(h.message_type, b.skip(36));
        }
    }
}

/// Header parsing reads only the first 36 bytes, so it is unchanged by any
/// suffix appended after them.
pub proof fn lemma_parse_header_depends_on_prefix(b1: Seq<u8>, b2: Seq<u8>)
    requires
        b1.len() >= 36,
        b2.len() >= 36,
        b1.subrange(0, 36) == b2.subrange(0, 36),
    ensures
        Header::spec_parse(b1) == Header::spec_parse(b2),
{
    assert forall|i: int| 0 <= i < 36 implies b1[i] == b2[i] by {
        assert(b1.subrange(0, 36)[i] == b1[i]);
        assert(b2.subrange(0, 36)[i] == b2[i]);
    }
}

/// The first two bytes of an encoded packet carry its own total byte count,
/// little-endian.
pub proof fn lemma_encoded_size_field(p: PacketModel)
    requires
        p.wf(),
    ensures
        p.spec_encode().len() == p.spec_len(),
        u16_from_le(p.spec_encode()[0], p.spec_encode()[1]) == p.spec_len(),
{
    let h = p.spec_header();
    lemma_spec_encode_len(h);
    lemma_payload_len(p.message);
    lemma_header_byte_layout(h);
    assert(p.spec_encode()[0] == h.spec_encode()[0]);
    assert(p.spec_encode()[1] == h.spec_encode()[1]);
    lemma_u16_le_roundtrip(h.size);
    assert(p.spec_len() <= 88);
    assert(h.size == p.spec_len());
}

/// The protocol-flags word of an encoded packet always carries 1024 in its
/// low 12 bits, and its tagged bit (13) is set exactly when the target is
/// `All`.
pub proof fn lemma_encoded_proto_flags(p: PacketModel)
    ensures
        u16_from_le(p.spec_encode()[2], p.spec_encode()[3]) & 0x0FFF == 1024,
        (u16_from_le(p.spec_encode()[2], p.spec_encode()[3]) & 0x2000 != 0) <==> p.target is All,
{
    let h = p.spec_header();
    lemma_header_byte_layout(h);
    assert(p.spec_encode()[2] == h.spec_encode()[2]);
    assert(p.spec_encode()[3] == h.spec_encode()[3]);
    lemma_u16_le_roundtrip(Header::spec_proto_flags(h.target));
    lemma_proto_flags_fields(h.target);
}

/// In an encoded packet addressed to `All`, all 8 target bytes are zero.
pub proof fn lemma_encoded_target_all(p: PacketModel)
    requires
        p.target is All,
    ensures
        forall|i: int| 8 <= i < 16 ==> p.spec_encode()[i] == 0,
{
    let h = p.spec_header();
    lemma_header_byte_layout(h);
    assert forall|i: int| 8 <= i < 16 implies p.spec_encode()[i] == 0 by {
        assert(p.spec_encode()[i] == h.spec_encode()[i]);
        assert(h.spec_encode().subrange(8, 16)[i - 8] == h.spec_encode()[i]);
        assert(h.target.spec_bytes()[i - 8] == 0);
    }
}

/// In an encoded packet addressed to one device, bytes 8..14 carry its MAC
/// address and bytes 14..16 are zero.
#[verifier::rlimit(60)]
pub proof fn lemma_encoded_target_mac(p: PacketModel, m: MacAddress)
    requires
        p.target == DeviceTarget::Targeted(m),
    ensures
        p.spec_encode()[8] == m.0,
        p.spec_encode()[9] == m.1,
        p.spec_encode()[10] == m.2,
        p.spec_encode()[11] == m.3,
        p.spec_encode()[12] == m.4,
        p.spec_encode()[13] == m.5,
        p.spec_encode()[14] == 0,
        p.spec_encode()[15] == 0,
{
    let h = p.spec_header();
    lemma_header_byte_layout(h);
    assert forall|i: int| 8 <= i < 16 implies p.spec_encode()[i] == h.target.spec_bytes()[i - 8]
        by {
        assert(p.spec_encode()[i] == h.spec_encode()[i]);
        assert(h.spec_encode().subrange(8, 16)[i - 8] == h.spec_encode()[i]);
    }
    assert(h.target.spec_bytes()[0] == m.0);
    assert(h.target.spec_bytes()[1] == m.1);
    assert(h.target.spec_bytes()[2] == m.2);
    assert(h.target.spec_bytes()[3] == m.3);
    assert(h.target.spec_bytes()[4] == m.4);
    assert(h.target.spec_bytes()[5] == m.5);
    assert(h.target.spec_bytes()[6] == 0);
    assert(h.target.spec_bytes()[7] == 0);
}

} // verus!
