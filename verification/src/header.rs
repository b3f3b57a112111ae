//! The 36-byte LIFX message header: frame, frame-address and protocol-header
//! sections combined, as the protocol documentation lays them out.

use vstd::prelude::*;
use crate::error::ProtocolError;
use crate::message::MessageType;
use crate::wire::{
    u16_le_bytes, u32_le_bytes, u16_from_le, u32_from_le, zero_bytes, push_u16_le, push_u32_le,
    push_zero_bytes, read_u16_le, read_u32_le, lemma_u16_le_roundtrip, lemma_u32_le_roundtrip,
};

verus! {

/// A 6-byte hardware (MAC) address, in transmission order.
#[derive(Debug, Clone, Copy, PartialEq, Eq, Structural)]
pub struct MacAddress(pub u8, pub u8, pub u8, pub u8, pub u8, pub u8);

impl MacAddress {
    /// The six wire bytes of the address.
    pub open spec fn spec_bytes(self) -> Seq<u8> {
        seq![self.0, self.1, self.2, self.3, self.4, self.5]
    }
}

/// Address of the device(s) a message is being sent to or from: every device
/// (used for discovery), or a single device named by its MAC address.
#[derive(Debug, Clone, Copy, PartialEq, Eq, Structural)]
pub enum DeviceTarget {
    All,
    Targeted(MacAddress),
}

impl DeviceTarget {
    /// The 8-byte wire image of the target field: the MAC address followed by
    /// two zero bytes, or all zeros for a broadcast.
    pub open spec fn spec_bytes(self) -> Seq<u8> {
        match self {
            DeviceTarget::All => zero_bytes(8),
            DeviceTarget::Targeted(m) => m.spec_bytes() + zero_bytes(2),
        }
    }
}

/// Header for LIFX messages.
#[derive(Debug, Clone, Copy, PartialEq, Eq, Structural)]
pub struct Header {
    /// Size of the entire message in bytes.
    pub size: u16,
    /// Source identifier chosen by the client; devices echo it in replies.
    pub source: u32,
    /// Device being targeted.
    pub target: DeviceTarget,
    /// Whether a response message is required.
    pub response_required: bool,
    /// Whether an acknowledgement message is required.
    pub acknowledgement_required: bool,
    /// A sequence number, which may wrap around; devices echo it in replies.
    pub sequence: u8,
    /// The type of message this is.
    pub message_type: MessageType,
}

impl Header {
    /// Size of a LIFX message header on the wire.
    pub const HEADER_SIZE: usize = 36;

    /// Expected protocol number, carried in the low 12 bits of the
    /// protocol-flags word.
    pub const PROTOCOL_NUMBER: u16 = 1024;

    /// The packed protocol-flags word: protocol number 1024 in bits 0..12,
    /// the addressable bit (12) set, the tagged bit (13) set exactly for a
    /// broadcast target, and the origin bits (14..16) zero.
    pub open spec fn spec_proto_flags(target: DeviceTarget) -> u16 {
        if target is All {
            0x3400
        } else {
            0x1400
        }
    }

    /// The packed address-flags byte: bit 0 for `response_required`, bit 1
    /// for `acknowledgement_required`.
    pub open spec fn spec_address_flags(response_required: bool, ack_required: bool) -> u8 {
        (if response_required {
            1u8
        } else {
            0u8
        }) | (if ack_required {
            2u8
        } else {
            0u8
        })
    }

    /// The 36-byte wire image of this header.
    pub open spec fn spec_encode(self) -> Seq<u8> {
        u16_le_bytes(self.size) + u16_le_bytes(Header::spec_proto_flags(self.target))
            + u32_le_bytes(self.source) + self.target.spec_bytes() + zero_bytes(6) + seq![
            Header::spec_address_flags(self.response_required, self.acknowledgement_required),
        ] + seq![self.sequence] + zero_bytes(8) + u16_le_bytes(self.message_type.spec_code())
            + zero_bytes(2)
    }

    /// The header denoted by at least 36 wire bytes, or the error raised for
    /// a bad protocol-flags word. Reserved regions are not validated, and the
    /// 8-byte target field is ignored when the tagged bit is set.
    pub open spec fn spec_parse(b: Seq<u8>) -> Result<Header, ProtocolError>
        recommends
            b.len() >= 36,
    {
        let proto_flags = u16_from_le(b[2], b[3]);
        let protocol = proto_flags & 0x0FFF;
        let origin = proto_flags >> 14;
        if protocol != 1024 {
            Err(ProtocolError::InvalidProtocol(protocol))
        } else if origin != 0 {
            Err(ProtocolError::InvalidOrigin(origin as u8))
        } else if proto_flags & 0x1000 == 0 {
            Err(ProtocolError::NotAddressable)
        } else {
            let address_flags = b[22];
            Ok(
                Header {
                    size: u16_from_le(b[0], b[1]),
                    source: u32_from_le(b[4], b[5], b[6], b[7]),
                    target: if proto_flags & 0x2000 != 0 {
                        DeviceTarget::All
                    } else {
                        DeviceTarget::Targeted(
                            MacAddress(b[8], b[9], b[10], b[11], b[12], b[13]),
                        )
                    },
                    response_required: address_flags & 1 != 0,
                    acknowledgement_required: address_flags & 2 != 0,
                    sequence: b[23],
                    message_type: MessageType::spec_from_code(u16_from_le(b[32], b[33])),
                },
            )
        }
    }

    /// Serializes this header, appending its 36 bytes to `buf`.
    pub fn encode(&self, buf: &mut Vec<u8>)
        ensures
            final(buf)@ == old(buf)@ + self.spec_encode(),
            final(buf)@.len() == old(buf)@.len() + 36,
    {
        push_u16_le(buf, self.size);
        let proto_flags: u16 = match self.target {
            DeviceTarget::All => 0x3400,
            DeviceTarget::Targeted(_) => 0x1400,
        };
        push_u16_le(buf, proto_flags);
        push_u32_le(buf, self.source);
        match self.target {
            DeviceTarget::All => push_zero_bytes(buf, 8),
            DeviceTarget::Targeted(m) => {
                buf.push(m.0);
                buf.push(m.1);
                buf.push(m.2);
                buf.push(m.3);
                buf.push(m.4);
                buf.push(m.5);
                push_zero_bytes(buf, 2);
            },
        }
        push_zero_bytes(buf, 6);
        let address_flags: u8 = (if self.response_required {
            1u8
        } else {
            0u8
        }) | (if self.acknowledgement_required {
            2u8
        } else {
            0u8
        });
        buf.push(address_flags);
        buf.push(self.sequence);
        push_zero_bytes(buf, 8);
        push_u16_le(buf, self.message_type.code());
        push_zero_bytes(buf, 2);
        assert(buf@ =~= old(buf)@ + self.spec_encode());
        proof {
            lemma_spec_encode_len(*self);
        }
    }

    /// Deserializes a header from the front of `bytes`. Fails when fewer than
    /// 36 bytes are available or the protocol-flags word is invalid.
    pub fn decode(bytes: &[u8]) -> (r: Result<Header, ProtocolError>)
        ensures
            bytes@.len() < 36 ==> r == Err::<Header, ProtocolError>(ProtocolError::InsufficientData),
            bytes@.len() >= 36 ==> r == Header::spec_parse(bytes@),
    {
        let n = bytes.len();
        if n < 36 {
            return Err(ProtocolError::InsufficientData);
        }
        let proto_flags = read_u16_le(bytes, 2);
        let protocol = proto_flags & 0x0FFF;
        if protocol != 1024 {
            return Err(ProtocolError::InvalidProtocol(protocol));
        }
        let origin = proto_flags >> 14;
        if origin != 0 {
            return Err(ProtocolError::InvalidOrigin(origin as u8));
        }
        if proto_flags & 0x1000 == 0 {
            return Err(ProtocolError::NotAddressable);
        }
        let address_flags = bytes[22];
        Ok(
            Header {
                size: read_u16_le(bytes, 0),
                source: read_u32_le(bytes, 4),
                target: if proto_flags & 0x2000 != 0 {
                    DeviceTarget::All
                } else {
                    DeviceTarget::Targeted(
                        MacAddress(
                            bytes[8],
                            bytes[9],
                            bytes[10],
                            bytes[11],
                            bytes[12],
                            bytes[13],
                        ),
                    )
                },
                response_required: address_flags & 1 != 0,
                acknowledgement_required: address_flags & 2 != 0,
                sequence: bytes[23],
                message_type: MessageType::from_code(read_u16_le(bytes, 32)),
            },
        )
    }

    /// The expected size of the payload following this header, in bytes.
    pub fn payload_size(&self) -> (r: usize)
        requires
            self.size >= 36,
        ensures
            r == self.size - 36,
    {
        self.size as usize - 36
    }
}

/// The wire image of a header is exactly 36 bytes long.
pub proof fn lemma_spec_encode_len(h: Header)
    ensures
        h.spec_encode().len() == 36,
{
    assert(h.target.spec_bytes().len() == 8);
}

/// Whether a message type survives the trip through its own wire code. Every
/// supported variant does; `Other` does not when it shadows a supported code.
pub open spec fn canonical_message_type(t: MessageType) -> bool {
    MessageType::spec_from_code(t.spec_code()) == t
}

/// The protocol-flags word always carries protocol number 1024, the
/// addressable bit set and zero origin bits, and its tagged bit is set
/// exactly for a broadcast target.
pub proof fn lemma_proto_flags_fields(target: DeviceTarget)
    ensures
        Header::spec_proto_flags(target) & 0x0FFF == 1024,
        Header::spec_proto_flags(target) >> 14 == 0,
        Header::spec_proto_flags(target) & 0x1000 != 0,
        (Header::spec_proto_flags(target) & 0x2000 != 0) <==> target is All,
{
    assert((0x3400u16 & 0x0FFF) == 1024) by (bit_vector);
    assert((0x1400u16 & 0x0FFF) == 1024) by (bit_vector);
    assert((0x3400u16 >> 14) == 0) by (bit_vector);
    assert((0x1400u16 >> 14) == 0) by (bit_vector);
    assert((0x3400u16 & 0x1000) != 0) by (bit_vector);
    assert((0x1400u16 & 0x1000) != 0) by (bit_vector);
    assert((0x3400u16 & 0x2000) != 0) by (bit_vector);
    assert((0x1400u16 & 0x2000) == 0) by (bit_vector);
}

/// Reading back the packed address-flags byte recovers both flags.
pub proof fn lemma_address_flags_fields(response_required: bool, ack_required: bool)
    ensures
        (Header::spec_address_flags(response_required, ack_required) & 1 != 0)
            == response_required,
        (Header::spec_address_flags(response_required, ack_required) & 2 != 0) == ack_required,
{
    assert((0u8 | 0u8) == 0 && (0u8 & 1) == 0 && (0u8 & 2) == 0) by (bit_vector);
    assert((1u8 | 0u8) == 1 && (1u8 & 1) != 0 && (1u8 & 2) == 0) by (bit_vector);
    assert((0u8 | 2u8) == 2 && (2u8 & 1) == 0 && (2u8 & 2) != 0) by (bit_vector);
    assert((1u8 | 2u8) == 3 && (3u8 & 1) != 0 && (3u8 & 2) != 0) by (bit_vector);
}

/// The byte at offset `i` of a header's wire image.
pub proof fn lemma_header_byte_layout(h: Header)
    ensures
        h.spec_encode().len() == 36,
        h.spec_encode()[0] == u16_le_bytes(h.size)[0],
        h.spec_encode()[1] == u16_le_bytes(h.size)[1],
        h.spec_encode()[2] == u16_le_bytes(Header::spec_proto_flags(h.target))[0],
        h.spec_encode()[3] == u16_le_bytes(Header::spec_proto_flags(h.target))[1],
        h.spec_encode()[4] == u32_le_bytes(h.source)[0],
        h.spec_encode()[5] == u32_le_bytes(h.source)[1],
        h.spec_encode()[6] == u32_le_bytes(h.source)[2],
        h.spec_encode()[7] == u32_le_bytes(h.source)[3],
        h.spec_encode().subrange(8, 16) == h.target.spec_bytes(),
        h.spec_encode()[22] == Header::spec_address_flags(
            h.response_required,
            h.acknowledgement_required,
        ),
        h.spec_encode()[23] == h.sequence,
        h.spec_encode()[32] == u16_le_bytes(h.message_type.spec_code())[0],
        h.spec_encode()[33] == u16_le_bytes(h.message_type.spec_code())[1],
{
    assert(h.target.spec_bytes().len() == 8);
    assert(h.spec_encode().subrange(8, 16) =~= h.target.spec_bytes());
}

/// A header whose message type is canonical is recovered exactly from its own
/// wire image.
#[verifier::rlimit(60)]
pub proof fn lemma_header_roundtrip(h: Header)
    requires
        canonical_message_type(h.message_type),
    ensures
        Header::spec_parse(h.spec_encode()) == Ok::<Header, ProtocolError>(h),
{
    let b = h.spec_encode();
    lemma_header_byte_layout(h);
    let flags = Header::spec_proto_flags(h.target);
    lemma_u16_le_roundtrip(flags);
    assert(u16_from_le(b[2], b[3]) == flags);
    lemma_proto_flags_fields(h.target);
    lemma_u16_le_roundtrip(h.size);
    lemma_u32_le_roundtrip(h.source);
    lemma_address_flags_fields(h.response_required, h.acknowledgement_required);
    lemma_u16_le_roundtrip(h.message_type.spec_code());
    if !(h.target is All) {
        let m = h.target->Targeted_0;
        assert(b[8] == m.0 && b[9] == m.1 && b[10] == m.2 && b[11] == m.3 && b[12] == m.4 && b[13]
            == m.5) by {
            assert(h.spec_encode().subrange(8, 16)[0] == b[8]);
            assert(h.spec_encode().subrange(8, 16)[1] == b[9]);
            assert(h.spec_encode().subrange(8, 16)[2] == b[10]);
            assert(h.spec_encode().subrange(8, 16)[3] == b[11]);
            assert(h.spec_encode().subrange(8, 16)[4] == b[12]);
            assert(h.spec_encode().subrange(8, 16)[5] == b[13]);
        }
    }
}

} // verus!
