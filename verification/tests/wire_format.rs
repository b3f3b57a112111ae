//! Tests for the wire codec: header layout, payload layouts, labels, colors
//! and framing.

use lifx_client::codec::Codec;
use lifx_client::color::{Hsbk, Kelvin, KelvinError};
use lifx_client::error::ProtocolError;
use lifx_client::header::{DeviceTarget, Header, MacAddress};
use lifx_client::label::Label;
use lifx_client::message::{
    Message, MessageType, Service, SetColor, SetLabel, State, StateLabel, StateService,
};
use lifx_client::packet::Packet;

fn mac() -> MacAddress {
    MacAddress(0xaa, 0xbb, 0xcc, 0xdd, 0xee, 0xff)
}

fn encode_packet(p: &Packet) -> Vec<u8> {
    let mut buf = Vec::new();
    p.encode(&mut buf);
    buf
}

#[test]
fn test_header() {
    let bytes: [u8; 2] = [0b0000_0000, 0b0011_0100];
    let proto_flags = u16::from_le_bytes(bytes);

    // Protocol version
    assert_eq!(proto_flags & 0x0FFF, 1024);
    // Origin
    assert_eq!(proto_flags >> 14, 0);
    // Addressable
    assert_eq!((proto_flags >> 12) & 1 == 1, true);
    // Tagged
    assert_eq!((proto_flags >> 13) & 1 == 1, true);
}

#[test]
fn encoded_size_field_matches_length() {
    let p = Packet::new(7, DeviceTarget::All, 3, false, false, Message::GetService);
    let bytes = encode_packet(&p);
    assert_eq!(bytes.len(), 36);
    assert_eq!(u16::from_le_bytes([bytes[0], bytes[1]]) as usize, bytes.len());

    let p = Packet::new(
        7,
        DeviceTarget::All,
        3,
        false,
        false,
        Message::SetLabel(SetLabel { label: Label::new("x") }),
    );
    let bytes = encode_packet(&p);
    assert_eq!(bytes.len(), 68);
    assert_eq!(u16::from_le_bytes([bytes[0], bytes[1]]) as usize, bytes.len());
}

#[test]
fn encoded_target_all_sets_tagged_bit_and_zero_target() {
    let p = Packet::new(7, DeviceTarget::All, 0, false, false, Message::GetService);
    let bytes = encode_packet(&p);
    let proto_flags = u16::from_le_bytes([bytes[2], bytes[3]]);
    assert_eq!(proto_flags & 0x0FFF, 1024);
    assert_ne!(proto_flags & 0x2000, 0);
    for i in 8..16 {
        assert_eq!(bytes[i], 0);
    }
}

#[test]
fn encoded_target_mac_clears_tagged_bit_and_writes_mac() {
    let p = Packet::new(7, DeviceTarget::Targeted(mac()), 0, false, false, Message::GetService);
    let bytes = encode_packet(&p);
    let proto_flags = u16::from_le_bytes([bytes[2], bytes[3]]);
    assert_eq!(proto_flags & 0x0FFF, 1024);
    assert_eq!(proto_flags & 0x2000, 0);
    assert_eq!(&bytes[8..14], &[0xaa, 0xbb, 0xcc, 0xdd, 0xee, 0xff]);
    assert_eq!(&bytes[14..16], &[0, 0]);
}

#[test]
fn packet_roundtrip_every_message_type() {
    let color = Hsbk {
        hue: 1000,
        saturation: 2000,
        brightness: 3000,
        temperature: Kelvin::new(3500),
    };
    let messages = vec![
        Message::GetService,
        Message::StateService(StateService { service: Service::Udp, port: 56700 }),
        Message::GetLabel,
        Message::SetLabel(SetLabel { label: Label::new("Bedroom") }),
        Message::StateLabel(StateLabel { label: Label::new("Kitchen") }),
        Message::Acknowledgement,
        Message::Get,
        Message::SetColor(SetColor { color, duration_ms: 2500 }),
        Message::State(State { color, power: 65535, label: Label::new("Lamp") }),
    ];
    for (i, message) in messages.into_iter().enumerate() {
        let p = Packet::new(
            0xdeadbeef,
            if i % 2 == 0 { DeviceTarget::All } else { DeviceTarget::Targeted(mac()) },
            i as u8,
            i % 2 == 0,
            i % 2 == 1,
            message,
        );
        let bytes = encode_packet(&p);
        let decoded = Packet::decode(&bytes).expect("roundtrip decode failed");
        assert_eq!(decoded, p);
    }
}

#[test]
fn header_roundtrip_fields() {
    let p = Packet::new(1234, DeviceTarget::Targeted(mac()), 77, true, false, Message::Get);
    let bytes = encode_packet(&p);
    let header = Header::decode(&bytes).unwrap();
    assert_eq!(header.size, 36);
    assert_eq!(header.source, 1234);
    assert_eq!(header.target, DeviceTarget::Targeted(mac()));
    assert_eq!(header.sequence, 77);
    assert!(header.response_required);
    assert!(!header.acknowledgement_required);
    assert_eq!(header.message_type, MessageType::Get);
}

#[test]
fn header_rejects_bad_protocol() {
    let p = Packet::new(1, DeviceTarget::All, 0, false, false, Message::GetService);
    let mut bytes = encode_packet(&p);
    // Overwrite the low 12 bits of the protocol-flags word with 1025.
    let flags = (u16::from_le_bytes([bytes[2], bytes[3]]) & 0xF000) | 1025;
    bytes[2] = (flags & 0xff) as u8;
    bytes[3] = (flags >> 8) as u8;
    assert_eq!(Header::decode(&bytes), Err(ProtocolError::InvalidProtocol(1025)));
}

#[test]
fn header_rejects_nonzero_origin() {
    let p = Packet::new(1, DeviceTarget::All, 0, false, false, Message::GetService);
    let mut bytes = encode_packet(&p);
    let flags = u16::from_le_bytes([bytes[2], bytes[3]]) | 0x4000;
    bytes[2] = (flags & 0xff) as u8;
    bytes[3] = (flags >> 8) as u8;
    assert_eq!(Header::decode(&bytes), Err(ProtocolError::InvalidOrigin(1)));
}

#[test]
fn header_rejects_not_addressable() {
    let p = Packet::new(1, DeviceTarget::All, 0, false, false, Message::GetService);
    let mut bytes = encode_packet(&p);
    let flags = u16::from_le_bytes([bytes[2], bytes[3]]) & !0x1000;
    bytes[2] = (flags & 0xff) as u8;
    bytes[3] = (flags >> 8) as u8;
    assert_eq!(Header::decode(&bytes), Err(ProtocolError::NotAddressable));
}

#[test]
fn decode_rejects_unknown_message_type() {
    let p = Packet::new(1, DeviceTarget::All, 0, false, false, Message::GetService);
    let mut bytes = encode_packet(&p);
    // Overwrite the message type with an unsupported code.
    bytes[32] = 0xe7;
    bytes[33] = 0x03;
    assert_eq!(
        Packet::decode(&bytes),
        Err(ProtocolError::UnexpectedMessage(MessageType::Other(999)))
    );
}

#[test]
fn decode_rejects_short_buffer() {
    let bytes = [0u8; 35];
    assert_eq!(Packet::decode(&bytes), Err(ProtocolError::InsufficientData));
}

#[test]
fn label_roundtrip_strips_trailing_nuls() {
    let mut wire = b"Kitchen".to_vec();
    wire.resize(32, 0);
    let label = Label::decode(&wire, 0).unwrap();
    assert_eq!(label.as_str(), "Kitchen");
    assert_eq!(label.into_string(), String::from("Kitchen"));
}

#[test]
fn label_rejects_invalid_utf8() {
    let wire = [0xffu8; 32];
    assert_eq!(Label::decode(&wire, 0), Err(ProtocolError::InvalidLabel));
}

#[test]
fn label_rejects_over_32_bytes() {
    let text = String::from("abcdefghijklmnopqrstuvwxyz0123456");
    assert_eq!(text.len(), 33);
    assert_eq!(Label::try_from_string(text), Err(ProtocolError::InvalidLabel));
    let ok = String::from("abcdefghijklmnopqrstuvwxyz012345");
    assert_eq!(Label::try_from_string(ok.clone()).unwrap().into_string(), ok);
}

#[test]
fn label_encodes_zero_padded() {
    let label = Label::new("Lamp");
    let mut buf = Vec::new();
    label.encode(&mut buf);
    assert_eq!(buf.len(), 32);
    assert_eq!(&buf[0..4], b"Lamp");
    assert!(buf[4..].iter().all(|b| *b == 0));
}

#[test]
fn kelvin_range_is_validated() {
    assert_eq!(Kelvin::try_new(2500).unwrap().value(), 2500);
    assert_eq!(Kelvin::try_new(9000).unwrap().value(), 9000);
    assert_eq!(Kelvin::try_new(2499), Err(KelvinError(2499)));
    assert_eq!(Kelvin::try_new(9001), Err(KelvinError(9001)));
}

#[test]
fn hsbk_roundtrip_and_kelvin_rejection() {
    let color = Hsbk {
        hue: 0x1234,
        saturation: 0x5678,
        brightness: 0x9abc,
        temperature: Kelvin::new(9000),
    };
    let mut buf = Vec::new();
    color.encode(&mut buf);
    assert_eq!(buf.len(), 8);
    assert_eq!(Hsbk::decode(&buf, 0).unwrap(), color);

    // Out-of-range Kelvin fails decode.
    buf[6] = 0x29;
    buf[7] = 0x23;
    assert_eq!(Hsbk::decode(&buf, 0), Err(ProtocolError::InvalidKelvin(9001)));
}

#[test]
fn set_color_payload_layout() {
    let color = Hsbk {
        hue: 0x0102,
        saturation: 0x0304,
        brightness: 0x0506,
        temperature: Kelvin::new(3500),
    };
    let p = Packet::new(
        9,
        DeviceTarget::Targeted(mac()),
        1,
        false,
        true,
        Message::SetColor(SetColor { color, duration_ms: 5000 }),
    );
    let bytes = encode_packet(&p);
    assert_eq!(bytes.len(), 49);
    assert_eq!(bytes[36], 0); // reserved
    assert_eq!(&bytes[37..39], &[0x02, 0x01]);
    assert_eq!(&bytes[39..41], &[0x04, 0x03]);
    assert_eq!(&bytes[41..43], &[0x06, 0x05]);
    assert_eq!(&bytes[43..45], &3500u16.to_le_bytes());
    assert_eq!(&bytes[45..49], &5000u32.to_le_bytes());
}

#[test]
fn state_payload_layout() {
    let color = Hsbk {
        hue: 1,
        saturation: 2,
        brightness: 3,
        temperature: Kelvin::new(2700),
    };
    let p = Packet::new(
        9,
        DeviceTarget::Targeted(mac()),
        1,
        false,
        false,
        Message::State(State { color, power: 0xabcd, label: Label::new("Desk") }),
    );
    let bytes = encode_packet(&p);
    assert_eq!(bytes.len(), 88);
    assert_eq!(&bytes[36..44], {
        let mut c = Vec::new();
        color.encode(&mut c);
        c
    }.as_slice());
    assert_eq!(&bytes[44..46], &[0, 0]); // reserved
    assert_eq!(&bytes[46..48], &0xabcdu16.to_le_bytes());
    assert_eq!(&bytes[48..52], b"Desk");
    assert!(bytes[52..80].iter().all(|b| *b == 0));
    assert!(bytes[80..88].iter().all(|b| *b == 0)); // reserved
}

#[test]
fn state_service_payload_layout() {
    let p = Packet::new(
        9,
        DeviceTarget::Targeted(mac()),
        1,
        false,
        false,
        Message::StateService(StateService { service: Service::Udp, port: 56700 }),
    );
    let bytes = encode_packet(&p);
    assert_eq!(bytes.len(), 41);
    assert_eq!(bytes[36], 1);
    assert_eq!(&bytes[37..41], &56700u32.to_le_bytes());
}

#[test]
fn oversize_frame_fails_with_framing_error() {
    let mut buf = vec![0u8; 36];
    buf[0] = 0x00;
    buf[1] = 0x20; // declared size 8192
    let before = buf.clone();
    assert_eq!(Codec::decode(&mut buf), Err(ProtocolError::PacketTooLarge(8192)));
    assert_eq!(buf, before);
}

#[test]
fn codec_waits_for_full_frame_then_yields_packet() {
    let p = Packet::new(5, DeviceTarget::All, 2, false, false, Message::GetService);
    let bytes = encode_packet(&p);

    let mut partial = bytes[..20].to_vec();
    assert_eq!(Codec::decode(&mut partial), Ok(None));
    assert_eq!(partial.len(), 20);

    let mut buf = bytes.clone();
    // A second frame accumulated behind the first stays in the buffer.
    buf.extend_from_slice(&bytes);
    let first = Codec::decode(&mut buf).unwrap().unwrap();
    assert_eq!(first, p);
    assert_eq!(buf, bytes);
    let second = Codec::decode(&mut buf).unwrap().unwrap();
    assert_eq!(second, p);
    assert!(buf.is_empty());
    assert_eq!(Codec::decode(&mut buf), Ok(None));
}

#[test]
fn message_sizes_match_catalog() {
    assert_eq!(Message::GetService.payload_size(), 0);
    assert_eq!(Message::GetLabel.payload_size(), 0);
    assert_eq!(Message::Get.payload_size(), 0);
    assert_eq!(Message::Acknowledgement.payload_size(), 0);
    assert_eq!(
        Message::StateService(StateService { service: Service::Udp, port: 0 }).payload_size(),
        5
    );
    assert_eq!(
        Message::SetLabel(SetLabel { label: Label::new("") }).payload_size(),
        32
    );
    assert_eq!(
        Message::StateLabel(StateLabel { label: Label::new("") }).payload_size(),
        32
    );
    let color = Hsbk { hue: 0, saturation: 0, brightness: 0, temperature: Kelvin::new(2500) };
    assert_eq!(
        Message::SetColor(SetColor { color, duration_ms: 0 }).payload_size(),
        13
    );
    assert_eq!(
        Message::State(State { color, power: 0, label: Label::new("") }).payload_size(),
        52
    );
}

#[test]
fn message_type_codes_roundtrip() {
    let codes: [(MessageType, u16); 9] = [
        (MessageType::GetService, 2),
        (MessageType::StateService, 3),
        (MessageType::GetLabel, 23),
        (MessageType::SetLabel, 24),
        (MessageType::StateLabel, 25),
        (MessageType::Acknowledgement, 45),
        (MessageType::Get, 101),
        (MessageType::SetColor, 102),
        (MessageType::State, 107),
    ];
    for (t, code) in codes {
        assert_eq!(t.code(), code);
        assert_eq!(MessageType::from_code(code), t);
    }
    assert_eq!(MessageType::from_code(999), MessageType::Other(999));
    assert_eq!(MessageType::Other(999).code(), 999);
    assert_eq!(Service::from_code(1), Service::Udp);
    assert_eq!(Service::from_code(9), Service::Unknown(9));
    assert_eq!(Service::Unknown(9).code(), 9);
}
