//! Tests for the connection engine: discovery, reply routing, sequence
//! allocation and source filtering.

use lifx_client::address::{DeviceAddress, Endpoint, IpAddress};
use lifx_client::client::{expect_state, expect_state_label};
use lifx_client::connection::{
    Connection, InboundAction, InboundMessage, Request, Response, SinkId, SubmitOutcome,
};
use lifx_client::color::{Hsbk, Kelvin};
use lifx_client::error::{Error, ProtocolError};
use lifx_client::header::{DeviceTarget, Header, MacAddress};
use lifx_client::label::Label;
use lifx_client::message::{Message, MessageType, Service, SetColor, StateLabel, StateService};
use lifx_client::packet::Packet;

fn mac() -> MacAddress {
    MacAddress(0xaa, 0xbb, 0xcc, 0xdd, 0xee, 0xff)
}

fn peer() -> Endpoint {
    Endpoint { ip: IpAddress::V4(192, 0, 2, 5), port: 4242 }
}

fn targeted() -> DeviceAddress {
    DeviceAddress::new(Endpoint { ip: IpAddress::V4(192, 0, 2, 5), port: 56700 }, DeviceTarget::Targeted(mac()))
}

fn sent(outcome: SubmitOutcome) -> (Packet, Endpoint) {
    match outcome {
        SubmitOutcome::Sent { packet, destination } => (packet, destination),
        SubmitOutcome::Deferred => panic!("request was deferred"),
    }
}

fn encode_packet(p: &Packet) -> Vec<u8> {
    let mut buf = Vec::new();
    p.encode(&mut buf);
    buf
}

/// An inbound message as the shell would build it from a decoded packet.
fn inbound(source: u32, target: DeviceTarget, sequence: u8, message: Message, addr: Endpoint) -> InboundMessage {
    InboundMessage {
        addr,
        header: Header {
            size: 36 + message.payload_size() as u16,
            source,
            target,
            response_required: false,
            acknowledgement_required: false,
            sequence,
            message_type: message.message_type(),
        },
        message,
    }
}

#[test]
fn discovery_roundtrip() {
    let mut conn = Connection::new(1234);

    // The client broadcasts GetService.
    let (packet, destination) = sent(conn.submit(Request::new(
        DeviceAddress::all(),
        Message::GetService,
        None,
    )));
    assert_eq!(
        destination,
        Endpoint { ip: IpAddress::V4(255, 255, 255, 255), port: 56700 }
    );
    let bytes = encode_packet(&packet);
    assert_eq!(u16::from_le_bytes([bytes[0], bytes[1]]), 36);
    assert_eq!(u16::from_le_bytes([bytes[32], bytes[33]]), 2);
    assert_ne!(u16::from_le_bytes([bytes[2], bytes[3]]) & 0x2000, 0);
    assert_eq!(u32::from_le_bytes([bytes[4], bytes[5], bytes[6], bytes[7]]), 1234);

    // A device answers with a StateService advertising its UDP port.
    let reply = inbound(
        1234,
        DeviceTarget::Targeted(mac()),
        0,
        Message::StateService(StateService { service: Service::Udp, port: 56700 }),
        peer(),
    );
    let action = conn.handle_message(reply);
    match action {
        InboundAction::Discovered { address } => {
            assert_eq!(
                address,
                DeviceAddress::new(
                    Endpoint { ip: IpAddress::V4(192, 0, 2, 5), port: 56700 },
                    DeviceTarget::Targeted(mac()),
                )
            );
        }
        _ => panic!("expected a discovery event"),
    }
}

#[test]
fn non_udp_service_is_discarded() {
    let mut conn = Connection::new(1234);
    let reply = inbound(
        1234,
        DeviceTarget::Targeted(mac()),
        0,
        Message::StateService(StateService { service: Service::Unknown(5), port: 56700 }),
        peer(),
    );
    assert!(matches!(conn.handle_message(reply), InboundAction::Discarded));
}

#[test]
fn get_label_roundtrip() {
    let mut conn = Connection::new(1234);

    let (packet, _) = sent(conn.submit(Request::new(
        targeted(),
        Message::GetLabel,
        Some(Response::Reply(SinkId(7))),
    )));
    let bytes = encode_packet(&packet);
    // response_required set, acknowledgement_required clear.
    assert_eq!(bytes[22], 0x01);
    let sequence = packet.sequence();

    // The device answers through the wire codec.
    let device_reply = Packet::new(
        1234,
        DeviceTarget::Targeted(mac()),
        sequence,
        false,
        false,
        Message::StateLabel(StateLabel { label: Label::new("Kitchen") }),
    );
    let wire = encode_packet(&device_reply);
    let decoded = Packet::decode(&wire).unwrap();
    let reply = inbound(
        decoded.source(),
        decoded.target(),
        decoded.sequence(),
        decoded.into_message(),
        peer(),
    );

    match conn.handle_message(reply) {
        InboundAction::Reply { sink, message } => {
            assert_eq!(sink, SinkId(7));
            let label = expect_state_label(message.message).unwrap();
            assert_eq!(label.into_string(), String::from("Kitchen"));
        }
        _ => panic!("expected the reply to reach the waiting sink"),
    }
    assert_eq!(conn.pending_count(), 0);
}

#[test]
fn unexpected_reply_type_is_an_error() {
    assert_eq!(
        expect_state_label(Message::Acknowledgement),
        Err(Error::Protocol(ProtocolError::UnexpectedMessage(MessageType::Acknowledgement)))
    );
    assert_eq!(
        expect_state(Message::GetService),
        Err(Error::Protocol(ProtocolError::UnexpectedMessage(MessageType::GetService)))
    );
}

#[test]
fn acknowledgement_completes_ack_sink() {
    let mut conn = Connection::new(9);
    let (packet, _) = sent(conn.submit(Request::new(
        targeted(),
        Message::GetLabel,
        Some(Response::Acknowledgement(SinkId(3))),
    )));
    let bytes = encode_packet(&packet);
    // acknowledgement_required set, response_required clear.
    assert_eq!(bytes[22], 0x02);
    assert_eq!(conn.pending_count(), 1);

    let reply = inbound(9, DeviceTarget::Targeted(mac()), packet.sequence(), Message::Acknowledgement, peer());
    assert!(matches!(
        conn.handle_message(reply),
        InboundAction::AckCompleted { sink: SinkId(3) }
    ));
    assert_eq!(conn.pending_count(), 0);
}

#[test]
fn sequence_collision_avoidance() {
    let mut conn = Connection::new(1);

    // Pin reply sinks at sequences 0..=254.
    for i in 0..255u32 {
        let (packet, _) = sent(conn.submit(Request::new(
            targeted(),
            Message::GetLabel,
            Some(Response::Reply(SinkId(i as u64))),
        )));
        assert_eq!(packet.sequence() as u32, i);
    }
    assert_eq!(conn.pending_count(), 255);

    // The 256th reply request must select sequence 255.
    let (packet, _) = sent(conn.submit(Request::new(
        targeted(),
        Message::GetLabel,
        Some(Response::Reply(SinkId(255))),
    )));
    assert_eq!(packet.sequence(), 255);
    assert_eq!(conn.pending_count(), 256);

    // A 257th is deferred: no slot is overwritten and nothing fails.
    let outcome = conn.submit(Request::new(
        targeted(),
        Message::GetLabel,
        Some(Response::Reply(SinkId(256))),
    ));
    assert!(matches!(outcome, SubmitOutcome::Deferred));
    assert!(conn.has_deferred());
    assert_eq!(conn.pending_count(), 256);

    // An inbound reply clears slot 42; the deferred request then goes out on
    // that sequence.
    let reply = inbound(1, DeviceTarget::Targeted(mac()), 42, Message::Acknowledgement, peer());
    match conn.handle_message(reply) {
        InboundAction::Reply { sink, .. } => assert_eq!(sink, SinkId(42)),
        _ => panic!("expected the reply to reach sink 42"),
    }
    assert_eq!(conn.pending_count(), 255);

    let deferred = conn.take_deferred().expect("a request was parked");
    let (packet, _) = sent(conn.submit(deferred));
    assert_eq!(packet.sequence(), 42);
    assert_eq!(conn.pending_count(), 256);
}

#[test]
fn fire_and_forget_does_not_take_slots() {
    let mut conn = Connection::new(1);
    for i in 0..300u32 {
        let (packet, _) = sent(conn.submit(Request::new(targeted(), Message::Get, None)));
        assert_eq!(packet.sequence() as u32, i % 256);
    }
    assert_eq!(conn.pending_count(), 0);
}

#[test]
fn source_filtering_drops_foreign_packets() {
    let mut conn = Connection::new(5);
    let (packet, _) = sent(conn.submit(Request::new(
        targeted(),
        Message::GetLabel,
        Some(Response::Reply(SinkId(1))),
    )));
    assert_eq!(conn.pending_count(), 1);

    // An inbound packet with source 6 triggers nothing and changes nothing.
    let foreign = inbound(
        6,
        DeviceTarget::Targeted(mac()),
        packet.sequence(),
        Message::StateService(StateService { service: Service::Udp, port: 56700 }),
        peer(),
    );
    assert!(matches!(conn.handle_message(foreign), InboundAction::Ignored));
    assert_eq!(conn.pending_count(), 1);
}

#[test]
fn set_color_request_carries_ack_flag_and_payload() {
    let mut conn = Connection::new(77);
    let color = Hsbk {
        hue: 0x1111,
        saturation: 0x2222,
        brightness: 0x3333,
        temperature: Kelvin::new(4000),
    };
    let (packet, _) = sent(conn.submit(Request::new(
        targeted(),
        Message::SetColor(SetColor { color, duration_ms: 5000 }),
        Some(Response::Acknowledgement(SinkId(1))),
    )));
    let bytes = encode_packet(&packet);
    assert_eq!(bytes[22], 0x02);
    assert_eq!(bytes[36], 0);
    assert_eq!(&bytes[37..39], &0x1111u16.to_le_bytes());
    assert_eq!(&bytes[39..41], &0x2222u16.to_le_bytes());
    assert_eq!(&bytes[41..43], &0x3333u16.to_le_bytes());
    assert_eq!(&bytes[43..45], &4000u16.to_le_bytes());
    assert_eq!(&bytes[45..49], &5000u32.to_le_bytes());
}

#[test]
fn unsolicited_non_discovery_reply_is_discarded() {
    let mut conn = Connection::new(5);
    let stray = inbound(5, DeviceTarget::Targeted(mac()), 9, Message::Acknowledgement, peer());
    assert!(matches!(conn.handle_message(stray), InboundAction::Discarded));
    assert_eq!(conn.pending_count(), 0);
}
