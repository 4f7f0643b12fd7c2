use std::time::Duration;

use stsync_proxy::srt::extension::{
    ExtensionContent, ExtensionField, ExtensionType, HandshakeExtension, HandshakeExtensionMessage,
    StreamIdExtension,
};
use stsync_proxy::srt::handshake::{HandshakePacket, HandshakeType};
use stsync_proxy::srt::proto::timestamp::Timestamp;
use stsync_proxy::srt::proto::Keepalive;
use stsync_proxy::srt::streamid::{parse_resource_id, parse_stream_id_bytes};
use stsync_proxy::srt::{ControlPacketType, DataPacket, Error, Header, Packet, PacketPosition, PacketType};

#[test]
fn short_input_is_unexpected_eof() {
    assert_eq!(Packet::decode(&[0u8; 10]).unwrap_err(), Error::UnexpectedEof);
}

#[test]
fn data_header_is_no_control_header() {
    assert!(matches!(Header::default().as_control(), Err(Error::InvalidPacketType(0))));
}

#[test]
fn unknown_handshake_type_is_refused() {
    assert_eq!(HandshakeType::decode_at(&[0, 0, 0, 9], 0).unwrap_err(), Error::InvalidHandshakeType(9));
    assert_eq!(HandshakeType::decode_at(&[0xff, 0xff, 0xff, 0xff], 0).unwrap(), HandshakeType::Conclusion);
}

#[test]
fn unknown_control_type_is_an_error() {
    let mut header = Header::default();
    header.set_packet_type(PacketType::Control);
    header.seg0 |= 9 << 16;
    let packet = Packet { header, body: vec![0; 64] };
    assert_eq!(HandshakePacket::downcast(packet).unwrap_err(), Error::InvalidControlType(9));
}

#[test]
fn short_bodies_of_other_packets_are_no_handshake() {
    let data = Packet { header: Header::default(), body: vec![0; 21] };
    assert_eq!(HandshakePacket::downcast(data).unwrap_err(), Error::InvalidPacketType(0));
    let mut keepalive = Keepalive::builder().build().upcast();
    keepalive.body = vec![0; 22];
    assert_eq!(HandshakePacket::downcast(keepalive).unwrap_err(), Error::InvalidControlType(1));
}

#[test]
fn rogue_rejection_is_not_decoded() {
    assert_eq!(HandshakeType::decode_at(&[0, 0, 0x03, 0xec], 0).unwrap_err(), Error::InvalidHandshakeType(1004));
    let mut buf = Vec::new();
    HandshakeType::RejectRogue.encode(&mut buf);
    assert_eq!(buf, vec![0, 0, 0x03, 0xec]);
}

#[test]
fn packet_position_flags() {
    let mut p = DataPacket::default();
    for (bits, pos) in [
        (0b10u32, PacketPosition::First),
        (0b00, PacketPosition::Middle),
        (0b01, PacketPosition::Last),
        (0b11, PacketPosition::Full),
    ] {
        p.header.seg1 = bits << 30;
        assert_eq!(p.packet_position_flag(), pos);
    }
}

#[test]
fn keepalive_is_no_handshake() {
    let packet = Keepalive::builder().build().upcast();
    assert_eq!(HandshakePacket::downcast(packet).unwrap_err(), Error::InvalidControlType(1));
}

#[test]
fn extension_errors() {
    assert_eq!(
        HandshakeExtension::decode_at(&[0, 99, 0, 0], 0).unwrap_err(),
        Error::InvalidExtensionType(99)
    );
    assert_eq!(
        HandshakeExtension::decode_at(&[0, 3, 0, 0], 0).unwrap_err(),
        Error::UnsupportedExtension(ExtensionType::KmReq)
    );
    assert_eq!(
        HandshakeExtension::decode_at(&[0, 5, 0, 1, 0xff, 0xfe, 0xfd, 0xfc], 0).unwrap_err(),
        Error::FromUtf8Error
    );
}

#[test]
fn control_types_convert() {
    assert_eq!(ControlPacketType::from_u32(0x7fff), Some(ControlPacketType::UserDefined));
    assert_eq!(ControlPacketType::from_u32(9), None);
    assert_eq!(ControlPacketType::DropReq.to_u16(), 7);
    assert!(ControlPacketType::try_from(0x20u16).is_err());
}

#[test]
fn handshake_roundtrip() {
    let mut hs = HandshakePacket::default();
    hs.header.set_packet_type(PacketType::Control);
    hs.header.destination_socket_id = 3;
    hs.version = 5;
    hs.extension_field = ExtensionField(ExtensionField::SRT_MAGIC);
    hs.initial_packet_sequence_number = 1234;
    hs.maximum_transmission_unit_size = 1500;
    hs.maximum_flow_window_size = 8192;
    hs.handshake_type = HandshakeType::Conclusion;
    hs.srt_socket_id = 44;
    hs.syn_cookie = 99;
    hs.peer_ip_address = 0x7f00_0001;
    hs.extensions.0.push(HandshakeExtension {
        extension_type: ExtensionType::HsReq,
        extension_length: 3,
        extension_content: ExtensionContent::Handshake(HandshakeExtensionMessage {
            srt_version: 0x0001_0401,
            srt_flags: 0xbf,
            receiver_tsbpd_delay: 120,
            sender_tsbpd_delay: 80,
        }),
    });
    hs.extensions.0.push(HandshakeExtension {
        extension_type: ExtensionType::Sid,
        extension_length: 2,
        extension_content: ExtensionContent::StreamId(StreamIdExtension {
            content: "#!::r=1".to_string(),
        }),
    });

    let mut buf = Vec::new();
    hs.encode(&mut buf);
    let back = HandshakePacket::decode(&buf).unwrap();
    assert_eq!(back.header, hs.header);
    assert_eq!(back.version, 5);
    assert_eq!(back.extension_field.0, 0x4A17);
    assert_eq!(back.initial_packet_sequence_number, 1234);
    assert_eq!(back.maximum_transmission_unit_size, 1500);
    assert_eq!(back.maximum_flow_window_size, 8192);
    assert_eq!(back.handshake_type, HandshakeType::Conclusion);
    assert_eq!(back.srt_socket_id, 44);
    assert_eq!(back.syn_cookie, 99);
    assert_eq!(back.peer_ip_address, 0x7f00_0001);
    assert_eq!(back.extensions.0.len(), 2);
    match &back.extensions.0[0].extension_content {
        ExtensionContent::Handshake(m) => {
            assert_eq!(m.srt_version, 0x0001_0401);
            assert_eq!(m.sender_tsbpd_delay, 80);
        }
        _ => panic!("expected a handshake message"),
    }
    match &back.extensions.0[1].extension_content {
        ExtensionContent::StreamId(s) => assert_eq!(s.content, "#!::r=1"),
        _ => panic!("expected a stream id"),
    }
}

#[test]
fn packet_roundtrip() {
    let packet = Packet {
        header: Header { seg0: 0x8002_0000, seg1: 5, timestamp: 6, destination_socket_id: 7 },
        body: vec![1, 2, 3],
    };
    let bytes = packet.encode_to_vec();
    assert_eq!(bytes.len(), 19);
    assert_eq!(&bytes[0..4], &[0x80, 0x02, 0, 0]);
    let back = Packet::decode(&bytes).unwrap();
    assert_eq!(back.header, packet.header);
    assert_eq!(back.body, packet.body);
    assert_eq!(back.size(), 19);
}

#[test]
fn extension_field_describes_its_flags() {
    assert_eq!(ExtensionField(5).describe(), "ExtensionField { HSREQ, CONFIG }");
    assert_eq!(ExtensionField(2).describe(), "ExtensionField { KMREQ,  }");
    assert!(ExtensionField(0x4A17).is_magic());
}

#[test]
fn stream_ids_parse() {
    let sid = parse_stream_id_bytes(b"#!::r=1a,s=2,m=request").unwrap();
    assert_eq!(sid.resource, Some(b"1a".to_vec()));
    assert_eq!(sid.session, Some(b"2".to_vec()));
    assert_eq!(sid.mode, Some(b"request".to_vec()));

    let sid = parse_stream_id_bytes(b"#!::m=publish,x=y").unwrap();
    assert_eq!(sid.resource, None);
    assert_eq!(sid.mode, Some(b"publish".to_vec()));

    assert!(parse_stream_id_bytes(b"#!::r").is_none());
    assert!(parse_stream_id_bytes(b"r=1").is_none());

    let ext = StreamIdExtension { content: "#!::r=ff".to_string() };
    assert_eq!(ext.parse().unwrap().resource, Some(b"ff".to_vec()));
}

#[test]
fn resource_ids_are_hex() {
    assert_eq!(parse_resource_id(b"1a"), Some(26));
    assert_eq!(parse_resource_id(b"FFFFFFFFFFFFFFFF"), Some(u64::MAX));
    assert_eq!(parse_resource_id(b"10000000000000000"), None);
    assert_eq!(parse_resource_id(b""), None);
    assert_eq!(parse_resource_id(b"xyz"), None);
}

#[test]
fn timestamps() {
    let t = Timestamp::from_micros(5);
    assert_eq!(t.as_micros(), 5);
    assert_eq!(t.to_duration(), Duration::from_micros(5));
    assert!(Timestamp::from_micros(4_264_967_295).is_wrapping());
    assert!(!Timestamp::from_micros(4_264_967_294).is_wrapping());
    assert!(Timestamp::from_micros(5) < Timestamp::from_micros(6));
    assert!(Timestamp::from_micros(u32::MAX) < Timestamp::from_micros(1));
}
