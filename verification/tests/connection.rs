use stsync_proxy::srt::connection::{Action, Connection, ConnectionMode, PollState};
use stsync_proxy::srt::extension::{
    ExtensionContent, ExtensionType, HandshakeExtension, HandshakeExtensionMessage, StreamIdExtension,
};
use stsync_proxy::srt::handshake::{HandshakePacket, HandshakeType};
use stsync_proxy::srt::proto::{Ack, AckAck, Keepalive, Nak, SequenceNumbers, Shutdown};
use stsync_proxy::srt::server::{accept_induction, handshake_induction, route, Route};
use stsync_proxy::srt::{DataPacket, Error, Packet, PacketType};

const NOW: u64 = 10_000_000;

fn conclusion(cookie: u32, stream_id: Option<&str>) -> HandshakePacket {
    let mut hs = HandshakePacket::default();
    hs.header.set_packet_type(PacketType::Control);
    hs.handshake_type = HandshakeType::Conclusion;
    hs.version = 5;
    hs.syn_cookie = cookie;
    hs.srt_socket_id = 77;
    hs.extensions.0.push(HandshakeExtension {
        extension_type: ExtensionType::HsReq,
        extension_length: 3,
        extension_content: ExtensionContent::Handshake(HandshakeExtensionMessage {
            srt_version: 0x0001_0401,
            srt_flags: 0xbf,
            receiver_tsbpd_delay: 120,
            sender_tsbpd_delay: 0,
        }),
    });
    if let Some(sid) = stream_id {
        hs.extensions.0.push(HandshakeExtension {
            extension_type: ExtensionType::Sid,
            extension_length: 5,
            extension_content: ExtensionContent::StreamId(StreamIdExtension { content: sid.to_string() }),
        });
    }
    hs
}

fn requesting() -> Connection {
    let mut conn = Connection::new(7, 9, 1000, 42, NOW);
    let r = conn.handle_handshake(conclusion(42, Some("#!::r=1a,s=5,m=request")), NOW);
    assert!(matches!(r, Ok(Action::StartRequest(0x1a))));
    conn.queue.pop().unwrap();
    conn
}

#[test]
fn new_connection_is_in_induction() {
    let conn = Connection::new(7, 9, 1000, 42, NOW);
    assert_eq!(conn.server_socket_id, 7);
    assert_eq!(conn.client_socket_id, 9);
    assert_eq!(conn.server_sequence_number, 1000);
    assert_eq!(conn.client_sequence_number, 1000);
    assert!(matches!(conn.mode, ConnectionMode::Induction { syn_cookie: 42 }));
    assert_eq!(conn.poll_state, PollState::Read);
    assert_eq!(conn.mtu, 1500);
    assert!(conn.queue.is_empty());
}

#[test]
fn keepalive_is_answered() {
    let mut conn = Connection::new(7, 9, 1000, 42, NOW);
    let packet = Keepalive::builder().build().upcast();
    let r = conn.handle_packet(packet, NOW + 2_000);
    assert!(matches!(r, Ok(Action::Nothing)));
    assert_eq!(conn.last_time, NOW + 2_000);
    let reply = conn.queue.pop().unwrap();
    assert_eq!(reply.header.timestamp, 2_000);
    assert_eq!(reply.header.destination_socket_id, 9);
    assert_eq!(reply.header.seg0, 0x8001_0000);
    assert_eq!(reply.body, vec![0, 0, 0, 0]);
    assert!(conn.queue.pop().is_none());
}

#[test]
fn handshake_with_wrong_cookie_is_ignored() {
    let mut conn = Connection::new(7, 9, 1000, 42, NOW);
    let r = conn.handle_handshake(conclusion(41, None), NOW);
    assert!(matches!(r, Ok(Action::Nothing)));
    assert!(conn.queue.is_empty());
    assert!(matches!(conn.mode, ConnectionMode::Induction { syn_cookie: 42 }));
}

/// Checks that `body` is a rogue rejection, which decoding refuses, and returns its other
/// fields, read under the conclusion type.
fn rejection_fields(body: &[u8]) -> HandshakePacket {
    assert_eq!(&body[20..24], &[0, 0, 0x03, 0xec]);
    assert_eq!(HandshakePacket::decode_body(body).unwrap_err(), Error::InvalidHandshakeType(1004));
    let mut copy = body.to_vec();
    copy[20..24].copy_from_slice(&[0xff, 0xff, 0xff, 0xff]);
    HandshakePacket::decode_body(&copy).unwrap()
}

#[test]
fn handshake_without_stream_id_is_rejected() {
    let mut conn = Connection::new(7, 9, 1000, 42, NOW);
    let r = conn.handle_handshake(conclusion(42, None), NOW);
    assert!(matches!(r, Ok(Action::Nothing)));
    let reply = conn.queue.pop().unwrap();
    let hs = rejection_fields(&reply.body);
    assert_eq!(hs.syn_cookie, 0);
    assert_eq!(hs.srt_socket_id, 7);
    assert_eq!(hs.initial_packet_sequence_number, 1000);
    assert_eq!(hs.extension_field.0, 1);
    assert_eq!(hs.extensions.0.len(), 1);
    assert_eq!(hs.extensions.0[0].extension_type, ExtensionType::HsRsp);
    match &hs.extensions.0[0].extension_content {
        ExtensionContent::Handshake(m) => {
            assert_eq!(m.sender_tsbpd_delay, 120);
            assert_eq!(m.receiver_tsbpd_delay, 120);
        }
        _ => panic!("expected a handshake message"),
    }
    assert!(matches!(conn.mode, ConnectionMode::Induction { .. }));
}

#[test]
fn handshake_with_publish_stream_id() {
    let mut conn = Connection::new(7, 9, 1000, 42, NOW);
    let r = conn.handle_handshake(conclusion(42, Some("#!::m=publish,s=abc,r=ff")), NOW);
    assert!(matches!(r, Ok(Action::StartPublish(0xff))));
    assert!(conn.is_publish());
    assert_eq!(conn.queue.queue.len(), 1);
    let reply = conn.queue.pop().unwrap();
    let hs = HandshakePacket::decode_body(&reply.body).unwrap();
    assert_eq!(hs.handshake_type, HandshakeType::Conclusion);
    assert_eq!(hs.extensions.0.len(), 1);
}

fn assert_rejected(conn: &mut Connection) {
    let reply = conn.queue.pop().unwrap();
    rejection_fields(&reply.body);
    assert!(conn.queue.is_empty());
    assert!(matches!(conn.mode, ConnectionMode::Induction { syn_cookie: 42 }));
}

#[test]
fn handshake_missing_a_required_key_is_rejected() {
    for sid in ["#!::m=publish", "#!::r=ff,m=publish", "#!::s=1,m=request", "#!::r=zz,s=1,m=request", "#!::r=1,s=1"] {
        let mut conn = Connection::new(7, 9, 1000, 42, NOW);
        let r = conn.handle_handshake(conclusion(42, Some(sid)), NOW);
        assert!(matches!(r, Ok(Action::Nothing)));
        assert_rejected(&mut conn);
    }
}

#[test]
fn handshake_with_unknown_mode_is_rejected() {
    let mut conn = Connection::new(7, 9, 1000, 42, NOW);
    let r = conn.handle_handshake(conclusion(42, Some("#!::r=1,s=1,m=listen")), NOW);
    assert!(matches!(r, Ok(Action::Nothing)));
    assert_rejected(&mut conn);
    let r = conn.handle_handshake(conclusion(42, Some("not a stream id")), NOW);
    assert!(matches!(r, Ok(Action::Nothing)));
    assert_rejected(&mut conn);
}

#[test]
fn stream_items_are_sent_in_order() {
    let mut conn = requesting();
    assert!(conn.is_request());
    conn.on_stream_item(vec![1, 2, 3], NOW + 5);
    conn.on_stream_item(vec![4, 5], NOW + 6);
    assert_eq!(conn.server_sequence_number, 1002);
    let first = conn.queue.pop().unwrap();
    assert_eq!(first.header.seg0, 1000);
    assert_eq!(first.header.seg1, 0xE000_0001);
    assert_eq!(first.header.timestamp, 5);
    assert_eq!(first.body, vec![1, 2, 3]);
    let second = conn.queue.pop().unwrap();
    assert_eq!(second.header.seg0, 1001);
    assert_eq!(second.header.seg1, 0xE000_0002);
    assert_eq!(second.body, vec![4, 5]);
}

#[test]
fn nak_retransmits_the_same_payload() {
    let mut conn = requesting();
    conn.on_stream_item(vec![1, 2, 3], NOW + 5);
    conn.on_stream_item(vec![4, 5], NOW + 6);
    conn.queue.pop();
    conn.queue.pop();
    let nak = Nak::builder().lost_packet_sequence_numbers(SequenceNumbers::from(1000..=1001)).build();
    let r = conn.handle_nak(nak, NOW + 50);
    assert!(matches!(r, Ok(Action::Nothing)));
    assert_eq!(conn.queue.prio.len(), 2);
    assert_eq!(conn.queue.queue.len(), 0);
    let p = conn.queue.pop().unwrap();
    assert_eq!(p.header.seg0, 1000);
    assert_eq!(p.header.seg1, 0xE400_0000);
    assert_eq!(p.header.timestamp, 50);
    assert_eq!(p.body, vec![1, 2, 3]);
    let p = conn.queue.pop().unwrap();
    assert_eq!(p.header.seg0, 1001);
    assert_eq!(p.body, vec![4, 5]);
}

#[test]
fn nak_for_unknown_packets_sends_drop_requests() {
    let mut conn = requesting();
    let nak = Nak::builder().lost_packet_sequence_number(5).build();
    let r = conn.handle_nak(nak, NOW);
    assert!(matches!(r, Ok(Action::Nothing)));
    assert_eq!(conn.queue.prio.len(), 0);
    let p = conn.queue.pop().unwrap();
    assert_eq!(p.header.seg0, 0x8007_0000);
    assert_eq!(p.header.seg1, 0);
    assert_eq!(p.body, vec![0, 0, 0, 5, 0, 0, 0, 5]);
}

#[test]
fn nak_is_ignored_without_a_requested_stream() {
    let mut conn = Connection::new(7, 9, 1000, 42, NOW);
    let nak = Nak::builder().lost_packet_sequence_number(1000).build();
    assert!(matches!(conn.handle_nak(nak, NOW), Ok(Action::Nothing)));
    assert!(conn.queue.is_empty());
}

#[test]
fn ack_sets_rtt_and_is_acknowledged() {
    let mut conn = requesting();
    let ack = Ack::builder().acknowledgement_number(12).rtt(3000).rtt_variance(400).build();
    let r = conn.handle_ack(ack, NOW);
    assert!(matches!(r, Ok(Action::Nothing)));
    assert_eq!(conn.rtt.rtt, 3000);
    assert_eq!(conn.rtt.rtt_variance, 400);
    let p = conn.queue.pop().unwrap();
    assert_eq!(p.header.seg1, 12);
}

fn publishing() -> Connection {
    let mut conn = Connection::new(7, 9, 1000, 42, NOW);
    let r = conn.handle_handshake(conclusion(42, Some("#!::m=publish,r=2,s=2")), NOW);
    assert!(matches!(r, Ok(Action::StartPublish(2))));
    conn.queue.pop().unwrap();
    conn
}

fn data(seq: u32) -> Packet {
    let mut p = DataPacket::default();
    p.set_packet_sequence_number(seq);
    p.data = vec![seq as u8];
    p.upcast()
}

#[test]
fn data_goes_to_the_sink_and_gaps_are_lost() {
    let mut conn = publishing();
    let r = conn.handle_packet(data(1000), NOW + 1);
    match r {
        Ok(Action::Deliver(p)) => assert_eq!(p.data, vec![(1000u32 as u8)]),
        _ => panic!("expected the packet to be delivered"),
    }
    assert_eq!(conn.poll_state, PollState::WriteSink);
    conn.init_read();
    assert_eq!(conn.client_sequence_number, 1001);
    assert!(conn.loss_list.is_empty());

    conn.handle_packet(data(1004), NOW + 2).unwrap();
    conn.init_read();
    assert_eq!(conn.client_sequence_number, 1005);
    assert_eq!(conn.loss_list.len(), 3);

    conn.handle_packet(data(1002), NOW + 3).unwrap();
    conn.init_read();
    assert_eq!(conn.loss_list.len(), 2);
    // A late retransmission does not move the counter back.
    assert_eq!(conn.client_sequence_number, 1005);
}

#[test]
fn tick_acknowledges_and_counts_lost_packets() {
    let mut conn = publishing();
    conn.handle_packet(data(1003), NOW + 1).unwrap();
    conn.init_read();
    assert_eq!(conn.loss_list.len(), 3);
    assert_eq!(conn.metrics.data_packets_recv.original.get(), 1);
    assert_eq!(conn.metrics.data_bytes_recv.original.get(), 17);
    conn.metrics.data_packets_recv.original.add(99);
    conn.metrics.data_bytes_recv.original.add(983);
    let r = conn.tick(NOW + 3_000_000);
    assert!(matches!(r, Ok(Action::PacketsLost(3))));
    assert!(conn.loss_list.is_empty());
    assert_eq!(conn.metrics.data_packets_recv.lost.get(), 3);
    assert_eq!(conn.metrics.data_bytes_recv.lost.get(), 4500);
    assert_eq!(conn.server_sequence_number, 1001);
    assert_eq!(conn.inflight_acks.len(), 1);
    let ack = conn.queue.pop().unwrap();
    assert_eq!(ack.header.seg0, 0x8002_0000);
    assert_eq!(ack.header.seg1, 1000);
    let body = ack.body;
    assert_eq!(&body[0..4], &[0, 0, 0x03, 0xEC]);
    assert_eq!(&body[16..20], &[0, 0, 0, 33]);
    assert_eq!(&body[24..28], &[0, 0, 1, 77]);

    let reply = AckAck::builder().acknowledgement_number(1000).build();
    let r = conn.handle_ackack(reply, NOW + 3_000_250);
    assert!(matches!(r, Ok(Action::RttSample(250))));
    assert!(conn.inflight_acks.is_empty());
}

#[test]
fn silent_peer_is_closed() {
    let mut conn = publishing();
    let r = conn.tick(NOW + 15_000_000);
    assert!(matches!(r, Ok(Action::CloseSink)));
    assert_eq!(conn.poll_state, PollState::Close);
    let p = conn.queue.pop().unwrap();
    assert_eq!(p.header.seg0, 0x8005_0000);

    let mut conn = requesting();
    let r = conn.handle_shutdown(Shutdown::builder().build(), NOW);
    assert!(matches!(r, Ok(Action::Nothing)));
    assert_eq!(conn.poll_state, PollState::Closed);
}

#[test]
fn induction_is_answered_with_the_cookie() {
    let mut hs = HandshakePacket::default();
    hs.version = 4;
    hs.extension_field.0 = 2;
    hs.srt_socket_id = 99;
    hs.initial_packet_sequence_number = 555;
    let (resp, conn) = handshake_induction(&hs, 1234, 1500, 8192, NOW).unwrap();
    assert_eq!(resp.version, 5);
    assert_eq!(resp.extension_field.0, 0x4A17);
    assert_eq!(resp.syn_cookie, 1234);
    assert_eq!(resp.srt_socket_id, 99);
    assert_eq!(resp.header.seg0, 0x8000_0000);
    assert_eq!(resp.header.destination_socket_id, 99);
    assert_eq!(resp.maximum_transmission_unit_size, 1500);
    assert_eq!(resp.maximum_flow_window_size, 8192);
    assert!(matches!(conn.mode, ConnectionMode::Induction { syn_cookie: 1234 }));
    assert_eq!(conn.server_sequence_number, 555);

    let (resp, _) = accept_induction(&hs, 1500, 8192, NOW).unwrap().unwrap();
    assert!(resp.syn_cookie <= 0x7fff_ffff);

    hs.version = 5;
    assert!(handshake_induction(&hs, 1234, 1500, 8192, NOW).is_none());
}

#[test]
fn packets_are_routed() {
    let keepalive = Keepalive::builder().build();
    let mut packet = keepalive.upcast();
    packet.header.destination_socket_id = 12;
    assert!(matches!(route(packet), Route::Connection(12, _)));

    let mut hs = HandshakePacket::default();
    hs.header.set_packet_type(PacketType::Control);
    hs.version = 4;
    assert!(matches!(route(hs.upcast()), Route::Induction(_)));

    let hs = conclusion(42, None);
    assert!(matches!(route(hs.upcast()), Route::Conclusion(_)));

    let packet = Keepalive::builder().build().upcast();
    assert!(matches!(route(packet), Route::Drop));
}

#[test]
fn outgoing_packets_are_counted_and_written() {
    let mut conn = Connection::new(7, 9, 1000, 42, NOW);
    assert!(conn.next_outgoing().is_none());
    assert_eq!(conn.poll_state, PollState::Read);
    conn.handle_packet(Keepalive::builder().build().upcast(), NOW + 1).unwrap();
    assert_eq!(conn.metrics.ctrl_packets_recv.get(), 1);
    assert_eq!(conn.metrics.ctrl_bytes_recv.get(), 20);
    let p = conn.next_outgoing().unwrap();
    assert_eq!(p.header.seg0, 0x8001_0000);
    assert_eq!(conn.poll_state, PollState::Write);
    assert_eq!(conn.metrics.ctrl_packets_sent.get(), 1);
    assert_eq!(conn.metrics.ctrl_bytes_sent.get(), 20);
    assert_eq!(conn.metrics.data_packets_sent.original.get(), 0);
    assert!(conn.next_outgoing().is_none());
}
