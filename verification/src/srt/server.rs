//! The listener's decisions: where an incoming packet goes, and how a caller's first handshake
//! is answered. The caller owns the socket and the pool of connections.
use vstd::prelude::*;
use super::{Header, Packet, PacketType};
use super::connection::{Connection, is_new};
use super::extension::ExtensionField;
use super::handshake::{HandshakePacket, HandshakeType, HandshakeView, handshake_type_not_cut,
    spec_decode_handshake_fields, zero_header};
use super::state::random;
use super::ControlPacketType;

verus! {

/// Where an incoming packet goes.
pub enum Route {
    /// A handshake in the INDUCTION phase: a caller that wants a new connection.
    Induction(HandshakePacket),
    /// A handshake in the CONCLUSION phase with version 5 and no encryption, for the
    /// connection whose client socket id it names.
    Conclusion(HandshakePacket),
    /// A packet for the connection with this destination socket id.
    Connection(u32, Packet),
    /// A packet that nobody handles.
    Drop,
}

/// The handshake that a packet with destination socket id 0 carries, if it converts to one.
pub open spec fn handshake_of(p: Packet) -> Option<HandshakeView> {
    if p.header.spec_packet_type() == PacketType::Control && p.header.spec_control_type() == Some(
        ControlPacketType::Handshake,
    ) {
        match spec_decode_handshake_fields(p.body@, 0, zero_header()) {
            Ok(v) => Some(HandshakeView { header: p.header, ..v }),
            Err(_) => None,
        }
    } else {
        None
    }
}

/// Decides where an incoming packet goes. A destination socket id of 0 marks a handshake
/// request: an INDUCTION handshake asks for a new connection, a CONCLUSION handshake with
/// version 5 and no encryption goes to the connection of its client socket id; anything else
/// with destination 0 is dropped. Other packets go to the connection of their destination
/// socket id.
pub fn route(packet: Packet) -> (r: Route)
    requires
        packet.header.destination_socket_id == 0 && packet.header.spec_packet_type() == PacketType::Control
            && packet.header.spec_control_type() == Some(ControlPacketType::Handshake)
            ==> handshake_type_not_cut(packet.body@, 0),
    ensures
        packet.header.destination_socket_id != 0 ==> (r matches Route::Connection(id, p) && id
            == packet.header.destination_socket_id && p.header == packet.header && p.body@
            == packet.body@),
        packet.header.destination_socket_id == 0 ==> match handshake_of(packet) {
            Some(v) => if v.handshake_type == HandshakeType::Induction {
                r matches Route::Induction(h) && h@ == v
            } else if v.handshake_type == HandshakeType::Conclusion && v.version == 5
                && v.encryption_field == 0 {
                r matches Route::Conclusion(h) && h@ == v
            } else {
                r is Drop
            },
            None => r is Drop,
        },
{
    if packet.header.destination_socket_id != 0 {
        let id = packet.header.destination_socket_id;
        return Route::Connection(id, packet);
    }
    match HandshakePacket::downcast(packet) {
        Ok(h) => {
            match h.handshake_type {
                HandshakeType::Induction => Route::Induction(h),
                HandshakeType::Conclusion => {
                    if h.version != 5 || h.encryption_field != 0 {
                        Route::Drop
                    } else {
                        Route::Conclusion(h)
                    }
                },
                _ => Route::Drop,
            }
        },
        Err(_) => Route::Drop,
    }
}

/// A caller's INDUCTION handshake is accepted with version 4, no encryption, the INDUCTION
/// extension field and no cookie.
pub open spec fn induction_accepted(p: HandshakeView) -> bool {
    p.version == 4 && p.encryption_field == 0 && p.extension_field == 2 && p.syn_cookie == 0
}

/// The answer to an accepted INDUCTION handshake: version 5, the SRT magic, the cookie, the
/// caller's socket id and initial sequence number, and the server's MTU and flow window.
pub open spec fn induction_response(p: HandshakeView, syn_cookie: u32, mtu: u32, flow_window: u32) -> HandshakeView {
    HandshakeView {
        header: Header { seg0: 0x8000_0000, seg1: 0, timestamp: 0, destination_socket_id: p.srt_socket_id },
        version: 5,
        encryption_field: 0,
        extension_field: 0x4A17,
        initial_packet_sequence_number: p.initial_packet_sequence_number,
        maximum_transmission_unit_size: mtu,
        maximum_flow_window_size: flow_window,
        handshake_type: HandshakeType::Induction,
        srt_socket_id: p.srt_socket_id,
        syn_cookie,
        peer_ip_address: 0,
        extensions: Seq::empty(),
    }
}

/// Answers a caller's INDUCTION handshake at `now` with `syn_cookie`: an accepted one gives the
/// response and a new connection in the INDUCTION phase that expects the cookie back; the
/// socket id of both sides is the caller's.
pub fn handshake_induction(packet: &HandshakePacket, syn_cookie: u32, mtu: u32, flow_window: u32, now: u64) -> (r: Option<(HandshakePacket, Connection)>)
    requires
        packet.handshake_type == HandshakeType::Induction,
    ensures
        r is Some <==> induction_accepted(packet@),
        r matches Some((resp, conn)) ==> resp@ == induction_response(packet@, syn_cookie, mtu, flow_window)
            && conn.wf() && is_new(conn, packet.srt_socket_id, packet.srt_socket_id,
            packet.initial_packet_sequence_number, syn_cookie, now),
{
    if packet.version != 4 || packet.encryption_field != 0
        || packet.extension_field.0 != ExtensionField::INDUCTION || packet.syn_cookie != 0 {
        return None;
    }
    let client_socket_id = packet.srt_socket_id;
    let server_socket_id = packet.srt_socket_id;
    let client_seqnum = packet.initial_packet_sequence_number;
    let server_seqnum = client_seqnum;

    let mut resp = HandshakePacket::default();
    resp.header.set_packet_type(PacketType::Control);
    resp.header.timestamp = 0;
    resp.header.destination_socket_id = client_socket_id;
    resp.handshake_type = HandshakeType::Induction;
    resp.version = 5;
    resp.extension_field = ExtensionField(ExtensionField::SRT_MAGIC);
    resp.syn_cookie = syn_cookie;
    resp.srt_socket_id = server_socket_id;
    resp.initial_packet_sequence_number = server_seqnum;
    resp.maximum_transmission_unit_size = mtu;
    resp.maximum_flow_window_size = flow_window;
    proof {
        assert(0u32 & 0x7fff_ffffu32 == 0u32) by (bit_vector);
        let w = resp.header.seg0;
        assert(w == 0x8000_0000u32) by (bit_vector)
            requires
                w >> 31u32 == 1u32,
                w & 0x7fff_ffffu32 == 0u32;
    }
    let conn = Connection::new(server_socket_id, client_socket_id, client_seqnum, syn_cookie, now);
    Some((resp, conn))
}

/// Answers a caller's INDUCTION handshake at `now` with a fresh random cookie; see
/// [`handshake_induction`]. A refused handshake gives `Ok(None)` without drawing a cookie; an
/// accepted one gives the response and connection, or `Err(())` when the operating system
/// fails to deliver random bytes for the cookie.
pub fn accept_induction(packet: &HandshakePacket, mtu: u32, flow_window: u32, now: u64) -> (r: Result<Option<(HandshakePacket, Connection)>, ()>)
    requires
        packet.handshake_type == HandshakeType::Induction,
    ensures
        !induction_accepted(packet@) ==> r == Ok::<Option<(HandshakePacket, Connection)>, ()>(None),
        induction_accepted(packet@) ==> r is Err || (r matches Ok(Some((resp, conn))) && resp.syn_cookie
            <= 0x7fff_ffff && resp@ == induction_response(packet@, resp.syn_cookie, mtu, flow_window)
            && conn.wf() && is_new(conn, packet.srt_socket_id, packet.srt_socket_id,
            packet.initial_packet_sequence_number, resp.syn_cookie, now)),
{
    if packet.version != 4 || packet.encryption_field != 0
        || packet.extension_field.0 != ExtensionField::INDUCTION || packet.syn_cookie != 0 {
        return Ok(None);
    }
    match random() {
        Some(syn_cookie) => Ok(handshake_induction(packet, syn_cookie, mtu, flow_window, now)),
        None => Err(()),
    }
}

/// The INDUCTION exchange: the caller's INDUCTION is accepted when it has version 4, no
/// encryption, the INDUCTION extension field and no cookie; the answer is a handshake control
/// packet to the caller's socket id with version 5, the SRT magic in the extension field, the
/// INDUCTION type, the drawn cookie, the caller's socket id and initial sequence number, and
/// the server's MTU and flow window.
pub proof fn lemma_induction_exchange(p: HandshakeView, syn_cookie: u32, mtu: u32, flow_window: u32)
    ensures
        induction_accepted(p) <==> (p.version == 4 && p.encryption_field == 0 && p.extension_field
            == ExtensionField::INDUCTION && p.syn_cookie == 0),
        induction_response(p, syn_cookie, mtu, flow_window).header.spec_packet_type() == PacketType::Control,
        induction_response(p, syn_cookie, mtu, flow_window).header.spec_control_type() == Some(
            ControlPacketType::Handshake,
        ),
        induction_response(p, syn_cookie, mtu, flow_window).header.destination_socket_id == p.srt_socket_id,
        induction_response(p, syn_cookie, mtu, flow_window).version == 5,
        induction_response(p, syn_cookie, mtu, flow_window).encryption_field == 0,
        induction_response(p, syn_cookie, mtu, flow_window).extension_field == ExtensionField::SRT_MAGIC,
        induction_response(p, syn_cookie, mtu, flow_window).handshake_type == HandshakeType::Induction,
        induction_response(p, syn_cookie, mtu, flow_window).syn_cookie == syn_cookie,
        induction_response(p, syn_cookie, mtu, flow_window).srt_socket_id == p.srt_socket_id,
        induction_response(p, syn_cookie, mtu, flow_window).initial_packet_sequence_number
            == p.initial_packet_sequence_number,
        induction_response(p, syn_cookie, mtu, flow_window).maximum_transmission_unit_size == mtu,
        induction_response(p, syn_cookie, mtu, flow_window).maximum_flow_window_size == flow_window,
{
    let w = 0x8000_0000u32;
    assert(w >> 31u32 == 1 && (w >> 16u32) & 0x7fffu32 == 0) by (bit_vector)
        requires
            w == 0x8000_0000u32,
    ;
}

} // verus!
