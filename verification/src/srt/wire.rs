//! The SRT wire format, pinned down value by value and byte by byte: the numbers that name
//! packet, control, handshake and extension types, the bit fields of the header words, and
//! where each field of a header or body sits. Each law states the layout through `be_value`
//! and fixed offsets, independently of the decoders that read it back.
use vstd::prelude::*;
use crate::codec::{be16, be32, be128, be_value, u32_at, lemma_be16_value, lemma_be32_value,
    lemma_be128_value, lemma_u32_roundtrip};
use super::{AckPacket, ControlPacketType, Header, Packet, PacketPosition, PacketType, ack_packet_bytes,
    packet_bytes, packet_wire_size,
    control_bits, encryption_bits, first_bit, header_bytes, low31, message_bits, order_bit,
    position_bits, retransmit_bit};
use super::connection::data_header;
use super::extension::{ExtensionField, ExtensionType, ExtensionView, HandshakeExtensionMessage,
    content_bytes, extension_bytes, extensions_bytes, message_bytes};
use super::handshake::{HandshakeType, HandshakeView, handshake_body_bytes};
use super::proto::{Ack, SeqNumsView, ack_body, ack_from_body, drop_request_body, sequence_numbers_bytes};
use super::proto::header::spec_control_header;

verus! {

/// The control types and their numbers, as the SRT draft assigns them: handshake 0,
/// keep-alive 1, ACK 2, NAK 3, congestion warning 4, shutdown 5, ACKACK 6, drop request 7,
/// peer error 8, user-defined 0x7FFF. Reading a number gives its type, writing a type gives its
/// number, and no other number names a type.
pub proof fn lemma_control_type_numbers()
    ensures
        ControlPacketType::Handshake.spec_to_u16() == 0,
        ControlPacketType::Keepalive.spec_to_u16() == 1,
        ControlPacketType::Ack.spec_to_u16() == 2,
        ControlPacketType::Nak.spec_to_u16() == 3,
        ControlPacketType::CongestionWarning.spec_to_u16() == 4,
        ControlPacketType::Shutdown.spec_to_u16() == 5,
        ControlPacketType::AckAck.spec_to_u16() == 6,
        ControlPacketType::DropReq.spec_to_u16() == 7,
        ControlPacketType::PeerError.spec_to_u16() == 8,
        ControlPacketType::UserDefined.spec_to_u16() == 0x7fff,
        ControlPacketType::spec_from_u32(0) == Some(ControlPacketType::Handshake),
        ControlPacketType::spec_from_u32(1) == Some(ControlPacketType::Keepalive),
        ControlPacketType::spec_from_u32(2) == Some(ControlPacketType::Ack),
        ControlPacketType::spec_from_u32(3) == Some(ControlPacketType::Nak),
        ControlPacketType::spec_from_u32(4) == Some(ControlPacketType::CongestionWarning),
        ControlPacketType::spec_from_u32(5) == Some(ControlPacketType::Shutdown),
        ControlPacketType::spec_from_u32(6) == Some(ControlPacketType::AckAck),
        ControlPacketType::spec_from_u32(7) == Some(ControlPacketType::DropReq),
        ControlPacketType::spec_from_u32(8) == Some(ControlPacketType::PeerError),
        ControlPacketType::spec_from_u32(0x7fff) == Some(ControlPacketType::UserDefined),
        forall|v: u32| #[trigger] ControlPacketType::spec_from_u32(v) is Some <==> (v <= 8 || v == 0x7fff),
{
}

/// The first bit of a header: 0 for a data packet, 1 for a control packet.
pub proof fn lemma_packet_type_numbers(h: Header)
    ensures
        PacketType::Data.spec_to_u32() == 0,
        PacketType::Control.spec_to_u32() == 1,
        h.spec_packet_type() == PacketType::Data <==> h.seg0 < 0x8000_0000,
{
    lemma_first_word_bits(h.seg0);
}

/// The handshake types and their numbers: WAVEHAND 0, INDUCTION 1, CONCLUSION 0xFFFFFFFF,
/// AGREEMENT 0xFFFFFFFE, DONE 0xFFFFFFFD, and the rogue rejection 1004 (written, never read).
/// Reading a number gives its type, and no other number names a type that is read.
pub proof fn lemma_handshake_type_numbers()
    ensures
        HandshakeType::Wavehand.spec_value() == 0,
        HandshakeType::Induction.spec_value() == 1,
        HandshakeType::Conclusion.spec_value() == 0xFFFF_FFFF,
        HandshakeType::Agreement.spec_value() == 0xFFFF_FFFE,
        HandshakeType::Done.spec_value() == 0xFFFF_FFFD,
        HandshakeType::RejectRogue.spec_value() == 1004,
        HandshakeType::spec_from_value(0) == Some(HandshakeType::Wavehand),
        HandshakeType::spec_from_value(1) == Some(HandshakeType::Induction),
        HandshakeType::spec_from_value(0xFFFF_FFFF) == Some(HandshakeType::Conclusion),
        HandshakeType::spec_from_value(0xFFFF_FFFE) == Some(HandshakeType::Agreement),
        HandshakeType::spec_from_value(0xFFFF_FFFD) == Some(HandshakeType::Done),
        forall|v: u32| #[trigger] HandshakeType::spec_from_value(v) is Some <==> (v <= 1 || v >= 0xFFFF_FFFD),
{
}

/// The handshake extension types and their numbers: HSREQ 1, HSRSP 2, KMREQ 3, KMRSP 4,
/// SID 5, congestion 6, filter 7, group 8; the flags of the extension field: HSREQ 1, KMREQ 2,
/// CONFIG 4, with 2 in the INDUCTION phase and the magic 0x4A17.
pub proof fn lemma_extension_type_numbers()
    ensures
        ExtensionType::HsReq.spec_to_u16() == 1,
        ExtensionType::HsRsp.spec_to_u16() == 2,
        ExtensionType::KmReq.spec_to_u16() == 3,
        ExtensionType::KmRsp.spec_to_u16() == 4,
        ExtensionType::Sid.spec_to_u16() == 5,
        ExtensionType::Congestion.spec_to_u16() == 6,
        ExtensionType::Filter.spec_to_u16() == 7,
        ExtensionType::Group.spec_to_u16() == 8,
        ExtensionType::spec_from_u16(1) == Some(ExtensionType::HsReq),
        ExtensionType::spec_from_u16(2) == Some(ExtensionType::HsRsp),
        ExtensionType::spec_from_u16(3) == Some(ExtensionType::KmReq),
        ExtensionType::spec_from_u16(4) == Some(ExtensionType::KmRsp),
        ExtensionType::spec_from_u16(5) == Some(ExtensionType::Sid),
        ExtensionType::spec_from_u16(6) == Some(ExtensionType::Congestion),
        ExtensionType::spec_from_u16(7) == Some(ExtensionType::Filter),
        ExtensionType::spec_from_u16(8) == Some(ExtensionType::Group),
        forall|n: u16| #[trigger] ExtensionType::spec_from_u16(n) is Some <==> (1 <= n <= 8),
        ExtensionField::HSREQ == 1,
        ExtensionField::KMREQ == 2,
        ExtensionField::CONFIG == 4,
        ExtensionField::INDUCTION == 2,
        ExtensionField::SRT_MAGIC == 0x4A17,
{
}

/// The position bits of a data packet: `10` first, `00` middle, `01` last, `11` full.
pub proof fn lemma_position_numbers()
    ensures
        PacketPosition::First.spec_bits() == 2,
        PacketPosition::Middle.spec_bits() == 0,
        PacketPosition::Last.spec_bits() == 1,
        PacketPosition::Full.spec_bits() == 3,
{
}

/// The fields of the first header word: the packet type is the top bit, a control type the
/// next 15 bits, a data packet's sequence number the low 31 bits.
pub proof fn lemma_first_word_bits(w: u32)
    ensures
        first_bit(w) == w / 0x8000_0000,
        control_bits(w) == (w / 0x1_0000) % 0x8000,
        low31(w) == w % 0x8000_0000,
{
    assert(w >> 31u32 == w / 0x8000_0000u32) by (bit_vector);
    assert((w >> 16u32) & 0x7fffu32 == (w / 0x1_0000u32) % 0x8000u32) by (bit_vector);
    assert(w & 0x7fff_ffffu32 == w % 0x8000_0000u32) by (bit_vector);
}

/// The fields of the second word of a data packet, from the top: two position bits, the
/// order bit, two encryption bits, the retransmission bit, and a 26-bit message number; the
/// word is made of exactly these.
pub proof fn lemma_data_word_bits(w: u32)
    ensures
        position_bits(w) == w / 0x4000_0000,
        order_bit(w) == (w / 0x2000_0000) % 2,
        encryption_bits(w) == (w / 0x800_0000) % 4,
        retransmit_bit(w) == (w / 0x400_0000) % 2,
        message_bits(w) == w % 0x400_0000,
        w == position_bits(w) * 0x4000_0000 + order_bit(w) * 0x2000_0000 + encryption_bits(w)
            * 0x800_0000 + retransmit_bit(w) * 0x400_0000 + message_bits(w),
{
    assert(w >> 30u32 == w / 0x4000_0000u32) by (bit_vector);
    assert((w >> 29u32) & 1u32 == (w / 0x2000_0000u32) % 2u32) by (bit_vector);
    assert((w >> 27u32) & 3u32 == (w / 0x800_0000u32) % 4u32) by (bit_vector);
    assert((w >> 26u32) & 1u32 == (w / 0x400_0000u32) % 2u32) by (bit_vector);
    assert(w & 0x3ff_ffffu32 == w % 0x400_0000u32) by (bit_vector);
    assert(w as int == (w >> 30u32) as int * 0x4000_0000 + ((w >> 29u32) & 1u32) as int * 0x2000_0000
        + ((w >> 27u32) & 3u32) as int * 0x800_0000 + ((w >> 26u32) & 1u32) as int * 0x400_0000 + (w
        & 0x3ff_ffffu32) as int) by (bit_vector);
}

/// A control header of type `t` has the top bit set, the type's number in the next 15 bits
/// and every other bit zero; e.g. a NAK header starts with the word 0x8003_0000.
pub proof fn lemma_control_header_word(t: ControlPacketType)
    ensures
        spec_control_header(t).seg0 == 0x8000_0000 + t.spec_to_u16() * 0x1_0000,
        spec_control_header(t).seg1 == 0,
        spec_control_header(t).timestamp == 0,
        spec_control_header(t).destination_socket_id == 0,
{
    let v = t.spec_to_u16() as u32;
    ControlPacketType::lemma_u16_roundtrip(t);
    assert(v <= 0x7fff ==> (0x8000_0000u32 | (v << 16u32)) as int == 0x8000_0000 + v as int * 0x1_0000)
        by (bit_vector);
}

/// A data packet that a requested stream sends: a data packet (top bit clear) with the
/// sequence number in the low 31 bits of the first word, and in the second word the position
/// FULL, in order, unencrypted, the retransmission bit as given, and the message number.
pub proof fn lemma_data_header_fields(seq: u32, msg: u32, retransmitted: bool)
    ensures
        first_bit(data_header(seq, msg, retransmitted).seg0) == 0,
        low31(data_header(seq, msg, retransmitted).seg0) == seq % 0x8000_0000,
        position_bits(data_header(seq, msg, retransmitted).seg1) == PacketPosition::Full.spec_bits(),
        order_bit(data_header(seq, msg, retransmitted).seg1) == 1,
        encryption_bits(data_header(seq, msg, retransmitted).seg1) == 0,
        retransmit_bit(data_header(seq, msg, retransmitted).seg1) == (if retransmitted { 1u32 } else { 0u32 }),
        message_bits(data_header(seq, msg, retransmitted).seg1) == msg % 0x400_0000,
{
    let w0 = data_header(seq, msg, retransmitted).seg0;
    let w1 = data_header(seq, msg, retransmitted).seg1;
    assert(w0 == seq & 0x7fff_ffffu32);
    assert((seq & 0x7fff_ffffu32) >> 31u32 == 0 && (seq & 0x7fff_ffffu32) & 0x7fff_ffffu32 == seq
        % 0x8000_0000u32) by (bit_vector);
    if retransmitted {
        assert(w1 == 0xE400_0000u32 | (msg & 0x3ff_ffffu32));
        let v = 0xE400_0000u32 | (msg & 0x3ff_ffffu32);
        assert(v >> 30u32 == 3 && (v >> 29u32) & 1u32 == 1 && (v >> 27u32) & 3u32 == 0 && (v
            >> 26u32) & 1u32 == 1 && v & 0x3ff_ffffu32 == msg % 0x400_0000u32) by (bit_vector)
            requires
                v == 0xE400_0000u32 | (msg & 0x3ff_ffffu32),
        ;
    } else {
        assert(w1 == 0xE000_0000u32 | (msg & 0x3ff_ffffu32));
        let v = 0xE000_0000u32 | (msg & 0x3ff_ffffu32);
        assert(v >> 30u32 == 3 && (v >> 29u32) & 1u32 == 1 && (v >> 27u32) & 3u32 == 0 && (v
            >> 26u32) & 1u32 == 0 && v & 0x3ff_ffffu32 == msg % 0x400_0000u32) by (bit_vector)
            requires
                v == 0xE000_0000u32 | (msg & 0x3ff_ffffu32),
        ;
    }
}

/// Four bytes of `s` that are the big-endian bytes of `x` spell `x`.
proof fn lemma_word(s: Seq<u8>, i: int, x: u32)
    requires
        0 <= i,
        i + 4 <= s.len(),
        s.subrange(i, i + 4) == be32(x),
    ensures
        be_value(s.subrange(i, i + 4)) == x,
{
    lemma_be32_value(x);
}

/// Two bytes of `s` that are the big-endian bytes of `x` spell `x`.
proof fn lemma_half(s: Seq<u8>, i: int, x: u16)
    requires
        0 <= i,
        i + 2 <= s.len(),
        s.subrange(i, i + 2) == be16(x),
    ensures
        be_value(s.subrange(i, i + 2)) == x,
{
    lemma_be16_value(x);
}

/// A header is four big-endian words: the first word, the second word, the timestamp at
/// bytes 8 to 12 and the destination socket id at bytes 12 to 16.
pub proof fn lemma_header_layout(h: Header)
    ensures
        header_bytes(h).len() == 16,
        be_value(header_bytes(h).subrange(0, 4)) == h.seg0,
        be_value(header_bytes(h).subrange(4, 8)) == h.seg1,
        be_value(header_bytes(h).subrange(8, 12)) == h.timestamp,
        be_value(header_bytes(h).subrange(12, 16)) == h.destination_socket_id,
{
    let s = header_bytes(h);
    assert(s.subrange(0, 4) =~= be32(h.seg0));
    assert(s.subrange(4, 8) =~= be32(h.seg1));
    assert(s.subrange(8, 12) =~= be32(h.timestamp));
    assert(s.subrange(12, 16) =~= be32(h.destination_socket_id));
    lemma_word(s, 0, h.seg0);
    lemma_word(s, 4, h.seg1);
    lemma_word(s, 8, h.timestamp);
    lemma_word(s, 12, h.destination_socket_id);
}

/// The body of a full ACK is seven big-endian words, in this order: the last acknowledged
/// sequence number, the RTT, the RTT variance, the available buffer size, the packet
/// receiving rate, the estimated link capacity and the receiving rate; reading a word at its
/// offset gives the field back, so reading the body as `Ack::downcast` does gives the
/// acknowledgement back.
pub proof fn lemma_ack_body_layout(a: Ack)
    ensures
        ack_body(a).len() == 28,
        be_value(ack_body(a).subrange(0, 4)) == a.last_acknowledged_packet_sequence_number,
        be_value(ack_body(a).subrange(4, 8)) == a.rtt,
        be_value(ack_body(a).subrange(8, 12)) == a.rtt_variance,
        be_value(ack_body(a).subrange(12, 16)) == a.avaliable_buffer_size,
        be_value(ack_body(a).subrange(16, 20)) == a.packets_receiving_rate,
        be_value(ack_body(a).subrange(20, 24)) == a.estimated_link_capacity,
        be_value(ack_body(a).subrange(24, 28)) == a.receiving_rate,
        u32_at(ack_body(a), 0) == a.last_acknowledged_packet_sequence_number,
        u32_at(ack_body(a), 4) == a.rtt,
        u32_at(ack_body(a), 8) == a.rtt_variance,
        u32_at(ack_body(a), 12) == a.avaliable_buffer_size,
        u32_at(ack_body(a), 16) == a.packets_receiving_rate,
        u32_at(ack_body(a), 20) == a.estimated_link_capacity,
        u32_at(ack_body(a), 24) == a.receiving_rate,
        ack_from_body(a.header, ack_body(a)) == a,
{
    let s = ack_body(a);
    assert(s.subrange(0, 4) =~= be32(a.last_acknowledged_packet_sequence_number));
    assert(s.subrange(4, 8) =~= be32(a.rtt));
    assert(s.subrange(8, 12) =~= be32(a.rtt_variance));
    assert(s.subrange(12, 16) =~= be32(a.avaliable_buffer_size));
    assert(s.subrange(16, 20) =~= be32(a.packets_receiving_rate));
    assert(s.subrange(20, 24) =~= be32(a.estimated_link_capacity));
    assert(s.subrange(24, 28) =~= be32(a.receiving_rate));
    lemma_word(s, 0, a.last_acknowledged_packet_sequence_number);
    lemma_word(s, 4, a.rtt);
    lemma_word(s, 8, a.rtt_variance);
    lemma_word(s, 12, a.avaliable_buffer_size);
    lemma_word(s, 16, a.packets_receiving_rate);
    lemma_word(s, 20, a.estimated_link_capacity);
    lemma_word(s, 24, a.receiving_rate);
    lemma_u32_roundtrip(a.last_acknowledged_packet_sequence_number, s, 0);
    lemma_u32_roundtrip(a.rtt, s, 4);
    lemma_u32_roundtrip(a.rtt_variance, s, 8);
    lemma_u32_roundtrip(a.avaliable_buffer_size, s, 12);
    lemma_u32_roundtrip(a.packets_receiving_rate, s, 16);
    lemma_u32_roundtrip(a.estimated_link_capacity, s, 20);
    lemma_u32_roundtrip(a.receiving_rate, s, 24);
}

/// An acknowledgement packet is its header, then the seven words of a full ACK in the same
/// order.
pub proof fn lemma_ack_packet_layout(p: AckPacket)
    ensures
        ack_packet_bytes(p).len() == 44,
        ack_packet_bytes(p).subrange(0, 16) == header_bytes(p.header),
        be_value(ack_packet_bytes(p).subrange(16, 20)) == p.last_acknowledged_packet_sequence_number,
        be_value(ack_packet_bytes(p).subrange(20, 24)) == p.rtt,
        be_value(ack_packet_bytes(p).subrange(24, 28)) == p.rtt_variance,
        be_value(ack_packet_bytes(p).subrange(28, 32)) == p.avaliable_buffer_size,
        be_value(ack_packet_bytes(p).subrange(32, 36)) == p.packets_receiving_rate,
        be_value(ack_packet_bytes(p).subrange(36, 40)) == p.estimated_link_capacity,
        be_value(ack_packet_bytes(p).subrange(40, 44)) == p.receiving_rate,
{
    let s = ack_packet_bytes(p);
    lemma_header_layout(p.header);
    assert(s.subrange(0, 16) =~= header_bytes(p.header));
    assert(s.subrange(16, 20) =~= be32(p.last_acknowledged_packet_sequence_number));
    assert(s.subrange(20, 24) =~= be32(p.rtt));
    assert(s.subrange(24, 28) =~= be32(p.rtt_variance));
    assert(s.subrange(28, 32) =~= be32(p.avaliable_buffer_size));
    assert(s.subrange(32, 36) =~= be32(p.packets_receiving_rate));
    assert(s.subrange(36, 40) =~= be32(p.estimated_link_capacity));
    assert(s.subrange(40, 44) =~= be32(p.receiving_rate));
    lemma_word(s, 16, p.last_acknowledged_packet_sequence_number);
    lemma_word(s, 20, p.rtt);
    lemma_word(s, 24, p.rtt_variance);
    lemma_word(s, 28, p.avaliable_buffer_size);
    lemma_word(s, 32, p.packets_receiving_rate);
    lemma_word(s, 36, p.estimated_link_capacity);
    lemma_word(s, 40, p.receiving_rate);
}

/// The body of a drop request: the first sequence number to drop, then the last.
pub proof fn lemma_drop_request_layout(first: u32, last: u32)
    ensures
        drop_request_body(first, last).len() == 8,
        be_value(drop_request_body(first, last).subrange(0, 4)) == first,
        be_value(drop_request_body(first, last).subrange(4, 8)) == last,
{
    let s = drop_request_body(first, last);
    assert(s.subrange(0, 4) =~= be32(first));
    assert(s.subrange(4, 8) =~= be32(last));
    lemma_word(s, 0, first);
    lemma_word(s, 4, last);
}

/// Lost sequence numbers on the wire: a single number is one word with the top bit clear; a
/// range is its first number with the top bit set, then its last number.
pub proof fn lemma_sequence_numbers_layout(v: SeqNumsView)
    requires
        v matches SeqNumsView::Single(n) ==> n < 0x8000_0000,
        v matches SeqNumsView::Range(a, b) ==> a < 0x8000_0000 && b < 0x8000_0000,
    ensures
        v matches SeqNumsView::Single(n) ==> sequence_numbers_bytes(v).len() == 4 && be_value(
            sequence_numbers_bytes(v),
        ) == n,
        v matches SeqNumsView::Range(a, b) ==> sequence_numbers_bytes(v).len() == 8 && be_value(
            sequence_numbers_bytes(v).subrange(0, 4),
        ) == a + 0x8000_0000 && be_value(sequence_numbers_bytes(v).subrange(4, 8)) == b,
{
    match v {
        SeqNumsView::Single(n) => {
            assert(n < 0x8000_0000u32 ==> n & 0x7fff_ffffu32 == n) by (bit_vector);
            lemma_be32_value(n);
        },
        SeqNumsView::Range(a, b) => {
            assert(a < 0x8000_0000u32 ==> (a | 0x8000_0000u32) as int == a as int + 0x8000_0000) by (bit_vector);
            assert(b < 0x8000_0000u32 ==> b & 0x7fff_ffffu32 == b) by (bit_vector);
            let s = sequence_numbers_bytes(v);
            assert(s.subrange(0, 4) =~= be32(a | 0x8000_0000u32));
            assert(s.subrange(4, 8) =~= be32(b));
            lemma_word(s, 0, a | 0x8000_0000u32);
            lemma_word(s, 4, b);
        },
    }
}

/// The twelve bytes of an HSREQ or HSRSP message: the SRT version, the SRT flags, the
/// receiver's TSBPD delay and then the sender's.
pub proof fn lemma_message_layout(m: HandshakeExtensionMessage)
    ensures
        message_bytes(m).len() == 12,
        be_value(message_bytes(m).subrange(0, 4)) == m.srt_version,
        be_value(message_bytes(m).subrange(4, 8)) == m.srt_flags,
        be_value(message_bytes(m).subrange(8, 10)) == m.receiver_tsbpd_delay,
        be_value(message_bytes(m).subrange(10, 12)) == m.sender_tsbpd_delay,
{
    let s = message_bytes(m);
    assert(s.subrange(0, 4) =~= be32(m.srt_version));
    assert(s.subrange(4, 8) =~= be32(m.srt_flags));
    assert(s.subrange(8, 10) =~= be16(m.receiver_tsbpd_delay));
    assert(s.subrange(10, 12) =~= be16(m.sender_tsbpd_delay));
    lemma_word(s, 0, m.srt_version);
    lemma_word(s, 4, m.srt_flags);
    lemma_half(s, 8, m.receiver_tsbpd_delay);
    lemma_half(s, 10, m.sender_tsbpd_delay);
}

/// A handshake extension: the type's number in two bytes, the length in two bytes, then the
/// content.
pub proof fn lemma_extension_layout(e: ExtensionView)
    ensures
        extension_bytes(e).len() >= 4,
        be_value(extension_bytes(e).subrange(0, 2)) == e.extension_type.spec_to_u16(),
        be_value(extension_bytes(e).subrange(2, 4)) == e.extension_length,
        extension_bytes(e).skip(4) == content_bytes(e.content),
{
    let s = extension_bytes(e);
    assert(s.subrange(0, 2) =~= be16(e.extension_type.spec_to_u16()));
    assert(s.subrange(2, 4) =~= be16(e.extension_length));
    assert(s.skip(4) =~= content_bytes(e.content));
    lemma_half(s, 0, e.extension_type.spec_to_u16());
    lemma_half(s, 2, e.extension_length);
}

/// The body of a handshake: the version, the encryption field, the extension field, the
/// initial sequence number, the MTU, the flow window, the handshake type's number, the SRT
/// socket id, the SYN cookie, the sixteen bytes of the peer address, then the extensions.
#[verifier::rlimit(50)]
pub proof fn lemma_handshake_body_layout(p: HandshakeView)
    ensures
        handshake_body_bytes(p).len() >= 48,
        be_value(handshake_body_bytes(p).subrange(0, 4)) == p.version,
        be_value(handshake_body_bytes(p).subrange(4, 6)) == p.encryption_field,
        be_value(handshake_body_bytes(p).subrange(6, 8)) == p.extension_field,
        be_value(handshake_body_bytes(p).subrange(8, 12)) == p.initial_packet_sequence_number,
        be_value(handshake_body_bytes(p).subrange(12, 16)) == p.maximum_transmission_unit_size,
        be_value(handshake_body_bytes(p).subrange(16, 20)) == p.maximum_flow_window_size,
        be_value(handshake_body_bytes(p).subrange(20, 24)) == p.handshake_type.spec_value(),
        be_value(handshake_body_bytes(p).subrange(24, 28)) == p.srt_socket_id,
        be_value(handshake_body_bytes(p).subrange(28, 32)) == p.syn_cookie,
        be_value(handshake_body_bytes(p).subrange(32, 48)) == p.peer_ip_address,
        handshake_body_bytes(p).skip(48) == extensions_bytes(p.extensions),
{
    let s = handshake_body_bytes(p);
    assert(s.subrange(0, 4) =~= be32(p.version));
    assert(s.subrange(4, 6) =~= be16(p.encryption_field));
    assert(s.subrange(6, 8) =~= be16(p.extension_field));
    assert(s.subrange(8, 12) =~= be32(p.initial_packet_sequence_number));
    assert(s.subrange(12, 16) =~= be32(p.maximum_transmission_unit_size));
    assert(s.subrange(16, 20) =~= be32(p.maximum_flow_window_size));
    assert(s.subrange(20, 24) =~= be32(p.handshake_type.spec_value()));
    assert(s.subrange(24, 28) =~= be32(p.srt_socket_id));
    assert(s.subrange(28, 32) =~= be32(p.syn_cookie));
    assert(s.subrange(32, 48) =~= be128(p.peer_ip_address));
    assert(s.skip(48) =~= extensions_bytes(p.extensions));
    lemma_word(s, 0, p.version);
    lemma_half(s, 4, p.encryption_field);
    lemma_half(s, 6, p.extension_field);
    lemma_word(s, 8, p.initial_packet_sequence_number);
    lemma_word(s, 12, p.maximum_transmission_unit_size);
    lemma_word(s, 16, p.maximum_flow_window_size);
    lemma_word(s, 20, p.handshake_type.spec_value());
    lemma_word(s, 24, p.srt_socket_id);
    lemma_word(s, 28, p.syn_cookie);
    lemma_be128_value(p.peer_ip_address);
}

/// A packet on the wire is its sixteen header bytes followed by its body, and the size counted
/// for it is the number of those bytes.
pub proof fn lemma_packet_layout(p: Packet)
    ensures
        packet_bytes(p.header, p.body@).subrange(0, 16) == header_bytes(p.header),
        packet_bytes(p.header, p.body@).skip(16) == p.body@,
        packet_bytes(p.header, p.body@).len() <= u64::MAX ==> packet_wire_size(p)
            == packet_bytes(p.header, p.body@).len(),
{
    lemma_header_layout(p.header);
    let s = packet_bytes(p.header, p.body@);
    assert(s.subrange(0, 16) =~= header_bytes(p.header));
    assert(s.skip(16) =~= p.body@);
}

} // verus!
