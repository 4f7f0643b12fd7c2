//! Secure Reliable Transport (SRT) packets and their wire format.
//!
//! A packet starts with a 16-byte header of four big-endian 32-bit words. The first bit of the
//! first word tells data packets (0) from control packets (1).
use vstd::prelude::*;
use vstd::std_specs::convert::TryFromSpecImpl;
use crate::codec::{be32, u32_at, put_u32, get_u32, lemma_u32_roundtrip};

pub mod buffer;
pub mod conn;
pub mod connection;
pub mod stream;
pub mod extension;
pub mod proto;
pub mod streamid;
pub mod handshake;
pub mod utils;
pub mod state;
pub mod server;
pub mod metrics;
pub mod cipher;
pub mod config;
pub mod queue;
pub mod ack;
pub mod nak;
pub mod data;
pub mod sink;
pub mod wire;

use extension::ExtensionType;

verus! {

/// Errors of decoding and interpreting SRT packets.
#[derive(Copy, Clone, Debug, PartialEq, Eq, Structural)]
pub enum Error {
    /// The input ended before the packet did.
    UnexpectedEof,
    InvalidPacketType(u8),
    InvalidHandshakeType(u32),
    InvalidControlType(u16),
    InvalidExtensionType(u16),
    /// The stream id extension does not hold valid UTF-8.
    FromUtf8Error,
    UnsupportedExtension(ExtensionType),
}

/// A control type that is not known.
#[derive(Copy, Clone, Debug, PartialEq, Eq, Structural)]
pub struct InvalidControlType(pub u16);

/// The SRT header that directly follows the UDP header.
#[derive(Copy, Clone, Debug, PartialEq, Eq, Structural)]
pub struct Header {
    /// First bit indicates packet type: 0 = Data, 1 = Control.
    /// The rest is packet type dependent.
    pub seg0: u32,
    /// Packet type dependant.
    pub seg1: u32,
    pub timestamp: u32,
    pub destination_socket_id: u32,
}

/// The first bit of a header word.
pub open spec fn first_bit(word: u32) -> u32 {
    word >> 31u32
}

/// Bits 1 to 15 of a header word: the control type of a control packet.
pub open spec fn control_bits(word: u32) -> u32 {
    (word >> 16u32) & 0x7fffu32
}

/// Bits 1 to 31 of a header word: the sequence number of a data packet.
pub open spec fn low31(word: u32) -> u32 {
    word & 0x7fff_ffffu32
}

/// Bits 0 and 1 of the second word of a data packet: its position in the message.
pub open spec fn position_bits(word: u32) -> u32 {
    word >> 30u32
}

/// Bit 2 of the second word of a data packet: whether it is delivered in order.
pub open spec fn order_bit(word: u32) -> u32 {
    (word >> 29u32) & 1u32
}

/// Bits 3 and 4 of the second word of a data packet: the key it is encrypted with.
pub open spec fn encryption_bits(word: u32) -> u32 {
    (word >> 27u32) & 3u32
}

/// Bit 5 of the second word of a data packet: whether it is retransmitted.
pub open spec fn retransmit_bit(word: u32) -> u32 {
    (word >> 26u32) & 1u32
}

/// Bits 6 to 31 of the second word of a data packet: its message number.
pub open spec fn message_bits(word: u32) -> u32 {
    word & 0x3ff_ffffu32
}

/// The spec of the bytes of a header.
pub open spec fn header_bytes(h: Header) -> Seq<u8> {
    be32(h.seg0) + be32(h.seg1) + be32(h.timestamp) + be32(h.destination_socket_id)
}

/// The header encoded in the first 16 bytes of `s`, if there are 16 bytes.
pub open spec fn header_at(s: Seq<u8>, pos: int) -> Header {
    Header {
        seg0: u32_at(s, pos),
        seg1: u32_at(s, pos + 4),
        timestamp: u32_at(s, pos + 8),
        destination_socket_id: u32_at(s, pos + 12),
    }
}

impl Header {
    /// The size of a header in bytes: four 32-bit words.
    pub const SIZE: usize = 16;

    /// The all-zero header: a data packet header with all fields 0.
    pub fn default() -> (h: Self)
        ensures
            h == (Header { seg0: 0, seg1: 0, timestamp: 0, destination_socket_id: 0 }),
    {
        Header { seg0: 0, seg1: 0, timestamp: 0, destination_socket_id: 0 }
    }

    pub open spec fn spec_packet_type(self) -> PacketType {
        if first_bit(self.seg0) == 0 {
            PacketType::Data
        } else {
            PacketType::Control
        }
    }

    /// Returns the packet type, given by the first bit.
    pub fn packet_type(&self) -> (t: PacketType)
        ensures
            t == self.spec_packet_type(),
    {
        if self.seg0 >> 31u32 == 0 {
            PacketType::Data
        } else {
            PacketType::Control
        }
    }

    /// Sets the first bit to the packet type, leaving the other bits as they are.
    pub fn set_packet_type(&mut self, type_: PacketType)
        ensures
            first_bit(final(self).seg0) == type_.spec_to_u32(),
            low31(final(self).seg0) == low31(old(self).seg0),
            final(self).seg1 == old(self).seg1,
            final(self).timestamp == old(self).timestamp,
            final(self).destination_socket_id == old(self).destination_socket_id,
    {
        let v = type_.to_u32();
        let w = self.seg0;
        let n = (w & 0x7fff_ffffu32) | (v << 31u32);
        assert(v <= 1 ==> (((w & 0x7fff_ffffu32) | (v << 31u32)) >> 31u32 == v
            && ((w & 0x7fff_ffffu32) | (v << 31u32)) & 0x7fff_ffffu32 == w & 0x7fff_ffffu32))
            by (bit_vector);
        self.seg0 = n;
    }

    /// Returns a view of the header as a control header; fails for data packets.
    pub fn as_control(&self) -> (r: Result<ControlHeader, Error>)
        ensures
            self.spec_packet_type() == PacketType::Control ==> r == Ok::<ControlHeader, Error>(
                ControlHeader { header: *self },
            ),
            self.spec_packet_type() == PacketType::Data ==> r == Err::<ControlHeader, Error>(
                Error::InvalidPacketType(0),
            ),
    {
        match self.packet_type() {
            PacketType::Control => Ok(ControlHeader { header: *self }),
            PacketType::Data => Err(Error::InvalidPacketType(0)),
        }
    }

    /// The control type of a control packet header, if it is a known one.
    pub open spec fn spec_control_type(self) -> Option<ControlPacketType> {
        ControlPacketType::spec_from_u32(control_bits(self.seg0))
    }

    /// Sets bits 1 to 15 to the control type, leaving the other bits as they are.
    pub fn set_control_type(&mut self, type_: ControlPacketType)
        ensures
            final(self).spec_control_type() == Some(type_),
            first_bit(final(self).seg0) == first_bit(old(self).seg0),
            final(self).seg0 & 0xffffu32 == old(self).seg0 & 0xffffu32,
            final(self).seg1 == old(self).seg1,
            final(self).timestamp == old(self).timestamp,
            final(self).destination_socket_id == old(self).destination_socket_id,
    {
        let v = type_.to_u16() as u32;
        let w = self.seg0;
        assert(v <= 0x7fff ==> (((w & 0x8000_ffffu32) | (v << 16u32)) >> 16u32) & 0x7fffu32 == v
            && ((w & 0x8000_ffffu32) | (v << 16u32)) >> 31u32 == w >> 31u32
            && ((w & 0x8000_ffffu32) | (v << 16u32)) & 0xffffu32 == w & 0xffffu32)
            by (bit_vector);
        self.seg0 = (w & 0x8000_ffffu32) | (v << 16u32);
        proof { ControlPacketType::lemma_u16_roundtrip(type_); }
    }

    /// Appends the 16 bytes of the header to `buf`.
    pub fn encode(&self, buf: &mut Vec<u8>)
        ensures
            final(buf)@ == old(buf)@ + header_bytes(*self),
    {
        put_u32(buf, self.seg0);
        put_u32(buf, self.seg1);
        put_u32(buf, self.timestamp);
        put_u32(buf, self.destination_socket_id);
        proof {
            assert(final(buf)@ =~= old(buf)@ + header_bytes(*self));
        }
    }

    /// Decodes a header from the start of `buf`; fails when `buf` holds fewer than 16 bytes.
    pub fn decode(buf: &[u8]) -> (r: Result<Header, Error>)
        ensures
            buf@.len() >= 16 ==> r == Ok::<Header, Error>(header_at(buf@, 0)),
            buf@.len() < 16 ==> r == Err::<Header, Error>(Error::UnexpectedEof),
    {
        decode_header_at(buf, 0)
    }
}

/// Decodes a header from `buf` at `pos`.
pub fn decode_header_at(buf: &[u8], pos: usize) -> (r: Result<Header, Error>)
    ensures
        pos + 16 <= buf@.len() ==> r == Ok::<Header, Error>(header_at(buf@, pos as int)),
        pos + 16 > buf@.len() ==> r == Err::<Header, Error>(Error::UnexpectedEof),
{
    let n = buf.len();
    if pos > n || n - pos < 16 {
        return Err(Error::UnexpectedEof);
    }
    Ok(Header {
        seg0: get_u32(buf, pos),
        seg1: get_u32(buf, pos + 4),
        timestamp: get_u32(buf, pos + 8),
        destination_socket_id: get_u32(buf, pos + 12),
    })
}

/// Reading back the bytes of a header gives the header.
pub proof fn lemma_header_roundtrip(h: Header, s: Seq<u8>, pos: int)
    requires
        0 <= pos,
        pos + 16 <= s.len(),
        s.subrange(pos, pos + 16) == header_bytes(h),
    ensures
        header_at(s, pos) == h,
{
    assert(s.subrange(pos, pos + 4) =~= header_bytes(h).subrange(0, 4));
    assert(s.subrange(pos + 4, pos + 8) =~= header_bytes(h).subrange(4, 8));
    assert(s.subrange(pos + 8, pos + 12) =~= header_bytes(h).subrange(8, 12));
    assert(s.subrange(pos + 12, pos + 16) =~= header_bytes(h).subrange(12, 16));
    assert(header_bytes(h).subrange(0, 4) =~= be32(h.seg0));
    assert(header_bytes(h).subrange(4, 8) =~= be32(h.seg1));
    assert(header_bytes(h).subrange(8, 12) =~= be32(h.timestamp));
    assert(header_bytes(h).subrange(12, 16) =~= be32(h.destination_socket_id));
    lemma_u32_roundtrip(h.seg0, s, pos);
    lemma_u32_roundtrip(h.seg1, s, pos + 4);
    lemma_u32_roundtrip(h.timestamp, s, pos + 8);
    lemma_u32_roundtrip(h.destination_socket_id, s, pos + 12);
}

/// The type of a packet.
#[derive(Copy, Clone, Debug, PartialEq, Eq, Structural, Hash)]
pub enum PacketType {
    Data,
    Control,
}

impl PacketType {
    pub open spec fn spec_to_u32(self) -> u32 {
        match self {
            PacketType::Data => 0,
            PacketType::Control => 1,
        }
    }

    /// The value of the first header bit for this packet type.
    pub fn to_u32(self) -> (v: u32)
        ensures
            v == self.spec_to_u32(),
    {
        match self {
            Self::Data => 0x0,
            Self::Control => 0x01,
        }
    }
}

/// Whether a data packet must be delivered in order.
#[derive(Copy, Clone, Debug, PartialEq, Eq, Structural)]
pub enum OrderFlag {
    InOrder,
    NotInOrder,
}

/// The key with which a data packet's payload is encrypted.
#[derive(Copy, Clone, Debug, PartialEq, Eq, Structural)]
pub enum EncryptionFlag {
    /// The payload is not encrypted.
    Unencrypted,
    Even,
    Odd,
}

/// The position of a data packet within a message.
#[derive(Copy, Clone, Debug, PartialEq, Eq, Structural, Hash)]
pub enum PacketPosition {
    /// The packet is the first packet of the data stream.
    First,
    /// The packet is in the middle of the data stream.
    Middle,
    /// The packet is the last packet of the data stream.
    Last,
    /// The packet contains a full data stream.
    Full,
}

impl PacketPosition {
    /// The two position bits of a data packet.
    pub open spec fn spec_bits(self) -> u32 {
        match self {
            PacketPosition::First => 2,
            PacketPosition::Middle => 0,
            PacketPosition::Last => 1,
            PacketPosition::Full => 3,
        }
    }
}

/// A data packet: a header and a payload.
#[derive(Clone, Debug)]
pub struct DataPacket {
    pub header: Header,
    pub data: Vec<u8>,
}

impl DataPacket {
    /// An empty data packet with a zero header.
    pub fn default() -> (p: Self)
        ensures
            p.header == (Header { seg0: 0, seg1: 0, timestamp: 0, destination_socket_id: 0 }),
            p.data@ == Seq::<u8>::empty(),
    {
        DataPacket { header: Header::default(), data: Vec::new() }
    }

    /// Bits 1 to 31 of the first header word.
    pub fn packet_sequence_number(&self) -> (n: u32)
        ensures
            n == low31(self.header.seg0),
    {
        self.header.seg0 & 0x7fff_ffffu32
    }

    /// The first two bits of the second word: `10` first, `00` middle, `01` last, `11` full.
    pub fn packet_position_flag(&self) -> (p: PacketPosition)
        ensures
            p.spec_bits() == position_bits(self.header.seg1),
    {
        let w = self.header.seg1;
        let b = w >> 30u32;
        assert(w >> 30u32 <= 3) by (bit_vector);
        if b == 2 {
            PacketPosition::First
        } else if b == 0 {
            PacketPosition::Middle
        } else if b == 1 {
            PacketPosition::Last
        } else {
            PacketPosition::Full
        }
    }

    /// The third bit of the second word: 1 in order, 0 not in order.
    pub fn order_flag(&self) -> (f: OrderFlag)
        ensures
            (f == OrderFlag::InOrder) <==> order_bit(self.header.seg1) == 1,
    {
        if (self.header.seg1 >> 29u32) & 1u32 == 1 {
            OrderFlag::InOrder
        } else {
            OrderFlag::NotInOrder
        }
    }

    /// Bits 3 and 4 of the second word: `00` none, `01` even, `11` odd.
    pub fn encryption_flag(&self) -> (f: EncryptionFlag)
        requires
            encryption_bits(self.header.seg1) != 2,
        ensures
            encryption_bits(self.header.seg1) == 0 ==> f == EncryptionFlag::Unencrypted,
            encryption_bits(self.header.seg1) == 1 ==> f == EncryptionFlag::Even,
            encryption_bits(self.header.seg1) == 3 ==> f == EncryptionFlag::Odd,
    {
        let b = (self.header.seg1 >> 27u32) & 3u32;
        if b == 0 {
            EncryptionFlag::Unencrypted
        } else if b == 1 {
            EncryptionFlag::Even
        } else {
            EncryptionFlag::Odd
        }
    }

    /// Bit 5 of the second word: 1 if the packet was retransmitted.
    pub fn retransmission_flag(&self) -> (f: u8)
        ensures
            f as u32 == retransmit_bit(self.header.seg1),
    {
        let w = self.header.seg1;
        let b = (w >> 26u32) & 1u32;
        assert((w >> 26u32) & 1u32 <= 1) by (bit_vector);
        b as u8
    }

    /// Bits 6 to 31 of the second word: the 26-bit message number.
    pub fn message_number(&self) -> (n: u32)
        ensures
            n == message_bits(self.header.seg1),
    {
        self.header.seg1 & 0x3ff_ffffu32
    }

    /// Sets the sequence number, the low 31 bits of the first word; higher bits of `n` are
    /// dropped.
    pub fn set_packet_sequence_number(&mut self, n: u32)
        ensures
            low31(final(self).header.seg0) == n & 0x7fff_ffffu32,
            first_bit(final(self).header.seg0) == first_bit(old(self).header.seg0),
            final(self).header.seg1 == old(self).header.seg1,
            final(self).header.timestamp == old(self).header.timestamp,
            final(self).header.destination_socket_id == old(self).header.destination_socket_id,
            final(self).data == old(self).data,
    {
        let w = self.header.seg0;
        assert(((w & 0x8000_0000u32) | (n & 0x7fff_ffffu32)) & 0x7fff_ffffu32 == n & 0x7fff_ffffu32
            && ((w & 0x8000_0000u32) | (n & 0x7fff_ffffu32)) >> 31u32 == w >> 31u32) by (bit_vector);
        self.header.seg0 = (w & 0x8000_0000u32) | (n & 0x7fff_ffffu32);
    }

    /// Sets the 26-bit message number; higher bits of `n` are dropped.
    pub fn set_message_number(&mut self, n: u32)
        ensures
            message_bits(final(self).header.seg1) == n & 0x3ff_ffffu32,
            final(self).header.seg1 >> 26u32 == old(self).header.seg1 >> 26u32,
            final(self).header.seg0 == old(self).header.seg0,
            final(self).header.timestamp == old(self).header.timestamp,
            final(self).header.destination_socket_id == old(self).header.destination_socket_id,
            final(self).data == old(self).data,
    {
        let w = self.header.seg1;
        assert(((w & 0xfc00_0000u32) | (n & 0x3ff_ffffu32)) & 0x3ff_ffffu32 == n & 0x3ff_ffffu32
            && ((w & 0xfc00_0000u32) | (n & 0x3ff_ffffu32)) >> 26u32 == w >> 26u32) by (bit_vector);
        self.header.seg1 = (w & 0xfc00_0000u32) | (n & 0x3ff_ffffu32);
    }

    /// Sets the order bit.
    pub fn set_ordered(&mut self, ordered: bool)
        ensures
            order_bit(final(self).header.seg1) == (if ordered { 1u32 } else { 0u32 }),
            final(self).header.seg1 & 0xdfff_ffffu32 == old(self).header.seg1 & 0xdfff_ffffu32,
            final(self).header.seg0 == old(self).header.seg0,
            final(self).header.timestamp == old(self).header.timestamp,
            final(self).header.destination_socket_id == old(self).header.destination_socket_id,
            final(self).data == old(self).data,
    {
        let w = self.header.seg1;
        if ordered {
            assert(((w | 0x2000_0000u32) >> 29u32) & 1u32 == 1u32 && (w | 0x2000_0000u32)
                & 0xdfff_ffffu32 == w & 0xdfff_ffffu32) by (bit_vector);
            self.header.seg1 = w | 0x2000_0000u32;
        } else {
            assert(((w & 0xdfff_ffffu32) >> 29u32) & 1u32 == 0u32 && (w & 0xdfff_ffffu32)
                & 0xdfff_ffffu32 == w & 0xdfff_ffffu32) by (bit_vector);
            self.header.seg1 = w & 0xdfff_ffffu32;
        }
    }

    /// Sets the retransmission bit.
    pub fn set_retransmitted(&mut self, retransmitted: bool)
        ensures
            retransmit_bit(final(self).header.seg1) == (if retransmitted { 1u32 } else { 0u32 }),
            final(self).header.seg1 & 0xfbff_ffffu32 == old(self).header.seg1 & 0xfbff_ffffu32,
            final(self).header.seg0 == old(self).header.seg0,
            final(self).header.timestamp == old(self).header.timestamp,
            final(self).header.destination_socket_id == old(self).header.destination_socket_id,
            final(self).data == old(self).data,
    {
        let w = self.header.seg1;
        if retransmitted {
            assert(((w | 0x0400_0000u32) >> 26u32) & 1u32 == 1u32 && (w | 0x0400_0000u32)
                & 0xfbff_ffffu32 == w & 0xfbff_ffffu32) by (bit_vector);
            self.header.seg1 = w | 0x0400_0000u32;
        } else {
            assert(((w & 0xfbff_ffffu32) >> 26u32) & 1u32 == 0u32 && (w & 0xfbff_ffffu32)
                & 0xfbff_ffffu32 == w & 0xfbff_ffffu32) by (bit_vector);
            self.header.seg1 = w & 0xfbff_ffffu32;
        }
    }

    /// Sets the two position bits.
    pub fn set_packet_position(&mut self, position: PacketPosition)
        ensures
            position_bits(final(self).header.seg1) == position.spec_bits(),
            final(self).header.seg1 & 0x3fff_ffffu32 == old(self).header.seg1 & 0x3fff_ffffu32,
            final(self).header.seg0 == old(self).header.seg0,
            final(self).header.timestamp == old(self).header.timestamp,
            final(self).header.destination_socket_id == old(self).header.destination_socket_id,
            final(self).data == old(self).data,
    {
        let v: u32 = match position {
            PacketPosition::First => 2,
            PacketPosition::Middle => 0,
            PacketPosition::Last => 1,
            PacketPosition::Full => 3,
        };
        let w = self.header.seg1;
        assert(v <= 3 ==> ((w & 0x3fff_ffffu32) | (v << 30u32)) >> 30u32 == v && ((w
            & 0x3fff_ffffu32) | (v << 30u32)) & 0x3fff_ffffu32 == w & 0x3fff_ffffu32)
            by (bit_vector);
        self.header.seg1 = (w & 0x3fff_ffffu32) | (v << 30u32);
    }

    /// Converts the data packet into a generic packet with the payload as body.
    pub fn upcast(self) -> (p: Packet)
        ensures
            p.header == self.header,
            p.body@ == self.data@,
    {
        Packet { header: self.header, body: self.data }
    }

    /// Converts a generic packet into a data packet; this never fails.
    pub fn downcast(packet: Packet) -> (r: Result<DataPacket, Error>)
        ensures
            r matches Ok(p) && p.header == packet.header && p.data@ == packet.body@,
    {
        Ok(DataPacket { header: packet.header, data: packet.body })
    }
}

/// A shutdown packet: a header only.
#[derive(Copy, Clone, Debug)]
pub struct ShutdownPacket {
    pub header: Header,
}

impl ShutdownPacket {
    /// Appends the header bytes to `buf`.
    pub fn encode(&self, buf: &mut Vec<u8>)
        ensures
            final(buf)@ == old(buf)@ + header_bytes(self.header),
    {
        self.header.encode(buf);
    }

    /// Decodes the header at the start of `buf`.
    pub fn decode(buf: &[u8]) -> (r: Result<ShutdownPacket, Error>)
        ensures
            buf@.len() >= 16 ==> (r matches Ok(p) && p.header == header_at(buf@, 0)),
            buf@.len() < 16 ==> r == Err::<ShutdownPacket, Error>(Error::UnexpectedEof),
    {
        let header = Header::decode(buf)?;
        Ok(ShutdownPacket { header })
    }
}

/// A control packet: a header only.
#[derive(Copy, Clone, Debug)]
pub struct ControlPacket {
    pub header: Header,
}

impl ControlPacket {
    /// The control type in bits 1 to 15; the type must be a known one.
    pub fn control_type(&self) -> (t: ControlPacketType)
        requires
            self.header.spec_control_type() is Some,
        ensures
            Some(t) == self.header.spec_control_type(),
    {
        let bits = (self.header.seg0 >> 16u32) & 0x7fffu32;
        ControlPacketType::from_u32(bits).unwrap()
    }

    /// Sets the control type bits.
    pub fn set_control_type(&mut self, type_: ControlPacketType)
        ensures
            final(self).header.spec_control_type() == Some(type_),
            first_bit(final(self).header.seg0) == first_bit(old(self).header.seg0),
    {
        self.header.set_control_type(type_);
    }
}

/// The types of control packets.
#[derive(Copy, Clone, Debug, PartialEq, Eq, Structural, Hash)]
pub enum ControlPacketType {
    Handshake,
    Keepalive,
    Ack,
    Nak,
    CongestionWarning,
    Shutdown,
    AckAck,
    DropReq,
    PeerError,
    UserDefined,
}

impl ControlPacketType {
    /// The wire value of each control type.
    pub open spec fn spec_to_u16(self) -> u16 {
        match self {
            ControlPacketType::Handshake => 0x00,
            ControlPacketType::Keepalive => 0x01,
            ControlPacketType::Ack => 0x02,
            ControlPacketType::Nak => 0x03,
            ControlPacketType::CongestionWarning => 0x04,
            ControlPacketType::Shutdown => 0x05,
            ControlPacketType::AckAck => 0x06,
            ControlPacketType::DropReq => 0x07,
            ControlPacketType::PeerError => 0x08,
            ControlPacketType::UserDefined => 0x7FFF,
        }
    }

    /// The control type with wire value `value`, if there is one.
    pub open spec fn spec_from_u32(value: u32) -> Option<ControlPacketType> {
        if value == 0x0000 {
            Some(ControlPacketType::Handshake)
        } else if value == 0x0001 {
            Some(ControlPacketType::Keepalive)
        } else if value == 0x0002 {
            Some(ControlPacketType::Ack)
        } else if value == 0x0003 {
            Some(ControlPacketType::Nak)
        } else if value == 0x0004 {
            Some(ControlPacketType::CongestionWarning)
        } else if value == 0x0005 {
            Some(ControlPacketType::Shutdown)
        } else if value == 0x0006 {
            Some(ControlPacketType::AckAck)
        } else if value == 0x0007 {
            Some(ControlPacketType::DropReq)
        } else if value == 0x0008 {
            Some(ControlPacketType::PeerError)
        } else if value == 0x7FFF {
            Some(ControlPacketType::UserDefined)
        } else {
            None
        }
    }

    /// Returns the control type with wire value `value`, or `None` for an unknown value.
    pub fn from_u32(value: u32) -> (r: Option<Self>)
        ensures
            r == Self::spec_from_u32(value),
    {
        match value {
            0x0000 => Some(Self::Handshake),
            0x0001 => Some(Self::Keepalive),
            0x0002 => Some(Self::Ack),
            0x0003 => Some(Self::Nak),
            0x0004 => Some(Self::CongestionWarning),
            0x0005 => Some(Self::Shutdown),
            0x0006 => Some(Self::AckAck),
            0x0007 => Some(Self::DropReq),
            0x0008 => Some(Self::PeerError),
            0x7FFF => Some(Self::UserDefined),
            _ => None,
        }
    }

    /// Returns the wire value of the control type.
    pub fn to_u16(self) -> (v: u16)
        ensures
            v == self.spec_to_u16(),
    {
        match self {
            Self::Handshake => 0x00,
            Self::Keepalive => 0x01,
            Self::Ack => 0x02,
            Self::Nak => 0x03,
            Self::CongestionWarning => 0x04,
            Self::Shutdown => 0x05,
            Self::AckAck => 0x06,
            Self::DropReq => 0x07,
            Self::PeerError => 0x08,
            Self::UserDefined => 0x7FFF,
        }
    }

    /// Converting a control type to its wire value and back gives the control type.
    pub proof fn lemma_u16_roundtrip(t: ControlPacketType)
        ensures
            Self::spec_from_u32(t.spec_to_u16() as u32) == Some(t),
            t.spec_to_u16() <= 0x7fff,
    {
    }

    /// A wire value that names a control type is the wire value of that control type.
    pub proof fn lemma_from_u32_exact(value: u32)
        ensures
            Self::spec_from_u32(value) matches Some(t) ==> t.spec_to_u16() as u32 == value,
    {
    }
}

impl TryFrom<u16> for ControlPacketType {
    type Error = ();

    fn try_from(value: u16) -> (r: Result<Self, ()>) {
        match value {
            0x0000 => Ok(Self::Handshake),
            0x0001 => Ok(Self::Keepalive),
            0x0002 => Ok(Self::Ack),
            0x0003 => Ok(Self::Nak),
            0x0004 => Ok(Self::CongestionWarning),
            0x0005 => Ok(Self::Shutdown),
            0x0006 => Ok(Self::AckAck),
            0x0007 => Ok(Self::DropReq),
            0x0008 => Ok(Self::PeerError),
            0x7FFF => Ok(Self::UserDefined),
            _ => Err(()),
        }
    }
}

impl TryFromSpecImpl<u16> for ControlPacketType {
    open spec fn obeys_try_from_spec() -> bool {
        true
    }

    open spec fn try_from_spec(value: u16) -> Result<Self, ()> {
        match Self::spec_from_u32(value as u32) {
            Some(t) => Ok(t),
            None => Err(()),
        }
    }
}

/// A generic packet: a header and the undecoded body.
#[derive(Clone, Debug)]
pub struct Packet {
    pub header: Header,
    pub body: Vec<u8>,
}

/// The bytes of a packet: its header, then its body.
pub open spec fn packet_bytes(header: Header, body: Seq<u8>) -> Seq<u8> {
    header_bytes(header) + body
}

/// A packet type that converts to and from a generic [`Packet`].
pub trait IsPacket: Sized {
    type Error;

    /// Upcasts this packet type into a generic [`Packet`].
    fn upcast(self) -> Packet;

    /// Attempts to downcast a generic [`Packet`] into this packet type.
    fn downcast(packet: Packet) -> Result<Self, Self::Error>;
}

impl IsPacket for DataPacket {
    type Error = Error;

    fn upcast(self) -> (p: Packet)
        ensures
            p.header == self.header,
            p.body@ == self.data@,
    {
        DataPacket::upcast(self)
    }

    fn downcast(packet: Packet) -> (r: Result<DataPacket, Error>)
        ensures
            r matches Ok(p) && p.header == packet.header && p.data@ == packet.body@,
    {
        DataPacket::downcast(packet)
    }
}

impl IsPacket for Packet {
    type Error = Error;

    fn upcast(self) -> (p: Packet)
        ensures
            p == self,
    {
        self
    }

    fn downcast(packet: Packet) -> (r: Result<Packet, Error>)
        ensures
            r == Ok::<Packet, Error>(packet),
    {
        Ok(packet)
    }
}

/// The total size in bytes of a packet, header included, as a 64-bit count (it would wrap at
/// `u64::MAX`, which no body in memory comes near).
pub open spec fn packet_wire_size(p: Packet) -> u64 {
    vstd::wrapping::u64_specs::wrapping_add(p.body@.len() as u64, 16)
}

impl Packet {
    /// The total size in bytes of the packet, header included, as a 64-bit count.
    pub fn wire_size(&self) -> (n: u64)
        ensures
            n == packet_wire_size(*self),
    {
        (self.body.len() as u64).wrapping_add(16)
    }

    /// Returns the total size in bytes (incl. the header) of the packet.
    pub fn size(&self) -> (n: usize)
        requires
            self.body@.len() + 16 <= usize::MAX,
        ensures
            n == 16 + self.body@.len(),
            n == packet_bytes(self.header, self.body@).len(),
    {
        Header::SIZE + self.body.len()
    }

    /// Appends the header and then the body to `buf`.
    pub fn encode(&self, buf: &mut Vec<u8>)
        ensures
            final(buf)@ == old(buf)@ + packet_bytes(self.header, self.body@),
    {
        self.header.encode(buf);
        let mut i: usize = 0;
        let ghost start = buf@;
        while i < self.body.len()
            invariant
                i <= self.body@.len(),
                buf@ == start + self.body@.subrange(0, i as int),
            decreases self.body@.len() - i,
        {
            buf.push(self.body[i]);
            i = i + 1;
            proof {
                assert(buf@ =~= start + self.body@.subrange(0, i as int));
            }
        }
        proof {
            assert(self.body@.subrange(0, self.body@.len() as int) =~= self.body@);
            assert(final(buf)@ =~= old(buf)@ + packet_bytes(self.header, self.body@));
        }
    }

    /// Encodes the packet into a new vector.
    pub fn encode_to_vec(&self) -> (v: Vec<u8>)
        ensures
            v@ == packet_bytes(self.header, self.body@),
    {
        let mut v = Vec::new();
        self.encode(&mut v);
        proof {
            assert(v@ =~= packet_bytes(self.header, self.body@));
        }
        v
    }

    /// Decodes a packet: a 16-byte header, then the rest of `buf` as body.
    pub fn decode(buf: &[u8]) -> (r: Result<Packet, Error>)
        ensures
            buf@.len() >= 16 ==> (r matches Ok(p) && p.header == header_at(buf@, 0) && p.body@
                == buf@.subrange(16, buf@.len() as int)),
            buf@.len() < 16 ==> (r matches Err(e) && e == Error::UnexpectedEof),
    {
        let header = Header::decode(buf)?;
        let body = copy_range(buf, 16, buf.len());
        Ok(Packet { header, body })
    }
}

/// Copies `buf[from..to]` into a new vector.
pub fn copy_range(buf: &[u8], from: usize, to: usize) -> (v: Vec<u8>)
    requires
        from <= to <= buf@.len(),
    ensures
        v@ == buf@.subrange(from as int, to as int),
{
    let mut v = Vec::new();
    let mut i = from;
    while i < to
        invariant
            from <= i <= to <= buf@.len(),
            v@ == buf@.subrange(from as int, i as int),
        decreases to - i,
    {
        v.push(buf[i]);
        i = i + 1;
        proof {
            assert(v@ =~= buf@.subrange(from as int, i as int));
        }
    }
    v
}

/// Decoding the bytes of a packet gives back its header and body.
pub proof fn lemma_packet_roundtrip(header: Header, body: Seq<u8>)
    ensures
        header_at(packet_bytes(header, body), 0) == header,
        packet_bytes(header, body).subrange(16, packet_bytes(header, body).len() as int) == body,
{
    let s = packet_bytes(header, body);
    assert(s.subrange(0, 16) =~= header_bytes(header));
    lemma_header_roundtrip(header, s, 0);
    assert(s.subrange(16, s.len() as int) =~= body);
}

/// The header of a control packet.
#[derive(Copy, Clone, Debug)]
pub struct ControlHeader {
    pub header: Header,
}

impl ControlHeader {
    /// The control type of the header; it must be a known one.
    pub fn control_type(&self) -> (t: ControlPacketType)
        requires
            self.header.spec_control_type() is Some,
        ensures
            Some(t) == self.header.spec_control_type(),
    {
        let bits = (self.header.seg0 >> 16u32) & 0x7fffu32;
        ControlPacketType::from_u32(bits).unwrap()
    }

    /// Sets the control type of the header.
    pub fn set_control_type(&mut self, type_: ControlPacketType)
        ensures
            final(self).header.spec_control_type() == Some(type_),
            first_bit(final(self).header.seg0) == first_bit(old(self).header.seg0),
    {
        self.header.set_control_type(type_);
    }
}

/// The header of a data packet.
#[derive(Copy, Clone, Debug)]
pub struct DataHeader {
    pub header: Header,
}

/// A keep-alive packet: a header only.
#[derive(Copy, Clone, Debug)]
pub struct Keepalive {
    pub header: Header,
}

/// An acknowledgement packet with all its fields.
#[derive(Copy, Clone, Debug)]
pub struct AckPacket {
    pub header: Header,
    /// The sequence number of the first unacknowledged packet.
    pub last_acknowledged_packet_sequence_number: u32,
    /// RTT value, in microseconds, estimated by the receiver.
    pub rtt: u32,
    /// The variance of the RTT estimate, in microseconds.
    pub rtt_variance: u32,
    /// Available size of the receiver's buffer, in packets.
    pub avaliable_buffer_size: u32,
    /// The rate at which packets are being received, in packets per second.
    pub packets_receiving_rate: u32,
    /// Estimated bandwidth of the link, in packets per second.
    pub estimated_link_capacity: u32,
    /// Estimated receiving rate, in bytes per second.
    pub receiving_rate: u32,
}

/// The bytes of an acknowledgement packet.
pub open spec fn ack_packet_bytes(p: AckPacket) -> Seq<u8> {
    header_bytes(p.header) + be32(p.last_acknowledged_packet_sequence_number) + be32(p.rtt)
        + be32(p.rtt_variance) + be32(p.avaliable_buffer_size) + be32(p.packets_receiving_rate)
        + be32(p.estimated_link_capacity) + be32(p.receiving_rate)
}

impl AckPacket {
    /// The sequential number of the full acknowledgement packet, held in the second word.
    pub fn acknowledgement_number(&self) -> (n: u32)
        ensures
            n == self.header.seg1,
    {
        self.header.seg1
    }

    /// Appends the header and the seven fields to `buf`.
    pub fn encode(&self, buf: &mut Vec<u8>)
        ensures
            final(buf)@ == old(buf)@ + ack_packet_bytes(*self),
    {
        self.header.encode(buf);
        put_u32(buf, self.last_acknowledged_packet_sequence_number);
        put_u32(buf, self.rtt);
        put_u32(buf, self.rtt_variance);
        put_u32(buf, self.avaliable_buffer_size);
        put_u32(buf, self.packets_receiving_rate);
        put_u32(buf, self.estimated_link_capacity);
        put_u32(buf, self.receiving_rate);
        proof {
            assert(final(buf)@ =~= old(buf)@ + ack_packet_bytes(*self));
        }
    }
}

/// The address of a peer.
#[derive(Copy, Clone, Debug)]
pub struct PeerIpAddress(pub [u8; 8]);

} // verus!
