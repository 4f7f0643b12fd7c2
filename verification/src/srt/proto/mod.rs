//! The control packets of SRT, and lists of sequence numbers.
use vstd::prelude::*;
use core::ops::{Range, RangeInclusive};
use vstd::std_specs::cmp::PartialEqSpecImpl;
use vstd::std_specs::convert::FromSpecImpl;
use crate::codec::{be32, u32_at, put_u32, get_u32, lemma_u32_roundtrip};
use crate::srt::{Error, Header, Packet};
use crate::srt::extension::{ExtensionField, Extensions};
use crate::srt::handshake::{EncryptionField, HandshakeType};

pub mod builder;
pub mod header;
pub mod timestamp;

use builder::{AckAckBuilder, AckBuilder, DropRequestBuilder, KeepaliveBuilder, LightAckBuilder,
    NakBuilder, ShutdownBuilder};
use header::{AckHeader, DropRequestHeader, HandshakeHeader, KeepaliveHeader, ShutdownHeader};

verus! {

/// A handshake packet with a typed encryption field.
#[derive(Debug)]
pub struct Handshake {
    pub header: HandshakeHeader,
    /// A base protocol version number. Currently used values are 4 and 5.
    pub version: u32,
    /// Block cipher family and key size.
    pub encryption_field: EncryptionField,
    /// Message specific extension related to the handshake type field.
    pub extension_field: ExtensionField,
    /// The sequence number of the very first data packet to be sent.
    pub initial_packet_sequence_number: u32,
    /// The maximum transmission unit size.
    pub maximum_transmission_unit_size: u32,
    /// The maximum number of data packets allowed to be "in flight".
    pub maximum_flow_window_size: u32,
    /// The handshake packet type.
    pub handshake_type: HandshakeType,
    /// The ID of the source SRT socket from which a handshake packet is issued.
    pub srt_socket_id: u32,
    /// Randomized value for processing a handshake.
    pub syn_cookie: u32,
    /// IPv4 or IPv6 address of the packet's sender.
    pub peer_ip_address: u128,
    pub extensions: Extensions,
}

/// The `Keep-Alive` packet.
#[derive(Copy, Clone, Debug)]
pub struct Keepalive {
    pub header: KeepaliveHeader,
    pub _unused: u32,
}

impl Keepalive {
    /// A keep-alive packet with a keep-alive header.
    pub fn default() -> (p: Self)
        ensures
            p.header.0 == header::spec_control_header(crate::srt::ControlPacketType::Keepalive),
            p._unused == 0,
    {
        Keepalive { header: KeepaliveHeader::default(), _unused: 0 }
    }

    /// Returns a builder for a keep-alive packet.
    pub fn builder() -> (b: KeepaliveBuilder)
        ensures
            b.0.header.0 == header::spec_control_header(crate::srt::ControlPacketType::Keepalive),
            b.0._unused == 0,
    {
        KeepaliveBuilder::new()
    }

    /// Converts the packet into a generic packet: the header, then the unused word.
    pub fn upcast(self) -> (p: Packet)
        ensures
            p.header == self.header.0,
            p.body@ == be32(self._unused),
    {
        let mut body = Vec::new();
        put_u32(&mut body, self._unused);
        proof { assert(body@ =~= be32(self._unused)); }
        Packet { header: self.header.0, body }
    }

    /// Reads a keep-alive packet from a generic packet: the header must be a keep-alive header
    /// and the body must hold the unused word.
    pub fn downcast(packet: Packet) -> (r: Result<Keepalive, Error>)
        requires
            packet.header.spec_packet_type() == crate::srt::PacketType::Control ==> packet.header.spec_control_type() is Some,
        ensures
            match r {
                Ok(k) => header::check_control(packet.header, crate::srt::ControlPacketType::Keepalive)
                    == Ok::<Header, Error>(k.header.0) && packet.body@.len() >= 4 && k._unused
                    == u32_at(packet.body@, 0),
                Err(e) => header::check_control(packet.header, crate::srt::ControlPacketType::Keepalive)
                    == Err::<Header, Error>(e) || (header::check_control(
                    packet.header,
                    crate::srt::ControlPacketType::Keepalive,
                ) is Ok && packet.body@.len() < 4 && e == Error::UnexpectedEof),
            },
    {
        let header = KeepaliveHeader::try_from(packet.header)?;
        let b = packet.body.as_slice();
        if b.len() < 4 {
            return Err(Error::UnexpectedEof);
        }
        Ok(Keepalive { header, _unused: get_u32(b, 0) })
    }
}

/// A full acknowledgement packet.
#[derive(Copy, Clone, Debug)]
pub struct Ack {
    pub header: AckHeader,
    pub last_acknowledged_packet_sequence_number: u32,
    pub rtt: u32,
    pub rtt_variance: u32,
    pub avaliable_buffer_size: u32,
    pub packets_receiving_rate: u32,
    pub estimated_link_capacity: u32,
    pub receiving_rate: u32,
}

/// The body of an acknowledgement packet: its seven fields.
pub open spec fn ack_body(a: Ack) -> Seq<u8> {
    be32(a.last_acknowledged_packet_sequence_number) + be32(a.rtt) + be32(a.rtt_variance) + be32(
        a.avaliable_buffer_size,
    ) + be32(a.packets_receiving_rate) + be32(a.estimated_link_capacity) + be32(a.receiving_rate)
}

/// The acknowledgement with header `h` whose seven fields are read from the body `s`.
pub open spec fn ack_from_body(h: AckHeader, s: Seq<u8>) -> Ack {
    Ack {
        header: h,
        last_acknowledged_packet_sequence_number: u32_at(s, 0),
        rtt: u32_at(s, 4),
        rtt_variance: u32_at(s, 8),
        avaliable_buffer_size: u32_at(s, 12),
        packets_receiving_rate: u32_at(s, 16),
        estimated_link_capacity: u32_at(s, 20),
        receiving_rate: u32_at(s, 24),
    }
}

impl Ack {
    /// An acknowledgement with an acknowledgement header and all fields zero.
    pub fn default() -> (p: Self)
        ensures
            p == Ack::default_value(),
    {
        Ack {
            header: AckHeader::default(),
            last_acknowledged_packet_sequence_number: 0,
            rtt: 0,
            rtt_variance: 0,
            avaliable_buffer_size: 0,
            packets_receiving_rate: 0,
            estimated_link_capacity: 0,
            receiving_rate: 0,
        }
    }

    /// Returns a builder for an acknowledgement.
    pub fn builder() -> (b: AckBuilder)
        ensures
            b.0 == Ack::default_value(),
    {
        AckBuilder::new()
    }

    /// The acknowledgement that [`Ack::default`] returns.
    pub open spec fn default_value() -> Ack {
        Ack {
            header: AckHeader(header::spec_control_header(crate::srt::ControlPacketType::Ack)),
            last_acknowledged_packet_sequence_number: 0,
            rtt: 0,
            rtt_variance: 0,
            avaliable_buffer_size: 0,
            packets_receiving_rate: 0,
            estimated_link_capacity: 0,
            receiving_rate: 0,
        }
    }

    /// The acknowledgement number, the second header word.
    pub fn acknowledgement_number(&self) -> (n: u32)
        ensures
            n == self.header.0.seg1,
    {
        self.header.0.seg1
    }

    /// Sets the acknowledgement number.
    pub fn set_acknowledgement_number(&mut self, n: u32)
        ensures
            final(self).header.0.seg1 == n,
            final(self).header.0.seg0 == old(self).header.0.seg0,
            final(self).header.0.timestamp == old(self).header.0.timestamp,
            final(self).header.0.destination_socket_id == old(self).header.0.destination_socket_id,
            final(self).last_acknowledged_packet_sequence_number == old(self).last_acknowledged_packet_sequence_number,
            final(self).rtt == old(self).rtt,
            final(self).rtt_variance == old(self).rtt_variance,
            final(self).avaliable_buffer_size == old(self).avaliable_buffer_size,
            final(self).packets_receiving_rate == old(self).packets_receiving_rate,
            final(self).estimated_link_capacity == old(self).estimated_link_capacity,
            final(self).receiving_rate == old(self).receiving_rate,
    {
        self.header.0.seg1 = n;
    }

    /// Converts the packet into a generic packet: the header, then the seven fields.
    pub fn upcast(self) -> (p: Packet)
        ensures
            p.header == self.header.0,
            p.body@ == ack_body(self),
    {
        let mut body = Vec::new();
        put_u32(&mut body, self.last_acknowledged_packet_sequence_number);
        put_u32(&mut body, self.rtt);
        put_u32(&mut body, self.rtt_variance);
        put_u32(&mut body, self.avaliable_buffer_size);
        put_u32(&mut body, self.packets_receiving_rate);
        put_u32(&mut body, self.estimated_link_capacity);
        put_u32(&mut body, self.receiving_rate);
        proof { assert(body@ =~= ack_body(self)); }
        Packet { header: self.header.0, body }
    }

    /// Reads an acknowledgement from a generic packet: the header must be an acknowledgement
    /// header and the body must hold the seven fields.
    pub fn downcast(packet: Packet) -> (r: Result<Ack, Error>)
        requires
            packet.header.spec_packet_type() == crate::srt::PacketType::Control ==> packet.header.spec_control_type() is Some,
        ensures
            match r {
                Ok(a) => header::check_control(packet.header, crate::srt::ControlPacketType::Ack)
                    == Ok::<Header, Error>(a.header.0) && packet.body@.len() >= 28
                    && a == ack_from_body(a.header, packet.body@),
                Err(e) => header::check_control(packet.header, crate::srt::ControlPacketType::Ack)
                    == Err::<Header, Error>(e) || (header::check_control(
                    packet.header,
                    crate::srt::ControlPacketType::Ack,
                ) is Ok && packet.body@.len() < 28 && e == Error::UnexpectedEof),
            },
    {
        let header = AckHeader::try_from(packet.header)?;
        let b = packet.body.as_slice();
        if b.len() < 28 {
            return Err(Error::UnexpectedEof);
        }
        Ok(Ack {
            header,
            last_acknowledged_packet_sequence_number: get_u32(b, 0),
            rtt: get_u32(b, 4),
            rtt_variance: get_u32(b, 8),
            avaliable_buffer_size: get_u32(b, 12),
            packets_receiving_rate: get_u32(b, 16),
            estimated_link_capacity: get_u32(b, 20),
            receiving_rate: get_u32(b, 24),
        })
    }
}

/// A light acknowledgement: the last acknowledged sequence number only.
#[derive(Copy, Clone, Debug)]
pub struct LightAck {
    pub header: AckHeader,
    pub last_acknowledged_packet_sequence_number: u32,
}

impl LightAck {
    /// A light acknowledgement with an acknowledgement header and a zero field.
    pub fn default() -> (p: Self)
        ensures
            p.header.0 == header::spec_control_header(crate::srt::ControlPacketType::Ack),
            p.last_acknowledged_packet_sequence_number == 0,
    {
        LightAck { header: AckHeader::default(), last_acknowledged_packet_sequence_number: 0 }
    }

    /// Returns a builder for a light acknowledgement.
    pub fn builder() -> (b: LightAckBuilder)
        ensures
            b.0.header.0 == header::spec_control_header(crate::srt::ControlPacketType::Ack),
            b.0.last_acknowledged_packet_sequence_number == 0,
    {
        LightAckBuilder::new()
    }
}

/// A small acknowledgement: sequence number, RTT, RTT variance and buffer size.
#[derive(Copy, Clone, Debug)]
pub struct SmallAck {
    pub header: AckHeader,
    pub last_acknowledged_packet_sequence_number: u32,
    pub rtt: u32,
    pub rtt_variance: u32,
    pub avaliable_buffer_size: u32,
}

impl SmallAck {
    /// A small acknowledgement with an acknowledgement header and all fields zero.
    pub fn default() -> (p: Self)
        ensures
            p.header.0 == header::spec_control_header(crate::srt::ControlPacketType::Ack),
            p.last_acknowledged_packet_sequence_number == 0,
            p.rtt == 0,
            p.rtt_variance == 0,
            p.avaliable_buffer_size == 0,
    {
        SmallAck {
            header: AckHeader::default(),
            last_acknowledged_packet_sequence_number: 0,
            rtt: 0,
            rtt_variance: 0,
            avaliable_buffer_size: 0,
        }
    }
}

/// The acknowledgement of a full acknowledgement.
///
/// Its header is a plain header; a new `AckAck` is all zero.
#[derive(Copy, Clone, Debug)]
pub struct AckAck {
    pub header: Header,
    pub _unused: u32,
}

impl AckAck {
    /// The all-zero `AckAck`.
    pub fn default() -> (p: Self)
        ensures
            p.header == crate::srt::handshake::zero_header(),
            p._unused == 0,
    {
        AckAck { header: Header::default(), _unused: 0 }
    }

    /// Returns a builder for an `AckAck`.
    pub fn builder() -> (b: AckAckBuilder)
        ensures
            b.0.header == crate::srt::handshake::zero_header(),
            b.0._unused == 0,
    {
        AckAckBuilder::new()
    }

    /// The acknowledgement number of the full ACK being acknowledged, the second header word.
    pub fn acknowledgement_number(&self) -> (n: u32)
        ensures
            n == self.header.seg1,
    {
        self.header.seg1
    }

    /// Sets the acknowledgement number.
    pub fn set_acknowledgement_number(&mut self, n: u32)
        ensures
            final(self).header.seg1 == n,
            final(self).header.seg0 == old(self).header.seg0,
            final(self).header.timestamp == old(self).header.timestamp,
            final(self).header.destination_socket_id == old(self).header.destination_socket_id,
            final(self)._unused == old(self)._unused,
    {
        self.header.seg1 = n;
    }

    /// Converts the packet into a generic packet: the header, then the unused word.
    pub fn upcast(self) -> (p: Packet)
        ensures
            p.header == self.header,
            p.body@ == be32(self._unused),
    {
        let mut body = Vec::new();
        put_u32(&mut body, self._unused);
        proof { assert(body@ =~= be32(self._unused)); }
        Packet { header: self.header, body }
    }

    /// Reads an `AckAck` from a generic packet; the body must hold the unused word.
    pub fn downcast(packet: Packet) -> (r: Result<AckAck, Error>)
        ensures
            packet.body@.len() >= 4 ==> (r matches Ok(a) && a.header == packet.header && a._unused
                == u32_at(packet.body@, 0)),
            packet.body@.len() < 4 ==> (r matches Err(e) && e == Error::UnexpectedEof),
    {
        let b = packet.body.as_slice();
        if b.len() < 4 {
            return Err(Error::UnexpectedEof);
        }
        Ok(AckAck { header: packet.header, _unused: get_u32(b, 0) })
    }
}

/// A negative acknowledgement: the sequence numbers that were lost.
///
/// Its header is a plain header; a new `Nak` has the all-zero header.
#[derive(Debug)]
pub struct Nak {
    pub header: Header,
    /// A single or a list of lost sequence numbers.
    pub lost_packet_sequence_numbers: SequenceNumbers,
}

impl Nak {
    /// The all-zero `Nak` that reports sequence number 0.
    pub fn default() -> (p: Self)
        ensures
            p.header == crate::srt::handshake::zero_header(),
            p.lost_packet_sequence_numbers == SequenceNumbers::Single(0),
    {
        Nak { header: Header::default(), lost_packet_sequence_numbers: SequenceNumbers::default() }
    }

    /// Returns a builder for a `Nak`.
    pub fn builder() -> (b: NakBuilder)
        ensures
            b.0.header == crate::srt::handshake::zero_header(),
            b.0.lost_packet_sequence_numbers == SequenceNumbers::Single(0),
    {
        NakBuilder::new()
    }

    /// Returns the lost sequence numbers.
    pub fn lost_packet_sequence_number(&self) -> (s: &SequenceNumbers)
        ensures
            *s == self.lost_packet_sequence_numbers,
    {
        &self.lost_packet_sequence_numbers
    }

    /// Reports a single lost sequence number.
    pub fn set_lost_packet_sequence_number(&mut self, n: u32)
        ensures
            final(self).lost_packet_sequence_numbers == SequenceNumbers::Single(n),
            final(self).header == old(self).header,
    {
        self.lost_packet_sequence_numbers = SequenceNumbers::Single(n);
    }

    /// Reports the given lost sequence numbers.
    pub fn set_lost_packet_sequence_numbers(&mut self, seq: SequenceNumbers)
        ensures
            final(self).lost_packet_sequence_numbers == seq,
            final(self).header == old(self).header,
    {
        self.lost_packet_sequence_numbers = seq;
    }

    /// Reads a `Nak` from a generic packet: the body holds the sequence numbers.
    pub fn downcast(packet: Packet) -> (r: Result<Nak, Error>)
        ensures
            match r {
                Ok(n) => n.header == packet.header && spec_decode_sequence_numbers(packet.body@)
                    == Ok::<(SeqNumsView, int), Error>((n.lost_packet_sequence_numbers@, 
                    sequence_numbers_size(n.lost_packet_sequence_numbers@))),
                Err(e) => spec_decode_sequence_numbers(packet.body@) == Err::<(SeqNumsView, int), Error>(e),
            },
    {
        let (seq, _n) = SequenceNumbers::decode(packet.body.as_slice())?;
        Ok(Nak { header: packet.header, lost_packet_sequence_numbers: seq })
    }
}

/// The shutdown packet.
#[derive(Copy, Clone, Debug)]
pub struct Shutdown {
    pub header: ShutdownHeader,
    pub _unused: u32,
}

impl Shutdown {
    /// A shutdown packet with a shutdown header.
    pub fn default() -> (p: Self)
        ensures
            p.header.0 == header::spec_control_header(crate::srt::ControlPacketType::Shutdown),
            p._unused == 0,
    {
        Shutdown { header: ShutdownHeader::default(), _unused: 0 }
    }

    /// Returns a builder for a shutdown packet.
    pub fn builder() -> (b: ShutdownBuilder)
        ensures
            b.0.header.0 == header::spec_control_header(crate::srt::ControlPacketType::Shutdown),
            b.0._unused == 0,
    {
        ShutdownBuilder::new()
    }

    /// Converts the packet into a generic packet: the header, then the unused word.
    pub fn upcast(self) -> (p: Packet)
        ensures
            p.header == self.header.0,
            p.body@ == be32(self._unused),
    {
        let mut body = Vec::new();
        put_u32(&mut body, self._unused);
        proof { assert(body@ =~= be32(self._unused)); }
        Packet { header: self.header.0, body }
    }

    /// Reads a shutdown packet from a generic packet: the header must be a shutdown header and
    /// the body must hold the unused word.
    pub fn downcast(packet: Packet) -> (r: Result<Shutdown, Error>)
        requires
            packet.header.spec_packet_type() == crate::srt::PacketType::Control ==> packet.header.spec_control_type() is Some,
        ensures
            match r {
                Ok(k) => header::check_control(packet.header, crate::srt::ControlPacketType::Shutdown)
                    == Ok::<Header, Error>(k.header.0) && packet.body@.len() >= 4 && k._unused
                    == u32_at(packet.body@, 0),
                Err(e) => header::check_control(packet.header, crate::srt::ControlPacketType::Shutdown)
                    == Err::<Header, Error>(e) || (header::check_control(
                    packet.header,
                    crate::srt::ControlPacketType::Shutdown,
                ) is Ok && packet.body@.len() < 4 && e == Error::UnexpectedEof),
            },
    {
        let header = ShutdownHeader::try_from(packet.header)?;
        let b = packet.body.as_slice();
        if b.len() < 4 {
            return Err(Error::UnexpectedEof);
        }
        Ok(Shutdown { header, _unused: get_u32(b, 0) })
    }
}

/// The body of a drop request: the first and then the last sequence number to drop.
pub open spec fn drop_request_body(first: u32, last: u32) -> Seq<u8> {
    be32(first) + be32(last)
}

/// A request to drop a range of packets of a message.
#[derive(Copy, Clone, Debug)]
pub struct DropRequest {
    pub header: DropRequestHeader,
    pub first_packet_sequence_number: u32,
    pub last_packet_sequence_number: u32,
}

impl DropRequest {
    /// A drop request with a drop request header and zero fields.
    pub fn default() -> (p: Self)
        ensures
            p.header.0 == header::spec_control_header(crate::srt::ControlPacketType::DropReq),
            p.first_packet_sequence_number == 0,
            p.last_packet_sequence_number == 0,
    {
        DropRequest {
            header: DropRequestHeader::default(),
            first_packet_sequence_number: 0,
            last_packet_sequence_number: 0,
        }
    }

    /// Returns a builder for a drop request.
    pub fn builder() -> (b: DropRequestBuilder)
        ensures
            b.0.header.0 == header::spec_control_header(crate::srt::ControlPacketType::DropReq),
            b.0.first_packet_sequence_number == 0,
            b.0.last_packet_sequence_number == 0,
    {
        DropRequestBuilder::new()
    }

    /// The message number, the second header word.
    pub fn message_number(&self) -> (n: u32)
        ensures
            n == self.header.0.seg1,
    {
        self.header.0.seg1
    }

    /// Sets the message number.
    pub fn set_message_number(&mut self, n: u32)
        ensures
            final(self).header.0.seg1 == n,
            final(self).header.0.seg0 == old(self).header.0.seg0,
            final(self).header.0.timestamp == old(self).header.0.timestamp,
            final(self).header.0.destination_socket_id == old(self).header.0.destination_socket_id,
            final(self).first_packet_sequence_number == old(self).first_packet_sequence_number,
            final(self).last_packet_sequence_number == old(self).last_packet_sequence_number,
    {
        self.header.0.seg1 = n;
    }

    /// Converts the packet into a generic packet: the header, then the two sequence numbers.
    pub fn upcast(self) -> (p: Packet)
        ensures
            p.header == self.header.0,
            p.body@ == drop_request_body(self.first_packet_sequence_number, self.last_packet_sequence_number),
    {
        let mut body = Vec::new();
        put_u32(&mut body, self.first_packet_sequence_number);
        put_u32(&mut body, self.last_packet_sequence_number);
        proof {
            assert(body@ =~= be32(self.first_packet_sequence_number) + be32(
                self.last_packet_sequence_number,
            ));
        }
        Packet { header: self.header.0, body }
    }
}

/// A single sequence number, or an inclusive range of sequence numbers.
#[derive(Debug)]
pub enum SequenceNumbers {
    Single(u32),
    Range(RangeInclusive<u32>),
}

/// The mathematical value of [`SequenceNumbers`].
pub ghost enum SeqNumsView {
    Single(u32),
    Range(u32, u32),
}

impl View for SequenceNumbers {
    type V = SeqNumsView;

    open spec fn view(&self) -> SeqNumsView {
        match self {
            SequenceNumbers::Single(n) => SeqNumsView::Single(*n),
            SequenceNumbers::Range(r) => SeqNumsView::Range(r@.start, r@.end),
        }
    }
}

/// Returns the start of an inclusive range.
///
/// Calls `RangeInclusive::start`, which returns the lower bound of the range.
#[verifier::external_body]
fn range_start(r: &RangeInclusive<u32>) -> (s: u32)
    ensures
        s == r@.start,
{
    *r.start()
}

/// Returns the end of an inclusive range.
///
/// Calls `RangeInclusive::end`, which returns the upper bound of the range.
#[verifier::external_body]
fn range_end(r: &RangeInclusive<u32>) -> (e: u32)
    ensures
        e == r@.end,
{
    *r.end()
}

/// The first sequence number of a view.
pub open spec fn seq_first(v: SeqNumsView) -> u32 {
    match v {
        SeqNumsView::Single(n) => n,
        SeqNumsView::Range(s, _) => s,
    }
}

/// The last sequence number of a view.
pub open spec fn seq_last(v: SeqNumsView) -> u32 {
    match v {
        SeqNumsView::Single(n) => n,
        SeqNumsView::Range(_, e) => e,
    }
}

/// The number of bytes that the sequence numbers take on the wire.
pub open spec fn sequence_numbers_size(v: SeqNumsView) -> int {
    match v {
        SeqNumsView::Single(_) => 4,
        SeqNumsView::Range(_, _) => 8,
    }
}

/// The bytes of a list of sequence numbers: a single number with the first bit cleared; a
/// range as its start with the first bit set, then its end with the first bit cleared.
pub open spec fn sequence_numbers_bytes(v: SeqNumsView) -> Seq<u8> {
    match v {
        SeqNumsView::Single(n) => be32(n & 0x7fff_ffffu32),
        SeqNumsView::Range(s, e) => be32(s | 0x8000_0000u32) + be32(e & 0x7fff_ffffu32),
    }
}

/// The result of decoding sequence numbers from the start of `s`: a word with the first bit
/// set starts a range whose end is the next word; otherwise the word is a single number.
pub open spec fn spec_decode_sequence_numbers(s: Seq<u8>) -> Result<(SeqNumsView, int), Error> {
    if s.len() < 4 {
        Err(Error::UnexpectedEof)
    } else if u32_at(s, 0) >> 31u32 == 1 {
        if s.len() < 8 {
            Err(Error::UnexpectedEof)
        } else {
            Ok((SeqNumsView::Range(u32_at(s, 0) & 0x7fff_ffffu32, u32_at(s, 4)), 8))
        }
    } else {
        Ok((SeqNumsView::Single(u32_at(s, 0)), 4))
    }
}

impl SequenceNumbers {
    /// The sequence number 0.
    pub fn default() -> (s: Self)
        ensures
            s == SequenceNumbers::Single(0),
    {
        Self::Single(0)
    }

    /// Returns `true` if `num` is the single number, or lies in the range.
    pub fn contains(&self, num: u32) -> (b: bool)
        ensures
            self matches SequenceNumbers::Single(n) ==> b == (n == num),
            self matches SequenceNumbers::Range(r) ==> b == (r@.start <= num && if r@.exhausted {
                num < r@.end
            } else {
                num <= r@.end
            }),
    {
        match self {
            Self::Single(n) => *n == num,
            Self::Range(range) => range.contains(&num),
        }
    }

    /// Returns the first sequence number.
    pub fn first(&self) -> (n: u32)
        ensures
            n == seq_first(self@),
    {
        match self {
            Self::Single(num) => *num,
            Self::Range(range) => range_start(range),
        }
    }

    /// Returns the last sequence number.
    pub fn last(&self) -> (n: u32)
        ensures
            n == seq_last(self@),
    {
        match self {
            Self::Single(num) => *num,
            Self::Range(range) => range_end(range),
        }
    }

    /// Returns the number of sequence numbers: 1 for a single number, and the count of numbers
    /// from the start to the end, both included, for a range. The range must not be reversed,
    /// and must not hold all `2^32` numbers, whose count does not fit a `u32`.
    pub fn len(&self) -> (n: u32)
        requires
            seq_first(self@) <= seq_last(self@),
            seq_last(self@) - seq_first(self@) < u32::MAX,
        ensures
            self@ is Single ==> n == 1,
            self@ is Range ==> n == seq_last(self@) - seq_first(self@) + 1,
    {
        match self {
            Self::Single(_) => 1,
            Self::Range(range) => range_end(range) - range_start(range) + 1,
        }
    }

    /// Returns an iterator over the sequence numbers from the first to the last.
    pub fn iter(&self) -> (it: SequenceNumbersIter)
        ensures
            it.start == seq_first(self@),
            it.end == seq_last(self@),
    {
        match self {
            Self::Single(num) => SequenceNumbersIter { start: *num as usize, end: *num as usize },
            Self::Range(range) => SequenceNumbersIter {
                start: range_start(range) as usize,
                end: range_end(range) as usize,
            },
        }
    }

    /// Appends the encoded sequence numbers to `buf`.
    pub fn encode(&self, buf: &mut Vec<u8>)
        ensures
            final(buf)@ == old(buf)@ + sequence_numbers_bytes(self@),
    {
        match self {
            Self::Single(num) => {
                put_u32(buf, *num & 0x7fff_ffffu32);
            },
            Self::Range(range) => {
                put_u32(buf, range_start(range) | 0x8000_0000u32);
                put_u32(buf, range_end(range) & 0x7fff_ffffu32);
                proof {
                    assert(final(buf)@ =~= old(buf)@ + sequence_numbers_bytes(self@));
                }
            },
        }
    }

    /// Decodes sequence numbers from the start of `buf`; returns them with the number of bytes
    /// they took.
    pub fn decode(buf: &[u8]) -> (r: Result<(Self, usize), Error>)
        ensures
            match r {
                Ok((v, n)) => spec_decode_sequence_numbers(buf@) == Ok::<(SeqNumsView, int), Error>(
                    (v@, n as int),
                ) && (v matches SequenceNumbers::Range(rg) ==> !rg@.exhausted),
                Err(e) => spec_decode_sequence_numbers(buf@) == Err::<(SeqNumsView, int), Error>(e),
            },
    {
        if buf.len() < 4 {
            return Err(Error::UnexpectedEof);
        }
        let seq = get_u32(buf, 0);
        if seq >> 31u32 == 1 {
            if buf.len() < 8 {
                return Err(Error::UnexpectedEof);
            }
            let start = seq & 0x7fff_ffffu32;
            let end = get_u32(buf, 4);
            Ok((Self::Range(RangeInclusive::new(start, end)), 8))
        } else {
            Ok((Self::Single(seq), 4))
        }
    }
}

/// Decoding the bytes of sequence numbers that fit into 31 bits gives them back, with the
/// number of bytes they took: 4 for a single number, 8 for a range.
pub proof fn lemma_sequence_numbers_roundtrip(v: SeqNumsView, rest: Seq<u8>)
    requires
        v matches SeqNumsView::Single(n) ==> n <= 0x7fff_ffff,
        v matches SeqNumsView::Range(s, e) ==> s <= 0x7fff_ffff && e <= 0x7fff_ffff,
    ensures
        spec_decode_sequence_numbers(sequence_numbers_bytes(v) + rest) == Ok::<
            (SeqNumsView, int),
            Error,
        >((v, sequence_numbers_size(v))),
{
    let b = sequence_numbers_bytes(v) + rest;
    match v {
        SeqNumsView::Single(n) => {
            let w = n & 0x7fff_ffffu32;
            assert(b.subrange(0, 4) =~= be32(w));
            lemma_u32_roundtrip(w, b, 0);
            assert(n <= 0x7fff_ffff ==> n & 0x7fff_ffffu32 == n && (n & 0x7fff_ffffu32) >> 31u32 == 0) by (bit_vector);
        },
        SeqNumsView::Range(s, e) => {
            let w0 = s | 0x8000_0000u32;
            let w1 = e & 0x7fff_ffffu32;
            assert(b.subrange(0, 4) =~= be32(w0));
            assert(b.subrange(4, 8) =~= be32(w1));
            lemma_u32_roundtrip(w0, b, 0);
            lemma_u32_roundtrip(w1, b, 4);
            assert(s <= 0x7fff_ffff ==> (s | 0x8000_0000u32) >> 31u32 == 1 && (s | 0x8000_0000u32)
                & 0x7fff_ffffu32 == s) by (bit_vector);
            assert(e <= 0x7fff_ffff ==> e & 0x7fff_ffffu32 == e) by (bit_vector);
        },
    }
}

impl From<u32> for SequenceNumbers {
    fn from(src: u32) -> (s: Self) {
        Self::Single(src)
    }
}

impl FromSpecImpl<u32> for SequenceNumbers {
    open spec fn obeys_from_spec() -> bool {
        true
    }

    open spec fn from_spec(src: u32) -> Self {
        SequenceNumbers::Single(src)
    }
}

impl From<RangeInclusive<u32>> for SequenceNumbers {
    fn from(src: RangeInclusive<u32>) -> (s: Self) {
        Self::Range(src)
    }
}

impl FromSpecImpl<RangeInclusive<u32>> for SequenceNumbers {
    open spec fn obeys_from_spec() -> bool {
        true
    }

    open spec fn from_spec(src: RangeInclusive<u32>) -> Self {
        SequenceNumbers::Range(src)
    }
}

impl SequenceNumbers {
    /// The sequence numbers of a non-empty half-open range: a single number when it holds one,
    /// else the inclusive range from its start to the number before its end.
    pub fn from_range(src: Range<u32>) -> (s: Self)
        requires
            src.start < src.end,
        ensures
            src.end == src.start + 1 ==> s@ == SeqNumsView::Single(src.start),
            src.end > src.start + 1 ==> s@ == SeqNumsView::Range(src.start, (src.end - 1) as u32)
                && (s matches SequenceNumbers::Range(r) && !r@.exhausted),
    {
        if src.end - src.start == 1 {
            Self::Single(src.start)
        } else {
            Self::Range(RangeInclusive::new(src.start, src.end - 1))
        }
    }
}

impl PartialEq<u32> for SequenceNumbers {
    fn eq(&self, other: &u32) -> (r: bool) {
        match self {
            Self::Single(num) => *num == *other,
            Self::Range(_) => false,
        }
    }
}

impl PartialEqSpecImpl<u32> for SequenceNumbers {
    open spec fn obeys_eq_spec() -> bool {
        true
    }

    open spec fn eq_spec(&self, other: &u32) -> bool {
        self@ == SeqNumsView::Single(*other)
    }
}

impl PartialEq<RangeInclusive<u32>> for SequenceNumbers {
    fn eq(&self, other: &RangeInclusive<u32>) -> (r: bool) {
        match self {
            Self::Single(_) => false,
            Self::Range(range) => range_start(range) == range_start(other) && range_end(range)
                == range_end(other),
        }
    }
}

impl PartialEqSpecImpl<RangeInclusive<u32>> for SequenceNumbers {
    open spec fn obeys_eq_spec() -> bool {
        true
    }

    open spec fn eq_spec(&self, other: &RangeInclusive<u32>) -> bool {
        self@ == SeqNumsView::Range(other@.start, other@.end)
    }
}

/// An iterator over sequence numbers, from `start` up to and including `end`.
#[derive(Clone, Debug)]
pub struct SequenceNumbersIter {
    pub start: usize,
    pub end: usize,
}

impl SequenceNumbersIter {
    /// Returns the next sequence number, or `None` once `start` has passed `end`.
    pub fn next(&mut self) -> (r: Option<u32>)
        requires
            old(self).end < usize::MAX,
        ensures
            old(self).start > old(self).end ==> r is None && *final(self) == *old(self),
            old(self).start <= old(self).end ==> r == Some(old(self).start as u32)
                && final(self).start == old(self).start + 1 && final(self).end == old(self).end,
    {
        if self.start > self.end {
            None
        } else {
            let num = self.start;
            self.start += 1;
            Some(num as u32)
        }
    }

    /// The number of sequence numbers left; the iterator must not have run past its end.
    pub fn len(&self) -> (n: usize)
        requires
            self.start <= self.end < usize::MAX,
        ensures
            n == self.end - self.start + 1,
    {
        self.end - self.start + 1
    }
}

} // verus!
