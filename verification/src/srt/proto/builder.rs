//! Builders of control packets.
use vstd::prelude::*;
use super::{Ack, AckAck, DropRequest, Keepalive, LightAck, Nak, SequenceNumbers, Shutdown, SmallAck};
use super::header;
use crate::srt::ControlPacketType;

verus! {

/// A builder for a [`Keepalive`] packet.
#[derive(Copy, Clone, Debug)]
pub struct KeepaliveBuilder(pub Keepalive);

impl KeepaliveBuilder {
    /// Creates a new `KeepaliveBuilder`.
    pub fn new() -> (b: Self)
        ensures
            b.0.header.0 == header::spec_control_header(ControlPacketType::Keepalive),
            b.0._unused == 0,
    {
        Self(Keepalive::default())
    }

    /// Consumes this `KeepaliveBuilder`, returning the constructed [`Keepalive`] packet.
    pub fn build(self) -> (p: Keepalive)
        ensures
            p == self.0,
    {
        self.0
    }
}

/// A builder for a [`Ack`] packet.
#[derive(Copy, Clone, Debug)]
pub struct AckBuilder(pub Ack);

impl AckBuilder {
    /// Creates a new `AckBuilder`.
    pub fn new() -> (b: Self)
        ensures
            b.0 == Ack::default_value(),
    {
        Self(Ack::default())
    }

    /// Sets the acknowledgement number.
    pub fn acknowledgement_number(self, n: u32) -> (b: Self)
        ensures
            b.0 == (Ack { header: header::AckHeader(crate::srt::Header { seg1: n, ..self.0.header.0 }), ..self.0 }),
    {
        let mut this = self;
        this.0.set_acknowledgement_number(n);
        this
    }

    /// Sets the last acknowledged packet sequence number.
    pub fn last_acknowledged_packet_sequence_number(self, n: u32) -> (b: Self)
        ensures
            b.0 == (Ack { last_acknowledged_packet_sequence_number: n, ..self.0 }),
    {
        let mut this = self;
        this.0.last_acknowledged_packet_sequence_number = n;
        this
    }

    /// Sets the round trip time.
    pub fn rtt(self, n: u32) -> (b: Self)
        ensures
            b.0 == (Ack { rtt: n, ..self.0 }),
    {
        let mut this = self;
        this.0.rtt = n;
        this
    }

    /// Sets the round trip time variance.
    pub fn rtt_variance(self, n: u32) -> (b: Self)
        ensures
            b.0 == (Ack { rtt_variance: n, ..self.0 }),
    {
        let mut this = self;
        this.0.rtt_variance = n;
        this
    }

    /// Sets the available buffer size.
    pub fn avaliable_buffer_size(self, n: u32) -> (b: Self)
        ensures
            b.0 == (Ack { avaliable_buffer_size: n, ..self.0 }),
    {
        let mut this = self;
        this.0.avaliable_buffer_size = n;
        this
    }

    /// Sets the packets receiving rate.
    pub fn packets_receiving_rate(self, n: u32) -> (b: Self)
        ensures
            b.0 == (Ack { packets_receiving_rate: n, ..self.0 }),
    {
        let mut this = self;
        this.0.packets_receiving_rate = n;
        this
    }

    /// Sets the estimated link capacity.
    pub fn estimated_link_capacity(self, n: u32) -> (b: Self)
        ensures
            b.0 == (Ack { estimated_link_capacity: n, ..self.0 }),
    {
        let mut this = self;
        this.0.estimated_link_capacity = n;
        this
    }

    /// Sets the receiving rate.
    pub fn receiving_rate(self, n: u32) -> (b: Self)
        ensures
            b.0 == (Ack { receiving_rate: n, ..self.0 }),
    {
        let mut this = self;
        this.0.receiving_rate = n;
        this
    }

    /// Consumes this `AckBuilder`, returning the constructed [`Ack`] packet.
    pub fn build(self) -> (p: Ack)
        ensures
            p == self.0,
    {
        self.0
    }
}

/// A builder for a [`LightAck`] packet.
#[derive(Copy, Clone, Debug)]
pub struct LightAckBuilder(pub LightAck);

impl LightAckBuilder {
    /// Creates a new `LightAckBuilder`.
    pub fn new() -> (b: Self)
        ensures
            b.0.header.0 == header::spec_control_header(ControlPacketType::Ack),
            b.0.last_acknowledged_packet_sequence_number == 0,
    {
        Self(LightAck::default())
    }

    /// Sets the last acknowledged packet sequence number.
    pub fn last_acknowledged_packet_sequence_number(self, n: u32) -> (b: Self)
        ensures
            b.0 == (LightAck { last_acknowledged_packet_sequence_number: n, ..self.0 }),
    {
        let mut this = self;
        this.0.last_acknowledged_packet_sequence_number = n;
        this
    }

    /// Consumes this `LightAckBuilder`, returning the constructed [`LightAck`] packet.
    pub fn build(self) -> (p: LightAck)
        ensures
            p == self.0,
    {
        self.0
    }
}

/// A builder for a [`SmallAck`] packet.
#[derive(Copy, Clone, Debug)]
pub struct SmallAckBuilder(pub SmallAck);

impl SmallAckBuilder {
    /// Creates a new `SmallAckBuilder`.
    pub fn new() -> (b: Self)
        ensures
            b.0.header.0 == header::spec_control_header(ControlPacketType::Ack),
            b.0.last_acknowledged_packet_sequence_number == 0,
            b.0.rtt == 0,
            b.0.rtt_variance == 0,
            b.0.avaliable_buffer_size == 0,
    {
        Self(SmallAck::default())
    }

    /// Sets the last acknowledged packet sequence number.
    pub fn last_acknowledged_packet_sequence_number(self, n: u32) -> (b: Self)
        ensures
            b.0 == (SmallAck { last_acknowledged_packet_sequence_number: n, ..self.0 }),
    {
        let mut this = self;
        this.0.last_acknowledged_packet_sequence_number = n;
        this
    }

    /// Sets the round trip time.
    pub fn rtt(self, n: u32) -> (b: Self)
        ensures
            b.0 == (SmallAck { rtt: n, ..self.0 }),
    {
        let mut this = self;
        this.0.rtt = n;
        this
    }

    /// Sets the round trip time variance.
    pub fn rtt_variance(self, n: u32) -> (b: Self)
        ensures
            b.0 == (SmallAck { rtt_variance: n, ..self.0 }),
    {
        let mut this = self;
        this.0.rtt_variance = n;
        this
    }

    /// Consumes this `SmallAckBuilder`, returning the constructed [`SmallAck`] packet.
    pub fn build(self) -> (p: SmallAck)
        ensures
            p == self.0,
    {
        self.0
    }
}

/// A builder for a [`AckAck`] packet.
#[derive(Copy, Clone, Debug)]
pub struct AckAckBuilder(pub AckAck);

impl AckAckBuilder {
    /// Creates a new `AckAckBuilder`.
    pub fn new() -> (b: Self)
        ensures
            b.0.header == crate::srt::handshake::zero_header(),
            b.0._unused == 0,
    {
        Self(AckAck::default())
    }

    /// Sets the acknowledgement number.
    pub fn acknowledgement_number(self, n: u32) -> (b: Self)
        ensures
            b.0 == (AckAck { header: crate::srt::Header { seg1: n, ..self.0.header }, ..self.0 }),
    {
        let mut this = self;
        this.0.set_acknowledgement_number(n);
        this
    }

    /// Consumes this `AckAckBuilder`, returning the constructed [`AckAck`] packet.
    pub fn build(self) -> (p: AckAck)
        ensures
            p == self.0,
    {
        self.0
    }
}

/// A builder for a [`Nak`] packet.
#[derive(Debug)]
pub struct NakBuilder(pub Nak);

impl NakBuilder {
    /// Creates a new `NakBuilder`.
    pub fn new() -> (b: Self)
        ensures
            b.0.header == crate::srt::handshake::zero_header(),
            b.0.lost_packet_sequence_numbers == SequenceNumbers::Single(0),
    {
        Self(Nak::default())
    }

    /// Reports a single lost sequence number.
    pub fn lost_packet_sequence_number(self, n: u32) -> (b: Self)
        ensures
            b.0.header == self.0.header,
            b.0.lost_packet_sequence_numbers == SequenceNumbers::Single(n),
    {
        let mut this = self;
        this.0.set_lost_packet_sequence_number(n);
        this
    }

    /// Reports the given lost sequence numbers.
    pub fn lost_packet_sequence_numbers(self, seq: SequenceNumbers) -> (b: Self)
        ensures
            b.0.header == self.0.header,
            b.0.lost_packet_sequence_numbers == seq,
    {
        let mut this = self;
        this.0.set_lost_packet_sequence_numbers(seq);
        this
    }

    /// Consumes this `NakBuilder`, returning the constructed [`Nak`] packet.
    pub fn build(self) -> (p: Nak)
        ensures
            p == self.0,
    {
        self.0
    }
}

/// A builder for a [`Shutdown`] packet.
#[derive(Copy, Clone, Debug)]
pub struct ShutdownBuilder(pub Shutdown);

impl ShutdownBuilder {
    /// Creates a new `ShutdownBuilder`.
    pub fn new() -> (b: Self)
        ensures
            b.0.header.0 == header::spec_control_header(ControlPacketType::Shutdown),
            b.0._unused == 0,
    {
        Self(Shutdown::default())
    }

    /// Consumes this `ShutdownBuilder`, returning the constructed [`Shutdown`] packet.
    pub fn build(self) -> (p: Shutdown)
        ensures
            p == self.0,
    {
        self.0
    }
}

/// A builder for a [`DropRequest`] packet.
#[derive(Copy, Clone, Debug)]
pub struct DropRequestBuilder(pub DropRequest);

impl DropRequestBuilder {
    /// Creates a new `DropRequestBuilder`.
    pub fn new() -> (b: Self)
        ensures
            b.0.header.0 == header::spec_control_header(ControlPacketType::DropReq),
            b.0.first_packet_sequence_number == 0,
            b.0.last_packet_sequence_number == 0,
    {
        Self(DropRequest::default())
    }

    /// Sets the message number.
    pub fn message_number(self, n: u32) -> (b: Self)
        ensures
            b.0 == (DropRequest { header: header::DropRequestHeader(crate::srt::Header { seg1: n, ..self.0.header.0 }), ..self.0 }),
    {
        let mut this = self;
        this.0.set_message_number(n);
        this
    }

    /// Sets the first packet sequence number.
    pub fn first_packet_sequence_number(self, n: u32) -> (b: Self)
        ensures
            b.0 == (DropRequest { first_packet_sequence_number: n, ..self.0 }),
    {
        let mut this = self;
        this.0.first_packet_sequence_number = n;
        this
    }

    /// Sets the last packet sequence number.
    pub fn last_packet_sequence_number(self, n: u32) -> (b: Self)
        ensures
            b.0 == (DropRequest { last_packet_sequence_number: n, ..self.0 }),
    {
        let mut this = self;
        this.0.last_packet_sequence_number = n;
        this
    }

    /// Consumes this `DropRequestBuilder`, returning the constructed [`DropRequest`] packet.
    pub fn build(self) -> (p: DropRequest)
        ensures
            p == self.0,
    {
        self.0
    }
}

} // verus!
