//! Answering a NAK on the shared-state path, where lost packets are not retransmitted.
use vstd::prelude::*;
use super::proto::{DropRequest, Nak, seq_first, seq_last};
use super::proto::header::spec_control_header;
use super::ControlPacketType;

verus! {

/// Answers a NAK with a drop request for everything it lists.
pub fn nak(packet: &Nak) -> (r: DropRequest)
    ensures
        r.header.0 == spec_control_header(ControlPacketType::DropReq),
        r.first_packet_sequence_number == seq_first(packet.lost_packet_sequence_numbers@),
        r.last_packet_sequence_number == seq_last(packet.lost_packet_sequence_numbers@),
{
    DropRequest::builder()
        .message_number(0)
        .first_packet_sequence_number(packet.lost_packet_sequence_numbers.first())
        .last_packet_sequence_number(packet.lost_packet_sequence_numbers.last())
        .build()
}

} // verus!
