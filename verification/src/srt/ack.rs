//! Acknowledgements on the shared-state path: answering an ACK, taking in an ACKACK, and the
//! periodic ACK.
use vstd::prelude::*;
use super::Header;
use super::conn::{AckQueue, Rtt, elapsed_u32};
use super::handshake::zero_header;
use super::proto::{Ack, AckAck};
use super::proto::header::{AckHeader, spec_control_header};
use super::ControlPacketType;

verus! {

/// Answers an ACK: the peer's available buffer size replaces `buffers_avail`; the result is
/// the ACKACK of the ACK's number, and whether waiters must be woken because buffer space
/// appeared where there was none.
pub fn ack(packet: &Ack, buffers_avail: &mut u32) -> (r: (AckAck, bool))
    ensures
        *final(buffers_avail) == packet.avaliable_buffer_size,
        r.0.header == (Header { seg1: packet.header.0.seg1, ..zero_header() }),
        r.0._unused == 0,
        r.1 == (packet.avaliable_buffer_size > 0 && *old(buffers_avail) == 0),
{
    let acknum = packet.acknowledgement_number();
    let avaliable_buffer_size = packet.avaliable_buffer_size;
    let old = *buffers_avail;
    *buffers_avail = avaliable_buffer_size;
    let wake = avaliable_buffer_size > 0 && old == 0;
    let ackack = AckAck::builder().acknowledgement_number(acknum).build();
    (ackack, wake)
}

/// The time at which the last acknowledgement numbered `ackno` in `s` was sent.
pub open spec fn last_sent(s: Seq<(u32, u64)>, ackno: u32) -> Option<u64>
    decreases s.len(),
{
    if s.len() == 0 {
        None
    } else if s.last().0 == ackno {
        Some(s.last().1)
    } else {
        last_sent(s.drop_last(), ackno)
    }
}

/// Takes in an ACKACK at `now`: every in-flight acknowledgement leaves the queue, and the
/// round trip time sample is the time since the last one with the ACKACK's number was sent.
pub fn ackack(packet: &AckAck, inflight_acks: &mut AckQueue, now: u64) -> (r: Option<u32>)
    ensures
        final(inflight_acks).inner@.len() == 0,
        r == match last_sent(old(inflight_acks).inner@, packet.header.seg1) {
            Some(ts) => Some(elapsed_u32(ts, now)),
            None => None::<u32>,
        },
{
    let ackno = packet.acknowledgement_number();
    let mut time_sent: Option<u64> = None;
    let ghost all = inflight_acks.inner@;
    let ghost mut taken: int = 0;
    proof {
        assert(all.take(0) =~= Seq::<(u32, u64)>::empty());
    }
    loop
        invariant
            0 <= taken <= all.len(),
            inflight_acks.inner@ == all.skip(taken),
            all == old(inflight_acks).inner@,
            ackno == packet.header.seg1,
            time_sent == last_sent(all.take(taken), ackno),
        ensures
            inflight_acks.inner@.len() == 0,
            time_sent == last_sent(all, ackno),
        decreases inflight_acks.inner@.len(),
    {
        match inflight_acks.pop_front() {
            Some((seq, ts)) => {
                proof {
                    assert(all.take(taken + 1).drop_last() =~= all.take(taken));
                    assert(all.take(taken + 1).last() == (seq, ts));
                    taken = taken + 1;
                    assert(inflight_acks.inner@ =~= all.skip(taken));
                }
                if ackno == seq {
                    time_sent = Some(ts);
                }
            },
            None => {
                proof {
                    assert(all.take(taken) =~= all);
                }
                break;
            },
        }
    }
    match time_sent {
        Some(ts) => {
            let rtt: u32 = if now >= ts { (now - ts) as u32 } else { 0 };
            Some(rtt)
        },
        None => None,
    }
}

/// The periodic ACK that `send_ack` sends.
pub open spec fn periodic_ack(client_seqnum: u32, rtt: Rtt, server_seqnum: u32, client_socket_id: u32, timestamp: u32) -> Ack {
    Ack {
        header: AckHeader(
            Header {
                seg1: server_seqnum,
                timestamp,
                destination_socket_id: client_socket_id,
                ..spec_control_header(ControlPacketType::Ack)
            },
        ),
        last_acknowledged_packet_sequence_number: client_seqnum,
        rtt: rtt.rtt,
        rtt_variance: rtt.rtt_variance,
        avaliable_buffer_size: 5000,
        packets_receiving_rate: 0,
        estimated_link_capacity: 0,
        receiving_rate: 0,
    }
}

/// Builds the periodic ACK at `now`: it acknowledges up to the client's sequence number,
/// reports the round trip time, takes the next server sequence number (which wraps around),
/// and is recorded as in flight.
pub fn send_ack(
    client_seqnum: u32,
    rtt: Rtt,
    server_sequence_number: &mut u32,
    inflight_acks: &mut AckQueue,
    client_socket_id: u32,
    timestamp: u32,
    now: u64,
) -> (r: Ack)
    ensures
        r == periodic_ack(client_seqnum, rtt, *old(server_sequence_number), client_socket_id, timestamp),
        *final(server_sequence_number) == vstd::wrapping::u32_specs::wrapping_add(*old(server_sequence_number), 1),
        final(inflight_acks).inner@ == old(inflight_acks).inner@.push((*old(server_sequence_number), now)),
{
    let mut ack = Ack::builder()
        .last_acknowledged_packet_sequence_number(client_seqnum)
        .rtt(rtt.rtt)
        .rtt_variance(rtt.rtt_variance)
        .avaliable_buffer_size(5000)
        .build();
    let seq = *server_sequence_number;
    *server_sequence_number = seq.wrapping_add(1);
    ack.set_acknowledgement_number(seq);
    ack.header.0.destination_socket_id = client_socket_id;
    ack.header.0.timestamp = timestamp;
    inflight_acks.push_back(seq, now);
    ack
}

} // verus!
