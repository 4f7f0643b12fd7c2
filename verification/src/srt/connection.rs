//! The decisions of one SRT connection: how it answers each packet, what it sends on each
//! timer tick, and how it leaves. The caller owns the socket, the timer and the sessions: it
//! hands each event to a [`Connection`] together with the current time, sends what the
//! connection queues, and carries out the returned [`Action`].
use vstd::prelude::*;
use crate::codec::be32;
use super::{ControlHeader, DataPacket, Header, Packet, PacketPosition, PacketType, low31, copy_range, packet_wire_size};
use crate::codec::u32_at;
use super::handshake::{handshake_type_not_cut, spec_decode_handshake_fields};
use super::proto::spec_decode_sequence_numbers;
use super::conn::{LossList, Rtt, TransmissionQueue, ascending, elapsed_u32, expired_prefix, seqs_of};
use super::proto::{Ack, AckAck, DropRequest, Keepalive, Nak, Shutdown, seq_first,
    seq_last, ack_body, ack_from_body, drop_request_body};
use super::proto::header::{spec_control_header, AckHeader};
use super::buffer::lemma_history_len;
use super::stream::{SrtStream, lemma_lookup_finds_sent, pushed, spec_lookup};
use super::utils::{Sequence, precedes, wrap_add};
use super::proto::SeqNumsView;
use super::ControlPacketType;
use super::handshake::{HandshakePacket, HandshakeType, HandshakeView, handshake_body_bytes, zero_header};
use super::extension::{ContentView, ExtensionContent, ExtensionField, ExtensionType, ExtensionView,
    HandshakeExtension, HandshakeExtensionMessage, first_hsreq, first_stream_id,
    lemma_first_hsreq_bound, lemma_first_stream_id_bound};
use super::streamid::{StreamIdView, bytes_equal, parse_resource_id, spec_parse_stream_id, spec_resource_id};
use super::utils::message::MessageNumber;
use super::metrics::{ConnectionMetrics, lost, received, sent};
use vstd::utf8::encode_utf8;

verus! {

/// What a connection is doing: waiting for the conclusion of the handshake, receiving a
/// published stream, or sending a requested one.
pub enum ConnectionMode {
    Induction { syn_cookie: u32 },
    Publish,
    Request { stream: SrtStream, message_number: u32 },
}

impl ConnectionMode {
    /// Returns `true` while the peer publishes a stream.
    pub fn is_publish(&self) -> (b: bool)
        ensures
            b == self is Publish,
    {
        match self {
            ConnectionMode::Publish => true,
            _ => false,
        }
    }

    /// Returns `true` while the peer requests a stream.
    pub fn is_request(&self) -> (b: bool)
        ensures
            b == self is Request,
    {
        match self {
            ConnectionMode::Request { .. } => true,
            _ => false,
        }
    }
}

/// Which kind of work the caller's poll loop is in.
#[derive(Copy, Clone, Debug, PartialEq, Eq, Structural)]
pub enum PollState {
    Read,
    Write,
    WriteSink,
    Close,
    Closed,
}

/// What the caller must do after an event, besides sending the queued packets.
pub enum Action {
    /// Nothing more.
    Nothing,
    /// Feed the data packet to the output sink of the published stream.
    Deliver(DataPacket),
    /// Close the output sink of the published stream.
    CloseSink,
    /// Feed this round trip time sample, in microseconds, to [`Rtt`].
    RttSample(u32),
    /// Count this many data packets as lost.
    PacketsLost(usize),
    /// Start sending the resource with this id to the peer.
    StartRequest(u64),
    /// Start receiving a stream for the resource with this id.
    StartPublish(u64),
}

/// The state of one SRT connection.
pub struct Connection {
    pub server_socket_id: u32,
    pub client_socket_id: u32,
    /// Time of the first sent packet.
    pub start_time: u64,
    pub server_sequence_number: u32,
    pub client_sequence_number: u32,
    pub mode: ConnectionMode,
    pub inflight_acks: LossList,
    pub loss_list: LossList,
    pub rtt: Rtt,
    /// Time of the last packet received from the peer.
    pub last_time: u64,
    pub poll_state: PollState,
    /// Maximum transmission unit.
    pub mtu: u16,
    pub queue: TransmissionQueue,
    /// The statistics of the packets sent, received and lost.
    pub metrics: ConnectionMetrics,
}

/// Microseconds from `from` to `now`; 0 when `now` is earlier.
pub open spec fn elapsed_u64(from: u64, now: u64) -> int {
    if now >= from {
        now - from
    } else {
        0
    }
}

/// The header `h` as the connection sends it at `now`: with the connection's timestamp and the
/// peer's socket id.
pub open spec fn stamp(c: Connection, now: u64, h: Header) -> Header {
    Header { timestamp: elapsed_u32(c.start_time, now), destination_socket_id: c.client_socket_id, ..h }
}

/// The header and the body of a packet.
pub open spec fn pkt_view(p: Packet) -> (Header, Seq<u8>) {
    (p.header, p.body@)
}

/// `n` has the packets of `o` in its default queue and one more, with header `h` and body
/// `body`; the priority queue is unchanged.
pub open spec fn queued(o: Connection, n: Connection, h: Header, body: Seq<u8>) -> bool {
    &&& n.queue.prio@ == o.queue.prio@
    &&& n.queue.queue@.len() == o.queue.queue@.len() + 1
    &&& n.queue.queue@.drop_last() == o.queue.queue@
    &&& n.queue.queue@.last().header == h
    &&& n.queue.queue@.last().body@ == body
}

/// The fields that no handler changes: the identity, the timing base, the MTU and the
/// statistics (which are counted where packets come in and go out).
pub open spec fn fixed(o: Connection, n: Connection) -> bool {
    &&& n.server_socket_id == o.server_socket_id
    &&& n.client_socket_id == o.client_socket_id
    &&& n.start_time == o.start_time
    &&& n.mtu == o.mtu
    &&& n.metrics == o.metrics
}

/// Everything but the queue is unchanged.
pub open spec fn same_but_queue(o: Connection, n: Connection) -> bool {
    &&& fixed(o, n)
    &&& n.server_sequence_number == o.server_sequence_number
    &&& n.client_sequence_number == o.client_sequence_number
    &&& n.mode == o.mode
    &&& n.inflight_acks == o.inflight_acks
    &&& n.loss_list == o.loss_list
    &&& n.rtt == o.rtt
    &&& n.last_time == o.last_time
    &&& n.poll_state == o.poll_state
}

/// The header of a data packet that the connection sends: sequence number `seq`, message
/// number `msg`, in order, a full message; retransmitted or not.
pub open spec fn data_header(seq: u32, msg: u32, retransmitted: bool) -> Header {
    Header {
        seg0: seq & 0x7fff_ffffu32,
        seg1: if retransmitted {
            0xE400_0000u32 | (msg & 0x3ff_ffffu32)
        } else {
            0xE000_0000u32 | (msg & 0x3ff_ffffu32)
        },
        timestamp: 0,
        destination_socket_id: 0,
    }
}

/// The shutdown packet that [`Connection::close`] sends, and what it makes of the state.
pub open spec fn closed(o: Connection, n: Connection, now: u64, action: Action) -> bool {
    &&& fixed(o, n)
    &&& n.server_sequence_number == o.server_sequence_number
    &&& n.client_sequence_number == o.client_sequence_number
    &&& n.mode == o.mode
    &&& n.inflight_acks == o.inflight_acks
    &&& n.loss_list == o.loss_list
    &&& n.rtt == o.rtt
    &&& n.last_time == o.last_time
    &&& queued(o, n, stamp(o, now, spec_control_header(ControlPacketType::Shutdown)), be32(0))
    &&& (o.mode is Publish ==> n.poll_state == PollState::Close && action is CloseSink)
    &&& (!(o.mode is Publish) ==> n.poll_state == PollState::Closed && action is Nothing)
}

/// The number of packets per second over `timespan` seconds.
pub open spec fn rate(count: u64, timespan: u32) -> u32 {
    if timespan == 0 {
        0
    } else {
        ((count as u32) / timespan) as u32
    }
}

/// The whole seconds from `start` to `now`, truncated to 32 bits.
pub open spec fn timespan(start: u64, now: u64) -> u32 {
    (elapsed_u64(start, now) / 1_000_000) as u32
}

/// The acknowledgement that a tick sends, with rates from the data received so far.
pub open spec fn tick_ack(c: Connection, now: u64) -> Ack {
    let packets_recv = c.metrics.data_packets_recv.original.value;
    let bytes_recv = c.metrics.data_bytes_recv.original.value;
    Ack {
        header: AckHeader(
            Header { seg1: c.server_sequence_number, ..spec_control_header(ControlPacketType::Ack) },
        ),
        last_acknowledged_packet_sequence_number: c.client_sequence_number,
        rtt: c.rtt.rtt,
        rtt_variance: c.rtt.rtt_variance,
        avaliable_buffer_size: 8192,
        packets_receiving_rate: rate(packets_recv, timespan(c.start_time, now)),
        estimated_link_capacity: rate(packets_recv, timespan(c.start_time, now)),
        receiving_rate: rate(bytes_recv, timespan(c.start_time, now)),
    }
}

/// The peer has been silent for at least 15 seconds.
pub open spec fn timed_out(c: Connection, now: u64) -> bool {
    elapsed_u64(c.last_time, now) >= 15_000_000
}

/// The lost sequence numbers that a data packet with `seqnum` records, inserted at `now`.
pub open spec fn newly_lost(client: u32, seqnum: u32, now: u64) -> Seq<(u32, u64)> {
    Seq::new(
        (if client < seqnum { seqnum - client } else { 0 }) as nat,
        |i: int| ((client + i) as u32, now),
    )
}

/// Every field of `n` equals that of `o`, but for the in-flight acknowledgements.
pub open spec fn same_but_acks(o: Connection, n: Connection) -> bool {
    &&& fixed(o, n)
    &&& n.server_sequence_number == o.server_sequence_number
    &&& n.client_sequence_number == o.client_sequence_number
    &&& n.mode == o.mode
    &&& n.loss_list == o.loss_list
    &&& n.rtt == o.rtt
    &&& n.last_time == o.last_time
    &&& n.poll_state == o.poll_state
    &&& n.queue == o.queue
}

/// A keep-alive is answered with a keep-alive.
pub open spec fn keepalive_effect(o: Connection, n: Connection, now: u64, r: Result<Action, super::Error>) -> bool {
    &&& same_but_queue(o, n)
    &&& queued(o, n, stamp(o, now, spec_control_header(ControlPacketType::Keepalive)), be32(0))
    &&& r == Ok::<Action, super::Error>(Action::Nothing)
}

/// A shutdown closes the connection.
pub open spec fn shutdown_effect(o: Connection, n: Connection, now: u64, r: Result<Action, super::Error>) -> bool {
    r matches Ok(a) && closed(o, n, now, a)
}

/// The acknowledgement of the full acknowledgement `ackno` takes it out of the in-flight list
/// and gives the time since it was sent as a round trip time sample; an unknown number changes
/// nothing.
pub open spec fn ackack_effect(o: Connection, n: Connection, ackno: u32, now: u64, r: Result<Action, super::Error>) -> bool {
    &&& same_but_acks(o, n)
    &&& (!seqs_of(o.inflight_acks@).contains(ackno) ==> r == Ok::<Action, super::Error>(Action::Nothing)
        && n.inflight_acks@ == o.inflight_acks@)
    &&& (seqs_of(o.inflight_acks@).contains(ackno) ==> exists|i: int|
        0 <= i < o.inflight_acks@.len() && o.inflight_acks@[i].0 == ackno && n.inflight_acks@
            == o.inflight_acks@.remove(i) && r == Ok::<Action, super::Error>(
            Action::RttSample(elapsed_u32(o.inflight_acks@[i].1, now)),
        ))
}

/// An acknowledgement from a peer that requests a stream sets the round trip time to the one
/// it reports and is answered with an ACKACK of its number; otherwise nothing changes.
pub open spec fn ack_effect(o: Connection, n: Connection, p: Ack, now: u64, r: Result<Action, super::Error>) -> bool {
    &&& r == Ok::<Action, super::Error>(Action::Nothing)
    &&& (o.mode is Request ==> n.rtt == (Rtt { rtt: p.rtt, rtt_variance: p.rtt_variance })
        && same_but_queue(o, Connection { rtt: o.rtt, ..n })
        && queued(o, n, stamp(o, now, Header { seg1: p.header.0.seg1, ..zero_header() }), be32(0)))
    &&& (!(o.mode is Request) ==> n == o)
}

/// A data packet from a publishing peer goes to the output sink; the loss list and the next
/// expected sequence number follow its sequence number. From other peers it changes nothing.
pub open spec fn data_effect(o: Connection, n: Connection, h: Header, data: Seq<u8>, now: u64, r: Result<Action, super::Error>) -> bool {
    &&& (!(o.mode is Publish) ==> n == o && r == Ok::<Action, super::Error>(Action::Nothing))
    &&& (o.mode is Publish ==> {
        let seqnum = low31(h.seg0);
        &&& fixed(o, n)
        &&& n.server_sequence_number == o.server_sequence_number
        &&& n.mode == o.mode
        &&& n.inflight_acks == o.inflight_acks
        &&& n.rtt == o.rtt
        &&& n.last_time == o.last_time
        &&& n.queue == o.queue
        &&& n.poll_state == PollState::WriteSink
        &&& n.client_sequence_number == (if o.client_sequence_number <= seqnum { seqnum + 1 } else {
            o.client_sequence_number as int
        })
        &&& (r matches Ok(Action::Deliver(q)) && q.header == h && q.data@ == data)
        &&& (o.client_sequence_number == seqnum ==> n.loss_list@ == o.loss_list@)
        &&& (o.client_sequence_number != seqnum && seqs_of(o.loss_list@).contains(seqnum)
            ==> exists|i: int| 0 <= i < o.loss_list@.len() && o.loss_list@[i].0 == seqnum
            && n.loss_list@ == o.loss_list@.remove(i))
        &&& (o.client_sequence_number != seqnum && !seqs_of(o.loss_list@).contains(seqnum)
            ==> n.loss_list@ == o.loss_list@ + newly_lost(o.client_sequence_number, seqnum, now))
    })
}

/// The sequence numbers that a NAK lists, in order.
pub open spec fn nak_seqs(v: SeqNumsView) -> Seq<u32> {
    let a = seq_first(v);
    let b = seq_last(v);
    Seq::new(if a <= b { (b - a + 1) as nat } else { 0 }, |i: int| (a + i) as u32)
}

/// The retransmissions, as header and payload, that a NAK listing `ks` sends: one for each
/// number whose payload the stream still holds.
pub open spec fn nak_resends(c: Connection, now: u64, st: SrtStream, ks: Seq<u32>) -> Seq<(Header, Seq<u8>)>
    decreases ks.len(),
{
    if ks.len() == 0 {
        Seq::empty()
    } else {
        let prev = nak_resends(c, now, st, ks.drop_last());
        match spec_lookup(st, ks.last()) {
            Some(item) => prev.push((stamp(c, now, data_header(ks.last(), 0, true)), item.0)),
            None => prev,
        }
    }
}

/// The number of listed sequence numbers whose payload the stream no longer holds.
pub open spec fn nak_misses(st: SrtStream, ks: Seq<u32>) -> nat
    decreases ks.len(),
{
    if ks.len() == 0 {
        0
    } else {
        nak_misses(st, ks.drop_last()) + if spec_lookup(st, ks.last()) is None { 1nat } else { 0nat }
    }
}

/// The drop request that answers a NAK for payloads that are gone.
pub open spec fn drop_request_view(c: Connection, now: u64, v: SeqNumsView) -> (Header, Seq<u8>) {
    (stamp(c, now, spec_control_header(ControlPacketType::DropReq)), drop_request_body(seq_first(v), seq_last(v)))
}

/// A NAK to a connection that sends a requested stream retransmits, ahead of everything else,
/// each listed packet that the stream still holds, and queues a drop request for each one it
/// no longer holds. Other connections ignore it.
pub open spec fn nak_effect(o: Connection, n: Connection, v: SeqNumsView, now: u64, r: Result<Action, super::Error>) -> bool {
    &&& r == Ok::<Action, super::Error>(Action::Nothing)
    &&& (!(o.mode is Request) ==> n == o)
    &&& (o.mode matches ConnectionMode::Request { stream, .. } ==> {
        &&& same_but_queue(o, n)
        &&& n.queue.prio@.map_values(|p: Packet| pkt_view(p)) == o.queue.prio@.map_values(|p: Packet| pkt_view(p))
            + nak_resends(o, now, stream, nak_seqs(v))
        &&& n.queue.queue@.map_values(|p: Packet| pkt_view(p)) == o.queue.queue@.map_values(|p: Packet| pkt_view(p))
            + Seq::new(nak_misses(stream, nak_seqs(v)), |i: int| drop_request_view(o, now, v))
    })
}

/// What a timer tick does: after 15 silent seconds the connection closes; a connection that
/// receives a published stream gives up the lost packets that waited two round trip times and
/// counts them as lost, sends an acknowledgement and records it as in flight; other
/// connections do nothing.
pub open spec fn tick_effect(o: Connection, n: Connection, now: u64, r: Result<Action, super::Error>) -> bool {
    if timed_out(o, now) {
        r matches Ok(a) && closed(o, n, now, a)
    } else if o.mode is Publish {
        let gone = expired_prefix(o.loss_list@, (o.rtt.rtt * 2) as u32, now);
        let ack = tick_ack(o, now);
        &&& fixed(o, Connection { metrics: o.metrics, ..n })
        &&& n.metrics == lost(o.metrics, gone as u64, o.mtu as u32)
        &&& n.client_sequence_number == o.client_sequence_number
        &&& n.mode == o.mode
        &&& n.rtt == o.rtt
        &&& n.last_time == o.last_time
        &&& n.poll_state == o.poll_state
        &&& n.loss_list@ == o.loss_list@.skip(gone as int)
        &&& n.inflight_acks@ == o.inflight_acks@.push((o.server_sequence_number, now))
        &&& n.server_sequence_number == o.server_sequence_number + 1
        &&& queued(o, n, stamp(o, now, ack.header.0), ack_body(ack))
        &&& r == Ok::<Action, super::Error>(Action::PacketsLost(gone as usize))
    } else {
        n == o && r == Ok::<Action, super::Error>(Action::Nothing)
    }
}

/// The data packet for the next payload of a requested stream, sent at `now`: it carries the
/// connection's next sequence number and message number.
pub open spec fn stream_item_effect(o: Connection, n: Connection, payload: Seq<u8>, now: u64) -> bool {
    o.mode matches ConnectionMode::Request { stream, message_number } ==> {
        &&& fixed(o, n)
        &&& n.client_sequence_number == o.client_sequence_number
        &&& n.inflight_acks == o.inflight_acks
        &&& n.loss_list == o.loss_list
        &&& n.rtt == o.rtt
        &&& n.last_time == o.last_time
        &&& n.poll_state == o.poll_state
        &&& n.server_sequence_number == o.server_sequence_number + 1
        &&& (n.mode matches ConnectionMode::Request { stream: s2, message_number: m2 }
            && m2 == message_number + 1 && pushed(stream, s2, payload, now))
        &&& queued(o, n, stamp(o, now, data_header(o.server_sequence_number, message_number, false)), payload)
    }
}

/// The bytes of the stream id mode `request`.
pub open spec fn request_bytes() -> Seq<u8> {
    seq![0x72u8, 0x65u8, 0x71u8, 0x75u8, 0x65u8, 0x73u8, 0x74u8]
}

/// The bytes of the stream id mode `publish`.
pub open spec fn publish_bytes() -> Seq<u8> {
    seq![0x70u8, 0x75u8, 0x62u8, 0x6cu8, 0x69u8, 0x73u8, 0x68u8]
}

/// The resource id that a stream id names, if it names a hex one.
pub open spec fn resource_of(sid: StreamIdView) -> Option<u64> {
    match sid.resource {
        Some(r) => spec_resource_id(r),
        None => None,
    }
}

/// A conclusion handshake is accepted in the INDUCTION phase with version 5, no encryption and
/// the cookie that the connection handed out.
pub open spec fn handshake_accepted(c: Connection, v: HandshakeView) -> bool {
    c.mode matches ConnectionMode::Induction { syn_cookie } && v.version == 5 && v.encryption_field
        == 0 && v.syn_cookie == syn_cookie
}

/// The extensions after answering the first HSREQ: it is removed, and an HSRSP of length 3
/// with the sender delay set to the receiver delay is appended.
pub open spec fn hsrsp_extensions(es: Seq<ExtensionView>) -> Seq<ExtensionView> {
    let i = first_hsreq(es);
    if i < es.len() {
        let m = es[i].content->Handshake_0;
        es.remove(i).push(
            ExtensionView {
                extension_type: ExtensionType::HsRsp,
                extension_length: 3,
                content: ContentView::Handshake(
                    HandshakeExtensionMessage { sender_tsbpd_delay: m.receiver_tsbpd_delay, ..m },
                ),
            },
        )
    } else {
        es
    }
}

/// The reply to an accepted handshake before the stream id is taken out: no cookie, the
/// server's socket id and initial sequence number, and the HSREQ answered.
pub open spec fn reply_base(c: Connection, v: HandshakeView) -> HandshakeView {
    HandshakeView {
        syn_cookie: 0,
        srt_socket_id: c.server_socket_id,
        initial_packet_sequence_number: c.server_sequence_number,
        extension_field: if first_hsreq(v.extensions) < v.extensions.len() { 1 } else { v.extension_field },
        extensions: hsrsp_extensions(v.extensions),
        ..v
    }
}

/// `n` is `o` sending the requested stream: a fresh stream of 8192 payloads starting at the
/// client's sequence number, message number 1.
pub open spec fn request_started(o: Connection, n: Connection) -> bool {
    &&& same_but_queue(o, Connection { mode: o.mode, ..n })
    &&& n.mode matches ConnectionMode::Request { stream, message_number } && message_number == 1
        && stream.wf() && stream.buffer.spec_size() == 8192 && stream.buffer.spec_head() == 0
        && stream.buffer.history().len() == 0 && stream.initial_sequence_number == Sequence(
        o.client_sequence_number,
    ) && stream.next_message_number == MessageNumber(1) && stream.start_time == o.start_time
}

/// The stream id of a handshake names what the peer wants: a resource id in hex, a session
/// and the mode `request` or `publish`; all three are required.
pub open spec fn stream_id_complete(sid: StreamIdView) -> bool {
    &&& resource_of(sid) is Some
    &&& sid.session is Some
    &&& (sid.mode == Some(request_bytes()) || sid.mode == Some(publish_bytes()))
}

/// The rejection of a rogue peer: the reply with the handshake type `RejectRogue` goes out,
/// and the connection stays in the handshake phase.
pub open spec fn rejected(o: Connection, n: Connection, h: Header, reply: HandshakeView, r: Result<Action, super::Error>) -> bool {
    &&& same_but_queue(o, n)
    &&& queued(o, n, h, handshake_body_bytes(HandshakeView { handshake_type: HandshakeType::RejectRogue, ..reply }))
    &&& r == Ok::<Action, super::Error>(Action::Nothing)
}

/// What a handshake does to a connection. One that is not accepted changes nothing. An
/// accepted one without a stream id, with one that does not parse, or with one that lacks a
/// required key or names no known mode, is rejected as rogue. Otherwise the reply, without
/// the stream id, goes out: a request starts sending the resource, a publish starts
/// receiving it.
pub open spec fn handshake_effect(o: Connection, n: Connection, v: HandshakeView, now: u64, r: Result<Action, super::Error>) -> bool {
    let b = reply_base(o, v);
    let j = first_stream_id(b.extensions);
    let h = stamp(o, now, v.header);
    if !handshake_accepted(o, v) {
        n == o && r == Ok::<Action, super::Error>(Action::Nothing)
    } else if j >= b.extensions.len() {
        rejected(o, n, h, b, r)
    } else {
        let reply = HandshakeView { extensions: b.extensions.remove(j), ..b };
        match spec_parse_stream_id(encode_utf8(b.extensions[j].content->StreamId_0)) {
            Some(sid) if stream_id_complete(sid) => {
                let id = resource_of(sid)->0;
                if sid.mode == Some(request_bytes()) {
                    &&& request_started(o, n)
                    &&& queued(o, n, h, handshake_body_bytes(reply))
                    &&& r == Ok::<Action, super::Error>(Action::StartRequest(id))
                } else {
                    &&& same_but_queue(o, Connection { mode: o.mode, ..n })
                    &&& n.mode is Publish
                    &&& queued(o, n, h, handshake_body_bytes(reply))
                    &&& r == Ok::<Action, super::Error>(Action::StartPublish(id))
                }
            },
            _ => rejected(o, n, h, reply, r),
        }
    }
}

/// What a packet received at `now` does: the time of the last packet from the peer becomes
/// `now`, the packet and its bytes (header included) are counted as received, and the packet
/// goes to the handler of its type. One that does not convert to its
/// type, and one of a control type without a handler, changes nothing more.
pub open spec fn packet_effect(o: Connection, n: Connection, p: Packet, now: u64, r: Result<Action, super::Error>) -> bool {
    let o1 = Connection {
        last_time: now,
        metrics: received(o.metrics, p.header.spec_packet_type(), packet_wire_size(p)),
        ..o
    };
    let nothing = n == o1 && r == Ok::<Action, super::Error>(Action::Nothing);
    let b = p.body@;
    if p.header.spec_packet_type() == PacketType::Data {
        data_effect(o1, n, p.header, b, now, r)
    } else {
        match p.header.spec_control_type() {
            Some(ControlPacketType::Handshake) => match spec_decode_handshake_fields(b, 0, zero_header()) {
                Ok(v) => handshake_effect(o1, n, HandshakeView { header: p.header, ..v }, now, r),
                Err(_) => nothing,
            },
            Some(ControlPacketType::Keepalive) => if b.len() >= 4 {
                keepalive_effect(o1, n, now, r)
            } else {
                nothing
            },
            Some(ControlPacketType::Ack) => if b.len() >= 28 {
                ack_effect(
                    o1,
                    n,
                    ack_from_body(AckHeader(p.header), b),
                    now,
                    r,
                )
            } else {
                nothing
            },
            Some(ControlPacketType::Nak) => match spec_decode_sequence_numbers(b) {
                Ok((v, _)) => nak_effect(o1, n, v, now, r),
                Err(_) => nothing,
            },
            Some(ControlPacketType::Shutdown) => if b.len() >= 4 {
                shutdown_effect(o1, n, now, r)
            } else {
                nothing
            },
            Some(ControlPacketType::AckAck) => if b.len() >= 4 {
                ackack_effect(o1, n, p.header.seg1, now, r)
            } else {
                nothing
            },
            _ => nothing,
        }
    }
}

/// Builds a full, in-order data packet with sequence number `seq` and message number `msg`,
/// marked as retransmitted or not.
fn full_data_packet(seq: u32, msg: u32, retransmitted: bool, data: Vec<u8>) -> (p: DataPacket)
    ensures
        p.header == data_header(seq, msg, retransmitted),
        p.data@ == data@,
{
    let mut packet = DataPacket::default();
    packet.header.set_packet_type(PacketType::Data);
    let ghost w0 = packet.header.seg0;
    let ghost s0 = packet.header.seg1;
    packet.set_packet_sequence_number(seq);
    let ghost w1 = packet.header.seg0;
    packet.set_message_number(msg);
    let ghost s1 = packet.header.seg1;
    packet.set_ordered(true);
    let ghost s2 = packet.header.seg1;
    packet.set_retransmitted(retransmitted);
    let ghost s3 = packet.header.seg1;
    packet.set_packet_position(PacketPosition::Full);
    let ghost s4 = packet.header.seg1;
    packet.data = data;
    proof {
        assert(w1 == seq & 0x7fff_ffffu32) by (bit_vector)
            requires
                w0 >> 31u32 == 0,
                w1 & 0x7fff_ffffu32 == seq & 0x7fff_ffffu32,
                w1 >> 31u32 == w0 >> 31u32;
        assert(retransmitted ==> s4 == 0xE400_0000u32 | (msg & 0x3ff_ffffu32)) by (bit_vector)
            requires
                s0 == 0u32,
                s1 & 0x3ff_ffffu32 == msg & 0x3ff_ffffu32,
                s1 >> 26u32 == s0 >> 26u32,
                (s2 >> 29u32) & 1u32 == 1u32,
                s2 & 0xdfff_ffffu32 == s1 & 0xdfff_ffffu32,
                (s3 >> 26u32) & 1u32 == (if retransmitted { 1u32 } else { 0u32 }),
                s3 & 0xfbff_ffffu32 == s2 & 0xfbff_ffffu32,
                s4 >> 30u32 == 3u32,
                s4 & 0x3fff_ffffu32 == s3 & 0x3fff_ffffu32;
        assert(!retransmitted ==> s4 == 0xE000_0000u32 | (msg & 0x3ff_ffffu32)) by (bit_vector)
            requires
                s0 == 0u32,
                s1 & 0x3ff_ffffu32 == msg & 0x3ff_ffffu32,
                s1 >> 26u32 == s0 >> 26u32,
                (s2 >> 29u32) & 1u32 == 1u32,
                s2 & 0xdfff_ffffu32 == s1 & 0xdfff_ffffu32,
                (s3 >> 26u32) & 1u32 == (if retransmitted { 1u32 } else { 0u32 }),
                s3 & 0xfbff_ffffu32 == s2 & 0xfbff_ffffu32,
                s4 >> 30u32 == 3u32,
                s4 & 0x3fff_ffffu32 == s3 & 0x3fff_ffffu32;
    }
    packet
}

/// `c` is a connection fresh from the INDUCTION phase: both sequence numbers are the
/// client's, nothing is queued or recorded, and the round trip time has its initial estimate.
pub open spec fn is_new(c: Connection, server_socket_id: u32, client_socket_id: u32, client_sequence_number: u32, syn_cookie: u32, now: u64) -> bool {
    &&& c.server_socket_id == server_socket_id
    &&& c.client_socket_id == client_socket_id
    &&& c.start_time == now
    &&& c.last_time == now
    &&& c.server_sequence_number == client_sequence_number
    &&& c.client_sequence_number == client_sequence_number
    &&& c.mode == (ConnectionMode::Induction { syn_cookie })
    &&& c.inflight_acks@.len() == 0
    &&& c.loss_list@.len() == 0
    &&& c.rtt == Rtt::new_value()
    &&& c.poll_state == PollState::Read
    &&& c.mtu == 1500
    &&& c.queue.queue@.len() == 0
    &&& c.queue.prio@.len() == 0
    &&& c.metrics.is_zero()
}

impl Connection {
    /// The connection invariant: both lists are ascending, every in-flight acknowledgement
    /// number lies below the next server sequence number, every lost sequence number lies
    /// below the next expected one, and a requested stream keeps a nonempty ring of payloads.
    pub open spec fn wf(self) -> bool {
        &&& ascending(self.inflight_acks@)
        &&& ascending(self.loss_list@)
        &&& forall|i: int| 0 <= i < self.inflight_acks@.len() ==> #[trigger] self.inflight_acks@[i].0 < self.server_sequence_number
        &&& forall|i: int| 0 <= i < self.loss_list@.len() ==> #[trigger] self.loss_list@[i].0 < self.client_sequence_number
        &&& (self.mode matches ConnectionMode::Request { stream, .. } ==> stream.wf())
    }

    /// A connection in the INDUCTION phase, answering with `syn_cookie`.
    pub fn new(server_socket_id: u32, client_socket_id: u32, client_sequence_number: u32, syn_cookie: u32, now: u64) -> (c: Self)
        ensures
            c.wf(),
            is_new(c, server_socket_id, client_socket_id, client_sequence_number, syn_cookie, now),
    {
        Connection {
            server_socket_id,
            client_socket_id,
            start_time: now,
            server_sequence_number: client_sequence_number,
            client_sequence_number,
            mode: ConnectionMode::Induction { syn_cookie },
            inflight_acks: LossList::new(),
            loss_list: LossList::new(),
            rtt: Rtt::new(),
            last_time: now,
            poll_state: PollState::Read,
            mtu: 1500,
            queue: TransmissionQueue::default(),
            metrics: ConnectionMetrics::new(),
        }
    }

    /// Microseconds since the start of the connection, truncated to 32 bits.
    pub fn timestamp(&self, now: u64) -> (t: u32)
        ensures
            t == elapsed_u32(self.start_time, now),
    {
        if now >= self.start_time {
            (now - self.start_time) as u32
        } else {
            0
        }
    }

    /// Takes the next packet to send, from the priority queue first: the packet and its size
    /// are counted as sent, and the connection enters the write state until the packet is out.
    /// With nothing queued, nothing changes.
    pub fn next_outgoing(&mut self) -> (r: Option<Packet>)
        requires
            old(self).wf(),
        ensures
            final(self).wf(),
            same_but_queue(
                *old(self),
                Connection { poll_state: old(self).poll_state, metrics: old(self).metrics, ..*final(self) },
            ),
            old(self).queue.prio@.len() > 0 ==> r == Some(old(self).queue.prio@[0])
                && final(self).queue.prio@ == old(self).queue.prio@.remove(0) && final(self).queue.queue@
                == old(self).queue.queue@,
            old(self).queue.prio@.len() == 0 && old(self).queue.queue@.len() > 0 ==> r == Some(
                old(self).queue.queue@[0],
            ) && final(self).queue.queue@ == old(self).queue.queue@.remove(0) && final(self).queue.prio@
                == old(self).queue.prio@,
            old(self).queue.prio@.len() == 0 && old(self).queue.queue@.len() == 0 ==> r is None
                && final(self).queue.queue@ == old(self).queue.queue@ && final(self).queue.prio@
                == old(self).queue.prio@ && final(self).metrics == old(self).metrics
                && final(self).poll_state == old(self).poll_state,
            r matches Some(p) ==> final(self).metrics == sent(old(self).metrics, p.header.spec_packet_type(),
                packet_wire_size(p)) && final(self).poll_state == PollState::Write,
    {
        let next = self.queue.pop();
        if let Some(packet) = &next {
            self.metrics.record_sent(packet.header.packet_type(), packet.wire_size());
            self.poll_state = PollState::Write;
        }
        next
    }

    /// Returns to reading after a write has completed.
    pub fn init_read(&mut self)
        ensures
            final(self).poll_state == PollState::Read,
            same_but_queue(*old(self), Connection { poll_state: old(self).poll_state, ..*final(self) }),
            final(self).queue == old(self).queue,
    {
        self.poll_state = PollState::Read;
    }

    /// Returns `true` while the connection receives a published stream.
    pub fn is_publish(&self) -> (b: bool)
        ensures
            b == self.mode is Publish,
    {
        self.mode.is_publish()
    }

    /// Returns `true` while the connection sends a requested stream.
    pub fn is_request(&self) -> (b: bool)
        ensures
            b == self.mode is Request,
    {
        self.mode.is_request()
    }

    /// Queues a packet for the peer, stamped with the connection's timestamp and the peer's
    /// socket id.
    pub fn send(&mut self, packet: Packet, now: u64)
        ensures
            same_but_queue(*old(self), *final(self)),
            queued(*old(self), *final(self), stamp(*old(self), now, packet.header), packet.body@),
    {
        let mut packet = packet;
        packet.header.timestamp = self.timestamp(now);
        packet.header.destination_socket_id = self.client_socket_id;
        self.queue.push(packet);
        assert(self.queue.queue@.drop_last() =~= old(self).queue.queue@);
    }

    /// Closes the connection: sends a shutdown packet, and closes the output sink of a
    /// published stream.
    pub fn close(&mut self, now: u64) -> (a: Action)
        requires
            old(self).mode is Publish ==> old(self).poll_state == PollState::Read,
        ensures
            closed(*old(self), *final(self), now, a),
    {
        self.send(Shutdown::builder().build().upcast(), now);
        if self.is_publish() {
            self.poll_state = PollState::Close;
            Action::CloseSink
        } else {
            self.poll_state = PollState::Closed;
            Action::Nothing
        }
    }

    /// Answers a keep-alive with a keep-alive.
    pub fn handle_keepalive(&mut self, _packet: Keepalive, now: u64) -> (r: Result<Action, super::Error>)
        ensures
            keepalive_effect(*old(self), *final(self), now, r),
    {
        self.send(Keepalive::builder().build().upcast(), now);
        Ok(Action::Nothing)
    }

    /// A shutdown from the peer closes the connection.
    pub fn handle_shutdown(&mut self, _packet: Shutdown, now: u64) -> (r: Result<Action, super::Error>)
        requires
            old(self).mode is Publish ==> old(self).poll_state == PollState::Read,
        ensures
            shutdown_effect(*old(self), *final(self), now, r),
    {
        Ok(self.close(now))
    }

    /// Handles the acknowledgement of a full acknowledgement: the acknowledgement leaves the
    /// in-flight list, and the time since it was sent is a round trip time sample.
    pub fn handle_ackack(&mut self, packet: AckAck, now: u64) -> (r: Result<Action, super::Error>)
        requires
            old(self).wf(),
        ensures
            final(self).wf(),
            ackack_effect(*old(self), *final(self), packet.header.seg1, now, r),
    {
        let ackno = packet.acknowledgement_number();
        match self.inflight_acks.remove(ackno) {
            Some(ts) => {
                let sample: u32 = if now >= ts { (now - ts) as u32 } else { 0 };
                proof {
                    let o = old(self).inflight_acks@;
                    let k = choose|i: int| 0 <= i < o.len() && o[i] == (ackno, ts) && self.inflight_acks@ == o.remove(i);
                    assert(seqs_of(o)[k] == ackno);
                    assert forall|j: int| 0 <= j < self.inflight_acks@.len() implies #[trigger] self.inflight_acks@[j].0 < self.server_sequence_number by {
                        if j < k {
                            assert(self.inflight_acks@[j] == o[j]);
                        } else {
                            assert(self.inflight_acks@[j] == o[j + 1]);
                        }
                    }
                }
                Ok(Action::RttSample(sample))
            },
            None => Ok(Action::Nothing),
        }
    }

    /// Handles an acknowledgement: only a peer that requests a stream sends them; the
    /// connection takes over its round trip time and answers with an ACKACK.
    pub fn handle_ack(&mut self, packet: Ack, now: u64) -> (r: Result<Action, super::Error>)
        ensures
            ack_effect(*old(self), *final(self), packet, now, r),
    {
        if self.is_request() {
            self.rtt.rtt = packet.rtt;
            self.rtt.rtt_variance = packet.rtt_variance;
            let reply = AckAck::builder().acknowledgement_number(packet.acknowledgement_number()).build();
            self.send(reply.upcast(), now);
        }
        Ok(Action::Nothing)
    }

    /// Handles a data packet. Only a publishing peer sends data: the packet goes to the output
    /// sink. When its sequence number is not the expected one and not a number recorded as
    /// lost, all numbers from the expected one up to it are recorded as lost; a number recorded
    /// as lost that arrives leaves the list. The next expected number only moves forward: past
    /// the packet's number when that is not below it.
    pub fn handle_data(&mut self, packet: DataPacket, now: u64) -> (r: Result<Action, super::Error>)
        requires
            old(self).wf(),
            old(self).poll_state == PollState::Read,
        ensures
            final(self).wf(),
            data_effect(*old(self), *final(self), packet.header, packet.data@, now, r),
    {
        if !self.is_publish() {
            return Ok(Action::Nothing);
        }
        let seqnum = packet.packet_sequence_number();
        assert(seqnum <= 0x7fff_ffff) by {
            let w = packet.header.seg0;
            assert(w & 0x7fff_ffffu32 <= 0x7fff_ffffu32) by (bit_vector);
        }
        self.poll_state = PollState::WriteSink;
        if self.client_sequence_number != seqnum {
            let removed = self.loss_list.remove(seqnum);
            if removed.is_none() {
                self.loss_list.extend_range(self.client_sequence_number, seqnum, now);
                proof {
                    assert(self.loss_list@ =~= old(self).loss_list@ + newly_lost(old(self).client_sequence_number, seqnum, now));
                }
            } else {
                proof {
                    let o = old(self).loss_list@;
                    let ts = removed.unwrap();
                    let k = choose|i: int| 0 <= i < o.len() && o[i] == (seqnum, ts) && self.loss_list@ == o.remove(i);
                    assert(seqs_of(o)[k] == seqnum);
                }
            }
        }
        if self.client_sequence_number <= seqnum {
            self.client_sequence_number = seqnum + 1;
        }
        Ok(Action::Deliver(packet))
    }

    /// Handles a packet from the peer received at `now`: records the time, counts the packet
    /// and its size in the statistics, and hands the packet
    /// to the handler of its type. A packet that does not convert to its type is dropped, and
    /// congestion warnings, drop requests, peer errors and user-defined packets are ignored.
    pub fn handle_packet(&mut self, packet: Packet, now: u64) -> (r: Result<Action, super::Error>)
        requires
            old(self).wf(),
            packet.header.spec_packet_type() == PacketType::Data ==> old(self).poll_state == PollState::Read,
            packet.header.spec_packet_type() == PacketType::Control && packet.header.spec_control_type()
                == Some(ControlPacketType::Shutdown) && old(self).mode is Publish ==> old(self).poll_state
                == PollState::Read,
            packet.header.spec_packet_type() == PacketType::Control ==> packet.header.spec_control_type() is Some,
            packet.header.spec_control_type() == Some(ControlPacketType::Handshake) ==> handshake_type_not_cut(packet.body@, 0),
        ensures
            final(self).wf(),
            packet_effect(*old(self), *final(self), packet, now, r),
    {
        let size = packet.wire_size();
        self.metrics.record_recv(packet.header.packet_type(), size);
        self.last_time = now;
        match packet.header.packet_type() {
            PacketType::Data => match DataPacket::downcast(packet) {
                Ok(p) => self.handle_data(p, now),
                Err(_) => Ok(Action::Nothing),
            },
            PacketType::Control => {
                let ct = ControlHeader { header: packet.header }.control_type();
                match ct {
                    ControlPacketType::Handshake => match HandshakePacket::downcast(packet) {
                        Ok(p) => self.handle_handshake(p, now),
                        Err(_) => Ok(Action::Nothing),
                    },
                    ControlPacketType::Keepalive => match Keepalive::downcast(packet) {
                        Ok(p) => self.handle_keepalive(p, now),
                        Err(_) => Ok(Action::Nothing),
                    },
                    ControlPacketType::Ack => match Ack::downcast(packet) {
                        Ok(p) => self.handle_ack(p, now),
                        Err(_) => Ok(Action::Nothing),
                    },
                    ControlPacketType::Nak => match Nak::downcast(packet) {
                        Ok(p) => self.handle_nak(p, now),
                        Err(_) => Ok(Action::Nothing),
                    },
                    ControlPacketType::CongestionWarning => Ok(Action::Nothing),
                    ControlPacketType::Shutdown => match Shutdown::downcast(packet) {
                        Ok(p) => self.handle_shutdown(p, now),
                        Err(_) => Ok(Action::Nothing),
                    },
                    ControlPacketType::AckAck => match AckAck::downcast(packet) {
                        Ok(p) => self.handle_ackack(p, now),
                        Err(_) => Ok(Action::Nothing),
                    },
                    ControlPacketType::DropReq => Ok(Action::Nothing),
                    ControlPacketType::PeerError => Ok(Action::Nothing),
                    ControlPacketType::UserDefined => Ok(Action::Nothing),
                }
            },
        }
    }

    /// Handles the conclusion handshake of the peer. It is only accepted in the INDUCTION
    /// phase, with version 5, no encryption and the connection's cookie. The reply clears the
    /// cookie, gives the server's socket id and initial sequence number, and answers an HSREQ
    /// extension with an HSRSP. The stream id extension, which must name a hex resource id, a
    /// session and a mode, decides the mode: `request` starts sending that resource, `publish`
    /// starts receiving it. Without a stream id, or with one that does not parse or lacks any
    /// of these, the peer is rejected as rogue: the reply goes out with the handshake type
    /// `RejectRogue` and the connection stays in the handshake phase.
    pub fn handle_handshake(&mut self, packet: HandshakePacket, now: u64) -> (r: Result<Action, super::Error>)
        requires
            old(self).wf(),
        ensures
            final(self).wf(),
            handshake_effect(*old(self), *final(self), packet@, now, r),
    {
        let ghost v = packet@;
        let syn_cookie = match self.mode {
            ConnectionMode::Induction { syn_cookie } => syn_cookie,
            _ => return Ok(Action::Nothing),
        };
        if packet.version != 5 {
            return Ok(Action::Nothing);
        }
        if packet.encryption_field != 0 {
            return Ok(Action::Nothing);
        }
        if packet.syn_cookie != syn_cookie {
            return Ok(Action::Nothing);
        }
        let mut packet = packet;
        packet.syn_cookie = 0;
        packet.srt_socket_id = self.server_socket_id;
        packet.initial_packet_sequence_number = self.server_sequence_number;
        proof {
            lemma_first_hsreq_bound(v.extensions);
        }
        let hsreq = packet.extensions.remove_hsreq();
        if let Some(ext) = hsreq {
            let mut ext = ext;
            ext.sender_tsbpd_delay = ext.receiver_tsbpd_delay;
            let ghost before = packet.extensions@;
            let content = ExtensionContent::from(ext);
            packet.extensions.0.push(HandshakeExtension {
                extension_type: ExtensionType::HsRsp,
                extension_length: 3,
                extension_content: content,
            });
            proof {
                let i = first_hsreq(v.extensions);
                let m = v.extensions[i].content->Handshake_0;
                assert(i < v.extensions.len());
                assert(content == ExtensionContent::Handshake(ext));
                assert(ext == HandshakeExtensionMessage { sender_tsbpd_delay: m.receiver_tsbpd_delay, ..m });
                assert(packet.extensions@ =~= before.push(packet.extensions.0@.last()@));
                assert(packet.extensions@ =~= hsrsp_extensions(v.extensions));
            }
            packet.extension_field = ExtensionField(ExtensionField::HSREQ);
        }
        proof {
            assert(packet@.extensions == hsrsp_extensions(v.extensions));
            assert(packet@.extension_field == reply_base(*old(self), v).extension_field);
            assert(packet@ == reply_base(*old(self), v));
        }
        let ghost b = packet@;
        proof {
            lemma_first_stream_id_bound(b.extensions);
        }
        if let Some(ext) = packet.extensions.remove_stream_id() {
            let ghost reply = packet@;
            if let Some(sid) = ext.parse() {
                let resource_id = match &sid.resource {
                    Some(res) => parse_resource_id(res.as_slice()),
                    None => None,
                };
                let is_request = match &sid.mode {
                    Some(m) => bytes_equal(m.as_slice(), 0, m.len(), &[0x72u8, 0x65u8, 0x71u8, 0x75u8, 0x65u8, 0x73u8, 0x74u8]),
                    None => false,
                };
                let is_publish = match &sid.mode {
                    Some(m) => bytes_equal(m.as_slice(), 0, m.len(), &[0x70u8, 0x75u8, 0x62u8, 0x6cu8, 0x69u8, 0x73u8, 0x68u8]),
                    None => false,
                };
                let has_session = sid.session.is_some();
                proof {
                    assert(seq![0x72u8, 0x65u8, 0x71u8, 0x75u8, 0x65u8, 0x73u8, 0x74u8] =~= [0x72u8, 0x65u8, 0x71u8, 0x75u8, 0x65u8, 0x73u8, 0x74u8]@);
                    assert(seq![0x70u8, 0x75u8, 0x62u8, 0x6cu8, 0x69u8, 0x73u8, 0x68u8] =~= [0x70u8, 0x75u8, 0x62u8, 0x6cu8, 0x69u8, 0x73u8, 0x68u8]@);
                    if let Some(m) = sid.mode {
                        assert(m@.subrange(0, m@.len() as int) =~= m@);
                    }
                    assert(is_request <==> sid@.mode == Some(request_bytes()));
                    assert(is_publish <==> sid@.mode == Some(publish_bytes()));
                    assert(resource_id == resource_of(sid@));
                    assert(has_session <==> sid@.session is Some);
                }
                if has_session {
                    if let Some(id) = resource_id {
                        if is_request {
                            let stream = SrtStream::new(8192, Sequence(self.client_sequence_number), self.start_time);
                            self.mode = ConnectionMode::Request { stream, message_number: 1 };
                            self.send(packet.upcast(), now);
                            return Ok(Action::StartRequest(id));
                        } else if is_publish {
                            self.mode = ConnectionMode::Publish;
                            self.send(packet.upcast(), now);
                            return Ok(Action::StartPublish(id));
                        }
                    }
                }
            }
            proof {
                assert(packet@ == reply);
            }
        }
        packet.handshake_type = HandshakeType::RejectRogue;
        self.send(packet.upcast(), now);
        Ok(Action::Nothing)
    }

    /// A timer tick at `now`: after 15 seconds without a packet from the peer the connection
    /// closes. A connection that receives a published stream gives up the lost packets that
    /// waited two round trip times and counts them as lost, and sends an acknowledgement with
    /// the receiving rates, from the data packets and bytes counted so far, over the whole
    /// connection.
    pub fn tick(&mut self, now: u64) -> (r: Result<Action, super::Error>)
        requires
            old(self).wf(),
            timed_out(*old(self), now) && old(self).mode is Publish ==> old(self).poll_state == PollState::Read,
            !timed_out(*old(self), now) && old(self).mode is Publish ==> old(self).rtt.rtt
                <= 0x7fff_ffff && old(self).server_sequence_number < u32::MAX,
        ensures
            final(self).wf(),
            tick_effect(*old(self), *final(self), now, r),
    {
        let silent: u64 = if now >= self.last_time { now - self.last_time } else { 0 };
        if silent >= 15_000_000 {
            return Ok(self.close(now));
        }
        if !self.is_publish() {
            return Ok(Action::Nothing);
        }
        let packets_lost = self.loss_list.clear_in(self.rtt, now);
        self.metrics.record_lost(packets_lost as u64, self.mtu as u32);
        let packets_recv = self.metrics.data_packets_recv.original.get();
        let bytes_recv = self.metrics.data_bytes_recv.original.get();
        let elapsed: u64 = if now >= self.start_time { now - self.start_time } else { 0 };
        let secs = (elapsed / 1_000_000) as u32;
        let packets_recv_rate: u32;
        let bytes_recv_rate: u32;
        if secs == 0 {
            packets_recv_rate = 0;
            bytes_recv_rate = 0;
        } else {
            packets_recv_rate = (packets_recv as u32) / secs;
            bytes_recv_rate = (bytes_recv as u32) / secs;
        }
        let packet = Ack::builder()
            .acknowledgement_number(self.server_sequence_number)
            .last_acknowledged_packet_sequence_number(self.client_sequence_number)
            .rtt(self.rtt.rtt)
            .rtt_variance(self.rtt.rtt_variance)
            .avaliable_buffer_size(8192)
            .packets_receiving_rate(packets_recv_rate)
            .estimated_link_capacity(packets_recv_rate)
            .receiving_rate(bytes_recv_rate)
            .build();
        proof {
            assert(secs == timespan(old(self).start_time, now));
            assert(packet == tick_ack(*old(self), now));
        }
        let ghost before_push = self.inflight_acks@;
        self.inflight_acks.push_in(self.server_sequence_number, now);
        self.server_sequence_number += 1;
        proof {
            assert forall|i: int| 0 <= i < self.inflight_acks@.len() implies #[trigger] self.inflight_acks@[i].0 < self.server_sequence_number by {
                if i < before_push.len() {
                    assert(self.inflight_acks@[i] == before_push[i]);
                }
            }
        }
        self.send(packet.upcast(), now);
        Ok(Action::PacketsLost(packets_lost))
    }

    /// Sends the next payload of a requested stream: the stream keeps it for retransmission,
    /// and a data packet with the next sequence number and message number is queued. Does
    /// nothing unless the peer requests a stream.
    pub fn on_stream_item(&mut self, buf: Vec<u8>, now: u64)
        requires
            old(self).wf(),
            old(self).mode matches ConnectionMode::Request { stream, message_number } ==> stream.buffer.spec_head()
                < usize::MAX && message_number < u32::MAX && old(self).server_sequence_number < u32::MAX,
        ensures
            final(self).wf(),
            stream_item_effect(*old(self), *final(self), buf@, now),
            !(old(self).mode is Request) ==> *final(self) == *old(self),
    {
        let timestamp = self.timestamp(now);
        let server_sequence_number = self.server_sequence_number;
        let ghost payload = buf@;
        match &mut self.mode {
            ConnectionMode::Request { stream, message_number } => {
                let (data, _ts, _msgnum) = stream.next_item(buf, now);
                let packet = full_data_packet(server_sequence_number, *message_number, false, data);
                *message_number += 1;
                let mut packet = packet.upcast();
                packet.header.timestamp = timestamp;
                packet.header.destination_socket_id = self.client_socket_id;
                self.server_sequence_number = server_sequence_number + 1;
                self.queue.push(packet);
                proof {
                    assert(self.queue.queue@.drop_last() =~= old(self).queue.queue@);
                }
            },
            _ => {},
        }
    }

    /// Queues `bytes` as a data packet with the next sequence number and message number;
    /// does nothing unless the peer requests a stream.
    pub fn send_bytes(&mut self, bytes: Vec<u8>, now: u64) -> (r: Result<(), super::Error>)
        requires
            old(self).mode matches ConnectionMode::Request { message_number, .. } ==> message_number
                < u32::MAX && old(self).server_sequence_number < u32::MAX,
        ensures
            r is Ok,
            !(old(self).mode is Request) ==> *final(self) == *old(self),
            old(self).mode matches ConnectionMode::Request { stream, message_number } ==> {
                &&& fixed(*old(self), *final(self))
                &&& final(self).client_sequence_number == old(self).client_sequence_number
                &&& final(self).inflight_acks == old(self).inflight_acks
                &&& final(self).loss_list == old(self).loss_list
                &&& final(self).rtt == old(self).rtt
                &&& final(self).last_time == old(self).last_time
                &&& final(self).poll_state == old(self).poll_state
                &&& final(self).server_sequence_number == old(self).server_sequence_number + 1
                &&& final(self).mode == (ConnectionMode::Request { stream, message_number: (message_number + 1) as u32 })
                &&& queued(*old(self), *final(self), stamp(*old(self), now, data_header(old(self).server_sequence_number, message_number, false)), bytes@)
            },
    {
        let server_sequence_number = self.server_sequence_number;
        let msg = match &mut self.mode {
            ConnectionMode::Request { message_number, .. } => {
                let m = *message_number;
                *message_number += 1;
                m
            },
            _ => return Ok(()),
        };
        let packet = full_data_packet(server_sequence_number, msg, false, bytes);
        self.server_sequence_number = server_sequence_number + 1;
        self.send(packet.upcast(), now);
        Ok(())
    }

    /// Handles a NAK: only a peer that requests a stream sends them. Each listed packet that
    /// the stream still holds is retransmitted ahead of everything else; for each one it no
    /// longer holds, a drop request for the whole list is queued.
    pub fn handle_nak(&mut self, packet: Nak, now: u64) -> (r: Result<Action, super::Error>)
        requires
            old(self).wf(),
        ensures
            final(self).wf(),
            nak_effect(*old(self), *final(self), packet.lost_packet_sequence_numbers@, now, r),
    {
        let timestamp = self.timestamp(now);
        let client_socket_id = self.client_socket_id;
        let first = packet.lost_packet_sequence_numbers.first();
        let last = packet.lost_packet_sequence_numbers.last();
        let ghost v = packet.lost_packet_sequence_numbers@;
        let ghost ks = nak_seqs(v);
        match &self.mode {
            ConnectionMode::Request { stream, .. } => {
                let ghost st = *stream;
                let mut k: u64 = first as u64;
                proof {
                    assert(ks.take(0) =~= Seq::<u32>::empty());
                    assert(self.queue.prio@.map_values(|p: Packet| pkt_view(p)) =~= old(self).queue.prio@.map_values(|p: Packet| pkt_view(p)) + nak_resends(*old(self), now, st, ks.take(0)));
                    assert(self.queue.queue@.map_values(|p: Packet| pkt_view(p)) =~= old(self).queue.queue@.map_values(|p: Packet| pkt_view(p)) + Seq::new(nak_misses(st, ks.take(0)), |i: int| drop_request_view(*old(self), now, v)));
                }
                while k <= last as u64
                    invariant
                        first == seq_first(v),
                        last == seq_last(v),
                        ks == nak_seqs(v),
                        first <= k <= last as u64 + 1 || (first > last && k == first),
                        timestamp == elapsed_u32(old(self).start_time, now),
                        client_socket_id == old(self).client_socket_id,
                        st.buffer.wf(),
                        self.mode == old(self).mode,
                        old(self).mode matches ConnectionMode::Request { stream, .. } && stream == st,
                        same_but_queue(*old(self), *self),
                        self.queue.prio@.map_values(|p: Packet| pkt_view(p)) == old(self).queue.prio@.map_values(|p: Packet| pkt_view(p))
                            + nak_resends(*old(self), now, st, ks.take(k - first)),
                        self.queue.queue@.map_values(|p: Packet| pkt_view(p)) == old(self).queue.queue@.map_values(|p: Packet| pkt_view(p))
                            + Seq::new(nak_misses(st, ks.take(k - first)), |i: int| drop_request_view(*old(self), now, v)),
                    decreases last as u64 + 1 - k,
                {
                    let seq = k as u32;
                    let ghost i = k - first;
                    proof {
                        assert(ks.take(i + 1).drop_last() =~= ks.take(i));
                        assert(ks.take(i + 1).last() == seq);
                    }
                    let ghost before_prio = self.queue.prio@;
                    let ghost before_queue = self.queue.queue@;
                    match st_get(&self.mode, seq) {
                        Some(buf) => {
                            let data = full_data_packet(seq, 0, true, buf);
                            let mut p = data.upcast();
                            p.header.timestamp = timestamp;
                            p.header.destination_socket_id = client_socket_id;
                            self.queue.push_prio(p);
                            proof {
                                assert(self.queue.prio@.map_values(|p: Packet| pkt_view(p)) =~= before_prio.map_values(|p: Packet| pkt_view(p)).push(pkt_view(p)));
                                assert(self.queue.queue@.map_values(|p: Packet| pkt_view(p)) =~= before_queue.map_values(|p: Packet| pkt_view(p)));
                            }
                        },
                        None => {
                            let dropreq = DropRequest::builder()
                                .message_number(0)
                                .first_packet_sequence_number(first)
                                .last_packet_sequence_number(last)
                                .build();
                            let mut p = dropreq.upcast();
                            p.header.timestamp = timestamp;
                            p.header.destination_socket_id = client_socket_id;
                            self.queue.push(p);
                            proof {
                                assert(self.queue.queue@.map_values(|p: Packet| pkt_view(p)) =~= before_queue.map_values(|p: Packet| pkt_view(p)).push(pkt_view(p)));
                                assert(self.queue.prio@.map_values(|p: Packet| pkt_view(p)) =~= before_prio.map_values(|p: Packet| pkt_view(p)));
                            }
                        },
                    }
                    proof {
                        assert(Seq::new(nak_misses(st, ks.take(i + 1)), |j: int| drop_request_view(*old(self), now, v)) =~= Seq::new(nak_misses(st, ks.take(i)), |j: int| drop_request_view(*old(self), now, v)) + if spec_lookup(st, seq) is None { seq![drop_request_view(*old(self), now, v)] } else { Seq::empty() });
                    }
                    k = k + 1;
                }
                proof {
                    assert(ks.take(k - first) =~= ks);
                }
                Ok(Action::Nothing)
            },
            _ => Ok(Action::Nothing),
        }
    }
}

/// The payload that the requested stream of `mode` holds for sequence number `seq`, copied.
fn st_get(mode: &ConnectionMode, seq: u32) -> (r: Option<Vec<u8>>)
    requires
        mode matches ConnectionMode::Request { stream, .. } && stream.buffer.wf(),
    ensures
        mode matches ConnectionMode::Request { stream, .. } && match r {
            Some(v) => spec_lookup(*stream, seq) matches Some(item) && item.0 == v@,
            None => spec_lookup(*stream, seq) is None,
        },
{
    match mode {
        ConnectionMode::Request { stream, .. } => match stream.get(Sequence(seq)) {
            Some(item) => Some(copy_range(item.0.as_slice(), 0, item.0.len())),
            None => None,
        },
        _ => None,
    }
}

/// The payloads of the requested stream line up with the sequence numbers they go out under:
/// the next sequence number is the initial one plus the number of payloads handed out.
pub open spec fn aligned(c: Connection) -> bool {
    c.mode matches ConnectionMode::Request { stream, .. } && stream.buffer.spec_head() <= u32::MAX
        && c.server_sequence_number == wrap_add(
        stream.initial_sequence_number.0,
        stream.buffer.spec_head() as u32,
    )
}

/// A connection whose two sequence numbers agree starts sending a requested stream lined up.
pub proof fn lemma_request_starts_aligned(o: Connection, n: Connection)
    requires
        request_started(o, n),
        o.server_sequence_number == o.client_sequence_number,
    ensures
        aligned(n),
{
}

/// Handing out a payload keeps the requested stream lined up.
pub proof fn lemma_stream_item_keeps_aligned(o: Connection, n: Connection, payload: Seq<u8>, now: u64)
    requires
        aligned(o),
        stream_item_effect(o, n, payload, now),
        o.server_sequence_number < u32::MAX,
        o.mode->Request_stream.buffer.spec_head() < u32::MAX,
    ensures
        aligned(n),
{
}

/// A lost packet is retransmitted with the payload it first carried: after a payload goes out
/// on a lined-up stream, a NAK for its sequence number resends exactly that payload, marked as
/// retransmitted, unless the number orders before the stream's initial one.
pub proof fn lemma_nak_resends_sent(o: Connection, n: Connection, payload: Seq<u8>, now: u64, later: u64)
    requires
        o.wf(),
        aligned(o),
        stream_item_effect(o, n, payload, now),
        !precedes(o.server_sequence_number, o.mode->Request_stream.initial_sequence_number.0),
    ensures
        n.mode matches ConnectionMode::Request { stream, .. } && nak_resends(
            n,
            later,
            stream,
            nak_seqs(SeqNumsView::Single(o.server_sequence_number)),
        ) == seq![(stamp(n, later, data_header(o.server_sequence_number, 0, true)), payload)],
{
    let s0 = o.mode->Request_stream;
    let s1 = n.mode->Request_stream;
    let k = s0.buffer.spec_head() as int;
    let seq = o.server_sequence_number;
    lemma_history_len(s0.buffer);
    lemma_history_len(s1.buffer);
    assert(s1.buffer.history()[k] == s1.buffer.history().last());
    lemma_lookup_finds_sent(s1, k);
    let ks = nak_seqs(SeqNumsView::Single(seq));
    assert(ks =~= seq![seq]);
    assert(ks.drop_last() =~= Seq::<u32>::empty());
    assert(nak_resends(n, later, s1, ks.drop_last()) == Seq::<(Header, Seq<u8>)>::empty());
    assert(ks.last() == seq);
    assert(spec_lookup(s1, seq) == Some((payload, s1.buffer.history()[k].1, s1.buffer.history()[k].2)));
    assert(nak_resends(n, later, s1, ks) =~= seq![(stamp(n, later, data_header(seq, 0, true)), payload)]);
}

} // verus!
