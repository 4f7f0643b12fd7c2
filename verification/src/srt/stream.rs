//! The sending side of a requested stream: every payload handed out gets the next message
//! number and a timestamp, and is kept for retransmission.
use vstd::prelude::*;
use super::buffer::Buffer;
use super::conn::elapsed_u32;
use super::copy_range;
use super::proto::timestamp::Timestamp;
use super::utils::{Sequence, precedes, wrap_add, wrap_sub};
use super::utils::message::MessageNumber;
use crate::serial::add_value;
use core::ops::AddAssign;

verus! {

/// The payloads of a stream with their timestamps and message numbers, held in a ring buffer
/// indexed by their offset from the initial sequence number.
pub struct SrtStream {
    pub initial_sequence_number: Sequence,
    /// Any retransmissions MUST retain the same timestamp.
    pub buffer: Buffer<(Vec<u8>, Timestamp, MessageNumber)>,
    pub next_message_number: MessageNumber,
    /// The time, in microseconds, that the timestamps count from.
    pub start_time: u64,
}

/// The payload, timestamp and message number that a retransmission of sequence number `seq`
/// resends, if the stream still holds them.
pub open spec fn spec_lookup(s: SrtStream, seq: u32) -> Option<(Seq<u8>, Timestamp, MessageNumber)> {
    if precedes(seq, s.initial_sequence_number.0) {
        None
    } else {
        let index = wrap_sub(seq, s.initial_sequence_number.0) as int;
        if s.buffer.readable(index) {
            let v = s.buffer.history()[index];
            Some((v.0@, v.1, v.2))
        } else {
            None
        }
    }
}

/// `n` is `o` after handing out the payload `val` at `now`: the payload is kept with the next
/// message number and the time since the start, and the message number advances.
pub open spec fn pushed(o: SrtStream, n: SrtStream, val: Seq<u8>, now: u64) -> bool {
    &&& n.wf()
    &&& n.next_message_number.0 == add_value(o.next_message_number.0, 1, 26)
    &&& n.buffer.spec_size() == o.buffer.spec_size()
    &&& n.buffer.spec_head() == o.buffer.spec_head() + 1
    &&& n.buffer.history().len() == o.buffer.history().len() + 1
    &&& n.buffer.history().drop_last() == o.buffer.history()
    &&& n.buffer.history().last().0@ == val
    &&& n.buffer.history().last().1 == (Timestamp { timestamp: elapsed_u32(o.start_time, now) })
    &&& n.buffer.history().last().2 == o.next_message_number
    &&& n.initial_sequence_number == o.initial_sequence_number
    &&& n.start_time == o.start_time
}

impl SrtStream {
    /// The stream invariant: the ring is well formed, has slots, and message numbers fit into
    /// 26 bits.
    pub open spec fn wf(self) -> bool {
        &&& self.buffer.wf()
        &&& self.buffer.spec_size() > 0
        &&& self.next_message_number.0 <= 0x3ff_ffff
    }

    /// A stream of `size` buffered payloads whose first packet has sequence number `initial`,
    /// with timestamps counted from `start_time`; the first message number is 1.
    pub fn new(size: usize, initial_sequence_number: Sequence, start_time: u64) -> (s: Self)
        ensures
            s.buffer.wf(),
            s.buffer.spec_size() == size,
            s.buffer.spec_head() == 0,
            s.buffer.history().len() == 0,
            s.initial_sequence_number == initial_sequence_number,
            s.next_message_number == MessageNumber(1),
            s.start_time == start_time,
    {
        SrtStream {
            initial_sequence_number,
            buffer: Buffer::new(size),
            next_message_number: MessageNumber::new(1),
            start_time,
        }
    }

    /// Returns the payload, timestamp and message number for sequence number `seq`: none
    /// before the initial sequence number, otherwise what the buffer holds at the offset from
    /// it.
    pub fn get(&self, seq: Sequence) -> (r: Option<(&Vec<u8>, Timestamp, MessageNumber)>)
        requires
            self.buffer.wf(),
        ensures
            match r {
                Some(v) => spec_lookup(*self, seq.0) == Some((v.0@, v.1, v.2)),
                None => spec_lookup(*self, seq.0) is None,
            },
    {
        if seq < self.initial_sequence_number {
            None
        } else {
            let msg = (seq - self.initial_sequence_number).get();
            match self.buffer.get(msg as usize) {
                Some(item) => Some((&item.0, item.1, item.2)),
                None => None,
            }
        }
    }

    /// Moves the time that timestamps count from.
    pub fn update_start(&mut self, instant: u64)
        ensures
            final(self).start_time == instant,
            final(self).initial_sequence_number == old(self).initial_sequence_number,
            final(self).buffer == old(self).buffer,
            final(self).next_message_number == old(self).next_message_number,
    {
        self.start_time = instant;
    }

    /// Takes the next payload of the stream at `now`: it gets the next message number and the
    /// time since the start as its timestamp, and a copy is kept for retransmission.
    pub fn next_item(&mut self, val: Vec<u8>, now: u64) -> (r: (Vec<u8>, Timestamp, MessageNumber))
        requires
            old(self).wf(),
            old(self).buffer.spec_head() < usize::MAX,
        ensures
            pushed(*old(self), *final(self), val@, now),
            r.0@ == val@,
            r.1 == final(self).buffer.history().last().1,
            r.2 == old(self).next_message_number,
    {
        let msgnum = self.next_message_number;
        let micros: u32 = if now >= self.start_time { (now - self.start_time) as u32 } else { 0 };
        let ts = Timestamp::from_micros(micros);
        let copy = copy_range(val.as_slice(), 0, val.len());
        assert(copy@ =~= val@);
        self.buffer.push((copy, ts, msgnum));
        self.next_message_number.add_assign(1);
        proof {
            vstd::arithmetic::power2::lemma2_to64();
            assert(crate::serial::modulus(26) == 0x400_0000);
            assert(self.buffer.history().drop_last() =~= old(self).buffer.history());
            assert(micros == elapsed_u32(old(self).start_time, now));
        }
        (val, ts, msgnum)
    }
}

/// Retransmissions keep the payload: each of the last `size` payloads that a stream handed out
/// is found again, with its timestamp and message number, under the initial sequence number
/// plus its position, unless that number orders before the initial one.
pub proof fn lemma_lookup_finds_sent(s: SrtStream, k: int)
    requires
        s.wf(),
        0 <= k < s.buffer.spec_head(),
        s.buffer.spec_head() - s.buffer.spec_size() <= k,
        k <= u32::MAX,
        !precedes(wrap_add(s.initial_sequence_number.0, k as u32), s.initial_sequence_number.0),
    ensures
        spec_lookup(s, wrap_add(s.initial_sequence_number.0, k as u32)) == Some(
            (s.buffer.history()[k].0@, s.buffer.history()[k].1, s.buffer.history()[k].2),
        ),
{
    let i = s.initial_sequence_number.0;
    assert(wrap_sub(wrap_add(i, k as u32), i) == k);
}

} // verus!
