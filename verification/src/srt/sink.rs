//! Reassembly of a published stream: data packets wait in a queue ordered by message number
//! and delivery time, and leave it once their delivery time has come.
use vstd::prelude::*;
use core::cmp::Ordering;
use super::DataPacket;
use super::utils::Sequence;
use super::utils::message::MessageNumber;
use crate::serial::serial_order;

verus! {

/// A payload waiting for delivery.
#[derive(Clone, Debug)]
pub struct Segment {
    pub sequence: Sequence,
    pub message_number: MessageNumber,
    /// The time, in microseconds, at which the payload is due.
    pub delivery_time: u64,
    pub payload: Vec<u8>,
}

/// The order of segments: by message number, compared as 26-bit serial numbers, then by
/// delivery time.
pub open spec fn comes_before(a: (u32, u64), b: (u32, u64)) -> bool {
    serial_order(a.0, b.0, 26) == Ordering::Less || (a.0 == b.0 && a.1 < b.1)
}

/// The message number and delivery time of a segment, by which it is ordered.
pub open spec fn key(s: Segment) -> (u32, u64) {
    (s.message_number.0, s.delivery_time)
}

/// The position at which a segment with key `k` goes: before the first queued segment that
/// does not come before it.
pub open spec fn insert_at(q: Seq<Segment>, k: (u32, u64)) -> int
    decreases q.len(),
{
    if q.len() == 0 {
        0
    } else if !comes_before(key(q[0]), k) {
        0
    } else {
        1 + insert_at(q.drop_first(), k)
    }
}

/// The number of payload bytes in `q`.
pub open spec fn total(q: Seq<Segment>) -> nat
    decreases q.len(),
{
    if q.len() == 0 {
        0
    } else {
        q[0].payload@.len() + total(q.drop_first())
    }
}

/// The insertion position lies within the queue or at its end.
proof fn lemma_insert_at_bound(q: Seq<Segment>, k: (u32, u64))
    ensures
        0 <= insert_at(q, k) <= q.len(),
    decreases q.len(),
{
    if q.len() > 0 {
        lemma_insert_at_bound(q.drop_first(), k);
    }
}

/// The position is the first one whose segment does not come before `k`.
proof fn lemma_insert_at(q: Seq<Segment>, k: (u32, u64), i: int)
    requires
        0 <= i <= q.len(),
        forall|j: int| 0 <= j < i ==> comes_before(key(#[trigger] q[j]), k),
        i < q.len() ==> !comes_before(key(q[i]), k),
    ensures
        insert_at(q, k) == i,
    decreases q.len(),
{
    if q.len() > 0 && i > 0 {
        assert forall|j: int| 0 <= j < i - 1 implies comes_before(key(#[trigger] q.drop_first()[j]), k) by {
            assert(q.drop_first()[j] == q[j + 1]);
        }
        lemma_insert_at(q.drop_first(), k, i - 1);
    }
}

/// Inserting a segment adds its payload bytes to the total.
proof fn lemma_total_insert(q: Seq<Segment>, i: int, s: Segment)
    requires
        0 <= i <= q.len(),
    ensures
        total(q.insert(i, s)) == total(q) + s.payload@.len(),
    decreases q.len(),
{
    if i == 0 {
        assert(q.insert(0, s).drop_first() =~= q);
    } else {
        assert(q.insert(i, s).drop_first() =~= q.drop_first().insert(i - 1, s));
        lemma_total_insert(q.drop_first(), i - 1, s);
    }
}

/// Whether the first segment of a queue can be taken at a given time.
pub enum Take {
    /// The first segment was due and is taken; none when the queue is empty.
    Ready(Option<Segment>),
    /// The first segment is due at this time.
    Wait(u64),
}

/// A queue of [`Segment`]s to be written.
pub struct SegmentQueue {
    pub queue: Vec<Segment>,
    /// Total size of all buffers combined.
    pub size: usize,
    /// The time the stream started, in microseconds.
    pub start: u64,
    /// The latency added to each packet's timestamp, in microseconds.
    pub latency: u64,
    pub buffer_size: usize,
}

/// `a` comes before the segment with message number `msg` and delivery time `time`.
fn segment_before(a: &Segment, msg: MessageNumber, time: u64) -> (b: bool)
    ensures
        b == comes_before(key(*a), (msg.0, time)),
{
    match a.message_number.cmp(&msg) {
        Ordering::Less => true,
        Ordering::Equal => {
            proof {
                crate::serial::lemma_order_equal(a.message_number.0, msg.0, 26);
            }
            a.delivery_time < time
        },
        Ordering::Greater => false,
    }
}

/// `n` is `o` after pushing the data packet `packet`. A queue holding more than its buffer
/// size is unchanged. Otherwise the segment is keyed by the packet's message number and its
/// delivery time (start plus timestamp plus latency) and goes before the first queued one that
/// does not come before it: when that one has the same key the queue and its size are
/// unchanged, else the segment is inserted there and its payload's length joins the size.
pub open spec fn pushed_packet(o: SegmentQueue, n: SegmentQueue, packet: DataPacket) -> bool {
    &&& n.start == o.start
    &&& n.latency == o.latency
    &&& n.buffer_size == o.buffer_size
    &&& (o.queue@.len() > o.buffer_size ==> n.queue@ == o.queue@ && n.size == o.size)
    &&& (o.queue@.len() <= o.buffer_size ==> {
        let k = (packet.header.seg1 & 0x3ff_ffffu32, (o.start + packet.header.timestamp + o.latency) as u64);
        let i = insert_at(o.queue@, k);
        &&& (i < o.queue@.len() && key(o.queue@[i]) == k ==> n.queue@ == o.queue@ && n.size == o.size)
        &&& (!(i < o.queue@.len() && key(o.queue@[i]) == k) ==> n.queue@.len() == o.queue@.len() + 1
            && n.queue@[i].payload@ == packet.data@ && key(n.queue@[i]) == k && n.queue@[i].sequence
            == Sequence(packet.header.seg0 & 0x7fff_ffffu32) && n.queue@.remove(i) == o.queue@
            && n.size == o.size + packet.data@.len())
    })
}

/// `n` is `o` after taking its first segment out, returned as `r`: none from an empty queue,
/// which stays as it is; otherwise the first segment, whose payload's length leaves the size.
pub open spec fn popped_first(o: SegmentQueue, n: SegmentQueue, r: Option<Segment>) -> bool {
    &&& n.start == o.start
    &&& n.latency == o.latency
    &&& n.buffer_size == o.buffer_size
    &&& (o.queue@.len() == 0 ==> r is None && n == o)
    &&& (o.queue@.len() > 0 ==> r == Some(o.queue@[0]) && n.queue@ == o.queue@.drop_first() && n.size
        == o.size - o.queue@[0].payload@.len())
}

/// Pushing a data packet keeps the size of a queue equal to the total length of the payloads
/// it holds.
pub proof fn lemma_push_keeps_size_total(o: SegmentQueue, n: SegmentQueue, packet: DataPacket)
    requires
        o.wf(),
        pushed_packet(o, n, packet),
    ensures
        n.wf(),
{
    if o.queue@.len() <= o.buffer_size {
        let k = (packet.header.seg1 & 0x3ff_ffffu32, (o.start + packet.header.timestamp + o.latency) as u64);
        let i = insert_at(o.queue@, k);
        lemma_insert_at_bound(o.queue@, k);
        if !(i < o.queue@.len() && key(o.queue@[i]) == k) {
            assert(n.queue@ =~= o.queue@.insert(i, n.queue@[i]));
            lemma_total_insert(o.queue@, i, n.queue@[i]);
        }
    }
}

/// Taking the first segment out keeps the size of a queue equal to the total length of the
/// payloads it holds.
pub proof fn lemma_pop_keeps_size_total(o: SegmentQueue, n: SegmentQueue, r: Option<Segment>)
    requires
        o.wf(),
        popped_first(o, n, r),
    ensures
        n.wf(),
{
}

impl SegmentQueue {
    /// The counted size is the total of the payloads queued.
    pub open spec fn wf(&self) -> bool {
        self.size == total(self.queue@)
    }

    /// An empty queue for a stream that started at `start`, with the given latency and
    /// buffer size.
    pub fn new(start: u64, latency: u64, buffer_size: usize) -> (q: Self)
        ensures
            q.wf(),
            q.queue@.len() == 0,
            q.size == 0,
            q.start == start,
            q.latency == latency,
            q.buffer_size == buffer_size,
    {
        Self { queue: Vec::new(), size: 0, start, latency, buffer_size }
    }

    /// Queues the payload of a data packet, due at the start plus its timestamp plus the
    /// latency. A queue holding more than the buffer size takes nothing (this keeps slow
    /// receivers and attacks from exhausting memory); a segment with the message number and
    /// delivery time of a queued one is not queued again. The size grows by the payload's
    /// length exactly when the segment is queued.
    pub fn push(&mut self, packet: DataPacket)
        requires
            old(self).wf(),
            old(self).start + packet.header.timestamp + old(self).latency <= u64::MAX,
            old(self).size + packet.data@.len() <= usize::MAX,
        ensures
            final(self).wf(),
            pushed_packet(*old(self), *final(self), packet),
    {
        if self.queue.len() > self.buffer_size {
            return;
        }
        let sequence = Sequence::new(packet.packet_sequence_number());
        let message_number = MessageNumber(packet.message_number());
        let delivery_time = self.start + packet.header.timestamp as u64 + self.latency;
        let ghost k = (message_number.0, delivery_time);
        let mut i: usize = 0;
        while i < self.queue.len()
            invariant
                i <= self.queue@.len(),
                self.queue@ == old(self).queue@,
                k == (message_number.0, delivery_time),
                forall|j: int| 0 <= j < i ==> comes_before(key(#[trigger] self.queue@[j]), k),
            ensures
                i <= self.queue@.len(),
                self.queue@ == old(self).queue@,
                forall|j: int| 0 <= j < i ==> comes_before(key(#[trigger] self.queue@[j]), k),
                i < self.queue@.len() ==> !comes_before(key(self.queue@[i as int]), k),
            decreases self.queue@.len() - i,
        {
            let before = segment_before(&self.queue[i], message_number, delivery_time);
            if !before {
                break;
            }
            i = i + 1;
        }
        proof {
            lemma_insert_at(self.queue@, k, i as int);
        }
        if i < self.queue.len() && self.queue[i].message_number.0 == message_number.0
            && self.queue[i].delivery_time == delivery_time {
            return;
        }
        self.size = self.size + packet.data.len();
        let segment = Segment { sequence, message_number, delivery_time, payload: packet.data };
        let ghost before = self.queue@;
        self.queue.insert(i, segment);
        proof {
            lemma_total_insert(before, i as int, segment);
            assert(self.queue@.remove(i as int) =~= before);
        }
    }

    /// The first segment, if any.
    pub fn first(&self) -> (r: Option<&Segment>)
        ensures
            self.queue@.len() == 0 ==> r is None,
            self.queue@.len() > 0 ==> r == Some(&self.queue@[0]),
    {
        if self.queue.len() == 0 {
            None
        } else {
            Some(&self.queue[0])
        }
    }

    /// Removes the first segment and returns it, if any; its bytes leave the count.
    pub fn pop_first(&mut self) -> (r: Option<Segment>)
        requires
            old(self).wf(),
        ensures
            final(self).wf(),
            popped_first(*old(self), *final(self), r),
    {
        if self.queue.len() == 0 {
            return None;
        }
        let segment = self.queue.remove(0);
        proof {
            assert(self.queue@ =~= old(self).queue@.drop_first());
        }
        self.size = self.size - segment.payload.len();
        Some(segment)
    }

    /// Takes the first segment at `now` if it is due: an empty queue gives none, and a
    /// segment that is not yet due gives its delivery time to wait for.
    pub fn take(&mut self, now: u64) -> (r: Take)
        requires
            old(self).wf(),
        ensures
            final(self).wf(),
            old(self).queue@.len() == 0 ==> r == Take::Ready(None) && *final(self) == *old(self),
            old(self).queue@.len() > 0 && old(self).queue@[0].delivery_time > now ==> r == Take::Wait(
                old(self).queue@[0].delivery_time,
            ) && *final(self) == *old(self),
            old(self).queue@.len() > 0 && old(self).queue@[0].delivery_time <= now ==> r == Take::Ready(
                Some(old(self).queue@[0]),
            ) && final(self).queue@ == old(self).queue@.drop_first() && final(self).size == old(self).size
                - old(self).queue@[0].payload@.len(),
    {
        let deadline = match self.first() {
            Some(seg) => seg.delivery_time,
            None => return Take::Ready(None),
        };
        if deadline <= now {
            Take::Ready(self.pop_first())
        } else {
            Take::Wait(deadline)
        }
    }

    /// The number of queued segments.
    pub fn len(&self) -> (n: usize)
        ensures
            n == self.queue@.len(),
    {
        self.queue.len()
    }

    /// Returns `true` when no segment is queued.
    pub fn is_empty(&self) -> (b: bool)
        ensures
            b == (self.queue@.len() == 0),
    {
        self.len() == 0
    }

    /// Drops every queued segment.
    pub fn clear(&mut self)
        ensures
            final(self).wf(),
            final(self).queue@.len() == 0,
            final(self).size == 0,
            final(self).start == old(self).start,
            final(self).latency == old(self).latency,
            final(self).buffer_size == old(self).buffer_size,
    {
        self.queue.clear();
        self.size = 0;
    }
}

/// The reassembly side of a published stream: the queue of segments waiting for delivery.
/// The caller owns the sink that the payloads go to.
pub struct OutputSink {
    /// Message number of the next expected segment; it wraps around.
    pub next_msgnum: u32,
    pub queue: SegmentQueue,
}

impl OutputSink {
    /// A sink for a stream that started at `start`, with the given latency and buffer size.
    pub fn new(start: u64, latency: u64, buffer_size: usize) -> (s: Self)
        ensures
            s.next_msgnum == 1,
            s.queue.wf(),
            s.queue.queue@.len() == 0,
            s.queue.size == 0,
            s.queue.start == start,
            s.queue.latency == latency,
            s.queue.buffer_size == buffer_size,
    {
        Self { next_msgnum: 1, queue: SegmentQueue::new(start, latency, buffer_size) }
    }

    /// The remaining capacity of the output buffer, out of 8192 segments.
    pub fn buffer_left(&self) -> (n: usize)
        requires
            self.queue.queue@.len() <= 8192,
        ensures
            n == 8192 - self.queue.queue@.len(),
    {
        8192 - self.queue.len()
    }
}

} // verus!
