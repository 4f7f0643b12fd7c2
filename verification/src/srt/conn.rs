//! Per-connection bookkeeping of SRT: in-flight acknowledgements, lost packets, round trip
//! time and the transmission queue. Points in time are microseconds: the `_in` forms take
//! them from the caller, whose clock the connection shares; [`LossList::push`] and
//! [`LossList::clear`] read the system clock, in microseconds since the Unix epoch.
use vstd::prelude::*;
use std::collections::VecDeque;
use super::Packet;

verus! {

/// The current time in microseconds since the Unix epoch, or none when the system clock is
/// set before the epoch.
///
/// Calls `SystemTime::elapsed` on `UNIX_EPOCH`, which reads the system clock, and
/// `Duration::as_micros`; nothing is promised of the value, which depends on the clock.
#[verifier::external_body]
fn clock_micros() -> Option<u64> {
    match std::time::UNIX_EPOCH.elapsed() {
        Ok(d) => Some(d.as_micros() as u64),
        Err(_) => None,
    }
}

/// The current time in microseconds since the Unix epoch; a clock set before the epoch reads
/// as 0.
fn now_micros() -> u64 {
    match clock_micros() {
        Some(t) => t,
        None => 0,
    }
}

/// A queue of sequence numbers of in-flight acknowledgements with the time they were sent.
#[derive(Clone, Debug)]
pub struct AckQueue {
    pub inner: VecDeque<(u32, u64)>,
}

impl AckQueue {
    /// An empty queue.
    pub fn new() -> (q: Self)
        ensures
            q.inner@ == Seq::<(u32, u64)>::empty(),
    {
        Self { inner: VecDeque::new() }
    }

    /// Appends an acknowledgement sent at `ts`.
    pub fn push_back(&mut self, seq: u32, ts: u64)
        ensures
            final(self).inner@ == old(self).inner@.push((seq, ts)),
    {
        self.inner.push_back((seq, ts));
    }

    /// Removes and returns the oldest acknowledgement.
    pub fn pop_front(&mut self) -> (r: Option<(u32, u64)>)
        ensures
            old(self).inner@.len() == 0 ==> r is None && final(self).inner@ == old(self).inner@,
            old(self).inner@.len() > 0 ==> r == Some(old(self).inner@[0]) && final(self).inner@
                == old(self).inner@.drop_first(),
    {
        self.inner.pop_front()
    }

    /// Returns the newest acknowledgement.
    pub fn last(&self) -> (r: Option<(u32, u64)>)
        ensures
            self.inner@.len() == 0 ==> r is None,
            self.inner@.len() > 0 ==> r == Some(self.inner@.last()),
    {
        if self.inner.len() == 0 {
            None
        } else {
            Some(self.inner[self.inner.len() - 1])
        }
    }
}

/// The round trip time and its variance, in microseconds.
#[derive(Copy, Clone, Debug, PartialEq, Eq, Structural, Hash)]
pub struct Rtt {
    pub rtt: u32,
    pub rtt_variance: u32,
}

impl Rtt {
    /// The initial estimate: 100 ms with a variance of 50 ms.
    pub open spec fn new_value() -> Rtt {
        Rtt { rtt: 100_000, rtt_variance: 50_000 }
    }

    /// The initial estimate: 100 ms with a variance of 50 ms.
    pub fn new() -> (r: Self)
        ensures
            r == Rtt::new_value(),
    {
        Self { rtt: 100_000, rtt_variance: 50_000 }
    }
}

/// The number of microseconds between `ts` and `now` as a `u32`: 0 when `now` is earlier,
/// truncated to 32 bits when the difference does not fit.
pub open spec fn elapsed_u32(ts: u64, now: u64) -> u32 {
    if now >= ts {
        ((now - ts) as u64) as u32
    } else {
        0
    }
}

/// The number of leading entries of `s` that were inserted at least `limit` microseconds
/// before `now`.
pub open spec fn expired_prefix(s: Seq<(u32, u64)>, limit: u32, now: u64) -> nat
    decreases s.len(),
{
    if s.len() == 0 {
        0
    } else if elapsed_u32(s[0].1, now) < limit {
        0
    } else {
        1 + expired_prefix(s.drop_first(), limit, now)
    }
}

/// A list to keep track of lost packets: a stack of sequence numbers in strictly ascending
/// order, each with the time at which it was inserted. Only sequence numbers greater than the
/// last one can be pushed.
#[derive(Clone, Debug)]
pub struct LossList {
    inner: Vec<(u32, u64)>,
}

impl View for LossList {
    type V = Seq<(u32, u64)>;

    closed spec fn view(&self) -> Seq<(u32, u64)> {
        self.inner@
    }
}

/// The sequence numbers of `s` are strictly ascending.
pub open spec fn ascending(s: Seq<(u32, u64)>) -> bool {
    forall|i: int, j: int| 0 <= i < j < s.len() ==> s[i].0 < s[j].0
}

/// The sequence numbers of `s`.
pub open spec fn seqs_of(s: Seq<(u32, u64)>) -> Seq<u32> {
    s.map_values(|e: (u32, u64)| e.0)
}

impl LossList {
    /// An empty list.
    pub fn new() -> (l: Self)
        ensures
            l@ == Seq::<(u32, u64)>::empty(),
    {
        Self { inner: Vec::new() }
    }

    /// Returns the number of sequence numbers in the `LossList`.
    pub fn len(&self) -> (n: usize)
        ensures
            n == self@.len(),
    {
        self.inner.len()
    }

    /// Returns `true` if the `LossList` is empty.
    pub fn is_empty(&self) -> (b: bool)
        ensures
            b == (self@.len() == 0),
    {
        self.len() == 0
    }

    /// Returns the last (greatest) sequence number, if any.
    pub fn last_seq(&self) -> (r: Option<u32>)
        ensures
            self@.len() == 0 ==> r is None,
            self@.len() > 0 ==> r == Some(self@.last().0),
    {
        if self.inner.len() == 0 {
            None
        } else {
            Some(self.inner[self.inner.len() - 1].0)
        }
    }

    /// Returns `true` when `seq` is in the list.
    pub fn contains(&self, seq: u32) -> (b: bool)
        ensures
            b == seqs_of(self@).contains(seq),
    {
        let mut i: usize = 0;
        while i < self.inner.len()
            invariant
                i <= self@.len(),
                forall|j: int| 0 <= j < i ==> #[trigger] self@[j].0 != seq,
            decreases self@.len() - i,
        {
            if self.inner[i].0 == seq {
                proof {
                    assert(seqs_of(self@)[i as int] == seq);
                }
                return true;
            }
            i = i + 1;
        }
        proof {
            if seqs_of(self@).contains(seq) {
                let k = choose|k: int| 0 <= k < seqs_of(self@).len() && seqs_of(self@)[k] == seq;
                assert(self@[k].0 == seq);
            }
        }
        false
    }

    /// Pushes a new lost sequence number, inserted now, onto the stack. `seq` must be greater
    /// than the last pushed sequence number.
    pub fn push(&mut self, seq: u32)
        requires
            ascending(old(self)@),
            old(self)@.len() > 0 ==> old(self)@.last().0 < seq,
        ensures
            ascending(final(self)@),
            exists|now: u64| final(self)@ == old(self)@.push((seq, now)),
    {
        let now = now_micros();
        self.push_in(seq, now);
    }

    /// Pushes a new lost sequence number inserted at `now`. `seq` must be greater than the last
    /// pushed sequence number.
    pub fn push_in(&mut self, seq: u32, now: u64)
        requires
            ascending(old(self)@),
            old(self)@.len() > 0 ==> old(self)@.last().0 < seq,
        ensures
            ascending(final(self)@),
            final(self)@ == old(self)@.push((seq, now)),
    {
        self.inner.push((seq, now));
    }

    /// Removes all sequence numbers that should be considered lost: those inserted at least
    /// twice the round trip time ago, from the oldest on. Returns the number of removed
    /// sequence numbers.
    pub fn clear(&mut self, rtt: Rtt) -> (n: usize)
        requires
            rtt.rtt <= 0x7fff_ffff,
            ascending(old(self)@),
        ensures
            ascending(final(self)@),
            n <= old(self)@.len(),
            final(self)@ == old(self)@.skip(n as int),
            exists|now: u64| n == #[trigger] expired_prefix(old(self)@, (rtt.rtt * 2) as u32, now),
    {
        let now = now_micros();
        self.clear_in(rtt, now)
    }

    /// Removes the leading sequence numbers that were inserted at least twice the round trip
    /// time before `now`, and returns their number.
    pub fn clear_in(&mut self, rtt: Rtt, now: u64) -> (n: usize)
        requires
            rtt.rtt <= 0x7fff_ffff,
            ascending(old(self)@),
        ensures
            n == expired_prefix(old(self)@, (rtt.rtt * 2) as u32, now),
            n <= old(self)@.len(),
            final(self)@ == old(self)@.skip(n as int),
            ascending(final(self)@),
    {
        let limit = rtt.rtt * 2;
        let mut num_removed: usize = 0;
        let total = self.inner.len();
        while !self.is_empty()
            invariant
                total == old(self)@.len(),
                num_removed + self@.len() == old(self)@.len(),
                limit == rtt.rtt * 2,
                self@ == old(self)@.skip(num_removed as int),
                expired_prefix(old(self)@, limit, now) == num_removed + expired_prefix(self@, limit, now),
                ascending(old(self)@),
            decreases self@.len(),
        {
            let ts = self.inner[0].1;
            let diff: u32 = if now >= ts { (now - ts) as u32 } else { 0 };
            proof {
                assert(elapsed_u32(self@[0].1, now) == diff);
            }
            if diff < limit {
                proof {
                    assert(ascending(self@)) by {
                        assert forall|i: int, j: int| 0 <= i < j < self@.len() implies self@[i].0 < self@[j].0 by {
                            assert(self@[i] == old(self)@[i + num_removed]);
                            assert(self@[j] == old(self)@[j + num_removed]);
                        }
                    }
                }
                return num_removed;
            }
            let ghost before = self@;
            self.inner.remove(0);
            num_removed += 1;
            proof {
                assert(expired_prefix(before, limit, now) == 1 + expired_prefix(before.drop_first(), limit, now));
                assert(self@ =~= before.drop_first());
                assert(self@ =~= old(self)@.skip(num_removed as int));
            }
        }
        proof {
            assert(self@.len() == 0);
        }
        num_removed
    }

    /// Removes a sequence number from the `LossList`. Returns the time at which the sequence
    /// number was inserted, or `None` when it is not in the list.
    pub fn remove(&mut self, seq: u32) -> (r: Option<u64>)
        requires
            ascending(old(self)@),
        ensures
            ascending(final(self)@),
            r is None ==> final(self)@ == old(self)@ && !seqs_of(old(self)@).contains(seq),
            r matches Some(ts) ==> exists|i: int|
                0 <= i < old(self)@.len() && old(self)@[i] == (seq, ts) && final(self)@ == old(self)@.remove(i),
    {
        let mut lo: usize = 0;
        let mut hi: usize = self.inner.len();
        while lo < hi
            invariant
                0 <= lo <= hi <= self@.len(),
                self@ == old(self)@,
                ascending(self@),
                forall|i: int| 0 <= i < lo ==> self@[i].0 < seq,
                forall|i: int| hi <= i < self@.len() ==> self@[i].0 > seq,
            decreases hi - lo,
        {
            let mid = lo + (hi - lo) / 2;
            let n = self.inner[mid].0;
            if n == seq {
                let (_, ts) = self.inner.remove(mid);
                proof {
                    assert forall|i: int, j: int| 0 <= i < j < self@.len() implies self@[i].0 < self@[j].0 by {
                        let ii = if i < mid { i } else { i + 1 };
                        let jj = if j < mid { j } else { j + 1 };
                        assert(self@[i] == old(self)@[ii]);
                        assert(self@[j] == old(self)@[jj]);
                    }
                }
                return Some(ts);
            } else if n < seq {
                lo = mid + 1;
            } else {
                hi = mid;
            }
        }
        proof {
            assert forall|i: int| 0 <= i < old(self)@.len() implies #[trigger] old(self)@[i].0 != seq by {
                if i < lo {
                } else {
                    assert(hi <= i);
                }
            }
            assert(!seqs_of(old(self)@).contains(seq)) by {
                if seqs_of(old(self)@).contains(seq) {
                    let k = choose|k: int| 0 <= k < seqs_of(old(self)@).len() && seqs_of(old(self)@)[k] == seq;
                    assert(old(self)@[k].0 == seq);
                }
            }
        }
        None
    }

    /// Pushes the sequence numbers `start..end`, inserted at `now`; they must be greater than
    /// the last one in the list.
    pub fn extend_range(&mut self, start: u32, end: u32, now: u64)
        requires
            ascending(old(self)@),
            start < end && old(self)@.len() > 0 ==> old(self)@.last().0 < start,
        ensures
            ascending(final(self)@),
            final(self)@ == old(self)@ + Seq::new(
                (if start < end { end - start } else { 0 }) as nat,
                |i: int| ((start + i) as u32, now),
            ),
    {
        let mut seq = start;
        let ghost start_list = self@;
        while seq < end
            invariant
                start <= end ==> start <= seq <= end,
                start > end ==> seq == start,
                ascending(self@),
                self@ == start_list + Seq::new(
                    (if seq > start { seq - start } else { 0 }) as nat,
                    |i: int| ((start + i) as u32, now),
                ),
                ascending(start_list),
                start < end && start_list.len() > 0 ==> start_list.last().0 < start,
            decreases end - seq,
        {
            proof {
                if self@.len() > 0 {
                    if seq > start {
                        assert(self@.last() == ((seq - 1) as u32, now));
                    } else {
                        assert(self@ =~= start_list);
                    }
                }
            }
            self.push_in(seq, now);
            seq = seq + 1;
            proof {
                assert(self@ =~= start_list + Seq::new(
                    (if seq > start { seq - start } else { 0 }) as nat,
                    |i: int| ((start + i) as u32, now),
                ));
            }
        }
        proof {
            assert(self@ =~= start_list + Seq::new(
                (if start < end { end - start } else { 0 }) as nat,
                |i: int| ((start + i) as u32, now),
            ));
        }
    }
}

/// A packet transmission queue: a priority queue for retransmissions, drained first, and
/// the default queue.
#[derive(Clone, Debug)]
pub struct TransmissionQueue {
    pub queue: VecDeque<Packet>,
    pub prio: VecDeque<Packet>,
}

impl TransmissionQueue {
    /// An empty queue.
    pub fn default() -> (q: Self)
        ensures
            q.queue@.len() == 0,
            q.prio@.len() == 0,
    {
        TransmissionQueue { queue: VecDeque::new(), prio: VecDeque::new() }
    }

    /// Pushes a new [`Packet`] onto the default queue.
    pub fn push(&mut self, packet: Packet)
        ensures
            final(self).queue@ == old(self).queue@.push(packet),
            final(self).prio@ == old(self).prio@,
    {
        self.queue.push_back(packet);
    }

    /// Pushes a new [`Packet`] onto the priority queue.
    pub fn push_prio(&mut self, packet: Packet)
        ensures
            final(self).prio@ == old(self).prio@.push(packet),
            final(self).queue@ == old(self).queue@,
    {
        self.prio.push_back(packet);
    }

    /// Removes the oldest packet of the priority queue, or if that is empty, of the default
    /// queue.
    pub fn pop(&mut self) -> (r: Option<Packet>)
        ensures
            old(self).prio@.len() > 0 ==> r == Some(old(self).prio@[0]) && final(self).prio@
                == old(self).prio@.remove(0) && final(self).queue@ == old(self).queue@,
            old(self).prio@.len() == 0 && old(self).queue@.len() > 0 ==> r == Some(
                old(self).queue@[0],
            ) && final(self).queue@ == old(self).queue@.remove(0) && final(self).prio@
                == old(self).prio@,
            old(self).prio@.len() == 0 && old(self).queue@.len() == 0 ==> r is None
                && final(self).queue@ == old(self).queue@ && final(self).prio@ == old(self).prio@,
    {
        match self.prio.remove(0) {
            Some(packet) => Some(packet),
            None => self.queue.remove(0),
        }
    }

    /// Returns `true` when both queues are empty.
    pub fn is_empty(&self) -> (b: bool)
        ensures
            b == (self.queue@.len() == 0 && self.prio@.len() == 0),
    {
        self.queue.len() == 0 && self.prio.len() == 0
    }
}

} // verus!
