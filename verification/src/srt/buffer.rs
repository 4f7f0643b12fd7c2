//! Buffer for SRT transmission.
//!
//! When a packet is transmitted it is held in the buffer until acknowledged by the peer. This
//! allows retransmission of lost packets. The buffer is a ring of a fixed size; once it is
//! full, the oldest segments are overwritten.
use vstd::prelude::*;

verus! {

/// A circular buffer designed for storing SRT segments.
pub struct Buffer<T> {
    /// The slots of the ring.
    buf: Vec<Option<T>>,
    /// The index of the next slot in the buffer.
    head: usize,
    /// The oldest index that is still readable.
    tail: usize,
    /// The items pushed since the buffer was created or cleared, oldest first.
    history: Ghost<Seq<T>>,
}

/// `a` and `b` lie less than `n` apart, so they fall into different slots of a ring of `n`.
proof fn lemma_distinct_slots(a: int, b: int, n: int)
    requires
        0 <= a < b < a + n,
        n > 0,
    ensures
        a % n != b % n,
{
    vstd::arithmetic::div_mod::lemma_fundamental_div_mod(a, n);
    vstd::arithmetic::div_mod::lemma_fundamental_div_mod(b, n);
    if a % n == b % n {
        assert(b - a == n * (b / n) - n * (a / n));
        vstd::arithmetic::mul::lemma_mul_is_distributive_sub(n, b / n, a / n);
        if b / n - a / n >= 1 {
            vstd::arithmetic::mul::lemma_mul_inequality(1, b / n - a / n, n);
        } else {
            assert(b / n - a / n <= 0);
            vstd::arithmetic::mul::lemma_mul_inequality(b / n - a / n, 0, n);
        }
    }
}

/// `n` is `o` after pushing `item`: the item joins the history and the capacity stays.
pub open spec fn after_push<T>(o: Buffer<T>, n: Buffer<T>, item: T) -> bool {
    &&& n.wf()
    &&& n.spec_size() == o.spec_size()
    &&& n.spec_head() == o.spec_head() + 1
    &&& n.history() == o.history().push(item)
}

/// `n` is `o` after a clear: the history is empty and the capacity stays.
pub open spec fn after_clear<T>(o: Buffer<T>, n: Buffer<T>) -> bool {
    &&& n.wf()
    &&& n.spec_size() == o.spec_size()
    &&& n.spec_head() == 0
    &&& n.history() == Seq::<T>::empty()
}

/// `n` is `o` after appending `items`: they join the history in order and the capacity stays.
pub open spec fn after_extend<T>(o: Buffer<T>, n: Buffer<T>, items: Seq<T>) -> bool {
    &&& n.wf()
    &&& n.spec_size() == o.spec_size()
    &&& n.history() == o.history() + items
}

/// `n` is `o` after one call that changes a buffer: a push, a clear or an extend.
pub open spec fn buffer_step<T>(o: Buffer<T>, n: Buffer<T>) -> bool {
    ||| exists|item: T| after_push(o, n, item)
    ||| after_clear(o, n)
    ||| exists|items: Seq<T>| after_extend(o, n, items)
}

impl<T> Buffer<T> {
    /// The items pushed since the buffer was created or cleared.
    pub closed spec fn history(&self) -> Seq<T> {
        self.history@
    }

    /// The number of slots.
    pub closed spec fn spec_size(&self) -> nat {
        self.buf@.len()
    }

    /// The number of items pushed since creation or the last clear.
    pub closed spec fn spec_head(&self) -> nat {
        self.head as nat
    }

    /// Whether `index` is one of the last `size` indices pushed, the ones the ring still holds.
    pub open spec fn readable(&self, index: int) -> bool {
        0 <= index < self.spec_head() && self.spec_head() <= index + self.spec_size()
    }

    /// The buffer invariant: the history has one item per push; the readable window starts
    /// at `head - size` (or at 0); every one of the last `size` items sits in its slot, and
    /// slots never written are empty.
    pub closed spec fn wf(&self) -> bool {
        &&& self.history@.len() == self.head
        &&& self.head > 0 ==> self.buf@.len() > 0
        &&& self.tail == (if self.head <= self.buf@.len() { 0 } else { self.head - self.buf@.len() })
        &&& forall|k: int|
            0 <= k < self.head && self.head - self.buf@.len() <= k ==> #[trigger] self.buf@[k
                % (self.buf@.len() as int)] == Some(self.history@[k])
        &&& forall|p: int| self.head <= p < self.buf@.len() ==> #[trigger] self.buf@[p] is None
    }

    /// Creates a new `Buffer` with the given `size`.
    pub fn new(size: usize) -> (b: Self)
        ensures
            b.wf(),
            b.spec_size() == size,
            b.spec_head() == 0,
            b.history() == Seq::<T>::empty(),
    {
        let mut vec: Vec<Option<T>> = Vec::with_capacity(size);
        let mut i: usize = 0;
        while i < size
            invariant
                i <= size,
                vec@.len() == i,
                forall|p: int| 0 <= p < i ==> #[trigger] vec@[p] is None,
            decreases size - i,
        {
            vec.push(None);
            i = i + 1;
        }
        Self { buf: vec, head: 0, tail: 0, history: Ghost(Seq::empty()) }
    }

    /// Returns the size of the `Buffer`: its number of slots.
    pub fn size(&self) -> (n: usize)
        ensures
            n == self.spec_size(),
    {
        self.buf.len()
    }

    /// Returns the number of elements in the `Buffer`: the number of pushes, up to its size.
    pub fn len(&self) -> (n: usize)
        ensures
            n == (if self.spec_head() < self.spec_size() { self.spec_head() } else { self.spec_size() }),
    {
        if self.head < self.size() {
            self.head
        } else {
            self.size()
        }
    }

    /// Returns `true` if the `Buffer` contains no elements.
    pub fn is_empty(&self) -> (b: bool)
        ensures
            b == (self.spec_head() == 0 || self.spec_size() == 0),
    {
        self.len() == 0
    }

    /// Removes all elements from the buffer.
    pub fn clear(&mut self)
        requires
            old(self).wf(),
        ensures
            after_clear(*old(self), *final(self)),
    {
        let n = self.buf.len();
        let mut i: usize = 0;
        while i < n
            invariant
                i <= n,
                self.buf@.len() == n,
                forall|p: int| 0 <= p < i ==> #[trigger] self.buf@[p] is None,
            decreases n - i,
        {
            self.buf.set(i, None);
            i = i + 1;
        }
        self.head = 0;
        self.tail = 0;
        self.history = Ghost(Seq::empty());
    }

    /// Pushes an item into the slot `head % size`, overwriting the oldest item once the buffer
    /// is full.
    pub fn push(&mut self, item: T)
        requires
            old(self).wf(),
            old(self).spec_size() > 0,
            old(self).spec_head() < usize::MAX,
        ensures
            after_push(*old(self), *final(self), item),
    {
        let size = self.buf.len();
        let pos = self.head % size;
        let ghost old_buf = self.buf@;
        let ghost old_head = self.head as int;
        let ghost n = size as int;
        self.buf.set(pos, Some(item));
        if self.head - self.tail >= size {
            self.tail = self.tail + 1;
        }
        self.head = self.head + 1;
        self.history = Ghost(self.history@.push(item));
        proof {
            assert forall|k: int|
                0 <= k < self.head && self.head - n <= k implies #[trigger] self.buf@[k % n]
                == Some(self.history@[k]) by {
                if k == old_head {
                } else {
                    lemma_distinct_slots(k, old_head, n);
                    assert(old_buf[k % n] == Some(old(self).history@[k]));
                }
            }
            assert forall|p: int| self.head <= p < n implies #[trigger] self.buf@[p] is None by {
                vstd::arithmetic::div_mod::lemma_small_mod(old_head as nat, n as nat);
            }
        }
    }

    /// Returns the item pushed at `index` if it is one of the last `size` pushed; older items
    /// have been overwritten and are not read back.
    pub fn get(&self, index: usize) -> (r: Option<&T>)
        requires
            self.wf(),
        ensures
            r == (if self.readable(index as int) {
                Some(&self.history()[index as int])
            } else {
                None::<&T>
            }),
    {
        if index >= self.head || index < self.tail {
            return None;
        }
        let pos = index % self.size();
        assert(self.buf@[index as int % (self.buf@.len() as int)] == Some(self.history@[index as int]));
        self.buf[pos].as_ref()
    }

    /// Appends all items of `items` in order.
    pub fn extend(&mut self, items: Vec<T>)
        requires
            old(self).wf(),
            old(self).spec_size() > 0,
            old(self).spec_head() + items@.len() < usize::MAX,
        ensures
            after_extend(*old(self), *final(self), items@),
    {
        let mut items = items;
        let ghost all = items@;
        let ghost start = self.history@;
        let mut k: usize = 0;
        while items.len() > 0
            invariant
                self.wf(),
                self.spec_size() == old(self).spec_size(),
                self.spec_size() > 0,
                k + items@.len() == all.len(),
                old(self).spec_head() + all.len() < usize::MAX,
                self.spec_head() == old(self).spec_head() + k,
                self.history() == start + all.subrange(0, k as int),
                items@ == all.skip(k as int),
            decreases items@.len(),
        {
            let x = items.remove(0);
            proof {
                assert(x == all[k as int]);
            }
            self.push(x);
            k = k + 1;
            proof {
                assert(self.history() =~= start + all.subrange(0, k as int));
            }
        }
        proof {
            assert(all.subrange(0, k as int) =~= all);
        }
    }
}

/// The buffer counts its pushes: the history holds one item for each push since creation or
/// the last clear.
pub proof fn lemma_history_len<T>(b: Buffer<T>)
    requires
        b.wf(),
    ensures
        b.history().len() == b.spec_head(),
{
}

/// The capacity of a buffer is fixed when it is made: through any run of pushes, clears and
/// extends, every state has the capacity of the first.
pub proof fn lemma_capacity_fixed<T>(states: Seq<Buffer<T>>)
    requires
        states.len() > 0,
        forall|i: int| 0 <= i < states.len() - 1 ==> #[trigger] buffer_step(states[i], states[i + 1]),
    ensures
        forall|i: int| 0 <= i < states.len() ==> #[trigger] states[i].spec_size() == states[0].spec_size(),
    decreases states.len(),
{
    if states.len() > 1 {
        let prefix = states.drop_last();
        assert forall|i: int| 0 <= i < prefix.len() - 1 implies #[trigger] buffer_step(prefix[i], prefix[i + 1]) by {
            assert(buffer_step(states[i], states[i + 1]));
        }
        lemma_capacity_fixed(prefix);
        let k = states.len() - 2;
        assert(buffer_step(states[k], states[k + 1]));
        assert(prefix[k] == states[k]);
        assert forall|i: int| 0 <= i < states.len() implies #[trigger] states[i].spec_size() == states[0].spec_size() by {
            if i < states.len() - 1 {
                assert(prefix[i] == states[i]);
            }
        }
    }
}

} // verus!
