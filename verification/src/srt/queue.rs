//! A fixed size ordered queue of segment numbers.
use vstd::prelude::*;
use std::collections::BTreeSet;

verus! {

/// The smallest element of a set, if it has one.
///
/// Calls `BTreeSet::first`, which returns the minimum of the set, and `None` for an empty set.
#[verifier::external_body]
fn set_first(s: &BTreeSet<u64>) -> (r: Option<&u64>)
    ensures
        r is None <==> s@.len() == 0,
        r matches Some(x) ==> s@.contains(*x) && forall|y: u64| s@.contains(y) ==> *x <= y,
{
    s.first()
}

/// Removes and returns the smallest element of a set, if it has one.
///
/// Calls `BTreeSet::pop_first`, which removes the minimum of the set and returns it, and
/// leaves an empty set as it is.
#[verifier::external_body]
fn set_pop_first(s: &mut BTreeSet<u64>) -> (r: Option<u64>)
    ensures
        r is None <==> old(s)@.len() == 0,
        r is None ==> final(s)@ == old(s)@,
        r matches Some(x) ==> old(s)@.contains(x) && (forall|y: u64| old(s)@.contains(y) ==> x <= y)
            && final(s)@ == old(s)@.remove(x),
{
    s.pop_first()
}

/// A fixed size ordered queue: it holds at most `size` distinct numbers and hands out the
/// smallest first.
#[derive(Clone, Debug)]
pub struct SegmentQueue {
    queue: BTreeSet<u64>,
    size: usize,
}

impl View for SegmentQueue {
    type V = Set<u64>;

    closed spec fn view(&self) -> Set<u64> {
        self.queue@
    }
}

impl SegmentQueue {
    /// The number of numbers the queue holds at most.
    pub closed spec fn spec_capacity(&self) -> nat {
        self.size as nat
    }

    /// The queue holds a finite set of at most `size` numbers.
    pub closed spec fn wf(&self) -> bool {
        self.queue@.finite() && self.queue@.len() <= self.size
    }

    /// An empty queue of capacity `size`.
    pub fn new(size: usize) -> (q: Self)
        ensures
            q.wf(),
            q@ == Set::<u64>::empty(),
            q.spec_capacity() == size,
    {
        Self { queue: BTreeSet::new(), size }
    }

    /// Adds `segment` unless the queue is full; a number already queued stays queued once.
    pub fn push(&mut self, segment: u64)
        requires
            old(self).wf(),
        ensures
            final(self).wf(),
            final(self).spec_capacity() == old(self).spec_capacity(),
            old(self)@.len() == old(self).spec_capacity() ==> final(self)@ == old(self)@,
            old(self)@.len() < old(self).spec_capacity() ==> final(self)@ == old(self)@.insert(segment),
    {
        broadcast use vstd::std_specs::btree::group_btree_axioms;
        if self.queue.len() == self.size {
            return;
        }
        self.queue.insert(segment);
        proof {
            if !old(self)@.contains(segment) {
                assert(self.queue@.len() == old(self)@.len() + 1);
            } else {
                assert(self.queue@ =~= old(self)@);
            }
        }
    }

    /// The smallest queued number, if any.
    pub fn peek(&mut self) -> (r: Option<&u64>)
        ensures
            *final(self) == *old(self),
            r is None <==> old(self)@.len() == 0,
            r matches Some(x) ==> old(self)@.contains(*x) && forall|y: u64| old(self)@.contains(y) ==> *x <= y,
    {
        set_first(&self.queue)
    }

    /// Removes and returns the smallest queued number, if any.
    pub fn pop(&mut self) -> (r: Option<u64>)
        requires
            old(self).wf(),
        ensures
            final(self).wf(),
            final(self).spec_capacity() == old(self).spec_capacity(),
            r is None <==> old(self)@.len() == 0,
            r is None ==> final(self)@ == old(self)@,
            r matches Some(x) ==> old(self)@.contains(x) && (forall|y: u64| old(self)@.contains(y) ==> x <= y)
                && final(self)@ == old(self)@.remove(x),
    {
        set_pop_first(&mut self.queue)
    }

    /// The number of queued numbers.
    pub fn len(&self) -> (n: usize)
        ensures
            n == self@.len(),
    {
        broadcast use vstd::std_specs::btree::group_btree_axioms;
        self.queue.len()
    }

    /// The capacity the queue was made with.
    pub fn capacity(&self) -> (n: usize)
        ensures
            n == self.spec_capacity(),
    {
        self.size
    }

    /// Returns `true` when nothing is queued.
    pub fn is_empty(&self) -> (b: bool)
        ensures
            b == (self@.len() == 0),
    {
        self.len() == 0
    }

    /// Removes every queued number.
    pub fn clear(&mut self)
        ensures
            final(self).wf(),
            final(self)@ == Set::<u64>::empty(),
            final(self).spec_capacity() == old(self).spec_capacity(),
    {
        self.queue.clear();
    }
}

} // verus!
