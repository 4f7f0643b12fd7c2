//! Wrapping sequence and message numbers.
use vstd::prelude::*;
use core::cmp::Ordering;
use core::ops::{Add, AddAssign, Sub, SubAssign};
use vstd::std_specs::cmp::{PartialEqSpecImpl, PartialOrdSpecImpl};
use vstd::std_specs::ops::{AddSpecImpl, SubSpecImpl};
use vstd::std_specs::convert::FromSpecImpl;

pub mod message;
pub mod sequence;

verus! {

/// The distance from `u32::MAX` within which a number counts as wrapping.
pub const WRAP_THRESHOLD: u32 = 1024;

/// `x + y` modulo `2^32`.
pub open spec fn wrap_add(x: u32, y: u32) -> u32 {
    vstd::wrapping::u32_specs::wrapping_add(x, y)
}

/// `x - y` modulo `2^32`.
pub open spec fn wrap_sub(x: u32, y: u32) -> u32 {
    vstd::wrapping::u32_specs::wrapping_sub(x, y)
}

/// Both numbers are shifted by the wrap threshold before they are compared, unless both lie
/// within the threshold below `u32::MAX`.
pub open spec fn shifted(lhs: u32, rhs: u32) -> bool {
    lhs + WRAP_THRESHOLD <= u32::MAX || rhs + WRAP_THRESHOLD <= u32::MAX
}

/// The value by which `x` is ordered when it is compared with `other`.
pub open spec fn order_key(x: u32, other: u32) -> u32 {
    if shifted(x, other) {
        wrap_add(x, WRAP_THRESHOLD)
    } else {
        x
    }
}

/// The numeric order of two `u32`s.
pub open spec fn u32_order(a: u32, b: u32) -> Ordering {
    if a < b {
        Ordering::Less
    } else if a > b {
        Ordering::Greater
    } else {
        Ordering::Equal
    }
}

/// The order of two wrapping sequence numbers.
pub open spec fn sequence_order(lhs: u32, rhs: u32) -> Ordering {
    u32_order(order_key(lhs, rhs), order_key(rhs, lhs))
}

/// `lhs` comes before `rhs` in the order of wrapping sequence numbers.
pub open spec fn precedes(lhs: u32, rhs: u32) -> bool {
    sequence_order(lhs, rhs) == Ordering::Less
}

/// A `u32` wrapping sequence number.
#[derive(Copy, Clone, Debug, PartialEq, Eq, Structural, Hash)]
pub struct Sequence(pub u32);

impl Sequence {
    /// Creates a new `Sequence` with the given initial `seq`.
    pub fn new(seq: u32) -> (s: Self)
        ensures
            s.0 == seq,
    {
        Self(seq)
    }

    /// Returns the current value of the `Sequence`.
    pub fn get(self) -> (v: u32)
        ensures
            v == self.0,
    {
        self.0
    }

    /// Sets the current value of the `Sequence`.
    pub fn set(&mut self, val: u32)
        ensures
            final(self).0 == val,
    {
        self.0 = val;
    }

    /// Compares two sequence numbers, allowing for one of them having wrapped around.
    pub fn cmp(&self, other: &Self) -> (r: Ordering)
        ensures
            r == sequence_order(self.0, other.0),
    {
        let (lhs, rhs) = shift_pair(self.0, other.0);
        if lhs < rhs {
            Ordering::Less
        } else if lhs > rhs {
            Ordering::Greater
        } else {
            Ordering::Equal
        }
    }
}

/// Shifts both numbers by the wrap threshold if either of them does not wrap when shifted.
fn shift_pair(lhs: u32, rhs: u32) -> (r: (u32, u32))
    ensures
        r.0 == order_key(lhs, rhs),
        r.1 == order_key(rhs, lhs),
{
    if lhs.checked_add(WRAP_THRESHOLD).is_some() || rhs.checked_add(WRAP_THRESHOLD).is_some() {
        (lhs.wrapping_add(WRAP_THRESHOLD), rhs.wrapping_add(WRAP_THRESHOLD))
    } else {
        (lhs, rhs)
    }
}

impl Add<u32> for Sequence {
    type Output = Self;

    fn add(self, rhs: u32) -> (r: Self) {
        Self(self.0.wrapping_add(rhs))
    }
}

impl AddSpecImpl<u32> for Sequence {
    open spec fn obeys_add_spec() -> bool {
        true
    }

    open spec fn add_req(self, rhs: u32) -> bool {
        true
    }

    open spec fn add_spec(self, rhs: u32) -> Self {
        Sequence(wrap_add(self.0, rhs))
    }
}

impl AddAssign<u32> for Sequence {
    fn add_assign(&mut self, rhs: u32)
        ensures
            final(self).0 == wrap_add(old(self).0, rhs),
    {
        self.0 = self.0.wrapping_add(rhs);
    }
}

impl Sub for Sequence {
    type Output = Self;

    fn sub(self, rhs: Self) -> (r: Self) {
        Self(self.0.wrapping_sub(rhs.0))
    }
}

impl SubSpecImpl for Sequence {
    open spec fn obeys_sub_spec() -> bool {
        true
    }

    open spec fn sub_req(self, rhs: Self) -> bool {
        true
    }

    open spec fn sub_spec(self, rhs: Self) -> Self {
        Sequence(wrap_sub(self.0, rhs.0))
    }
}

impl SubAssign for Sequence {
    fn sub_assign(&mut self, rhs: Self)
        ensures
            final(self).0 == wrap_sub(old(self).0, rhs.0),
    {
        self.0 = self.0.wrapping_sub(rhs.0);
    }
}

impl PartialEq<u32> for Sequence {
    fn eq(&self, other: &u32) -> (r: bool) {
        self.0 == *other
    }
}

impl PartialEqSpecImpl<u32> for Sequence {
    open spec fn obeys_eq_spec() -> bool {
        true
    }

    open spec fn eq_spec(&self, other: &u32) -> bool {
        self.0 == *other
    }
}

impl PartialOrd for Sequence {
    fn partial_cmp(&self, other: &Self) -> (r: Option<Ordering>) {
        Some(self.cmp(other))
    }
}

impl PartialOrdSpecImpl for Sequence {
    open spec fn obeys_partial_cmp_spec() -> bool {
        true
    }

    open spec fn partial_cmp_spec(&self, other: &Self) -> Option<Ordering> {
        Some(sequence_order(self.0, other.0))
    }
}

impl PartialOrd<u32> for Sequence {
    fn partial_cmp(&self, other: &u32) -> (r: Option<Ordering>) {
        Some(self.cmp(&Self(*other)))
    }
}

impl PartialOrdSpecImpl<u32> for Sequence {
    open spec fn obeys_partial_cmp_spec() -> bool {
        true
    }

    open spec fn partial_cmp_spec(&self, other: &u32) -> Option<Ordering> {
        Some(sequence_order(self.0, *other))
    }
}

impl From<Sequence> for u32 {
    fn from(src: Sequence) -> (r: u32) {
        src.0
    }
}

impl FromSpecImpl<Sequence> for u32 {
    open spec fn obeys_from_spec() -> bool {
        true
    }

    open spec fn from_spec(src: Sequence) -> u32 {
        src.0
    }
}

impl From<u32> for Sequence {
    fn from(src: u32) -> (r: Sequence) {
        Self(src)
    }
}

impl FromSpecImpl<u32> for Sequence {
    open spec fn obeys_from_spec() -> bool {
        true
    }

    open spec fn from_spec(src: u32) -> Sequence {
        Sequence(src)
    }
}

/// Subtracting what was added gives back the sequence number it started from.
pub proof fn lemma_sequence_sub_undoes_add(a: u32, n: u32)
    ensures
        wrap_sub(wrap_add(a, n), n) == a,
{
}

/// The order of wrapping sequence numbers is antisymmetric, and only equal numbers compare
/// equal.
pub proof fn lemma_sequence_order_antisymmetric(a: u32, b: u32)
    ensures
        (sequence_order(a, b) == Ordering::Less) <==> (sequence_order(b, a) == Ordering::Greater),
        (sequence_order(a, b) == Ordering::Equal) <==> a == b,
{
}

/// Below the wrap threshold, sequence numbers are ordered as plain integers.
pub proof fn lemma_sequence_order_plain(a: u32, b: u32)
    requires
        a + WRAP_THRESHOLD <= u32::MAX,
        b + WRAP_THRESHOLD <= u32::MAX,
    ensures
        sequence_order(a, b) == u32_order(a, b),
{
}

} // verus!
