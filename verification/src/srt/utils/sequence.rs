//! 31-bit packet sequence numbers with serial number arithmetic (RFC 1982).
use vstd::prelude::*;
use core::cmp::Ordering;
use core::ops::{Add, AddAssign, Sub, SubAssign};
use vstd::std_specs::cmp::{PartialEqSpecImpl, PartialOrdSpecImpl};
use vstd::std_specs::ops::{AddSpecImpl, SubSpecImpl};
use vstd::std_specs::convert::FromSpecImpl;
use crate::serial::{self, add_value, sub_value, serial_order};

verus! {

/// The number of bits of a packet sequence number.
pub const BITS: usize = 31;

/// A 31-bit packet sequence number.
#[derive(Copy, Clone, Debug, PartialEq, Eq, Structural, Hash)]
pub struct Sequence(pub u32);

impl Sequence {
    /// Creates a new `Sequence` with the given initial `seq`.
    pub fn new(seq: u32) -> (s: Self)
        ensures
            s.0 == seq,
    {
        Self(seq)
    }

    /// Creates a new `Sequence` from a value that fits into 31 bits.
    pub fn new_unchecked(seq: u32) -> (s: Self)
        requires
            seq <= 0x7fff_ffff,
        ensures
            s.0 == seq,
    {
        Self(seq)
    }

    /// Returns the current value of the `Sequence`.
    pub fn get(self) -> (v: u32)
        ensures
            v == self.0,
    {
        self.0
    }

    /// Sets the current value of the `Sequence`.
    pub fn set(&mut self, val: u32)
        ensures
            final(self).0 == val,
    {
        self.0 = val;
    }

    /// Compares two sequence numbers with serial number comparison.
    pub fn cmp(&self, other: &Self) -> (r: Ordering)
        ensures
            r == serial_order(self.0, other.0, BITS),
    {
        serial::cmp::<BITS>(self.0, other.0)
    }
}

impl Add<u32> for Sequence {
    type Output = Self;

    fn add(self, rhs: u32) -> (r: Self) {
        Self(serial::add::<BITS>(self.0, rhs))
    }
}

impl AddSpecImpl<u32> for Sequence {
    open spec fn obeys_add_spec() -> bool {
        true
    }

    open spec fn add_req(self, rhs: u32) -> bool {
        true
    }

    open spec fn add_spec(self, rhs: u32) -> Self {
        Sequence(add_value(self.0, rhs, BITS))
    }
}

impl AddAssign<u32> for Sequence {
    fn add_assign(&mut self, rhs: u32)
        ensures
            final(self).0 == add_value(old(self).0, rhs, BITS),
    {
        self.0 = serial::add::<BITS>(self.0, rhs);
    }
}

impl Sub for Sequence {
    type Output = Self;

    fn sub(self, rhs: Self) -> (r: Self) {
        Self(serial::sub::<BITS>(self.0, rhs.0))
    }
}

impl SubSpecImpl for Sequence {
    open spec fn obeys_sub_spec() -> bool {
        true
    }

    open spec fn sub_req(self, rhs: Self) -> bool {
        true
    }

    open spec fn sub_spec(self, rhs: Self) -> Self {
        Sequence(sub_value(self.0, rhs.0, BITS))
    }
}

impl SubAssign for Sequence {
    fn sub_assign(&mut self, rhs: Self)
        ensures
            final(self).0 == sub_value(old(self).0, rhs.0, BITS),
    {
        self.0 = serial::sub::<BITS>(self.0, rhs.0);
    }
}

impl PartialEq<u32> for Sequence {
    fn eq(&self, other: &u32) -> (r: bool) {
        self.0 == *other
    }
}

impl PartialEqSpecImpl<u32> for Sequence {
    open spec fn obeys_eq_spec() -> bool {
        true
    }

    open spec fn eq_spec(&self, other: &u32) -> bool {
        self.0 == *other
    }
}

impl PartialOrd for Sequence {
    fn partial_cmp(&self, other: &Self) -> (r: Option<Ordering>) {
        Some(self.cmp(other))
    }
}

impl PartialOrdSpecImpl for Sequence {
    open spec fn obeys_partial_cmp_spec() -> bool {
        true
    }

    open spec fn partial_cmp_spec(&self, other: &Self) -> Option<Ordering> {
        Some(serial_order(self.0, other.0, BITS))
    }
}

impl PartialOrd<u32> for Sequence {
    fn partial_cmp(&self, other: &u32) -> (r: Option<Ordering>) {
        Some(self.cmp(&Self(*other)))
    }
}

impl PartialOrdSpecImpl<u32> for Sequence {
    open spec fn obeys_partial_cmp_spec() -> bool {
        true
    }

    open spec fn partial_cmp_spec(&self, other: &u32) -> Option<Ordering> {
        Some(serial_order(self.0, *other, BITS))
    }
}

impl From<Sequence> for u32 {
    fn from(src: Sequence) -> (r: u32) {
        src.0
    }
}

impl FromSpecImpl<Sequence> for u32 {
    open spec fn obeys_from_spec() -> bool {
        true
    }

    open spec fn from_spec(src: Sequence) -> u32 {
        src.0
    }
}

impl From<u32> for Sequence {
    fn from(src: u32) -> (r: Sequence) {
        Self(src)
    }
}

impl FromSpecImpl<u32> for Sequence {
    open spec fn obeys_from_spec() -> bool {
        true
    }

    open spec fn from_spec(src: u32) -> Sequence {
        Sequence(src)
    }
}

} // verus!
