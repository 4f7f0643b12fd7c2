//! 26-bit message numbers with serial number arithmetic (RFC 1982).
use vstd::prelude::*;
use core::cmp::Ordering;
use core::ops::{Add, AddAssign};
use vstd::std_specs::cmp::PartialOrdSpecImpl;
use vstd::std_specs::ops::AddSpecImpl;
use vstd::std_specs::convert::FromSpecImpl;
use crate::serial::{self, add_value, serial_order};

verus! {

/// The number of bits of a message number.
pub const BITS: usize = 26;

/// A 26-bit message number.
#[derive(Copy, Clone, Debug, PartialEq, Eq, Structural, Hash)]
pub struct MessageNumber(pub u32);

impl MessageNumber {
    /// Creates a new `MessageNumber` with the given initial value, which must fit into 26 bits.
    pub fn new(num: u32) -> (m: Self)
        requires
            num <= 0x3ff_ffff,
        ensures
            m.0 == num,
    {
        Self(num)
    }

    /// Creates a new `MessageNumber` from a value that fits into 26 bits.
    pub fn new_unchecked(num: u32) -> (m: Self)
        requires
            num <= 0x3ff_ffff,
        ensures
            m.0 == num,
    {
        Self(num)
    }

    /// Returns the current value as a `u32`.
    pub fn get(self) -> (v: u32)
        ensures
            v == self.0,
    {
        self.0
    }

    /// Compares two message numbers with serial number comparison.
    pub fn cmp(&self, other: &Self) -> (r: Ordering)
        ensures
            r == serial_order(self.0, other.0, BITS),
    {
        serial::cmp::<BITS>(self.0, other.0)
    }
}

impl Add<u32> for MessageNumber {
    type Output = Self;

    fn add(self, rhs: u32) -> (r: Self) {
        Self(serial::add::<BITS>(self.0, rhs))
    }
}

impl AddSpecImpl<u32> for MessageNumber {
    open spec fn obeys_add_spec() -> bool {
        true
    }

    open spec fn add_req(self, rhs: u32) -> bool {
        true
    }

    open spec fn add_spec(self, rhs: u32) -> Self {
        MessageNumber(add_value(self.0, rhs, BITS))
    }
}

impl AddAssign<u32> for MessageNumber {
    fn add_assign(&mut self, rhs: u32)
        ensures
            final(self).0 == add_value(old(self).0, rhs, BITS),
    {
        self.0 = serial::add::<BITS>(self.0, rhs);
    }
}

impl PartialOrd for MessageNumber {
    fn partial_cmp(&self, other: &Self) -> (r: Option<Ordering>) {
        Some(self.cmp(other))
    }
}

impl PartialOrdSpecImpl for MessageNumber {
    open spec fn obeys_partial_cmp_spec() -> bool {
        true
    }

    open spec fn partial_cmp_spec(&self, other: &Self) -> Option<Ordering> {
        Some(serial_order(self.0, other.0, BITS))
    }
}

impl From<MessageNumber> for u32 {
    fn from(src: MessageNumber) -> (r: u32) {
        src.0
    }
}

impl FromSpecImpl<MessageNumber> for u32 {
    open spec fn obeys_from_spec() -> bool {
        true
    }

    open spec fn from_spec(src: MessageNumber) -> u32 {
        src.0
    }
}

} // verus!
