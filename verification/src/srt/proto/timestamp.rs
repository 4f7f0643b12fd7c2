//! SRT timestamps: microseconds since the start of a connection, compared as serial numbers.
use vstd::prelude::*;
use core::cmp::Ordering;
use core::time::Duration;
use vstd::std_specs::cmp::{PartialEqSpecImpl, PartialOrdSpecImpl};
use vstd::std_specs::convert::FromSpecImpl;
use crate::codec::{be32, u32_at, put_u32, get_u32};
use crate::serial::{self, serial_order};
use crate::srt::Error;

verus! {

/// The start of the wrapping period: 30 seconds before the timestamp wraps at `u32::MAX`.
pub const WRAP_PERIOD: u32 = 0xFE36_3C7Fu32;

/// The duration of `micros` microseconds.
pub uninterp spec fn duration_of_micros(micros: u64) -> Duration;

/// Makes the duration of `micros` microseconds.
///
/// Calls `Duration::from_micros`; the contract names its result, which depends on `micros`
/// alone.
#[verifier::external_body]
fn duration_from_micros(micros: u64) -> (d: Duration)
    ensures
        d == duration_of_micros(micros),
{
    Duration::from_micros(micros)
}

/// A SRT timestamp.
///
/// The timestamp wraps around every 01:11:35 hours (`0xFFFF_FFFF`). The wrapping period starts
/// 30 seconds before that point (`0xFE36_3c7F`). Timestamps are compared as 32-bit serial
/// numbers.
#[derive(Copy, Clone, Debug, Hash)]
pub struct Timestamp {
    /// Timestamp relative to connection start in microseconds.
    pub timestamp: u32,
}

/// The duration of a timestamp.
pub open spec fn timestamp_duration(t: Timestamp) -> Duration {
    duration_of_micros(t.timestamp as u64)
}

impl Timestamp {
    /// The timestamp 0.
    pub fn default() -> (t: Self)
        ensures
            t.timestamp == 0,
    {
        Self { timestamp: 0 }
    }

    /// Creates a new `Timestamp` based on the number of `micros` since start of the stream.
    pub fn from_micros(micros: u32) -> (t: Self)
        ensures
            t.timestamp == micros,
    {
        Self { timestamp: micros }
    }

    /// Returns the `Timestamp` as microseconds since stream start.
    pub fn as_micros(self) -> (m: u32)
        ensures
            m == self.timestamp,
    {
        self.timestamp
    }

    /// Returns the `Timestamp` as a [`Duration`] since stream start.
    pub fn to_duration(self) -> (d: Duration)
        ensures
            d == timestamp_duration(self),
    {
        duration_from_micros(self.timestamp as u64)
    }

    /// Returns `true` if the delivered timestamp is within the wrapping period.
    pub fn is_wrapping(self) -> (b: bool)
        ensures
            b == (self.timestamp >= WRAP_PERIOD),
    {
        self.timestamp >= WRAP_PERIOD
    }

    /// Compares two timestamps as 32-bit serial numbers.
    pub fn cmp(&self, other: &Self) -> (r: Ordering)
        ensures
            r == serial_order(self.timestamp, other.timestamp, 32),
    {
        serial::cmp::<32>(self.timestamp, other.timestamp)
    }

    /// Appends the four bytes of the timestamp to `buf`.
    pub fn encode(&self, buf: &mut Vec<u8>)
        ensures
            final(buf)@ == old(buf)@ + be32(self.timestamp),
    {
        put_u32(buf, self.timestamp);
    }

    /// Decodes a timestamp at `pos`; fails when fewer than four bytes remain.
    pub fn decode_at(buf: &[u8], pos: usize) -> (r: Result<Self, Error>)
        ensures
            pos + 4 <= buf@.len() ==> (r matches Ok(t) && t.timestamp == u32_at(buf@, pos as int)),
            pos + 4 > buf@.len() ==> (r matches Err(e) && e == Error::UnexpectedEof),
    {
        let n = buf.len();
        if pos > n || n - pos < 4 {
            return Err(Error::UnexpectedEof);
        }
        Ok(Self { timestamp: get_u32(buf, pos) })
    }
}

impl From<Timestamp> for Duration {
    fn from(value: Timestamp) -> (d: Duration) {
        value.to_duration()
    }
}

impl FromSpecImpl<Timestamp> for Duration {
    open spec fn obeys_from_spec() -> bool {
        true
    }

    open spec fn from_spec(value: Timestamp) -> Duration {
        timestamp_duration(value)
    }
}

impl PartialEq for Timestamp {
    fn eq(&self, other: &Self) -> (r: bool) {
        match self.cmp(other) {
            Ordering::Equal => true,
            _ => false,
        }
    }
}

impl PartialEqSpecImpl for Timestamp {
    open spec fn obeys_eq_spec() -> bool {
        true
    }

    open spec fn eq_spec(&self, other: &Self) -> bool {
        serial_order(self.timestamp, other.timestamp, 32) == Ordering::Equal
    }
}

impl Eq for Timestamp {
}

impl PartialOrd for Timestamp {
    fn partial_cmp(&self, other: &Self) -> (r: Option<Ordering>) {
        Some(self.cmp(other))
    }
}

impl PartialOrdSpecImpl for Timestamp {
    open spec fn obeys_partial_cmp_spec() -> bool {
        true
    }

    open spec fn partial_cmp_spec(&self, other: &Self) -> Option<Ordering> {
        Some(serial_order(self.timestamp, other.timestamp, 32))
    }
}

} // verus!
