//! Counters and gauges for the server's statistics.
use vstd::prelude::*;

verus! {

/// A counter that only goes up; it wraps around at `u64::MAX`.
#[derive(Copy, Clone, Debug, Default)]
pub struct Counter {
    pub value: u64,
}

impl Counter {
    /// A counter at 0.
    pub fn new() -> (c: Self)
        ensures
            c.value == 0,
    {
        Counter { value: 0 }
    }

    /// The current count.
    pub fn get(&self) -> (v: u64)
        ensures
            v == self.value,
    {
        self.value
    }

    /// Adds `n` to the count, wrapping around at `u64::MAX`.
    pub fn add(&mut self, n: u64)
        ensures
            final(self).value == vstd::wrapping::u64_specs::wrapping_add(old(self).value, n),
    {
        self.value = self.value.wrapping_add(n);
    }

    /// Adds one to the count, wrapping around at `u64::MAX`.
    pub fn inc(&mut self)
        ensures
            final(self).value == vstd::wrapping::u64_specs::wrapping_add(old(self).value, 1),
    {
        self.value = self.value.wrapping_add(1);
    }
}

/// A value that is set to the current reading.
#[derive(Copy, Clone, Debug, Default)]
pub struct Gauge {
    pub value: u64,
}

impl Gauge {
    /// A gauge at 0.
    pub fn new() -> (g: Self)
        ensures
            g.value == 0,
    {
        Gauge { value: 0 }
    }

    /// The current reading.
    pub fn get(&self) -> (v: u64)
        ensures
            v == self.value,
    {
        self.value
    }

    /// Sets the reading.
    pub fn set(&mut self, v: u64)
        ensures
            final(self).value == v,
    {
        self.value = v;
    }
}

} // verus!
