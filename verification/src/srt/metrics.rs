//! The statistics of the server and of each connection.
use vstd::prelude::*;
use crate::metrics::{Counter, Gauge};
use super::PacketType;
use vstd::wrapping::u64_specs::{wrapping_add, wrapping_mul};

verus! {

/// Statistics of the whole server.
#[derive(Debug, Default)]
pub struct ServerMetrics {
    pub connections_total: Counter,
    pub connections_publish_current: Gauge,
    pub connections_request_current: Gauge,
    pub connections_handshake_current: Gauge,
}

impl ServerMetrics {
    /// All statistics at 0.
    pub fn new() -> (m: Self)
        ensures
            m.connections_total.value == 0,
            m.connections_publish_current.value == 0,
            m.connections_request_current.value == 0,
            m.connections_handshake_current.value == 0,
    {
        Self {
            connections_total: Counter::new(),
            connections_publish_current: Gauge::new(),
            connections_request_current: Gauge::new(),
            connections_handshake_current: Gauge::new(),
        }
    }
}

/// Statistics of one connection.
#[derive(Debug, Default)]
pub struct ConnectionMetrics {
    pub ctrl_packets_sent: Counter,
    pub ctrl_packets_recv: Counter,
    pub ctrl_packets_lost: Counter,
    pub ctrl_bytes_sent: Counter,
    pub ctrl_bytes_recv: Counter,
    pub ctrl_bytes_lost: Counter,
    pub data_packets_sent: StreamMetrics,
    pub data_packets_recv: StreamMetrics,
    pub data_bytes_sent: StreamMetrics,
    pub data_bytes_recv: StreamMetrics,
    pub rtt: Gauge,
    pub rtt_variance: Gauge,
}

/// `c` after counting `n` more, wrapping around at `u64::MAX`.
pub open spec fn counted(c: Counter, n: u64) -> Counter {
    Counter { value: wrapping_add(c.value, n) }
}

/// The statistics after a packet of type `t` and `size` bytes was sent: one more packet and
/// `size` more bytes of its kind (control, or data sent normally); nothing else changes.
pub open spec fn sent(m: ConnectionMetrics, t: PacketType, size: u64) -> ConnectionMetrics {
    match t {
        PacketType::Data => ConnectionMetrics {
            data_packets_sent: StreamMetrics { original: counted(m.data_packets_sent.original, 1), ..m.data_packets_sent },
            data_bytes_sent: StreamMetrics { original: counted(m.data_bytes_sent.original, size), ..m.data_bytes_sent },
            ..m
        },
        PacketType::Control => ConnectionMetrics {
            ctrl_packets_sent: counted(m.ctrl_packets_sent, 1),
            ctrl_bytes_sent: counted(m.ctrl_bytes_sent, size),
            ..m
        },
    }
}

/// The statistics after a packet of type `t` and `size` bytes was received: one more packet
/// and `size` more bytes of its kind; nothing else changes.
pub open spec fn received(m: ConnectionMetrics, t: PacketType, size: u64) -> ConnectionMetrics {
    match t {
        PacketType::Data => ConnectionMetrics {
            data_packets_recv: StreamMetrics { original: counted(m.data_packets_recv.original, 1), ..m.data_packets_recv },
            data_bytes_recv: StreamMetrics { original: counted(m.data_bytes_recv.original, size), ..m.data_bytes_recv },
            ..m
        },
        PacketType::Control => ConnectionMetrics {
            ctrl_packets_recv: counted(m.ctrl_packets_recv, 1),
            ctrl_bytes_recv: counted(m.ctrl_bytes_recv, size),
            ..m
        },
    }
}

/// The statistics after `packets` received data packets of up to `mtu` bytes each were given
/// up as lost; nothing else changes.
pub open spec fn lost(m: ConnectionMetrics, packets: u64, mtu: u32) -> ConnectionMetrics {
    ConnectionMetrics {
        data_packets_recv: StreamMetrics { lost: counted(m.data_packets_recv.lost, packets), ..m.data_packets_recv },
        data_bytes_recv: StreamMetrics {
            lost: counted(m.data_bytes_recv.lost, wrapping_mul(packets, mtu as u64)),
            ..m.data_bytes_recv
        },
        ..m
    }
}

impl ConnectionMetrics {
    /// Every statistic is 0.
    pub open spec fn is_zero(self) -> bool {
        &&& self.ctrl_packets_sent.value == 0
        &&& self.ctrl_packets_recv.value == 0
        &&& self.ctrl_packets_lost.value == 0
        &&& self.ctrl_bytes_sent.value == 0
        &&& self.ctrl_bytes_recv.value == 0
        &&& self.ctrl_bytes_lost.value == 0
        &&& self.data_packets_sent.is_zero()
        &&& self.data_packets_recv.is_zero()
        &&& self.data_bytes_sent.is_zero()
        &&& self.data_bytes_recv.is_zero()
        &&& self.rtt.value == 0
        &&& self.rtt_variance.value == 0
    }

    /// All statistics at 0.
    pub fn new() -> (m: Self)
        ensures
            m.is_zero(),
    {
        Self {
            ctrl_packets_sent: Counter::new(),
            ctrl_packets_recv: Counter::new(),
            ctrl_packets_lost: Counter::new(),
            ctrl_bytes_sent: Counter::new(),
            ctrl_bytes_recv: Counter::new(),
            ctrl_bytes_lost: Counter::new(),
            data_packets_sent: StreamMetrics::new(),
            data_packets_recv: StreamMetrics::new(),
            data_bytes_sent: StreamMetrics::new(),
            data_bytes_recv: StreamMetrics::new(),
            rtt: Gauge::new(),
            rtt_variance: Gauge::new(),
        }
    }

    /// Counts a packet of type `t` and `size` bytes that was sent.
    pub fn record_sent(&mut self, t: PacketType, size: u64)
        ensures
            *final(self) == sent(*old(self), t, size),
    {
        match t {
            PacketType::Data => {
                self.data_packets_sent.original.inc();
                self.data_bytes_sent.original.add(size);
            },
            PacketType::Control => {
                self.ctrl_packets_sent.inc();
                self.ctrl_bytes_sent.add(size);
            },
        }
    }

    /// Counts a packet of type `t` and `size` bytes that was received.
    pub fn record_recv(&mut self, t: PacketType, size: u64)
        ensures
            *final(self) == received(*old(self), t, size),
    {
        match t {
            PacketType::Data => {
                self.data_packets_recv.original.inc();
                self.data_bytes_recv.original.add(size);
            },
            PacketType::Control => {
                self.ctrl_packets_recv.inc();
                self.ctrl_bytes_recv.add(size);
            },
        }
    }

    /// Counts `packets` received data packets, of up to `mtu` bytes each, as lost.
    pub fn record_lost(&mut self, packets: u64, mtu: u32)
        ensures
            *final(self) == lost(*old(self), packets, mtu),
    {
        self.data_packets_recv.lost.add(packets);
        self.data_bytes_recv.lost.add(packets.wrapping_mul(mtu as u64));
    }
}

/// Statistics of one direction of a data stream.
#[derive(Debug, Default)]
pub struct StreamMetrics {
    /// Normally transmitted frames.
    pub original: Counter,
    /// Frames accepted as retransmitted frames.
    pub retransmitted: Counter,
    /// Frames dropped due to being invalid, i.e. frames that arrived as duplicates
    /// or considered invalid.
    pub dropped: Counter,
    /// Frames that have been irrecoverably lost.
    pub lost: Counter,
}

impl StreamMetrics {
    /// All four counters are 0.
    pub open spec fn is_zero(self) -> bool {
        self.original.value == 0 && self.retransmitted.value == 0 && self.dropped.value == 0
            && self.lost.value == 0
    }

    /// All statistics at 0.
    pub fn new() -> (m: Self)
        ensures
            m.is_zero(),
    {
        Self {
            original: Counter::new(),
            dropped: Counter::new(),
            retransmitted: Counter::new(),
            lost: Counter::new(),
        }
    }
}

} // verus!
