use stsync_proxy::metrics::{Counter, Gauge};
use stsync_proxy::srt::config::Workers;
use stsync_proxy::srt::metrics::{ConnectionMetrics, ServerMetrics, StreamMetrics};
use stsync_proxy::srt::state::{cookie_from_bits, random, SocketId};
use stsync_proxy::srt::PacketType;

#[test]
fn metrics_start_at_zero() {
    let m = ServerMetrics::new();
    assert_eq!(m.connections_total.get(), 0);
    let c = ConnectionMetrics::new();
    assert_eq!(c.ctrl_bytes_lost.get(), 0);
    assert_eq!(c.data_packets_recv.original.get(), 0);
    let s = StreamMetrics::new();
    assert_eq!(s.lost.get(), 0);
}

#[test]
fn counter_wraps_and_gauge_is_set() {
    let mut c = Counter::new();
    c.inc();
    c.add(41);
    assert_eq!(c.get(), 42);
    c.add(u64::MAX);
    assert_eq!(c.get(), 41);
    let mut g = Gauge::new();
    g.set(7);
    assert_eq!(g.get(), 7);
}

#[test]
fn workers_default_to_parallelism() {
    assert_eq!(Workers(Some(3)).get(Some(8)), 3);
    assert_eq!(Workers(None).get(Some(8)), 8);
    assert_eq!(Workers(None).get(None), 1);
}

#[test]
fn socket_ids_compare_with_numbers() {
    let id = SocketId::from(5);
    assert!(id == 5);
    assert!(id != 6);
    assert_eq!(id, SocketId(5));
}

#[test]
fn cookies_have_31_bits() {
    for _ in 0..100 {
        if let Some(cookie) = random() {
            assert!(cookie <= 0x7fff_ffff);
        }
    }
}

#[test]
fn sent_and_received_packets_are_counted_by_type() {
    let mut m = ConnectionMetrics::new();
    m.record_sent(PacketType::Data, 1316);
    m.record_sent(PacketType::Control, 16);
    m.record_recv(PacketType::Control, 64);
    m.record_recv(PacketType::Control, 20);
    assert_eq!(m.data_packets_sent.original.get(), 1);
    assert_eq!(m.data_bytes_sent.original.get(), 1316);
    assert_eq!(m.ctrl_packets_sent.get(), 1);
    assert_eq!(m.ctrl_bytes_sent.get(), 16);
    assert_eq!(m.ctrl_packets_recv.get(), 2);
    assert_eq!(m.ctrl_bytes_recv.get(), 84);
    assert_eq!(m.data_packets_recv.original.get(), 0);
    assert_eq!(m.data_bytes_recv.original.get(), 0);
    m.record_lost(2, 1500);
    assert_eq!(m.data_packets_recv.lost.get(), 2);
    assert_eq!(m.data_bytes_recv.lost.get(), 3000);
    assert_eq!(m.data_packets_recv.original.get(), 0);
}

#[test]
fn cookies_are_the_upper_bits() {
    assert_eq!(cookie_from_bits(0xffff_ffff), 0x7fff_ffff);
    assert_eq!(cookie_from_bits(0x8000_0001), 0x4000_0000);
    assert_eq!(cookie_from_bits(1), 0);
}
