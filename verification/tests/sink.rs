use stsync_proxy::srt::sink::{OutputSink, SegmentQueue, Take};
use stsync_proxy::srt::DataPacket;

fn packet(seq: u32, msg: u32, timestamp: u32, payload: Vec<u8>) -> DataPacket {
    let mut p = DataPacket::default();
    p.set_packet_sequence_number(seq);
    p.set_message_number(msg);
    p.header.timestamp = timestamp;
    p.data = payload;
    p
}

#[test]
fn segments_leave_in_message_order_once_due() {
    let mut queue = SegmentQueue::new(1_000, 500, 10);
    queue.push(packet(3, 3, 30, vec![3]));
    queue.push(packet(1, 1, 10, vec![1, 1]));
    queue.push(packet(2, 2, 20, vec![2]));
    assert_eq!(queue.len(), 3);
    assert_eq!(queue.size, 4);
    assert_eq!(queue.first().unwrap().delivery_time, 1_510);

    assert!(matches!(queue.take(1_000), Take::Wait(1_510)));
    match queue.take(1_510) {
        Take::Ready(Some(s)) => {
            assert_eq!(s.payload, vec![1, 1]);
            assert_eq!(s.sequence.0, 1);
            assert_eq!(s.message_number.0, 1);
        }
        _ => panic!("expected the first segment"),
    }
    assert_eq!(queue.size, 2);
    match queue.take(2_000) {
        Take::Ready(Some(s)) => assert_eq!(s.payload, vec![2]),
        _ => panic!("expected the second segment"),
    }
    assert_eq!(queue.pop_first().unwrap().payload, vec![3]);
    assert!(matches!(queue.take(2_000), Take::Ready(None)));
    assert!(queue.is_empty());
}

#[test]
fn duplicates_are_queued_once() {
    let mut queue = SegmentQueue::new(0, 0, 10);
    queue.push(packet(1, 5, 10, vec![1]));
    queue.push(packet(1, 5, 10, vec![1]));
    assert_eq!(queue.len(), 1);
    assert_eq!(queue.size, 1);
    queue.clear();
    assert_eq!(queue.size, 0);
}

#[test]
fn message_numbers_wrap_around() {
    let mut queue = SegmentQueue::new(0, 0, 10);
    queue.push(packet(2, 1, 0, vec![2]));
    queue.push(packet(1, 0x3ff_ffff, 0, vec![1]));
    assert_eq!(queue.pop_first().unwrap().payload, vec![1]);
}

#[test]
fn full_queue_drops_packets() {
    let mut queue = SegmentQueue::new(0, 0, 1);
    queue.push(packet(1, 1, 0, vec![1]));
    queue.push(packet(2, 2, 0, vec![2]));
    queue.push(packet(3, 3, 0, vec![3]));
    assert_eq!(queue.len(), 2);
    assert_eq!(queue.size, 2);
}

#[test]
fn output_sink_reports_capacity() {
    let mut sink = OutputSink::new(0, 0, 8192);
    assert_eq!(sink.next_msgnum, 1);
    assert_eq!(sink.buffer_left(), 8192);
    sink.queue.push(packet(1, 1, 0, vec![1]));
    assert_eq!(sink.buffer_left(), 8191);
}
