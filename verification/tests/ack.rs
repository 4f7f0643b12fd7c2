use stsync_proxy::srt::ack::{ack, ackack, send_ack};
use stsync_proxy::srt::conn::{AckQueue, Rtt};
use stsync_proxy::srt::data::handle_data;
use stsync_proxy::srt::nak::nak;
use stsync_proxy::srt::proto::{Ack, AckAck, Nak, SequenceNumbers};

#[test]
fn ack_is_answered_and_wakes_on_new_space() {
    let packet = Ack::builder().acknowledgement_number(17).avaliable_buffer_size(10).build();
    let mut avail = 0;
    let (reply, wake) = ack(&packet, &mut avail);
    assert_eq!(reply.acknowledgement_number(), 17);
    assert!(wake);
    assert_eq!(avail, 10);
    let (_, wake) = ack(&packet, &mut avail);
    assert!(!wake);
}

#[test]
fn ackack_drains_the_queue_and_measures() {
    let mut queue = AckQueue::new();
    queue.push_back(1, 100);
    queue.push_back(2, 200);
    queue.push_back(1, 300);
    let packet = AckAck::builder().acknowledgement_number(1).build();
    assert_eq!(ackack(&packet, &mut queue, 1_000), Some(700));
    assert!(queue.pop_front().is_none());

    queue.push_back(5, 100);
    let packet = AckAck::builder().acknowledgement_number(6).build();
    assert_eq!(ackack(&packet, &mut queue, 1_000), None);
    assert!(queue.last().is_none());
}

#[test]
fn periodic_ack_takes_the_next_number() {
    let mut server = u32::MAX;
    let mut queue = AckQueue::new();
    let rtt = Rtt::new();
    let packet = send_ack(55, rtt, &mut server, &mut queue, 9, 1234, 77);
    assert_eq!(packet.acknowledgement_number(), u32::MAX);
    assert_eq!(server, 0);
    assert_eq!(packet.last_acknowledged_packet_sequence_number, 55);
    assert_eq!(packet.rtt, 100_000);
    assert_eq!(packet.avaliable_buffer_size, 5000);
    assert_eq!(packet.header.0.destination_socket_id, 9);
    assert_eq!(packet.header.0.timestamp, 1234);
    assert_eq!(queue.last(), Some((u32::MAX, 77)));
}

#[test]
fn nak_is_answered_with_a_drop_request() {
    let packet = Nak::builder().lost_packet_sequence_numbers(SequenceNumbers::from(10..=20)).build();
    let drop = nak(&packet);
    assert_eq!(drop.first_packet_sequence_number, 10);
    assert_eq!(drop.last_packet_sequence_number, 20);
    assert_eq!(drop.message_number(), 0);
}

#[test]
fn data_records_the_expected_number_as_lost() {
    let mut client = 5;
    let mut lost = vec![3, 7];
    handle_data(7, &mut client, &mut lost);
    assert_eq!(client, 6);
    assert_eq!(lost, vec![3, 5]);
    handle_data(6, &mut client, &mut lost);
    assert_eq!(client, 7);
    assert_eq!(lost, vec![3, 5]);
    handle_data(3, &mut client, &mut lost);
    assert_eq!(lost, vec![5, 7]);
}
