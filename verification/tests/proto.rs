use stsync_proxy::srt::proto::SequenceNumbers;

#[test]
fn test_sequence_numbers() {
    let buf: &[u8] = &[0x86, 0x2D, 0x67, 0xFA, 0x06, 0x2D, 0x68, 0x13];
    let seqnum = SequenceNumbers::decode(buf).unwrap().0;

    assert_eq!(seqnum, 103639034..=103639059);
}

#[test]
fn test_sequence_numbers_iter() {
    let mut iter = SequenceNumbers::Single(69).iter();
    assert_eq!(iter.len(), 1);
    assert_eq!(iter.next(), Some(69));
    assert_eq!(iter.next(), None);

    let mut iter = SequenceNumbers::Range(1..=5).iter();
    assert_eq!(iter.len(), 5);
    assert_eq!(iter.next(), Some(1));
    assert_eq!(iter.next(), Some(2));
    assert_eq!(iter.next(), Some(3));
    assert_eq!(iter.next(), Some(4));
    assert_eq!(iter.next(), Some(5));
    assert_eq!(iter.next(), None);
}

#[test]
fn sequence_numbers_len_counts_both_ends() {
    assert_eq!(SequenceNumbers::Range(1..=5).len(), 5);
    assert_eq!(SequenceNumbers::Single(69).len(), 1);
}

#[test]
fn sequence_number_range_roundtrip() {
    let mut buf = Vec::new();
    SequenceNumbers::Range(10..=20).encode(&mut buf);
    assert_eq!(buf, vec![0x80, 0, 0, 10, 0, 0, 0, 20]);
    let (back, used) = SequenceNumbers::decode(&buf).unwrap();
    assert!(back == (10..=20));
    assert!(matches!(back, SequenceNumbers::Range(_)));
    assert_eq!(used, 8);

    let mut buf = Vec::new();
    SequenceNumbers::Single(7).encode(&mut buf);
    assert_eq!(buf, vec![0, 0, 0, 7]);
    let (back, used) = SequenceNumbers::decode(&buf).unwrap();
    assert!(matches!(back, SequenceNumbers::Single(7)));
    assert_eq!(used, 4);
}

#[test]
fn sequence_numbers_from_half_open_range() {
    let s = SequenceNumbers::from_range(1..5);
    assert!(matches!(s, SequenceNumbers::Range(_)));
    assert!(s == (1..=4));
    assert!(matches!(SequenceNumbers::from_range(7..8), SequenceNumbers::Single(7)));
}
