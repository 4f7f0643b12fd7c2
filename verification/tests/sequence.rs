use stsync_proxy::srt::utils::message::MessageNumber;
use stsync_proxy::srt::utils::sequence::Sequence as Sequence31;
use stsync_proxy::srt::utils::Sequence;

#[test]
fn mod_test_sequence() {
    let mut seq = Sequence::new(0);
    assert_eq!(seq.0, 0);

    seq += 1;
    assert_eq!(seq.0, 1);

    seq += u32::MAX - 1;
    assert_eq!(seq.0, u32::MAX);

    seq += 255;
    assert_eq!(seq.0, 254);
}

#[test]
fn mod_test_sequence_partial_cmp() {
    let mut seq = Sequence::new(0);

    assert!(seq == 0);
    assert!(seq < 1);

    seq += 2000;

    assert!(seq > 1999);
    assert!(seq == 2000);
    assert!(seq < 2001);

    let mut seq = Sequence::new(u32::MAX);

    assert!(seq == u32::MAX);
    assert!(seq > u32::MAX - 1);
    assert!(seq < 0);

    seq += 1;

    assert!(seq == 0);
    assert!(seq > u32::MAX);
    assert!(seq < 1);
}

#[test]
fn sequence_test_sequence() {
    let mut seq = Sequence31::new(0);
    assert_eq!(seq.0, 0);

    seq += 1;
    assert_eq!(seq.0, 1);

    seq += (1 << 31) - 2;
    assert_eq!(seq.0, (1 << 31) - 1);

    seq += 255;
    assert_eq!(seq.0, 254);
}

#[test]
fn sequence_test_sequence_partial_cmp() {
    let mut seq = Sequence31::new(0);

    assert!(seq == 0);
    assert!(seq < 1);

    seq += 2000;

    assert!(seq > 1999);
    assert!(seq == 2000);
    assert!(seq < 2001);

    let mut seq = Sequence31::new(u32::MAX);

    assert!(seq == u32::MAX);
    assert!(seq > u32::MAX - 1);
    assert!(seq < 0);

    seq += 1;

    assert!(seq == 0);
    assert!(seq > u32::MAX);
    assert!(seq < 1);
}

#[test]
fn wrapping_sequence_sub_undoes_add() {
    let a = Sequence::new(u32::MAX - 3);
    let b = a + 10;
    assert_eq!(b.get(), 6);
    assert_eq!((b - Sequence::new(10)).get(), u32::MAX - 3);
    let mut c = b;
    c -= Sequence::new(7);
    assert_eq!(c.get(), u32::MAX);
    let v: u32 = c.into();
    assert_eq!(v, u32::MAX);
}

#[test]
fn sequence31_arithmetic() {
    let a = Sequence31::new(0x7fff_fffe);
    assert_eq!((a + 3).get(), 1);
    assert_eq!((Sequence31::new(1) - Sequence31::new(3)).get(), 0x7fff_fffe);
    let mut s = Sequence31::new(5);
    s.set(9);
    assert_eq!(s.get(), 9);
}

#[test]
fn message_number_wraps_at_26_bits() {
    let m = MessageNumber::new((1 << 26) - 1);
    assert_eq!((m + 1).get(), 0);
    let mut n = MessageNumber::new(3);
    n += 4;
    assert_eq!(n.get(), 7);
    assert!(MessageNumber::new(1) < MessageNumber::new(2));
    assert!(MessageNumber::new(0) > MessageNumber::new((1 << 26) - 1));
    let v: u32 = n.into();
    assert_eq!(v, 7);
}
