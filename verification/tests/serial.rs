use std::cmp::Ordering;

use stsync_proxy::serial::{add, cmp, sub};

#[test]
fn test_add() {
    assert_eq!(add::<4>(1, 2), 3);
    assert_eq!(add::<4>(0b1110, 0b1), 0b1111);
    assert_eq!(add::<4>(0b1111, 0b1), 0b0000);
    assert_eq!(add::<4>(0b1111, 0b0001_0001), 0b0000);
}

#[test]
fn test_sub() {
    assert_eq!(sub::<4>(0b1111, 0b1110), 0b1);
    assert_eq!(sub::<4>(0b1111, 0b1111), 0b0);
    assert_eq!(sub::<4>(0b1111, 0b0001_0000), 0b1111);
    assert_eq!(sub::<4>(0b1111, 0b0001_1010), 0b0101);
}

#[test]
fn test_cmp() {
    assert_eq!(cmp::<4>(0, 0), Ordering::Equal);
    assert_eq!(cmp::<4>(0, 1), Ordering::Less);
    assert_eq!(cmp::<4>(1, 0), Ordering::Greater);

    assert_eq!(cmp::<8>(1, 0), Ordering::Greater);
    assert_eq!(cmp::<8>(44, 0), Ordering::Greater);
    assert_eq!(cmp::<8>(100, 0), Ordering::Greater);
    assert_eq!(cmp::<8>(100, 44), Ordering::Greater);
    assert_eq!(cmp::<8>(200, 100), Ordering::Greater);
    assert_eq!(cmp::<8>(255, 200), Ordering::Greater);
    assert_eq!(cmp::<8>(100, 255), Ordering::Greater);
    assert_eq!(cmp::<8>(0, 200), Ordering::Greater);
    assert_eq!(cmp::<8>(44, 200), Ordering::Greater);
}

#[test]
fn serial_sub_undoes_add() {
    for a in 0..16u32 {
        for b in 0..40u32 {
            assert_eq!(sub::<4>(add::<4>(a, b), b), a % 16);
            assert_eq!(add::<4>(sub::<4>(a, b), b), a % 16);
        }
    }
}

#[test]
fn serial_order_is_antisymmetric() {
    for a in 0..256u32 {
        for b in 0..256u32 {
            if a != b && a.abs_diff(b) != 128 {
                assert_eq!(cmp::<8>(a, b), cmp::<8>(b, a).reverse());
            }
        }
    }
    // Exactly half the number space apart, both directions compare greater.
    assert_eq!(cmp::<8>(0, 128), Ordering::Greater);
    assert_eq!(cmp::<8>(128, 0), Ordering::Greater);
}

#[test]
fn serial_advance_is_greater() {
    for a in 0..256u32 {
        for k in 1..128u32 {
            let b = add::<8>(a, k);
            assert_eq!(cmp::<8>(b, a), Ordering::Greater);
            assert_eq!(cmp::<8>(a, b), Ordering::Less);
        }
    }
}

#[test]
fn serial_full_width() {
    assert_eq!(add::<31>(0x7fff_ffff, 1), 0);
    assert_eq!(sub::<31>(0, 1), 0x7fff_ffff);
    assert_eq!(cmp::<32>(u32::MAX, 0), Ordering::Less);
    assert_eq!(cmp::<32>(5, 5), Ordering::Equal);
}
