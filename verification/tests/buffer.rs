use stsync_proxy::srt::buffer::Buffer;

#[test]
fn test_buffer_new() {
    let mut buf = Buffer::new(8192);
    assert_eq!(buf.size(), 8192);
    assert_eq!(buf.len(), 0);

    for i in 0..4096 {
        buf.push(i);
    }

    assert_eq!(buf.size(), 8192);
    assert_eq!(buf.len(), 4096);

    buf.clear();
    assert_eq!(buf.size(), 8192);
    assert_eq!(buf.len(), 0);

    for i in 0..4096 * 3 {
        buf.push(i);
    }

    assert_eq!(buf.size(), 8192);
    assert_eq!(buf.len(), 8192);
}

#[test]
fn test_buffer_get() {
    let mut buf = Buffer::new(8192);
    for i in 0..4096 {
        buf.push(i);
    }

    for i in 0..4096 {
        assert_eq!(*buf.get(i).unwrap(), i);
    }

    assert_eq!(buf.get(4096), None);

    let mut buf = Buffer::new(8192);
    for i in 0..4096 * 3 {
        buf.push(i);
    }

    for i in 0..4095 {
        assert_eq!(buf.get(i), None);
    }
    assert_eq!(buf.get(4095), None);

    for i in 4096..4096 * 3 {
        assert_eq!(*buf.get(i).unwrap(), i);
    }
}

#[test]
fn buffer_keeps_last_items() {
    let mut buf = Buffer::new(4);
    buf.extend(vec![10, 11, 12, 13, 14, 15]);
    assert_eq!(buf.len(), 4);
    assert!(!buf.is_empty());
    assert_eq!(buf.get(0), None);
    assert_eq!(buf.get(2), Some(&12));
    assert_eq!(buf.get(5), Some(&15));
    assert_eq!(buf.get(6), None);
    // Overwritten items are not read back.
    assert_eq!(buf.get(1), None);
    assert_eq!(buf.get(3), Some(&13));
}
