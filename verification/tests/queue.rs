use stsync_proxy::srt::queue::SegmentQueue;

#[test]
fn test_queue() {
    let mut queue = SegmentQueue::new(8192);
    queue.push(5);

    assert_eq!(*queue.peek().unwrap(), 5);

    queue.push(6);
    queue.push(7);
    queue.push(8);
    assert_eq!(*queue.peek().unwrap(), 5);

    assert_eq!(queue.pop().unwrap(), 5);
    assert_eq!(*queue.peek().unwrap(), 6);

    queue.push(4);
    assert_eq!(*queue.peek().unwrap(), 4);

    for val in [4, 6, 7, 8] {
        assert_eq!(*queue.peek().unwrap(), val);
        assert_eq!(queue.pop().unwrap(), val);
    }

    assert_eq!(queue.peek(), None);
    assert_eq!(queue.pop(), None);
    assert_eq!(queue.len(), 0);
    assert!(queue.is_empty());
}

#[test]
fn full_queue_ignores_pushes() {
    let mut queue = SegmentQueue::new(2);
    queue.push(3);
    queue.push(1);
    queue.push(0);
    assert_eq!(queue.len(), 2);
    assert_eq!(queue.capacity(), 2);
    assert_eq!(queue.pop(), Some(1));
    queue.push(3);
    assert_eq!(queue.len(), 1);
    queue.clear();
    assert!(queue.is_empty());
}
