use stsync_proxy::arena::{Arena, ArenaBuilder, BytesMut, PAGE};

#[test]
fn test_arena() {
    let mut arena = Arena::new(30);

    let mut bufs = Vec::new();
    for _ in 0..30 {
        bufs.push(arena.get(1));
    }
    assert_eq!(arena.chunks(), 1);

    for (i, buf) in bufs.iter().enumerate() {
        assert_eq!(bufs[0].chunk, buf.chunk);
        assert_eq!(buf.offset, i);
    }

    for buf in &bufs {
        for i in 0..buf.len() {
            arena.write(buf, i, 42);
        }
    }
    assert_eq!(arena.bytes(&bufs[7]), &[42]);

    let c2 = arena.get(1);
    assert_eq!(arena.chunks(), 2);
    assert_eq!(c2.chunk, 1);
}

#[test]
fn test_chunk_reuse() {
    let mut arena = Arena::new(3000);

    let b1 = arena.get(1500);
    let b2 = arena.get(1500);
    assert_eq!(arena.chunks(), 1);

    let chunk1 = b1.chunk;

    let _b3 = arena.get(1500);
    assert_eq!(arena.chunks(), 2);

    arena.release(b1);
    arena.release(b2);
    let b4 = arena.get(1500);

    assert_eq!(chunk1, b4.chunk);
    assert_eq!(b4.offset, 0);
    arena.write(&b4, 1499, 9);
    assert_eq!(arena.bytes(&b4)[1499], 9);
    assert_eq!(arena.bytes(&b4).len(), 1500);
}

#[test]
fn builder_makes_chunks_up_front() {
    let arena = ArenaBuilder::new().chunk_size(100).min_chunks(3).max_chunks(5).build();
    assert_eq!(arena.chunks(), 3);
    assert_eq!(arena.memory.len(), 300);
    assert_eq!(arena.chunk_size, 100);
    assert_eq!(arena.max_chunks, 5);
    let defaults = Arena::builder();
    assert_eq!(defaults.chunk_size, PAGE);
    assert_eq!(defaults.min_chunks, 0);
    assert_eq!(defaults.max_chunks, usize::MAX);
}

#[test]
fn truncate_only_shortens() {
    let mut buf = BytesMut { chunk: 0, offset: 4, len: 10 };
    buf.truncate(20);
    assert_eq!(buf.len(), 10);
    buf.truncate(3);
    assert_eq!(buf.len(), 3);
    assert_eq!(buf.offset, 4);
}
