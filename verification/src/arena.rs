//! The bookkeeping of an arena of network buffers: which chunk a buffer comes from, where in
//! the chunk it starts, and when a chunk can be reused.
//!
//! An arena hands out buffers from chunks of a fixed size by bumping the chunk's head. Each
//! chunk counts one reference for the arena and one for each buffer handed out; a chunk that
//! only the arena refers to starts over at offset 0. The chunks' bytes lie one after the
//! other in the arena's memory.
use vstd::prelude::*;

verus! {

/// The default chunk size.
pub const PAGE: usize = 65536;

/// The state of one chunk.
#[derive(Copy, Clone, Debug, PartialEq, Eq, Structural)]
pub struct ChunkInner {
    /// The number of bytes in the chunk.
    pub size: usize,
    /// Where the next buffer starts.
    pub head: usize,
    /// Strong references: the arena's and one per buffer handed out.
    pub ref_count: usize,
}

impl ChunkInner {
    /// A fresh chunk of `size` bytes that only the arena refers to.
    pub fn new(size: usize) -> (c: Self)
        ensures
            c == (ChunkInner { size, head: 0, ref_count: 1 }),
    {
        Self { size, head: 0, ref_count: 1 }
    }

    /// Takes `size` bytes at the head, if they fit, and counts the new reference; returns the
    /// offset of the taken bytes.
    pub fn get(&mut self, size: usize) -> (r: Option<usize>)
        requires
            old(self).ref_count < usize::MAX,
        ensures
            old(self).head + size > old(self).size ==> r is None && *final(self) == *old(self),
            old(self).head + size <= old(self).size ==> r == Some(old(self).head) && *final(self)
                == (ChunkInner { head: (old(self).head + size) as usize, ref_count: (old(self).ref_count + 1) as usize, ..*old(self) }),
    {
        if size > self.size || self.head > self.size - size {
            return None;
        }
        let head = self.head;
        self.head = head + size;
        self.ref_count = self.ref_count + 1;
        Some(head)
    }

    /// Starts the chunk over at offset 0.
    pub fn reset(&mut self)
        ensures
            *final(self) == (ChunkInner { head: 0, ..*old(self) }),
    {
        self.head = 0;
    }
}

/// A chunk of an arena.
#[derive(Copy, Clone, Debug)]
pub struct Chunk {
    pub inner: ChunkInner,
}

impl Chunk {
    /// A fresh chunk of `size` bytes.
    pub fn new(size: usize) -> (c: Self)
        ensures
            c.inner == (ChunkInner { size, head: 0, ref_count: 1 }),
    {
        Self { inner: ChunkInner::new(size) }
    }
}

/// A buffer handed out by an arena: `len` bytes at `offset` in chunk number `chunk`.
#[derive(Copy, Clone, Debug, PartialEq, Eq, Structural)]
pub struct BytesMut {
    pub chunk: usize,
    pub offset: usize,
    pub len: usize,
}

impl BytesMut {
    /// Shortens the buffer to `len`; a greater `len` has no effect.
    pub fn truncate(&mut self, len: usize)
        ensures
            final(self).chunk == old(self).chunk,
            final(self).offset == old(self).offset,
            final(self).len == if len <= old(self).len { len } else { old(self).len },
    {
        if len <= self.len {
            self.len = len;
        }
    }

    /// The length of the buffer.
    pub fn len(&self) -> (n: usize)
        ensures
            n == self.len,
    {
        self.len
    }
}

/// An arena of buffers with chunks of `chunk_size` bytes, at most `max_chunks` of them.
pub struct Arena {
    pub chunk_size: usize,
    pub chunks: Vec<Chunk>,
    pub max_chunks: usize,
    /// The bytes of all chunks, chunk after chunk.
    pub memory: Vec<u8>,
}

/// The position in the arena's memory of byte `i` of a buffer.
pub open spec fn address(chunk_size: usize, buf: BytesMut, i: int) -> int {
    buf.chunk * chunk_size + buf.offset + i
}

/// Appends `n` zero bytes to `v`.
fn push_zeros(v: &mut Vec<u8>, n: usize)
    requires
        old(v)@.len() + n <= usize::MAX,
    ensures
        final(v)@ == old(v)@ + Seq::new(n as nat, |i: int| 0u8),
{
    let mut k: usize = 0;
    while k < n
        invariant
            k <= n,
            old(v)@.len() + n <= usize::MAX,
            v@ == old(v)@ + Seq::new(k as nat, |i: int| 0u8),
        decreases n - k,
    {
        v.push(0u8);
        k = k + 1;
        proof {
            assert(v@ =~= old(v)@ + Seq::new(k as nat, |i: int| 0u8));
        }
    }
}

/// The head of a chunk once a buffer is asked of it: a chunk that only the arena refers to
/// starts over.
pub open spec fn head_after_reset(c: ChunkInner) -> int {
    if c.ref_count == 1 {
        0
    } else {
        c.head as int
    }
}

/// A buffer of `size` bytes fits into the chunk.
pub open spec fn fits(c: ChunkInner, size: usize) -> bool {
    head_after_reset(c) + size <= c.size
}

/// The index of the first chunk that a buffer of `size` bytes fits into, or the number of
/// chunks.
pub open spec fn first_fit(cs: Seq<Chunk>, size: usize) -> int
    decreases cs.len(),
{
    if cs.len() == 0 {
        0
    } else if fits(cs[0].inner, size) {
        0
    } else {
        1 + first_fit(cs.drop_first(), size)
    }
}

proof fn lemma_first_fit(cs: Seq<Chunk>, size: usize, i: int)
    requires
        0 <= i <= cs.len(),
        forall|j: int| 0 <= j < i ==> !fits(#[trigger] cs[j].inner, size),
        i < cs.len() ==> fits(cs[i].inner, size),
    ensures
        first_fit(cs, size) == i,
    decreases cs.len(),
{
    if cs.len() > 0 && i > 0 {
        assert forall|j: int| 0 <= j < i - 1 implies !fits(#[trigger] cs.drop_first()[j].inner, size) by {
            assert(cs.drop_first()[j] == cs[j + 1]);
        }
        lemma_first_fit(cs.drop_first(), size, i - 1);
    }
}

impl Arena {
    /// Every chunk has the arena's size and the arena's reference, and its head lies within it.
    pub open spec fn wf(&self) -> bool {
        &&& self.memory@.len() == self.chunks@.len() * self.chunk_size
        &&& forall|i: int|
            0 <= i < self.chunks@.len() ==> {
                let c = #[trigger] self.chunks@[i].inner;
                c.size == self.chunk_size && c.ref_count >= 1 && c.head <= c.size
            }
    }

    /// The buffer lies within a chunk of the arena.
    pub open spec fn holds(&self, buf: BytesMut) -> bool {
        buf.chunk < self.chunks@.len() && buf.offset + buf.len <= self.chunk_size
    }

    /// An arena with chunks of `chunk_size` bytes and no limit on their number.
    pub fn new(chunk_size: usize) -> (a: Self)
        ensures
            a.wf(),
            a.chunk_size == chunk_size,
            a.chunks@.len() == 0,
            a.max_chunks == usize::MAX,
    {
        Self { chunk_size, chunks: Vec::new(), max_chunks: usize::MAX, memory: Vec::new() }
    }

    /// An arena of pages.
    pub fn default() -> (a: Self)
        ensures
            a.wf(),
            a.chunk_size == PAGE,
            a.chunks@.len() == 0,
            a.max_chunks == usize::MAX,
    {
        Self::new(PAGE)
    }

    /// A builder with the default settings.
    pub fn builder() -> (b: ArenaBuilder)
        ensures
            b == (ArenaBuilder { chunk_size: PAGE, min_chunks: 0, max_chunks: usize::MAX }),
    {
        ArenaBuilder::new()
    }

    /// Hands out a buffer of `size` bytes: from the first chunk it fits into (a chunk that only
    /// the arena refers to starts over at offset 0), else from a new chunk. The size must not
    /// exceed the chunk size, and a new chunk must be allowed when none fits.
    pub fn get(&mut self, size: usize) -> (b: BytesMut)
        requires
            old(self).wf(),
            size <= old(self).chunk_size,
            first_fit(old(self).chunks@, size) == old(self).chunks@.len() ==> old(self).chunks@.len()
                < old(self).max_chunks && old(self).memory@.len() + old(self).chunk_size <= usize::MAX,
            forall|i: int| 0 <= i < old(self).chunks@.len() ==> #[trigger] old(self).chunks@[i].inner.ref_count < usize::MAX,
        ensures
            final(self).wf(),
            final(self).chunk_size == old(self).chunk_size,
            final(self).max_chunks == old(self).max_chunks,
            b.len == size,
            final(self).holds(b),
            ({
                let i = first_fit(old(self).chunks@, size);
                if i < old(self).chunks@.len() {
                    let c = old(self).chunks@[i].inner;
                    &&& b.chunk == i
                    &&& b.offset == head_after_reset(c)
                    &&& final(self).memory@ == old(self).memory@
                    &&& final(self).chunks@ == old(self).chunks@.update(i, Chunk { inner: ChunkInner {
                        head: (head_after_reset(c) + size) as usize,
                        ref_count: (c.ref_count + 1) as usize,
                        ..c
                    } })
                } else {
                    &&& b.chunk == old(self).chunks@.len()
                    &&& b.offset == 0
                    &&& final(self).memory@ == old(self).memory@ + Seq::new(old(self).chunk_size as nat, |j: int| 0u8)
                    &&& final(self).chunks@ == old(self).chunks@.push(Chunk { inner: ChunkInner {
                        size: old(self).chunk_size,
                        head: size,
                        ref_count: 2,
                    } })
                }
            }),
    {
        let mut i: usize = 0;
        while i < self.chunks.len()
            invariant
                i <= self.chunks@.len(),
                self.chunks@ == old(self).chunks@,
                self.memory@ == old(self).memory@,
                self.chunk_size == old(self).chunk_size,
                self.max_chunks == old(self).max_chunks,
                forall|j: int| 0 <= j < i ==> !fits(#[trigger] self.chunks@[j].inner, size),
                old(self).wf(),
                size <= old(self).chunk_size,
                forall|j: int| 0 <= j < old(self).chunks@.len() ==> #[trigger] old(self).chunks@[j].inner.ref_count < usize::MAX,
            decreases self.chunks@.len() - i,
        {
            let mut chunk = self.chunks[i];
            if chunk.inner.ref_count == 1 {
                chunk.inner.reset();
            }
            if let Some(offset) = chunk.inner.get(size) {
                proof {
                    lemma_first_fit(self.chunks@, size, i as int);
                }
                self.chunks.set(i, chunk);
                proof {
                    assert forall|j: int| 0 <= j < self.chunks@.len() implies {
                        let c = #[trigger] self.chunks@[j].inner;
                        c.size == self.chunk_size && c.ref_count >= 1 && c.head <= c.size
                    } by {
                        if j != i {
                            assert(self.chunks@[j] == old(self).chunks@[j]);
                        }
                    }
                }
                return BytesMut { chunk: i, offset, len: size };
            }
            i = i + 1;
        }
        proof {
            lemma_first_fit(self.chunks@, size, i as int);
        }
        let mut chunk = Chunk::new(self.chunk_size);
        let _taken = chunk.inner.get(size);
        let index = self.chunks.len();
        let ghost n = self.chunks@.len();
        self.chunks.push(chunk);
        push_zeros(&mut self.memory, self.chunk_size);
        proof {
            let cs = self.chunk_size;
            assert((n + 1) * cs == n * cs + cs) by (nonlinear_arith);
        }
        BytesMut { chunk: index, offset: 0, len: size }
    }

    /// Gives a buffer back: its chunk loses the buffer's reference.
    pub fn release(&mut self, buf: BytesMut)
        requires
            old(self).wf(),
            buf.chunk < old(self).chunks@.len(),
            old(self).chunks@[buf.chunk as int].inner.ref_count > 1,
        ensures
            final(self).wf(),
            final(self).chunk_size == old(self).chunk_size,
            final(self).max_chunks == old(self).max_chunks,
            final(self).chunks@ == old(self).chunks@.update(buf.chunk as int, Chunk { inner: ChunkInner {
                ref_count: (old(self).chunks@[buf.chunk as int].inner.ref_count - 1) as usize,
                ..old(self).chunks@[buf.chunk as int].inner
            } }),
            final(self).memory@ == old(self).memory@,
    {
        let mut chunk = self.chunks[buf.chunk];
        chunk.inner.ref_count = chunk.inner.ref_count - 1;
        self.chunks.set(buf.chunk, chunk);
    }

    /// The number of chunks.
    pub fn chunks(&self) -> (n: usize)
        ensures
            n == self.chunks@.len(),
    {
        self.chunks.len()
    }

    /// The bytes of a buffer.
    pub fn bytes(&self, buf: &BytesMut) -> (r: &[u8])
        requires
            self.wf(),
            self.holds(*buf),
        ensures
            r@ == self.memory@.subrange(
                address(self.chunk_size, *buf, 0),
                address(self.chunk_size, *buf, buf.len as int),
            ),
    {
        let _total = self.memory.len();
        proof {
            lemma_address_bound(self.chunks@.len(), self.chunk_size, *buf);
        }
        let start = buf.chunk * self.chunk_size + buf.offset;
        &self.memory.as_slice()[start..start + buf.len]
    }

    /// Sets byte `i` of a buffer to `value`.
    pub fn write(&mut self, buf: &BytesMut, i: usize, value: u8)
        requires
            old(self).wf(),
            old(self).holds(*buf),
            i < buf.len,
        ensures
            final(self).wf(),
            final(self).chunk_size == old(self).chunk_size,
            final(self).max_chunks == old(self).max_chunks,
            final(self).chunks@ == old(self).chunks@,
            final(self).memory@ == old(self).memory@.update(address(old(self).chunk_size, *buf, i as int), value),
    {
        let _total = self.memory.len();
        proof {
            lemma_address_bound(self.chunks@.len(), self.chunk_size, *buf);
        }
        let at = buf.chunk * self.chunk_size + buf.offset + i;
        self.memory.set(at, value);
    }
}

/// A buffer within a chunk of the arena lies within its memory.
proof fn lemma_address_bound(n: nat, size: usize, buf: BytesMut)
    requires
        buf.chunk < n,
        buf.offset + buf.len <= size,
        n * size <= usize::MAX,
    ensures
        address(size, buf, buf.len as int) <= n * size,
        buf.chunk * size <= n * size,
{
    assert(buf.chunk * size + size <= n * size) by (nonlinear_arith)
        requires
            buf.chunk < n,
    ;
}

/// Settings for an [`Arena`].
#[derive(Copy, Clone, Debug, PartialEq, Eq, Structural)]
pub struct ArenaBuilder {
    pub chunk_size: usize,
    pub min_chunks: usize,
    pub max_chunks: usize,
}

impl ArenaBuilder {
    /// Chunks of a page, no chunk up front, no limit.
    pub fn new() -> (b: Self)
        ensures
            b == (ArenaBuilder { chunk_size: PAGE, min_chunks: 0, max_chunks: usize::MAX }),
    {
        Self { chunk_size: PAGE, min_chunks: 0, max_chunks: usize::MAX }
    }

    /// Sets the chunk size.
    pub fn chunk_size(self, chunk_size: usize) -> (b: Self)
        ensures
            b == (ArenaBuilder { chunk_size, ..self }),
    {
        let mut this = self;
        this.chunk_size = chunk_size;
        this
    }

    /// Sets the number of chunks made up front.
    pub fn min_chunks(self, min_chunks: usize) -> (b: Self)
        ensures
            b == (ArenaBuilder { min_chunks, ..self }),
    {
        let mut this = self;
        this.min_chunks = min_chunks;
        this
    }

    /// Sets the greatest number of chunks.
    pub fn max_chunks(self, max_chunks: usize) -> (b: Self)
        ensures
            b == (ArenaBuilder { max_chunks, ..self }),
    {
        let mut this = self;
        this.max_chunks = max_chunks;
        this
    }

    /// An arena with `min_chunks` fresh chunks.
    pub fn build(self) -> (a: Arena)
        requires
            self.min_chunks * self.chunk_size <= usize::MAX,
        ensures
            a.wf(),
            a.chunk_size == self.chunk_size,
            a.max_chunks == self.max_chunks,
            a.chunks@.len() == self.min_chunks,
            forall|i: int| 0 <= i < a.chunks@.len() ==> (#[trigger] a.chunks@[i]).inner == (ChunkInner {
                size: self.chunk_size,
                head: 0,
                ref_count: 1,
            }),
    {
        let mut chunks: Vec<Chunk> = Vec::with_capacity(self.min_chunks);
        let mut memory: Vec<u8> = Vec::new();
        let mut k: usize = 0;
        while k < self.min_chunks
            invariant
                k <= self.min_chunks,
                self.min_chunks * self.chunk_size <= usize::MAX,
                chunks@.len() == k,
                memory@.len() == k * self.chunk_size,
                forall|i: int| 0 <= i < k ==> (#[trigger] chunks@[i]).inner == (ChunkInner {
                    size: self.chunk_size,
                    head: 0,
                    ref_count: 1,
                }),
            decreases self.min_chunks - k,
        {
            proof {
                let cs = self.chunk_size;
                assert((k + 1) * cs == k * cs + cs && (k + 1) * cs <= self.min_chunks * cs) by (nonlinear_arith)
                    requires
                        k < self.min_chunks,
                ;
            }
            chunks.push(Chunk::new(self.chunk_size));
            push_zeros(&mut memory, self.chunk_size);
            k = k + 1;
        }
        Arena { chunk_size: self.chunk_size, chunks, max_chunks: self.max_chunks, memory }
    }
}

} // verus!
