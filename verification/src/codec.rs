//! Big-endian encoding of fixed-width integers, the building blocks of the SRT wire format.
use vstd::prelude::*;

verus! {

/// The two big-endian bytes of `x`.
pub open spec fn be16(x: u16) -> Seq<u8> {
    seq![(x >> 8u16) as u8, (x & 0xffu16) as u8]
}

/// The four big-endian bytes of `x`.
pub open spec fn be32(x: u32) -> Seq<u8> {
    seq![(x >> 24u32) as u8, ((x >> 16u32) & 0xffu32) as u8, ((x >> 8u32) & 0xffu32) as u8, (x & 0xffu32) as u8]
}

/// The sixteen big-endian bytes of `x`.
pub open spec fn be128(x: u128) -> Seq<u8> {
    be32((x >> 96u128) as u32) + be32(((x >> 64u128) & 0xffff_ffffu128) as u32)
        + be32(((x >> 32u128) & 0xffff_ffffu128) as u32) + be32((x & 0xffff_ffffu128) as u32)
}

/// The `u16` whose big-endian bytes are `s[pos..pos + 2]`.
pub open spec fn u16_at(s: Seq<u8>, pos: int) -> u16 {
    (((s[pos] as u16) << 8u16) | (s[pos + 1] as u16)) as u16
}

/// The `u32` whose big-endian bytes are `s[pos..pos + 4]`.
pub open spec fn u32_at(s: Seq<u8>, pos: int) -> u32 {
    (((s[pos] as u32) << 24u32) | ((s[pos + 1] as u32) << 16u32) | ((s[pos + 2] as u32) << 8u32)
        | (s[pos + 3] as u32)) as u32
}

/// The `u128` whose big-endian bytes are `s[pos..pos + 16]`.
pub open spec fn u128_at(s: Seq<u8>, pos: int) -> u128 {
    (((u32_at(s, pos) as u128) << 96u128) | ((u32_at(s, pos + 4) as u128) << 64u128)
        | ((u32_at(s, pos + 8) as u128) << 32u128) | (u32_at(s, pos + 12) as u128)) as u128
}

/// Appends the big-endian bytes of `x` to `buf`.
pub fn put_u16(buf: &mut Vec<u8>, x: u16)
    ensures
        final(buf)@ == old(buf)@ + be16(x),
{
    buf.push((x >> 8u16) as u8);
    buf.push((x & 0xffu16) as u8);
}

/// Appends the big-endian bytes of `x` to `buf`.
pub fn put_u32(buf: &mut Vec<u8>, x: u32)
    ensures
        final(buf)@ == old(buf)@ + be32(x),
{
    buf.push((x >> 24u32) as u8);
    buf.push(((x >> 16u32) & 0xffu32) as u8);
    buf.push(((x >> 8u32) & 0xffu32) as u8);
    buf.push((x & 0xffu32) as u8);
}

/// Appends the big-endian bytes of `x` to `buf`.
pub fn put_u128(buf: &mut Vec<u8>, x: u128)
    ensures
        final(buf)@ == old(buf)@ + be128(x),
{
    put_u32(buf, (x >> 96u128) as u32);
    put_u32(buf, ((x >> 64u128) & 0xffff_ffffu128) as u32);
    put_u32(buf, ((x >> 32u128) & 0xffff_ffffu128) as u32);
    put_u32(buf, (x & 0xffff_ffffu128) as u32);
    proof {
        assert(final(buf)@ =~= old(buf)@ + be128(x));
    }
}

/// Reads the big-endian `u16` at `pos`.
pub fn get_u16(buf: &[u8], pos: usize) -> (r: u16)
    requires
        pos + 2 <= buf@.len(),
    ensures
        r == u16_at(buf@, pos as int),
{
    (((buf[pos] as u16) << 8u16) | (buf[pos + 1] as u16)) as u16
}

/// Reads the big-endian `u32` at `pos`.
pub fn get_u32(buf: &[u8], pos: usize) -> (r: u32)
    requires
        pos + 4 <= buf@.len(),
    ensures
        r == u32_at(buf@, pos as int),
{
    (((buf[pos] as u32) << 24u32) | ((buf[pos + 1] as u32) << 16u32) | ((buf[pos + 2] as u32)
        << 8u32) | (buf[pos + 3] as u32)) as u32
}

/// Reads the big-endian `u128` at `pos`.
pub fn get_u128(buf: &[u8], pos: usize) -> (r: u128)
    requires
        pos + 16 <= buf@.len(),
    ensures
        r == u128_at(buf@, pos as int),
{
    let _n = buf.len();
    let a = get_u32(buf, pos) as u128;
    let b = get_u32(buf, pos + 4) as u128;
    let c = get_u32(buf, pos + 8) as u128;
    let d = get_u32(buf, pos + 12) as u128;
    ((a << 96u128) | (b << 64u128) | (c << 32u128) | d) as u128
}

/// Reading back the bytes of a `u16` gives the `u16`.
pub proof fn lemma_u16_roundtrip(x: u16, s: Seq<u8>, pos: int)
    requires
        0 <= pos,
        pos + 2 <= s.len(),
        s.subrange(pos, pos + 2) == be16(x),
    ensures
        u16_at(s, pos) == x,
{
    assert(s[pos] == be16(x)[0]);
    assert(s[pos + 1] == be16(x)[1]);
    let b0 = s[pos];
    let b1 = s[pos + 1];
    assert(b0 == (x >> 8u16) as u8 && b1 == (x & 0xffu16) as u8 ==> (((b0 as u16) << 8u16) | (
    b1 as u16)) as u16 == x) by (bit_vector);
}

/// Reading back the bytes of a `u32` gives the `u32`.
pub proof fn lemma_u32_roundtrip(x: u32, s: Seq<u8>, pos: int)
    requires
        0 <= pos,
        pos + 4 <= s.len(),
        s.subrange(pos, pos + 4) == be32(x),
    ensures
        u32_at(s, pos) == x,
{
    assert(s[pos] == be32(x)[0]);
    assert(s[pos + 1] == be32(x)[1]);
    assert(s[pos + 2] == be32(x)[2]);
    assert(s[pos + 3] == be32(x)[3]);
    let b0 = s[pos];
    let b1 = s[pos + 1];
    let b2 = s[pos + 2];
    let b3 = s[pos + 3];
    assert(b0 == (x >> 24u32) as u8 && b1 == ((x >> 16u32) & 0xffu32) as u8 && b2 == ((x >> 8u32)
        & 0xffu32) as u8 && b3 == (x & 0xffu32) as u8 ==> (((b0 as u32) << 24u32) | ((b1 as u32)
        << 16u32) | ((b2 as u32) << 8u32) | (b3 as u32)) as u32 == x) by (bit_vector);
}

/// Reading back the bytes of a `u128` gives the `u128`.
pub proof fn lemma_u128_roundtrip(x: u128, s: Seq<u8>, pos: int)
    requires
        0 <= pos,
        pos + 16 <= s.len(),
        s.subrange(pos, pos + 16) == be128(x),
    ensures
        u128_at(s, pos) == x,
{
    let a = (x >> 96u128) as u32;
    let b = ((x >> 64u128) & 0xffff_ffffu128) as u32;
    let c = ((x >> 32u128) & 0xffff_ffffu128) as u32;
    let d = (x & 0xffff_ffffu128) as u32;
    assert(s.subrange(pos, pos + 4) =~= be128(x).subrange(0, 4));
    assert(s.subrange(pos + 4, pos + 8) =~= be128(x).subrange(4, 8));
    assert(s.subrange(pos + 8, pos + 12) =~= be128(x).subrange(8, 12));
    assert(s.subrange(pos + 12, pos + 16) =~= be128(x).subrange(12, 16));
    assert(be128(x).subrange(0, 4) =~= be32(a));
    assert(be128(x).subrange(4, 8) =~= be32(b));
    assert(be128(x).subrange(8, 12) =~= be32(c));
    assert(be128(x).subrange(12, 16) =~= be32(d));
    lemma_u32_roundtrip(a, s, pos);
    lemma_u32_roundtrip(b, s, pos + 4);
    lemma_u32_roundtrip(c, s, pos + 8);
    lemma_u32_roundtrip(d, s, pos + 12);
    assert(((((x >> 96u128) as u32) as u128) << 96u128 | (((((x >> 64u128) & 0xffff_ffffu128) as u32) as u128) << 64u128)
        | (((((x >> 32u128) & 0xffff_ffffu128) as u32) as u128) << 32u128) | (((x & 0xffff_ffffu128) as u32) as u128)) == x) by (bit_vector);
}

/// The number that the bytes `s` spell in big-endian order: the first byte is the most
/// significant.
pub open spec fn be_value(s: Seq<u8>) -> nat
    decreases s.len(),
{
    if s.len() == 0 {
        0
    } else {
        be_value(s.drop_last()) * 256 + s.last() as nat
    }
}

/// Appending a byte shifts the number up by one byte.
proof fn lemma_be_value_push(s: Seq<u8>, b: u8)
    ensures
        be_value(s.push(b)) == be_value(s) * 256 + b,
{
    assert(s.push(b).drop_last() =~= s);
}

/// Appending four bytes shifts the number up by four bytes.
proof fn lemma_be_value_append4(s: Seq<u8>, t: Seq<u8>)
    requires
        t.len() == 4,
    ensures
        be_value(s + t) == be_value(s) * 0x1_0000_0000 + be_value(t),
{
    let e = Seq::<u8>::empty();
    assert(t =~= e.push(t[0]).push(t[1]).push(t[2]).push(t[3]));
    assert(s + t =~= s.push(t[0]).push(t[1]).push(t[2]).push(t[3]));
    lemma_be_value_push(s, t[0]);
    lemma_be_value_push(s.push(t[0]), t[1]);
    lemma_be_value_push(s.push(t[0]).push(t[1]), t[2]);
    lemma_be_value_push(s.push(t[0]).push(t[1]).push(t[2]), t[3]);
    lemma_be_value_push(e, t[0]);
    lemma_be_value_push(e.push(t[0]), t[1]);
    lemma_be_value_push(e.push(t[0]).push(t[1]), t[2]);
    lemma_be_value_push(e.push(t[0]).push(t[1]).push(t[2]), t[3]);
}

/// The value of four bytes.
proof fn lemma_be_value4(t: Seq<u8>)
    requires
        t.len() == 4,
    ensures
        be_value(t) == t[0] * 0x100_0000 + t[1] * 0x1_0000 + t[2] * 0x100 + t[3],
{
    let e = Seq::<u8>::empty();
    assert(t =~= e.push(t[0]).push(t[1]).push(t[2]).push(t[3]));
    assert(be_value(e) == 0);
    lemma_be_value_push(e, t[0]);
    lemma_be_value_push(e.push(t[0]), t[1]);
    lemma_be_value_push(e.push(t[0]).push(t[1]), t[2]);
    lemma_be_value_push(e.push(t[0]).push(t[1]).push(t[2]), t[3]);
}

/// `be16` writes two bytes, most significant first: they spell `x`.
pub proof fn lemma_be16_value(x: u16)
    ensures
        be16(x).len() == 2,
        be_value(be16(x)) == x,
{
    let e = Seq::<u8>::empty();
    let b0 = (x >> 8u16) as u8;
    let b1 = (x & 0xffu16) as u8;
    assert(be16(x) =~= e.push(b0).push(b1));
    lemma_be_value_push(e, b0);
    lemma_be_value_push(e.push(b0), b1);
    assert(b0 as int * 256 + b1 as int == x as int) by (bit_vector)
        requires
            b0 == (x >> 8u16) as u8,
            b1 == (x & 0xffu16) as u8,
    ;
}

/// `be32` writes four bytes, most significant first: they spell `x`.
pub proof fn lemma_be32_value(x: u32)
    ensures
        be32(x).len() == 4,
        be_value(be32(x)) == x,
{
    let t = be32(x);
    lemma_be_value4(t);
    let b0 = t[0];
    let b1 = t[1];
    let b2 = t[2];
    let b3 = t[3];
    assert(b0 as int * 0x100_0000 + b1 as int * 0x1_0000 + b2 as int * 0x100 + b3 as int == x as int)
        by (bit_vector)
        requires
            b0 == (x >> 24u32) as u8,
            b1 == ((x >> 16u32) & 0xffu32) as u8,
            b2 == ((x >> 8u32) & 0xffu32) as u8,
            b3 == (x & 0xffu32) as u8,
    ;
}

/// `be128` writes sixteen bytes, most significant first: they spell `x`.
pub proof fn lemma_be128_value(x: u128)
    ensures
        be128(x).len() == 16,
        be_value(be128(x)) == x,
{
    let a = (x >> 96u128) as u32;
    let b = ((x >> 64u128) & 0xffff_ffffu128) as u32;
    let c = ((x >> 32u128) & 0xffff_ffffu128) as u32;
    let d = (x & 0xffff_ffffu128) as u32;
    lemma_be32_value(a);
    lemma_be32_value(b);
    lemma_be32_value(c);
    lemma_be32_value(d);
    let e = Seq::<u8>::empty();
    lemma_be_value_append4(e, be32(a));
    assert(e + be32(a) =~= be32(a));
    lemma_be_value_append4(be32(a), be32(b));
    lemma_be_value_append4(be32(a) + be32(b), be32(c));
    lemma_be_value_append4(be32(a) + be32(b) + be32(c), be32(d));
    assert(((a as int * 0x1_0000_0000 + b as int) * 0x1_0000_0000 + c as int) * 0x1_0000_0000 + d as int
        == x as int) by (bit_vector)
        requires
            a == (x >> 96u128) as u32,
            b == ((x >> 64u128) & 0xffff_ffffu128) as u32,
            c == ((x >> 32u128) & 0xffff_ffffu128) as u32,
            d == (x & 0xffff_ffffu128) as u32,
    ;
}

/// Reading a `u16` at `pos` gives the number that the two bytes there spell.
pub proof fn lemma_u16_at_value(s: Seq<u8>, pos: int)
    requires
        0 <= pos,
        pos + 2 <= s.len(),
    ensures
        u16_at(s, pos) == be_value(s.subrange(pos, pos + 2)),
{
    let e = Seq::<u8>::empty();
    let b0 = s[pos];
    let b1 = s[pos + 1];
    assert(s.subrange(pos, pos + 2) =~= e.push(b0).push(b1));
    lemma_be_value_push(e, b0);
    lemma_be_value_push(e.push(b0), b1);
    assert((((b0 as u16) << 8u16) | (b1 as u16)) as u16 as int == b0 as int * 256 + b1 as int)
        by (bit_vector);
}

/// Reading a `u32` at `pos` gives the number that the four bytes there spell.
pub proof fn lemma_u32_at_value(s: Seq<u8>, pos: int)
    requires
        0 <= pos,
        pos + 4 <= s.len(),
    ensures
        u32_at(s, pos) == be_value(s.subrange(pos, pos + 4)),
{
    let t = s.subrange(pos, pos + 4);
    lemma_be_value4(t);
    let b0 = s[pos];
    let b1 = s[pos + 1];
    let b2 = s[pos + 2];
    let b3 = s[pos + 3];
    assert(t[0] == b0 && t[1] == b1 && t[2] == b2 && t[3] == b3);
    assert((((b0 as u32) << 24u32) | ((b1 as u32) << 16u32) | ((b2 as u32) << 8u32) | (b3 as u32)) as u32
        as int == b0 as int * 0x100_0000 + b1 as int * 0x1_0000 + b2 as int * 0x100 + b3 as int)
        by (bit_vector);
}

} // verus!
