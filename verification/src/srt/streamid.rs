//! The StreamID syntax `#!::key1=value1,key2=value2,...` of the stream id extension, with the
//! keys `r` (resource name, hex-encoded), `s` (session id) and `m` (mode: `request` or
//! `publish`).
use vstd::prelude::*;
use vstd::utf8::encode_utf8;
use super::extension::StreamIdExtension;

verus! {

/// The prefix of the StreamID syntax: `#!::`.
pub open spec fn sid_prefix() -> Seq<u8> {
    seq![0x23u8, 0x21u8, 0x3au8, 0x3au8]
}

/// The index of the first `c` in `s`, or the length of `s` when there is none.
pub open spec fn find_byte(s: Seq<u8>, c: u8) -> int
    decreases s.len(),
{
    if s.len() == 0 {
        0
    } else if s[0] == c {
        0
    } else {
        1 + find_byte(s.drop_first(), c)
    }
}

/// The keys and values that the StreamID syntax gives, as bytes.
pub ghost struct StreamIdView {
    pub resource: Option<Seq<u8>>,
    pub session: Option<Seq<u8>>,
    pub mode: Option<Seq<u8>>,
}

/// Records `value` under `key`; keys other than `r`, `s` and `m` are ignored, and a later
/// value replaces an earlier one.
pub open spec fn with_pair(acc: StreamIdView, key: Seq<u8>, value: Seq<u8>) -> StreamIdView {
    if key == seq![0x72u8] {
        StreamIdView { resource: Some(value), ..acc }
    } else if key == seq![0x73u8] {
        StreamIdView { session: Some(value), ..acc }
    } else if key == seq![0x6du8] {
        StreamIdView { mode: Some(value), ..acc }
    } else {
        acc
    }
}

/// Parses the comma-separated `key=value` items of `s` into `acc`; every item must hold a
/// `=`.
pub open spec fn parse_items(s: Seq<u8>, acc: StreamIdView) -> Option<StreamIdView>
    decreases s.len(),
{
    let end = find_byte(s, 0x2cu8);
    let item = s.take(end);
    let eq = find_byte(item, 0x3du8);
    if eq >= item.len() {
        None
    } else {
        let acc2 = with_pair(acc, item.take(eq), item.skip(eq + 1));
        if end >= s.len() {
            Some(acc2)
        } else {
            proof {
                lemma_find_bound(s, 0x2cu8);
            }
            parse_items(s.skip(end + 1), acc2)
        }
    }
}

/// The result of parsing the bytes `b` of a stream id.
pub open spec fn spec_parse_stream_id(b: Seq<u8>) -> Option<StreamIdView> {
    if b.len() >= 4 && b.take(4) == sid_prefix() {
        parse_items(b.skip(4), StreamIdView { resource: None, session: None, mode: None })
    } else {
        None
    }
}

/// A parsed stream id.
#[derive(Clone, Debug)]
pub struct StreamId {
    pub resource: Option<Vec<u8>>,
    pub session: Option<Vec<u8>>,
    pub mode: Option<Vec<u8>>,
}

/// The bytes of an optional value.
pub open spec fn opt_view(v: Option<Vec<u8>>) -> Option<Seq<u8>> {
    match v {
        Some(b) => Some(b@),
        None => None,
    }
}

impl View for StreamId {
    type V = StreamIdView;

    open spec fn view(&self) -> StreamIdView {
        StreamIdView {
            resource: opt_view(self.resource),
            session: opt_view(self.session),
            mode: opt_view(self.mode),
        }
    }
}

/// Returns the index of the first `c` in `b[from..to]`, relative to `from`, or `to - from`.
fn find_in(b: &[u8], from: usize, to: usize, c: u8) -> (r: usize)
    requires
        from <= to <= b@.len(),
    ensures
        r == find_byte(b@.subrange(from as int, to as int), c),
        r <= to - from,
{
    let mut i = from;
    proof {
        lemma_find_bound(b@.subrange(from as int, to as int), c);
    }
    while i < to
        invariant
            from <= i <= to <= b@.len(),
            find_byte(b@.subrange(from as int, to as int), c) == (i - from) + find_byte(
                b@.subrange(i as int, to as int),
                c,
            ),
            find_byte(b@.subrange(i as int, to as int), c) <= to - i,
        decreases to - i,
    {
        if b[i] == c {
            return i - from;
        }
        proof {
            assert(b@.subrange(i as int, to as int).drop_first() =~= b@.subrange(i + 1, to as int));
            lemma_find_bound(b@.subrange(i + 1, to as int), c);
        }
        i = i + 1;
    }
    i - from
}

/// The index of the first `c` lies within the sequence or at its end.
pub proof fn lemma_find_bound(s: Seq<u8>, c: u8)
    ensures
        0 <= find_byte(s, c) <= s.len(),
        find_byte(s, c) < s.len() ==> s[find_byte(s, c)] == c,
    decreases s.len(),
{
    if s.len() > 0 && s[0] != c {
        lemma_find_bound(s.drop_first(), c);
    }
}

/// `s` is exactly the bytes `lit`.
pub(crate) fn bytes_equal(b: &[u8], from: usize, to: usize, lit: &[u8]) -> (r: bool)
    requires
        from <= to <= b@.len(),
    ensures
        r == (b@.subrange(from as int, to as int) == lit@),
{
    if to - from != lit.len() {
        proof {
            assert(b@.subrange(from as int, to as int).len() != lit@.len());
        }
        return false;
    }
    let mut i: usize = 0;
    while i < lit.len()
        invariant
            to - from == lit@.len(),
            from <= to <= b@.len(),
            i <= lit@.len(),
            forall|j: int| 0 <= j < i ==> b@[from + j] == lit@[j],
        decreases lit@.len() - i,
    {
        if b[from + i] != lit[i] {
            proof {
                assert(b@.subrange(from as int, to as int)[i as int] != lit@[i as int]);
            }
            return false;
        }
        i = i + 1;
    }
    proof {
        assert(b@.subrange(from as int, to as int) =~= lit@);
    }
    true
}

/// Parses the stream id syntax from `b`.
pub fn parse_stream_id_bytes(b: &[u8]) -> (r: Option<StreamId>)
    ensures
        match r {
            Some(sid) => spec_parse_stream_id(b@) == Some(sid@),
            None => spec_parse_stream_id(b@) is None,
        },
{
    let n = b.len();
    if n < 4 || b[0] != 0x23u8 || b[1] != 0x21u8 || b[2] != 0x3au8 || b[3] != 0x3au8 {
        proof {
            if n >= 4 {
                assert(b@.take(4)[0] == b@[0] && b@.take(4)[1] == b@[1] && b@.take(4)[2] == b@[2]
                    && b@.take(4)[3] == b@[3]);
            }
        }
        return None;
    }
    proof {
        assert(b@.take(4) =~= sid_prefix());
    }
    let mut sid = StreamId { resource: None, session: None, mode: None };
    let mut pos: usize = 4;
    loop
        invariant
            4 <= pos <= n == b@.len(),
            spec_parse_stream_id(b@) == parse_items(b@.subrange(pos as int, n as int), sid@),
        decreases n - pos,
    {
        let ghost s = b@.subrange(pos as int, n as int);
        let end = find_in(b, pos, n, 0x2cu8);
        proof {
            lemma_find_bound(s, 0x2cu8);
            assert(s.take(end as int) =~= b@.subrange(pos as int, pos + end));
        }
        let item_end = pos + end;
        let eq = find_in(b, pos, item_end, 0x3du8);
        if eq >= end {
            return None;
        }
        let key_end = pos + eq;
        proof {
            let item = s.take(end as int);
            assert(item.take(eq as int) =~= b@.subrange(pos as int, key_end as int));
            assert(item.skip(eq + 1) =~= b@.subrange(key_end + 1, item_end as int));
        }
        let value = super::copy_range(b, key_end + 1, item_end);
        if bytes_equal(b, pos, key_end, &[0x72u8]) {
            proof { assert(seq![0x72u8] =~= [0x72u8]@); }
            sid.resource = Some(value);
        } else if bytes_equal(b, pos, key_end, &[0x73u8]) {
            proof { assert(seq![0x73u8] =~= [0x73u8]@); }
            sid.session = Some(value);
        } else if bytes_equal(b, pos, key_end, &[0x6du8]) {
            proof { assert(seq![0x6du8] =~= [0x6du8]@); }
            sid.mode = Some(value);
        } else {
            proof {
                assert(seq![0x72u8] =~= [0x72u8]@);
                assert(seq![0x73u8] =~= [0x73u8]@);
                assert(seq![0x6du8] =~= [0x6du8]@);
            }
        }
        if item_end >= n {
            return Some(sid);
        }
        proof {
            assert(s.skip(end + 1) =~= b@.subrange(item_end + 1, n as int));
        }
        pos = item_end + 1;
    }
}

impl StreamIdExtension {
    /// Parses the content as the StreamID syntax.
    pub fn parse(&self) -> (r: Option<StreamId>)
        ensures
            match r {
                Some(sid) => spec_parse_stream_id(encode_utf8(self.content@)) == Some(sid@),
                None => spec_parse_stream_id(encode_utf8(self.content@)) is None,
            },
    {
        parse_stream_id_bytes(self.content.as_str().as_bytes())
    }
}

/// The value of a hex digit, if `c` is one.
pub open spec fn hex_digit(c: u8) -> Option<u64> {
    if 0x30 <= c <= 0x39 {
        Some((c - 0x30) as u64)
    } else if 0x61 <= c <= 0x66 {
        Some((c - 0x61 + 10) as u64)
    } else if 0x41 <= c <= 0x46 {
        Some((c - 0x41 + 10) as u64)
    } else {
        None
    }
}

/// The value of the hex digits `s`, if they all are hex digits.
pub open spec fn hex_value(s: Seq<u8>) -> Option<int>
    decreases s.len(),
{
    if s.len() == 0 {
        Some(0)
    } else {
        match (hex_value(s.drop_last()), hex_digit(s.last())) {
            (Some(v), Some(d)) => Some(v * 16 + d),
            _ => None,
        }
    }
}

/// The resource id named by a hex-encoded value: one to sixteen hex digits.
pub open spec fn spec_resource_id(s: Seq<u8>) -> Option<u64> {
    if 1 <= s.len() <= 16 {
        match hex_value(s) {
            Some(v) => Some(v as u64),
            None => None,
        }
    } else {
        None
    }
}

/// Sixteen hex digits fit into a `u64`.
proof fn lemma_hex_bound(s: Seq<u8>)
    requires
        hex_value(s) is Some,
    ensures
        0 <= hex_value(s).unwrap() < vstd::arithmetic::power2::pow2(4 * s.len()),
    decreases s.len(),
{
    vstd::arithmetic::power2::lemma2_to64();
    if s.len() > 0 {
        lemma_hex_bound(s.drop_last());
        let v = hex_value(s.drop_last()).unwrap();
        vstd::arithmetic::power2::lemma_pow2_adds(4 * (s.len() - 1) as nat, 4);
        assert(4 * (s.len() - 1) + 4 == 4 * s.len());
        let p = vstd::arithmetic::power2::pow2(4 * (s.len() - 1) as nat);
        assert(v * 16 + 15 < p * 16) by (nonlinear_arith)
            requires
                0 <= v < p,
        ;
    }
}

/// Parses a hex-encoded resource id of one to sixteen digits.
pub fn parse_resource_id(s: &[u8]) -> (r: Option<u64>)
    ensures
        r == spec_resource_id(s@),
{
    let n = s.len();
    if n == 0 || n > 16 {
        return None;
    }
    let mut v: u64 = 0;
    let mut i: usize = 0;
    while i < n
        invariant
            1 <= n <= 16,
            n == s@.len(),
            i <= n,
            hex_value(s@.take(i as int)) == Some(v as int),
        decreases n - i,
    {
        let c = s[i];
        let d: u64 = if 0x30u8 <= c && c <= 0x39u8 {
            (c - 0x30u8) as u64
        } else if 0x61u8 <= c && c <= 0x66u8 {
            (c - 0x61u8 + 10) as u64
        } else if 0x41u8 <= c && c <= 0x46u8 {
            (c - 0x41u8 + 10) as u64
        } else {
            proof {
                assert(s@.take(i + 1).drop_last() =~= s@.take(i as int));
                assert(s@.take(i + 1).last() == c);
                lemma_hex_prefix_none(s@, i as int + 1);
            }
            return None;
        };
        proof {
            assert(s@.take(i + 1).drop_last() =~= s@.take(i as int));
            assert(s@.take(i + 1).last() == c);
            lemma_hex_bound(s@.take(i + 1));
            vstd::arithmetic::power2::lemma2_to64();
            if i + 1 < 16 {
                vstd::arithmetic::power2::lemma_pow2_strictly_increases(4 * (i + 1) as nat, 64);
            }
        }
        v = v * 16 + d;
        i = i + 1;
    }
    proof {
        assert(s@.take(n as int) =~= s@);
    }
    Some(v)
}

/// A prefix that is not hex makes the whole value not hex.
proof fn lemma_hex_prefix_none(s: Seq<u8>, k: int)
    requires
        0 < k <= s.len(),
        hex_value(s.take(k)) is None,
    ensures
        hex_value(s) is None,
    decreases s.len() - k,
{
    if k < s.len() {
        assert(s.take(k + 1).drop_last() =~= s.take(k));
        lemma_hex_prefix_none(s, k + 1);
    } else {
        assert(s.take(k) =~= s);
    }
}

} // verus!
