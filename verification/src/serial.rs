//! Serial number arithmetic on the low `N` bits of a `u32` (RFC 1982).
use vstd::prelude::*;
use vstd::arithmetic::power2::{pow2, lemma_pow2_pos, lemma_pow2_adds, lemma2_to64};
use core::cmp::Ordering;
use vstd::bits::{lemma_u32_low_bits_mask_is_mod, lemma_u32_shl_is_mul, lemma_u32_pow2_no_overflow};

verus! {

/// `2^n` as an integer: the size of the serial number space of `n` bits.
pub open spec fn modulus(n: usize) -> int {
    pow2(n as nat) as int
}

/// The value that `x` takes in an `n`-bit serial number space.
pub open spec fn reduce(x: int, n: usize) -> int {
    x % modulus(n)
}

/// Serial addition on `n` bits, as integers.
pub open spec fn spec_add(lhs: u32, rhs: u32, n: usize) -> int {
    (reduce(lhs as int, n) + reduce(rhs as int, n)) % modulus(n)
}

/// Serial subtraction on `n` bits, as integers.
pub open spec fn spec_sub(lhs: u32, rhs: u32, n: usize) -> int {
    (reduce(lhs as int, n) - reduce(rhs as int, n)) % modulus(n)
}

/// Proves that `(1 << n) - 1` is the low-bit mask of `n` bits and that masking reduces
/// modulo `2^n`.
proof fn lemma_mask(x: u32, n: usize)
    requires
        n < 32,
    ensures
        (1u32 << (n as u32)) as int == modulus(n),
        0 < modulus(n) <= 0x8000_0000,
        (x & (((1u32 << (n as u32)) - 1) as u32)) as int == reduce(x as int, n),
{
    lemma_u32_pow2_no_overflow(n as nat);
    lemma_pow2_pos(n as nat);
    lemma_u32_shl_is_mul(1u32, n as u32);
    vstd::arithmetic::power2::lemma2_to64();
    if n < 31 {
        vstd::arithmetic::power2::lemma_pow2_strictly_increases(n as nat, 31);
    }
    lemma_u32_low_bits_mask_is_mod(x, n as nat);
}

/// Adds `rhs` to `lhs` using serial number arithmetic.
pub fn add<const N: usize>(lhs: u32, rhs: u32) -> (r: u32)
    requires
        N < 32,
    ensures
        r as int == spec_add(lhs, rhs, N),
{
    proof {
        lemma_mask(lhs, N);
        lemma_mask(rhs, N);
    }
    let max: u32 = (1u32 << (N as u32)) - 1;
    let l = lhs & max;
    let r = rhs & max;
    let s = l + r;
    proof { lemma_mask(s, N); }
    s & max
}


/// Serial subtraction on `n` bits, as a `u32`.
pub open spec fn sub_value(lhs: u32, rhs: u32, n: usize) -> u32 {
    spec_sub(lhs, rhs, n) as u32
}

/// Serial addition on `n` bits, as a `u32`.
pub open spec fn add_value(lhs: u32, rhs: u32, n: usize) -> u32 {
    spec_add(lhs, rhs, n) as u32
}

/// Half of the serial number space of `n` bits: `2^(n - 1)`.
pub open spec fn half(n: usize) -> int {
    pow2((n - 1) as nat) as int
}

/// Proves that `1 << (n - 1)` is `2^(n - 1)`.
proof fn lemma_half(n: usize)
    requires
        1 <= n <= 32,
    ensures
        (1u32 << ((n - 1) as u32)) as int == half(n),
        0 < half(n) <= 0x8000_0000,
{
    let k = (n - 1) as u32;
    lemma_u32_pow2_no_overflow(k as nat);
    lemma_pow2_pos(k as nat);
    lemma_u32_shl_is_mul(1u32, k);
    lemma2_to64();
    if k < 31 {
        vstd::arithmetic::power2::lemma_pow2_strictly_increases(k as nat, 31);
    }
}

/// Subtracts `rhs` from `lhs` using serial number arithmetic.
pub fn sub<const N: usize>(lhs: u32, rhs: u32) -> (r: u32)
    requires
        N < 32,
    ensures
        r as int == spec_sub(lhs, rhs, N),
{
    proof {
        lemma_mask(lhs, N);
        lemma_mask(rhs, N);
    }
    let max: u32 = (1u32 << (N as u32)) - 1;
    let l = lhs & max;
    let r = rhs & max;
    let d = l.wrapping_sub(r);
    proof {
        lemma_mask(d, N);
        lemma_pow2_adds(N as nat, (32 - N) as nat);
        lemma_pow2_pos(N as nat);
        lemma_pow2_pos((32 - N) as nat);
        lemma2_to64();
        assert(d as int == (l as int - r as int) % 0x1_0000_0000);
        vstd::arithmetic::div_mod::lemma_mod_mod(
            l as int - r as int,
            modulus(N),
            pow2((32 - N) as nat) as int,
        );
    }
    d & max
}

/// The RFC 1982 order of two serial numbers of `n` bits: `Less` when `rhs` lies less than half
/// the number space ahead of `lhs`, `Equal` when they are the same, `Greater` otherwise.
pub open spec fn serial_order(lhs: u32, rhs: u32, n: usize) -> Ordering {
    if lhs == rhs {
        Ordering::Equal
    } else if (lhs < rhs && rhs - lhs < half(n)) || (lhs > rhs && lhs - rhs > half(n)) {
        Ordering::Less
    } else {
        Ordering::Greater
    }
}

/// Compares `lhs` to `rhs` using serial number comparisons.
pub fn cmp<const N: usize>(lhs: u32, rhs: u32) -> (r: Ordering)
    requires
        1 <= N <= 32,
    ensures
        r == serial_order(lhs, rhs, N),
{
    if lhs == rhs {
        return Ordering::Equal;
    }
    let h = half_u32::<N>();
    if (lhs < rhs && rhs.wrapping_sub(lhs) < h) || (lhs > rhs && lhs.wrapping_sub(rhs) > h) {
        Ordering::Less
    } else {
        Ordering::Greater
    }
}

/// `1 << (N - 1)`, the half of the `N`-bit serial number space.
fn half_u32<const N: usize>() -> (h: u32)
    requires
        1 <= N <= 32,
    ensures
        h as int == half(N),
{
    proof { lemma_half(N); }
    1u32 << ((N - 1) as u32)
}

/// Subtraction undoes addition: `(a + b) - b == a` on `n` bits.
pub proof fn lemma_sub_undoes_add(a: u32, b: u32, n: usize)
    requires
        n < 32,
    ensures
        spec_sub(add_value(a, b, n), b, n) == reduce(a as int, n),
{
    lemma_mask(a, n);
    lemma_mask(b, n);
    let m = modulus(n);
    let s = spec_add(a, b, n);
    assert(0 <= s < m);
    assert(add_value(a, b, n) as int == s);
    assert(reduce(s, n) == s) by {
        vstd::arithmetic::div_mod::lemma_small_mod(s as nat, m as nat);
    }
    let ra = reduce(a as int, n);
    let rb = reduce(b as int, n);
    assert(0 <= ra < m && 0 <= rb < m);
    vstd::arithmetic::div_mod::lemma_small_mod(rb as nat, m as nat);
    vstd::arithmetic::div_mod::lemma_small_mod(ra as nat, m as nat);
    vstd::arithmetic::div_mod::lemma_sub_mod_noop(ra + rb, rb, m);
    assert(spec_sub(add_value(a, b, n), b, n) == (s - rb) % m);
    assert((s - rb) % m == ((ra + rb) % m - rb % m) % m);
}

/// Addition undoes subtraction: `(a - b) + b == a` on `n` bits.
pub proof fn lemma_add_undoes_sub(a: u32, b: u32, n: usize)
    requires
        n < 32,
    ensures
        spec_add(sub_value(a, b, n), b, n) == reduce(a as int, n),
{
    lemma_mask(a, n);
    lemma_mask(b, n);
    let m = modulus(n);
    let d = spec_sub(a, b, n);
    assert(0 <= d < m);
    assert(sub_value(a, b, n) as int == d);
    vstd::arithmetic::div_mod::lemma_small_mod(d as nat, m as nat);
    let ra = reduce(a as int, n);
    let rb = reduce(b as int, n);
    vstd::arithmetic::div_mod::lemma_small_mod(rb as nat, m as nat);
    vstd::arithmetic::div_mod::lemma_add_mod_noop(ra - rb, rb, m);
    vstd::arithmetic::div_mod::lemma_mod_twice(ra - rb, m);
    vstd::arithmetic::div_mod::lemma_small_mod(ra as nat, m as nat);
}

/// The serial order is antisymmetric: `a < b` exactly when `b > a`, for distinct numbers that
/// do not lie exactly half the number space apart (where RFC 1982 leaves the order undefined).
pub proof fn lemma_order_antisymmetric(a: u32, b: u32, n: usize)
    requires
        1 <= n <= 32,
        a != b,
        a - b != half(n),
        b - a != half(n),
    ensures
        (serial_order(a, b, n) == Ordering::Less) <==> (serial_order(b, a, n) == Ordering::Greater),
        (serial_order(a, b, n) == Ordering::Greater) <==> (serial_order(b, a, n) == Ordering::Less),
{
}

/// A number compares equal only to itself.
pub proof fn lemma_order_equal(a: u32, b: u32, n: usize)
    ensures
        (serial_order(a, b, n) == Ordering::Equal) <==> a == b,
{
}

/// Advancing a number by less than half the number space gives a number that compares greater.
pub proof fn lemma_advance_is_greater(a: u32, k: u32, n: usize)
    requires
        1 <= n < 32,
        a < modulus(n),
        0 < k < half(n),
    ensures
        serial_order(add_value(a, k, n), a, n) == Ordering::Greater,
        serial_order(a, add_value(a, k, n), n) == Ordering::Less,
{
    lemma_advance_value(a, k, n);
}

/// The value reached by advancing `a` by `k`: either `a + k`, or it wrapped to
/// `a + k - 2^n`.
proof fn lemma_advance_value(a: u32, k: u32, n: usize)
    requires
        1 <= n < 32,
        a < modulus(n),
        0 < k < half(n),
    ensures
        add_value(a, k, n) as int == a + k || add_value(a, k, n) as int == a + k - modulus(n),
        modulus(n) == 2 * half(n),
{
    lemma_mask(a, n);
    lemma_mask(k, n);
    vstd::arithmetic::power2::lemma_pow2_unfold(n as nat);
    let m = modulus(n);
    vstd::arithmetic::div_mod::lemma_small_mod(a as nat, m as nat);
    vstd::arithmetic::div_mod::lemma_small_mod(k as nat, m as nat);
    if a + k < m {
        vstd::arithmetic::div_mod::lemma_small_mod((a + k) as nat, m as nat);
    } else {
        vstd::arithmetic::div_mod::lemma_mod_sub_multiples_vanish(a + k - m, m);
        vstd::arithmetic::div_mod::lemma_small_mod((a + k - m) as nat, m as nat);
        vstd::arithmetic::div_mod::lemma_mod_add_multiples_vanish(a + k - m, m);
    }
}

} // verus!
