//! Little-endian byte layout helpers shared by every wire format of the
//! library: alignment arithmetic, integer encodings, and in-place writes.
use vstd::prelude::*;
use vstd::arithmetic::div_mod::*;

verus! {

/// Size of a memory page.
pub const PAGE_SIZE: usize = 4096;

/// `x` rounded up to the next multiple of `a`.
pub open spec fn spec_align_up(x: int, a: int) -> int {
    if x % a == 0 { x } else { x + (a - x % a) }
}

/// `x` rounded down to a multiple of `a`.
pub open spec fn spec_align_down(x: int, a: int) -> int {
    x - x % a
}

pub proof fn lemma_align_up_bounds(x: int, a: int)
    requires
        a > 0,
        x >= 0,
    ensures
        x <= spec_align_up(x, a) < x + a,
        spec_align_up(x, a) % a == 0,
{
    assert((x + (a - x % a)) % a == 0) by (nonlinear_arith)
        requires a > 0, x >= 0, x % a != 0 ==> 0 < x % a < a;
}

/// Aligning an aligned offset plus a size is the same as adding the aligned size.
pub proof fn lemma_align_up_shift(o: int, s: int, a: int)
    requires
        a > 0,
        o >= 0,
        s >= 0,
        o % a == 0,
    ensures
        spec_align_up(o + s, a) == o + spec_align_up(s, a),
{
    lemma_add_mod_noop(o, s, a);
    lemma_mod_twice(s, a);
}

/// Rounds `x` up to a multiple of `a`.
pub fn align_up(x: usize, a: usize) -> (r: usize)
    requires
        a > 0,
        spec_align_up(x as int, a as int) <= usize::MAX,
    ensures
        r == spec_align_up(x as int, a as int),
{
    let rem = x % a;
    if rem == 0 {
        x
    } else {
        x + (a - rem)
    }
}

/// Rounds `x` down to a multiple of `a`.
pub fn align_down(x: usize, a: usize) -> (r: usize)
    requires
        a > 0,
    ensures
        r == spec_align_down(x as int, a as int),
{
    proof {
        lemma_mod_decreases(x as nat, a as nat);
    }
    x - x % a
}

/// The sequence `s` with the bytes `b` written at `off`.
pub open spec fn splice(s: Seq<u8>, off: int, b: Seq<u8>) -> Seq<u8> {
    s.take(off) + b + s.skip(off + b.len())
}

/// The little-endian value of the `n` bytes of `s` that start at `off`.
pub open spec fn le_value(s: Seq<u8>, off: int, n: nat) -> nat
    decreases n,
{
    if n == 0 {
        0
    } else {
        s[off] as nat + 256 * le_value(s, off + 1, (n - 1) as nat)
    }
}

/// The `n` little-endian bytes of `v`.
pub open spec fn le_bytes(v: nat, n: nat) -> Seq<u8>
    decreases n,
{
    if n == 0 {
        Seq::empty()
    } else {
        seq![(v % 256) as u8] + le_bytes(v / 256, (n - 1) as nat)
    }
}

pub open spec fn pow256(n: nat) -> nat
    decreases n,
{
    if n == 0 { 1 } else { 256 * pow256((n - 1) as nat) }
}

pub proof fn lemma_le_bytes_len(v: nat, n: nat)
    ensures
        le_bytes(v, n).len() == n,
    decreases n,
{
    if n > 0 {
        lemma_le_bytes_len(v / 256, (n - 1) as nat);
    }
}

/// Reading back `n` little-endian bytes gives the value modulo 256^n.
pub proof fn lemma_le_roundtrip(v: nat, n: nat, pre: Seq<u8>, post: Seq<u8>)
    ensures
        le_value(pre + le_bytes(v, n) + post, pre.len() as int, n) == v % pow256(n),
    decreases n,
{
    lemma_le_bytes_len(v, n);
    if n == 0 {
    } else {
        let s = pre + le_bytes(v, n) + post;
        let pre2 = pre.push((v % 256) as u8);
        lemma_le_bytes_len(v / 256, (n - 1) as nat);
        assert(s =~= pre2 + le_bytes(v / 256, (n - 1) as nat) + post);
        lemma_le_roundtrip(v / 256, (n - 1) as nat, pre2, post);
        assert(s[pre.len() as int] == (v % 256) as u8);
        let p = pow256((n - 1) as nat);
        assert(p > 0) by { lemma_pow256_pos((n - 1) as nat); }
        lemma_breakdown(v as int, 256, p as int);
    }
}

pub proof fn lemma_pow256_pos(n: nat)
    ensures
        pow256(n) > 0,
    decreases n,
{
    if n > 0 {
        lemma_pow256_pos((n - 1) as nat);
    }
}

/// The value read depends only on the bytes read.
pub proof fn lemma_le_value_ext(s: Seq<u8>, off: int, t: Seq<u8>, off2: int, n: nat)
    requires
        0 <= off,
        off + n <= s.len(),
        0 <= off2,
        off2 + n <= t.len(),
        s.subrange(off, off + n) == t.subrange(off2, off2 + n),
    ensures
        le_value(s, off, n) == le_value(t, off2, n),
    decreases n,
{
    if n > 0 {
        assert(s[off] == s.subrange(off, off + n)[0]);
        assert(t[off2] == t.subrange(off2, off2 + n)[0]);
        assert(s.subrange(off + 1, off + n) =~= s.subrange(off, off + n).subrange(1, n as int));
        assert(t.subrange(off2 + 1, off2 + n) =~= t.subrange(off2, off2 + n).subrange(1, n as int));
        lemma_le_value_ext(s, off + 1, t, off2 + 1, (n - 1) as nat);
    }
}

pub open spec fn read_u32(s: Seq<u8>, off: int) -> u32 {
    le_value(s, off, 4) as u32
}

pub open spec fn read_u64(s: Seq<u8>, off: int) -> u64 {
    le_value(s, off, 8) as u64
}

pub open spec fn u32_bytes(v: u32) -> Seq<u8> {
    le_bytes(v as nat, 4)
}

pub open spec fn u64_bytes(v: u64) -> Seq<u8> {
    le_bytes(v as nat, 8)
}

pub proof fn lemma_u32_roundtrip(v: u32, pre: Seq<u8>, post: Seq<u8>)
    ensures
        read_u32(pre + u32_bytes(v) + post, pre.len() as int) == v,
        u32_bytes(v).len() == 4,
{
    lemma_le_roundtrip(v as nat, 4, pre, post);
    lemma_le_bytes_len(v as nat, 4);
    reveal_with_fuel(pow256, 5);
    assert(pow256(4) == 0x1_0000_0000);
}

pub proof fn lemma_u64_roundtrip(v: u64, pre: Seq<u8>, post: Seq<u8>)
    ensures
        read_u64(pre + u64_bytes(v) + post, pre.len() as int) == v,
        u64_bytes(v).len() == 8,
{
    lemma_le_roundtrip(v as nat, 8, pre, post);
    lemma_le_bytes_len(v as nat, 8);
    reveal_with_fuel(pow256, 9);
    assert(pow256(8) == 0x1_0000_0000_0000_0000);
}


/// Reading a `u32` where its bytes lie gives it back.
pub proof fn lemma_read_u32_at(s: Seq<u8>, off: int, v: u32)
    requires
        0 <= off,
        off + 4 <= s.len(),
        s.subrange(off, off + 4) == u32_bytes(v),
    ensures
        read_u32(s, off) == v,
{
    lemma_u32_roundtrip(v, Seq::<u8>::empty(), Seq::<u8>::empty());
    let t = Seq::<u8>::empty() + u32_bytes(v) + Seq::<u8>::empty();
    assert(t =~= u32_bytes(v));
    assert(t.subrange(0, 4) =~= t);
    lemma_le_value_ext(s, off, t, 0, 4);
}

/// Reading a `u64` where its bytes lie gives it back.
pub proof fn lemma_read_u64_at(s: Seq<u8>, off: int, v: u64)
    requires
        0 <= off,
        off + 8 <= s.len(),
        s.subrange(off, off + 8) == u64_bytes(v),
    ensures
        read_u64(s, off) == v,
{
    lemma_u64_roundtrip(v, Seq::<u8>::empty(), Seq::<u8>::empty());
    let t = Seq::<u8>::empty() + u64_bytes(v) + Seq::<u8>::empty();
    assert(t =~= u64_bytes(v));
    assert(t.subrange(0, 8) =~= t);
    lemma_le_value_ext(s, off, t, 0, 8);
}

/// Reads the little-endian `u32` at `off`.
pub fn get_u32(buf: &[u8], off: usize) -> (r: u32)
    requires
        off + 4 <= buf@.len(),
    ensures
        r == read_u32(buf@, off as int),
{
    let b0 = buf[off] as u32;
    let b1 = buf[off + 1] as u32;
    let b2 = buf[off + 2] as u32;
    let b3 = buf[off + 3] as u32;
    proof {
        reveal_with_fuel(le_value, 5);
    }
    b0 + 256 * (b1 + 256 * (b2 + 256 * b3))
}

/// Reads the little-endian `u64` at `off`.
pub fn get_u64(buf: &[u8], off: usize) -> (r: u64)
    requires
        off + 8 <= buf@.len(),
    ensures
        r == read_u64(buf@, off as int),
{
    let len = buf.len();
    let lo = get_u32(buf, off) as u64;
    let hi = get_u32(buf, off + 4) as u64;
    proof {
        reveal_with_fuel(le_value, 9);
        reveal_with_fuel(le_value, 5);
        lemma_le_split(buf@, off as int);
    }
    lo + 0x1_0000_0000 * hi
}

proof fn lemma_le_split(s: Seq<u8>, off: int)
    ensures
        le_value(s, off, 8) == le_value(s, off, 4) + 0x1_0000_0000 * le_value(s, off + 4, 4),
{
    reveal_with_fuel(le_value, 9);
}

/// Writes `src` into `buf` at `off`.
pub fn put_bytes(buf: &mut [u8], off: usize, src: &[u8])
    requires
        off + src@.len() <= old(buf)@.len(),
    ensures
        final(buf)@ == splice(old(buf)@, off as int, src@),
{
    let n = src.len();
    let blen = buf.len();
    let mut i: usize = 0;
    while i < n
        invariant
            n == src@.len(),
            i <= n,
            off + n <= buf@.len(),
            buf@.len() == old(buf)@.len(),
            blen == buf@.len(),
            buf@ == splice(old(buf)@, off as int, src@.take(i as int)),
        decreases n - i,
    {
        assert(off + i < buf@.len());
        buf[off + i] = src[i];
        i = i + 1;
        assert(buf@ =~= splice(old(buf)@, off as int, src@.take(i as int)));
    }
    assert(src@.take(n as int) =~= src@);
}

/// The four little-endian bytes of `v`.
pub fn u32_to_le(v: u32) -> (r: [u8; 4])
    ensures
        r@ == u32_bytes(v),
{
    let r = [(v % 256) as u8, ((v / 256) % 256) as u8, ((v / 65536) % 256) as u8, ((v / 16777216) % 256) as u8];
    proof {
        reveal_with_fuel(le_bytes, 5);
        assert(r@ =~= u32_bytes(v));
    }
    r
}

/// Byte `k` of the little-endian encoding is `(v / 256^k) % 256`.
pub proof fn lemma_le_bytes_index(v: nat, n: nat, k: nat)
    requires
        k < n,
    ensures
        le_bytes(v, n).len() == n,
        le_bytes(v, n)[k as int] == ((v / pow256(k)) % 256) as u8,
    decreases n,
{
    lemma_le_bytes_len(v, n);
    lemma_le_bytes_len(v / 256, (n - 1) as nat);
    let tail = le_bytes(v / 256, (n - 1) as nat);
    assert(le_bytes(v, n) == seq![(v % 256) as u8] + tail);
    if k == 0 {
        assert(pow256(0) == 1);
    } else {
        assert(le_bytes(v, n)[k as int] == tail[k - 1]);
        lemma_le_bytes_index(v / 256, (n - 1) as nat, (k - 1) as nat);
        lemma_pow256_pos((k - 1) as nat);
        lemma_div_denominator(v as int, 256, pow256((k - 1) as nat) as int);
    }
}

/// The eight little-endian bytes of `v`.
pub fn u64_to_le(v: u64) -> (r: [u8; 8])
    ensures
        r@ == u64_bytes(v),
{
    let r = [
        (v % 256) as u8,
        ((v / 0x100) % 256) as u8,
        ((v / 0x1_0000) % 256) as u8,
        ((v / 0x100_0000) % 256) as u8,
        ((v / 0x1_0000_0000) % 256) as u8,
        ((v / 0x100_0000_0000) % 256) as u8,
        ((v / 0x1_0000_0000_0000) % 256) as u8,
        ((v / 0x100_0000_0000_0000) % 256) as u8,
    ];
    proof {
        reveal_with_fuel(pow256, 9);
        assert forall|k: int| 0 <= k < 8 implies r@[k] == u64_bytes(v)[k] by {
            lemma_le_bytes_index(v as nat, 8, k as nat);
        }
        lemma_le_bytes_len(v as nat, 8);
        assert(r@ =~= u64_bytes(v));
    }
    r
}

/// Writes the little-endian `u32` `v` at `off`.
pub fn put_u32(buf: &mut [u8], off: usize, v: u32)
    requires
        off + 4 <= old(buf)@.len(),
    ensures
        final(buf)@ == splice(old(buf)@, off as int, u32_bytes(v)),
{
    let b = u32_to_le(v);
    put_bytes(buf, off, &b);
}

/// Writes the little-endian `u64` `v` at `off`.
pub fn put_u64(buf: &mut [u8], off: usize, v: u64)
    requires
        off + 8 <= old(buf)@.len(),
    ensures
        final(buf)@ == splice(old(buf)@, off as int, u64_bytes(v)),
{
    let b = u64_to_le(v);
    put_bytes(buf, off, &b);
}

/// A little-endian value of `n` bytes is below 256^n.
pub proof fn lemma_le_value_bound(s: Seq<u8>, off: int, n: nat)
    ensures
        le_value(s, off, n) < pow256(n),
    decreases n,
{
    if n > 0 {
        lemma_le_value_bound(s, off + 1, (n - 1) as nat);
        let rest = le_value(s, off + 1, (n - 1) as nat);
        let p = pow256((n - 1) as nat);
        assert(s[off] as nat + 256 * rest < 256 * p) by (nonlinear_arith)
            requires rest < p, s[off] < 256;
    }
}

/// The sixteen little-endian bytes of `v`.
pub fn u128_to_le(v: u128) -> (r: [u8; 16])
    ensures
        r@ == le_bytes(v as nat, 16),
{
    let mut r = [0u8; 16];
    let mut rest = v;
    let mut k: usize = 0;
    while k < 16
        invariant
            k <= 16,
            r@.len() == 16,
            r@.take(k as int) + le_bytes(rest as nat, (16 - k) as nat) == le_bytes(v as nat, 16),
        decreases 16 - k,
    {
        let ghost prev = r@;
        proof {
            lemma_le_bytes_len(rest as nat, (16 - k) as nat);
            assert(le_bytes(rest as nat, (16 - k) as nat) == seq![(rest % 256) as u8] + le_bytes(rest as nat / 256, (16 - k - 1) as nat));
        }
        r[k] = (rest % 256) as u8;
        rest = rest / 256;
        k = k + 1;
        assert(r@.take(k as int) =~= prev.take(k - 1).push((r@[k - 1])));
        assert(r@.take(k as int) + le_bytes(rest as nat, (16 - k) as nat) =~= prev.take(k - 1) + (seq![r@[k - 1]] + le_bytes(rest as nat, (16 - k) as nat)));
    }
    assert(r@.take(16) =~= r@);
    assert(le_bytes(rest as nat, 0) =~= Seq::<u8>::empty());
    assert(r@ + Seq::<u8>::empty() =~= r@);
    r
}

/// The little-endian value of the sixteen bytes of `b`.
pub fn u128_from_le(b: &[u8; 16]) -> (r: u128)
    ensures
        r == le_value(b@, 0, 16),
{
    let mut value: u128 = 0;
    let mut k: usize = 16;
    proof {
        reveal_with_fuel(pow256, 17);
    }
    while k > 0
        invariant
            k <= 16,
            b@.len() == 16,
            value == le_value(b@, k as int, (16 - k) as nat),
            pow256(16) == 0x1_0000_0000_0000_0000_0000_0000_0000_0000,
        decreases k,
    {
        proof {
            lemma_le_value_bound(b@, k as int, (16 - k) as nat);
            lemma_pow256_mono((16 - k) as nat, 15);
            reveal_with_fuel(pow256, 17);
            assert(value as nat * 256 + 255 < pow256(16)) by (nonlinear_arith)
                requires value < pow256((16 - k) as nat), pow256((16 - k) as nat) <= pow256(15), pow256(16) == 256 * pow256(15);
        }
        let byte = b[k - 1] as u128;
        value = byte + 256 * value;
        k = k - 1;
    }
    value
}

pub proof fn lemma_pow256_mono(a: nat, b: nat)
    requires
        a <= b,
    ensures
        pow256(a) <= pow256(b),
    decreases b,
{
    if a < b {
        lemma_pow256_mono(a, (b - 1) as nat);
        lemma_pow256_pos((b - 1) as nat);
    }
}

} // verus!
