//! Little-endian integers read from account bytes.

use vstd::prelude::*;

verus! {

/// The unsigned little-endian integer held in `n` bytes of `s` from `off` on.
pub open spec fn le_int(s: Seq<u8>, off: int, n: nat) -> int
    decreases n,
{
    if n == 0 {
        0
    } else {
        s[off] as int + 256 * le_int(s, off + 1, (n - 1) as nat)
    }
}

/// `256` to the power `n`.
pub open spec fn radix(n: nat) -> int
    decreases n,
{
    if n == 0 {
        1
    } else {
        256 * radix((n - 1) as nat)
    }
}

/// The `u64` stored little-endian in the eight bytes from `off` on.
pub open spec fn le_u64(s: Seq<u8>, off: int) -> u64 {
    le_int(s, off, 8) as u64
}

/// The `u16` stored little-endian in the two bytes from `off` on.
pub open spec fn le_u16(s: Seq<u8>, off: int) -> u16 {
    le_int(s, off, 2) as u16
}

proof fn lemma_radix_mono(n: nat, m: nat)
    requires
        n <= m,
    ensures
        1 <= radix(n) <= radix(m),
    decreases m,
{
    if m > 0 && n < m {
        lemma_radix_mono(n, (m - 1) as nat);
    }
    if m == 0 {
    } else {
        lemma_radix_mono(0, (m - 1) as nat);
    }
}

proof fn lemma_le_bound(s: Seq<u8>, off: int, n: nat)
    requires
        0 <= off,
        off + n <= s.len(),
    ensures
        0 <= le_int(s, off, n) < radix(n),
    decreases n,
{
    if n > 0 {
        lemma_le_bound(s, off + 1, (n - 1) as nat);
    }
}

proof fn lemma_radix_values()
    ensures
        radix(2) == 0x1_0000,
        radix(8) == 0x1_0000_0000_0000_0000,
{
    assert(radix(0) == 1);
    assert(radix(1) == 256);
    assert(radix(2) == 0x1_0000);
    assert(radix(3) == 0x100_0000);
    assert(radix(4) == 0x1_0000_0000);
    assert(radix(5) == 0x100_0000_0000);
    assert(radix(6) == 0x1_0000_0000_0000);
    assert(radix(7) == 0x100_0000_0000_0000);
    assert(radix(8) == 0x1_0000_0000_0000_0000);
}

/// Reads the `n`-byte little-endian integer at `off`.
fn read_le(d: &[u8], off: usize, n: usize) -> (r: u64)
    requires
        n <= 8,
        off + n <= d@.len(),
    ensures
        r == le_int(d@, off as int, n as nat),
{
    let len = d.len();
    let mut acc: u64 = 0;
    let mut k: usize = n;
    proof {
        lemma_radix_values();
    }
    while k > 0
        invariant
            n <= 8,
            off + n <= d@.len(),
            len == d@.len(),
            0 <= k <= n,
            acc == le_int(d@, off + k, (n - k) as nat),
            acc < radix((n - k) as nat),
            radix(8) == 0x1_0000_0000_0000_0000,
        decreases k,
    {
        proof {
            lemma_radix_mono((n - k + 1) as nat, 8);
            assert(le_int(d@, off + k - 1, (n - k + 1) as nat) == d@[off + k - 1] as int + 256
                * le_int(d@, off + k, (n - k) as nat));
        }
        acc = acc * 256 + d[off + k - 1] as u64;
        k = k - 1;
    }
    acc
}

/// Reads the little-endian `u64` at `off`.
pub fn read_u64(d: &[u8], off: usize) -> (r: u64)
    requires
        off + 8 <= d@.len(),
    ensures
        r == le_u64(d@, off as int),
        r == le_int(d@, off as int, 8),
{
    read_le(d, off, 8)
}

/// Reads the little-endian `u16` at `off`.
pub fn read_u16(d: &[u8], off: usize) -> (r: u16)
    requires
        off + 2 <= d@.len(),
    ensures
        r == le_u16(d@, off as int),
        r == le_int(d@, off as int, 2),
{
    let v = read_le(d, off, 2);
    proof {
        lemma_le_bound(d@, off as int, 2);
        lemma_radix_values();
    }
    v as u16
}

/// Copies the 32 bytes at `off` into an array.
pub fn read_array32(d: &[u8], off: usize) -> (r: [u8; 32])
    requires
        off + 32 <= d@.len(),
    ensures
        r@ == d@.subrange(off as int, off + 32),
{
    let len = d.len();
    let mut r = [0u8; 32];
    let mut i: usize = 0;
    while i < 32
        invariant
            off + 32 <= d@.len(),
            len == d@.len(),
            0 <= i <= 32,
            r@.len() == 32,
            forall|j: int| 0 <= j < i ==> r@[j] == d@[off + j],
        decreases 32 - i,
    {
        r[i] = d[off + i];
        i = i + 1;
    }
    assert(r@ =~= d@.subrange(off as int, off + 32));
    r
}

/// Extending a little-endian integer by one more significant byte.
proof fn lemma_le_extend(s: Seq<u8>, off: int, n: nat)
    requires
        0 <= off,
        off + n < s.len(),
    ensures
        le_int(s, off, n + 1) == le_int(s, off, n) + radix(n) * s[off + n],
    decreases n,
{
    if n > 0 {
        lemma_le_extend(s, off + 1, (n - 1) as nat);
        assert(radix(n) == 256 * radix((n - 1) as nat));
        assert(256 * (radix((n - 1) as nat) * s[off + n]) == radix(n) * s[off + n]) by (nonlinear_arith)
            requires
                radix(n) == 256 * radix((n - 1) as nat),
        ;
        assert(le_int(s, off, n + 1) == s[off] as int + 256 * le_int(s, off + 1, n));
        assert(le_int(s, off, n) == s[off] as int + 256 * le_int(s, off + 1, (n - 1) as nat));
    } else {
        assert(le_int(s, off + 1, 0) == 0);
        assert(le_int(s, off, 1) == s[off] as int + 256 * le_int(s, off + 1, 0));
    }
}

/// The little-endian integer in bytes that a prefix does not reach.
pub proof fn lemma_le_prefix(s: Seq<u8>, t: Seq<u8>, off: int, n: nat)
    requires
        0 <= off,
        off + n <= s.len(),
        off + n <= t.len(),
        forall|j: int| off <= j < off + n ==> s[j] == t[j],
    ensures
        le_int(s, off, n) == le_int(t, off, n),
    decreases n,
{
    if n > 0 {
        lemma_le_prefix(s, t, off + 1, (n - 1) as nat);
    }
}

/// Appends `x` as eight little-endian bytes.
pub fn push_u64(v: &mut Vec<u8>, x: u64)
    ensures
        final(v)@.len() == old(v)@.len() + 8,
        final(v)@.subrange(0, old(v)@.len() as int) == old(v)@,
        le_u64(final(v)@, old(v)@.len() as int) == x,
{
    let ghost start = v@.len() as int;
    let mut rest: u64 = x;
    let mut i: usize = 0;
    proof {
        lemma_radix_values();
    }
    while i < 8
        invariant
            0 <= i <= 8,
            v@.len() == start + i,
            v@.subrange(0, start) == old(v)@,
            start == old(v)@.len(),
            x == le_int(v@, start, i as nat) + radix(i as nat) * rest,
            radix(8) == 0x1_0000_0000_0000_0000,
        decreases 8 - i,
    {
        let ghost before = v@;
        let byte = (rest % 256) as u8;
        v.push(byte);
        proof {
            lemma_le_prefix(before, v@, start, i as nat);
            lemma_le_extend(v@, start, i as nat);
            assert(radix((i + 1) as nat) == 256 * radix(i as nat));
            assert(radix(i as nat) * rest == radix(i as nat) * (rest % 256) + radix((i + 1) as nat)
                * (rest / 256)) by (nonlinear_arith)
                requires
                    radix((i + 1) as nat) == 256 * radix(i as nat),
            ;
            assert(v@.subrange(0, start) =~= before.subrange(0, start));
        }
        rest = rest / 256;
        i = i + 1;
    }
    proof {
        lemma_le_bound(v@, start, 8);
        assert(rest == 0) by (nonlinear_arith)
            requires
                x == le_int(v@, start, 8) + 0x1_0000_0000_0000_0000 * rest,
                0 <= le_int(v@, start, 8),
                x < 0x1_0000_0000_0000_0000,
                rest >= 0,
        ;
    }
}

} // verus!
