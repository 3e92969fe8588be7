//! Big-endian field access on header bytes.
use vstd::prelude::*;

verus! {

/// The big-endian 16-bit integer at `off`.
pub open spec fn be16(s: Seq<u8>, off: int) -> u16 {
    (s[off] as int * 256 + s[off + 1] as int) as u16
}

/// `s` with the big-endian 16-bit integer `v` written at `off`.
pub open spec fn put16(s: Seq<u8>, off: int, v: u16) -> Seq<u8> {
    s.update(off, (v / 256) as u8).update(off + 1, (v % 256) as u8)
}

/// `s` with the `n` bytes at `a` and the `n` bytes at `b` exchanged.
pub open spec fn swap_ranges(s: Seq<u8>, a: int, b: int, n: int) -> Seq<u8> {
    Seq::new(
        s.len(),
        |i: int|
            if a <= i < a + n {
                s[i - a + b]
            } else if b <= i < b + n {
                s[i - b + a]
            } else {
                s[i]
            },
    )
}

/// `s` with `src` copied over the bytes starting at `off`.
pub open spec fn put_bytes(s: Seq<u8>, off: int, src: Seq<u8>) -> Seq<u8> {
    Seq::new(s.len(), |i: int| if off <= i < off + src.len() { src[i - off] } else { s[i] })
}

pub fn read16(b: &[u8], off: usize) -> (r: u16)
    requires
        off + 2 <= b@.len(),
    ensures
        r == be16(b@, off as int),
{
    (b[off] as u16) * 256 + (b[off + 1] as u16)
}

pub fn write16(b: &mut Vec<u8>, off: usize, v: u16)
    requires
        off + 2 <= old(b)@.len(),
    ensures
        final(b)@ == put16(old(b)@, off as int, v),
{
    let _len = b.len();
    b.set(off, (v / 256) as u8);
    b.set(off + 1, (v % 256) as u8);
}

pub fn write8(b: &mut Vec<u8>, off: usize, v: u8)
    requires
        off < old(b)@.len(),
    ensures
        final(b)@ == old(b)@.update(off as int, v),
{
    b.set(off, v);
}

pub fn write_bytes(b: &mut Vec<u8>, off: usize, src: &[u8])
    requires
        off + src@.len() <= old(b)@.len(),
    ensures
        final(b)@ == put_bytes(old(b)@, off as int, src@),
{
    let _len = b.len();
    let mut i: usize = 0;
    while i < src.len()
        invariant
            i <= src@.len(),
            off + src@.len() <= b@.len(),
            b@.len() == _len,
            b@.len() == old(b)@.len(),
            forall|j: int|
                0 <= j < b@.len() ==> #[trigger] b@[j] == if off <= j < off + i {
                    src@[j - off]
                } else {
                    old(b)@[j]
                },
        decreases src@.len() - i,
    {
        b.set(off + i, src[i]);
        i = i + 1;
    }
    assert(b@ =~= put_bytes(old(b)@, off as int, src@));
}

pub fn read_bytes(b: &[u8], off: usize, n: usize) -> (r: Vec<u8>)
    requires
        off + n <= b@.len(),
    ensures
        r@ == b@.subrange(off as int, off + n),
{
    let _len = b.len();
    let mut r: Vec<u8> = Vec::new();
    let mut i: usize = 0;
    while i < n
        invariant
            i <= n,
            off + n <= b@.len(),
            b@.len() == _len,
            r@ == b@.subrange(off as int, off + i),
        decreases n - i,
    {
        r.push(b[off + i]);
        i = i + 1;
        assert(r@ =~= b@.subrange(off as int, off + i));
    }
    r
}

pub fn swap_bytes(b: &mut Vec<u8>, a: usize, c: usize, n: usize)
    requires
        a + n <= c,
        c + n <= old(b)@.len(),
    ensures
        final(b)@ == swap_ranges(old(b)@, a as int, c as int, n as int),
{
    let _len = b.len();
    let mut i: usize = 0;
    while i < n
        invariant
            i <= n,
            a + n <= c,
            c + n <= b@.len(),
            b@.len() == old(b)@.len(),
            b@.len() == _len,
            forall|j: int|
                0 <= j < b@.len() ==> #[trigger] b@[j] == if a <= j < a + i {
                    old(b)@[j - a + c]
                } else if c <= j < c + i {
                    old(b)@[j - c + a]
                } else {
                    old(b)@[j]
                },
        decreases n - i,
    {
        let x = b[a + i];
        let y = b[c + i];
        b.set(a + i, y);
        b.set(c + i, x);
        i = i + 1;
    }
    assert(b@ =~= swap_ranges(old(b)@, a as int, c as int, n as int));
}

pub proof fn lemma_be16_put16(s: Seq<u8>, off: int, v: u16)
    requires
        0 <= off,
        off + 2 <= s.len(),
    ensures
        be16(put16(s, off, v), off) == v,
        put16(s, off, v).len() == s.len(),
{
}

pub proof fn lemma_put16_same(s: Seq<u8>, off: int)
    requires
        0 <= off,
        off + 2 <= s.len(),
    ensures
        put16(s, off, be16(s, off)) == s,
{
    assert(put16(s, off, be16(s, off)) =~= s);
}

pub proof fn lemma_put16_twice(s: Seq<u8>, off: int, v: u16, w: u16)
    requires
        0 <= off,
        off + 2 <= s.len(),
    ensures
        put16(put16(s, off, v), off, w) == put16(s, off, w),
{
    assert(put16(put16(s, off, v), off, w) =~= put16(s, off, w));
}

/// The big-endian 32-bit integer at `off`.
pub open spec fn be32(s: Seq<u8>, off: int) -> u32 {
    (be16(s, off) as int * 65536 + be16(s, off + 2) as int) as u32
}

/// `s` with the big-endian 32-bit integer `v` written at `off`.
pub open spec fn put32(s: Seq<u8>, off: int, v: u32) -> Seq<u8> {
    put16(put16(s, off, (v / 65536) as u16), off + 2, (v % 65536) as u16)
}

pub fn read32(b: &[u8], off: usize) -> (r: u32)
    requires
        off + 4 <= b@.len(),
    ensures
        r == be32(b@, off as int),
{
    let _len = b.len();
    (read16(b, off) as u32) * 65536 + (read16(b, off + 2) as u32)
}

pub fn write32(b: &mut Vec<u8>, off: usize, v: u32)
    requires
        off + 4 <= old(b)@.len(),
    ensures
        final(b)@ == put32(old(b)@, off as int, v),
{
    let _len = b.len();
    write16(b, off, (v / 65536) as u16);
    write16(b, off + 2, (v % 65536) as u16);
}

pub fn read_array<const N: usize>(b: &[u8], off: usize) -> (r: [u8; N])
    requires
        off + N <= b@.len(),
    ensures
        r@ == b@.subrange(off as int, off + N),
{
    let _len = b.len();
    let mut r = [0u8; N];
    let mut i: usize = 0;
    while i < N
        invariant
            i <= N,
            b@.len() == _len,
            off + N <= b@.len(),
            r@.len() == N,
            forall|j: int| 0 <= j < i ==> #[trigger] r@[j] == b@[off + j],
        decreases N - i,
    {
        r[i] = b[off + i];
        i = i + 1;
    }
    assert(r@ =~= b@.subrange(off as int, off + N));
    r
}

} // verus!
