//! Little-endian field encoding and the splicing of fields into byte buffers.

use vstd::prelude::*;

verus! {

/// The four bytes of zero.
pub proof fn lemma_u32_le_zero()
    ensures
        u32_le(0) == seq![0u8, 0u8, 0u8, 0u8],
{
    reveal(u32_le);
    assert(u32_le(0) =~= seq![0u8, 0u8, 0u8, 0u8]);
}

/// The four little-endian bytes of `x`.
#[verifier::opaque]
pub open spec fn u32_le(x: u32) -> Seq<u8> {
    seq![
        (x % 256) as u8,
        ((x / 256) % 256) as u8,
        ((x / 65536) % 256) as u8,
        ((x / 16777216) % 256) as u8,
    ]
}

/// The `u32` whose little-endian bytes are the first four of `s`.
pub open spec fn u32_of_le(s: Seq<u8>) -> u32 {
    (s[0] + 256 * s[1] + 65536 * s[2] + 16777216 * s[3]) as u32
}

/// The eight little-endian bytes of `x`.
#[verifier::opaque]
pub open spec fn u64_le(x: u64) -> Seq<u8> {
    u32_le((x % 0x1_0000_0000) as u32) + u32_le((x / 0x1_0000_0000) as u32)
}

/// The `u64` whose little-endian bytes are the first eight of `s`.
pub open spec fn u64_of_le(s: Seq<u8>) -> u64 {
    (u32_of_le(s) + 0x1_0000_0000 * u32_of_le(s.subrange(4, 8))) as u64
}

/// `s` with the bytes from `off` on replaced by `bytes`.
pub open spec fn splice(s: Seq<u8>, off: int, bytes: Seq<u8>) -> Seq<u8> {
    s.take(off) + bytes + s.skip(off + bytes.len())
}

/// Decoding the encoding of a `u32` gives it back.
pub proof fn lemma_u32_le_roundtrip(x: u32)
    ensures
        u32_le(x).len() == 4,
        u32_of_le(u32_le(x)) == x,
{
    reveal(u32_le);
    let b0 = x % 256;
    let b1 = (x / 256) % 256;
    let b2 = (x / 65536) % 256;
    let b3 = (x / 16777216) % 256;
    assert(b0 + 256 * b1 + 65536 * b2 + 16777216 * b3 == x) by (nonlinear_arith)
        requires
            b0 == x % 256,
            b1 == (x / 256) % 256,
            b2 == (x / 65536) % 256,
            b3 == (x / 16777216) % 256,
    ;
}

/// Encoding a decoded four-byte sequence gives it back.
pub broadcast proof fn lemma_le_u32_roundtrip(s: Seq<u8>)
    requires
        s.len() == 4,
    ensures
        #[trigger] u32_le(u32_of_le(s)) == s,
{
    reveal(u32_le);
    let v: int = s[0] + 256 * s[1] + 65536 * s[2] + 16777216 * s[3];
    assert(0 <= v < 0x1_0000_0000);
    let x = v as u32;
    assert(x % 256 == s[0]) by (nonlinear_arith)
        requires x == s[0] + 256 * s[1] + 65536 * s[2] + 16777216 * s[3], 0 <= s[0] < 256, 0 <= s[1] < 256, 0 <= s[2] < 256, 0 <= s[3] < 256;
    assert((x / 256) % 256 == s[1]) by (nonlinear_arith)
        requires x == s[0] + 256 * s[1] + 65536 * s[2] + 16777216 * s[3], 0 <= s[0] < 256, 0 <= s[1] < 256, 0 <= s[2] < 256, 0 <= s[3] < 256;
    assert((x / 65536) % 256 == s[2]) by (nonlinear_arith)
        requires x == s[0] + 256 * s[1] + 65536 * s[2] + 16777216 * s[3], 0 <= s[0] < 256, 0 <= s[1] < 256, 0 <= s[2] < 256, 0 <= s[3] < 256;
    assert((x / 16777216) % 256 == s[3]) by (nonlinear_arith)
        requires x == s[0] + 256 * s[1] + 65536 * s[2] + 16777216 * s[3], 0 <= s[0] < 256, 0 <= s[1] < 256, 0 <= s[2] < 256, 0 <= s[3] < 256;
    assert(u32_le(x) =~= s);
}

/// The little-endian `u32` stored at `b[off..off + 4]`.
pub open spec fn u32_at(b: Seq<u8>, off: int) -> u32 {
    u32_of_le(b.subrange(off, off + 4))
}

/// The little-endian `u64` stored at `b[off..off + 8]`.
pub open spec fn u64_at(b: Seq<u8>, off: int) -> u64 {
    u64_of_le(b.subrange(off, off + 8))
}

/// A `u32` takes four bytes.
pub broadcast proof fn lemma_u32_le_len(x: u32)
    ensures
        #[trigger] u32_le(x).len() == 4,
{
    reveal(u32_le);
}

/// A `u64` takes eight bytes.
pub broadcast proof fn lemma_u64_le_len(x: u64)
    ensures
        #[trigger] u64_le(x).len() == 8,
{
    reveal(u64_le);
    reveal(u32_le);
}

/// A `u32` read inside `a` reads the same in `a + b`.
pub broadcast proof fn lemma_u32_at_concat_prefix(a: Seq<u8>, b: Seq<u8>, o: int)
    requires
        0 <= o,
        o + 4 <= a.len(),
    ensures
        #[trigger] u32_at(a + b, o) == u32_at(a, o),
{
    assert((a + b).subrange(o, o + 4) =~= a.subrange(o, o + 4));
}

/// A `u64` read inside `a` reads the same in `a + b`.
pub broadcast proof fn lemma_u64_at_concat_prefix(a: Seq<u8>, b: Seq<u8>, o: int)
    requires
        0 <= o,
        o + 8 <= a.len(),
    ensures
        #[trigger] u64_at(a + b, o) == u64_at(a, o),
{
    assert((a + b).subrange(o, o + 8) =~= a.subrange(o, o + 8));
}

/// A `u32` appended after `a` reads back at offset `a.len()`.
pub broadcast proof fn lemma_u32_at_concat_last(a: Seq<u8>, x: u32, o: int)
    requires
        o == a.len(),
    ensures
        #[trigger] u32_at(a + u32_le(x), o) == x,
{
    lemma_u32_le_roundtrip(x);
    assert((a + u32_le(x)).subrange(o, o + 4) =~= u32_le(x));
}

/// A `u64` appended after `a` reads back at offset `a.len()`.
pub broadcast proof fn lemma_u64_at_concat_last(a: Seq<u8>, x: u64, o: int)
    requires
        o == a.len(),
    ensures
        #[trigger] u64_at(a + u64_le(x), o) == x,
{
    lemma_u64_le_roundtrip(x);
    assert((a + u64_le(x)).subrange(o, o + 8) =~= u64_le(x));
}

/// A `u32` reads back from its own bytes.
pub broadcast proof fn lemma_u32_at_own(x: u32, o: int)
    requires
        o == 0,
    ensures
        #[trigger] u32_at(u32_le(x), o) == x,
{
    lemma_u32_le_roundtrip(x);
    assert(u32_le(x).subrange(0, 4) =~= u32_le(x));
}

/// Splicing bytes into a buffer within its bounds keeps its length.
pub broadcast proof fn lemma_splice_len(b: Seq<u8>, off: int, bytes: Seq<u8>)
    requires
        0 <= off,
        off + bytes.len() <= b.len(),
    ensures
        #[trigger] splice(b, off, bytes).len() == b.len(),
{
}

/// A `u32` read away from the spliced bytes reads as before.
pub broadcast proof fn lemma_u32_at_splice_other(b: Seq<u8>, off: int, bytes: Seq<u8>, o: int)
    requires
        0 <= off,
        off + bytes.len() <= b.len(),
        0 <= o,
        o + 4 <= b.len(),
        o + 4 <= off || off + bytes.len() <= o,
    ensures
        #[trigger] u32_at(splice(b, off, bytes), o) == u32_at(b, o),
{
    assert(splice(b, off, bytes).subrange(o, o + 4) =~= b.subrange(o, o + 4));
}

/// A `u64` read away from the spliced bytes reads as before.
pub broadcast proof fn lemma_u64_at_splice_other(b: Seq<u8>, off: int, bytes: Seq<u8>, o: int)
    requires
        0 <= off,
        off + bytes.len() <= b.len(),
        0 <= o,
        o + 8 <= b.len(),
        o + 8 <= off || off + bytes.len() <= o,
    ensures
        #[trigger] u64_at(splice(b, off, bytes), o) == u64_at(b, o),
{
    assert(splice(b, off, bytes).subrange(o, o + 8) =~= b.subrange(o, o + 8));
}

/// A `u32` spliced into a buffer reads back where it was spliced.
pub broadcast proof fn lemma_u32_at_splice_same(b: Seq<u8>, off: int, x: u32, o: int)
    requires
        o == off,
        0 <= off,
        off + 4 <= b.len(),
    ensures
        #[trigger] u32_at(splice(b, off, u32_le(x)), o) == x,
{
    lemma_u32_le_roundtrip(x);
    assert(splice(b, off, u32_le(x)).subrange(o, o + 4) =~= u32_le(x));
}

/// A `u64` spliced into a buffer reads back where it was spliced.
pub broadcast proof fn lemma_u64_at_splice_same(b: Seq<u8>, off: int, x: u64, o: int)
    requires
        o == off,
        0 <= off,
        off + 8 <= b.len(),
    ensures
        #[trigger] u64_at(splice(b, off, u64_le(x)), o) == x,
{
    lemma_u64_le_roundtrip(x);
    assert(splice(b, off, u64_le(x)).subrange(o, o + 8) =~= u64_le(x));
}

/// How fields read back from concatenated and spliced byte sequences.
pub broadcast group group_field_reads {
    lemma_u32_le_len,
    lemma_u64_le_len,
    lemma_u32_at_concat_prefix,
    lemma_u64_at_concat_prefix,
    lemma_u32_at_concat_last,
    lemma_u32_at_own,
    lemma_u64_at_concat_last,
    lemma_splice_len,
    lemma_u32_at_splice_other,
    lemma_u64_at_splice_other,
    lemma_u32_at_splice_same,
    lemma_u64_at_splice_same,
    lemma_le_u32_roundtrip,
    lemma_le_u64_roundtrip,
}

/// Reads the little-endian `u32` stored at `buf[off..off + 4]`.
pub fn read_u32_le(buf: &[u8], off: usize) -> (x: u32)
    requires
        off + 4 <= buf@.len(),
    ensures
        x == u32_of_le(buf@.subrange(off as int, off + 4)),
{
    let b0 = buf[off] as u32;
    let b1 = buf[off + 1] as u32;
    let b2 = buf[off + 2] as u32;
    let b3 = buf[off + 3] as u32;
    b0 + 256 * b1 + 65536 * b2 + 16777216 * b3
}

/// Writes `x` in little-endian order to `buf[off..off + 4]`.
pub fn write_u32_le(buf: &mut [u8], off: usize, x: u32)
    requires
        off + 4 <= old(buf)@.len(),
    ensures
        final(buf)@ == splice(old(buf)@, off as int, u32_le(x)),
{
    reveal(u32_le);
    buf[off] = (x % 256) as u8;
    buf[off + 1] = ((x / 256) % 256) as u8;
    buf[off + 2] = ((x / 65536) % 256) as u8;
    buf[off + 3] = ((x / 16777216) % 256) as u8;
    assert(buf@ =~= splice(old(buf)@, off as int, u32_le(x)));
}

/// Decoding the encoding of a `u64` gives it back.
pub proof fn lemma_u64_le_roundtrip(x: u64)
    ensures
        u64_le(x).len() == 8,
        u64_of_le(u64_le(x)) == x,
{
    reveal(u64_le);
    let lo = (x % 0x1_0000_0000) as u32;
    let hi = (x / 0x1_0000_0000) as u32;
    lemma_u32_le_roundtrip(lo);
    lemma_u32_le_roundtrip(hi);
    let s = u64_le(x);
    assert(s.subrange(4, 8) =~= u32_le(hi));
    assert(u32_of_le(s) == u32_of_le(u32_le(lo)));
}

/// Encoding a decoded eight-byte sequence gives it back.
pub broadcast proof fn lemma_le_u64_roundtrip(s: Seq<u8>)
    requires
        s.len() == 8,
    ensures
        #[trigger] u64_le(u64_of_le(s)) == s,
{
    reveal(u64_le);
    let lo = u32_of_le(s);
    let hi = u32_of_le(s.subrange(4, 8));
    let x = u64_of_le(s);
    assert(x == lo + 0x1_0000_0000 * hi);
    assert(x % 0x1_0000_0000 == lo && x / 0x1_0000_0000 == hi) by (nonlinear_arith)
        requires
            x == lo + 0x1_0000_0000 * hi,
            0 <= lo < 0x1_0000_0000,
    ;
    lemma_le_u32_roundtrip(s.take(4));
    lemma_le_u32_roundtrip(s.subrange(4, 8));
    assert(u32_of_le(s.take(4)) == lo);
    assert(s =~= s.take(4) + s.subrange(4, 8));
}

/// Reads the little-endian `u64` stored at `buf[off..off + 8]`.
pub fn read_u64_le(buf: &[u8], off: usize) -> (x: u64)
    requires
        off + 8 <= buf.len(),
    ensures
        x == u64_of_le(buf@.subrange(off as int, off + 8)),
{
    let lo = read_u32_le(buf, off) as u64;
    let hi = read_u32_le(buf, off + 4) as u64;
    let ghost s = buf@.subrange(off as int, off + 8);
    assert(s.subrange(4, 8) =~= buf@.subrange(off + 4, off + 8));
    assert(u32_of_le(s) == u32_of_le(buf@.subrange(off as int, off + 4)));
    lo + 0x1_0000_0000 * hi
}

/// Writes `x` in little-endian order to `buf[off..off + 8]`.
pub fn write_u64_le(buf: &mut [u8], off: usize, x: u64)
    requires
        off + 8 <= old(buf).len(),
    ensures
        final(buf)@ == splice(old(buf)@, off as int, u64_le(x)),
{
    proof {
        reveal(u64_le);
        lemma_u32_le_roundtrip((x % 0x1_0000_0000) as u32);
        lemma_u32_le_roundtrip((x / 0x1_0000_0000) as u32);
    }
    write_u32_le(buf, off, (x % 0x1_0000_0000) as u32);
    write_u32_le(buf, off + 4, (x / 0x1_0000_0000) as u32);
    assert(buf@ =~= splice(old(buf)@, off as int, u64_le(x)));
}

/// Appends the little-endian bytes of `x` to `v`.
pub fn push_u32_le(v: &mut Vec<u8>, x: u32)
    ensures
        final(v)@ == old(v)@ + u32_le(x),
{
    reveal(u32_le);
    v.push((x % 256) as u8);
    v.push(((x / 256) % 256) as u8);
    v.push(((x / 65536) % 256) as u8);
    v.push(((x / 16777216) % 256) as u8);
    assert(v@ =~= old(v)@ + u32_le(x));
}

/// Appends the little-endian bytes of `x` to `v`.
pub fn push_u64_le(v: &mut Vec<u8>, x: u64)
    ensures
        final(v)@ == old(v)@ + u64_le(x),
{
    reveal(u64_le);
    push_u32_le(v, (x % 0x1_0000_0000) as u32);
    push_u32_le(v, (x / 0x1_0000_0000) as u32);
    assert(v@ =~= old(v)@ + u64_le(x));
}

/// Copies `src` over the first bytes of `buf`.
pub fn copy_prefix(buf: &mut [u8], src: &Vec<u8>)
    requires
        src.len() <= old(buf).len(),
    ensures
        final(buf)@ == splice(old(buf)@, 0, src@),
{
    let n = src.len();
    let mut i: usize = 0;
    while i < n
        invariant
            n == src.len(),
            n <= buf@.len(),
            buf@.len() == old(buf)@.len(),
            i <= n,
            buf@ =~= src@.take(i as int) + old(buf)@.skip(i as int),
        decreases n - i,
    {
        buf[i] = src[i];
        i = i + 1;
        assert(buf@ =~= src@.take(i as int) + old(buf)@.skip(i as int));
    }
    assert(src@.take(n as int) =~= src@);
}

} // verus!
