//! Little-endian integers inside byte buffers.

use vstd::prelude::*;

verus! {

/// The value of the four bytes of `s` that start at `at`, read little-endian.
pub open spec fn le_u32(s: Seq<u8>, at: int) -> nat {
    (s[at] as nat) + 256 * (s[at + 1] as nat) + 65536 * (s[at + 2] as nat) + 16777216 * (s[at
        + 3] as nat)
}

/// The four bytes that hold `x` little-endian.
pub open spec fn u32_le(x: nat) -> Seq<u8> {
    seq![
        (x % 256) as u8,
        ((x / 256) % 256) as u8,
        ((x / 65536) % 256) as u8,
        ((x / 16777216) % 256) as u8,
    ]
}

/// Reads a little-endian `u32` at `at`.
pub fn read_u32(buf: &[u8], at: usize) -> (x: u32)
    requires
        at + 4 <= buf@.len(),
    ensures
        x == le_u32(buf@, at as int),
{
    let b0: u32 = buf[at] as u32;
    let b1: u32 = buf[at + 1] as u32;
    let b2: u32 = buf[at + 2] as u32;
    let b3: u32 = buf[at + 3] as u32;
    b0 + 256 * b1 + 65536 * b2 + 16777216 * b3
}

/// The four little-endian bytes of `x`.
pub fn u32_bytes(x: u32) -> (out: [u8; 4])
    ensures
        out@ == u32_le(x as nat),
{
    let out: [u8; 4] = [
        (x % 256) as u8,
        ((x / 256) % 256) as u8,
        ((x / 65536) % 256) as u8,
        ((x / 16777216) % 256) as u8,
    ];
    assert(out@ =~= u32_le(x as nat));
    out
}

/// The value of the eight bytes of `s` that start at `at`, read little-endian.
pub open spec fn le_u64(s: Seq<u8>, at: int) -> nat {
    le_u32(s, at) + 4294967296 * le_u32(s, at + 4)
}

/// The eight bytes that hold `x` little-endian.
pub open spec fn u64_le(x: nat) -> Seq<u8> {
    u32_le(x % 4294967296) + u32_le(x / 4294967296)
}

/// Reads a little-endian `u64` at `at`.
pub fn read_u64(buf: &[u8], at: usize) -> (x: u64)
    requires
        at + 8 <= buf@.len(),
    ensures
        x == le_u64(buf@, at as int),
{
    let _len = buf.len();
    let lo: u64 = read_u32(buf, at) as u64;
    let hi: u64 = read_u32(buf, at + 4) as u64;
    lo + 4294967296 * hi
}

/// Appends the eight little-endian bytes of `x` to `out`.
pub fn push_u64(out: &mut Vec<u8>, x: u64)
    ensures
        final(out)@ == old(out)@ + u64_le(x as nat),
{
    push_u32(out, (x % 4294967296) as u32);
    push_u32(out, (x / 4294967296) as u32);
    assert(out@ =~= old(out)@ + u64_le(x as nat));
}

/// Appends the four little-endian bytes of `x` to `out`.
pub fn push_u32(out: &mut Vec<u8>, x: u32)
    ensures
        final(out)@ == old(out)@ + u32_le(x as nat),
{
    out.push((x % 256) as u8);
    out.push(((x / 256) % 256) as u8);
    out.push(((x / 65536) % 256) as u8);
    out.push(((x / 16777216) % 256) as u8);
    assert(out@ =~= old(out)@ + u32_le(x as nat));
}

/// Appends the bytes of `src` to `out`.
pub fn push_bytes(out: &mut Vec<u8>, src: &[u8])
    ensures
        final(out)@ == old(out)@ + src@,
{
    let n = src.len();
    let mut k: usize = 0;
    while k < n
        invariant
            k <= n,
            n == src@.len(),
            out@ == old(out)@ + src@.subrange(0, k as int),
        decreases n - k,
    {
        out.push(src[k]);
        k += 1;
        assert(out@ =~= old(out)@ + src@.subrange(0, k as int));
    }
    assert(src@.subrange(0, n as int) =~= src@);
}

/// A vector that holds the bytes of `src`.
pub fn copy_bytes(src: &[u8]) -> (out: Vec<u8>)
    ensures
        out@ == src@,
{
    let mut out: Vec<u8> = Vec::new();
    push_bytes(&mut out, src);
    assert(out@ =~= src@);
    out
}

/// Whether two buffers hold the same bytes.
pub fn bytes_eq(a: &[u8], b: &[u8]) -> (same: bool)
    ensures
        same == (a@ == b@),
{
    if a.len() != b.len() {
        return false;
    }
    let n = a.len();
    let mut k: usize = 0;
    while k < n
        invariant
            k <= n,
            n == a@.len(),
            n == b@.len(),
            forall|i: int| 0 <= i < k ==> a@[i] == b@[i],
        decreases n - k,
    {
        if a[k] != b[k] {
            return false;
        }
        k += 1;
    }
    assert(a@ =~= b@);
    true
}

} // verus!
