//! The wire format of a diff, as functions on its bytes.
//!
//! ```text
//! | changed len | segment count | offset pair 0 | ... | offset pair N-1 | segment bytes |
//! |   4 bytes   |    4 bytes    |    8 bytes    | ... |     8 bytes     |    M bytes    |
//! ```
//!
//! All integers are little-endian. An offset pair holds where its segment
//! starts within the segment bytes, then where it is written in the target
//! buffer. A segment ends where the next one starts; the last one ends with
//! the buffer.

use crate::wire::{le_u32, u32_le};
use vstd::prelude::*;

verus! {

pub const SIZE_OF_CHANGED_LEN: usize = 4;

pub const SIZE_OF_NUM_OFFSET_PAIRS: usize = 4;

pub const SIZE_OF_SINGLE_OFFSET_PAIR: usize = 8;

/// Where one segment starts among the segment bytes, and where it goes in the
/// target buffer.
#[derive(Debug, Clone, Copy, PartialEq, Eq, Structural)]
pub struct OffsetPair {
    pub offset_in_diff: u32,
    pub offset_in_data: u32,
}

/// The length of the buffer that the diff leads to.
pub open spec fn changed_len_of(raw: Seq<u8>) -> nat {
    le_u32(raw, 0)
}

/// The number of segments that the header declares.
pub open spec fn segments_count_of(raw: Seq<u8>) -> nat {
    le_u32(raw, 4)
}

/// The length of the two counters and the offset pairs.
pub open spec fn header_len_of(raw: Seq<u8>) -> nat {
    8 + 8 * segments_count_of(raw)
}

/// The buffer holds its header, and at least one segment byte if it declares
/// a segment at all.
pub open spec fn well_framed(raw: Seq<u8>) -> bool {
    &&& raw.len() >= 8
    &&& header_len_of(raw) <= raw.len()
    &&& header_len_of(raw) == raw.len() ==> segments_count_of(raw) == 0
}

/// The `i`-th offset pair.
pub open spec fn pair_of(raw: Seq<u8>, i: int) -> OffsetPair {
    OffsetPair {
        offset_in_diff: le_u32(raw, 8 + 8 * i) as u32,
        offset_in_data: le_u32(raw, 12 + 8 * i) as u32,
    }
}

/// All offset pairs, in order.
pub open spec fn pairs_of(raw: Seq<u8>) -> Seq<OffsetPair> {
    Seq::new(segments_count_of(raw), |i: int| pair_of(raw, i))
}

/// The concatenated segment bytes that follow the header.
pub open spec fn payload_of(raw: Seq<u8>) -> Seq<u8> {
    raw.subrange(header_len_of(raw) as int, raw.len() as int)
}

/// Where segment `i` starts among the segment bytes.
pub open spec fn segment_begin(raw: Seq<u8>, i: int) -> int {
    pair_of(raw, i).offset_in_diff as int
}

/// Where segment `i` ends among the segment bytes.
pub open spec fn segment_end(raw: Seq<u8>, i: int) -> int {
    if i + 1 < segments_count_of(raw) {
        pair_of(raw, i + 1).offset_in_diff as int
    } else {
        payload_of(raw).len() as int
    }
}

/// Where segment `i` is written in the target buffer.
pub open spec fn target_begin(raw: Seq<u8>, i: int) -> int {
    pair_of(raw, i).offset_in_data as int
}

/// Where segment `i` stops in the target buffer.
pub open spec fn target_end(raw: Seq<u8>, i: int) -> int {
    target_begin(raw, i) + segment_end(raw, i) - segment_begin(raw, i)
}

/// Segment `i` is not empty, lies within the segment bytes, and lands within
/// the target buffer.
pub open spec fn segment_valid(raw: Seq<u8>, i: int) -> bool {
    &&& segment_end(raw, i) <= payload_of(raw).len()
    &&& segment_begin(raw, i) < segment_end(raw, i)
    &&& target_begin(raw, i) < changed_len_of(raw)
    &&& target_end(raw, i) <= changed_len_of(raw)
}

/// The bytes of segment `i`.
pub open spec fn segment_bytes(raw: Seq<u8>, i: int) -> Seq<u8> {
    payload_of(raw).subrange(segment_begin(raw, i), segment_end(raw, i))
}

/// The index of the first segment at or after `from` that is not valid, or the
/// segment count if there is none.
pub open spec fn valid_run(raw: Seq<u8>, from: nat) -> nat
    decreases segments_count_of(raw) - from,
{
    if from < segments_count_of(raw) && segment_valid(raw, from as int) {
        valid_run(raw, from + 1)
    } else {
        from
    }
}

/// Every declared segment is valid.
pub open spec fn all_segments_valid(raw: Seq<u8>) -> bool {
    valid_run(raw, 0) == segments_count_of(raw)
}

/// `buf` with `bytes` written over it from `at` on.
pub open spec fn write_at(buf: Seq<u8>, at: int, bytes: Seq<u8>) -> Seq<u8> {
    Seq::new(
        buf.len(),
        |p: int|
            if at <= p < at + bytes.len() {
                bytes[p - at]
            } else {
                buf[p]
            },
    )
}

/// `buf` after the first `n` segments were written over it, in order.
pub open spec fn apply_prefix(raw: Seq<u8>, buf: Seq<u8>, n: nat) -> Seq<u8>
    decreases n,
{
    if n == 0 {
        buf
    } else {
        write_at(
            apply_prefix(raw, buf, (n - 1) as nat),
            target_begin(raw, n - 1),
            segment_bytes(raw, n - 1),
        )
    }
}

/// `original` cut or zero-filled to `len` bytes.
pub open spec fn resized(original: Seq<u8>, len: nat) -> Seq<u8> {
    Seq::new(
        len,
        |p: int|
            if p < original.len() {
                original[p]
            } else {
                0u8
            },
    )
}

/// The number of positions that both buffers have.
pub open spec fn overlap(a: Seq<u8>, b: Seq<u8>) -> int {
    if a.len() <= b.len() {
        a.len() as int
    } else {
        b.len() as int
    }
}

/// The first position at or after `i` where the buffers agree, or the end of
/// their overlap: where a run of differing bytes that holds `i` ends.
pub open spec fn run_end(a: Seq<u8>, b: Seq<u8>, i: int) -> int
    decreases overlap(a, b) - i,
{
    if 0 <= i < overlap(a, b) && a[i] != b[i] {
        run_end(a, b, i + 1)
    } else {
        i
    }
}

/// The maximal runs of differing bytes at or after `i` within the overlap,
/// each as the half-open range that it covers, in rising order.
pub open spec fn runs_from(a: Seq<u8>, b: Seq<u8>, i: int) -> Seq<(int, int)>
    decreases overlap(a, b) - i,
{
    if i < 0 || i >= overlap(a, b) {
        Seq::empty()
    } else if a[i] == b[i] {
        runs_from(a, b, i + 1)
    } else {
        proof {
            lemma_run_end_bounds(a, b, i + 1);
        }
        seq![(i, run_end(a, b, i))] + runs_from(a, b, run_end(a, b, i))
    }
}

/// A run ends at or after the position it was asked from, and within the
/// overlap.
pub proof fn lemma_run_end_bounds(a: Seq<u8>, b: Seq<u8>, i: int)
    requires
        0 <= i <= overlap(a, b),
    ensures
        i <= run_end(a, b, i) <= overlap(a, b),
    decreases overlap(a, b) - i,
{
    if i < overlap(a, b) && a[i] != b[i] {
        lemma_run_end_bounds(a, b, i + 1);
    }
}

/// The ranges of `changed` that a diff from `original` carries: the runs of
/// differing bytes, then whatever `changed` has beyond the end of `original`.
pub open spec fn diff_segments(original: Seq<u8>, changed: Seq<u8>) -> Seq<(int, int)> {
    if changed.len() > original.len() {
        runs_from(original, changed, 0) + seq![(original.len() as int, changed.len() as int)]
    } else {
        runs_from(original, changed, 0)
    }
}

/// The bytes of `b` in the ranges `segs`, one range after the other.
pub open spec fn payload(b: Seq<u8>, segs: Seq<(int, int)>) -> Seq<u8>
    decreases segs.len(),
{
    if segs.len() == 0 {
        Seq::empty()
    } else {
        payload(b, segs.drop_last()) + b.subrange(segs.last().0, segs.last().1)
    }
}

/// The offset pairs of the ranges `segs`: for each, where its bytes start in
/// `payload(b, segs)` and where the range starts in `b`.
pub open spec fn pair_table(b: Seq<u8>, segs: Seq<(int, int)>) -> Seq<u8>
    decreases segs.len(),
{
    if segs.len() == 0 {
        Seq::empty()
    } else {
        pair_table(b, segs.drop_last()) + u32_le(payload(b, segs.drop_last()).len()) + u32_le(
            segs.last().0 as nat,
        )
    }
}

/// A diff that carries the ranges `segs` of `b`.
pub open spec fn encode(b: Seq<u8>, segs: Seq<(int, int)>) -> Seq<u8> {
    u32_le(b.len()) + u32_le(segs.len()) + pair_table(b, segs) + payload(b, segs)
}

/// The diff that leads from `original` to `changed`.
pub open spec fn encoded_diff(original: Seq<u8>, changed: Seq<u8>) -> Seq<u8> {
    encode(changed, diff_segments(original, changed))
}

/// `dest` with the bytes of `original` copied over the positions `from..to`.
pub open spec fn copy_span(dest: Seq<u8>, original: Seq<u8>, from: int, to: int) -> Seq<u8> {
    Seq::new(
        dest.len(),
        |p: int|
            if from <= p < to {
                original[p]
            } else {
                dest[p]
            },
    )
}

/// Segment `i` is valid and ends within a buffer of `len` bytes.
pub open spec fn mergeable(raw: Seq<u8>, len: nat, i: int) -> bool {
    segment_valid(raw, i) && target_end(raw, i) <= len
}

/// The index of the first segment at or after `from` that cannot be merged
/// into a buffer of `len` bytes, or the segment count if there is none.
pub open spec fn merge_run(raw: Seq<u8>, len: nat, from: nat) -> nat
    decreases segments_count_of(raw) - from,
{
    if from < segments_count_of(raw) && mergeable(raw, len, from as int) {
        merge_run(raw, len, from + 1)
    } else {
        from
    }
}

/// The destination after the first `n` segments were merged into it, and the
/// position up to which it is then filled. Merging a segment copies what
/// `original` holds between that position and the segment's start, then
/// writes the segment.
pub open spec fn merge_prefix(raw: Seq<u8>, dest: Seq<u8>, original: Seq<u8>, n: nat) -> (
    Seq<u8>,
    int,
)
    decreases n,
{
    if n == 0 {
        (dest, 0)
    } else {
        let before = merge_prefix(raw, dest, original, (n - 1) as nat);
        let start = target_begin(raw, n - 1);
        (
            write_at(
                copy_span(before.0, original, before.1, start),
                start,
                segment_bytes(raw, n - 1),
            ),
            target_end(raw, n - 1),
        )
    }
}

} // verus!
