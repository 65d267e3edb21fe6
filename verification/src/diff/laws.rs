//! What holds of the codec as a whole: a diff leads from the original to the
//! changed buffer, whichever way it is applied.

use crate::diff::algorithm::{applied_copy, applied_in_place, merged};
use crate::diff::decode::{lemma_decode, lemma_decode_segment};
use crate::diff::format::{
    apply_prefix, changed_len_of, copy_span, diff_segments, encode, encoded_diff, header_len_of,
    merge_prefix, merge_run, overlap, resized, runs_from, segment_begin, segment_end, segment_valid,
    segments_count_of, target_begin, valid_run,
};
use crate::diff::lemmas::{covered, lemma_diff_segments, ordered};
use crate::diff::types::{parse_failure, segment_lookup};
use crate::error::{custom, DlpError, ProgramError};
use crate::wire::u32_le;
use vstd::prelude::*;

verus! {

/// Position `p` lies in one of the first `k` ranges.
pub open spec fn covered_upto(segs: Seq<(int, int)>, k: int, p: int) -> bool {
    exists|j: int| 0 <= j < k && (#[trigger] segs[j]).0 <= p < segs[j].1
}

/// After the first `k` segments of a diff were written over a buffer, the
/// buffer holds the bytes of the changed buffer wherever one of them lies,
/// and is as it was elsewhere.
proof fn lemma_apply_prefix(b: Seq<u8>, segs: Seq<(int, int)>, buf: Seq<u8>, k: nat)
    requires
        b.len() <= u32::MAX,
        ordered(segs, 0, b.len() as int),
        buf.len() == b.len(),
        k <= segs.len(),
    ensures
        apply_prefix(encode(b, segs), buf, k).len() == b.len(),
        forall|p: int|
            0 <= p < b.len() ==> #[trigger] apply_prefix(encode(b, segs), buf, k)[p] == if covered_upto(
                segs,
                k as int,
                p,
            ) {
                b[p]
            } else {
                buf[p]
            },
    decreases k,
{
    if k > 0 {
        let raw = encode(b, segs);
        let j = (k - 1) as nat;
        lemma_apply_prefix(b, segs, buf, j);
        lemma_decode_segment(b, segs, j as int);
        let before = apply_prefix(raw, buf, j);
        let after = apply_prefix(raw, buf, k);
        assert forall|p: int| 0 <= p < b.len() implies #[trigger] after[p] == if covered_upto(
            segs,
            k as int,
            p,
        ) {
            b[p]
        } else {
            buf[p]
        } by {
            if segs[j as int].0 <= p < segs[j as int].1 {
                assert(covered_upto(segs, k as int, p));
            } else {
                assert(after[p] == before[p]);
                if covered_upto(segs, j as int, p) {
                    let i = choose|i: int| 0 <= i < j && (#[trigger] segs[i]).0 <= p < segs[i].1;
                    assert(0 <= i < k && segs[i].0 <= p < segs[i].1);
                }
                if covered_upto(segs, k as int, p) {
                    let i = choose|i: int| 0 <= i < k && (#[trigger] segs[i]).0 <= p < segs[i].1;
                    assert(i != j);
                    assert(0 <= i < j && segs[i].0 <= p < segs[i].1);
                }
            }
        }
    }
}

/// After the first `k` segments of a diff between equally long buffers were
/// merged, the destination holds the changed buffer up to the end of the last
/// of them.
proof fn lemma_merge_prefix(dest: Seq<u8>, a: Seq<u8>, b: Seq<u8>, segs: Seq<(int, int)>, k: nat)
    requires
        b.len() <= u32::MAX,
        a.len() == b.len(),
        dest.len() == b.len(),
        ordered(segs, 0, b.len() as int),
        forall|p: int| 0 <= p < b.len() && !covered(segs, p) ==> a[p] == b[p],
        k <= segs.len(),
    ensures
        merge_prefix(encode(b, segs), dest, a, k).0.len() == b.len(),
        merge_prefix(encode(b, segs), dest, a, k).1 == if k == 0 {
            0
        } else {
            segs[k - 1].1
        },
        forall|p: int|
            0 <= p < merge_prefix(encode(b, segs), dest, a, k).1 ==> #[trigger] merge_prefix(
                encode(b, segs),
                dest,
                a,
                k,
            ).0[p] == b[p],
    decreases k,
{
    if k > 0 {
        let raw = encode(b, segs);
        let j = (k - 1) as int;
        lemma_merge_prefix(dest, a, b, segs, (k - 1) as nat);
        lemma_decode_segment(b, segs, j);
        let before = merge_prefix(raw, dest, a, (k - 1) as nat);
        let after = merge_prefix(raw, dest, a, k);
        let start = segs[j].0;
        assert(after.1 == segs[j].1);
        if j > 0 {
            assert(segs[j - 1].1 <= segs[j].0);
        }
        assert forall|p: int| 0 <= p < after.1 implies #[trigger] after.0[p] == b[p] by {
            if p >= start {
            } else if p >= before.1 {
                lemma_gap_agrees(a, b, segs, j, p);
            } else {
            }
        }
    }
}

/// A position between the end of one range and the start of the next holds
/// the same byte in both buffers.
proof fn lemma_gap_agrees(a: Seq<u8>, b: Seq<u8>, segs: Seq<(int, int)>, j: int, p: int)
    requires
        ordered(segs, 0, b.len() as int),
        forall|q: int| 0 <= q < b.len() && !covered(segs, q) ==> a[q] == b[q],
        0 <= j <= segs.len(),
        0 <= p < b.len(),
        j > 0 ==> segs[j - 1].1 <= p,
        j < segs.len() ==> p < segs[j].0,
    ensures
        a[p] == b[p],
{
    if covered(segs, p) {
        let i = choose|i: int| 0 <= i < segs.len() && (#[trigger] segs[i]).0 <= p < segs[i].1;
        if i < j {
            if i < j - 1 {
                assert(segs[i].1 <= segs[j - 1].0);
            }
            assert(false);
        } else {
            if i > j {
                assert(segs[j].1 <= segs[i].0);
            }
            assert(false);
        }
    }
}

/// Two equal buffers have no run of differing bytes.
proof fn lemma_no_runs(a: Seq<u8>, i: int)
    requires
        0 <= i,
    ensures
        runs_from(a, a, i) == Seq::<(int, int)>::empty(),
    decreases overlap(a, a) - i,
{
    if i < overlap(a, a) {
        lemma_no_runs(a, i + 1);
    }
}

/// The diff from `a` to `b` is taken by the reader, and applied to a copy of
/// `a` it gives `b`.
pub proof fn law_round_trip(a: Seq<u8>, b: Seq<u8>)
    requires
        b.len() <= u32::MAX,
    ensures
        parse_failure(encoded_diff(a, b), true) is None,
        changed_len_of(encoded_diff(a, b)) == b.len(),
        applied_copy(a, encoded_diff(a, b)) == Ok::<Seq<u8>, ProgramError>(b),
{
    let segs = diff_segments(a, b);
    let raw = encode(b, segs);
    lemma_diff_segments(a, b);
    lemma_decode(b, segs);
    let buf = resized(a, b.len());
    lemma_apply_prefix(b, segs, buf, segs.len());
    let out = apply_prefix(raw, buf, segs.len());
    assert(out =~= b) by {
        assert forall|p: int| 0 <= p < b.len() implies out[p] == b[p] by {
            if !covered_upto(segs, segs.len() as int, p) {
                assert(!covered(segs, p));
            }
        }
    }
}

/// The diff from a buffer to itself is 8 bytes long: the buffer's length, and
/// then a segment count of zero.
pub proof fn law_no_change(a: Seq<u8>)
    ensures
        encoded_diff(a, a) == u32_le(a.len()) + u32_le(0),
        encoded_diff(a, a).len() == 8,
{
    lemma_no_runs(a, 0);
    assert(encoded_diff(a, a) =~= u32_le(a.len()) + u32_le(0));
}

/// For equally long `a` and `b`, merging the diff from `a` to `b` with `a`
/// fills the destination with `b`, whatever it held before.
pub proof fn law_merge(dest: Seq<u8>, a: Seq<u8>, b: Seq<u8>)
    requires
        b.len() <= u32::MAX,
        a.len() == b.len(),
        dest.len() == a.len(),
    ensures
        merged(dest, a, encoded_diff(a, b)).0 == b,
        merged(dest, a, encoded_diff(a, b)).1 == Ok::<(), ProgramError>(()),
{
    let segs = diff_segments(a, b);
    let raw = encode(b, segs);
    let n = segs.len();
    lemma_diff_segments(a, b);
    lemma_decode(b, segs);
    assert(merge_run(raw, dest.len(), 0) == n);
    lemma_merge_prefix(dest, a, b, segs, n);
    let reached = merge_prefix(raw, dest, a, n);
    let out = copy_span(reached.0, a, reached.1, a.len() as int);
    assert(out =~= b) by {
        assert forall|p: int| 0 <= p < b.len() implies out[p] == b[p] by {
            if p >= reached.1 {
                lemma_gap_agrees(a, b, segs, n as int, p);
            }
        }
    }
}

/// Where `b` is longer or shorter than `a`, the diff applied to a copy of `a`
/// still gives `b`, with `b`'s length and `b`'s bytes to the end; applied to
/// `a` where it stands it fails, and leaves `a` as it was.
pub proof fn law_size_change(a: Seq<u8>, b: Seq<u8>)
    requires
        b.len() <= u32::MAX,
        a.len() != b.len(),
    ensures
        applied_copy(a, encoded_diff(a, b)) == Ok::<Seq<u8>, ProgramError>(b),
        applied_in_place(a, encoded_diff(a, b)).0 == a,
        applied_in_place(a, encoded_diff(a, b)).1 == Err::<(), ProgramError>(
            ProgramError::InvalidInstructionData,
        ),
{
    law_round_trip(a, b);
}

/// Where the lengths agree, the diff applied to `a` where it stands gives
/// `b`.
pub proof fn law_in_place(a: Seq<u8>, b: Seq<u8>)
    requires
        b.len() <= u32::MAX,
        a.len() == b.len(),
    ensures
        applied_in_place(a, encoded_diff(a, b)).0 == b,
        applied_in_place(a, encoded_diff(a, b)).1 == Ok::<(), ProgramError>(()),
{
    law_round_trip(a, b);
    lemma_diff_segments(a, b);
    lemma_decode(b, diff_segments(a, b));
    assert(resized(a, b.len()) =~= a);
}

/// What the reader refuses: a buffer shorter than the two counters, one that
/// is not aligned, one whose segment count asks for a longer header than the
/// buffer holds; and of the segments, one that does not end after it starts,
/// one that reaches beyond the segment bytes, and one that is to be written
/// at or beyond the end of the target buffer.
pub proof fn law_reader_rejects(raw: Seq<u8>, aligned: bool, i: int)
    ensures
        raw.len() < 8 ==> parse_failure(raw, aligned) == Some(custom(DlpError::InvalidDiff)),
        raw.len() >= 8 && !aligned ==> parse_failure(raw, aligned) == Some(
            custom(DlpError::InvalidDiffAlignment),
        ),
        header_len_of(raw) > raw.len() ==> parse_failure(raw, aligned) is Some,
        raw.len() >= 8 && aligned && header_len_of(raw) > raw.len() ==> parse_failure(
            raw,
            aligned,
        ) == Some(custom(DlpError::InvalidDiff)),
        0 <= i < segments_count_of(raw) && (segment_begin(raw, i) >= segment_end(raw, i)
            || target_begin(raw, i) >= changed_len_of(raw)) ==> segment_lookup(raw, i) == Err::<
            Option<(Seq<u8>, int, int)>,
            ProgramError,
        >(custom(DlpError::InvalidDiff)),
        0 <= i < segments_count_of(raw) && !segment_valid(raw, i) ==> valid_run(raw, 0)
            < segments_count_of(raw),
{
    if 0 <= i < segments_count_of(raw) && !segment_valid(raw, i) {
        lemma_valid_run_stops(raw, 0, i);
    }
}

/// The reader does not get past a segment that is not valid.
proof fn lemma_valid_run_stops(raw: Seq<u8>, from: nat, i: int)
    requires
        from <= i < segments_count_of(raw),
        !segment_valid(raw, i),
    ensures
        valid_run(raw, from) <= i,
    decreases i - from,
{
    if from < i && segment_valid(raw, from as int) {
        lemma_valid_run_stops(raw, from + 1, i);
    }
}

} // verus!
