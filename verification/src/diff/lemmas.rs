//! Facts about the ranges that a diff carries and about its bytes.

use crate::diff::format::{diff_segments, encode, overlap, pair_table, payload, run_end, runs_from};
use crate::wire::u32_le;
use vstd::prelude::*;

verus! {

/// The ranges are not empty, lie within `lo..hi`, and each ends before the
/// next one starts.
pub open spec fn ordered(segs: Seq<(int, int)>, lo: int, hi: int) -> bool {
    &&& forall|k: int| 0 <= k < segs.len() ==> lo <= (#[trigger] segs[k]).0 < segs[k].1 <= hi
    &&& forall|j: int, k: int|
        0 <= j < k < segs.len() ==> (#[trigger] segs[j]).1 <= (#[trigger] segs[k]).0
}

/// Position `p` lies in one of the ranges.
pub open spec fn covered(segs: Seq<(int, int)>, p: int) -> bool {
    exists|k: int| 0 <= k < segs.len() && (#[trigger] segs[k]).0 <= p < segs[k].1
}

/// Within a run the buffers differ everywhere, and just after it they agree.
pub proof fn lemma_run_end_differs(a: Seq<u8>, b: Seq<u8>, i: int)
    requires
        0 <= i <= overlap(a, b),
    ensures
        i <= run_end(a, b, i) <= overlap(a, b),
        forall|p: int| i <= p < run_end(a, b, i) ==> a[p] != b[p],
        run_end(a, b, i) < overlap(a, b) ==> a[run_end(a, b, i)] == b[run_end(a, b, i)],
    decreases overlap(a, b) - i,
{
    if i < overlap(a, b) && a[i] != b[i] {
        lemma_run_end_differs(a, b, i + 1);
    }
}

/// The runs from `i` on are ordered within `i..overlap`, and every position
/// from `i` on that no run covers holds the same byte in both buffers.
pub proof fn lemma_runs_from(a: Seq<u8>, b: Seq<u8>, i: int)
    requires
        0 <= i <= overlap(a, b),
    ensures
        ordered(runs_from(a, b, i), i, overlap(a, b)),
        forall|p: int|
            i <= p < overlap(a, b) && !covered(runs_from(a, b, i), p) ==> a[p] == b[p],
    decreases overlap(a, b) - i,
{
    let n = overlap(a, b);
    if i >= n {
    } else if a[i] == b[i] {
        lemma_runs_from(a, b, i + 1);
    } else {
        let e = run_end(a, b, i);
        lemma_run_end_differs(a, b, i);
        lemma_run_end_differs(a, b, i + 1);
        lemma_runs_from(a, b, e);
        let rest = runs_from(a, b, e);
        let all = runs_from(a, b, i);
        assert(all == seq![(i, e)] + rest);
        assert(all[0] == (i, e));
        assert forall|k: int| 1 <= k < all.len() implies all[k] == rest[k - 1] by {}
        assert forall|p: int| i <= p < n && !covered(all, p) implies a[p] == b[p] by {
            if p < e {
                assert(all[0].0 <= p < all[0].1);
            } else {
                if covered(rest, p) {
                    let k = choose|k: int| 0 <= k < rest.len() && (#[trigger] rest[k]).0 <= p < rest[k].1;
                    assert(all[k + 1] == rest[k]);
                    assert(all[k + 1].0 <= p < all[k + 1].1);
                }
            }
        }
    }
}

/// The ranges of a diff are ordered within the changed buffer, and a position
/// of the changed buffer that none of them covers lies in the original and
/// holds the same byte there.
pub proof fn lemma_diff_segments(original: Seq<u8>, changed: Seq<u8>)
    ensures
        ordered(diff_segments(original, changed), 0, changed.len() as int),
        forall|p: int|
            0 <= p < changed.len() && !covered(diff_segments(original, changed), p) ==> p
                < original.len() && original[p] == changed[p],
{
    let runs = runs_from(original, changed, 0);
    let segs = diff_segments(original, changed);
    lemma_runs_from(original, changed, 0);
    if changed.len() > original.len() {
        let tail = (original.len() as int, changed.len() as int);
        assert(segs == runs + seq![tail]);
        assert forall|k: int| 0 <= k < runs.len() implies segs[k] == runs[k] by {}
        assert(segs[runs.len() as int] == tail);
        assert forall|p: int| 0 <= p < changed.len() && !covered(segs, p) implies p
            < original.len() && original[p] == changed[p] by {
            if p >= original.len() {
                assert(segs[runs.len() as int].0 <= p < segs[runs.len() as int].1);
            } else if covered(runs, p) {
                let k = choose|k: int| 0 <= k < runs.len() && (#[trigger] runs[k]).0 <= p < runs[k].1;
                assert(segs[k].0 <= p < segs[k].1);
            }
        }
    } else {
        assert forall|p: int| 0 <= p < changed.len() && !covered(segs, p) implies p
            < original.len() && original[p] == changed[p] by {}
    }
}

/// What is left of ordered ranges when the last one is dropped is ordered.
pub proof fn lemma_ordered_prefix(segs: Seq<(int, int)>, lo: int, hi: int, n: int)
    requires
        ordered(segs, lo, hi),
        0 <= n <= segs.len(),
    ensures
        ordered(segs.take(n), lo, hi),
{
    let t = segs.take(n);
    assert forall|k: int| 0 <= k < t.len() implies lo <= (#[trigger] t[k]).0 < t[k].1 <= hi by {
        assert(t[k] == segs[k]);
    }
    assert forall|j: int, k: int| 0 <= j < k < t.len() implies (#[trigger] t[j]).1 <= (
    #[trigger] t[k]).0 by {
        assert(t[j] == segs[j]);
        assert(t[k] == segs[k]);
    }
}

/// The bytes carried for ordered ranges number at least one for each range,
/// and no more than lie between the first start and the last end.
pub proof fn lemma_payload_len(b: Seq<u8>, segs: Seq<(int, int)>, lo: int)
    requires
        ordered(segs, lo, b.len() as int),
        0 <= lo,
    ensures
        segs.len() <= payload(b, segs).len(),
        segs.len() > 0 ==> payload(b, segs).len() <= segs.last().1 - lo,
        segs.len() == 0 ==> payload(b, segs).len() == 0,
    decreases segs.len(),
{
    if segs.len() > 0 {
        let front = segs.drop_last();
        assert(front =~= segs.take(segs.len() - 1));
        lemma_ordered_prefix(segs, lo, b.len() as int, segs.len() - 1);
        lemma_payload_len(b, front, lo);
        let last = segs.last();
        assert(last == segs[segs.len() - 1]);
        if front.len() > 0 {
            assert(front.last() == segs[segs.len() - 2]);
            assert(segs[segs.len() - 2].1 <= segs[segs.len() - 1].0);
        }
    }
}

/// Each offset pair takes 8 bytes.
pub proof fn lemma_pair_table_len(b: Seq<u8>, segs: Seq<(int, int)>)
    ensures
        pair_table(b, segs).len() == 8 * segs.len(),
    decreases segs.len(),
{
    if segs.len() > 0 {
        lemma_pair_table_len(b, segs.drop_last());
    }
}

/// Taking one more range adds its bytes to the carried bytes and its pair to
/// the pair table.
pub proof fn lemma_take_next(b: Seq<u8>, segs: Seq<(int, int)>, k: int)
    requires
        0 <= k < segs.len(),
    ensures
        payload(b, segs.take(k + 1)) == payload(b, segs.take(k)) + b.subrange(
            segs[k].0,
            segs[k].1,
        ),
        pair_table(b, segs.take(k + 1)) == pair_table(b, segs.take(k)) + u32_le(
            payload(b, segs.take(k)).len(),
        ) + u32_le(segs[k].0 as nat),
{
    assert(segs.take(k + 1).drop_last() =~= segs.take(k));
    assert(segs.take(k + 1).last() == segs[k]);
}

/// The carried bytes of the first `k` ranges are no more than those of all.
pub proof fn lemma_payload_take_len(b: Seq<u8>, segs: Seq<(int, int)>, k: int)
    requires
        0 <= k <= segs.len(),
    ensures
        payload(b, segs.take(k)).len() <= payload(b, segs).len(),
    decreases segs.len() - k,
{
    if k < segs.len() {
        lemma_take_next(b, segs, k);
        lemma_payload_take_len(b, segs, k + 1);
    } else {
        assert(segs.take(k) =~= segs);
    }
}

/// The length of a diff: the two counters, 8 bytes for each range, and the
/// bytes carried.
pub proof fn lemma_encode_len(b: Seq<u8>, segs: Seq<(int, int)>)
    ensures
        encode(b, segs).len() == 8 + 8 * segs.len() + payload(b, segs).len(),
{
    lemma_pair_table_len(b, segs);
}

/// A diff is never longer than 8 bytes plus 9 for each byte of the changed
/// buffer.
pub proof fn lemma_encoded_diff_len(original: Seq<u8>, changed: Seq<u8>)
    ensures
        encode(changed, diff_segments(original, changed)).len() <= 8 + 9 * changed.len(),
        diff_segments(original, changed).len() <= changed.len(),
        payload(changed, diff_segments(original, changed)).len() <= changed.len(),
{
    let segs = diff_segments(original, changed);
    lemma_diff_segments(original, changed);
    lemma_payload_len(changed, segs, 0);
    lemma_encode_len(changed, segs);
    if segs.len() > 0 {
        assert(segs.last() == segs[segs.len() - 1]);
    }
}

} // verus!
