//! What the reader finds in a diff that was written for given ranges.

use crate::diff::format::{
    changed_len_of, encode, header_len_of, merge_run, mergeable, pair_of, pair_table, payload,
    payload_of, segment_begin, segment_bytes, segment_end, segment_valid, segments_count_of,
    target_begin, target_end, valid_run, well_framed,
};
use crate::diff::lemmas::{
    lemma_pair_table_len, lemma_payload_len, lemma_payload_take_len, lemma_take_next, ordered,
};
use crate::wire::{le_u32, u32_le};
use vstd::prelude::*;

verus! {

/// Four bytes that are the little-endian form of `x` read back as `x`,
/// wherever in a buffer they stand.
pub proof fn lemma_le_u32_reads(s: Seq<u8>, at: int, x: nat)
    requires
        x <= u32::MAX,
        0 <= at,
        at + 4 <= s.len(),
        forall|c: int| 0 <= c < 4 ==> s[at + c] == #[trigger] u32_le(x)[c],
    ensures
        le_u32(s, at) == x,
{
    assert(s[at + 0] == u32_le(x)[0]);
    assert(s[at + 1] == u32_le(x)[1]);
    assert(s[at + 2] == u32_le(x)[2]);
    assert(s[at + 3] == u32_le(x)[3]);
}

/// The 8 bytes at `8 * k` of the pair table are the pair of range `k`.
pub proof fn lemma_pair_table_at(b: Seq<u8>, segs: Seq<(int, int)>, k: int)
    requires
        0 <= k < segs.len(),
    ensures
        pair_table(b, segs).len() == 8 * segs.len(),
        forall|c: int|
            0 <= c < 4 ==> pair_table(b, segs)[8 * k + c] == #[trigger] u32_le(
                payload(b, segs.take(k)).len(),
            )[c],
        forall|c: int|
            0 <= c < 4 ==> pair_table(b, segs)[8 * k + 4 + c] == #[trigger] u32_le(
                segs[k].0 as nat,
            )[c],
    decreases segs.len(),
{
    let front = segs.drop_last();
    lemma_pair_table_len(b, segs);
    lemma_pair_table_len(b, front);
    if k == segs.len() - 1 {
        assert(front =~= segs.take(k));
    } else {
        lemma_pair_table_at(b, front, k);
        assert(front.take(k) =~= segs.take(k));
        assert(front[k] == segs[k]);
    }
}

/// Where the parts of a diff lie in it.
pub proof fn lemma_encode_layout(b: Seq<u8>, segs: Seq<(int, int)>)
    ensures
        encode(b, segs).len() == 8 + 8 * segs.len() + payload(b, segs).len(),
        pair_table(b, segs).len() == 8 * segs.len(),
        forall|c: int| 0 <= c < 4 ==> encode(b, segs)[c] == #[trigger] u32_le(b.len())[c],
        forall|c: int| 0 <= c < 4 ==> encode(b, segs)[4 + c] == #[trigger] u32_le(segs.len())[c],
        forall|j: int|
            0 <= j < 8 * segs.len() ==> encode(b, segs)[8 + j] == #[trigger] pair_table(
                b,
                segs,
            )[j],
        forall|j: int|
            0 <= j < payload(b, segs).len() ==> encode(b, segs)[8 + 8 * segs.len() + j]
                == #[trigger] payload(b, segs)[j],
{
    lemma_pair_table_len(b, segs);
}

/// The header that the reader finds in a diff written for ordered ranges of
/// a buffer that is not too long for it.
pub proof fn lemma_decode_header(b: Seq<u8>, segs: Seq<(int, int)>)
    requires
        b.len() <= u32::MAX,
        ordered(segs, 0, b.len() as int),
    ensures
        changed_len_of(encode(b, segs)) == b.len(),
        segments_count_of(encode(b, segs)) == segs.len(),
        header_len_of(encode(b, segs)) == 8 + 8 * segs.len(),
        encode(b, segs).len() == 8 + 8 * segs.len() + payload(b, segs).len(),
        well_framed(encode(b, segs)),
        payload_of(encode(b, segs)) == payload(b, segs),
{
    let raw = encode(b, segs);
    let n = segs.len();
    lemma_encode_layout(b, segs);
    lemma_payload_len(b, segs, 0);
    if n > 0 {
        assert(segs.last() == segs[n - 1]);
    }
    assert(n <= b.len());
    assert forall|c: int| 0 <= c < 4 implies raw[0 + c] == #[trigger] u32_le(b.len())[c] by {}
    lemma_le_u32_reads(raw, 0, b.len());
    lemma_le_u32_reads(raw, 4, n);
    assert(payload_of(raw) =~= payload(b, segs)) by {
        assert forall|j: int| 0 <= j < payload(b, segs).len() implies payload_of(raw)[j]
            == payload(b, segs)[j] by {
            assert(raw[8 + 8 * n + j] == payload(b, segs)[j]);
        }
    }
}

/// The offset pair that the reader finds for range `k`.
pub proof fn lemma_decode_pair(b: Seq<u8>, segs: Seq<(int, int)>, k: int)
    requires
        b.len() <= u32::MAX,
        ordered(segs, 0, b.len() as int),
        0 <= k < segs.len(),
    ensures
        pair_of(encode(b, segs), k).offset_in_diff == payload(b, segs.take(k)).len(),
        pair_of(encode(b, segs), k).offset_in_data == segs[k].0,
{
    let raw = encode(b, segs);
    let table = pair_table(b, segs);
    lemma_encode_layout(b, segs);
    lemma_payload_len(b, segs, 0);
    assert(segs.last() == segs[segs.len() - 1]);
    lemma_pair_table_at(b, segs, k);
    lemma_payload_take_len(b, segs, k);
    let off = payload(b, segs.take(k)).len();
    assert forall|c: int| 0 <= c < 4 implies raw[8 + 8 * k + c] == #[trigger] u32_le(off)[c] by {
        assert(raw[8 + (8 * k + c)] == table[8 * k + c]);
    }
    lemma_le_u32_reads(raw, 8 + 8 * k, off);
    assert forall|c: int| 0 <= c < 4 implies raw[12 + 8 * k + c] == #[trigger] u32_le(
        segs[k].0 as nat,
    )[c] by {
        assert(raw[8 + (8 * k + 4 + c)] == table[8 * k + 4 + c]);
    }
    lemma_le_u32_reads(raw, 12 + 8 * k, segs[k].0 as nat);
}

/// The segment that the reader finds for range `k`: it is valid, goes where
/// the range lies, and carries the bytes that `b` holds there.
pub proof fn lemma_decode_segment(b: Seq<u8>, segs: Seq<(int, int)>, k: int)
    requires
        b.len() <= u32::MAX,
        ordered(segs, 0, b.len() as int),
        0 <= k < segs.len(),
    ensures
        segment_begin(encode(b, segs), k) == payload(b, segs.take(k)).len(),
        segment_end(encode(b, segs), k) == payload(b, segs.take(k + 1)).len(),
        target_begin(encode(b, segs), k) == segs[k].0,
        target_end(encode(b, segs), k) == segs[k].1,
        segment_bytes(encode(b, segs), k) == b.subrange(segs[k].0, segs[k].1),
        segment_valid(encode(b, segs), k),
{
    let raw = encode(b, segs);
    let n = segs.len();
    let body = payload(b, segs);
    lemma_decode_header(b, segs);
    lemma_decode_pair(b, segs, k);
    lemma_take_next(b, segs, k);
    lemma_payload_take_len(b, segs, k + 1);
    let lo = payload(b, segs.take(k));
    let hi = payload(b, segs.take(k + 1));
    if k + 1 == n {
        assert(segs.take(k + 1) =~= segs);
    } else {
        lemma_decode_pair(b, segs, k + 1);
    }
    assert(segment_begin(raw, k) == lo.len());
    assert(segment_end(raw, k) == hi.len());
    assert(hi == lo + b.subrange(segs[k].0, segs[k].1));
    assert(hi.len() - lo.len() == segs[k].1 - segs[k].0);
    lemma_prefix_of_payload(b, segs, k + 1);
    assert(segment_bytes(raw, k) =~= b.subrange(segs[k].0, segs[k].1)) by {
        assert(body.subrange(0, hi.len() as int) == hi);
        assert forall|q: int| 0 <= q < hi.len() - lo.len() implies body[lo.len() + q]
            == b.subrange(segs[k].0, segs[k].1)[q] by {
            assert(body[lo.len() + q] == body.subrange(0, hi.len() as int)[lo.len() + q]);
        }
    }
}

/// Every segment that the reader finds in such a diff is valid.
pub proof fn lemma_decode(b: Seq<u8>, segs: Seq<(int, int)>)
    requires
        b.len() <= u32::MAX,
        ordered(segs, 0, b.len() as int),
    ensures
        changed_len_of(encode(b, segs)) == b.len(),
        segments_count_of(encode(b, segs)) == segs.len(),
        well_framed(encode(b, segs)),
        valid_run(encode(b, segs), 0) == segs.len(),
        forall|len: nat| b.len() <= len ==> merge_run(encode(b, segs), len, 0) == segs.len(),
{
    let raw = encode(b, segs);
    lemma_decode_header(b, segs);
    assert forall|k: int| 0 <= k < segs.len() implies segment_valid(raw, k) && target_end(raw, k)
        <= b.len() by {
        lemma_decode_segment(b, segs, k);
    }
    lemma_valid_run_all(raw, 0);
    assert forall|len: nat| b.len() <= len implies merge_run(raw, len, 0) == segs.len() by {
        lemma_merge_run_all(raw, len, 0);
    }
}

/// The bytes carried for the first `k` ranges start the bytes carried for
/// all of them.
pub proof fn lemma_prefix_of_payload(b: Seq<u8>, segs: Seq<(int, int)>, k: int)
    requires
        0 <= k <= segs.len(),
    ensures
        payload(b, segs.take(k)).len() <= payload(b, segs).len(),
        payload(b, segs).subrange(0, payload(b, segs.take(k)).len() as int) == payload(
            b,
            segs.take(k),
        ),
    decreases segs.len() - k,
{
    if k < segs.len() {
        lemma_take_next(b, segs, k);
        lemma_prefix_of_payload(b, segs, k + 1);
        let lo = payload(b, segs.take(k));
        let hi = payload(b, segs.take(k + 1));
        let all = payload(b, segs);
        assert(all.subrange(0, lo.len() as int) =~= all.subrange(0, hi.len() as int).subrange(
            0,
            lo.len() as int,
        ));
        assert(hi.subrange(0, lo.len() as int) =~= lo);
    } else {
        assert(segs.take(k) =~= segs);
        assert(payload(b, segs).subrange(0, payload(b, segs).len() as int) =~= payload(b, segs));
    }
}

/// Where every segment from `from` on is valid, none stops the reader.
pub proof fn lemma_valid_run_all(raw: Seq<u8>, from: nat)
    requires
        from <= segments_count_of(raw),
        forall|k: int| from <= k < segments_count_of(raw) ==> segment_valid(raw, k),
    ensures
        valid_run(raw, from) == segments_count_of(raw),
    decreases segments_count_of(raw) - from,
{
    if from < segments_count_of(raw) {
        lemma_valid_run_all(raw, from + 1);
    }
}

/// Where every segment from `from` on can be merged, none stops the merge.
pub proof fn lemma_merge_run_all(raw: Seq<u8>, len: nat, from: nat)
    requires
        from <= segments_count_of(raw),
        forall|k: int| from <= k < segments_count_of(raw) ==> mergeable(raw, len, k),
    ensures
        merge_run(raw, len, from) == segments_count_of(raw),
    decreases segments_count_of(raw) - from,
{
    if from < segments_count_of(raw) {
        lemma_merge_run_all(raw, len, from + 1);
    }
}

} // verus!
