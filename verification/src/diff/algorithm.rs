//! Computing a diff, and rebuilding the changed buffer from one.

use crate::diff::aligned::aligned_bytes;
use crate::diff::format::{
    all_segments_valid, apply_prefix, changed_len_of, copy_span, diff_segments, encoded_diff,
    merge_prefix, merge_run, mergeable, overlap, pair_table, payload, resized, run_end, runs_from,
    segment_valid, segments_count_of, valid_run, well_framed, write_at,
};
use crate::diff::lemmas::{
    lemma_diff_segments, lemma_encode_len, lemma_encoded_diff_len, lemma_pair_table_len,
    lemma_payload_take_len, lemma_take_next,
};
use crate::diff::types::{DiffSet, SizeChanged};
use crate::error::{custom, DlpError, ProgramError};
use crate::wire::{u32_bytes, u32_le};
use rkyv::util::AlignedVec;
use vstd::prelude::*;
use vstd::slice::slice_subrange;

verus! {

/// The ranges held in `v`, as pairs of mathematical integers.
pub open spec fn ranges(v: Seq<(usize, usize)>) -> Seq<(int, int)> {
    Seq::new(v.len(), |k: int| (v[k].0 as int, v[k].1 as int))
}

/// Finds the ranges of `changed` that a diff from `original` has to carry.
fn find_segments(original: &[u8], changed: &[u8]) -> (diffs: Vec<(usize, usize)>)
    ensures
        ranges(diffs@) == diff_segments(original@, changed@),
{
    let mut diffs: Vec<(usize, usize)> = Vec::new();
    let min_len = if original.len() <= changed.len() {
        original.len()
    } else {
        changed.len()
    };
    let mut i: usize = 0;
    assert(ranges(diffs@) + runs_from(original@, changed@, 0) =~= runs_from(
        original@,
        changed@,
        0,
    ));
    while i < min_len
        invariant
            i <= min_len,
            min_len == overlap(original@, changed@),
            ranges(diffs@) + runs_from(original@, changed@, i as int) == runs_from(
                original@,
                changed@,
                0,
            ),
        decreases min_len - i,
    {
        if original[i] != changed[i] {
            let start = i;
            while i < min_len && original[i] != changed[i]
                invariant
                    start <= i <= min_len,
                    min_len == overlap(original@, changed@),
                    run_end(original@, changed@, start as int) == run_end(
                        original@,
                        changed@,
                        i as int,
                    ),
                decreases min_len - i,
            {
                i += 1;
            }
            let ghost before = ranges(diffs@);
            diffs.push((start, i));
            proof {
                assert(run_end(original@, changed@, start as int) == i);
                assert(ranges(diffs@) =~= before + seq![(start as int, i as int)]);
                assert(ranges(diffs@) + runs_from(original@, changed@, i as int) =~= before + (
                seq![(start as int, i as int)] + runs_from(original@, changed@, i as int)));
            }
        } else {
            i += 1;
        }
    }
    if changed.len() > original.len() {
        let ghost before = ranges(diffs@);
        diffs.push((original.len(), changed.len()));
        proof {
            assert(before =~= runs_from(original@, changed@, 0));
            assert(ranges(diffs@) =~= before + seq![
                (original@.len() as int, changed@.len() as int),
            ]);
        }
    } else {
        assert(ranges(diffs@) =~= runs_from(original@, changed@, 0));
    }
    diffs
}

/// Computes the diff that leads from `original` to `changed`.
///
/// The two buffers are compared position by position as far as both reach.
/// Each maximal run of differing bytes becomes a segment that carries the
/// bytes of `changed`. Where `changed` is longer, one more segment carries
/// what it holds beyond the end of `original`; where it is shorter, nothing
/// more is needed, since the diff records the length of `changed`.
///
/// The lengths in a diff are 32 bits wide, so `changed` may not be longer than
/// that, and the diff has to fit into an `AlignedVec`.
pub fn compute_diff(original: &[u8], changed: &[u8]) -> (output: AlignedVec)
    requires
        changed@.len() <= u32::MAX,
        encoded_diff(original@, changed@).len() <= isize::MAX - 15,
    ensures
        aligned_bytes(output) == encoded_diff(original@, changed@),
{
    let diffs = find_segments(original, changed);
    let ghost segs = diff_segments(original@, changed@);
    let ghost b = changed@;
    let changed_len = changed.len();
    let count = diffs.len();
    proof {
        lemma_diff_segments(original@, changed@);
        lemma_encoded_diff_len(original@, changed@);
        lemma_encode_len(b, segs);
        assert(ranges(diffs@).len() == count);
    }
    let mut diff_size: usize = 0;
    let mut k: usize = 0;
    while k < count
        invariant
            k <= count,
            count == segs.len(),
            ranges(diffs@) == segs,
            b == changed@,
            diff_size == payload(b, segs.take(k as int)).len(),
            payload(b, segs).len() <= b.len() <= usize::MAX,
            crate::diff::lemmas::ordered(segs, 0, b.len() as int),
        decreases count - k,
    {
        proof {
            lemma_take_next(b, segs, k as int);
            lemma_payload_take_len(b, segs, k + 1);
            assert(segs[k as int] == (diffs@[k as int].0 as int, diffs@[k as int].1 as int));
        }
        let (start, end) = diffs[k];
        diff_size += end - start;
        k += 1;
    }
    assert(segs.take(count as int) =~= segs);

    let mut output = AlignedVec::with_capacity(8 + 8 * count + diff_size);
    let len_bytes = u32_bytes(changed_len as u32);
    output.extend_from_slice(len_bytes.as_slice());
    let count_bytes = u32_bytes(count as u32);
    output.extend_from_slice(count_bytes.as_slice());
    let ghost header = u32_le(b.len()) + u32_le(segs.len());
    assert(aligned_bytes(output) =~= header + pair_table(b, segs.take(0)));

    let mut offset_in_diff: u32 = 0;
    let mut k: usize = 0;
    while k < count
        invariant
            k <= count,
            count == segs.len(),
            ranges(diffs@) == segs,
            b == changed@,
            header == u32_le(b.len()) + u32_le(segs.len()),
            offset_in_diff == payload(b, segs.take(k as int)).len(),
            payload(b, segs).len() <= b.len() <= u32::MAX,
            crate::diff::lemmas::ordered(segs, 0, b.len() as int),
            aligned_bytes(output) == header + pair_table(b, segs.take(k as int)),
            8 + 8 * count + payload(b, segs).len() <= isize::MAX - 15,
        decreases count - k,
    {
        proof {
            lemma_take_next(b, segs, k as int);
            lemma_payload_take_len(b, segs, k + 1);
            lemma_pair_table_len(b, segs.take(k as int));
            assert(segs[k as int] == (diffs@[k as int].0 as int, diffs@[k as int].1 as int));
        }
        let (start, end) = diffs[k];
        let ghost before = aligned_bytes(output);
        let diff_off = u32_bytes(offset_in_diff);
        output.extend_from_slice(diff_off.as_slice());
        let data_off = u32_bytes(start as u32);
        output.extend_from_slice(data_off.as_slice());
        offset_in_diff += (end - start) as u32;
        k += 1;
        assert(aligned_bytes(output) =~= header + pair_table(b, segs.take(k as int)));
    }
    assert(aligned_bytes(output) =~= header + pair_table(b, segs) + payload(b, segs.take(0)));

    let mut k: usize = 0;
    while k < count
        invariant
            k <= count,
            count == segs.len(),
            ranges(diffs@) == segs,
            b == changed@,
            header == u32_le(b.len()) + u32_le(segs.len()),
            crate::diff::lemmas::ordered(segs, 0, b.len() as int),
            aligned_bytes(output) == header + pair_table(b, segs) + payload(
                b,
                segs.take(k as int),
            ),
            pair_table(b, segs).len() == 8 * count,
            8 + 8 * count + payload(b, segs).len() <= isize::MAX - 15,
        decreases count - k,
    {
        proof {
            lemma_take_next(b, segs, k as int);
            lemma_payload_take_len(b, segs, k + 1);
            assert(segs[k as int] == (diffs@[k as int].0 as int, diffs@[k as int].1 as int));
        }
        let (start, end) = diffs[k];
        output.extend_from_slice(slice_subrange(changed, start, end));
        k += 1;
        assert(aligned_bytes(output) =~= header + pair_table(b, segs) + payload(
            b,
            segs.take(k as int),
        ));
    }
    assert(segs.take(count as int) =~= segs);
    output
}

/// Says whether the diff leads to a buffer of another length than
/// `original`'s: `None` where the length stays, else the new length and
/// whether the buffer grew or shrank.
pub fn detect_size_change(original: &[u8], diffset: &DiffSet<'_>) -> (r: Option<SizeChanged>)
    ensures
        well_framed(diffset@),
        match r {
            None => changed_len_of(diffset@) == original@.len(),
            Some(SizeChanged::Shrunk(n)) => n == changed_len_of(diffset@) && n < original@.len(),
            Some(SizeChanged::Expanded(n)) => n == changed_len_of(diffset@) && n
                > original@.len(),
        },
{
    let changed_len = diffset.changed_len();
    if changed_len < original.len() {
        Some(SizeChanged::Shrunk(changed_len))
    } else if changed_len > original.len() {
        Some(SizeChanged::Expanded(changed_len))
    } else {
        None
    }
}

/// Writes `src` over `dest` from position `at` on.
fn overwrite(dest: &mut [u8], at: usize, src: &[u8])
    requires
        at + src@.len() <= old(dest)@.len(),
    ensures
        final(dest)@ == write_at(old(dest)@, at as int, src@),
{
    let n = src.len();
    let total = dest.len();
    let mut k: usize = 0;
    while k < n
        invariant
            k <= n,
            n == src@.len(),
            total == dest@.len(),
            dest@.len() == old(dest)@.len(),
            at + n <= total,
            forall|p: int|
                0 <= p < dest@.len() ==> dest@[p] == if at <= p < at + k {
                    src@[p - at]
                } else {
                    old(dest)@[p]
                },
        decreases n - k,
    {
        dest[at + k] = src[k];
        k += 1;
    }
    assert(dest@ =~= write_at(old(dest)@, at as int, src@));
}

/// Writes the segments of the diff over `original`, in order, and stops at
/// the first segment that is not valid.
pub(crate) fn apply_diff_impl(original: &mut [u8], diffset: &DiffSet<'_>) -> (r: Result<
    (),
    ProgramError,
>)
    requires
        old(original)@.len() == changed_len_of(diffset@),
    ensures
        well_framed(diffset@),
        final(original)@ == apply_prefix(diffset@, old(original)@, valid_run(diffset@, 0)),
        r is Ok <==> all_segments_valid(diffset@),
        r matches Err(e) ==> e == custom(DlpError::InvalidDiff),
{
    let count = diffset.segments_count();
    let ghost raw = diffset@;
    let ghost start = original@;
    let mut index: usize = 0;
    while index < count
        invariant
            index <= count,
            raw == diffset@,
            count == segments_count_of(raw),
            original@.len() == changed_len_of(raw),
            original@.len() == start.len(),
            start == old(original)@,
            valid_run(raw, 0) == valid_run(raw, index as nat),
            original@ == apply_prefix(raw, start, index as nat),
        decreases count - index,
    {
        match diffset.diff_segment_at(index) {
            Ok(Some((segment, range))) => {
                assert(segment_valid(raw, index as int));
                overwrite(original, range.start, segment);
                index += 1;
            },
            Ok(None) => {
                assert(false);
                index += 1;
            },
            Err(e) => {
                assert(!segment_valid(raw, index as int));
                assert(valid_run(raw, index as nat) == index);
                return Err(e);
            },
        }
    }
    Ok(())
}

/// What `apply_diff_in_place` leaves in a buffer that held `original`, and
/// whether it succeeds.
pub open spec fn applied_in_place(original: Seq<u8>, raw: Seq<u8>) -> (Seq<u8>, Result<
    (),
    ProgramError,
>) {
    if changed_len_of(raw) != original.len() {
        (original, Err(ProgramError::InvalidInstructionData))
    } else if all_segments_valid(raw) {
        (apply_prefix(raw, original, segments_count_of(raw)), Ok(()))
    } else {
        (apply_prefix(raw, original, valid_run(raw, 0)), Err(custom(DlpError::InvalidDiff)))
    }
}

/// Applies the diff to `original` where it stands.
///
/// The buffer must have the length that the diff leads to; otherwise it is
/// left as it is and the call fails. Where a segment is not valid, the call
/// fails after the segments before it were written.
pub fn apply_diff_in_place(original: &mut [u8], diffset: &DiffSet<'_>) -> (r: Result<
    (),
    ProgramError,
>)
    ensures
        well_framed(diffset@),
        final(original)@ == applied_in_place(old(original)@, diffset@).0,
        r == applied_in_place(old(original)@, diffset@).1,
{
    if let Some(_layout) = detect_size_change(original, diffset) {
        return Err(ProgramError::InvalidInstructionData);
    }
    match apply_diff_impl(original, diffset) {
        Ok(()) => Ok(()),
        Err(e) => Err(e),
    }
}

/// What `apply_diff_copy` gives for `original` and the diff `raw`.
pub open spec fn applied_copy(original: Seq<u8>, raw: Seq<u8>) -> Result<Seq<u8>, ProgramError> {
    if all_segments_valid(raw) {
        Ok(apply_prefix(raw, resized(original, changed_len_of(raw)), segments_count_of(raw)))
    } else {
        Err(custom(DlpError::InvalidDiff))
    }
}

/// Applies the diff to a copy of `original`.
///
/// The copy is first cut, or filled up with zero bytes, to the length that the
/// diff leads to; then the segments are written over it.
pub fn apply_diff_copy(original: &[u8], diffset: &DiffSet<'_>) -> (r: Result<
    Vec<u8>,
    ProgramError,
>)
    ensures
        well_framed(diffset@),
        match r {
            Ok(applied) => applied_copy(original@, diffset@) == Ok::<Seq<u8>, ProgramError>(
                applied@,
            ),
            Err(e) => applied_copy(original@, diffset@) == Err::<Seq<u8>, ProgramError>(e),
        },
{
    let new_size = diffset.changed_len();
    let old_size = original.len();
    let mut applied: Vec<u8> = Vec::with_capacity(new_size);
    let mut p: usize = 0;
    while p < new_size
        invariant
            p <= new_size,
            old_size == original@.len(),
            applied@ == resized(original@, p as nat),
        decreases new_size - p,
    {
        let byte: u8 = if p < old_size {
            original[p]
        } else {
            0
        };
        applied.push(byte);
        p += 1;
        assert(applied@ =~= resized(original@, p as nat));
    }
    match apply_diff_impl(applied.as_mut_slice(), diffset) {
        Ok(()) => Ok(applied),
        Err(e) => Err(e),
    }
}

/// Copies the bytes of `src` at the positions `from..to` to the same
/// positions of `dest`.
fn copy_between(dest: &mut [u8], src: &[u8], from: usize, to: usize)
    requires
        from <= to <= old(dest)@.len(),
        to <= src@.len(),
    ensures
        final(dest)@ == copy_span(old(dest)@, src@, from as int, to as int),
{
    let mut p: usize = from;
    while p < to
        invariant
            from <= p <= to,
            to <= src@.len(),
            to <= dest@.len(),
            dest@.len() == old(dest)@.len(),
            forall|q: int|
                0 <= q < dest@.len() ==> dest@[q] == if from <= q < p {
                    src@[q]
                } else {
                    old(dest)@[q]
                },
        decreases to - p,
    {
        dest[p] = src[p];
        p += 1;
    }
    assert(dest@ =~= copy_span(old(dest)@, src@, from as int, to as int));
}

/// What `merge_diff_copy` leaves in a destination that held `dest`, and
/// whether it succeeds.
pub open spec fn merged(dest: Seq<u8>, original: Seq<u8>, raw: Seq<u8>) -> (
    Seq<u8>,
    Result<(), ProgramError>,
) {
    let stop = merge_run(raw, dest.len(), 0);
    let reached = merge_prefix(raw, dest, original, stop);
    if dest.len() != original.len() {
        (dest, Err(custom(DlpError::MergeDiffError)))
    } else if stop == segments_count_of(raw) {
        (copy_span(reached.0, original, reached.1, original.len() as int), Ok(()))
    } else if !segment_valid(raw, stop as int) {
        (reached.0, Err(custom(DlpError::InvalidDiff)))
    } else {
        (reached.0, Err(custom(DlpError::MergeDiffError)))
    }
}

/// Builds the changed buffer in `destination` out of `original` and the diff:
/// the segments come from the diff, and what lies between them, and after the
/// last one, is copied from `original`.
///
/// The two buffers must be equally long, or the call fails and `destination`
/// stays as it is. The call also fails at the first segment that is not
/// valid, or that reaches beyond the end of `destination`; the segments
/// before it are then merged already.
pub fn merge_diff_copy(destination: &mut [u8], original: &[u8], diffset: &DiffSet<'_>) -> (r:
    Result<(), ProgramError>)
    ensures
        well_framed(diffset@),
        final(destination)@ == merged(old(destination)@, original@, diffset@).0,
        r == merged(old(destination)@, original@, diffset@).1,
{
    let count = diffset.segments_count();
    let len = destination.len();
    if len != original.len() {
        return Err(ProgramError::from(DlpError::MergeDiffError));
    }
    let ghost raw = diffset@;
    let ghost start_dest = destination@;
    let mut write_index: usize = 0;
    let mut index: usize = 0;
    while index < count
        invariant
            index <= count,
            raw == diffset@,
            count == segments_count_of(raw),
            start_dest == old(destination)@,
            len == start_dest.len(),
            len == original@.len(),
            destination@.len() == len,
            merge_run(raw, len as nat, 0) == merge_run(raw, len as nat, index as nat),
            (destination@, write_index as int) == merge_prefix(
                raw,
                start_dest,
                original@,
                index as nat,
            ),
            write_index <= len,
        decreases count - index,
    {
        match diffset.diff_segment_at(index) {
            Ok(Some((segment, range))) => {
                if range.end > len {
                    assert(!mergeable(raw, len as nat, index as int));
                    assert(merge_run(raw, len as nat, index as nat) == index);
                    return Err(ProgramError::from(DlpError::MergeDiffError));
                }
                assert(mergeable(raw, len as nat, index as int));
                if write_index < range.start {
                    copy_between(destination, original, write_index, range.start);
                } else {
                    assert(destination@ =~= copy_span(
                        destination@,
                        original@,
                        write_index as int,
                        range.start as int,
                    ));
                }
                overwrite(destination, range.start, segment);
                write_index = range.end;
                index += 1;
            },
            Ok(None) => {
                assert(false);
                index += 1;
            },
            Err(e) => {
                assert(!mergeable(raw, len as nat, index as int));
                assert(merge_run(raw, len as nat, index as nat) == index);
                return Err(e);
            },
        }
    }
    if write_index < len {
        copy_between(destination, original, write_index, len);
    } else {
        assert(destination@ =~= copy_span(
            destination@,
            original@,
            write_index as int,
            len as int,
        ));
    }
    Ok(())
}

} // verus!
