//! A checked, read-only view over an encoded diff.

use crate::diff::format::{
    changed_len_of, pair_of, pairs_of, segment_bytes, segment_valid, segments_count_of,
    target_begin, target_end, well_framed, OffsetPair, SIZE_OF_CHANGED_LEN,
    SIZE_OF_NUM_OFFSET_PAIRS,
};
use crate::error::{custom, DlpError, ProgramError};
use crate::wire::read_u32;
use std::ops::Range;
use vstd::prelude::*;
use vstd::slice::slice_subrange;

verus! {

/// How the length of the changed buffer compares with the original's.
#[derive(Debug, Clone, Copy)]
pub enum SizeChanged {
    Expanded(usize),
    Shrunk(usize),
}

/// Where a segment goes in the target buffer, as a half-open range.
pub type OffsetInData = Range<usize>;

/// An encoded diff whose header has been checked. The segments are checked
/// one by one as they are asked for.
pub struct DiffSet<'a> {
    buf: &'a [u8],
    changed_len: usize,
    segments_count: usize,
}

/// Why a buffer is not taken as a diff, if it is not. `aligned` says whether
/// the buffer starts on a 4-byte boundary.
pub open spec fn parse_failure(raw: Seq<u8>, aligned: bool) -> Option<ProgramError> {
    if raw.len() < 8 {
        Some(custom(DlpError::InvalidDiff))
    } else if !aligned {
        Some(custom(DlpError::InvalidDiffAlignment))
    } else if !well_framed(raw) {
        Some(custom(DlpError::InvalidDiff))
    } else {
        None
    }
}

/// What asking for segment `index` gives: nothing past the last segment, the
/// segment's bytes and target range where it is valid, a failure otherwise.
pub open spec fn segment_lookup(raw: Seq<u8>, index: int) -> Result<
    Option<(Seq<u8>, int, int)>,
    ProgramError,
> {
    if index >= segments_count_of(raw) {
        Ok(None)
    } else if segment_valid(raw, index) {
        Ok(Some((segment_bytes(raw, index), target_begin(raw, index), target_end(raw, index))))
    } else {
        Err(custom(DlpError::InvalidDiff))
    }
}

/// Std's `align_offset` on the address of the buffer's first byte, for a
/// boundary of 4 bytes: how many bytes lie between that address and the next
/// such boundary. The answer depends on where the buffer lies in memory, so
/// nothing is claimed of it.
#[verifier::external_body]
pub(crate) fn align_offset_of(diff: &[u8]) -> (offset: usize) {
    diff.as_ptr().align_offset(4)
}

impl<'a> View for DiffSet<'a> {
    type V = Seq<u8>;

    /// The bytes of the encoded diff.
    closed spec fn view(&self) -> Seq<u8> {
        self.buf@
    }
}

impl<'a> DiffSet<'a> {
    #[verifier::type_invariant]
    spec fn framed(self) -> bool {
        &&& well_framed(self.buf@)
        &&& self.changed_len == changed_len_of(self.buf@)
        &&& self.segments_count == segments_count_of(self.buf@)
    }

    /// Reads the header of `diff` and checks it against the buffer's length.
    /// A buffer of at least 8 bytes is also refused where it does not start on
    /// a 4-byte boundary in memory.
    pub fn try_new(diff: &'a [u8]) -> (r: Result<DiffSet<'a>, ProgramError>)
        ensures
            match r {
                Ok(d) => d@ == diff@ && parse_failure(diff@, true) is None,
                Err(e) => parse_failure(diff@, true) == Some(e) || parse_failure(diff@, false)
                    == Some(e),
            },
    {
        if diff.len() < SIZE_OF_CHANGED_LEN + SIZE_OF_NUM_OFFSET_PAIRS {
            return Err(ProgramError::from(DlpError::InvalidDiff));
        }
        let offset = align_offset_of(diff);
        Self::try_new_with_offset(diff, offset)
    }

    /// Reads the header of a buffer whose first byte lies `align_offset` bytes
    /// before a 4-byte boundary, and checks it against the buffer's length.
    pub fn try_new_with_offset(diff: &'a [u8], align_offset: usize) -> (r: Result<
        DiffSet<'a>,
        ProgramError,
    >)
        ensures
            match r {
                Ok(d) => d@ == diff@ && parse_failure(diff@, align_offset == 0) is None,
                Err(e) => parse_failure(diff@, align_offset == 0) == Some(e),
            },
    {
        if diff.len() < SIZE_OF_CHANGED_LEN + SIZE_OF_NUM_OFFSET_PAIRS {
            return Err(ProgramError::from(DlpError::InvalidDiff));
        } else if align_offset != 0 {
            return Err(ProgramError::from(DlpError::InvalidDiffAlignment));
        }
        let changed_len = read_u32(diff, 0) as usize;
        let segments_count = read_u32(diff, 4) as usize;
        let header_len: u64 = 8 + 8 * (segments_count as u64);
        let buflen: u64 = diff.len() as u64;
        if buflen == header_len {
            if segments_count != 0 {
                return Err(ProgramError::from(DlpError::InvalidDiff));
            }
        } else if buflen < header_len {
            return Err(ProgramError::from(DlpError::InvalidDiff));
        }
        Ok(DiffSet { buf: diff, changed_len, segments_count })
    }

    /// The bytes that the view was built over.
    pub fn raw_diff(&self) -> (raw: &'a [u8])
        ensures
            raw@ == self@,
            well_framed(self@),
    {
        proof {
            use_type_invariant(self);
        }
        self.buf
    }

    /// The length of the buffer that the diff leads to.
    pub fn changed_len(&self) -> (n: usize)
        ensures
            n == changed_len_of(self@),
            well_framed(self@),
    {
        proof {
            use_type_invariant(self);
        }
        self.changed_len
    }

    /// The number of segments, which is the number of offset pairs.
    pub fn segments_count(&self) -> (n: usize)
        ensures
            n == segments_count_of(self@),
            well_framed(self@),
    {
        proof {
            use_type_invariant(self);
        }
        self.segments_count
    }

    /// The offset pairs, in order.
    pub fn offset_pairs(&self) -> (pairs: Vec<OffsetPair>)
        ensures
            pairs@ == pairs_of(self@),
            well_framed(self@),
    {
        proof {
            use_type_invariant(self);
        }
        let mut pairs: Vec<OffsetPair> = Vec::new();
        let buflen = self.buf.len();
        let mut i: usize = 0;
        while i < self.segments_count
            invariant
                i <= self.segments_count,
                buflen == self.buf@.len(),
                self.segments_count == segments_count_of(self.buf@),
                well_framed(self.buf@),
                pairs@ == Seq::new(i as nat, |k: int| pair_of(self.buf@, k)),
            decreases self.segments_count - i,
        {
            let at: usize = 8 + 8 * i;
            let pair = OffsetPair {
                offset_in_diff: read_u32(self.buf, at),
                offset_in_data: read_u32(self.buf, at + 4),
            };
            pairs.push(pair);
            i = i + 1;
            assert(pairs@ =~= Seq::new(i as nat, |k: int| pair_of(self.buf@, k)));
        }
        pairs
    }

    /// The bytes of segment `index` and the range of the target buffer that
    /// they are written to; `None` where `index` is past the last segment.
    pub fn diff_segment_at(&self, index: usize) -> (r: Result<
        Option<(&'a [u8], OffsetInData)>,
        ProgramError,
    >)
        ensures
            well_framed(self@),
            match r {
                Ok(None) => segment_lookup(self@, index as int) == Ok::<
                    Option<(Seq<u8>, int, int)>,
                    ProgramError,
                >(None),
                Ok(Some((segment, range))) => segment_lookup(self@, index as int) == Ok::<
                    Option<(Seq<u8>, int, int)>,
                    ProgramError,
                >(Some((segment@, range.start as int, range.end as int))),
                Err(e) => segment_lookup(self@, index as int) == Err::<
                    Option<(Seq<u8>, int, int)>,
                    ProgramError,
                >(e),
            },
    {
        proof {
            use_type_invariant(self);
        }
        let count = self.segments_count;
        if index >= count {
            return Ok(None);
        }
        let buflen = self.buf.len();
        let at: usize = 8 + 8 * index;
        let begin = read_u32(self.buf, at) as usize;
        let offset_in_data = read_u32(self.buf, at + 4) as usize;
        let header_len: usize = 8 + 8 * count;
        let concat_len: usize = buflen - header_len;
        let end: usize = if index + 1 < count {
            read_u32(self.buf, at + 8) as usize
        } else {
            concat_len
        };
        if end > concat_len || begin >= end || offset_in_data >= self.changed_len {
            return Err(ProgramError::from(DlpError::InvalidDiff));
        }
        if end - begin > self.changed_len - offset_in_data {
            return Err(ProgramError::from(DlpError::InvalidDiff));
        }
        let segment = slice_subrange(self.buf, header_len + begin, header_len + end);
        assert(segment@ =~= segment_bytes(self.buf@, index as int));
        Ok(Some((segment, offset_in_data..offset_in_data + (end - begin))))
    }

    /// What `diff_segment_at` gives for each segment, in order.
    pub fn iter(&self) -> (items: Vec<Result<(&'a [u8], OffsetInData), ProgramError>>)
        ensures
            well_framed(self@),
            items@.len() == segments_count_of(self@),
            forall|i: int|
                0 <= i < items@.len() ==> match #[trigger] items@[i] {
                    Ok((segment, range)) => segment_lookup(self@, i) == Ok::<
                        Option<(Seq<u8>, int, int)>,
                        ProgramError,
                    >(Some((segment@, range.start as int, range.end as int))),
                    Err(e) => segment_lookup(self@, i) == Err::<
                        Option<(Seq<u8>, int, int)>,
                        ProgramError,
                    >(e),
                },
    {
        proof {
            use_type_invariant(self);
        }
        let mut items: Vec<Result<(&'a [u8], OffsetInData), ProgramError>> = Vec::new();
        let mut index: usize = 0;
        while index < self.segments_count
            invariant
                index <= self.segments_count,
                self.segments_count == segments_count_of(self@),
                items@.len() == index,
                forall|i: int|
                    0 <= i < items@.len() ==> match #[trigger] items@[i] {
                        Ok((segment, range)) => segment_lookup(self@, i) == Ok::<
                            Option<(Seq<u8>, int, int)>,
                            ProgramError,
                        >(Some((segment@, range.start as int, range.end as int))),
                        Err(e) => segment_lookup(self@, i) == Err::<
                            Option<(Seq<u8>, int, int)>,
                            ProgramError,
                        >(e),
                    },
            decreases self.segments_count - index,
        {
            let item = match self.diff_segment_at(index) {
                Ok(Some(found)) => Ok(found),
                Ok(None) => Err(ProgramError::from(DlpError::InvalidDiff)),
                Err(e) => Err(e),
            };
            items.push(item);
            index = index + 1;
        }
        items
    }
}

} // verus!
