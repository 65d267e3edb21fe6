//! The 16-byte aligned byte vector that an encoded diff is built in.

use rkyv::util::AlignedVec;
use vstd::prelude::*;

verus! {

#[verifier::external_type_specification]
#[verifier::external_body]
pub struct ExAlignedVec(AlignedVec);

/// The bytes that an `AlignedVec` holds, in order.
pub uninterp spec fn aligned_bytes(v: AlignedVec) -> Seq<u8>;

/// `AlignedVec::with_capacity` gives an empty vector. It panics where the
/// capacity is beyond `isize::MAX - 15`, rkyv's limit for its 16-byte aligned
/// allocation.
pub assume_specification[ AlignedVec::with_capacity ](capacity: usize) -> (v: AlignedVec)
    requires
        capacity <= isize::MAX - 15,
    ensures
        aligned_bytes(v) == Seq::<u8>::empty(),
;

/// `AlignedVec::extend_from_slice` appends the bytes of `other` in order. It
/// grows the allocation as needed, and panics where the new length is beyond
/// `isize::MAX - 15`.
pub assume_specification[ AlignedVec::extend_from_slice ](v: &mut AlignedVec, other: &[u8])
    requires
        aligned_bytes(*old(v)).len() + other@.len() <= isize::MAX - 15,
    ensures
        aligned_bytes(*final(v)) == aligned_bytes(*old(v)) + other@,
;

} // verus!
