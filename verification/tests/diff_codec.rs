use dlp::diff::algorithm::{
    apply_diff_copy, apply_diff_in_place, compute_diff, detect_size_change, merge_diff_copy,
};
use dlp::diff::format::OffsetPair;
use dlp::diff::types::{DiffSet, SizeChanged};
use dlp::error::{DlpError, ProgramError};
use rand::{
    rngs::{OsRng, StdRng},
    seq::IteratorRandom,
    Rng, RngCore, SeedableRng,
};
use rkyv::util::AlignedVec;

fn aligned(bytes: &[u8]) -> AlignedVec {
    let mut v = AlignedVec::new();
    v.extend_from_slice(bytes);
    v
}

fn encoded(changed_len: u32, pairs: &[(u32, u32)], payload: &[u8]) -> AlignedVec {
    let mut v = AlignedVec::new();
    v.extend_from_slice(&changed_len.to_le_bytes());
    v.extend_from_slice(&(pairs.len() as u32).to_le_bytes());
    for (in_diff, in_data) in pairs {
        v.extend_from_slice(&in_diff.to_le_bytes());
        v.extend_from_slice(&in_data.to_le_bytes());
    }
    v.extend_from_slice(payload);
    v
}

fn invalid_diff() -> ProgramError {
    ProgramError::Custom(15)
}

#[test]
fn test_no_change() {
    let original = [0; 100];
    let diff = compute_diff(&original, &original);

    assert_eq!(diff.len(), 8);
    assert_eq!(
        diff.as_slice(),
        [
            100u32.to_le_bytes().as_slice(),
            0u32.to_le_bytes().as_slice()
        ]
        .concat::<u8>()
    );
}

#[test]
fn test_using_example_data() {
    let original = [0; 100];
    let changed = {
        let mut copy = original;
        // | 11 | 12 | 13 | 14 |
        copy[11..=14].copy_from_slice(&0x01020304u32.to_le_bytes());
        //  | 71 | 72 | 73 | 74 | 75 | 76 | 77 | 78 |
        copy[71..=78].copy_from_slice(&0x0102030405060708u64.to_le_bytes());
        copy
    };

    let actual_diff = compute_diff(&original, &changed);
    let actual_diffset = DiffSet::try_new(&actual_diff).unwrap();
    let expected_diff = {
        // expected: | 100 | 2 | 0 11 | 4 71 | 11 12 13 14 71 72 ... 78 |

        let mut serialized = vec![];

        // 100 (u32)
        serialized.extend_from_slice(&(changed.len() as u32).to_le_bytes());

        // 2 (u32)
        serialized.extend_from_slice(&2u32.to_le_bytes());

        // 0 11 (each u32)
        serialized.extend_from_slice(&0u32.to_le_bytes());
        serialized.extend_from_slice(&11u32.to_le_bytes());

        // 4 71 (each u32)
        serialized.extend_from_slice(&4u32.to_le_bytes());
        serialized.extend_from_slice(&71u32.to_le_bytes());

        // 11 12 13 14  (each u8)
        serialized.extend_from_slice(&0x01020304u32.to_le_bytes());
        // 71 72 ... 78 (each u8)
        serialized.extend_from_slice(&0x0102030405060708u64.to_le_bytes());
        serialized
    };

    assert_eq!(actual_diff.len(), 4 + 4 + 8 + 8 + (4 + 8));
    assert_eq!(actual_diff.as_slice(), expected_diff.as_slice());

    let expected_changed = apply_diff_copy(&original, &actual_diffset).unwrap();

    assert_eq!(changed.as_slice(), expected_changed.as_slice());

    let expected_changed = {
        let mut destination = vec![255; original.len()];
        merge_diff_copy(&mut destination, &original, &actual_diffset).unwrap();
        destination
    };

    assert_eq!(changed.as_slice(), expected_changed.as_slice());
}

#[test]
fn test_using_large_random_data() {
    // Test Plan:
    // - Use a random account size (between 2 MB and 10 MB).
    // - Mutate it at random, non-overlapping and 8-byte-separated regions.
    // - Use random patch sizes (2–256 bytes).
    // - Verify that apply_diff(original, diff) reproduces changed.

    const MB: usize = 1024 * 1024;

    let seed = OsRng.next_u64();
    println!("Use seed = {seed} to reproduce the input data in case of test failure");

    let mut rng = StdRng::seed_from_u64(seed);

    let original = {
        let account_size: usize = rng.gen_range(2 * MB..10 * MB);
        let mut data = vec![0u8; account_size];
        rng.fill(&mut data[..]);
        data
    };

    let (changed, slices) = {
        let mut copy = original.clone();
        let mut slices = vec![];

        let slab = MB / 2;
        let mut offset_range = 0..slab;

        while offset_range.end < copy.len() {
            let diff_offset = rng.gen_range(offset_range);
            let diff_len = (1..256).choose(&mut rng).unwrap();
            let diff_end = (diff_offset + diff_len).min(copy.len());

            // Overwrite with new random data
            for i in diff_offset..diff_end {
                let old = copy[i];
                while old == copy[i] {
                    copy[i] = rng.gen::<u8>();
                }
            }
            slices.push((diff_offset, copy[diff_offset..diff_end].to_vec()));

            offset_range = (diff_end + 8)..(diff_end + 8 + slab);
        }
        (copy, slices)
    };

    let actual_diff = compute_diff(&original, &changed);
    let actual_diffset = DiffSet::try_new(&actual_diff).unwrap();
    let expected_diff = {
        let mut diff = vec![];

        diff.extend_from_slice(&(changed.len() as u32).to_le_bytes());

        diff.extend_from_slice(&(slices.len() as u32).to_le_bytes());

        let mut offset_in_diff = 0u32;
        for (offset_in_account, slice) in slices.iter() {
            diff.extend_from_slice(&offset_in_diff.to_le_bytes());
            diff.extend_from_slice(&(*offset_in_account as u32).to_le_bytes());
            offset_in_diff += slice.len() as u32;
        }

        for (_, slice) in slices.iter() {
            diff.extend_from_slice(slice);
        }
        diff
    };

    assert_eq!(
        actual_diff.len(),
        expected_diff.len(),
        "number of slices {}",
        slices.len()
    );

    // apply diff back to verify correctness
    let expected_changed = {
        let mut copy = original.clone();
        apply_diff_in_place(&mut copy, &actual_diffset).unwrap();
        copy
    };

    assert_eq!(changed, expected_changed);

    let expected_changed = {
        let mut destination = vec![255; original.len()];
        merge_diff_copy(&mut destination, &original, &actual_diffset).unwrap();
        destination
    };

    assert_eq!(changed, expected_changed);
}

#[test]
fn example_diff_has_the_documented_pairs_and_segments() {
    let original = [0u8; 100];
    let mut changed = original;
    changed[11..15].copy_from_slice(&[1, 2, 3, 4]);
    changed[71..79].copy_from_slice(&[5, 6, 7, 8, 9, 10, 11, 12]);
    let diff = compute_diff(&original, &changed);
    assert_eq!(diff.len(), 36);
    let set = DiffSet::try_new(&diff).unwrap();
    assert_eq!(set.changed_len(), 100);
    assert_eq!(set.segments_count(), 2);
    assert_eq!(
        set.offset_pairs(),
        vec![
            OffsetPair { offset_in_diff: 0, offset_in_data: 11 },
            OffsetPair { offset_in_diff: 4, offset_in_data: 71 },
        ]
    );
    assert_eq!(set.raw_diff(), diff.as_slice());
    let (segment, range) = set.diff_segment_at(0).unwrap().unwrap();
    assert_eq!(segment, &[1, 2, 3, 4]);
    assert_eq!(range, 11..15);
    let (segment, range) = set.diff_segment_at(1).unwrap().unwrap();
    assert_eq!(segment, &[5, 6, 7, 8, 9, 10, 11, 12]);
    assert_eq!(range, 71..79);
    assert!(set.diff_segment_at(2).unwrap().is_none());
    let items = set.iter();
    assert_eq!(items.len(), 2);
    assert_eq!(items[0], Ok((&[1u8, 2, 3, 4][..], 11..15)));
    assert_eq!(items[1], Ok((&[5u8, 6, 7, 8, 9, 10, 11, 12][..], 71..79)));
    // The view can be walked again.
    assert_eq!(set.iter(), items);
}

#[test]
fn round_trip_on_small_buffers() {
    let cases: Vec<(Vec<u8>, Vec<u8>)> = vec![
        (vec![], vec![]),
        (vec![], vec![1, 2, 3]),
        (vec![1, 2, 3], vec![]),
        (vec![1, 2, 3], vec![1, 2, 3]),
        (vec![1, 2, 3], vec![3, 2, 1]),
        (vec![1, 2, 3, 4, 5], vec![1, 9, 9, 4, 7]),
        (vec![1, 2], vec![1, 9, 7]),
        (vec![1, 2, 3, 4], vec![1, 8]),
        (vec![0; 40], vec![1; 40]),
    ];
    for (a, b) in cases {
        let diff = compute_diff(&a, &b);
        let set = DiffSet::try_new(&diff).unwrap();
        assert_eq!(set.changed_len(), b.len());
        assert_eq!(apply_diff_copy(&a, &set).unwrap(), b);
    }
}

#[test]
fn no_op_diff_is_the_length_and_a_zero_count() {
    for len in [0usize, 1, 7, 300] {
        let a = vec![9u8; len];
        let diff = compute_diff(&a, &a);
        let mut expected = (len as u32).to_le_bytes().to_vec();
        expected.extend_from_slice(&[0, 0, 0, 0]);
        assert_eq!(diff.as_slice(), expected.as_slice());
    }
}

#[test]
fn growth_adds_a_segment_for_the_tail() {
    let a = vec![1u8, 2, 3];
    let b = vec![1u8, 9, 3, 4, 5];
    let diff = compute_diff(&a, &b);
    assert_eq!(diff.as_slice(), encoded(5, &[(0, 1), (1, 3)], &[9, 4, 5]).as_slice());
    let set = DiffSet::try_new(&diff).unwrap();
    let applied = apply_diff_copy(&a, &set).unwrap();
    assert_eq!(applied.len(), 5);
    assert_eq!(&applied[3..], &b[3..]);
    assert_eq!(applied, b);
    let mut in_place = a.clone();
    assert_eq!(
        apply_diff_in_place(&mut in_place, &set),
        Err(ProgramError::InvalidInstructionData)
    );
    assert_eq!(in_place, a);
    assert!(matches!(detect_size_change(&a, &set), Some(SizeChanged::Expanded(5))));
}

#[test]
fn a_run_that_reaches_the_end_of_the_original_stays_apart_from_the_tail() {
    let a = vec![1u8, 2];
    let b = vec![1u8, 9, 7];
    let diff = compute_diff(&a, &b);
    assert_eq!(diff.as_slice(), encoded(3, &[(0, 1), (1, 2)], &[9, 7]).as_slice());
}

#[test]
fn growth_of_a_copy_fills_with_zeros_before_the_segments_are_written() {
    let diff = encoded(6, &[(0, 1)], &[7]);
    let set = DiffSet::try_new(&diff).unwrap();
    assert_eq!(apply_diff_copy(&[1, 2, 3], &set).unwrap(), vec![1, 7, 3, 0, 0, 0]);
}

#[test]
fn shrink_needs_no_segment() {
    let a = vec![1u8, 2, 3, 4];
    let b = vec![1u8, 8];
    let diff = compute_diff(&a, &b);
    assert_eq!(diff.as_slice(), encoded(2, &[(0, 1)], &[8]).as_slice());
    let set = DiffSet::try_new(&diff).unwrap();
    assert_eq!(apply_diff_copy(&a, &set).unwrap(), b);
    let mut in_place = a.clone();
    assert_eq!(
        apply_diff_in_place(&mut in_place, &set),
        Err(ProgramError::InvalidInstructionData)
    );
    assert_eq!(in_place, a);
    assert!(matches!(detect_size_change(&a, &set), Some(SizeChanged::Shrunk(2))));
    assert!(detect_size_change(&b, &set).is_none());
}

#[test]
fn in_place_gives_the_changed_buffer_for_equal_lengths() {
    let a = vec![1u8, 2, 3, 4, 5, 6];
    let b = vec![1u8, 0, 0, 4, 5, 9];
    let diff = compute_diff(&a, &b);
    let set = DiffSet::try_new(&diff).unwrap();
    let mut buffer = a.clone();
    assert_eq!(apply_diff_in_place(&mut buffer, &set), Ok(()));
    assert_eq!(buffer, b);
}

#[test]
fn merge_fills_the_destination_whatever_it_held() {
    let a = vec![1u8, 2, 3, 4, 5, 6, 7];
    let b = vec![9u8, 2, 3, 8, 8, 6, 1];
    let diff = compute_diff(&a, &b);
    let set = DiffSet::try_new(&diff).unwrap();
    for fill in [0u8, 255, 42] {
        let mut destination = vec![fill; a.len()];
        assert_eq!(merge_diff_copy(&mut destination, &a, &set), Ok(()));
        assert_eq!(destination, b);
    }
}

#[test]
fn merge_refuses_buffers_of_different_lengths() {
    let a = vec![1u8, 2, 3];
    let diff = compute_diff(&a, &a);
    let set = DiffSet::try_new(&diff).unwrap();
    let mut destination = vec![0u8; 4];
    assert_eq!(
        merge_diff_copy(&mut destination, &a, &set),
        Err(ProgramError::from(DlpError::MergeDiffError))
    );
    assert_eq!(ProgramError::from(DlpError::MergeDiffError), ProgramError::Custom(17));
    assert_eq!(destination, vec![0u8; 4]);
}

#[test]
fn merge_refuses_a_segment_beyond_the_destination() {
    let a = vec![1u8, 2, 3];
    let diff = encoded(5, &[(0, 3)], &[7, 7]);
    let set = DiffSet::try_new(&diff).unwrap();
    let mut destination = vec![0u8; 3];
    assert_eq!(
        merge_diff_copy(&mut destination, &a, &set),
        Err(ProgramError::Custom(17))
    );
}

#[test]
fn reader_refuses_short_buffers() {
    for len in 0..8 {
        let buffer = aligned(&vec![0u8; len]);
        assert_eq!(DiffSet::try_new(&buffer).err(), Some(invalid_diff()));
        assert_eq!(DiffSet::try_new_with_offset(&buffer, 0).err(), Some(invalid_diff()));
        assert_eq!(DiffSet::try_new_with_offset(&buffer, 3).err(), Some(invalid_diff()));
    }
}

#[test]
fn reader_refuses_misaligned_buffers() {
    let buffer = aligned(&[0u8; 16]);
    for skip in 1..4 {
        assert_eq!(
            DiffSet::try_new(&buffer[skip..skip + 8]).err(),
            Some(ProgramError::Custom(16))
        );
    }
    assert!(DiffSet::try_new(&buffer[4..12]).is_ok());
    assert_eq!(
        DiffSet::try_new_with_offset(&buffer, 2).err(),
        Some(ProgramError::from(DlpError::InvalidDiffAlignment))
    );
}

#[test]
fn reader_refuses_a_count_that_asks_for_more_header_than_there_is() {
    // Two segments declared, room for one pair only.
    let buffer = aligned(&[10, 0, 0, 0, 2, 0, 0, 0, 0, 0, 0, 0, 0, 0, 0, 0, 1]);
    assert_eq!(DiffSet::try_new(&buffer).err(), Some(invalid_diff()));
    // One segment declared, and the buffer ends with its pair.
    let buffer = encoded(10, &[(0, 0)], &[]);
    assert_eq!(DiffSet::try_new(&buffer).err(), Some(invalid_diff()));
    // The same with one byte for the segment is taken.
    let buffer = encoded(10, &[(0, 0)], &[1]);
    assert!(DiffSet::try_new(&buffer).is_ok());
    // A count near the top of 32 bits.
    let buffer = aligned(&[1, 0, 0, 0, 255, 255, 255, 255, 0]);
    assert_eq!(DiffSet::try_new(&buffer).err(), Some(invalid_diff()));
}

#[test]
fn reader_refuses_offsets_that_do_not_rise() {
    let buffer = encoded(10, &[(4, 0), (2, 5)], &[1, 2, 3, 4, 5, 6]);
    let set = DiffSet::try_new(&buffer).unwrap();
    assert_eq!(set.diff_segment_at(0), Err(invalid_diff()));
    let buffer = encoded(10, &[(0, 0), (0, 5)], &[1, 2, 3, 4, 5]);
    let set = DiffSet::try_new(&buffer).unwrap();
    assert_eq!(set.diff_segment_at(0), Err(invalid_diff()));
    assert_eq!(set.diff_segment_at(1), Ok(Some((&[1u8, 2, 3, 4, 5][..], 5..10))));
    assert_eq!(apply_diff_copy(&[0; 10], &set), Err(invalid_diff()));
}

#[test]
fn reader_refuses_targets_at_or_beyond_the_changed_length() {
    let buffer = encoded(10, &[(0, 10)], &[1]);
    let set = DiffSet::try_new(&buffer).unwrap();
    assert_eq!(set.diff_segment_at(0), Err(invalid_diff()));
    let buffer = encoded(10, &[(0, 9)], &[1]);
    let set = DiffSet::try_new(&buffer).unwrap();
    assert_eq!(set.diff_segment_at(0), Ok(Some((&[1u8][..], 9..10))));
    let buffer = encoded(10, &[(0, 9)], &[1, 2]);
    let set = DiffSet::try_new(&buffer).unwrap();
    assert_eq!(set.diff_segment_at(0), Err(invalid_diff()));
}

#[test]
fn reader_refuses_a_segment_beyond_the_segment_bytes() {
    let buffer = encoded(10, &[(0, 0), (9, 5)], &[1, 2, 3]);
    let set = DiffSet::try_new(&buffer).unwrap();
    assert_eq!(set.diff_segment_at(0), Err(invalid_diff()));
    assert_eq!(set.diff_segment_at(1), Err(invalid_diff()));
}

#[test]
fn in_place_stops_at_the_first_segment_that_is_not_valid() {
    let buffer = encoded(6, &[(0, 0), (2, 6), (3, 4)], &[7, 8, 9, 9]);
    let set = DiffSet::try_new(&buffer).unwrap();
    let mut target = vec![1u8, 2, 3, 4, 5, 6];
    assert_eq!(apply_diff_in_place(&mut target, &set), Err(invalid_diff()));
    assert_eq!(target, vec![7u8, 8, 3, 4, 5, 6]);
    let items = set.iter();
    assert_eq!(items.len(), 3);
    assert!(items[0].is_ok());
    assert_eq!(items[1], Err(invalid_diff()));
    assert_eq!(items[2], Ok((&[9u8][..], 4..5)));
}

#[test]
fn segments_out_of_order_are_written_in_the_order_given() {
    let buffer = encoded(6, &[(0, 3), (2, 0)], &[7, 8, 9, 9]);
    let set = DiffSet::try_new(&buffer).unwrap();
    assert_eq!(apply_diff_copy(&[1, 2, 3, 4, 5, 6], &set).unwrap(), vec![9, 9, 3, 7, 8, 6]);
    let mut destination = vec![0u8; 6];
    // The merge fills up from the end of the segment that came last, so it
    // goes over what an earlier segment wrote behind that.
    assert_eq!(merge_diff_copy(&mut destination, &[1, 2, 3, 4, 5, 6], &set), Ok(()));
    assert_eq!(destination, vec![9, 9, 3, 4, 5, 6]);
}
