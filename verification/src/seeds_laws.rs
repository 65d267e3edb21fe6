//! Seeds that were written into a buffer are read back from it.

use crate::seeds::{seed_at, seed_end, seeds_bytes, seeds_encodable, seeds_fit};
use crate::state_laws::lemma_reads_u32;
use crate::wire::{le_u32, u32_le};
use vstd::prelude::*;

verus! {

/// The bytes of the first `k` seeds start the bytes of all of them, and seed
/// `k` follows them with its length in front.
pub proof fn lemma_seeds_bytes_take(seeds: Seq<Seq<u8>>, k: int)
    requires
        0 <= k <= seeds.len(),
    ensures
        seeds_bytes(seeds.take(k)).len() <= seeds_bytes(seeds).len(),
        seeds_bytes(seeds).subrange(0, seeds_bytes(seeds.take(k)).len() as int) == seeds_bytes(
            seeds.take(k),
        ),
        k < seeds.len() ==> seeds_bytes(seeds.take(k + 1)) == seeds_bytes(seeds.take(k))
            + u32_le(seeds[k].len()) + seeds[k],
    decreases seeds.len() - k,
{
    let all = seeds_bytes(seeds);
    if k < seeds.len() {
        assert(seeds.take(k + 1).drop_last() =~= seeds.take(k));
        assert(seeds.take(k + 1).last() == seeds[k]);
        lemma_seeds_bytes_take(seeds, k + 1);
        let lo = seeds_bytes(seeds.take(k));
        let hi = seeds_bytes(seeds.take(k + 1));
        assert(all.subrange(0, lo.len() as int) =~= all.subrange(0, hi.len() as int).subrange(
            0,
            lo.len() as int,
        ));
        assert(hi.subrange(0, lo.len() as int) =~= lo);
    } else {
        assert(seeds.take(k) =~= seeds);
        assert(all.subrange(0, all.len() as int) =~= all);
    }
}

/// A seed that stands at `at` with its length in front is read from there.
proof fn lemma_one_seed(data: Seq<u8>, at: int, seed: Seq<u8>)
    requires
        0 <= at,
        at + 4 + seed.len() <= data.len(),
        seed.len() <= u32::MAX,
        data.subrange(at, at + 4 + seed.len()) == u32_le(seed.len()) + seed,
    ensures
        le_u32(data, at) == seed.len(),
        data.subrange(at + 4, at + 4 + seed.len()) == seed,
{
    let part = data.subrange(at, at + 4 + seed.len());
    assert(data.subrange(at, at + 4) =~= part.subrange(0, 4));
    assert(part.subrange(0, 4) =~= u32_le(seed.len()));
    lemma_reads_u32(data, at, seed.len());
    assert(data.subrange(at + 4, at + 4 + seed.len()) =~= part.subrange(
        4,
        4 + seed.len() as int,
    ));
    assert(part.subrange(4, 4 + seed.len() as int) =~= seed);
}

/// Where the first `k` seeds end in bytes that hold the seeds from `start`
/// on, and that they are read back from there.
pub proof fn lemma_seeds_read_back(data: Seq<u8>, start: int, seeds: Seq<Seq<u8>>, k: nat)
    requires
        seeds_encodable(seeds),
        k <= seeds.len(),
        0 <= start,
        data.len() >= start + seeds_bytes(seeds).len(),
        data.subrange(start, start + seeds_bytes(seeds).len() as int) == seeds_bytes(seeds),
    ensures
        seed_end(data, start, k) == start + seeds_bytes(seeds.take(k as int)).len(),
        seed_end(data, start, k) <= start + seeds_bytes(seeds).len(),
        seeds_fit(data, start, k),
        forall|j: int| 0 <= j < k ==> seed_at(data, start, j) == seeds[j],
    decreases k,
{
    let all = seeds_bytes(seeds);
    if k == 0 {
        assert(seeds.take(0) =~= Seq::<Seq<u8>>::empty());
    } else {
        let j = (k - 1) as int;
        lemma_seeds_read_back(data, start, seeds, (k - 1) as nat);
        lemma_seeds_bytes_take(seeds, j);
        lemma_seeds_bytes_take(seeds, j + 1);
        let lo = seeds_bytes(seeds.take(j));
        let hi = seeds_bytes(seeds.take(j + 1));
        let seed = seeds[j];
        let at: int = start + lo.len() as int;
        assert(seed_end(data, start, (k - 1) as nat) == at);
        assert(hi.len() == lo.len() + 4 + seed.len());
        assert(data.subrange(at, at + 4 + seed.len()) == u32_le(seed.len()) + seed) by {
            let whole = data.subrange(start, start + all.len() as int);
            assert(data.subrange(at, at + 4 + seed.len()) =~= whole.subrange(
                lo.len() as int,
                hi.len() as int,
            ));
            assert(all.subrange(lo.len() as int, hi.len() as int) =~= all.subrange(
                0,
                hi.len() as int,
            ).subrange(lo.len() as int, hi.len() as int));
            assert(hi.subrange(lo.len() as int, hi.len() as int) =~= u32_le(seed.len()) + seed);
        }
        lemma_one_seed(data, at, seed);
        assert(seed_end(data, start, k) == at + 4 + seed.len());
        assert(seed_at(data, start, j) == seed);
    }
}

} // verus!
