//! Lists of seeds inside byte buffers: a 32-bit count, then each seed with
//! its 32-bit length in front.

use crate::pubkey::seed_views;
use crate::wire::{copy_bytes, le_u32, push_bytes, push_u32, read_u32, u32_le};
use vstd::prelude::*;
use vstd::slice::slice_subrange;

verus! {

/// Where the first `k` seeds end, if the first one starts at `start`.
pub open spec fn seed_end(data: Seq<u8>, start: int, k: nat) -> int
    decreases k,
{
    if k == 0 {
        start
    } else {
        seed_end(data, start, (k - 1) as nat) + 4 + le_u32(
            data,
            seed_end(data, start, (k - 1) as nat),
        )
    }
}

/// The first `n` seeds lie within the bytes, each with its length in front.
pub open spec fn seeds_fit(data: Seq<u8>, start: int, n: nat) -> bool
    decreases n,
{
    n == 0 || (seeds_fit(data, start, (n - 1) as nat) && seed_end(data, start, (n - 1) as nat) + 4
        <= data.len() && seed_end(data, start, n) <= data.len())
}

/// The bytes of seed `k`.
pub open spec fn seed_at(data: Seq<u8>, start: int, k: int) -> Seq<u8> {
    data.subrange(seed_end(data, start, k as nat) + 4, seed_end(data, start, (k + 1) as nat))
}

/// The first `n` seeds.
pub open spec fn seeds_in(data: Seq<u8>, start: int, n: nat) -> Seq<Seq<u8>> {
    Seq::new(n, |k: int| seed_at(data, start, k))
}

/// The bytes of a list of seeds, without their count.
pub open spec fn seeds_bytes(seeds: Seq<Seq<u8>>) -> Seq<u8>
    decreases seeds.len(),
{
    if seeds.len() == 0 {
        Seq::empty()
    } else {
        seeds_bytes(seeds.drop_last()) + u32_le(seeds.last().len()) + seeds.last()
    }
}

/// The count and the lengths of the seeds fit into the 32 bits that their
/// bytes give them.
pub open spec fn seeds_encodable(seeds: Seq<Seq<u8>>) -> bool {
    &&& seeds.len() <= u32::MAX
    &&& forall|k: int| 0 <= k < seeds.len() ==> (#[trigger] seeds[k]).len() <= u32::MAX
}

/// The seeds end at or behind the place where they start.
pub proof fn lemma_seed_end_lower(data: Seq<u8>, start: int, k: nat)
    ensures
        seed_end(data, start, k) >= start,
    decreases k,
{
    if k > 0 {
        lemma_seed_end_lower(data, start, (k - 1) as nat);
    }
}

/// Fewer seeds fit where more do.
pub proof fn lemma_seeds_fit_fewer(data: Seq<u8>, start: int, n: nat, m: nat)
    requires
        seeds_fit(data, start, n),
        m <= n,
    ensures
        seeds_fit(data, start, m),
    decreases n,
{
    if m < n {
        lemma_seeds_fit_fewer(data, start, (n - 1) as nat, m);
    }
}

/// Reads `count` seeds, the first of which starts at `start`. Gives the
/// seeds and where they end; `None` where the bytes end before the seeds do.
pub(crate) fn read_seeds(data: &[u8], start: usize, count: u32) -> (r: Option<(Vec<Vec<u8>>, usize)>)
    requires
        start <= data@.len(),
    ensures
        match r {
            Some((seeds, end)) => seeds_fit(data@, start as int, count as nat) && seed_views(
                seeds@,
            ) == seeds_in(data@, start as int, count as nat) && end == seed_end(
                data@,
                start as int,
                count as nat,
            ) && start <= end <= data@.len(),
            None => !seeds_fit(data@, start as int, count as nat),
        },
{
    let len = data.len();
    let mut seeds: Vec<Vec<u8>> = Vec::new();
    let mut at: usize = start;
    let mut k: u32 = 0;
    while k < count
        invariant
            k <= count,
            len == data@.len(),
            start <= at <= len,
            at == seed_end(data@, start as int, k as nat),
            seeds_fit(data@, start as int, k as nat),
            seeds@.len() == k,
            seed_views(seeds@) == seeds_in(data@, start as int, k as nat),
        decreases count - k,
    {
        if len - at < 4 {
            proof {
                if seeds_fit(data@, start as int, count as nat) {
                    lemma_seeds_fit_fewer(data@, start as int, count as nat, (k + 1) as nat);
                }
            }
            return None;
        }
        let seed_len = read_u32(data, at) as usize;
        if len - at - 4 < seed_len {
            proof {
                if seeds_fit(data@, start as int, count as nat) {
                    lemma_seeds_fit_fewer(data@, start as int, count as nat, (k + 1) as nat);
                }
            }
            return None;
        }
        let seed = copy_bytes(slice_subrange(data, at + 4, at + 4 + seed_len));
        let ghost before = seed_views(seeds@);
        proof {
            assert(seed_end(data@, start as int, (k + 1) as nat) == at + 4 + seed_len);
            assert(seed@ == seed_at(data@, start as int, k as int));
        }
        seeds.push(seed);
        at = at + 4 + seed_len;
        k += 1;
        proof {
            assert forall|j: int| 0 <= j < k implies seed_views(seeds@)[j] == seed_at(
                data@,
                start as int,
                j,
            ) by {
                if j < k - 1 {
                    assert(seed_views(seeds@)[j] == before[j]);
                }
            }
            assert(seed_views(seeds@) =~= seeds_in(data@, start as int, k as nat));
        }
    }
    Some((seeds, at))
}

/// Appends the seeds, each with its length in front, to `out`. Fails, with
/// `out` as it was, where a seed is longer than 32 bits can count.
pub fn push_seeds(out: &mut Vec<u8>, seeds: &Vec<Vec<u8>>) -> (ok: bool)
    ensures
        ok == (forall|k: int|
            0 <= k < seeds@.len() ==> (#[trigger] seed_views(seeds@)[k]).len() <= u32::MAX),
        ok ==> final(out)@ == old(out)@ + seeds_bytes(seed_views(seeds@)),
        !ok ==> final(out)@ == old(out)@,
{
    let count = seeds.len();
    let ghost all = seed_views(seeds@);
    let mut k: usize = 0;
    while k < count
        invariant
            k <= count,
            count == seeds@.len(),
            all == seed_views(seeds@),
            out@ == old(out)@,
            forall|j: int| 0 <= j < k ==> (#[trigger] all[j]).len() <= u32::MAX,
        decreases count - k,
    {
        if seeds[k].len() > u32::MAX as usize {
            assert(all[k as int].len() > u32::MAX);
            return false;
        }
        k += 1;
    }
    let mut k: usize = 0;
    assert(all.take(0) =~= Seq::<Seq<u8>>::empty());
    assert(out@ =~= old(out)@ + seeds_bytes(all.take(0)));
    while k < count
        invariant
            k <= count,
            count == seeds@.len(),
            all == seed_views(seeds@),
            out@ == old(out)@ + seeds_bytes(all.take(k as int)),
            forall|j: int| 0 <= j < count ==> (#[trigger] all[j]).len() <= u32::MAX,
        decreases count - k,
    {
        let seed = &seeds[k];
        assert(all[k as int] == seed@);
        push_u32(out, seed.len() as u32);
        push_bytes(out, seed.as_slice());
        proof {
            assert(all.take(k + 1).drop_last() =~= all.take(k as int));
            assert(all.take(k + 1).last() == all[k as int]);
            assert(out@ =~= old(out)@ + seeds_bytes(all.take(k + 1)));
        }
        k += 1;
    }
    assert(all.take(count as int) =~= all);
    true
}

} // verus!
