//! Stateless pseudo-random numbers: every draw is a function of a seed and a
//! key, so that every peer draws the same numbers from the same seed.

use vstd::prelude::*;

verus! {

/// The number that `froggy_rand::FroggyRand::gen_perf` returns for a
/// generator with seed `seed` and the key `key`.
pub uninterp spec fn froggy_gen(seed: u64, key: i32) -> u64;

/// Calls `FroggyRand::gen_perf` of the crate `froggy_rand` on a generator made
/// with `FroggyRand::new(seed)`. That function mixes the seed and the key with
/// wrapping arithmetic only, so its result depends on the two numbers alone;
/// the contract gives that result a name and claims nothing else of it.
#[verifier::external_body]
fn froggy_gen_perf(seed: u64, key: i32) -> (r: u64)
    ensures
        r == froggy_gen(seed, key),
{
    froggy_rand::FroggyRand::new(seed).gen_perf(key)
}

/// A generator without state. Two generators with the same seed give the
/// same number for the same key.
#[derive(Clone, Copy, Debug, PartialEq, Eq, Structural)]
pub struct FroggyRng {
    pub seed: u64,
}

/// One millionth is the grain of `gen_unit_micro`.
pub const UNIT_SCALE: u64 = 1_000_000;

/// A draw reduced to the range from `lo` to `hi`, both included; `lo` where
/// the range is empty.
pub open spec fn spec_range_of(draw: u64, lo: u32, hi: u32) -> u32 {
    if hi <= lo {
        lo
    } else {
        (lo + draw % ((hi - lo + 1) as u64)) as u32
    }
}

/// A draw reduced to an index among `len` choices: to 32 bits first, so
/// that machines of all word sizes pick the same.
pub open spec fn spec_index_of(draw: u64, len: usize) -> int {
    ((draw % 0xFFFF_FFFFu64) as int) % (len as int)
}

/// The draw for `key` reduced to the range from `lo` to `hi`.
pub open spec fn spec_next_range(seed: u64, key: i32, lo: u32, hi: u32) -> u32 {
    spec_range_of(froggy_gen(seed, key), lo, hi)
}

/// The index that `choose_index` picks among `len` choices.
pub open spec fn spec_choose_index(seed: u64, key: i32, len: usize) -> int {
    spec_index_of(froggy_gen(seed, key), len)
}

/// Reduces a draw to millionths of the unit interval.
pub fn unit_micro_of(draw: u64) -> (r: u32)
    ensures
        r == draw % UNIT_SCALE,
        r < UNIT_SCALE,
{
    (draw % UNIT_SCALE) as u32
}

/// Reduces a draw to the range from `lo` to `hi`, both included.
pub fn range_of(draw: u64, lo: u32, hi: u32) -> (r: u32)
    ensures
        r == spec_range_of(draw, lo, hi),
        lo <= r,
        lo <= hi ==> r <= hi,
{
    if hi <= lo {
        lo
    } else {
        let span: u64 = (hi - lo) as u64 + 1;
        let off: u64 = draw % span;
        lo + off as u32
    }
}

/// Reduces a draw to an index among `len` choices.
pub fn index_of(draw: u64, len: usize) -> (r: usize)
    requires
        len > 0,
    ensures
        r == spec_index_of(draw, len),
        r < len,
{
    let g: u64 = draw % 0xFFFF_FFFFu64;
    (g % (len as u64)) as usize
}

/// The index that step `i` of a shuffle of `len` items swaps with slot `i`.
pub open spec fn shuffle_pick(seed: u64, i: int, len: int) -> int {
    i + (froggy_gen(seed, i as i32) % ((len - i) as u64)) as int
}

/// `s` with the items at `i` and `j` exchanged.
pub open spec fn swap_seq<T>(s: Seq<T>, i: int, j: int) -> Seq<T> {
    s.update(i, s[j]).update(j, s[i])
}

/// The Fisher-Yates shuffle of the first `n` items of `s` from step `i` on:
/// each step `k` exchanges slot `k` with a slot picked at or after it.
pub open spec fn shuffle_steps<T>(s: Seq<T>, seed: u64, i: int, n: int) -> Seq<T>
    decreases n - i,
{
    if i < 0 || i + 1 >= n {
        s
    } else {
        shuffle_steps(swap_seq(s, i, shuffle_pick(seed, i, n)), seed, i + 1, n)
    }
}

/// The Fisher-Yates shuffle of `s` that the generator with seed `seed` makes.
pub open spec fn shuffle_from<T>(s: Seq<T>, seed: u64, i: int) -> Seq<T> {
    shuffle_steps(s, seed, i, s.len() as int)
}

/// Exchanging two items of a sequence keeps its items.
pub proof fn lemma_swap_keeps_items<T>(s: Seq<T>, i: int, j: int)
    requires
        0 <= i < s.len(),
        0 <= j < s.len(),
    ensures
        swap_seq(s, i, j).len() == s.len(),
        swap_seq(s, i, j).to_multiset() == s.to_multiset(),
{
    let a = s.update(i, s[j]);
    vstd::seq_lib::to_multiset_update(s, i, s[j]);
    vstd::seq_lib::to_multiset_update(a, j, s[i]);
    s.to_multiset_ensures();
    assert(s.contains(s[i]));
    assert(s.contains(s[j]));
    assert(swap_seq(s, i, j).to_multiset() =~= s.to_multiset());
}

/// A shuffle is a permutation: it keeps the length and the items.
pub proof fn lemma_shuffle_is_permutation<T>(s: Seq<T>, seed: u64, i: int)
    requires
        s.len() <= i32::MAX,
    ensures
        shuffle_from(s, seed, i).len() == s.len(),
        shuffle_from(s, seed, i).to_multiset() == s.to_multiset(),
    decreases s.len() - i,
{
    if i < 0 || i + 1 >= s.len() {
    } else {
        let j = shuffle_pick(seed, i, s.len() as int);
        assert(froggy_gen(seed, i as i32) % ((s.len() - i) as u64) < s.len() - i);
        lemma_swap_keeps_items(s, i, j);
        lemma_shuffle_is_permutation(swap_seq(s, i, j), seed, i + 1);
    }
}

impl FroggyRng {
    pub fn new(seed: u64) -> (r: Self)
        ensures
            r.seed == seed,
    {
        FroggyRng { seed }
    }

    /// The draw for `key`.
    pub fn gen(&self, key: i32) -> (r: u64)
        ensures
            r == froggy_gen(self.seed, key),
    {
        froggy_gen_perf(self.seed, key)
    }

    /// A generator of its own for everything that belongs to `key`.
    pub fn subrand(&self, key: i32) -> (r: FroggyRng)
        ensures
            r.seed == froggy_gen(self.seed, key),
    {
        FroggyRng { seed: froggy_gen_perf(self.seed, key) }
    }

    /// A draw from the unit interval, in millionths: below `UNIT_SCALE`.
    pub fn gen_unit_micro(&self, key: i32) -> (r: u32)
        ensures
            r == froggy_gen(self.seed, key) % UNIT_SCALE,
            r < UNIT_SCALE,
    {
        unit_micro_of(froggy_gen_perf(self.seed, key))
    }

    /// A draw from `lo` to `hi`, both included; `lo` where `hi <= lo`.
    pub fn next_range(&self, key: i32, lo: u32, hi: u32) -> (r: u32)
        ensures
            r == spec_next_range(self.seed, key, lo, hi),
            lo <= r,
            lo <= hi ==> r <= hi,
    {
        range_of(froggy_gen_perf(self.seed, key), lo, hi)
    }

    /// The index of one of `len` choices.
    pub fn choose_index(&self, key: i32, len: usize) -> (r: usize)
        requires
            len > 0,
        ensures
            r == spec_choose_index(self.seed, key, len),
            r < len,
    {
        index_of(froggy_gen_perf(self.seed, key), len)
    }

    /// Shuffles `xs` in place. The order depends on the seed, the key and the
    /// length alone; the items are those that were there before.
    pub fn shuffle<T: Copy>(&self, key: i32, xs: &mut Vec<T>)
        requires
            old(xs).len() <= i32::MAX,
        ensures
            final(xs)@ == shuffle_from(old(xs)@, froggy_gen(self.seed, key), 0),
            final(xs)@.len() == old(xs)@.len(),
            final(xs)@.to_multiset() == old(xs)@.to_multiset(),
    {
        let sub = self.subrand(key);
        let n = xs.len();
        proof {
            lemma_shuffle_is_permutation(xs@, sub.seed, 0);
        }
        let mut i: usize = 0;
        while i < n && i + 1 < n
            invariant
                i <= n,
                n == xs.len(),
                n <= i32::MAX,
                sub.seed == froggy_gen(self.seed, key),
                shuffle_from(xs@, sub.seed, i as int) == shuffle_from(old(xs)@, sub.seed, 0),
            decreases n - i,
        {
            let span: u64 = (n - i) as u64;
            let j: usize = i + (sub.gen(i as i32) % span) as usize;
            let a = xs[i];
            let b = xs[j];
            let ghost before = xs@;
            xs.set(i, b);
            xs.set(j, a);
            assert(xs@ =~= swap_seq(before, i as int, j as int));
            i = i + 1;
        }
    }
}

} // verus!
