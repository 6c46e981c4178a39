use rand::distributions::{Distribution, Uniform};
use rand::SeedableRng;
use rand_pcg::Lcg128Xsl64;
use vstd::prelude::*;

verus! {

/// The permuted congruential generator (`rand_pcg::Pcg64`) that makes the
/// initial sampling reproducible.
#[verifier::external_type_specification]
#[verifier::external_body]
pub struct ExLcg128Xsl64(Lcg128Xsl64);

/// The value that a `Pcg64` generator seeded with `seed` draws uniformly
/// below `bounds.last()`, after having drawn once below each earlier bound
/// of `bounds`, in order.
pub uninterp spec fn pcg64_draw(seed: u64, bounds: Seq<u64>) -> u64;

/// A seeded generator together with the record of what it has drawn: its
/// seed and the bound of every draw so far. Only its own methods touch it.
pub struct SeededDraws {
    rng: Lcg128Xsl64,
    seed: Ghost<u64>,
    bounds: Ghost<Seq<u64>>,
}

impl SeededDraws {
    /// The seed the generator started from.
    pub closed spec fn seed(&self) -> u64 {
        self.seed@
    }

    /// The bounds of the draws made so far, oldest first.
    pub closed spec fn bounds(&self) -> Seq<u64> {
        self.bounds@
    }

    /// Relies on `rand_core::SeedableRng::seed_from_u64` for `Pcg64`: a
    /// fresh generator whose stream is fixed by the seed.
    #[verifier::external_body]
    pub fn new(seed: u64) -> (r: SeededDraws)
        ensures
            r.seed() == seed,
            r.bounds() == Seq::<u64>::empty(),
    {
        SeededDraws { rng: Lcg128Xsl64::seed_from_u64(seed), seed: Ghost(seed), bounds: Ghost(Seq::empty()) }
    }

    /// Relies on `rand::distributions::Uniform::<u64>::new(0, n)` and its
    /// `sample`: a value in `[0, n)` that depends on the seed and the bounds
    /// of the earlier draws alone; `new` panics unless `0 < n`.
    #[verifier::external_body]
    pub fn draw_below(&mut self, n: u64) -> (r: u64)
        requires
            n > 0,
        ensures
            r < n,
            r == pcg64_draw(old(self).seed(), old(self).bounds().push(n)),
            final(self).seed() == old(self).seed(),
            final(self).bounds() == old(self).bounds().push(n),
    {
        let r = Uniform::new(0, n).sample(&mut self.rng);
        self.bounds = Ghost(self.bounds@.push(n));
        r
    }
}

/// Seed of the generator behind the initial cluster means.
pub const INIT_SEED: u64 = 3;

/// The `i`-th of a run of draws, each below `n`, from a generator seeded
/// with `INIT_SEED`.
pub open spec fn init_draw(n: u64, i: int) -> usize {
    pcg64_draw(INIT_SEED, Seq::new((i + 1) as nat, |j: int| n)) as usize
}

/// The index pairs that `initial_sources(n_points, k)` returns: pair `c` is
/// made of draws `2c` and `2c + 1`.
pub open spec fn init_sources(n_points: usize, k: usize) -> Seq<(usize, usize)> {
    Seq::new(
        k as nat,
        |c: int| (init_draw(n_points as u64, 2 * c), init_draw(n_points as u64, 2 * c + 1)),
    )
}

/// Chooses where the `k` initial cluster means come from: for each cluster
/// a pair of point indices, the first giving the mean's first coordinate
/// and the second its second coordinate, drawn independently with
/// replacement from a generator seeded with `INIT_SEED`. The result depends
/// on `n_points` and `k` alone.
pub fn initial_sources(n_points: usize, k: usize) -> (r: Vec<(usize, usize)>)
    requires
        n_points > 0,
    ensures
        r@ == init_sources(n_points, k),
        r.len() == k,
        forall|c: int| 0 <= c < k ==> (#[trigger] r[c]).0 < n_points && r[c].1 < n_points,
{
    let n = n_points as u64;
    let mut rng = SeededDraws::new(INIT_SEED);
    let mut sources: Vec<(usize, usize)> = Vec::new();
    let mut c: usize = 0;
    while c < k
        invariant
            c <= k,
            n == n_points as u64,
            n > 0,
            rng.seed() == INIT_SEED,
            rng.bounds() == Seq::new((2 * c) as nat, |j: int| n),
            sources@ == init_sources(n_points, k).subrange(0, c as int),
            forall|j: int| 0 <= j < c ==> (#[trigger] sources[j]).0 < n_points && sources[j].1 < n_points,
        decreases k - c,
    {
        let first = rng.draw_below(n);
        assert(rng.bounds() =~= Seq::new((2 * c + 1) as nat, |j: int| n));
        let second = rng.draw_below(n);
        assert(rng.bounds() =~= Seq::new((2 * c + 2) as nat, |j: int| n));
        sources.push((first as usize, second as usize));
        assert(sources@ =~= init_sources(n_points, k).subrange(0, c + 1));
        c = c + 1;
    }
    assert(sources@ =~= init_sources(n_points, k));
    sources
}

} // verus!
