use vstd::prelude::*;
use rand::Rng as RandRng;
use rand::SeedableRng;

verus! {

// A request served by a random stream, recorded in the ghost trace as
// (kind, low, high): kind 0 draws a raw word, kind 1 a boolean, kind 2 a
// uniform unsigned range [low, high), kind 3 a uniform signed range.
// The trace pins the stream's state: ChaCha is deterministic, so the
// value of every draw is a function of the seed and the requests served
// before it.

/// The raw word a stream with the given seed returns after serving the
/// given requests.
pub uninterp spec fn chacha_word(seed: u64, trace: Seq<(int, int, int)>) -> u64;

/// The boolean a stream with the given seed returns after serving the
/// given requests.
pub uninterp spec fn chacha_bool(seed: u64, trace: Seq<(int, int, int)>) -> bool;

/// The uniform draw from `[lo, hi)` a stream with the given seed returns
/// after serving the given requests.
pub uninterp spec fn chacha_range_u(
    seed: u64,
    trace: Seq<(int, int, int)>,
    lo: u64,
    hi: u64,
) -> u64;

/// The uniform signed draw from `[lo, hi)` a stream with the given seed
/// returns after serving the given requests.
pub uninterp spec fn chacha_range_i(
    seed: u64,
    trace: Seq<(int, int, int)>,
    lo: i64,
    hi: i64,
) -> i64;

/// A deterministic seeded random stream with helpers tailored to the
/// generators: dice-like ranges, weighted choice, sampling without
/// replacement, and forking into independent child streams.
///
/// Identical seeds yield identical value sequences on every platform;
/// the ghost trace records the requests served so far, and every draw is
/// specified as a function of the seed and that trace alone.
pub struct RNG {
    inner: rand_chacha::ChaCha8Rng,
    seed: u64,
    trace: Ghost<Seq<(int, int, int)>>,
}

#[verifier::external_type_specification]
#[verifier::external_body]
pub struct ExChaCha8Rng(rand_chacha::ChaCha8Rng);

impl RNG {
    /// The seed this stream was built from.
    pub closed spec fn spec_seed(&self) -> u64 {
        self.seed
    }

    /// The requests this stream has served so far.
    pub closed spec fn spec_trace(&self) -> Seq<(int, int, int)> {
        self.trace@
    }

    /// The seed this stream was built from.
    pub fn seed(&self) -> (r: u64)
        ensures
            r == self.spec_seed(),
    {
        self.seed
    }

    /// Relies on rand_chacha's `ChaCha8Rng::seed_from_u64`: a stream
    /// built from a seed is in a state determined by that seed alone,
    /// reproducibly across platforms.
    #[verifier::external_body]
    fn chacha_from_seed(seed: u64) -> rand_chacha::ChaCha8Rng {
        rand_chacha::ChaCha8Rng::seed_from_u64(seed)
    }

    /// A fresh stream in the state the seed determines, with an empty
    /// request trace.
    pub fn new(seed: u64) -> (r: RNG)
        ensures
            r.spec_seed() == seed,
            r.spec_trace() == Seq::<(int, int, int)>::empty(),
    {
        RNG { inner: Self::chacha_from_seed(seed), seed, trace: Ghost(Seq::empty()) }
    }

    /// Relies on `rand::random`: a seed drawn from the process-global
    /// entropy source.  Nothing is promised of its value; this is the
    /// one constructor whose outcome is not reproducible.
    #[verifier::external_body]
    fn entropy_seed() -> u64 {
        rand::random()
    }

    /// A stream seeded from ambient entropy, for use at the process
    /// boundary only; all internal generation consumes explicit seeds.
    pub fn new_random() -> (r: RNG)
        ensures
            r.spec_trace() == Seq::<(int, int, int)>::empty(),
    {
        let seed = Self::entropy_seed();
        Self::new(seed)
    }

    /// Relies on rand's `Rng::gen` for `u64` over the `Standard`
    /// distribution: deterministic in the ChaCha state, which the seed
    /// and the trace pin down.
    #[verifier::external_body]
    pub fn gen_u64(&mut self) -> (r: u64)
        ensures
            final(self).spec_seed() == old(self).spec_seed(),
            final(self).spec_trace() == old(self).spec_trace().push((0int, 0int, 0int)),
            r == chacha_word(old(self).spec_seed(), old(self).spec_trace()),
    {
        self.inner.gen()
    }

    /// Relies on rand's `Rng::gen` for `bool`: deterministic in the
    /// ChaCha state, which the seed and the trace pin down.
    #[verifier::external_body]
    pub fn bool(&mut self) -> (r: bool)
        ensures
            final(self).spec_seed() == old(self).spec_seed(),
            final(self).spec_trace() == old(self).spec_trace().push((1int, 0int, 0int)),
            r == chacha_bool(old(self).spec_seed(), old(self).spec_trace()),
    {
        self.inner.gen()
    }

    /// Relies on rand's `Rng::gen_range` on `u64`: a value of
    /// `[lo, hi)`, deterministic in the ChaCha state, which the seed and
    /// the trace pin down.  An empty range panics, so it is excluded.
    #[verifier::external_body]
    pub fn range_u(&mut self, lo: u64, hi: u64) -> (r: u64)
        requires
            lo < hi,
        ensures
            final(self).spec_seed() == old(self).spec_seed(),
            final(self).spec_trace() == old(self).spec_trace().push((2int, lo as int, hi as int)),
            r == chacha_range_u(old(self).spec_seed(), old(self).spec_trace(), lo, hi),
            lo <= r < hi,
    {
        self.inner.gen_range(lo..hi)
    }

    /// Relies on rand's `Rng::gen_range` on `i64`: a value of
    /// `[lo, hi)`, deterministic in the ChaCha state, which the seed and
    /// the trace pin down.  An empty range panics, so it is excluded.
    #[verifier::external_body]
    pub fn range(&mut self, lo: i64, hi: i64) -> (r: i64)
        requires
            lo < hi,
        ensures
            final(self).spec_seed() == old(self).spec_seed(),
            final(self).spec_trace() == old(self).spec_trace().push((3int, lo as int, hi as int)),
            r == chacha_range_i(old(self).spec_seed(), old(self).spec_trace(), lo, hi),
            lo <= r < hi,
    {
        self.inner.gen_range(lo..hi)
    }

    /// A brand-new, independently seeded child stream derived from one
    /// draw of this stream.  The child depends only on the draws taken
    /// before the fork, never on draws taken after it.
    pub fn fork(&mut self) -> (r: RNG)
        ensures
            final(self).spec_seed() == old(self).spec_seed(),
            final(self).spec_trace() == old(self).spec_trace().push((0int, 0int, 0int)),
            r.spec_seed() == chacha_word(old(self).spec_seed(), old(self).spec_trace()),
            r.spec_trace() == Seq::<(int, int, int)>::empty(),
    {
        let s = self.gen_u64();
        Self::new(s)
    }

    /// The conventional narrow seed for sub-generators: `[1, 8192)`.
    /// The small range keeps user-facing seeds short and memorable and
    /// reserves 0 for special cases.
    pub fn seed8(&mut self) -> (r: u64)
        ensures
            final(self).spec_seed() == old(self).spec_seed(),
            final(self).spec_trace() == old(self).spec_trace().push((2int, 1int, 8192int)),
            r == chacha_range_u(old(self).spec_seed(), old(self).spec_trace(), 1, 8192),
            1 <= r < 8192,
    {
        self.range_u(1, 8192)
    }

    /// Either 1 or -1, from one boolean draw.
    pub fn sign(&mut self) -> (r: i32)
        ensures
            final(self).spec_seed() == old(self).spec_seed(),
            final(self).spec_trace() == old(self).spec_trace().push((1int, 0int, 0int)),
            r == if chacha_bool(old(self).spec_seed(), old(self).spec_trace()) {
                1i32
            } else {
                -1i32
            },
    {
        if self.bool() {
            1
        } else {
            -1
        }
    }

    /// A die roll of `[1, sides]` from one range draw.
    pub fn die(&mut self, sides: u32) -> (r: u32)
        requires
            sides >= 1,
        ensures
            final(self).spec_seed() == old(self).spec_seed(),
            final(self).spec_trace() == old(self).spec_trace().push((2int, 1int, sides + 1)),
            r == chacha_range_u(old(self).spec_seed(), old(self).spec_trace(), 1, (sides + 1) as u64),
            1 <= r <= sides,
    {
        self.range_u(1, sides as u64 + 1) as u32
    }

    pub fn d4(&mut self) -> (r: u32)
        ensures
            final(self).spec_seed() == old(self).spec_seed(),
            final(self).spec_trace() == old(self).spec_trace().push((2int, 1int, 5int)),
            1 <= r <= 4,
    {
        self.die(4)
    }

    pub fn d6(&mut self) -> (r: u32)
        ensures
            final(self).spec_seed() == old(self).spec_seed(),
            final(self).spec_trace() == old(self).spec_trace().push((2int, 1int, 7int)),
            1 <= r <= 6,
    {
        self.die(6)
    }

    pub fn d8(&mut self) -> (r: u32)
        ensures
            final(self).spec_seed() == old(self).spec_seed(),
            final(self).spec_trace() == old(self).spec_trace().push((2int, 1int, 9int)),
            1 <= r <= 8,
    {
        self.die(8)
    }

    pub fn d10(&mut self) -> (r: u32)
        ensures
            final(self).spec_seed() == old(self).spec_seed(),
            final(self).spec_trace() == old(self).spec_trace().push((2int, 1int, 11int)),
            1 <= r <= 10,
    {
        self.die(10)
    }

    pub fn d20(&mut self) -> (r: u32)
        ensures
            final(self).spec_seed() == old(self).spec_seed(),
            final(self).spec_trace() == old(self).spec_trace().push((2int, 1int, 21int)),
            1 <= r <= 20,
    {
        self.die(20)
    }

    pub fn d100(&mut self) -> (r: u32)
        ensures
            final(self).spec_seed() == old(self).spec_seed(),
            final(self).spec_trace() == old(self).spec_trace().push((2int, 1int, 101int)),
            1 <= r <= 100,
    {
        self.die(100)
    }

    /// One element of `v`, chosen uniformly by index.
    pub fn select<'a, T>(&mut self, v: &'a Vec<T>) -> (r: &'a T)
        requires
            v@.len() > 0,
        ensures
            final(self).spec_seed() == old(self).spec_seed(),
            final(self).spec_trace() == old(self).spec_trace().push((2int, 0int, v@.len() as int)),
            *r == v@[chacha_range_u(old(self).spec_seed(), old(self).spec_trace(), 0, v@.len() as u64) as int],
    {
        let i = self.range_u(0, v.len() as u64);
        &v[i as usize]
    }

    /// `n` distinct indices below `len`, sampled without replacement by
    /// swapping chosen indices out of a shrinking pool, so no index can
    /// be drawn twice.  When `n` exceeds `len`, all indices are chosen.
    pub fn select_n(&mut self, n: usize, len: usize) -> (r: Vec<usize>)
        requires
            len < usize::MAX,
        ensures
            final(self).spec_seed() == old(self).spec_seed(),
            r@.len() == if n <= len {
                n as int
            } else {
                len as int
            },
            forall|i: int| 0 <= i < r@.len() ==> #[trigger] r@[i] < len,
            forall|i: int, j: int| 0 <= i < j < r@.len() ==> r@[i] != r@[j],
    {
        let count = if n <= len {
            n
        } else {
            len
        };
        let mut pool: Vec<usize> = Vec::new();
        let mut i: usize = 0;
        while i < len
            invariant
                i <= len,
                pool@.len() == i,
                forall|j: int| 0 <= j < i ==> #[trigger] pool@[j] == j,
            decreases len - i,
        {
            pool.push(i);
            i += 1;
        }
        let mut chosen: Vec<usize> = Vec::new();
        let mut taken: usize = 0;
        while taken < count
            invariant
                self.spec_seed() == old(self).spec_seed(),
                count <= len,
                taken <= count,
                chosen@.len() == taken,
                pool@.len() == len - taken,
                forall|j: int| 0 <= j < pool@.len() ==> #[trigger] pool@[j] < len,
                forall|j: int| 0 <= j < chosen@.len() ==> #[trigger] chosen@[j] < len,
                forall|a: int, b: int| 0 <= a < b < chosen@.len() ==> chosen@[a] != chosen@[b],
                // chosen indices no longer sit in the pool
                forall|a: int, b: int|
                    0 <= a < chosen@.len() && 0 <= b < pool@.len() ==> chosen@[a] != pool@[b],
                // the pool itself stays duplicate-free
                forall|a: int, b: int| 0 <= a < b < pool@.len() ==> pool@[a] != pool@[b],
            decreases count - taken,
        {
            let pick = self.range_u(0, pool.len() as u64) as usize;
            let j = pool.swap_remove(pick);
            chosen.push(j);
            taken += 1;
        }
        chosen
    }

    /// One element of `v`, chosen by cumulative weight: the first entry
    /// whose running weight sum exceeds a uniform draw below the total.
    pub fn select_weighted<'a, T>(&mut self, v: &'a Vec<(u32, T)>) -> (r: &'a T)
        requires
            v@.len() > 0,
            weight_total(v@.map_values(|p: (u32, T)| p.0)) > 0,
            weight_total(v@.map_values(|p: (u32, T)| p.0)) <= u32::MAX,
        ensures
            final(self).spec_seed() == old(self).spec_seed(),
            ({
                let weights = v@.map_values(|p: (u32, T)| p.0);
                let w = chacha_range_u(
                    old(self).spec_seed(),
                    old(self).spec_trace(),
                    0,
                    weight_total(weights) as u64,
                );
                &&& 0 <= w < weight_total(weights)
                &&& 0 <= weight_pick(weights, w as int) < v@.len()
                &&& weights[weight_pick(weights, w as int)] > 0
                &&& *r == v@[weight_pick(weights, w as int)].1
            }),
    {
        let ghost weights = v@.map_values(|p: (u32, T)| p.0);
        let n = v.len();
        let mut total: u64 = 0;
        let mut i: usize = 0;
        while i < n
            invariant
                n == v@.len(),
                i <= n,
                weights == v@.map_values(|p: (u32, T)| p.0),
                weight_total(weights) <= u32::MAX,
                total == weight_total(weights.take(i as int)),
            decreases n - i,
        {
            proof {
                assert(weights.take(i as int + 1).drop_last() =~= weights.take(i as int));
                assert(weights.take(i as int + 1).last() == weights[i as int]);
                lemma_weight_total_take(weights, i as int + 1);
                lemma_weight_total_take(weights, i as int);
            }
            total = total + v[i].0 as u64;
            i += 1;
        }
        proof {
            assert(weights.take(n as int) =~= weights);
        }
        let w = self.range_u(0, total);
        proof {
            lemma_weight_pick_range(weights, w as int);
        }
        let mut idx: usize = 0;
        let mut acc: u64 = w;
        loop
            invariant_except_break
                n == v@.len(),
                idx < n,
                weights == v@.map_values(|p: (u32, T)| p.0),
                weight_total(weights) <= u32::MAX,
                acc <= u32::MAX,
                // picking from the remaining entries with the reduced
                // draw lands where picking from the whole would
                acc < weight_total(weights.skip(idx as int)),
                weight_pick(weights, w as int) == idx + weight_pick(
                    weights.skip(idx as int),
                    acc as int,
                ),
            ensures
                idx < v@.len(),
                idx == weight_pick(weights, w as int),
            decreases n - idx,
        {
            proof {
                assert(weights.skip(idx as int)[0] == weights[idx as int]);
                assert(weight_total(weights.skip(idx as int)) <= weight_total(weights)) by {
                    lemma_weight_total_skip(weights, idx as int);
                }
            }
            if acc < v[idx].0 as u64 {
                break ;
            }
            proof {
                assert(weights.skip(idx as int).drop_first() =~= weights.skip(idx as int + 1));
                lemma_weight_total_first(weights.skip(idx as int));
                assert(weight_total(weights.skip(idx as int)) == weights.skip(idx as int)[0]
                    + weight_total(weights.skip(idx as int + 1)));
            }
            acc = acc - v[idx].0 as u64;
            idx += 1;
            proof {
                if idx >= n {
                    assert(weights.skip(idx as int).len() == 0);
                    assert(weight_total(weights.skip(idx as int)) == 0);
                    assert(false);
                }
            }
        }
        &v[idx].1
    }
}

/// The total of a weighted choice list, as the specification sums it.
pub fn weights_total<T>(v: &Vec<(u32, T)>) -> (r: u64)
    requires
        v@.len() <= 0xFFFF_FFFF,
    ensures
        r as int == weight_total(v@.map_values(|p: (u32, T)| p.0)),
{
    let ghost weights = v@.map_values(|p: (u32, T)| p.0);
    let n = v.len();
    let mut total: u64 = 0;
    let mut i: usize = 0;
    while i < n
        invariant
            n == v@.len() <= 0xFFFF_FFFF,
            i <= n,
            weights == v@.map_values(|p: (u32, T)| p.0),
            total == weight_total(weights.take(i as int)),
            total <= (0xFFFF_FFFF as u64) * (i as u64),
        decreases n - i,
    {
        proof {
            assert(weights.take(i as int + 1).drop_last() =~= weights.take(i as int));
            assert(weights.take(i as int + 1).last() == weights[i as int]);
            assert(total + v@[i as int].0 <= 0xFFFF_FFFFu64 * ((i + 1) as u64))
                by (nonlinear_arith)
                requires
                    total <= 0xFFFF_FFFFu64 * (i as u64),
                    v@[i as int].0 <= 0xFFFF_FFFF,
                    i < 0xFFFF_FFFF,
            ;
        }
        total = total + v[i].0 as u64;
        i += 1;
    }
    proof {
        assert(weights.take(n as int) =~= weights);
    }
    total
}

/// The sum of a sequence of weights.
pub open spec fn weight_total(s: Seq<u32>) -> int
    decreases s.len(),
{
    if s.len() == 0 {
        0
    } else {
        weight_total(s.drop_last()) + s.last()
    }
}

/// The index the cumulative-weight scan picks for draw `w`: the first
/// entry whose running sum exceeds `w`.
pub open spec fn weight_pick(s: Seq<u32>, w: int) -> int
    decreases s.len(),
{
    if s.len() == 0 {
        0
    } else if w < s[0] {
        0
    } else {
        1 + weight_pick(s.drop_first(), w - s[0])
    }
}

/// A nonempty weight sequence's total decomposes at the front.
pub proof fn lemma_weight_total_first(s: Seq<u32>)
    requires
        s.len() > 0,
    ensures
        weight_total(s) == s[0] + weight_total(s.drop_first()),
    decreases s.len(),
{
    if s.len() == 1 {
        assert(s.drop_first().len() == 0);
        assert(s.drop_last().len() == 0);
        assert(weight_total(s.drop_first()) == 0);
        assert(weight_total(s.drop_last()) == 0);
        assert(weight_total(s) == weight_total(s.drop_last()) + s.last());
        assert(s.last() == s[0]);
    } else {
        lemma_weight_total_first(s.drop_last());
        assert(s.drop_last().drop_first() =~= s.drop_first().drop_last());
        assert(s.drop_last()[0] == s[0]);
        assert(s.drop_first().last() == s.last());
        assert(s.drop_first().len() > 0);
        assert(weight_total(s.drop_first()) == weight_total(s.drop_first().drop_last())
            + s.drop_first().last());
        assert(weight_total(s) == weight_total(s.drop_last()) + s.last());
        assert(weight_total(s.drop_last()) == s[0] + weight_total(s.drop_last().drop_first()));
    }
}

/// A prefix sum of weights stays between zero and the whole total.
pub proof fn lemma_weight_total_take(s: Seq<u32>, k: int)
    requires
        0 <= k <= s.len(),
    ensures
        0 <= weight_total(s.take(k)) <= weight_total(s),
    decreases s.len(),
{
    if s.len() == 0 {
        assert(s.take(k) =~= s);
    } else if k == s.len() {
        assert(s.take(k) =~= s);
        lemma_weight_total_take(s.drop_last(), s.len() - 1);
        assert(s.drop_last().take(s.len() - 1) =~= s.drop_last());
    } else {
        assert(s.take(k) =~= s.drop_last().take(k));
        lemma_weight_total_take(s.drop_last(), k);
    }
}

/// A draw below the total weight lands on an in-range entry of
/// positive weight, so zero-weight entries are never picked.
pub proof fn lemma_weight_pick_range(s: Seq<u32>, w: int)
    requires
        0 <= w < weight_total(s),
    ensures
        0 <= weight_pick(s, w) < s.len(),
        s[weight_pick(s, w)] > 0,
    decreases s.len(),
{
    lemma_weight_total_skip(s, 0);
    assert(s.len() > 0) by {
        if s.len() == 0 {
            assert(weight_total(s) == 0);
        }
    }
    lemma_weight_total_first(s);
    if w < s[0] {
        assert(weight_pick(s, w) == 0);
    } else {
        lemma_weight_pick_range(s.drop_first(), w - s[0]);
        assert(s[1 + weight_pick(s.drop_first(), w - s[0])] == s.drop_first()[weight_pick(
            s.drop_first(),
            w - s[0],
        )]);
    }
}

/// Dropping a prefix cannot raise the total weight.
pub proof fn lemma_weight_total_skip(s: Seq<u32>, k: int)
    requires
        0 <= k <= s.len(),
    ensures
        weight_total(s.skip(k)) <= weight_total(s),
        weight_total(s) >= 0,
    decreases s.len(),
{
    if s.len() == 0 {
        assert(s.skip(k) =~= s);
    } else if k == s.len() {
        assert(s.skip(k).len() == 0);
        lemma_weight_total_skip(s.drop_last(), 0);
    } else {
        assert(s.skip(k).drop_last() =~= s.drop_last().skip(k));
        lemma_weight_total_skip(s.drop_last(), k);
    }
}

/// Determinism law: two streams built from the same seed that have
/// served the same requests agree on every next value, so regenerating a
/// world from its seed reproduces it bit for bit; forking both yields
/// children with identical seeds.
pub proof fn lemma_rng_determinism(a: RNG, b: RNG)
    requires
        a.spec_seed() == b.spec_seed(),
        a.spec_trace() == b.spec_trace(),
    ensures
        chacha_word(a.spec_seed(), a.spec_trace()) == chacha_word(b.spec_seed(), b.spec_trace()),
        chacha_bool(a.spec_seed(), a.spec_trace()) == chacha_bool(b.spec_seed(), b.spec_trace()),
        forall|lo: u64, hi: u64|
            chacha_range_u(a.spec_seed(), a.spec_trace(), lo, hi) == chacha_range_u(
                b.spec_seed(),
                b.spec_trace(),
                lo,
                hi,
            ),
        forall|lo: i64, hi: i64|
            chacha_range_i(a.spec_seed(), a.spec_trace(), lo, hi) == chacha_range_i(
                b.spec_seed(),
                b.spec_trace(),
                lo,
                hi,
            ),
{
}

} // verus!
