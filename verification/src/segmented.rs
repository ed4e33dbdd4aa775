//! The segmented sieve of Eratosthenes: the primes up to a bound, found one
//! fixed-size window at a time so that memory does not grow with the bound.

use vstd::prelude::*;
use crate::arith::{
    is_prime_number, isqrt, lemma_composite_has_small_factor, lemma_multiple_divides,
    lemma_multiple_step, smallest_prime_factor,
};
use crate::bitset::Bitset;
use crate::prime::eratosthenes;
use crate::prime_list::{
    lemma_even_not_prime, lemma_odd_multiples_apart, lemma_odd_prime, lemma_primes_below,
    lemma_primes_in_split, lemma_primes_in_step, primes_below, primes_in, primes_upto,
};

verus! {

/// The width of a window of the segmented sieve, and the bound from which
/// `prime_sieve` uses the segmented sieve.
pub const S_SIEVE_SIZE: u64 = 65_536;

/// Some odd seed from position one on divides `n` and its square does not
/// exceed `n`: the condition under which the sieve strikes `n` out.
pub open spec fn struck(n: int, seeds: Seq<u64>, k: int) -> bool {
    exists|i: int| 1 <= i < k && n % (#[trigger] seeds[i] as int) == 0 && seeds[i] * seeds[i] <= n
}

/// `base + off` is the least odd multiple of `p` that is at least `base` and
/// at least the square of `p`.
pub open spec fn next_odd_multiple(base: int, off: int, p: int) -> bool {
    let m = base + off;
    &&& off >= 0
    &&& m % p == 0
    &&& m % 2 == 1
    &&& m >= p * p
    &&& (m - 2 * p < base || m - 2 * p < p * p)
}

/// The odd primes `p` with `lo <= p < hi`, in ascending order.
pub open spec fn odd_primes_in(lo: int, hi: int) -> Seq<u64> {
    if hi <= 3 {
        Seq::empty()
    } else if lo <= 3 {
        primes_in(3, hi)
    } else {
        primes_in(lo, hi)
    }
}

/// The seeds are the primes up to `limit`, and every prime whose square is
/// at most `max` is among them.
pub open spec fn seeds_cover(seeds: Seq<u64>, limit: int, max: int) -> bool {
    &&& seeds == primes_upto(limit)
    &&& 0 <= limit <= 0xffff_fffe
    &&& forall|q: int| is_prime_number(q) && q * q <= max ==> q <= limit
}

/// What the list of seeds is known to hold.
proof fn lemma_seeds(seeds: Seq<u64>, limit: int, max: int)
    requires
        seeds_cover(seeds, limit, max),
    ensures
        forall|i: int| 0 <= i < seeds.len() ==> is_prime_number(#[trigger] seeds[i] as int),
        forall|i: int| 0 <= i < seeds.len() ==> #[trigger] seeds[i] <= 0xffff_fffe,
        forall|i: int| 1 <= i < seeds.len() ==> #[trigger] seeds[i] % 2 == 1,
        forall|i: int, j: int| 0 <= i < j < seeds.len() ==> seeds[i] < seeds[j],
        forall|q: int|
            is_prime_number(q) && q * q <= max && q != 2 ==> exists|i: int|
                1 <= i < seeds.len() && seeds[i] == q,
{
    lemma_primes_below(limit + 1);
    assert forall|i: int| 1 <= i < seeds.len() implies #[trigger] seeds[i] % 2 == 1 by {
        assert(is_prime_number(seeds[0] as int));
        assert(seeds[0] < seeds[i]);
        lemma_odd_prime(seeds[i] as int);
    }
    assert forall|q: int| is_prime_number(q) && q * q <= max && q != 2 implies exists|i: int|
        1 <= i < seeds.len() && seeds[i] == q by {
        assert(seeds.contains(q as u64));
        let i = choose|i: int| 0 <= i < seeds.len() && seeds[i] == q as u64;
        if i == 0 {
            assert(is_prime_number(2)) by {
                assert forall|d: int| 2 <= d < 2 implies #[trigger] (2int % d) != 0 by {}
            }
            lemma_odd_prime(q);
            let two: int = 2;
            assert(q <= limit);
            assert(seeds.contains(two as u64));
            let j = choose|j: int| 0 <= j < seeds.len() && seeds[j] == 2u64;
            assert(j != 0);
            assert(seeds[0] < seeds[j]);
        }
        assert(seeds[i] == q);
    }
}

/// Among the odd numbers from three on that a window covers, the sieve
/// strikes out exactly the composite ones.
proof fn lemma_struck_iff_composite(
    n: int,
    seeds: Seq<u64>,
    active: int,
    limit: int,
    max: int,
    pos_h: int,
)
    requires
        seeds_cover(seeds, limit, max),
        3 <= n <= pos_h <= max,
        n % 2 == 1,
        0 <= active <= seeds.len(),
        forall|i: int| 0 <= i < active ==> (#[trigger] seeds[i]) * seeds[i] <= pos_h,
        forall|i: int| active <= i < seeds.len() ==> (#[trigger] seeds[i]) * seeds[i] > pos_h,
    ensures
        struck(n, seeds, active) <==> !is_prime_number(n),
{
    lemma_seeds(seeds, limit, max);
    if struck(n, seeds, active) {
        let i = choose|i: int|
            1 <= i < active && n % (#[trigger] seeds[i] as int) == 0 && seeds[i] * seeds[i] <= n;
        let p = seeds[i] as int;
        assert(is_prime_number(p));
        assert(p < n) by (nonlinear_arith)
            requires
                p * p <= n,
                p >= 2,
        ;
        assert(n % p == 0);
    }
    if !is_prime_number(n) {
        lemma_composite_has_small_factor(n);
        let q = smallest_prime_factor(n);
        if q == 2 {
            assert(n % 2 == 0);
        }
        let i = choose|i: int| 1 <= i < seeds.len() && seeds[i] == q;
        assert(i < active);
        assert(n % (seeds[i] as int) == 0 && seeds[i] * seeds[i] <= n);
    }
}

/// Gives an offset to every seed whose square has come into reach of the
/// window that ends at `pos_h`.
fn activate_seeds(seeds: &Vec<u64>, offsets: &mut Vec<u64>, pos: u64, pos_h: u64)
    requires
        pos <= pos_h,
        old(offsets)@.len() <= seeds@.len(),
        forall|i: int| 0 <= i < seeds@.len() ==> #[trigger] seeds@[i] <= 0xffff_fffe,
        forall|i: int| 1 <= i < seeds@.len() ==> #[trigger] seeds@[i] % 2 == 1,
        forall|i: int, j: int| 0 <= i < j < seeds@.len() ==> seeds@[i] < seeds@[j],
        forall|i: int|
            1 <= i < old(offsets)@.len() ==> next_odd_multiple(
                pos as int,
                #[trigger] old(offsets)@[i] as int,
                seeds@[i] as int,
            ),
        forall|i: int|
            0 <= i < old(offsets)@.len() ==> (#[trigger] seeds@[i]) * seeds@[i] <= pos_h,
        forall|i: int|
            old(offsets)@.len() <= i < seeds@.len() ==> (#[trigger] seeds@[i]) * seeds@[i] >= pos,
    ensures
        old(offsets)@.len() <= final(offsets)@.len() <= seeds@.len(),
        forall|i: int|
            1 <= i < final(offsets)@.len() ==> next_odd_multiple(
                pos as int,
                #[trigger] final(offsets)@[i] as int,
                seeds@[i] as int,
            ),
        forall|i: int|
            0 <= i < final(offsets)@.len() ==> (#[trigger] seeds@[i]) * seeds@[i] <= pos_h,
        forall|i: int|
            final(offsets)@.len() <= i < seeds@.len() ==> (#[trigger] seeds@[i]) * seeds@[i]
                > pos_h,
{
    let total: usize = seeds.len();
    loop
        invariant
            pos <= pos_h,
            old(offsets)@.len() <= offsets@.len(),
            total == seeds@.len(),
            offsets@.len() <= seeds@.len(),
            forall|i: int| 0 <= i < seeds@.len() ==> #[trigger] seeds@[i] <= 0xffff_fffe,
            forall|i: int| 1 <= i < seeds@.len() ==> #[trigger] seeds@[i] % 2 == 1,
            forall|i: int, j: int| 0 <= i < j < seeds@.len() ==> seeds@[i] < seeds@[j],
            forall|i: int|
                1 <= i < offsets@.len() ==> next_odd_multiple(
                    pos as int,
                    #[trigger] offsets@[i] as int,
                    seeds@[i] as int,
                ),
            forall|i: int| 0 <= i < offsets@.len() ==> (#[trigger] seeds@[i]) * seeds@[i] <= pos_h,
            forall|i: int|
                offsets@.len() <= i < seeds@.len() ==> (#[trigger] seeds@[i]) * seeds@[i] >= pos,
        ensures
            forall|i: int|
                offsets@.len() <= i < seeds@.len() ==> (#[trigger] seeds@[i]) * seeds@[i] > pos_h,
        decreases seeds@.len() - offsets@.len(),
    {
        let k: usize = offsets.len();
        if k >= total {
            break;
        }
        let p: u64 = seeds[k];
        assert(p * p <= 0xffff_fffeint * 0xffff_fffeint) by (nonlinear_arith)
            requires
                0 <= p <= 0xffff_fffe,
        ;
        let square: u64 = p * p;
        if square > pos_h {
            proof {
                assert forall|i: int| k <= i < seeds@.len() implies (#[trigger] seeds@[i])
                    * seeds@[i] > pos_h by {
                    let q = seeds@[i];
                    assert(q * q >= p * p) by (nonlinear_arith)
                        requires
                            q >= p,
                            p >= 0,
                    ;
                }
            }
            break;
        }
        assert(seeds@[k as int] * seeds@[k as int] >= pos);
        offsets.push(square - pos);
        proof {
            if k >= 1 {
                assert(p % 2 == 1);
                let h = (p / 2) as int;
                assert(p * p == 2 * (2 * h * h + 2 * h) + 1) by (nonlinear_arith)
                    requires
                        p == 2 * h + 1,
                ;
                lemma_multiple_divides(p as int, p as int);
            }
        }
    }
}

/// Clears the bit of every odd multiple of a seed, from the seed's square
/// on, within the window that starts at `pos`, and moves each seed's offset
/// on to the next window.
fn cross_out(sieve: &mut Bitset, seeds: &Vec<u64>, offsets: &mut Vec<u64>, pos: u64)
    requires
        old(sieve).wf(),
        old(sieve).spec_size() == S_SIEVE_SIZE,
        old(sieve)@.len() == S_SIEVE_SIZE + 1,
        forall|t: int| 0 <= t <= S_SIEVE_SIZE ==> #[trigger] old(sieve)@[t],
        old(offsets)@.len() <= seeds@.len(),
        pos as int % 2 == 0,
        forall|i: int| 0 <= i < seeds@.len() ==> #[trigger] seeds@[i] <= 0xffff_fffe,
        forall|i: int| 1 <= i < seeds@.len() ==> #[trigger] seeds@[i] % 2 == 1,
        forall|i: int|
            1 <= i < old(offsets)@.len() ==> next_odd_multiple(
                pos as int,
                #[trigger] old(offsets)@[i] as int,
                seeds@[i] as int,
            ),
    ensures
        final(sieve).wf(),
        final(sieve).spec_size() == S_SIEVE_SIZE,
        final(offsets)@.len() == old(offsets)@.len(),
        forall|t: int|
            0 <= t < S_SIEVE_SIZE && (pos + t) % 2 == 1 ==> (#[trigger] final(sieve)@[t] <==> !struck(
                pos + t,
                seeds@,
                final(offsets)@.len() as int,
            )),
        forall|i: int|
            1 <= i < final(offsets)@.len() ==> next_odd_multiple(
                pos + S_SIEVE_SIZE,
                #[trigger] final(offsets)@[i] as int,
                seeds@[i] as int,
            ),
{
    let active: usize = offsets.len();
    let mut i: usize = 1;
    while i < active
        invariant
            1 <= i,
            i <= active || i == 1,
            active == offsets@.len(),
            offsets@.len() <= seeds@.len(),
            pos as int % 2 == 0,
            sieve.wf(),
            sieve.spec_size() == S_SIEVE_SIZE,
            sieve@.len() == S_SIEVE_SIZE + 1,
            forall|k: int| 0 <= k < seeds@.len() ==> #[trigger] seeds@[k] <= 0xffff_fffe,
            forall|k: int| 1 <= k < seeds@.len() ==> #[trigger] seeds@[k] % 2 == 1,
            forall|t: int|
                0 <= t < S_SIEVE_SIZE && (pos + t) % 2 == 1 ==> (#[trigger] sieve@[t] <==> !struck(
                    pos + t,
                    seeds@,
                    i as int,
                )),
            forall|k: int|
                1 <= k < i && k < active ==> next_odd_multiple(
                    pos + S_SIEVE_SIZE,
                    #[trigger] offsets@[k] as int,
                    seeds@[k] as int,
                ),
            forall|k: int|
                i <= k < active ==> next_odd_multiple(
                    pos as int,
                    #[trigger] offsets@[k] as int,
                    seeds@[k] as int,
                ),
        decreases active - i,
    {
        let p: u64 = seeds[i];
        let step: u64 = 2 * p;
        let first: u64 = offsets[i];
        let mut j: u64 = first;
        let ghost before = sieve@;
        while j < S_SIEVE_SIZE
            invariant
                1 <= i < seeds@.len(),
                p == seeds@[i as int],
                1 <= p <= 0xffff_fffe,
                p % 2 == 1,
                step == 2 * p,
                pos as int % 2 == 0,
                first <= j,
                next_odd_multiple(pos as int, first as int, p as int),
                (pos + j) % (p as int) == 0,
                (pos + j) % 2 == 1,
                j == first || j - step < S_SIEVE_SIZE,
                sieve.wf(),
                sieve.spec_size() == S_SIEVE_SIZE,
                sieve@.len() == S_SIEVE_SIZE + 1,
                before.len() == S_SIEVE_SIZE + 1,
                forall|t: int|
                    0 <= t <= S_SIEVE_SIZE ==> (#[trigger] sieve@[t] <==> before[t] && !(first <= t
                        < j && (pos + t) % (p as int) == 0 && (pos + t) % 2 == 1)),
            decreases S_SIEVE_SIZE + step - j,
        {
            sieve.set(j as usize, false);
            proof {
                lemma_multiple_step(pos + j, p as int);
                lemma_multiple_step(pos + j + p, p as int);
                assert forall|t: int| 0 <= t <= S_SIEVE_SIZE implies (#[trigger] sieve@[t]
                    <==> before[t] && !(first <= t < j + step && (pos + t) % (p as int) == 0 && (
                pos + t) % 2 == 1)) by {
                    if j <= t < j + step && (pos + t) % (p as int) == 0 && (pos + t) % 2 == 1 {
                        lemma_odd_multiples_apart(p as int, pos + j, pos + t);
                    }
                }
            }
            j = j + step;
        }
        offsets.set(i, j - S_SIEVE_SIZE);
        proof {
            let pi = p as int;
            assert forall|t: int| 0 <= t < S_SIEVE_SIZE && (pos + t) % 2 == 1 implies (
            #[trigger] sieve@[t] <==> !struck(pos + t, seeds@, i + 1)) by {
                let n = pos + t;
                let hit = n % pi == 0 && pi * pi <= n;
                if hit && t < first {
                    lemma_multiple_step(n, pi);
                    lemma_multiple_step(n + pi, pi);
                    let m = pos + first;
                    if m - 2 * pi >= n {
                        assert(false);
                    }
                    lemma_odd_multiples_apart(pi, n, m);
                }
                if first <= t && n % pi == 0 {
                    assert(pi * pi <= n);
                }
                assert((first <= t < j && n % pi == 0) <==> hit);
                if struck(n, seeds@, i + 1) {
                    let k = choose|k: int|
                        1 <= k < i + 1 && n % (#[trigger] seeds@[k] as int) == 0 && seeds@[k]
                            * seeds@[k] <= n;
                    if k < i {
                        assert(struck(n, seeds@, i as int));
                    }
                }
                if struck(n, seeds@, i as int) {
                    let k = choose|k: int|
                        1 <= k < i && n % (#[trigger] seeds@[k] as int) == 0 && seeds@[k]
                            * seeds@[k] <= n;
                    assert(struck(n, seeds@, i + 1));
                }
                if hit {
                    assert(n % (seeds@[i as int] as int) == 0 && seeds@[i as int] * seeds@[i as int]
                        <= n);
                    assert(struck(n, seeds@, i + 1));
                }
            }
        }
        i = i + 1;
    }
}

/// The odd numbers from three on whose bit is set in the window that starts
/// at `pos` and ends at `pos_h`.
fn collect_window(sieve: &Bitset, pos: u64, pos_h: u64) -> (found: Vec<u64>)
    requires
        sieve.wf(),
        sieve.spec_size() == S_SIEVE_SIZE,
        pos as int % S_SIEVE_SIZE as int == 0,
        pos <= pos_h < pos + S_SIEVE_SIZE,
        forall|t: int|
            0 <= t <= pos_h - pos && (pos + t) % 2 == 1 && pos + t >= 3 ==> (
            #[trigger] sieve@[t] <==> is_prime_number(pos + t)),
    ensures
        found@ == odd_primes_in(pos as int, pos_h + 1),
{
    let mut found: Vec<u64> = Vec::new();
    if pos_h < 3 {
        return found;
    }
    let mut candidate: u64 = if pos == 0 {
        3
    } else {
        pos + 1
    };
    proof {
        lemma_primes_in_step(candidate as int, candidate as int);
        if pos > 0 {
            lemma_primes_in_step(pos as int, pos as int);
            lemma_even_not_prime(pos as int);
        }
    }
    if candidate > pos_h {
        return found;
    }
    loop
        invariant_except_break
            candidate <= pos_h,
            found@ == odd_primes_in(pos as int, candidate as int),
        invariant
            sieve.wf(),
            sieve.spec_size() == S_SIEVE_SIZE,
            pos <= pos_h < pos + S_SIEVE_SIZE,
            3 <= candidate,
            pos <= candidate,
            candidate % 2 == 1,
            forall|t: int|
                0 <= t <= pos_h - pos && (pos + t) % 2 == 1 && pos + t >= 3 ==> (
                #[trigger] sieve@[t] <==> is_prime_number(pos + t)),
        ensures
            found@ == odd_primes_in(pos as int, pos_h + 1),
        decreases pos_h - candidate,
    {
        let t: u64 = candidate - pos;
        let bit: bool = sieve.read(t as usize);
        proof {
            assert(sieve@[t as int] <==> is_prime_number(pos + t));
            let from: int = if pos <= 3 {
                3
            } else {
                pos as int
            };
            lemma_primes_in_step(from, candidate as int);
            lemma_primes_in_step(from, candidate + 1);
            lemma_even_not_prime(candidate + 1);
        }
        if bit {
            found.push(candidate);
        }
        if pos_h - candidate < 2 {
            break;
        }
        candidate = candidate + 2;
    }
    found
}

/// A segmented sieve over `[0, max]` that has worked through a whole number
/// of windows.
///
/// The seeding primes, those up to the square root of the bound, are found
/// once, when the sieve is made, by the plain sieve of Eratosthenes. Besides
/// them the sieve holds one window of bits and one offset per seed in use,
/// so its memory does not depend on how far it has come.
pub struct SegmentedSieve {
    max: u64,
    limit: u64,
    seeds: Vec<u64>,
    offsets: Vec<u64>,
    sieve: Bitset,
    pos: u64,
    done: bool,
}

impl SegmentedSieve {
    /// The bound of the sieve.
    pub closed spec fn bound(&self) -> int {
        self.max as int
    }

    /// The first number that no window has covered yet; `bound() + 1` once
    /// the sieve has finished.
    pub closed spec fn frontier(&self) -> int {
        if self.done {
            self.max + 1
        } else {
            self.pos as int
        }
    }

    /// The invariant that holds between windows.
    pub closed spec fn wf(&self) -> bool {
        &&& self.sieve.wf()
        &&& self.sieve.spec_size() == S_SIEVE_SIZE
        &&& seeds_cover(self.seeds@, self.limit as int, self.max as int)
        &&& self.offsets@.len() <= self.seeds@.len()
        &&& !self.done ==> {
            &&& self.pos <= self.max
            &&& self.pos as int % S_SIEVE_SIZE as int == 0
            &&& forall|i: int|
                1 <= i < self.offsets@.len() ==> next_odd_multiple(
                    self.pos as int,
                    #[trigger] self.offsets@[i] as int,
                    self.seeds@[i] as int,
                )
            &&& forall|i: int|
                0 <= i < self.offsets@.len() ==> (#[trigger] self.seeds@[i]) * self.seeds@[i]
                    < self.pos
            &&& forall|i: int|
                self.offsets@.len() <= i < self.seeds@.len() ==> (#[trigger] self.seeds@[i])
                    * self.seeds@[i] >= self.pos
        }
    }

    /// A sieve over `[0, max]` that has not covered any window yet.
    pub fn new(max: u64) -> (s: SegmentedSieve)
        ensures
            s.wf(),
            s.bound() == max,
            s.frontier() == 0,
    {
        let root: u64 = isqrt(max);
        let limit: u64 = if root >= 0xffff_ffff {
            0xffff_fffe
        } else {
            root
        };
        let seeds = eratosthenes(limit);
        let s = SegmentedSieve {
            max,
            limit,
            seeds,
            offsets: Vec::new(),
            sieve: Bitset::new(S_SIEVE_SIZE as usize),
            pos: 0,
            done: false,
        };
        proof {
            assert forall|i: int| 0 <= i < s.seeds@.len() implies (#[trigger] s.seeds@[i])
                * s.seeds@[i] >= 0 by {
                assert(s.seeds@[i] * s.seeds@[i] >= 0) by (nonlinear_arith);
            }
            assert forall|q: int| is_prime_number(q) && q * q <= max implies q <= limit by {
                assert(q <= root) by (nonlinear_arith)
                    requires
                        q * q <= max,
                        max < (root + 1) * (root + 1),
                        q >= 0,
                        root >= 0,
                ;
                if q == 0xffff_ffff {
                    assert(q % 3 == 0);
                }
            }
        }
        s
    }

    /// Whether every window up to the bound has been covered.
    pub fn finished(&self) -> (done: bool)
        requires
            self.wf(),
        ensures
            done == (self.frontier() > self.bound()),
    {
        self.done
    }

    /// Sieves the next window and returns the odd primes in it, in
    /// ascending order.
    ///
    /// A window is `S_SIEVE_SIZE` numbers wide and ends early at the bound.
    /// The prime two is never among the primes returned.
    pub fn next_window(&mut self) -> (found: Vec<u64>)
        requires
            old(self).wf(),
            old(self).frontier() <= old(self).bound(),
        ensures
            final(self).wf(),
            final(self).bound() == old(self).bound(),
            final(self).frontier() == if old(self).frontier() + S_SIEVE_SIZE <= old(self).bound() {
                old(self).frontier() + S_SIEVE_SIZE
            } else {
                old(self).bound() + 1
            },
            found@ == odd_primes_in(old(self).frontier(), final(self).frontier()),
    {
        let pos: u64 = self.pos;
        let max: u64 = self.max;
        let pos_h: u64 = if max - pos < S_SIEVE_SIZE {
            max
        } else {
            pos + (S_SIEVE_SIZE - 1)
        };
        proof {
            self.sieve.lemma_view_len();
            lemma_seeds(self.seeds@, self.limit as int, self.max as int);
            assert forall|i: int| 0 <= i < self.offsets@.len() implies (#[trigger] self.seeds@[i])
                * self.seeds@[i] <= pos_h by {}
        }
        self.sieve.one();
        activate_seeds(&self.seeds, &mut self.offsets, pos, pos_h);
        cross_out(&mut self.sieve, &self.seeds, &mut self.offsets, pos);
        proof {
            self.sieve.lemma_view_len();
            let active = self.offsets@.len() as int;
            assert forall|t: int|
                0 <= t <= pos_h - pos && (pos + t) % 2 == 1 && pos + t >= 3 implies (
            #[trigger] self.sieve@[t] <==> is_prime_number(pos + t)) by {
                lemma_struck_iff_composite(
                    pos + t,
                    self.seeds@,
                    active,
                    self.limit as int,
                    max as int,
                    pos_h as int,
                );
            }
        }
        let found = collect_window(&self.sieve, pos, pos_h);
        if pos_h == max {
            self.done = true;
        } else {
            self.pos = pos_h + 1;
        }
        found
    }
}

/// The primes in `[1, max]` by the segmented sieve of Eratosthenes.
///
/// The prime two is put first, by hand; the windows of the sieve supply the
/// odd primes.
pub fn segmented_eratosthenes(max: u64) -> (primes: Vec<u64>)
    ensures
        primes@ == primes_upto(max as int),
{
    let mut primes: Vec<u64> = Vec::new();
    proof {
        lemma_primes_below_three();
    }
    if max < 2 {
        proof {
            crate::prime_list::lemma_primes_below_prefix(max + 1, 2);
            assert(primes_upto(max as int) =~= Seq::<u64>::empty());
        }
        return primes;
    }
    primes.push(2);
    let mut sieve = SegmentedSieve::new(max);
    proof {
        assert(primes@ =~= primes_below(3) + odd_primes_in(0, 0));
    }
    while !sieve.finished()
        invariant
            max >= 2,
            sieve.wf(),
            sieve.bound() == max,
            0 <= sieve.frontier() <= max + 1,
            primes@ == primes_below(3) + odd_primes_in(0, sieve.frontier()),
        decreases max + 1 - sieve.frontier(),
    {
        let ghost before = sieve.frontier();
        let mut found = sieve.next_window();
        primes.append(&mut found);
        proof {
            lemma_odd_primes_in_concat(0, before, sieve.frontier());
            assert(primes@ =~= primes_below(3) + (odd_primes_in(0, before) + odd_primes_in(
                before,
                sieve.frontier(),
            )));
        }
    }
    proof {
        lemma_primes_in_split(3, max + 1);
    }
    primes
}

/// The only prime below three is two.
pub proof fn lemma_primes_below_three()
    ensures
        primes_below(3) == seq![2u64],
        primes_below(2) == Seq::<u64>::empty(),
{
    reveal_with_fuel(primes_below, 4);
    assert(is_prime_number(2));
    assert(primes_below(3) =~= seq![2u64]);
    assert(primes_below(2) =~= Seq::<u64>::empty());
}

/// The odd primes of two adjoining ranges, one list after the other, are
/// the odd primes of the whole range.
pub proof fn lemma_odd_primes_in_concat(a: int, b: int, c: int)
    requires
        0 <= a <= b <= c,
    ensures
        odd_primes_in(a, c) == odd_primes_in(a, b) + odd_primes_in(b, c),
{
    let lo = if a <= 3 {
        3
    } else {
        a
    };
    if c <= 3 {
        assert(odd_primes_in(a, c) =~= odd_primes_in(a, b) + odd_primes_in(b, c));
    } else if b <= 3 {
        assert(odd_primes_in(a, c) =~= odd_primes_in(a, b) + odd_primes_in(b, c));
    } else {
        crate::prime_list::lemma_primes_below_prefix(lo, b);
        crate::prime_list::lemma_primes_below_prefix(b, c);
        crate::prime_list::lemma_primes_below_prefix(lo, c);
        assert(primes_in(lo, c) =~= primes_in(lo, b) + primes_in(b, c));
    }
}

} // verus!
