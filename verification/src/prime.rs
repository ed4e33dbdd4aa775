//! Prime sieves, a primality test and factorisation by trial division.

use vstd::prelude::*;
use crate::arith::{
    is_prime_number, is_sqrt_floor, isqrt, lemma_divides_multiple, lemma_divides_transitive,
    lemma_divisor_bounds, lemma_multiple_divides, lemma_multiple_step, lemma_multiples_apart,
    lemma_prime_divisor_exists, lemma_prime_from_small_divisors,
};
use crate::atkin::{atkin_list, parity_criterion};
use crate::factorization::{
    is_prime_factorization, lemma_prime_factors, lemma_product_concat, lemma_product_single,
    prime_factors,
};
use crate::prime_list::{
    lemma_even_not_prime, lemma_primes_below, lemma_primes_below_prefix, lemma_primes_in_split,
    primes_below, primes_upto,
};
use crate::segmented::{lemma_odd_primes_in_concat, lemma_primes_below_three, odd_primes_in};
pub use crate::atkin::atkin;
pub use crate::bitset::Bitset;
pub use crate::segmented::{S_SIEVE_SIZE, SegmentedSieve, segmented_eratosthenes};

verus! {

/// Whether `value` is a prime number.
///
/// After the small cases and the multiples of two and three, only
/// candidates of the form `6k - 1` and `6k + 1` up to the square root of
/// `value` are tried as divisors.
pub fn is_prime(value: u64) -> (prime: bool)
    ensures
        prime == is_prime_number(value as int),
{
    if value < 2 {
        return false;
    }
    if value < 4 {
        assert(is_prime_number(value as int)) by {
            assert(3int % 2 != 0);
        }
        return true;
    }
    if value % 2 == 0 || value % 3 == 0 {
        return false;
    }
    let root: u64 = isqrt(value);
    let max_fac: u64 = root + 1;
    let mut test_fac: u64 = 5;
    proof {
        if value as int % 4 == 0 {
            lemma_divides_transitive(2, 4, value as int);
        }
    }
    while test_fac <= max_fac
        invariant
            value >= 5,
            value % 2 != 0,
            value % 3 != 0,
            is_sqrt_floor(root as int, value as int),
            max_fac == root + 1,
            root <= 0xffff_ffff,
            5 <= test_fac <= max_fac + 6,
            test_fac % 6 == 5,
            forall|d: int| 2 <= d < test_fac && d < value ==> #[trigger] (value as int % d) != 0,
        decreases max_fac + 6 - test_fac,
    {
        assert(root >= 4 && test_fac + 2 < value) by (nonlinear_arith)
            requires
                5 <= test_fac <= root + 1,
                root * root <= value,
        ;
        if value % test_fac == 0 || value % (test_fac + 2) == 0 {
            return false;
        }
        proof {
            let v = value as int;
            let t = test_fac as int;
            assert forall|d: int| 2 <= d < t + 6 && d < v implies #[trigger] (v % d) != 0 by {
                if d >= t && v % d == 0 {
                    if d % 2 == 0 {
                        lemma_divides_transitive(2, d, v);
                    } else if d % 3 == 0 {
                        lemma_divides_transitive(3, d, v);
                    }
                }
            }
        }
        test_fac = test_fac + 6;
    }
    proof {
        let v = value as int;
        assert forall|d: int| 2 <= d && d * d <= v implies #[trigger] (v % d) != 0 by {
            assert(d <= root && d < v) by (nonlinear_arith)
                requires
                    2 <= d,
                    d * d <= v,
                    v < (root + 1) * (root + 1),
                    root >= 0,
            ;
        }
        lemma_prime_from_small_divisors(v);
    }
    true
}

/// Clears the bit of every multiple of `step` from `start` up to `max`.
pub(crate) fn clear_multiples(sieve: &mut Bitset, max: u64, start: u64, step: u64)
    requires
        old(sieve).wf(),
        max <= old(sieve).spec_size(),
        0 < step <= start <= max,
        start as int % step as int == 0,
    ensures
        final(sieve).wf(),
        final(sieve).spec_size() == old(sieve).spec_size(),
        final(sieve)@.len() == old(sieve)@.len(),
        forall|n: int|
            0 <= n < final(sieve)@.len() ==> (#[trigger] final(sieve)@[n] <==> old(sieve)@[n] && !(
            start <= n <= max && n % step as int == 0)),
{
    let ghost before = sieve@;
    proof {
        sieve.lemma_view_len();
    }
    let mut k: u64 = start;
    loop
        invariant_except_break
            k <= max,
            forall|n: int|
                0 <= n < before.len() ==> (#[trigger] sieve@[n] <==> before[n] && !(start <= n < k
                    && n % step as int == 0)),
        invariant
            0 < step <= start <= k,
            max <= sieve.spec_size(),
            max <= usize::MAX,
            k as int % step as int == 0,
            sieve.wf(),
            sieve.spec_size() == old(sieve).spec_size(),
            sieve@.len() == before.len(),
            before.len() == sieve.spec_size() + 1,
        ensures
            forall|n: int|
                0 <= n < before.len() ==> (#[trigger] sieve@[n] <==> before[n] && !(start <= n
                    <= max && n % step as int == 0)),
        decreases max - k,
    {
        sieve.set(k as usize, false);
        proof {
            assert forall|n: int| 0 <= n < before.len() implies (#[trigger] sieve@[n] <==> before[n]
                && !(start <= n < k + step && n % step as int == 0)) by {
                if n % step as int == 0 && k <= n < k + step {
                    lemma_multiples_apart(n, k as int, step as int);
                }
            }
            lemma_multiple_step(k as int, step as int);
        }
        if max - k < step {
            break;
        }
        k = k + step;
    }
}

/// The primes in `[1, max]` by the plain sieve of Eratosthenes.
pub fn eratosthenes(max: u64) -> (primes: Vec<u64>)
    requires
        max < usize::MAX,
    ensures
        primes@ == primes_upto(max as int),
{
    let mut primes: Vec<u64> = Vec::new();
    if max == 0 {
        reveal_with_fuel(primes_below, 2);
        assert(primes_below(1) =~= Seq::<u64>::empty());
        return primes;
    }
    let size: usize = (max + 1) as usize;
    let mut sieve = Bitset::new(size);
    sieve.one();
    reveal_with_fuel(primes_below, 3);
    assert(primes_below(2) =~= Seq::<u64>::empty());
    let mut pos: u64 = 2;
    while pos <= max
        invariant
            1 <= max < usize::MAX,
            2 <= pos <= max + 1,
            sieve.wf(),
            sieve.spec_size() == max + 1,
            sieve@.len() == max + 2,
            primes@ == primes_below(pos as int),
            forall|n: int|
                pos <= n <= max ==> (#[trigger] sieve@[n] <==> forall|d: int|
                    2 <= d < pos && d < n ==> #[trigger] (n % d) != 0),
        decreases max + 1 - pos,
    {
        let marked: bool = sieve.read(pos as usize);
        if marked {
            assert(is_prime_number(pos as int));
            primes.push(pos);
            if pos <= max - pos {
                proof {
                    lemma_multiple_divides(pos as int, 2);
                }
                clear_multiples(&mut sieve, max, pos * 2, pos);
            }
            proof {
                assert forall|n: int| pos + 1 <= n <= max implies (#[trigger] sieve@[n] <==> forall|
                    d: int,
                | 2 <= d < pos + 1 && d < n ==> #[trigger] (n % d) != 0) by {
                    if n % pos as int == 0 {
                        lemma_divisor_bounds(pos as int, n);
                        assert(2 * pos <= n) by (nonlinear_arith)
                            requires
                                n == (n / pos as int) * pos,
                                n > pos,
                                pos > 0,
                        ;
                    }
                }
            }
        } else {
            proof {
                let d = choose|d: int| 2 <= d < pos && #[trigger] (pos as int % d) == 0;
                assert(!is_prime_number(pos as int));
                assert forall|n: int| pos + 1 <= n <= max implies (#[trigger] sieve@[n] <==> forall|
                    e: int,
                | 2 <= e < pos + 1 && e < n ==> #[trigger] (n % e) != 0) by {
                    if n % pos as int == 0 {
                        lemma_divides_transitive(d, pos as int, n);
                    }
                }
            }
        }
        pos = pos + 1;
    }
    primes
}

/// The list that `prime_sieve` yields for `max`: that of the sieve of Atkin
/// below the window width of the segmented sieve, and the primes up to
/// `max` from there on.
pub open spec fn prime_sieve_list(max: int) -> Seq<u64> {
    if max < S_SIEVE_SIZE {
        atkin_list(max)
    } else {
        primes_upto(max)
    }
}

/// The primes in `[1, max]`, by the sieve of Atkin for a `max` below
/// `S_SIEVE_SIZE` and by the segmented sieve of Eratosthenes from there on.
pub fn prime_sieve(max: u64) -> (primes: Vec<u64>)
    ensures
        primes@ == prime_sieve_list(max as int),
        max < 2 ==> primes@.len() == 0,
        forall|i: int| 0 <= i < primes@.len() ==> 2 <= #[trigger] primes@[i] <= max,
        forall|i: int, j: int| 0 <= i < j < primes@.len() ==> primes@[i] < primes@[j],
        max >= S_SIEVE_SIZE || parity_criterion(max as int) ==> primes@ == primes_upto(max as int),
{
    if max < S_SIEVE_SIZE {
        return atkin(max);
    }
    proof {
        lemma_primes_below(max + 1);
    }
    segmented_eratosthenes(max)
}

/// Calling `prime_sieve` again with the same bound yields the same list: two
/// lists that both meet the contract of `prime_sieve` for `max` are equal,
/// entry by entry.
pub proof fn lemma_prime_sieve_repeatable(first: Seq<u64>, second: Seq<u64>, max: int)
    requires
        first == prime_sieve_list(max),
        second == prime_sieve_list(max),
    ensures
        first == second,
        first.len() == second.len(),
        forall|i: int| 0 <= i < first.len() ==> first[i] == second[i],
{
}

/// The list of the primes up to `max`, which `eratosthenes` and
/// `segmented_eratosthenes` yield, and `prime_sieve` from `S_SIEVE_SIZE` on,
/// holds a number `n` up to `max` if and only if `n` is prime, which is to
/// say if and only if `is_prime` accepts it.
pub proof fn lemma_sieve_agrees_with_is_prime(max: int, n: int)
    requires
        0 <= n <= max <= u64::MAX,
    ensures
        primes_upto(max).contains(n as u64) <==> is_prime_number(n),
        max >= S_SIEVE_SIZE ==> (prime_sieve_list(max).contains(n as u64) <==> is_prime_number(n)),
{
    lemma_primes_below(max + 1);
    if primes_upto(max).contains(n as u64) {
        let i = choose|i: int| 0 <= i < primes_upto(max).len() && primes_upto(max)[i] == n as u64;
        assert(is_prime_number(primes_upto(max)[i] as int));
    }
}

/// The factors that trial division of `value` finds from position `k` of
/// `primes` on. Each number of the list, in the order of the list, is divided
/// out as often as it goes; the search ends at the first number that is
/// greater than what is left when its turn comes. `fresh` says that the turn
/// of `primes[k]` has just come.
pub open spec fn trial_division_from(value: int, primes: Seq<u64>, k: int, fresh: bool) -> Seq<
    u64,
>
    decreases primes.len() - k, value,
    via trial_division_decreases
{
    if k < 0 || k >= primes.len() || value < 1 || (fresh && primes[k] > value) {
        Seq::empty()
    } else if primes[k] >= 2 && value % (primes[k] as int) == 0 {
        seq![primes[k]] + trial_division_from(value / (primes[k] as int), primes, k, false)
    } else {
        trial_division_from(value, primes, k + 1, true)
    }
}

#[via_fn]
proof fn trial_division_decreases(value: int, primes: Seq<u64>, k: int, fresh: bool) {
    if 0 <= k < primes.len() && value >= 1 && primes[k] >= 2 && value % (primes[k] as int) == 0 {
        lemma_divisor_bounds(primes[k] as int, value);
        let p = primes[k] as int;
        let rest = value / p;
        assert(rest < value) by (nonlinear_arith)
            requires
                rest * p == value,
                p >= 2,
                rest >= 1,
        ;
    }
}

/// The factors that trial division of `value` by the numbers in `primes`
/// finds; nothing for zero and one.
pub open spec fn trial_division(value: int, primes: Seq<u64>) -> Seq<u64> {
    if value <= 1 {
        Seq::empty()
    } else {
        trial_division_from(value, primes, 0, true)
    }
}

/// `primes` is a strictly ascending list of primes that holds every prime up
/// to `bound`.
pub open spec fn primes_cover(primes: Seq<u64>, bound: int) -> bool {
    &&& forall|i: int| 0 <= i < primes.len() ==> is_prime_number(#[trigger] primes[i] as int)
    &&& forall|i: int, j: int| 0 <= i < j < primes.len() ==> primes[i] < primes[j]
    &&& forall|q: int|
        is_prime_number(q) && q <= bound ==> exists|i: int|
            0 <= i < primes.len() && #[trigger] primes[i] == q
}

/// Trial division by a list that holds every prime divisor of `value` from
/// position `k` on yields the prime factorisation of `value`.
pub proof fn lemma_trial_division_from(value: int, primes: Seq<u64>, k: int, fresh: bool)
    requires
        value >= 1,
        0 <= k <= primes.len(),
        forall|i: int| 0 <= i < primes.len() ==> is_prime_number(#[trigger] primes[i] as int),
        forall|i: int, j: int| 0 <= i < j < primes.len() ==> primes[i] < primes[j],
        forall|q: int|
            is_prime_number(q) && value % q == 0 ==> exists|i: int|
                k <= i < primes.len() && #[trigger] primes[i] == q,
    ensures
        is_prime_factorization(trial_division_from(value, primes, k, fresh), value),
        forall|i: int|
            0 <= i < trial_division_from(value, primes, k, fresh).len() ==> k < primes.len()
                && #[trigger] trial_division_from(value, primes, k, fresh)[i] >= primes[k],
    decreases primes.len() - k, value,
{
    let out = trial_division_from(value, primes, k, fresh);
    if k >= primes.len() || (fresh && primes[k] > value) {
        if value >= 2 {
            let q = lemma_prime_divisor_exists(value);
            let i = choose|i: int| k <= i < primes.len() && #[trigger] primes[i] == q;
            assert(primes[k] <= primes[i]);
        }
    } else {
        let p = primes[k] as int;
        assert(is_prime_number(p));
        if value % p == 0 {
            lemma_divisor_bounds(p, value);
            let rest = value / p;
            assert(rest < value) by (nonlinear_arith)
                requires
                    rest * p == value,
                    p >= 2,
                    rest >= 1,
            ;
            assert forall|q: int| is_prime_number(q) && rest % q == 0 implies exists|i: int|
                k <= i < primes.len() && #[trigger] primes[i] == q by {
                lemma_divides_multiple(q, rest, p);
            }
            lemma_trial_division_from(rest, primes, k, false);
            let tail = trial_division_from(rest, primes, k, false);
            lemma_product_concat(seq![primes[k]], tail);
            lemma_product_single(primes[k]);
            assert(p * rest == value) by (nonlinear_arith)
                requires
                    rest * p == value,
            ;
            assert forall|i: int, j: int| 0 <= i <= j < out.len() implies out[i] <= out[j] by {
                if i > 0 {
                    assert(out[i] == tail[i - 1]);
                    assert(out[j] == tail[j - 1]);
                } else if j > 0 {
                    assert(out[j] == tail[j - 1]);
                }
            }
            assert forall|i: int| 0 <= i < out.len() implies is_prime_number(
                #[trigger] out[i] as int,
            ) && out[i] >= primes[k] by {
                if i > 0 {
                    assert(out[i] == tail[i - 1]);
                }
            }
        } else {
            assert forall|q: int| is_prime_number(q) && value % q == 0 implies exists|i: int|
                k + 1 <= i < primes.len() && #[trigger] primes[i] == q by {
                let i = choose|i: int| k <= i < primes.len() && #[trigger] primes[i] == q;
                assert(i != k);
            }
            lemma_trial_division_from(value, primes, k + 1, true);
            assert forall|i: int| 0 <= i < out.len() implies #[trigger] out[i] >= primes[k] by {
                assert(out[i] >= primes[k + 1]);
            }
        }
    }
}

/// Trial division of a number at least two by a list of primes that holds
/// every prime up to that number yields its prime factorisation.
pub proof fn lemma_trial_division(value: int, primes: Seq<u64>)
    requires
        value >= 2,
        primes_cover(primes, value),
    ensures
        is_prime_factorization(trial_division(value, primes), value),
{
    assert forall|q: int| is_prime_number(q) && value % q == 0 implies exists|i: int|
        0 <= i < primes.len() && #[trigger] primes[i] == q by {
        lemma_divisor_bounds(q, value);
    }
    lemma_trial_division_from(value, primes, 0, true);
}

/// The primes up to a bound cover that bound.
pub proof fn lemma_primes_upto_cover(bound: int)
    requires
        bound <= u64::MAX,
    ensures
        primes_cover(primes_upto(bound), bound),
{
    lemma_primes_below(bound + 1);
    let list = primes_upto(bound);
    assert forall|q: int| is_prime_number(q) && q <= bound implies exists|i: int|
        0 <= i < list.len() && #[trigger] list[i] == q by {
        assert(list.contains(q as u64));
        let i = choose|i: int| 0 <= i < list.len() && list[i] == q as u64;
        assert(list[i] == q);
    }
}

/// The factors of `value` by trial division with the numbers in `primes`,
/// taken in the order of the list.
///
/// With a list that holds, in ascending order, every prime up to `value`,
/// the result is the prime factorisation of `value`.
pub fn factorize_wp(value: u64, primes: &[u64]) -> (factors: Vec<u64>)
    requires
        forall|i: int| 0 <= i < primes@.len() ==> #[trigger] primes@[i] >= 2,
    ensures
        factors@ == trial_division(value as int, primes@),
        value <= 1 ==> factors@.len() == 0,
        value >= 2 && primes_cover(primes@, value as int) ==> is_prime_factorization(
            factors@,
            value as int,
        ) && factors@ == prime_factors(value as int),
{
    let mut factors: Vec<u64> = Vec::new();
    if value <= 1 {
        return factors;
    }
    proof {
        if primes_cover(primes@, value as int) {
            lemma_trial_division(value as int, primes@);
            lemma_prime_factors(trial_division(value as int, primes@), value as int);
        }
    }
    let ghost target = trial_division_from(value as int, primes@, 0, true);
    let mut rest: u64 = value;
    let mut k: usize = 0;
    assert(factors@ + trial_division_from(rest as int, primes@, 0, true) =~= target);
    while k < primes.len()
        invariant
            0 <= k <= primes@.len(),
            rest >= 1,
            forall|i: int| 0 <= i < primes@.len() ==> #[trigger] primes@[i] >= 2,
            factors@ + trial_division_from(rest as int, primes@, k as int, true) == target,
        ensures
            factors@ == target,
        decreases primes@.len() - k,
    {
        let p: u64 = primes[k];
        if p > rest {
            assert(factors@ + Seq::<u64>::empty() =~= factors@);
            break;
        }
        let ghost mut fresh = true;
        while rest % p == 0
            invariant
                0 <= k < primes@.len(),
                p == primes@[k as int],
                p >= 2,
                rest >= 1,
                fresh ==> p <= rest,
                factors@ + trial_division_from(rest as int, primes@, k as int, fresh) == target,
            decreases rest,
        {
            proof {
                lemma_divisor_bounds(p as int, rest as int);
                let after = trial_division_from(rest as int / p as int, primes@, k as int, false);
                fresh = false;
                assert(factors@.push(p) + after =~= factors@ + (seq![p] + after));
                assert(rest / p < rest) by (nonlinear_arith)
                    requires
                        (rest / p) * p == rest,
                        p >= 2,
                        rest >= 1,
                ;
            }
            factors.push(p);
            rest = rest / p;
        }
        k = k + 1;
    }
    proof {
        if k >= primes@.len() {
            assert(factors@ + Seq::<u64>::empty() =~= factors@);
        }
    }
    factors
}

/// The factors of `value` by trial division with the list of `prime_sieve`
/// for `value`.
///
/// From `S_SIEVE_SIZE` on, where the list is that of the segmented sieve,
/// the result is the prime factorisation of `value`. Below, where the list
/// is that of the sieve of Atkin, it is so under the criterion on which
/// that sieve rests.
pub fn factorize(value: u64) -> (factors: Vec<u64>)
    ensures
        factors@ == trial_division(value as int, prime_sieve_list(value as int)),
        value <= 1 ==> factors@.len() == 0,
        value >= 2 && prime_sieve_list(value as int) == primes_upto(value as int)
            ==> is_prime_factorization(factors@, value as int),
        value >= 2 && (value >= S_SIEVE_SIZE || parity_criterion(value as int)) ==> factors@
            == prime_factors(value as int),
{
    let primes = prime_sieve(value);
    proof {
        lemma_primes_upto_cover(value as int);
    }
    factorize_wp(value, primes.as_slice())
}

/// The smallest prime greater than `n`, if there is one that fits the
/// integer type.
///
/// The search runs through the odd numbers after `n`.
pub fn next_prime_checked(n: u64) -> (found: Option<u64>)
    ensures
        match found {
            Some(p) => is_prime_number(p as int) && n < p && forall|q: int|
                n < q < p ==> !is_prime_number(q),
            None => forall|q: int| n < q <= u64::MAX ==> !is_prime_number(q),
        },
{
    if n == 0 || n == 1 {
        assert(is_prime_number(2));
        return Some(2);
    }
    let mut cur: u64 = n;
    if cur % 2 == 0 {
        cur = cur + 1;
        if is_prime(cur) {
            return Some(cur);
        }
    }
    loop
        invariant
            n <= cur,
            cur >= 3,
            cur % 2 == 1,
            forall|q: int| n < q <= cur ==> !is_prime_number(q),
        decreases u64::MAX - cur,
    {
        if u64::MAX - cur < 2 {
            return None;
        }
        cur = cur + 2;
        proof {
            lemma_even_not_prime(cur - 1);
        }
        if is_prime(cur) {
            return Some(cur);
        }
    }
}

/// The smallest prime greater than `n`.
///
/// There must be a prime greater than `n` that fits the integer type.
pub fn next_prime(n: u64) -> (p: u64)
    requires
        exists|q: int| is_prime_number(q) && n < q <= u64::MAX,
    ensures
        is_prime_number(p as int),
        n < p,
        forall|q: int| n < q < p ==> !is_prime_number(q),
{
    match next_prime_checked(n) {
        Some(p) => p,
        None => {
            proof {
                let q = choose|q: int| is_prime_number(q) && n < q <= u64::MAX;
                assert(!is_prime_number(q));
            }
            vstd::pervasive::unreached()
        },
    }
}

/// The prime with index `n` in the ascending list of all primes, counted
/// from zero.
pub open spec fn nth_prime_number(n: int) -> int {
    primes_upto(u64::MAX as int)[n] as int
}

/// An upper estimate of the prime with index `n`: the number of primes
/// sought times an upper estimate of `ln k + ln ln k`, capped at the
/// largest value of the integer type.
fn nth_prime_estimate(n: u64) -> (bound: u64)
    ensures
        bound >= 64,
{
    let k: u128 = n as u128 + 1;
    let ln: u128 = bit_length(k) * 7 / 10 + 1;
    let lnln: u128 = bit_length(ln) * 7 / 10 + 1;
    let factor: u128 = ln + lnln;
    assert(k * factor <= 0x1_0000_0000_0000_0000int * 400) by (nonlinear_arith)
        requires
            0 <= k <= 0x1_0000_0000_0000_0000,
            0 <= factor <= 400,
    ;
    let estimate: u128 = k * factor;
    if estimate > u64::MAX as u128 {
        u64::MAX
    } else if estimate < 64 {
        64
    } else {
        estimate as u64
    }
}

/// The number of binary digits of `k`.
fn bit_length(k: u128) -> (bits: u128)
    ensures
        bits == bit_length_of(k as int),
        bits <= 128,
{
    proof {
        vstd::arithmetic::power2::lemma2_to64();
        vstd::arithmetic::power2::lemma_pow2_adds(64, 64);
        assert(0x1_0000_0000_0000_0000int * 0x1_0000_0000_0000_0000int > u128::MAX);
        lemma_bit_length_bound(k as int, 128);
    }
    let mut bits: u128 = 0;
    let mut rest: u128 = k;
    while rest > 0
        invariant
            0 <= bit_length_of(rest as int),
            bits + bit_length_of(rest as int) == bit_length_of(k as int),
            bit_length_of(k as int) <= 128,
        decreases rest,
    {
        proof {
            lemma_bit_length_nonnegative(rest as int / 2);
        }
        rest = rest / 2;
        bits = bits + 1;
    }
    bits
}

/// The number of binary digits of `k`: none for zero, and one more than
/// for half of `k` otherwise.
pub open spec fn bit_length_of(k: int) -> int
    decreases k,
{
    if k <= 0 {
        0
    } else {
        1 + bit_length_of(k / 2)
    }
}

/// A number below the `n`th power of two has at most `n` binary digits.
proof fn lemma_bit_length_bound(k: int, n: nat)
    requires
        0 <= k < vstd::arithmetic::power2::pow2(n),
    ensures
        0 <= bit_length_of(k) <= n,
    decreases n,
{
    if k > 0 {
        vstd::arithmetic::power2::lemma2_to64();
        vstd::arithmetic::power2::lemma_pow2_unfold(n);
        lemma_bit_length_bound(k / 2, (n - 1) as nat);
    }
}

/// The number of binary digits is not negative.
proof fn lemma_bit_length_nonnegative(k: int)
    ensures
        bit_length_of(k) >= 0,
    decreases k,
{
    if k > 0 {
        lemma_bit_length_nonnegative(k / 2);
    }
}

/// The prime with index `n`, counted from zero, if it fits the integer
/// type: `nth_prime_checked(0)` is two.
///
/// The segmented sieve runs up to an estimate of the prime sought, and
/// again with the estimate doubled as long as the prime was not reached.
pub fn nth_prime_checked(n: u64) -> (found: Option<u64>)
    ensures
        match found {
            Some(p) => n < primes_upto(u64::MAX as int).len() && p == nth_prime_number(n as int),
            None => n >= primes_upto(u64::MAX as int).len(),
        },
{
    proof {
        lemma_primes_below_three();
        lemma_primes_below_prefix(3, u64::MAX + 1);
        if n == 0 {
            assert(primes_below(u64::MAX + 1).subrange(0, 1)[0] == 2);
        }
    }
    if n == 0 {
        return Some(2);
    }
    let mut bound: u64 = nth_prime_estimate(n);
    loop
        invariant
            bound >= 64,
            1 <= n,
        decreases u64::MAX - bound,
    {
        let mut sieve = SegmentedSieve::new(bound);
        let mut count: u64 = 1;
        let ghost mut seen: Seq<u64> = primes_below(3);
        proof {
            lemma_primes_below_three();
            assert(seen =~= primes_below(3) + odd_primes_in(0, 0));
        }
        while !sieve.finished()
            invariant
                bound >= 64,
                sieve.wf(),
                sieve.bound() == bound,
                0 <= sieve.frontier() <= bound + 1,
                seen == primes_below(3) + odd_primes_in(0, sieve.frontier()),
                count == seen.len(),
                count <= n,
            decreases bound + 1 - sieve.frontier(),
        {
            let ghost before = sieve.frontier();
            let found = sieve.next_window();
            proof {
                let after = sieve.frontier();
                lemma_odd_primes_in_concat(0, before, after);
                assert(seen + found@ =~= primes_below(3) + odd_primes_in(0, after));
                assert(after >= 64);
                lemma_primes_in_split(3, after);
                lemma_primes_below_prefix(after, u64::MAX + 1);
                if n - count < found@.len() {
                    let upto = primes_below(after);
                    assert(upto == seen + found@);
                    assert(upto[n as int] == found@[n - count]);
                    assert(primes_below(u64::MAX + 1).subrange(0, upto.len() as int)[n as int]
                        == primes_below(u64::MAX + 1)[n as int]);
                }
                seen = seen + found@;
            }
            if n - count < found.len() as u64 {
                return Some(found[(n - count) as usize]);
            }
            count = count + found.len() as u64;
        }
        proof {
            lemma_primes_in_split(3, bound + 1);
            assert(seen == primes_upto(bound as int));
        }
        if bound == u64::MAX {
            return None;
        }
        bound = if bound > u64::MAX / 2 {
            u64::MAX
        } else {
            bound * 2
        };
    }
}

/// The prime with index `n`, counted from zero: `nth_prime(0)` is two.
///
/// The prime sought must fit the integer type.
pub fn nth_prime(n: u64) -> (p: u64)
    requires
        n < primes_upto(u64::MAX as int).len(),
    ensures
        p == nth_prime_number(n as int),
{
    match nth_prime_checked(n) {
        Some(p) => p,
        None => vstd::pervasive::unreached(),
    }
}

} // verus!
