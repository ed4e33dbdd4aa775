//! The prime-counting function by Lehmer's formula, with a memo table of
//! fixed size for the partial sieve function.

use vstd::prelude::*;
use crate::arith::{
    icbrt, icbrt_of, is_prime_number, isqrt, isqrt_of, lemma_composite_has_small_factor,
    lemma_divides_multiple, lemma_divisor_bounds, lemma_isqrt_exists, lemma_multiple_divides,
    lemma_prime_divisor_exists, lemma_smallest_prime_factor, smallest_prime_factor,
};
use crate::factorization::{lemma_euclid, lemma_prime_divides_prime};
use crate::prime_list::{
    lemma_even_not_prime, lemma_odd_prime, lemma_primes_below, lemma_primes_below_prefix, prime_pi,
    primes_upto,
};
use crate::segmented::segmented_eratosthenes;
use crate::small_primes::{
    lemma_primes_below_100, lemma_primes_below_25, lemma_primes_below_50, lemma_primes_below_75,
};

verus! {

/// The symbol under which the prime-counting function is written out.
pub const PI_SYMBOL: &'static str = "\u{cf}\u{20ac}";

/// The memo table of the partial sieve function holds the values for the
/// arguments below this bound.
pub const CACHE_SIZE: usize = 1024;

/// The number of primes up to `x` for every `x` below one hundred.
pub const SMALL_PI: [u64; 100] = [
    0, 0, 1, 2, 2, 3, 3, 4, 4, 4,
    4, 5, 5, 6, 6, 6, 6, 7, 7, 8,
    8, 8, 8, 9, 9, 9, 9, 9, 9, 10,
    10, 11, 11, 11, 11, 11, 11, 12, 12, 12,
    12, 13, 13, 14, 14, 14, 14, 15, 15, 15,
    15, 15, 15, 16, 16, 16, 16, 16, 16, 17,
    17, 18, 18, 18, 18, 18, 18, 19, 19, 19,
    19, 20, 20, 21, 21, 21, 21, 21, 21, 22,
    22, 22, 22, 23, 23, 23, 23, 23, 23, 24,
    24, 24, 24, 24, 24, 24, 24, 25, 25, 25,
];

/// Every entry of `primes` is at least two.
pub open spec fn proper_divisors(primes: Seq<u64>) -> bool {
    forall|k: int| 0 <= k < primes.len() ==> #[trigger] primes[k] >= 2
}

/// The partial sieve function: the recurrence
/// `phi(m, n) = phi(m, n - 1) - phi(m / p, n - 1)`, where `p` is entry `n` of
/// `primes`, with `phi(m, 0) = m`, `phi(m, 1) = ceil(m / 2)` and
/// `phi(m, n) = 1` for `m` up to `p`. The recurrence is that of the number
/// of integers in `[1, m]` that none of the first `n` primes divides, for
/// `primes` the list of the primes in ascending order. The difference is
/// taken in wrapping arithmetic.
pub open spec fn phi_value(m: u64, n: u64, primes: Seq<u64>) -> u64
    decreases n,
{
    if n == 0 || m == 0 || n > primes.len() {
        m
    } else if n == 1 {
        (m / 2 + m % 2) as u64
    } else if m <= primes[n - 1] {
        1
    } else {
        phi_value(m, (n - 1) as u64, primes).wrapping_sub(
            phi_value(m / primes[n - 1], (n - 1) as u64, primes),
        )
    }
}

/// The position of the first entry of `primes`, from position `k` on, that
/// is greater than `x`; the length of `primes` if there is none.
pub open spec fn first_above(x: u64, primes: Seq<u64>, k: int) -> int
    decreases primes.len() - k,
{
    if k < 0 || k >= primes.len() {
        primes.len() as int
    } else if primes[k] > x {
        k
    } else {
        first_above(x, primes, k + 1)
    }
}

/// The square root of `x`, rounded to the nearest integer.
pub open spec fn round_sqrt(x: u64) -> u64 {
    let r = isqrt_of(x as int);
    if x - r * r > r {
        (r + 1) as u64
    } else {
        r as u64
    }
}

/// The cube root of `x`, rounded to the nearest integer.
pub open spec fn round_cbrt(x: u64) -> u64 {
    let r = icbrt_of(x as int);
    if 8 * x >= (2 * r + 1) * (2 * r + 1) * (2 * r + 1) {
        (r + 1) as u64
    } else {
        r as u64
    }
}

/// The fourth root of `x`, rounded to the nearest integer.
pub open spec fn round_fourth_root(x: u64) -> u64 {
    let r = isqrt_of(isqrt_of(x as int));
    if 16 * x >= (2 * r + 1) * (2 * r + 1) * (2 * r + 1) * (2 * r + 1) {
        (r + 1) as u64
    } else {
        r as u64
    }
}

/// A quotient by a number that is at least two is smaller than the number
/// divided, unless that is zero.
pub proof fn lemma_quotient_smaller(x: u64, p: u64)
    requires
        p >= 2,
    ensures
        x / p <= x,
        x >= 1 ==> x / p < x,
        x >= 1 ==> x / p + 1 <= x,
{
    let q = x as int / p as int;
    vstd::arithmetic::div_mod::lemma_fundamental_div_mod(x as int, p as int);
    assert(q <= x && (x >= 1 ==> q < x)) by (nonlinear_arith)
        requires
            x == p * q + x % p,
            0 <= x % p,
            p >= 2,
            q >= 0,
    ;
}

/// The integer square root of a number does not exceed the number.
pub proof fn lemma_root_at_most(x: u64)
    ensures
        0 <= isqrt_of(x as int) <= x,
        isqrt_of(x as int) <= 0xffff_ffff,
{
    let r = isqrt_of(x as int);
    lemma_isqrt_exists(x);
    assert(r <= x && r <= 0xffff_ffff) by (nonlinear_arith)
        requires
            0 <= r,
            r * r <= x,
            x <= 0xffff_ffff_ffff_ffff,
    ;
}

/// From one hundred on, the rounded roots of a number are smaller than the
/// number.
pub proof fn lemma_roots_smaller(x: u64)
    requires
        x >= 100,
    ensures
        round_sqrt(x) < x,
        round_cbrt(x) < x,
        round_fourth_root(x) < x,
{
    lemma_isqrt_exists(x);
    let r = isqrt_of(x as int);
    assert(r + 1 < x && r <= 0xffff_ffff) by (nonlinear_arith)
        requires
            0 <= r,
            r * r <= x,
            x < (r + 1) * (r + 1),
            100 <= x <= 0xffff_ffff_ffff_ffff,
    ;
    let c = icbrt_of(x as int);
    assert(c + 1 < x) by (nonlinear_arith)
        requires
            0 <= c,
            c * c * c <= x,
            x < (c + 1) * (c + 1) * (c + 1),
            100 <= x,
    ;
    lemma_isqrt_exists(r as u64);
    let f = isqrt_of(r);
    assert(f + 1 < x) by (nonlinear_arith)
        requires
            0 <= f,
            f * f <= r,
            r + 1 < x,
            100 <= x,
    ;
}

/// The table `SMALL_PI` holds the number of primes up to each number below
/// one hundred.
pub proof fn lemma_small_pi(x: int)
    requires
        0 <= x < 100,
    ensures
        SMALL_PI@[x] == prime_pi(x),
{
    lemma_primes_below_25();
    lemma_primes_below_50();
    lemma_primes_below_75();
    lemma_primes_below_100();
    if x == 0 {
        assert(prime_pi(0) == SMALL_PI@[0]);
    } else if x == 1 {
        assert(prime_pi(1) == SMALL_PI@[1]);
    } else if x == 2 {
        assert(prime_pi(2) == SMALL_PI@[2]);
    } else if x == 3 {
        assert(prime_pi(3) == SMALL_PI@[3]);
    } else if x == 4 {
        assert(prime_pi(4) == SMALL_PI@[4]);
    } else if x == 5 {
        assert(prime_pi(5) == SMALL_PI@[5]);
    } else if x == 6 {
        assert(prime_pi(6) == SMALL_PI@[6]);
    } else if x == 7 {
        assert(prime_pi(7) == SMALL_PI@[7]);
    } else if x == 8 {
        assert(prime_pi(8) == SMALL_PI@[8]);
    } else if x == 9 {
        assert(prime_pi(9) == SMALL_PI@[9]);
    } else if x == 10 {
        assert(prime_pi(10) == SMALL_PI@[10]);
    } else if x == 11 {
        assert(prime_pi(11) == SMALL_PI@[11]);
    } else if x == 12 {
        assert(prime_pi(12) == SMALL_PI@[12]);
    } else if x == 13 {
        assert(prime_pi(13) == SMALL_PI@[13]);
    } else if x == 14 {
        assert(prime_pi(14) == SMALL_PI@[14]);
    } else if x == 15 {
        assert(prime_pi(15) == SMALL_PI@[15]);
    } else if x == 16 {
        assert(prime_pi(16) == SMALL_PI@[16]);
    } else if x == 17 {
        assert(prime_pi(17) == SMALL_PI@[17]);
    } else if x == 18 {
        assert(prime_pi(18) == SMALL_PI@[18]);
    } else if x == 19 {
        assert(prime_pi(19) == SMALL_PI@[19]);
    } else if x == 20 {
        assert(prime_pi(20) == SMALL_PI@[20]);
    } else if x == 21 {
        assert(prime_pi(21) == SMALL_PI@[21]);
    } else if x == 22 {
        assert(prime_pi(22) == SMALL_PI@[22]);
    } else if x == 23 {
        assert(prime_pi(23) == SMALL_PI@[23]);
    } else if x == 24 {
        assert(prime_pi(24) == SMALL_PI@[24]);
    } else if x == 25 {
        assert(prime_pi(25) == SMALL_PI@[25]);
    } else if x == 26 {
        assert(prime_pi(26) == SMALL_PI@[26]);
    } else if x == 27 {
        assert(prime_pi(27) == SMALL_PI@[27]);
    } else if x == 28 {
        assert(prime_pi(28) == SMALL_PI@[28]);
    } else if x == 29 {
        assert(prime_pi(29) == SMALL_PI@[29]);
    } else if x == 30 {
        assert(prime_pi(30) == SMALL_PI@[30]);
    } else if x == 31 {
        assert(prime_pi(31) == SMALL_PI@[31]);
    } else if x == 32 {
        assert(prime_pi(32) == SMALL_PI@[32]);
    } else if x == 33 {
        assert(prime_pi(33) == SMALL_PI@[33]);
    } else if x == 34 {
        assert(prime_pi(34) == SMALL_PI@[34]);
    } else if x == 35 {
        assert(prime_pi(35) == SMALL_PI@[35]);
    } else if x == 36 {
        assert(prime_pi(36) == SMALL_PI@[36]);
    } else if x == 37 {
        assert(prime_pi(37) == SMALL_PI@[37]);
    } else if x == 38 {
        assert(prime_pi(38) == SMALL_PI@[38]);
    } else if x == 39 {
        assert(prime_pi(39) == SMALL_PI@[39]);
    } else if x == 40 {
        assert(prime_pi(40) == SMALL_PI@[40]);
    } else if x == 41 {
        assert(prime_pi(41) == SMALL_PI@[41]);
    } else if x == 42 {
        assert(prime_pi(42) == SMALL_PI@[42]);
    } else if x == 43 {
        assert(prime_pi(43) == SMALL_PI@[43]);
    } else if x == 44 {
        assert(prime_pi(44) == SMALL_PI@[44]);
    } else if x == 45 {
        assert(prime_pi(45) == SMALL_PI@[45]);
    } else if x == 46 {
        assert(prime_pi(46) == SMALL_PI@[46]);
    } else if x == 47 {
        assert(prime_pi(47) == SMALL_PI@[47]);
    } else if x == 48 {
        assert(prime_pi(48) == SMALL_PI@[48]);
    } else if x == 49 {
        assert(prime_pi(49) == SMALL_PI@[49]);
    } else if x == 50 {
        assert(prime_pi(50) == SMALL_PI@[50]);
    } else if x == 51 {
        assert(prime_pi(51) == SMALL_PI@[51]);
    } else if x == 52 {
        assert(prime_pi(52) == SMALL_PI@[52]);
    } else if x == 53 {
        assert(prime_pi(53) == SMALL_PI@[53]);
    } else if x == 54 {
        assert(prime_pi(54) == SMALL_PI@[54]);
    } else if x == 55 {
        assert(prime_pi(55) == SMALL_PI@[55]);
    } else if x == 56 {
        assert(prime_pi(56) == SMALL_PI@[56]);
    } else if x == 57 {
        assert(prime_pi(57) == SMALL_PI@[57]);
    } else if x == 58 {
        assert(prime_pi(58) == SMALL_PI@[58]);
    } else if x == 59 {
        assert(prime_pi(59) == SMALL_PI@[59]);
    } else if x == 60 {
        assert(prime_pi(60) == SMALL_PI@[60]);
    } else if x == 61 {
        assert(prime_pi(61) == SMALL_PI@[61]);
    } else if x == 62 {
        assert(prime_pi(62) == SMALL_PI@[62]);
    } else if x == 63 {
        assert(prime_pi(63) == SMALL_PI@[63]);
    } else if x == 64 {
        assert(prime_pi(64) == SMALL_PI@[64]);
    } else if x == 65 {
        assert(prime_pi(65) == SMALL_PI@[65]);
    } else if x == 66 {
        assert(prime_pi(66) == SMALL_PI@[66]);
    } else if x == 67 {
        assert(prime_pi(67) == SMALL_PI@[67]);
    } else if x == 68 {
        assert(prime_pi(68) == SMALL_PI@[68]);
    } else if x == 69 {
        assert(prime_pi(69) == SMALL_PI@[69]);
    } else if x == 70 {
        assert(prime_pi(70) == SMALL_PI@[70]);
    } else if x == 71 {
        assert(prime_pi(71) == SMALL_PI@[71]);
    } else if x == 72 {
        assert(prime_pi(72) == SMALL_PI@[72]);
    } else if x == 73 {
        assert(prime_pi(73) == SMALL_PI@[73]);
    } else if x == 74 {
        assert(prime_pi(74) == SMALL_PI@[74]);
    } else if x == 75 {
        assert(prime_pi(75) == SMALL_PI@[75]);
    } else if x == 76 {
        assert(prime_pi(76) == SMALL_PI@[76]);
    } else if x == 77 {
        assert(prime_pi(77) == SMALL_PI@[77]);
    } else if x == 78 {
        assert(prime_pi(78) == SMALL_PI@[78]);
    } else if x == 79 {
        assert(prime_pi(79) == SMALL_PI@[79]);
    } else if x == 80 {
        assert(prime_pi(80) == SMALL_PI@[80]);
    } else if x == 81 {
        assert(prime_pi(81) == SMALL_PI@[81]);
    } else if x == 82 {
        assert(prime_pi(82) == SMALL_PI@[82]);
    } else if x == 83 {
        assert(prime_pi(83) == SMALL_PI@[83]);
    } else if x == 84 {
        assert(prime_pi(84) == SMALL_PI@[84]);
    } else if x == 85 {
        assert(prime_pi(85) == SMALL_PI@[85]);
    } else if x == 86 {
        assert(prime_pi(86) == SMALL_PI@[86]);
    } else if x == 87 {
        assert(prime_pi(87) == SMALL_PI@[87]);
    } else if x == 88 {
        assert(prime_pi(88) == SMALL_PI@[88]);
    } else if x == 89 {
        assert(prime_pi(89) == SMALL_PI@[89]);
    } else if x == 90 {
        assert(prime_pi(90) == SMALL_PI@[90]);
    } else if x == 91 {
        assert(prime_pi(91) == SMALL_PI@[91]);
    } else if x == 92 {
        assert(prime_pi(92) == SMALL_PI@[92]);
    } else if x == 93 {
        assert(prime_pi(93) == SMALL_PI@[93]);
    } else if x == 94 {
        assert(prime_pi(94) == SMALL_PI@[94]);
    } else if x == 95 {
        assert(prime_pi(95) == SMALL_PI@[95]);
    } else if x == 96 {
        assert(prime_pi(96) == SMALL_PI@[96]);
    } else if x == 97 {
        assert(prime_pi(97) == SMALL_PI@[97]);
    } else if x == 98 {
        assert(prime_pi(98) == SMALL_PI@[98]);
    } else if x == 99 {
        assert(prime_pi(99) == SMALL_PI@[99]);
    }
}

/// None of the first `n` entries of `primes` divides `j`.
pub open spec fn unsieved(j: int, n: int, primes: Seq<u64>) -> bool {
    forall|i: int| 0 <= i < n && i < primes.len() ==> j % (#[trigger] primes[i] as int) != 0
}

/// The number of integers in `[1, m]` that none of the first `n` entries of
/// `primes` divides.
pub open spec fn unsieved_count(m: int, n: int, primes: Seq<u64>) -> int
    decreases m,
{
    if m <= 0 {
        0
    } else {
        unsieved_count(m - 1, n, primes) + if unsieved(m, n, primes) {
            1int
        } else {
            0int
        }
    }
}

/// The count of the unsieved numbers lies between zero and the bound; with
/// no entries to sieve by it is the bound, and with two alone it is the
/// number of odd numbers.
pub proof fn lemma_unsieved_count(m: int, n: int, primes: Seq<u64>)
    requires
        m >= 0,
    ensures
        0 <= unsieved_count(m, n, primes) <= m,
        n <= 0 ==> unsieved_count(m, n, primes) == m,
        n == 1 && primes.len() >= 1 && primes[0] == 2 ==> unsieved_count(m, n, primes) == m / 2 + m
            % 2,
    decreases m,
{
    if m > 0 {
        lemma_unsieved_count(m - 1, n, primes);
        if n == 1 && primes.len() >= 1 && primes[0] == 2 {
            assert(unsieved(m, n, primes) <==> m % 2 != 0) by {
                if m % 2 != 0 {
                    assert forall|i: int| 0 <= i < n && i < primes.len() implies m % (
                    #[trigger] primes[i] as int) != 0 by {}
                } else {
                    assert(m % (primes[0] as int) == 0);
                }
            }
        }
    }
}

/// Up to an entry of the list of the primes, one is the only number that
/// none of the entries up to that one divides.
proof fn lemma_unsieved_count_small(m: int, n: int, primes: Seq<u64>, bound: int)
    requires
        primes == primes_upto(bound),
        bound <= u64::MAX,
        1 <= n <= primes.len(),
        1 <= m <= primes[n - 1],
    ensures
        unsieved_count(m, n, primes) == 1,
    decreases m,
{
    lemma_primes_below(bound + 1);
    if m == 1 {
        assert(unsieved_count(0, n, primes) == 0);
        assert(unsieved(1, n, primes)) by {
            assert forall|i: int| 0 <= i < n && i < primes.len() implies 1int % (
            #[trigger] primes[i] as int) != 0 by {
                assert(is_prime_number(primes[i] as int));
                vstd::arithmetic::div_mod::lemma_small_mod(1, primes[i] as nat);
            }
        }
    } else {
        lemma_unsieved_count_small(m - 1, n, primes, bound);
        let q = lemma_prime_divisor_exists(m);
        assert(primes.contains(q as u64));
        let i = choose|i: int| 0 <= i < primes.len() && primes[i] == q as u64;
        assert(i < n) by {
            if i >= n {
                assert(primes[n - 1] < primes[i]);
            }
        }
        assert(m % (primes[i] as int) == 0);
        assert(!unsieved(m, n, primes));
    }
}

/// Dividing by `p` a number that `p` divides keeps the other primes that
/// divide it.
proof fn lemma_unsieved_quotient(m: int, n: int, primes: Seq<u64>)
    requires
        m >= 1,
        1 <= n <= primes.len(),
        forall|i: int| 0 <= i < primes.len() ==> is_prime_number(#[trigger] primes[i] as int),
        forall|i: int| 0 <= i < n - 1 ==> #[trigger] primes[i] < primes[n - 1],
        m % (primes[n - 1] as int) == 0,
    ensures
        unsieved(m, n - 1, primes) <==> unsieved(m / (primes[n - 1] as int), n - 1, primes),
{
    let p = primes[n - 1] as int;
    let rest = m / p;
    assert(is_prime_number(p));
    lemma_divisor_bounds(p, m);
    assert(p * rest == m) by (nonlinear_arith)
        requires
            rest * p == m,
    ;
    if unsieved(m, n - 1, primes) {
        assert forall|i: int| 0 <= i < n - 1 && i < primes.len() implies rest % (
        #[trigger] primes[i] as int) != 0 by {
            let q = primes[i] as int;
            assert(is_prime_number(q));
            if rest % q == 0 {
                lemma_divides_multiple(q, rest, p);
                assert(m % q == 0);
            }
        }
    }
    if unsieved(rest, n - 1, primes) {
        assert forall|i: int| 0 <= i < n - 1 && i < primes.len() implies m % (
        #[trigger] primes[i] as int) != 0 by {
            let q = primes[i] as int;
            assert(is_prime_number(q));
            if m % q == 0 {
                lemma_euclid(q, p, rest);
                if p % q == 0 {
                    lemma_prime_divides_prime(q, p);
                    assert(primes[i] < primes[n - 1]);
                }
                assert(rest % q == 0);
            }
        }
    }
}

/// The recurrence of the partial sieve function holds of the count of the
/// unsieved numbers: those that none of the first `n` primes divides are
/// those that none of the first `n - 1` divides, less the multiples of the
/// `n`th among them.
pub proof fn lemma_unsieved_recurrence(m: int, n: int, primes: Seq<u64>)
    requires
        m >= 0,
        1 <= n <= primes.len(),
        forall|i: int| 0 <= i < primes.len() ==> is_prime_number(#[trigger] primes[i] as int),
        forall|i: int| 0 <= i < n - 1 ==> #[trigger] primes[i] < primes[n - 1],
    ensures
        unsieved_count(m, n, primes) == unsieved_count(m, n - 1, primes) - unsieved_count(
            m / (primes[n - 1] as int),
            n - 1,
            primes,
        ),
    decreases m,
{
    let p = primes[n - 1] as int;
    assert(is_prime_number(p));
    if m == 0 {
        assert(0int / p == 0);
    } else {
        lemma_unsieved_recurrence(m - 1, n, primes);
        vstd::arithmetic::div_mod::lemma_fundamental_div_mod(m, p);
        vstd::arithmetic::div_mod::lemma_fundamental_div_mod(m - 1, p);
        let q = m / p;
        let q1 = (m - 1) / p;
        if m % p == 0 {
            assert(q == q1 + 1) by (nonlinear_arith)
                requires
                    m == p * q,
                    m - 1 == p * q1 + (m - 1) % p,
                    0 <= (m - 1) % p < p,
                    p >= 2,
            ;
            lemma_unsieved_quotient(m, n, primes);
            assert(!unsieved(m, n, primes)) by {
                assert(m % (primes[n - 1] as int) == 0);
            }
            assert(q >= 1);
        } else {
            assert(q == q1) by (nonlinear_arith)
                requires
                    m == p * q + m % p,
                    0 < m % p < p,
                    m - 1 == p * q1 + (m - 1) % p,
                    0 <= (m - 1) % p < p,
                    p >= 2,
            ;
            assert(unsieved(m, n, primes) <==> unsieved(m, n - 1, primes)) by {
                if unsieved(m, n - 1, primes) {
                    assert forall|i: int| 0 <= i < n && i < primes.len() implies m % (
                    #[trigger] primes[i] as int) != 0 by {}
                }
                if unsieved(m, n, primes) {
                    assert forall|i: int| 0 <= i < n - 1 && i < primes.len() implies m % (
                    #[trigger] primes[i] as int) != 0 by {}
                }
            }
        }
    }
}

/// With the list of the primes up to some bound for `primes`, the partial
/// sieve function `phi(m, n)` is the number of integers in `[1, m]` that
/// none of the first `n` primes divides.
pub proof fn lemma_phi_value_counts(m: u64, n: u64, primes: Seq<u64>, bound: int)
    requires
        primes == primes_upto(bound),
        bound <= u64::MAX,
        n <= primes.len(),
    ensures
        phi_value(m, n, primes) == unsieved_count(m as int, n as int, primes),
    decreases n,
{
    lemma_primes_below(bound + 1);
    lemma_unsieved_count(m as int, n as int, primes);
    if n == 0 || m == 0 {
        assert(unsieved_count(0, n as int, primes) == 0);
    } else if n == 1 {
        assert(primes[0] == 2) by {
            assert(is_prime_number(primes[0] as int));
            if primes[0] > 2 {
                let two: int = 2;
                assert(is_prime_number(two));
                assert(primes.contains(two as u64));
                let i = choose|i: int| 0 <= i < primes.len() && primes[i] == 2u64;
                if i > 0 {
                    assert(primes[0] < primes[i]);
                }
            }
        }
    } else if m <= primes[n - 1] {
        lemma_unsieved_count_small(m as int, n as int, primes, bound);
    } else {
        let p = primes[n - 1];
        lemma_phi_value_counts(m, (n - 1) as u64, primes, bound);
        assert(is_prime_number(p as int));
        lemma_quotient_smaller(m, p);
        lemma_phi_value_counts(m / p, (n - 1) as u64, primes, bound);
        lemma_unsieved_recurrence(m as int, n as int, primes);
        lemma_unsieved_count(m as int, n - 1, primes);
        lemma_unsieved_count(m as int / p as int, n - 1, primes);
    }
}

/// The memo table of the partial sieve function: one cell for each pair
/// `(m, n)` below `CACHE_SIZE`, in which zero stands for a value not yet
/// computed.
pub struct PhiCache {
    cells: Vec<u64>,
}

impl PhiCache {
    /// The cell for the pair `(m, n)`, both below `CACHE_SIZE`: zero if it is
    /// empty.
    pub closed spec fn cell(&self, m: int, n: int) -> u64 {
        self.cells@[m * CACHE_SIZE as int + n]
    }

    /// Every cell is empty or holds the value of the partial sieve function
    /// for `primes`.
    pub closed spec fn wf(&self, primes: Seq<u64>) -> bool {
        &&& self.cells@.len() == CACHE_SIZE * CACHE_SIZE
        &&& forall|m: int, n: int|
            0 <= m < CACHE_SIZE && 0 <= n < CACHE_SIZE ==> #[trigger] self.cell(m, n) == 0
                || self.cell(m, n) == phi_value(m as u64, n as u64, primes)
    }

    /// Every cell that is filled in `before` holds the same value in
    /// `self`.
    pub open spec fn keeps(&self, before: &PhiCache) -> bool {
        forall|m: int, n: int|
            0 <= m < CACHE_SIZE && 0 <= n < CACHE_SIZE && before.cell(m, n) != 0
                ==> #[trigger] self.cell(m, n) == before.cell(m, n)
    }

    /// A table of empty cells, which serves any list of primes.
    pub fn new() -> (cache: PhiCache)
        ensures
            forall|primes: Seq<u64>| cache.wf(primes),
            forall|m: int, n: int|
                0 <= m < CACHE_SIZE && 0 <= n < CACHE_SIZE ==> #[trigger] cache.cell(m, n) == 0,
    {
        let total: usize = CACHE_SIZE * CACHE_SIZE;
        let mut cells: Vec<u64> = Vec::new();
        let mut k: usize = 0;
        while k < total
            invariant
                k <= total,
                total == CACHE_SIZE * CACHE_SIZE,
                cells@.len() == k,
                forall|j: int| 0 <= j < k ==> #[trigger] cells@[j] == 0,
            decreases total - k,
        {
            cells.push(0);
            k = k + 1;
        }
        let cache = PhiCache { cells };
        assert forall|m: int, n: int| 0 <= m < CACHE_SIZE && 0 <= n < CACHE_SIZE implies #[trigger] cache.cell(
            m,
            n,
        ) == 0 by {
            lemma_cell_index(m, n);
        }
        cache
    }
}

/// The cell of a pair below `CACHE_SIZE` lies within the table.
proof fn lemma_cell_index(m: int, n: int)
    requires
        0 <= m < CACHE_SIZE,
        0 <= n < CACHE_SIZE,
    ensures
        0 <= m * CACHE_SIZE as int + n < CACHE_SIZE * CACHE_SIZE,
{
    assert(m * 1024 + n < 1024 * 1024);
}

/// Two pairs below `CACHE_SIZE` with the same cell are the same pair.
proof fn lemma_cell_unique(m: int, n: int, m2: int, n2: int)
    requires
        0 <= m < CACHE_SIZE,
        0 <= n < CACHE_SIZE,
        0 <= m2 < CACHE_SIZE,
        0 <= n2 < CACHE_SIZE,
        m * CACHE_SIZE as int + n == m2 * CACHE_SIZE as int + n2,
    ensures
        m == m2,
        n == n2,
{
}

/// The partial sieve function `phi(m, n)` for the primes in `primes`, with
/// the values for small arguments kept in `cache`.
///
/// A value that takes the recurrence and whose arguments lie below
/// `CACHE_SIZE` is read from its cell if the cell is filled, and put there
/// if not. Beyond that cell, a call changes only cells for fewer primes
/// than `n`, and none that is filled.
pub fn phi(m: u64, n: u64, primes: &Vec<u64>, cache: &mut PhiCache) -> (count: u64)
    requires
        n <= primes@.len(),
        proper_divisors(primes@),
        old(cache).wf(primes@),
    ensures
        final(cache).wf(primes@),
        count == phi_value(m, n, primes@),
        final(cache).keeps(old(cache)),
        forall|m2: int, n2: int|
            0 <= m2 < CACHE_SIZE && 0 <= n2 < CACHE_SIZE && (n2 > n || (n2 == n && m2 != m))
                ==> #[trigger] final(cache).cell(m2, n2) == old(cache).cell(m2, n2),
        2 <= n < CACHE_SIZE && primes@[n - 1] < m < CACHE_SIZE ==> final(cache).cell(
            m as int,
            n as int,
        ) == count,
    decreases n,
{
    let len: usize = primes.len();
    if n == 0 || m == 0 {
        return m;
    }
    if n == 1 {
        return m / 2 + m % 2;
    }
    let p: u64 = primes[(n - 1) as usize];
    if m <= p {
        return 1;
    }
    if m < CACHE_SIZE as u64 && n < CACHE_SIZE as u64 {
        let index: usize = (m as usize) * CACHE_SIZE + (n as usize);
        proof {
            lemma_cell_index(m as int, n as int);
        }
        let cached: u64 = cache.cells[index];
        if cached != 0 {
            assert(cache.cell(m as int, n as int) == cached);
            return cached;
        }
        let all: u64 = phi(m, n - 1, primes, cache);
        let ghost middle = *cache;
        let multiples: u64 = phi(m / p, n - 1, primes, cache);
        let value: u64 = all.wrapping_sub(multiples);
        let ghost before = *cache;
        assert(before.cell(m as int, n as int) == 0);
        cache.cells.set(index, value);
        proof {
            assert forall|m2: int, n2: int|
                0 <= m2 < CACHE_SIZE && 0 <= n2 < CACHE_SIZE implies #[trigger] cache.cell(m2, n2)
                == (if m2 == m && n2 == n {
                value
            } else {
                before.cell(m2, n2)
            }) by {
                lemma_cell_index(m2, n2);
                if m2 * CACHE_SIZE as int + n2 == index {
                    lemma_cell_unique(m as int, n as int, m2, n2);
                }
            }
            assert forall|m2: int, n2: int|
                0 <= m2 < CACHE_SIZE && 0 <= n2 < CACHE_SIZE implies #[trigger] cache.cell(m2, n2)
                == 0 || cache.cell(m2, n2) == phi_value(m2 as u64, n2 as u64, primes@) by {
                assert(before.cell(m2, n2) == 0 || before.cell(m2, n2) == phi_value(
                    m2 as u64,
                    n2 as u64,
                    primes@,
                ));
            }
            assert forall|m2: int, n2: int|
                0 <= m2 < CACHE_SIZE && 0 <= n2 < CACHE_SIZE && old(cache).cell(m2, n2)
                    != 0 implies #[trigger] cache.cell(m2, n2) == old(cache).cell(m2, n2) by {
                assert(middle.cell(m2, n2) == old(cache).cell(m2, n2));
                assert(before.cell(m2, n2) == middle.cell(m2, n2));
            }
            assert forall|m2: int, n2: int|
                0 <= m2 < CACHE_SIZE && 0 <= n2 < CACHE_SIZE && (n2 > n || (n2 == n && m2 != m))
                    implies #[trigger] cache.cell(m2, n2) == old(cache).cell(m2, n2) by {
                assert(middle.cell(m2, n2) == old(cache).cell(m2, n2));
                assert(before.cell(m2, n2) == middle.cell(m2, n2));
            }
        }
        return value;
    }
    let all: u64 = phi(m, n - 1, primes, cache);
    let ghost middle = *cache;
    let multiples: u64 = phi(m / p, n - 1, primes, cache);
    proof {
        assert forall|m2: int, n2: int|
            0 <= m2 < CACHE_SIZE && 0 <= n2 < CACHE_SIZE && old(cache).cell(m2, n2)
                != 0 implies #[trigger] cache.cell(m2, n2) == old(cache).cell(m2, n2) by {
            assert(middle.cell(m2, n2) == old(cache).cell(m2, n2));
        }
        assert forall|m2: int, n2: int|
            0 <= m2 < CACHE_SIZE && 0 <= n2 < CACHE_SIZE && (n2 > n || (n2 == n && m2 != m))
                implies #[trigger] cache.cell(m2, n2) == old(cache).cell(m2, n2) by {
            assert(middle.cell(m2, n2) == old(cache).cell(m2, n2));
        }
    }
    all.wrapping_sub(multiples)
}

/// The number of entries of the ascending list `primes` up to `x`: the
/// position of the first entry greater than `x`.
pub fn num_below(x: u64, primes: &Vec<u64>) -> (count: u64)
    ensures
        count == first_above(x, primes@, 0),
        count <= primes@.len(),
{
    let mut k: usize = 0;
    while k < primes.len()
        invariant
            0 <= k <= primes@.len(),
            first_above(x, primes@, k as int) == first_above(x, primes@, 0),
        decreases primes@.len() - k,
    {
        if primes[k] > x {
            return k as u64;
        }
        k = k + 1;
    }
    primes.len() as u64
}

/// The square root of `x`, rounded to the nearest integer.
fn rounded_sqrt(x: u64) -> (r: u64)
    ensures
        r == round_sqrt(x),
{
    let root: u64 = isqrt(x);
    if x - root * root > root {
        root + 1
    } else {
        root
    }
}

/// The cube root of `x`, rounded to the nearest integer.
fn rounded_cbrt(x: u64) -> (r: u64)
    ensures
        r == round_cbrt(x),
{
    let root: u64 = icbrt(x);
    let odd: u128 = 2 * (root as u128) + 1;
    assert(odd * odd <= 5_284_491int * 5_284_491int && odd * odd * odd <= 5_284_491int
        * 5_284_491int * 5_284_491int) by (nonlinear_arith)
        requires
            0 <= odd <= 5_284_491,
    ;
    if 8 * (x as u128) >= odd * odd * odd {
        root + 1
    } else {
        root
    }
}

/// The fourth root of `x`, rounded to the nearest integer.
fn rounded_fourth_root(x: u64) -> (r: u64)
    ensures
        r == round_fourth_root(x),
{
    let half: u64 = isqrt(x);
    let root: u64 = isqrt(half);
    assert(root <= 0xffff) by (nonlinear_arith)
        requires
            0 <= root,
            root * root <= half,
            half <= 0xffff_ffff,
    ;
    let odd: u128 = 2 * (root as u128) + 1;
    assert(odd * odd <= 131_071int * 131_071int && odd * odd * odd <= 131_071int * 131_071int
        * 131_071int && odd * odd * odd * odd <= 131_071int * 131_071int * 131_071int
        * 131_071int) by (nonlinear_arith)
        requires
            0 <= odd <= 131_071,
    ;
    if 16 * (x as u128) >= odd * odd * odd * odd {
        root + 1
    } else {
        root
    }
}

/// The sum of the integers from `lo` up to, but not including, `hi`.
pub open spec fn range_sum(lo: int, hi: int) -> int
    decreases hi - lo,
{
    if hi <= lo {
        0
    } else {
        range_sum(lo, hi - 1) + (hi - 1)
    }
}

/// Twice the sum of the integers from `lo` to `hi - 1` is
/// `(lo + hi - 1)(hi - lo)`.
proof fn lemma_range_sum(lo: int, hi: int)
    requires
        lo <= hi,
    ensures
        2 * range_sum(lo, hi) == (lo + hi - 1) * (hi - lo),
        (lo + hi - 2) * (hi - lo + 1) == 2 * (range_sum(lo, hi) + lo - 1),
    decreases hi - lo,
{
    if lo < hi {
        lemma_range_sum(lo, hi - 1);
        assert((lo + hi - 2) * (hi - 1 - lo) + 2 * (hi - 1) == (lo + hi - 1) * (hi - lo))
            by (nonlinear_arith);
    } else {
        assert((lo + hi - 1) * (hi - lo) == 0) by (nonlinear_arith)
            requires
                hi == lo,
        ;
    }
    assert((lo + hi - 2) * (hi - lo + 1) == (lo + hi - 1) * (hi - lo) + 2 * (lo - 1))
        by (nonlinear_arith);
}

/// The number of primes up to `t` is that up to `t - 1`, and one more if `t`
/// is prime.
pub proof fn lemma_prime_pi_step(t: int)
    ensures
        prime_pi(t) == prime_pi(t - 1) + if is_prime_number(t) {
            1nat
        } else {
            0nat
        },
{
    if t < 0 {
        assert(primes_upto(t) =~= primes_upto(t - 1));
    }
}

/// The number of primes up to a bound grows with the bound and stays below
/// it.
pub proof fn lemma_prime_pi_bounds(u: int, v: int)
    requires
        u <= v <= u64::MAX,
    ensures
        prime_pi(u) <= prime_pi(v),
        v >= 0 ==> prime_pi(v) <= v,
        v >= 1 ==> prime_pi(v) <= v - 1,
{
    lemma_primes_below_prefix(u + 1, v + 1);
    lemma_primes_below(v + 1);
    if v == 1 || v == 0 {
        lemma_primes_below(2);
        lemma_primes_below_prefix(v + 1, 2);
    }
}

/// In the list of the primes up to `s`, the primes up to `v` come first:
/// there are `prime_pi(v)` of them, and the entry after them, if there is
/// one, is greater than `v`.
pub proof fn lemma_list_split(s: int, v: int)
    requires
        0 <= s <= u64::MAX,
        v <= s,
    ensures
        prime_pi(v) <= primes_upto(s).len(),
        forall|i: int| 0 <= i < prime_pi(v) ==> #[trigger] primes_upto(s)[i] <= v,
        forall|i: int| prime_pi(v) <= i < primes_upto(s).len() ==> #[trigger] primes_upto(s)[i] > v,
{
    let list = primes_upto(s);
    let head = primes_upto(v);
    lemma_primes_below_prefix(v + 1, s + 1);
    lemma_primes_below(v + 1);
    lemma_primes_below(s + 1);
    assert forall|i: int| 0 <= i < prime_pi(v) implies #[trigger] list[i] <= v by {
        assert(list.subrange(0, head.len() as int)[i] == head[i]);
        assert(head[i] < v + 1);
    }
    assert forall|i: int| prime_pi(v) <= i < list.len() implies #[trigger] list[i] > v by {
        if list[i] <= v {
            assert(is_prime_number(list[i] as int));
            assert(head.contains((list[i] as int) as u64));
            let j = choose|j: int| 0 <= j < head.len() && head[j] == list[i];
            assert(list.subrange(0, head.len() as int)[j] == head[j]);
            assert(list[j] < list[i]);
        }
    }
}

/// Entry `i` of the list of the primes up to `s` is the prime with `i`
/// primes below it.
pub proof fn lemma_list_entry(s: int, i: int)
    requires
        0 <= s <= u64::MAX,
        0 <= i < primes_upto(s).len(),
    ensures
        is_prime_number(primes_upto(s)[i] as int),
        2 <= primes_upto(s)[i] <= s,
        prime_pi(primes_upto(s)[i] as int) == i + 1,
        prime_pi(primes_upto(s)[i] - 1) == i,
{
    let list = primes_upto(s);
    let v = list[i] as int;
    lemma_primes_below(s + 1);
    assert(is_prime_number(list[i] as int));
    lemma_list_split(s, v);
    if i >= prime_pi(v) {
        assert(list[i] > v);
    }
    if prime_pi(v) > i + 1 {
        assert(list[i + 1] <= v);
        assert(list[i] < list[i + 1]);
    }
    lemma_prime_pi_step(v);
}

/// A prime up to `s` stands in the list of the primes up to `s` at the
/// position that the number of primes below it gives; a prime above `s` has
/// more primes up to it than the list holds.
pub proof fn lemma_prime_position(s: int, q: int)
    requires
        0 <= s <= u64::MAX,
        is_prime_number(q),
        q <= u64::MAX,
    ensures
        q <= s ==> 1 <= prime_pi(q) <= primes_upto(s).len() && primes_upto(s)[prime_pi(q) - 1]
            == q,
        q > s ==> prime_pi(q) > primes_upto(s).len(),
{
    lemma_prime_pi_step(q);
    if q <= s {
        lemma_list_split(s, q);
        lemma_list_split(s, q - 1);
        lemma_prime_pi_bounds(q, s);
        let i = prime_pi(q) - 1;
        assert(primes_upto(s)[i] <= q);
        assert(primes_upto(s)[i] > q - 1);
    } else {
        lemma_prime_pi_bounds(s, q - 1);
    }
}

/// In the list of the primes up to `s`, the position of the first entry
/// greater than `x` is the number of primes up to `x`.
proof fn lemma_first_above(x: u64, s: int, k: int)
    requires
        0 <= s <= u64::MAX,
        x <= s,
        0 <= k <= prime_pi(x as int),
    ensures
        first_above(x, primes_upto(s), k) == prime_pi(x as int),
    decreases prime_pi(x as int) - k,
{
    lemma_list_split(s, x as int);
    if k < prime_pi(x as int) {
        assert(primes_upto(s)[k] <= x);
        lemma_first_above(x, s, k + 1);
    } else if k < primes_upto(s).len() {
        assert(primes_upto(s)[k] > x);
    }
}

/// With the list of the primes up to `s` for `primes`, and with every prime
/// whose square is at most `y` among the first `k` of them, the numbers up to
/// `t`, for `t` up to `y`, that none of the first `k` primes divides are one
/// and the primes after the first `k`.
proof fn lemma_unsieved_large(t: int, y: int, k: int, s: int)
    requires
        0 <= s <= u64::MAX,
        0 <= t <= y <= u64::MAX,
        0 <= k <= primes_upto(s).len(),
        forall|q: int| is_prime_number(q) && q * q <= y ==> #[trigger] prime_pi(q) <= k,
    ensures
        unsieved_count(t, k, primes_upto(s)) == (if t >= 1 {
            1int
        } else {
            0int
        }) + (if prime_pi(t) > k {
            prime_pi(t) - k
        } else {
            0int
        }),
    decreases t,
{
    let list = primes_upto(s);
    if t == 0 {
        lemma_prime_pi_bounds(0, 0);
    } else {
        lemma_unsieved_large(t - 1, y, k, s);
        lemma_prime_pi_step(t);
        lemma_primes_below(s + 1);
        if t == 1 {
            assert(unsieved(1, k, list)) by {
                assert forall|i: int| 0 <= i < k && i < list.len() implies 1int % (
                #[trigger] list[i] as int) != 0 by {
                    assert(is_prime_number(list[i] as int));
                    vstd::arithmetic::div_mod::lemma_small_mod(1, list[i] as nat);
                }
            }
            lemma_prime_pi_bounds(1, 1);
            lemma_prime_pi_bounds(0, 0);
        } else if is_prime_number(t) {
            lemma_prime_position(s, t);
            if prime_pi(t) <= k {
                let i = prime_pi(t) - 1;
                assert(list[i] == t);
                lemma_multiple_divides(t, 1);
                assert(t % (list[i] as int) == 0);
                assert(!unsieved(t, k, list));
            } else {
                assert(unsieved(t, k, list)) by {
                    assert forall|i: int| 0 <= i < k && i < list.len() implies t % (
                    #[trigger] list[i] as int) != 0 by {
                        lemma_list_entry(s, i);
                        if t % (list[i] as int) == 0 {
                            lemma_prime_divides_prime(list[i] as int, t);
                        }
                    }
                }
            }
        } else {
            lemma_composite_has_small_factor(t);
            lemma_smallest_prime_factor(t);
            let q = smallest_prime_factor(t);
            assert(q * q <= y);
            assert(prime_pi(q) <= k);
            assert(q <= t);
            lemma_prime_position(s, q);
            let i = prime_pi(q) - 1;
            assert(list[i] == q);
            assert(t % (list[i] as int) == 0);
            assert(!unsieved(t, k, list));
        }
    }
}

/// What Lehmer's formula needs of the rounded roots of a number from one
/// hundred on.
proof fn lemma_rounded_roots(x: u64)
    requires
        x >= 100,
    ensures
        ({
            let r = isqrt_of(x as int);
            let r4 = round_fourth_root(x) as int;
            let r3 = round_cbrt(x) as int;
            let r2 = round_sqrt(x) as int;
            &&& 10 <= r <= r2 <= r + 1
            &&& r * r <= x < (r + 1) * (r + 1)
            &&& 3 <= r4 <= r2
            &&& (r4 + 1) * (r4 + 1) * (r4 + 1) * (r4 + 1) > x
            &&& (r3 + 1) * (r3 + 1) * (r3 + 1) > x
            &&& 0 <= r3 <= r + 1
        }),
{
    lemma_isqrt_exists(x);
    let r = isqrt_of(x as int);
    assert(10 <= r && r <= 0xffff_ffff) by (nonlinear_arith)
        requires
            0 <= r,
            r * r <= x,
            x < (r + 1) * (r + 1),
            100 <= x <= 0xffff_ffff_ffff_ffff,
    ;
    lemma_isqrt_exists(r as u64);
    let f = isqrt_of(r);
    assert(3 <= f && f + 1 <= r) by (nonlinear_arith)
        requires
            0 <= f,
            f * f <= r,
            r < (f + 1) * (f + 1),
            10 <= r,
    ;
    let g = (f + 1) * (f + 1);
    assert(g * g > x) by (nonlinear_arith)
        requires
            g >= r + 1,
            x < (r + 1) * (r + 1),
            r >= 0,
    ;
    assert((f + 1) * (f + 1) * (f + 1) * (f + 1) == g * g) by (nonlinear_arith)
        requires
            g == (f + 1) * (f + 1),
    ;
    let h = (f + 2) * (f + 2);
    assert((f + 2) * (f + 2) * (f + 2) * (f + 2) == h * h && h * h >= g * g) by (nonlinear_arith)
        requires
            h == (f + 2) * (f + 2),
            g == (f + 1) * (f + 1),
            f >= 0,
    ;
    let c = icbrt_of(x as int);
    assert((c + 2) * (c + 2) * (c + 2) >= (c + 1) * (c + 1) * (c + 1)) by (nonlinear_arith)
        requires
            c >= 0,
    ;
    assert(c <= 0xffff_ffff) by {
        if c > 0xffff_ffff {
            assert(c * c * c > 0xffff_ffff_ffff_ffff) by (nonlinear_arith)
                requires
                    c >= 0x1_0000_0000,
            ;
        }
    }
    assert(c <= r) by {
        if c >= r + 1 {
            assert(c * c * c >= (r + 1) * (r + 1)) by (nonlinear_arith)
                requires
                    c >= r + 1,
                    r >= 1,
            ;
        }
    }
    let r4 = round_fourth_root(x) as int;
    let r3 = round_cbrt(x) as int;
    let r2 = round_sqrt(x) as int;
    assert(r2 == r || r2 == r + 1);
    assert(r4 == f || r4 == f + 1);
    assert(r3 == c || r3 == c + 1);
    assert((r4 + 1) * (r4 + 1) * (r4 + 1) * (r4 + 1) > x);
    assert((r3 + 1) * (r3 + 1) * (r3 + 1) > x);
}

/// A table that keeps what a table keeps that keeps a third keeps the
/// third.
proof fn lemma_keeps(last: &PhiCache, middle: &PhiCache, first: &PhiCache)
    requires
        last.keeps(middle),
        middle.keeps(first),
    ensures
        last.keeps(first),
{
    assert forall|m: int, n: int|
        0 <= m < CACHE_SIZE && 0 <= n < CACHE_SIZE && first.cell(m, n) != 0 implies #[trigger] last.cell(
        m,
        n,
    ) == first.cell(m, n) by {
        assert(middle.cell(m, n) == first.cell(m, n));
    }
}

/// With every prime up to the square root of `y` among the first `k`
/// primes, and `k` no more than the number of primes up to `y`, the numbers
/// up to `y` that none of the first `k` primes divides are one and the
/// primes after the first `k`.
proof fn lemma_unsieved_primes_only(y: int, k: int, s: int)
    requires
        0 <= s <= u64::MAX,
        1 <= y <= u64::MAX,
        0 <= k <= primes_upto(s).len(),
        forall|q: int| is_prime_number(q) && q * q <= y ==> #[trigger] prime_pi(q) <= k,
        k <= prime_pi(y),
    ensures
        unsieved_count(y, k, primes_upto(s)) == 1 + prime_pi(y) - k,
{
    lemma_unsieved_large(y, y, k, s);
}

/// The same, with the bound on the primes given by the number of primes up
/// to the integer square root of `y`.
proof fn lemma_unsieved_past_root(y: u64, k: int, s: int)
    requires
        0 <= s <= u64::MAX,
        1 <= y,
        prime_pi(isqrt_of(y as int)) <= k <= primes_upto(s).len(),
        k <= prime_pi(y as int),
    ensures
        unsieved_count(y as int, k, primes_upto(s)) == 1 + prime_pi(y as int) - k,
{
    lemma_isqrt_exists(y);
    let r = isqrt_of(y as int);
    assert(r <= 0xffff_ffff) by {
        lemma_root_at_most(y);
    }
    assert forall|q: int| is_prime_number(q) && q * q <= y implies #[trigger] prime_pi(q) <= k by {
        assert(q <= r) by (nonlinear_arith)
            requires
                q * q <= y,
                y < (r + 1) * (r + 1),
                q >= 0,
                r >= 0,
        ;
        lemma_prime_pi_bounds(q, r);
    }
    lemma_unsieved_primes_only(y as int, k, s);
}

/// What Lehmer's formula needs of the prime at position `k`, between the
/// number of primes up to the fourth root and that up to the square root
/// of `x`, and of the quotient of `x` by it.
#[verifier::rlimit(50)]
proof fn lemma_lehmer_prime(x: u64, s: int, k: int)
    requires
        x >= 100,
        0 <= s <= u64::MAX,
        x < s * s,
        prime_pi(round_fourth_root(x) as int) <= k < prime_pi(round_sqrt(x) as int),
    ensures
        ({
            let list = primes_upto(s);
            let p = list[k] as int;
            let y = x as int / p;
            &&& 2 <= k < list.len()
            &&& 2 <= p
            &&& 1 <= y < x
            &&& y * p <= x
            &&& y < p * p * p
            &&& k <= prime_pi(y)
            &&& unsieved_count(x as int, k + 1, list) == unsieved_count(x as int, k, list)
                - unsieved_count(y, k, list)
            &&& prime_pi(round_cbrt(x) as int) <= k ==> unsieved_count(y, k, list) == 1 + prime_pi(y)
                - k
        }),
{
    lemma_rounded_roots(x);
    let list = primes_upto(s);
    let r = isqrt_of(x as int);
    let r4 = round_fourth_root(x) as int;
    let r3 = round_cbrt(x) as int;
    let r2 = round_sqrt(x) as int;
    assert(r + 1 <= s) by (nonlinear_arith)
        requires
            r * r <= x,
            x < s * s,
            r >= 0,
            s >= 0,
    ;
    lemma_list_split(s, r2);
    lemma_list_split(s, r4);
    lemma_list_split(s, r3);
    lemma_primes_below(s + 1);
    lemma_prime_pi_bounds(3, r4);
    lemma_primes_below_25();
    assert(prime_pi(3) == 2);
    let p = list[k] as int;
    lemma_list_entry(s, k);
    lemma_list_entry(s, k - 1);
    assert(p <= r2);
    assert(p >= r4 + 1);
    let y = x as int / p;
    vstd::arithmetic::div_mod::lemma_fundamental_div_mod(x as int, p);
    let rem = x as int % p;
    assert(y * p == p * y) by (nonlinear_arith);
    assert(y < x && y >= 0) by (nonlinear_arith)
        requires
            x == p * y + rem,
            0 <= rem < p,
            p >= 2,
            x >= 100,
    ;
    let pp = p * p;
    assert(pp * pp > x) by (nonlinear_arith)
        requires
            pp == p * p,
            p >= r4 + 1,
            r4 >= 0,
            (r4 + 1) * (r4 + 1) * (r4 + 1) * (r4 + 1) > x,
    {
        let g = (r4 + 1) * (r4 + 1);
        assert(pp >= g);
        assert(pp * pp >= g * g);
        assert(g * g == (r4 + 1) * (r4 + 1) * (r4 + 1) * (r4 + 1));
    }
    assert(y < p * p * p) by (nonlinear_arith)
        requires
            pp * pp > x,
            pp == p * p,
            x == p * y + rem,
            0 <= rem,
            p >= 2,
            y >= 0,
    {
        assert(pp * pp == p * (p * p * p));
        assert(p * y <= x);
    }
    // The quotient is at least the prime before `p`.
    let before = list[k - 1] as int;
    assert(before < p);
    assert(y >= before) by {
        if p <= r {
            assert(y >= p) by (nonlinear_arith)
                requires
                    x == p * y + rem,
                    0 <= rem < p,
                    r * r <= x,
                    2 <= p <= r,
                    y >= 0,
            ;
        } else {
            assert(p == r + 1);
            lemma_odd_prime(p);
            if before == p - 1 {
                lemma_even_not_prime(before);
            }
            assert(y >= r - 1) by (nonlinear_arith)
                requires
                    x == p * y + rem,
                    0 <= rem < p,
                    r * r <= x,
                    p == r + 1,
                    r >= 10,
                    y >= 0,
            ;
        }
    }
    assert(y >= 1);
    lemma_prime_pi_bounds(before, y);
    lemma_unsieved_recurrence(x as int, k + 1, list);
    if prime_pi(r3) <= k {
        assert(p >= r3 + 1);
        assert(p * p * p > x) by (nonlinear_arith)
            requires
                p >= r3 + 1,
                r3 >= 0,
                (r3 + 1) * (r3 + 1) * (r3 + 1) > x,
        ;
        assert forall|q: int| is_prime_number(q) && q * q <= y implies #[trigger] prime_pi(q)
            <= k by {
            assert(q < p) by (nonlinear_arith)
                requires
                    q * q <= y,
                    y * p <= x,
                    p * p * p > x,
                    q >= 0,
                    p >= 2,
            {
                if q >= p {
                    assert(q * q >= p * p);
                    assert(q * q * p >= p * p * p);
                    assert(y * p >= q * q * p);
                }
            }
            lemma_prime_pi_bounds(q, p - 1);
        }
        lemma_unsieved_primes_only(y, k, s);
    }
}

/// What Lehmer's formula needs of the prime at position `j`, from the prime
/// at position `k` up to the primes up to the square root of the quotient
/// `y` of `x` by that prime, and of the quotient of `y` by it.
#[verifier::rlimit(50)]
proof fn lemma_lehmer_second_prime(x: u64, s: int, k: int, j: int)
    requires
        x >= 100,
        0 <= s <= u64::MAX,
        x < s * s,
        prime_pi(round_fourth_root(x) as int) <= k < prime_pi(round_sqrt(x) as int),
        k <= j < prime_pi(isqrt_of(x as int / (primes_upto(s)[k] as int))),
    ensures
        ({
            let list = primes_upto(s);
            let y = x as int / (list[k] as int);
            let q = list[j] as int;
            let z = y / q;
            &&& j < list.len()
            &&& 2 <= q
            &&& 0 <= z < y
            &&& unsieved_count(y, j + 1, list) == unsieved_count(y, j, list) - unsieved_count(
                z,
                j,
                list,
            )
            &&& unsieved_count(z, j, list) == 1 + prime_pi(z) - j
        }),
{
    lemma_lehmer_prime(x, s, k);
    let list = primes_upto(s);
    let p = list[k] as int;
    let y = x as int / p;
    lemma_isqrt_exists(y as u64);
    lemma_root_at_most(y as u64);
    let root = isqrt_of(y);
    lemma_isqrt_exists(x);
    let r = isqrt_of(x as int);
    assert(root <= r) by (nonlinear_arith)
        requires
            root * root <= y,
            y < x,
            x < (r + 1) * (r + 1),
            root >= 0,
            r >= 0,
    ;
    assert(r + 1 <= s) by (nonlinear_arith)
        requires
            r * r <= x,
            x < s * s,
            r >= 0,
            s >= 0,
    ;
    lemma_list_split(s, root);
    lemma_primes_below(s + 1);
    let q = list[j] as int;
    lemma_list_entry(s, j);
    assert(q <= root);
    assert(p <= q);
    let z = y / q;
    vstd::arithmetic::div_mod::lemma_fundamental_div_mod(y, q);
    assert(q * q <= y) by (nonlinear_arith)
        requires
            q <= root,
            root * root <= y,
            q >= 0,
    ;
    assert(z >= q && z < y) by (nonlinear_arith)
        requires
            y == q * z + y % q,
            0 <= y % q < q,
            q * q <= y,
            q >= 2,
            y >= 1,
    ;
    lemma_prime_pi_bounds(q, z);
    lemma_unsieved_recurrence(y, j + 1, list);
    assert forall|t: int| is_prime_number(t) && t * t <= z implies #[trigger] prime_pi(t) <= j by {
        assert(t < q) by (nonlinear_arith)
            requires
                t * t <= z,
                y == q * z + y % q,
                0 <= y % q,
                y < p * p * p,
                2 <= p <= q,
                t >= 0,
        {
            if t >= q {
                assert(t * t >= q * q);
                assert(q * z >= q * (q * q));
                assert(q * (q * q) >= p * (p * p));
                assert(p * (p * p) == p * p * p);
            }
        }
        lemma_prime_pi_bounds(t, q - 1);
    }
    if z >= 1 {
        lemma_unsieved_primes_only(z, j, s);
    }
}

/// The corrections of Lehmer's formula for the prime `p` at position `k`,
/// applied to `pi`: the number of primes up to `x / p` is taken off, and, if
/// `k` is below `c`, for each prime `q` from `p` up to the square root of
/// `x / p` the number of primes below `q` is added and the number of primes
/// up to `x / (p q)` is taken off. In all, this takes off the number of
/// integers up to `x / p` that none of the first `k` primes divides, less
/// one, and `k`.
#[verifier::rlimit(50)]
fn lehmer_corrections(
    x: u64,
    k: usize,
    c: u64,
    pi: u64,
    primes: &Vec<u64>,
    cache: &mut PhiCache,
) -> (out: u64)
    requires
        x >= 100,
        exists|s: int| 0 <= s <= u64::MAX && primes@ == primes_upto(s) && x < s * s,
        prime_pi(round_fourth_root(x) as int) <= k < prime_pi(round_sqrt(x) as int),
        c == prime_pi(round_cbrt(x) as int),
        old(cache).wf(primes@),
    ensures
        k < primes@.len(),
        primes@[k as int] >= 2,
        out as int == (pi - unsieved_count(x as int / (primes@[k as int] as int), k as int, primes@)
            + 1 - k) % 0x1_0000_0000_0000_0000,
        final(cache).wf(primes@),
        final(cache).keeps(old(cache)),
    decreases x, 0nat,
{
    let ghost s = choose|s: int| 0 <= s <= u64::MAX && primes@ == primes_upto(s) && x < s * s;
    let ghost first_cache = *cache;
    proof {
        lemma_lehmer_prime(x, s, k as int);
    }
    let len: usize = primes.len();
    let p: u64 = primes[k];
    let y: u64 = x / p;
    let ghost whole = unsieved_count(y as int, k as int, primes@);
    let part: u64 = lehmer(y, primes, cache);
    let after: u64 = pi.wrapping_sub(part);
    if (k as u64) >= c {
        return after;
    }
    proof {
        lemma_root_at_most(y);
        lemma_isqrt_exists(y);
        lemma_isqrt_exists(x);
        let root = isqrt_of(y as int);
        let r = isqrt_of(x as int);
        assert(root <= r) by (nonlinear_arith)
            requires
                root * root <= y,
                y < x,
                x < (r + 1) * (r + 1),
                root >= 0,
                r >= 0,
        ;
        assert(r + 1 <= s) by (nonlinear_arith)
            requires
                r * r <= x,
                x < s * s,
                r >= 0,
                s >= 0,
        ;
        lemma_prime_pi_bounds(root, s);
        lemma_prime_pi_bounds(root, y as int);
    }
    let ghost before_top = *cache;
    let top: u64 = lehmer(isqrt(y), primes, cache);
    proof {
        lemma_keeps(cache, &before_top, &first_cache);
        assert(top <= len);
    }
    let end: usize = top as usize;
    let mut out: u64 = after;
    let mut j: usize = k;
    while j < end
        invariant
            x >= 100,
            0 <= s <= u64::MAX,
            primes@ == primes_upto(s),
            x < s * s,
            prime_pi(round_fourth_root(x) as int) <= k < prime_pi(round_sqrt(x) as int),
            k < primes@.len(),
            p == primes@[k as int],
            p >= 2,
            y == x / p,
            1 <= y < x,
            end == top,
            top == prime_pi(isqrt_of(y as int)),
            top <= primes@.len(),
            k <= j,
            j <= top || j == k,
            cache.wf(primes@),
            cache.keeps(&first_cache),
            out as int == (after + (j - k) + unsieved_count(y as int, j as int, primes@) - whole)
                % 0x1_0000_0000_0000_0000,
        decreases top - j,
    {
        proof {
            lemma_lehmer_second_prime(x, s, k as int, j as int);
        }
        let q: u64 = primes[j];
        let ghost before_inner = *cache;
        let inner: u64 = lehmer(y / q, primes, cache);
        out = out.wrapping_add(j as u64).wrapping_sub(inner);
        proof {
            lemma_keeps(cache, &before_inner, &first_cache);
        }
        j = j + 1;
    }
    proof {
        lemma_unsieved_past_root(y, j as int, s);
    }
    out
}

/// The number of primes up to `x` by Lehmer's formula, with the list of the
/// primes up to some bound above the square root of `x` for `primes` and
/// `cache` as the memo table of the partial sieve function.
///
/// With `a`, `b` and `c` the numbers of primes up to the fourth, square and
/// cube root of `x`, the formula sets out from
/// `phi(x, a) + (a + b - 2)(b - a + 1) / 2` and applies the corrections for
/// each of the primes after the first `a`, up to the first `b`. No filled
/// cell of the table changes.
#[verifier::rlimit(50)]
pub fn lehmer(x: u64, primes: &Vec<u64>, cache: &mut PhiCache) -> (count: u64)
    requires
        exists|s: int| 0 <= s <= u64::MAX && primes@ == primes_upto(s) && x < s * s,
        old(cache).wf(primes@),
    ensures
        count == prime_pi(x as int),
        final(cache).wf(primes@),
        final(cache).keeps(old(cache)),
    decreases x, 1nat,
{
    if x < 100 {
        proof {
            lemma_small_pi(x as int);
        }
        return SMALL_PI[x as usize];
    }
    let ghost s = choose|s: int| 0 <= s <= u64::MAX && primes@ == primes_upto(s) && x < s * s;
    let ghost first_cache = *cache;
    proof {
        lemma_rounded_roots(x);
        lemma_roots_smaller(x);
        lemma_primes_below(s + 1);
        assert(s >= 11) by (nonlinear_arith)
            requires
                x < s * s,
                x >= 100,
                s >= 0,
        ;
        lemma_primes_below_25();
        lemma_prime_pi_bounds(10, s);
        assert forall|i: int| 0 <= i < primes@.len() implies #[trigger] primes@[i] >= 2 by {
            assert(is_prime_number(primes@[i] as int));
        }
    }
    let len: usize = primes.len();
    if x < primes[len - 1] {
        proof {
            lemma_first_above(x, s, 0);
        }
        return num_below(x, primes);
    }
    let a: u64 = lehmer(rounded_fourth_root(x), primes, cache);
    let ghost cache_a = *cache;
    let b: u64 = lehmer(rounded_sqrt(x), primes, cache);
    let ghost cache_b = *cache;
    let c: u64 = lehmer(rounded_cbrt(x), primes, cache);
    let ghost cache_c = *cache;
    proof {
        lemma_keeps(&cache_b, &cache_a, &first_cache);
        lemma_keeps(&cache_c, &cache_b, &first_cache);
        let r = isqrt_of(x as int);
        assert(r + 1 <= s) by (nonlinear_arith)
            requires
                r * r <= x,
                x < s * s,
                r >= 0,
                s >= 0,
        ;
        lemma_prime_pi_bounds(round_fourth_root(x) as int, round_sqrt(x) as int);
        lemma_prime_pi_bounds(round_sqrt(x) as int, s);
        lemma_prime_pi_bounds(round_sqrt(x) as int, x as int);
        lemma_prime_pi_bounds(r, round_sqrt(x) as int);
        lemma_prime_pi_bounds(3, round_fourth_root(x) as int);
        assert(prime_pi(3) == 2);
        lemma_root_at_most(x);
        assert(2 <= a <= b <= 0x1_0000_0000);
        assert(b <= primes@.len());
        lemma_range_sum(a as int, b as int);
        lemma_phi_value_counts(x, a, primes@, s);
    }
    let first: u64 = phi(x, a, primes, cache);
    proof {
        lemma_keeps(cache, &cache_c, &first_cache);
        lemma_unsieved_count(x as int, a as int, primes@);
    }
    let sum: u128 = (a + b - 2) as u128;
    let span: u128 = (b - a + 1) as u128;
    assert(sum * span <= 0x2_0000_0000int * 0x1_0000_0001int) by (nonlinear_arith)
        requires
            0 <= sum <= 0x2_0000_0000,
            0 <= span <= 0x1_0000_0001,
    ;
    let wide: u128 = sum * span / 2;
    let ghost pairs: int = range_sum(a as int, b as int) + a - 1;
    assert(wide == pairs) by {
        assert(sum * span == (a + b - 2) * (b - a + 1)) by (nonlinear_arith)
            requires
                sum == a + b - 2,
                span == b - a + 1,
        ;
    }
    let mut pi: u64 = first.wrapping_add((wide % 0x1_0000_0000_0000_0000u128) as u64);
    let mut k: usize = a as usize;
    let last: usize = b as usize;
    while k < last
        invariant
            x >= 100,
            last == b,
            0 <= s <= u64::MAX,
            primes@ == primes_upto(s),
            x < s * s,
            a == prime_pi(round_fourth_root(x) as int),
            b == prime_pi(round_sqrt(x) as int),
            c == prime_pi(round_cbrt(x) as int),
            2 <= a <= k <= b <= primes@.len(),
            cache.wf(primes@),
            cache.keeps(&first_cache),
            pi as int == (unsieved_count(x as int, k as int, primes@) + pairs + (k - a) - range_sum(
                a as int,
                k as int,
            )) % 0x1_0000_0000_0000_0000,
        decreases b - k,
    {
        proof {
            lemma_lehmer_prime(x, s, k as int);
        }
        let ghost before_round = *cache;
        pi = lehmer_corrections(x, k, c, pi, primes, cache);
        proof {
            lemma_keeps(cache, &before_round, &first_cache);
        }
        k = k + 1;
    }
    proof {
        lemma_isqrt_exists(x);
        lemma_unsieved_past_root(x, b as int, s);
        lemma_prime_pi_bounds(x as int, x as int);
    }
    pi
}

/// The number of primes up to `x`: from a table below one hundred, and by
/// Lehmer's formula from there on.
///
/// The primes that the formula draws on are those up to the square root of
/// `x`, plus one, by the segmented sieve.
pub fn prime_count(x: u64) -> (count: u64)
    ensures
        count == prime_pi(x as int),
{
    proof {
        if x < 100 {
            lemma_small_pi(x as int);
        }
    }
    if x <= 1 {
        return 0;
    }
    if x == 2 {
        return 1;
    }
    if x <= 4 {
        return 2;
    }
    if x == 5 {
        return 3;
    }
    let bound: u64 = isqrt(x) + 1;
    let primes = segmented_eratosthenes(bound);
    let mut cache = PhiCache::new();
    lehmer(x, &primes, &mut cache)
}

/// The number of primes up to each value in `data`, in the order of
/// `data`.
///
/// One list of primes, those up to the square root of the greatest value,
/// plus one, and one memo table serve all the values.
pub fn prime_count_all(data: &Vec<u64>) -> (counts: Vec<u64>)
    ensures
        counts@.len() == data@.len(),
        forall|i: int| 0 <= i < data@.len() ==> #[trigger] counts@[i] == prime_pi(data@[i] as int),
{
    let mut counts: Vec<u64> = Vec::new();
    if data.len() == 0 {
        return counts;
    }
    let mut largest_index: usize = 0;
    let mut largest_val: u64 = 0;
    let mut i: usize = 0;
    while i < data.len()
        invariant
            0 <= i <= data@.len(),
            largest_index < data@.len(),
            forall|j: int| 0 <= j < i ==> #[trigger] data@[j] <= largest_val,
            largest_val == 0 || data@[largest_index as int] == largest_val,
        decreases data@.len() - i,
    {
        if data[i] > largest_val {
            largest_index = i;
            largest_val = data[i];
        }
        i = i + 1;
    }
    let bound: u64 = isqrt(largest_val) + 1;
    let primes = segmented_eratosthenes(bound);
    let mut cache = PhiCache::new();
    proof {
        assert(largest_val < bound * bound);
        assert forall|j: int| 0 <= j < data@.len() implies #[trigger] data@[j] < bound * bound by {
            assert(data@[j] <= largest_val);
        }
    }
    let max_val: u64 = lehmer(largest_val, &primes, &mut cache);
    let mut i: usize = 0;
    while i < data.len()
        invariant
            0 <= i <= data@.len(),
            largest_index < data@.len(),
            largest_val == 0 || data@[largest_index as int] == largest_val,
            forall|j: int| 0 <= j < data@.len() ==> #[trigger] data@[j] <= largest_val,
            forall|j: int| 0 <= j < data@.len() ==> #[trigger] data@[j] < bound * bound,
            primes@ == primes_upto(bound as int),
            cache.wf(primes@),
            max_val == prime_pi(largest_val as int),
            counts@.len() == i,
            forall|j: int| 0 <= j < i ==> #[trigger] counts@[j] == prime_pi(data@[j] as int),
        decreases data@.len() - i,
    {
        if i == largest_index {
            proof {
                if largest_val == 0 {
                    assert(data@[i as int] <= largest_val);
                }
            }
            counts.push(max_val);
        } else if data[i] < 6 {
            counts.push(prime_count(data[i]));
        } else {
            assert(data@[i as int] < bound * bound);
            counts.push(lehmer(data[i], &primes, &mut cache));
        }
        i = i + 1;
    }
    counts
}

} // verus!
