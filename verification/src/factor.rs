//! Greatest common divisors, least common multiples, perfect powers, and
//! the factorisation of large numbers with Brent's variant of Pollard's rho
//! method.

use vstd::prelude::*;
use crate::arith::{
    icbrt, is_prime_number, isqrt, lemma_divides_combination, lemma_divides_multiple,
    lemma_divides_quotient, lemma_divides_transitive, lemma_divisor_bounds, lemma_multiple_divides,
    lemma_prime_from_small_divisors, lemma_smallest_prime_factor, smallest_prime_factor,
};
use crate::factorization::{
    is_prime_factorization, lemma_prime_factors, lemma_product_concat, lemma_product_push,
    prime_factors, product,
};
use crate::prime::{
    factorize_wp, is_prime, lemma_primes_upto_cover, prime_sieve, primes_cover, trial_division,
};
pub use crate::rho::rho;

verus! {

/// The greatest common divisor by Euclid's recurrence; zero for two zeros.
pub open spec fn gcd_of(a: nat, b: nat) -> nat
    decreases b,
{
    if b == 0 {
        a
    } else {
        gcd_of(b, a % b)
    }
}

/// `gcd_of(a, b)` divides both numbers, and every common divisor of the two
/// divides it.
pub proof fn lemma_gcd_of(a: nat, b: nat)
    ensures
        a == 0 && b == 0 <==> gcd_of(a, b) == 0,
        gcd_of(a, b) > 0 ==> a % gcd_of(a, b) == 0 && b % gcd_of(a, b) == 0,
        forall|d: int|
            d > 0 && a as int % d == 0 && b as int % d == 0 ==> #[trigger] (gcd_of(a, b) as int
                % d) == 0,
    decreases b,
{
    if b == 0 {
        if a > 0 {
            lemma_multiple_divides(a as int, 1);
        }
    } else {
        lemma_gcd_of(b, a % b);
        let g = gcd_of(a, b) as int;
        let r = (a % b) as int;
        let q = (a / b) as int;
        vstd::arithmetic::div_mod::lemma_fundamental_div_mod(a as int, b as int);
        assert(g > 0);
        lemma_divides_multiple(g, b as int, q);
        lemma_divides_combination(g, (b as int) * q, r);
        assert forall|d: int| d > 0 && a as int % d == 0 && b as int % d == 0 implies #[trigger] (g
            % d) == 0 by {
            lemma_divides_multiple(d, b as int, q);
            lemma_divides_combination(d, a as int, (b as int) * q);
            assert(r == a - b * q);
        }
    }
}

/// The greatest common divisor does not depend on the order of its
/// arguments.
pub proof fn lemma_gcd_of_symmetric(a: nat, b: nat)
    ensures
        gcd_of(a, b) == gcd_of(b, a),
{
    lemma_gcd_of(a, b);
    lemma_gcd_of(b, a);
    let g = gcd_of(a, b) as int;
    let h = gcd_of(b, a) as int;
    if g > 0 {
        assert(h % g == 0);
        assert(g % h == 0);
        lemma_divisor_bounds(g, h);
        lemma_divisor_bounds(h, g);
    }
}

/// The greatest common divisor of `a` and `b` by Euclid's algorithm; zero
/// if both are zero.
pub fn gcd(a: u64, b: u64) -> (g: u64)
    ensures
        g == gcd_of(a as nat, b as nat),
        g == 0 <==> a == 0 && b == 0,
        g > 0 ==> a % g == 0 && b % g == 0,
        forall|d: int| d > 0 && a as int % d == 0 && b as int % d == 0 ==> #[trigger] (g as int % d)
            == 0,
{
    let mut x: u64 = a;
    let mut y: u64 = b;
    proof {
        lemma_gcd_of(a as nat, b as nat);
        lemma_gcd_of_symmetric(a as nat, b as nat);
    }
    if x < y {
        x = b;
        y = a;
    }
    while y != 0
        invariant
            gcd_of(x as nat, y as nat) == gcd_of(a as nat, b as nat),
        decreases y,
    {
        let r: u64 = x % y;
        x = y;
        y = r;
    }
    x
}

/// The greatest common divisor of all entries of `s`; zero for the empty
/// sequence.
pub open spec fn gcd_all_of(s: Seq<u64>) -> nat
    decreases s.len(),
{
    if s.len() == 0 {
        0
    } else {
        gcd_of(s.last() as nat, gcd_all_of(s.drop_last()))
    }
}

/// `gcd_all_of(s)` divides every entry of `s`, and every common divisor of
/// the entries divides it.
pub proof fn lemma_gcd_all_of(s: Seq<u64>)
    ensures
        gcd_all_of(s) <= u64::MAX,
        gcd_all_of(s) == 0 <==> forall|i: int| 0 <= i < s.len() ==> #[trigger] s[i] == 0,
        forall|i: int|
            0 <= i < s.len() && gcd_all_of(s) > 0 ==> #[trigger] s[i] as int % (gcd_all_of(
                s,
            ) as int) == 0,
        forall|d: int|
            d > 0 && (forall|i: int| 0 <= i < s.len() ==> #[trigger] s[i] as int % d == 0) ==> (
            #[trigger] (gcd_all_of(s) as int % d)) == 0,
    decreases s.len(),
{
    if s.len() > 0 {
        let init = s.drop_last();
        lemma_gcd_all_of(init);
        let h = gcd_all_of(init);
        let g = gcd_all_of(s);
        lemma_gcd_of(s.last() as nat, h);
        if g > 0 {
            lemma_divisor_bounds(g as int, if s.last() > 0 {
                s.last() as int
            } else {
                h as int
            });
        }
        assert forall|i: int| 0 <= i < s.len() && g > 0 implies #[trigger] s[i] as int % (
        g as int) == 0 by {
            if i < s.len() - 1 {
                assert(init[i] == s[i]);
                if h > 0 {
                    lemma_divides_transitive(g as int, h as int, s[i] as int);
                }
            }
        }
        assert forall|d: int|
            d > 0 && (forall|i: int|
                0 <= i < s.len() ==> #[trigger] s[i] as int % d == 0) implies (#[trigger] (g as int
            % d)) == 0 by {
            assert forall|i: int| 0 <= i < init.len() implies #[trigger] init[i] as int % d
                == 0 by {
                assert(init[i] == s[i]);
            }
            assert(h as int % d == 0);
            assert(s[s.len() - 1] as int % d == 0);
        }
        if g == 0 {
            assert forall|i: int| 0 <= i < s.len() implies #[trigger] s[i] == 0 by {
                if i < s.len() - 1 {
                    assert(init[i] == s[i]);
                }
            }
        } else {
            if forall|i: int| 0 <= i < s.len() ==> #[trigger] s[i] == 0 {
                assert(s[s.len() - 1] == 0);
                assert forall|i: int| 0 <= i < init.len() implies #[trigger] init[i] == 0 by {
                    assert(init[i] == s[i]);
                }
            }
        }
    }
}

/// The greatest common divisor of all numbers in `set`; zero for an empty
/// set.
pub fn gcd_all(set: &[u64]) -> (g: u64)
    ensures
        g == gcd_all_of(set@),
        g == 0 <==> forall|i: int| 0 <= i < set@.len() ==> #[trigger] set@[i] == 0,
        forall|i: int| 0 <= i < set@.len() && g > 0 ==> #[trigger] set@[i] % g == 0,
        forall|d: int|
            d > 0 && (forall|i: int| 0 <= i < set@.len() ==> #[trigger] set@[i] as int % d == 0)
                ==> (#[trigger] (g as int % d)) == 0,
{
    let mut g: u64 = 0;
    let mut k: usize = 0;
    while k < set.len()
        invariant
            0 <= k <= set@.len(),
            g == gcd_all_of(set@.subrange(0, k as int)),
        decreases set@.len() - k,
    {
        proof {
            assert(set@.subrange(0, k + 1).drop_last() =~= set@.subrange(0, k as int));
        }
        g = gcd(set[k], g);
        k = k + 1;
    }
    proof {
        assert(set@.subrange(0, k as int) =~= set@);
        lemma_gcd_all_of(set@);
    }
    g
}

/// Whether `a` and `b` have no common divisor other than one.
pub fn coprime(a: u64, b: u64) -> (yes: bool)
    ensures
        yes == (gcd_of(a as nat, b as nat) == 1),
{
    gcd(a, b) == 1
}

/// The least common multiple as the product divided by the greatest common
/// divisor; zero if either number is zero.
pub open spec fn lcm_of(a: nat, b: nat) -> nat {
    if a == 0 && b == 0 {
        0
    } else {
        (a * b) / gcd_of(a, b)
    }
}

/// `lcm_of(a, b)` is a multiple of both numbers.
pub proof fn lemma_lcm_of(a: nat, b: nat)
    requires
        a > 0,
        b > 0,
    ensures
        lcm_of(a, b) > 0,
        lcm_of(a, b) % a == 0,
        lcm_of(a, b) % b == 0,
{
    lemma_gcd_of(a, b);
    let g = gcd_of(a, b) as int;
    lemma_divides_quotient(g, a as int);
    lemma_divides_quotient(g, b as int);
    lemma_divisor_bounds(g, a as int);
    lemma_divisor_bounds(g, b as int);
    let x = a as int / g;
    let y = b as int / g;
    assert(a * b == g * (x * b) && a * b == g * (a * y) && x * b == b * x && a * y >= 1) by (nonlinear_arith)
        requires
            a == g * x,
            b == g * y,
            a >= 1,
            y >= 1,
    ;
    lemma_multiple_divides(g, x * b);
    lemma_multiple_divides(g, a * y);
    lemma_multiple_divides(b as int, x);
    lemma_multiple_divides(a as int, y);
}

/// Bezout's identity: the greatest common divisor of two numbers is a sum
/// of integer multiples of the two. The result holds the two multipliers.
pub proof fn lemma_bezout(a: nat, b: nat) -> (xy: (int, int))
    ensures
        a * xy.0 + b * xy.1 == gcd_of(a, b),
    decreases b,
{
    if b == 0 {
        assert(a * 1 + b * 0 == a) by (nonlinear_arith);
        (1, 0)
    } else {
        let (x, y) = lemma_bezout(b, a % b);
        let q = (a / b) as int;
        let r = (a % b) as int;
        let ai = a as int;
        let bi = b as int;
        vstd::arithmetic::div_mod::lemma_fundamental_div_mod(ai, bi);
        assert(bi * x + r * y == gcd_of(b, a % b));
        assert(ai * y + bi * (x - q * y) == bi * x + r * y) by (nonlinear_arith)
            requires
                ai == bi * q + r,
        ;
        assert(gcd_of(a, b) == gcd_of(b, a % b));
        (y, x - q * y)
    }
}

/// `lcm_of(a, b)` divides every common multiple of `a` and `b`: it is the
/// least of them.
pub proof fn lemma_lcm_of_least(a: nat, b: nat, m: int)
    requires
        a > 0,
        b > 0,
        m % (a as int) == 0,
        m % (b as int) == 0,
    ensures
        m % (lcm_of(a, b) as int) == 0,
{
    lemma_lcm_of(a, b);
    lemma_gcd_of(a, b);
    let g = gcd_of(a, b) as int;
    let l = lcm_of(a, b) as int;
    let (x, y) = lemma_bezout(a, b);
    lemma_divides_quotient(a as int, m);
    lemma_divides_quotient(b as int, m);
    let s = m / (a as int);
    let t = m / (b as int);
    lemma_divides_quotient(g, a as int);
    let ag = a as int / g;
    assert((a * b) == g * (ag * b)) by (nonlinear_arith)
        requires
            a == g * ag,
    ;
    lemma_multiple_divides(g, ag * b);
    assert(l == ag * b);
    let k = x * t + y * s;
    let ai = a as int;
    let bi = b as int;
    let ab = ai * bi;
    assert(m * (ai * x) == ab * (x * t)) by (nonlinear_arith)
        requires
            m == bi * t,
            ab == ai * bi,
    ;
    assert(m * (bi * y) == ab * (y * s)) by (nonlinear_arith)
        requires
            m == ai * s,
            ab == ai * bi,
    ;
    assert(m * g == m * (ai * x) + m * (bi * y)) by (nonlinear_arith)
        requires
            ai * x + bi * y == g,
    ;
    assert(ab * (x * t) + ab * (y * s) == ab * k) by (nonlinear_arith)
        requires
            k == x * t + y * s,
    ;
    assert(m * g == ab * k);
    assert(ab == g * l);
    assert(m * g == g * (l * k)) by (nonlinear_arith)
        requires
            m * g == ab * k,
            ab == g * l,
    ;
    assert(m == l * k) by (nonlinear_arith)
        requires
            m * g == g * (l * k),
            g > 0,
    ;
    lemma_multiple_divides(l, k);
}

/// The least common multiple of `a` and `b`; zero if either is zero.
///
/// The product of the two numbers must fit the integer type.
pub fn lcm(a: u64, b: u64) -> (m: u64)
    requires
        a * b <= u64::MAX,
    ensures
        m == lcm_of(a as nat, b as nat),
        a == 0 || b == 0 ==> m == 0,
        a > 0 && b > 0 ==> m > 0 && m % a == 0 && m % b == 0,
        a > 0 && b > 0 ==> forall|c: int|
            c % (a as int) == 0 && c % (b as int) == 0 ==> #[trigger] (c % (m as int)) == 0,
{
    if a == 0 && b == 0 {
        return 0;
    }
    let g: u64 = gcd(a, b);
    proof {
        if a > 0 && b > 0 {
            lemma_lcm_of(a as nat, b as nat);
            assert forall|c: int| c % (a as int) == 0 && c % (b as int) == 0 implies #[trigger] (c
                % (lcm_of(a as nat, b as nat) as int)) == 0 by {
                lemma_lcm_of_least(a as nat, b as nat, c);
            }
        } else {
            assert(a * b == 0) by (nonlinear_arith)
                requires
                    a == 0 || b == 0,
            ;
        }
    }
    a * b / g
}

/// The least common multiple of all entries of `s`; one for the empty
/// sequence.
pub open spec fn lcm_all_of(s: Seq<u64>) -> nat
    decreases s.len(),
{
    if s.len() == 0 {
        1
    } else {
        lcm_of(s.last() as nat, lcm_all_of(s.drop_last()))
    }
}

/// The least common multiple of all numbers in `set`; one for an empty set.
///
/// Each number times the least common multiple of those before it must fit
/// the integer type.
pub fn lcm_all(set: &[u64]) -> (m: u64)
    requires
        forall|k: int|
            0 <= k < set@.len() ==> #[trigger] set@[k] * lcm_all_of(set@.subrange(0, k))
                <= u64::MAX,
    ensures
        m == lcm_all_of(set@),
{
    let mut m: u64 = 1;
    let mut k: usize = 0;
    while k < set.len()
        invariant
            0 <= k <= set@.len(),
            m == lcm_all_of(set@.subrange(0, k as int)),
            forall|j: int|
                0 <= j < set@.len() ==> #[trigger] set@[j] * lcm_all_of(set@.subrange(0, j))
                    <= u64::MAX,
        decreases set@.len() - k,
    {
        proof {
            assert(set@.subrange(0, k + 1).drop_last() =~= set@.subrange(0, k as int));
            assert(set@[k as int] * lcm_all_of(set@.subrange(0, k as int)) <= u64::MAX);
        }
        m = lcm(set[k], m);
        k = k + 1;
    }
    proof {
        assert(set@.subrange(0, k as int) =~= set@);
    }
    m
}

/// The values that the lowest byte of a square can take.
pub open spec fn square_byte(b: u64) -> bool {
    b == 0 || b % 8 == 1 || b % 32 == 4 || b % 128 == 16 || b == 64
}

/// Whether each value of the lowest byte is one that a square can have.
pub const GOOD_BYTES: [bool; 256] = [
    true, true, false, false, true, false, false, false,
    false, true, false, false, false, false, false, false,
    true, true, false, false, false, false, false, false,
    false, true, false, false, false, false, false, false,
    false, true, false, false, true, false, false, false,
    false, true, false, false, false, false, false, false,
    false, true, false, false, false, false, false, false,
    false, true, false, false, false, false, false, false,
    true, true, false, false, true, false, false, false,
    false, true, false, false, false, false, false, false,
    false, true, false, false, false, false, false, false,
    false, true, false, false, false, false, false, false,
    false, true, false, false, true, false, false, false,
    false, true, false, false, false, false, false, false,
    false, true, false, false, false, false, false, false,
    false, true, false, false, false, false, false, false,
    false, true, false, false, true, false, false, false,
    false, true, false, false, false, false, false, false,
    true, true, false, false, false, false, false, false,
    false, true, false, false, false, false, false, false,
    false, true, false, false, true, false, false, false,
    false, true, false, false, false, false, false, false,
    false, true, false, false, false, false, false, false,
    false, true, false, false, false, false, false, false,
    false, true, false, false, true, false, false, false,
    false, true, false, false, false, false, false, false,
    false, true, false, false, false, false, false, false,
    false, true, false, false, false, false, false, false,
    false, true, false, false, true, false, false, false,
    false, true, false, false, false, false, false, false,
    false, true, false, false, false, false, false, false,
    false, true, false, false, false, false, false, false,
];

/// The table `GOOD_BYTES` marks the values that the lowest byte of a square
/// can take.
pub proof fn lemma_good_bytes(b: u64)
    requires
        b < 256,
    ensures
        GOOD_BYTES@[b as int] == square_byte(b),
{
    if b == 0 {
        assert(GOOD_BYTES@[0] == square_byte(0u64));
    } else if b == 1 {
        assert(GOOD_BYTES@[1] == square_byte(1u64));
    } else if b == 2 {
        assert(GOOD_BYTES@[2] == square_byte(2u64));
    } else if b == 3 {
        assert(GOOD_BYTES@[3] == square_byte(3u64));
    } else if b == 4 {
        assert(GOOD_BYTES@[4] == square_byte(4u64));
    } else if b == 5 {
        assert(GOOD_BYTES@[5] == square_byte(5u64));
    } else if b == 6 {
        assert(GOOD_BYTES@[6] == square_byte(6u64));
    } else if b == 7 {
        assert(GOOD_BYTES@[7] == square_byte(7u64));
    } else if b == 8 {
        assert(GOOD_BYTES@[8] == square_byte(8u64));
    } else if b == 9 {
        assert(GOOD_BYTES@[9] == square_byte(9u64));
    } else if b == 10 {
        assert(GOOD_BYTES@[10] == square_byte(10u64));
    } else if b == 11 {
        assert(GOOD_BYTES@[11] == square_byte(11u64));
    } else if b == 12 {
        assert(GOOD_BYTES@[12] == square_byte(12u64));
    } else if b == 13 {
        assert(GOOD_BYTES@[13] == square_byte(13u64));
    } else if b == 14 {
        assert(GOOD_BYTES@[14] == square_byte(14u64));
    } else if b == 15 {
        assert(GOOD_BYTES@[15] == square_byte(15u64));
    } else if b == 16 {
        assert(GOOD_BYTES@[16] == square_byte(16u64));
    } else if b == 17 {
        assert(GOOD_BYTES@[17] == square_byte(17u64));
    } else if b == 18 {
        assert(GOOD_BYTES@[18] == square_byte(18u64));
    } else if b == 19 {
        assert(GOOD_BYTES@[19] == square_byte(19u64));
    } else if b == 20 {
        assert(GOOD_BYTES@[20] == square_byte(20u64));
    } else if b == 21 {
        assert(GOOD_BYTES@[21] == square_byte(21u64));
    } else if b == 22 {
        assert(GOOD_BYTES@[22] == square_byte(22u64));
    } else if b == 23 {
        assert(GOOD_BYTES@[23] == square_byte(23u64));
    } else if b == 24 {
        assert(GOOD_BYTES@[24] == square_byte(24u64));
    } else if b == 25 {
        assert(GOOD_BYTES@[25] == square_byte(25u64));
    } else if b == 26 {
        assert(GOOD_BYTES@[26] == square_byte(26u64));
    } else if b == 27 {
        assert(GOOD_BYTES@[27] == square_byte(27u64));
    } else if b == 28 {
        assert(GOOD_BYTES@[28] == square_byte(28u64));
    } else if b == 29 {
        assert(GOOD_BYTES@[29] == square_byte(29u64));
    } else if b == 30 {
        assert(GOOD_BYTES@[30] == square_byte(30u64));
    } else if b == 31 {
        assert(GOOD_BYTES@[31] == square_byte(31u64));
    } else if b == 32 {
        assert(GOOD_BYTES@[32] == square_byte(32u64));
    } else if b == 33 {
        assert(GOOD_BYTES@[33] == square_byte(33u64));
    } else if b == 34 {
        assert(GOOD_BYTES@[34] == square_byte(34u64));
    } else if b == 35 {
        assert(GOOD_BYTES@[35] == square_byte(35u64));
    } else if b == 36 {
        assert(GOOD_BYTES@[36] == square_byte(36u64));
    } else if b == 37 {
        assert(GOOD_BYTES@[37] == square_byte(37u64));
    } else if b == 38 {
        assert(GOOD_BYTES@[38] == square_byte(38u64));
    } else if b == 39 {
        assert(GOOD_BYTES@[39] == square_byte(39u64));
    } else if b == 40 {
        assert(GOOD_BYTES@[40] == square_byte(40u64));
    } else if b == 41 {
        assert(GOOD_BYTES@[41] == square_byte(41u64));
    } else if b == 42 {
        assert(GOOD_BYTES@[42] == square_byte(42u64));
    } else if b == 43 {
        assert(GOOD_BYTES@[43] == square_byte(43u64));
    } else if b == 44 {
        assert(GOOD_BYTES@[44] == square_byte(44u64));
    } else if b == 45 {
        assert(GOOD_BYTES@[45] == square_byte(45u64));
    } else if b == 46 {
        assert(GOOD_BYTES@[46] == square_byte(46u64));
    } else if b == 47 {
        assert(GOOD_BYTES@[47] == square_byte(47u64));
    } else if b == 48 {
        assert(GOOD_BYTES@[48] == square_byte(48u64));
    } else if b == 49 {
        assert(GOOD_BYTES@[49] == square_byte(49u64));
    } else if b == 50 {
        assert(GOOD_BYTES@[50] == square_byte(50u64));
    } else if b == 51 {
        assert(GOOD_BYTES@[51] == square_byte(51u64));
    } else if b == 52 {
        assert(GOOD_BYTES@[52] == square_byte(52u64));
    } else if b == 53 {
        assert(GOOD_BYTES@[53] == square_byte(53u64));
    } else if b == 54 {
        assert(GOOD_BYTES@[54] == square_byte(54u64));
    } else if b == 55 {
        assert(GOOD_BYTES@[55] == square_byte(55u64));
    } else if b == 56 {
        assert(GOOD_BYTES@[56] == square_byte(56u64));
    } else if b == 57 {
        assert(GOOD_BYTES@[57] == square_byte(57u64));
    } else if b == 58 {
        assert(GOOD_BYTES@[58] == square_byte(58u64));
    } else if b == 59 {
        assert(GOOD_BYTES@[59] == square_byte(59u64));
    } else if b == 60 {
        assert(GOOD_BYTES@[60] == square_byte(60u64));
    } else if b == 61 {
        assert(GOOD_BYTES@[61] == square_byte(61u64));
    } else if b == 62 {
        assert(GOOD_BYTES@[62] == square_byte(62u64));
    } else if b == 63 {
        assert(GOOD_BYTES@[63] == square_byte(63u64));
    } else if b == 64 {
        assert(GOOD_BYTES@[64] == square_byte(64u64));
    } else if b == 65 {
        assert(GOOD_BYTES@[65] == square_byte(65u64));
    } else if b == 66 {
        assert(GOOD_BYTES@[66] == square_byte(66u64));
    } else if b == 67 {
        assert(GOOD_BYTES@[67] == square_byte(67u64));
    } else if b == 68 {
        assert(GOOD_BYTES@[68] == square_byte(68u64));
    } else if b == 69 {
        assert(GOOD_BYTES@[69] == square_byte(69u64));
    } else if b == 70 {
        assert(GOOD_BYTES@[70] == square_byte(70u64));
    } else if b == 71 {
        assert(GOOD_BYTES@[71] == square_byte(71u64));
    } else if b == 72 {
        assert(GOOD_BYTES@[72] == square_byte(72u64));
    } else if b == 73 {
        assert(GOOD_BYTES@[73] == square_byte(73u64));
    } else if b == 74 {
        assert(GOOD_BYTES@[74] == square_byte(74u64));
    } else if b == 75 {
        assert(GOOD_BYTES@[75] == square_byte(75u64));
    } else if b == 76 {
        assert(GOOD_BYTES@[76] == square_byte(76u64));
    } else if b == 77 {
        assert(GOOD_BYTES@[77] == square_byte(77u64));
    } else if b == 78 {
        assert(GOOD_BYTES@[78] == square_byte(78u64));
    } else if b == 79 {
        assert(GOOD_BYTES@[79] == square_byte(79u64));
    } else if b == 80 {
        assert(GOOD_BYTES@[80] == square_byte(80u64));
    } else if b == 81 {
        assert(GOOD_BYTES@[81] == square_byte(81u64));
    } else if b == 82 {
        assert(GOOD_BYTES@[82] == square_byte(82u64));
    } else if b == 83 {
        assert(GOOD_BYTES@[83] == square_byte(83u64));
    } else if b == 84 {
        assert(GOOD_BYTES@[84] == square_byte(84u64));
    } else if b == 85 {
        assert(GOOD_BYTES@[85] == square_byte(85u64));
    } else if b == 86 {
        assert(GOOD_BYTES@[86] == square_byte(86u64));
    } else if b == 87 {
        assert(GOOD_BYTES@[87] == square_byte(87u64));
    } else if b == 88 {
        assert(GOOD_BYTES@[88] == square_byte(88u64));
    } else if b == 89 {
        assert(GOOD_BYTES@[89] == square_byte(89u64));
    } else if b == 90 {
        assert(GOOD_BYTES@[90] == square_byte(90u64));
    } else if b == 91 {
        assert(GOOD_BYTES@[91] == square_byte(91u64));
    } else if b == 92 {
        assert(GOOD_BYTES@[92] == square_byte(92u64));
    } else if b == 93 {
        assert(GOOD_BYTES@[93] == square_byte(93u64));
    } else if b == 94 {
        assert(GOOD_BYTES@[94] == square_byte(94u64));
    } else if b == 95 {
        assert(GOOD_BYTES@[95] == square_byte(95u64));
    } else if b == 96 {
        assert(GOOD_BYTES@[96] == square_byte(96u64));
    } else if b == 97 {
        assert(GOOD_BYTES@[97] == square_byte(97u64));
    } else if b == 98 {
        assert(GOOD_BYTES@[98] == square_byte(98u64));
    } else if b == 99 {
        assert(GOOD_BYTES@[99] == square_byte(99u64));
    } else if b == 100 {
        assert(GOOD_BYTES@[100] == square_byte(100u64));
    } else if b == 101 {
        assert(GOOD_BYTES@[101] == square_byte(101u64));
    } else if b == 102 {
        assert(GOOD_BYTES@[102] == square_byte(102u64));
    } else if b == 103 {
        assert(GOOD_BYTES@[103] == square_byte(103u64));
    } else if b == 104 {
        assert(GOOD_BYTES@[104] == square_byte(104u64));
    } else if b == 105 {
        assert(GOOD_BYTES@[105] == square_byte(105u64));
    } else if b == 106 {
        assert(GOOD_BYTES@[106] == square_byte(106u64));
    } else if b == 107 {
        assert(GOOD_BYTES@[107] == square_byte(107u64));
    } else if b == 108 {
        assert(GOOD_BYTES@[108] == square_byte(108u64));
    } else if b == 109 {
        assert(GOOD_BYTES@[109] == square_byte(109u64));
    } else if b == 110 {
        assert(GOOD_BYTES@[110] == square_byte(110u64));
    } else if b == 111 {
        assert(GOOD_BYTES@[111] == square_byte(111u64));
    } else if b == 112 {
        assert(GOOD_BYTES@[112] == square_byte(112u64));
    } else if b == 113 {
        assert(GOOD_BYTES@[113] == square_byte(113u64));
    } else if b == 114 {
        assert(GOOD_BYTES@[114] == square_byte(114u64));
    } else if b == 115 {
        assert(GOOD_BYTES@[115] == square_byte(115u64));
    } else if b == 116 {
        assert(GOOD_BYTES@[116] == square_byte(116u64));
    } else if b == 117 {
        assert(GOOD_BYTES@[117] == square_byte(117u64));
    } else if b == 118 {
        assert(GOOD_BYTES@[118] == square_byte(118u64));
    } else if b == 119 {
        assert(GOOD_BYTES@[119] == square_byte(119u64));
    } else if b == 120 {
        assert(GOOD_BYTES@[120] == square_byte(120u64));
    } else if b == 121 {
        assert(GOOD_BYTES@[121] == square_byte(121u64));
    } else if b == 122 {
        assert(GOOD_BYTES@[122] == square_byte(122u64));
    } else if b == 123 {
        assert(GOOD_BYTES@[123] == square_byte(123u64));
    } else if b == 124 {
        assert(GOOD_BYTES@[124] == square_byte(124u64));
    } else if b == 125 {
        assert(GOOD_BYTES@[125] == square_byte(125u64));
    } else if b == 126 {
        assert(GOOD_BYTES@[126] == square_byte(126u64));
    } else if b == 127 {
        assert(GOOD_BYTES@[127] == square_byte(127u64));
    } else if b == 128 {
        assert(GOOD_BYTES@[128] == square_byte(128u64));
    } else if b == 129 {
        assert(GOOD_BYTES@[129] == square_byte(129u64));
    } else if b == 130 {
        assert(GOOD_BYTES@[130] == square_byte(130u64));
    } else if b == 131 {
        assert(GOOD_BYTES@[131] == square_byte(131u64));
    } else if b == 132 {
        assert(GOOD_BYTES@[132] == square_byte(132u64));
    } else if b == 133 {
        assert(GOOD_BYTES@[133] == square_byte(133u64));
    } else if b == 134 {
        assert(GOOD_BYTES@[134] == square_byte(134u64));
    } else if b == 135 {
        assert(GOOD_BYTES@[135] == square_byte(135u64));
    } else if b == 136 {
        assert(GOOD_BYTES@[136] == square_byte(136u64));
    } else if b == 137 {
        assert(GOOD_BYTES@[137] == square_byte(137u64));
    } else if b == 138 {
        assert(GOOD_BYTES@[138] == square_byte(138u64));
    } else if b == 139 {
        assert(GOOD_BYTES@[139] == square_byte(139u64));
    } else if b == 140 {
        assert(GOOD_BYTES@[140] == square_byte(140u64));
    } else if b == 141 {
        assert(GOOD_BYTES@[141] == square_byte(141u64));
    } else if b == 142 {
        assert(GOOD_BYTES@[142] == square_byte(142u64));
    } else if b == 143 {
        assert(GOOD_BYTES@[143] == square_byte(143u64));
    } else if b == 144 {
        assert(GOOD_BYTES@[144] == square_byte(144u64));
    } else if b == 145 {
        assert(GOOD_BYTES@[145] == square_byte(145u64));
    } else if b == 146 {
        assert(GOOD_BYTES@[146] == square_byte(146u64));
    } else if b == 147 {
        assert(GOOD_BYTES@[147] == square_byte(147u64));
    } else if b == 148 {
        assert(GOOD_BYTES@[148] == square_byte(148u64));
    } else if b == 149 {
        assert(GOOD_BYTES@[149] == square_byte(149u64));
    } else if b == 150 {
        assert(GOOD_BYTES@[150] == square_byte(150u64));
    } else if b == 151 {
        assert(GOOD_BYTES@[151] == square_byte(151u64));
    } else if b == 152 {
        assert(GOOD_BYTES@[152] == square_byte(152u64));
    } else if b == 153 {
        assert(GOOD_BYTES@[153] == square_byte(153u64));
    } else if b == 154 {
        assert(GOOD_BYTES@[154] == square_byte(154u64));
    } else if b == 155 {
        assert(GOOD_BYTES@[155] == square_byte(155u64));
    } else if b == 156 {
        assert(GOOD_BYTES@[156] == square_byte(156u64));
    } else if b == 157 {
        assert(GOOD_BYTES@[157] == square_byte(157u64));
    } else if b == 158 {
        assert(GOOD_BYTES@[158] == square_byte(158u64));
    } else if b == 159 {
        assert(GOOD_BYTES@[159] == square_byte(159u64));
    } else if b == 160 {
        assert(GOOD_BYTES@[160] == square_byte(160u64));
    } else if b == 161 {
        assert(GOOD_BYTES@[161] == square_byte(161u64));
    } else if b == 162 {
        assert(GOOD_BYTES@[162] == square_byte(162u64));
    } else if b == 163 {
        assert(GOOD_BYTES@[163] == square_byte(163u64));
    } else if b == 164 {
        assert(GOOD_BYTES@[164] == square_byte(164u64));
    } else if b == 165 {
        assert(GOOD_BYTES@[165] == square_byte(165u64));
    } else if b == 166 {
        assert(GOOD_BYTES@[166] == square_byte(166u64));
    } else if b == 167 {
        assert(GOOD_BYTES@[167] == square_byte(167u64));
    } else if b == 168 {
        assert(GOOD_BYTES@[168] == square_byte(168u64));
    } else if b == 169 {
        assert(GOOD_BYTES@[169] == square_byte(169u64));
    } else if b == 170 {
        assert(GOOD_BYTES@[170] == square_byte(170u64));
    } else if b == 171 {
        assert(GOOD_BYTES@[171] == square_byte(171u64));
    } else if b == 172 {
        assert(GOOD_BYTES@[172] == square_byte(172u64));
    } else if b == 173 {
        assert(GOOD_BYTES@[173] == square_byte(173u64));
    } else if b == 174 {
        assert(GOOD_BYTES@[174] == square_byte(174u64));
    } else if b == 175 {
        assert(GOOD_BYTES@[175] == square_byte(175u64));
    } else if b == 176 {
        assert(GOOD_BYTES@[176] == square_byte(176u64));
    } else if b == 177 {
        assert(GOOD_BYTES@[177] == square_byte(177u64));
    } else if b == 178 {
        assert(GOOD_BYTES@[178] == square_byte(178u64));
    } else if b == 179 {
        assert(GOOD_BYTES@[179] == square_byte(179u64));
    } else if b == 180 {
        assert(GOOD_BYTES@[180] == square_byte(180u64));
    } else if b == 181 {
        assert(GOOD_BYTES@[181] == square_byte(181u64));
    } else if b == 182 {
        assert(GOOD_BYTES@[182] == square_byte(182u64));
    } else if b == 183 {
        assert(GOOD_BYTES@[183] == square_byte(183u64));
    } else if b == 184 {
        assert(GOOD_BYTES@[184] == square_byte(184u64));
    } else if b == 185 {
        assert(GOOD_BYTES@[185] == square_byte(185u64));
    } else if b == 186 {
        assert(GOOD_BYTES@[186] == square_byte(186u64));
    } else if b == 187 {
        assert(GOOD_BYTES@[187] == square_byte(187u64));
    } else if b == 188 {
        assert(GOOD_BYTES@[188] == square_byte(188u64));
    } else if b == 189 {
        assert(GOOD_BYTES@[189] == square_byte(189u64));
    } else if b == 190 {
        assert(GOOD_BYTES@[190] == square_byte(190u64));
    } else if b == 191 {
        assert(GOOD_BYTES@[191] == square_byte(191u64));
    } else if b == 192 {
        assert(GOOD_BYTES@[192] == square_byte(192u64));
    } else if b == 193 {
        assert(GOOD_BYTES@[193] == square_byte(193u64));
    } else if b == 194 {
        assert(GOOD_BYTES@[194] == square_byte(194u64));
    } else if b == 195 {
        assert(GOOD_BYTES@[195] == square_byte(195u64));
    } else if b == 196 {
        assert(GOOD_BYTES@[196] == square_byte(196u64));
    } else if b == 197 {
        assert(GOOD_BYTES@[197] == square_byte(197u64));
    } else if b == 198 {
        assert(GOOD_BYTES@[198] == square_byte(198u64));
    } else if b == 199 {
        assert(GOOD_BYTES@[199] == square_byte(199u64));
    } else if b == 200 {
        assert(GOOD_BYTES@[200] == square_byte(200u64));
    } else if b == 201 {
        assert(GOOD_BYTES@[201] == square_byte(201u64));
    } else if b == 202 {
        assert(GOOD_BYTES@[202] == square_byte(202u64));
    } else if b == 203 {
        assert(GOOD_BYTES@[203] == square_byte(203u64));
    } else if b == 204 {
        assert(GOOD_BYTES@[204] == square_byte(204u64));
    } else if b == 205 {
        assert(GOOD_BYTES@[205] == square_byte(205u64));
    } else if b == 206 {
        assert(GOOD_BYTES@[206] == square_byte(206u64));
    } else if b == 207 {
        assert(GOOD_BYTES@[207] == square_byte(207u64));
    } else if b == 208 {
        assert(GOOD_BYTES@[208] == square_byte(208u64));
    } else if b == 209 {
        assert(GOOD_BYTES@[209] == square_byte(209u64));
    } else if b == 210 {
        assert(GOOD_BYTES@[210] == square_byte(210u64));
    } else if b == 211 {
        assert(GOOD_BYTES@[211] == square_byte(211u64));
    } else if b == 212 {
        assert(GOOD_BYTES@[212] == square_byte(212u64));
    } else if b == 213 {
        assert(GOOD_BYTES@[213] == square_byte(213u64));
    } else if b == 214 {
        assert(GOOD_BYTES@[214] == square_byte(214u64));
    } else if b == 215 {
        assert(GOOD_BYTES@[215] == square_byte(215u64));
    } else if b == 216 {
        assert(GOOD_BYTES@[216] == square_byte(216u64));
    } else if b == 217 {
        assert(GOOD_BYTES@[217] == square_byte(217u64));
    } else if b == 218 {
        assert(GOOD_BYTES@[218] == square_byte(218u64));
    } else if b == 219 {
        assert(GOOD_BYTES@[219] == square_byte(219u64));
    } else if b == 220 {
        assert(GOOD_BYTES@[220] == square_byte(220u64));
    } else if b == 221 {
        assert(GOOD_BYTES@[221] == square_byte(221u64));
    } else if b == 222 {
        assert(GOOD_BYTES@[222] == square_byte(222u64));
    } else if b == 223 {
        assert(GOOD_BYTES@[223] == square_byte(223u64));
    } else if b == 224 {
        assert(GOOD_BYTES@[224] == square_byte(224u64));
    } else if b == 225 {
        assert(GOOD_BYTES@[225] == square_byte(225u64));
    } else if b == 226 {
        assert(GOOD_BYTES@[226] == square_byte(226u64));
    } else if b == 227 {
        assert(GOOD_BYTES@[227] == square_byte(227u64));
    } else if b == 228 {
        assert(GOOD_BYTES@[228] == square_byte(228u64));
    } else if b == 229 {
        assert(GOOD_BYTES@[229] == square_byte(229u64));
    } else if b == 230 {
        assert(GOOD_BYTES@[230] == square_byte(230u64));
    } else if b == 231 {
        assert(GOOD_BYTES@[231] == square_byte(231u64));
    } else if b == 232 {
        assert(GOOD_BYTES@[232] == square_byte(232u64));
    } else if b == 233 {
        assert(GOOD_BYTES@[233] == square_byte(233u64));
    } else if b == 234 {
        assert(GOOD_BYTES@[234] == square_byte(234u64));
    } else if b == 235 {
        assert(GOOD_BYTES@[235] == square_byte(235u64));
    } else if b == 236 {
        assert(GOOD_BYTES@[236] == square_byte(236u64));
    } else if b == 237 {
        assert(GOOD_BYTES@[237] == square_byte(237u64));
    } else if b == 238 {
        assert(GOOD_BYTES@[238] == square_byte(238u64));
    } else if b == 239 {
        assert(GOOD_BYTES@[239] == square_byte(239u64));
    } else if b == 240 {
        assert(GOOD_BYTES@[240] == square_byte(240u64));
    } else if b == 241 {
        assert(GOOD_BYTES@[241] == square_byte(241u64));
    } else if b == 242 {
        assert(GOOD_BYTES@[242] == square_byte(242u64));
    } else if b == 243 {
        assert(GOOD_BYTES@[243] == square_byte(243u64));
    } else if b == 244 {
        assert(GOOD_BYTES@[244] == square_byte(244u64));
    } else if b == 245 {
        assert(GOOD_BYTES@[245] == square_byte(245u64));
    } else if b == 246 {
        assert(GOOD_BYTES@[246] == square_byte(246u64));
    } else if b == 247 {
        assert(GOOD_BYTES@[247] == square_byte(247u64));
    } else if b == 248 {
        assert(GOOD_BYTES@[248] == square_byte(248u64));
    } else if b == 249 {
        assert(GOOD_BYTES@[249] == square_byte(249u64));
    } else if b == 250 {
        assert(GOOD_BYTES@[250] == square_byte(250u64));
    } else if b == 251 {
        assert(GOOD_BYTES@[251] == square_byte(251u64));
    } else if b == 252 {
        assert(GOOD_BYTES@[252] == square_byte(252u64));
    } else if b == 253 {
        assert(GOOD_BYTES@[253] == square_byte(253u64));
    } else if b == 254 {
        assert(GOOD_BYTES@[254] == square_byte(254u64));
    } else if b == 255 {
        assert(GOOD_BYTES@[255] == square_byte(255u64));
    }
}

/// The lowest byte of a square is one of 44 values.
proof fn lemma_square_low_byte(k: u64)
    by (bit_vector)
    requires
        k <= 0xffff_ffff,
    ensures
        ({
            let b = (k * k) as u64 & 0xff;
            b == 0 || b % 8 == 1 || b % 32 == 4 || b % 128 == 16 || b == 64
        }),
{
}

/// Whether the lowest byte of `n` is one that a square can have.
fn good_byte(n: u64) -> (good: bool)
    ensures
        good == square_byte(n & 0xff),
{
    let b: u64 = n & 0xff;
    assert(n & 0xff < 256) by (bit_vector);
    proof {
        lemma_good_bytes(b);
    }
    GOOD_BYTES[b as usize]
}

/// Whether `n` is the square of an integer.
///
/// A look at the lowest byte rules most numbers out before the root is
/// taken.
pub fn perfect_square(n: u64) -> (yes: bool)
    ensures
        yes == exists|k: int| 0 <= k && #[trigger] (k * k) == n,
{
    let root: u64 = isqrt(n);
    proof {
        if exists|k: int| 0 <= k && #[trigger] (k * k) == n {
            let k = choose|k: int| 0 <= k && #[trigger] (k * k) == n;
            assert(k == root) by (nonlinear_arith)
                requires
                    0 <= k,
                    k * k == n,
                    0 <= root,
                    root * root <= n,
                    n < (root + 1) * (root + 1),
            ;
            lemma_square_low_byte(root);
        }
    }
    if !good_byte(n) {
        return false;
    }
    root * root == n
}

/// Whether `n` is the cube of an integer.
pub fn perfect_cube(n: u64) -> (yes: bool)
    ensures
        yes == exists|k: int| 0 <= k && #[trigger] (k * k * k) == n,
{
    if n == 0 {
        assert(0int * 0int * 0int == 0);
        return true;
    }
    let root: u64 = icbrt(n);
    proof {
        if exists|k: int| 0 <= k && #[trigger] (k * k * k) == n {
            let k = choose|k: int| 0 <= k && #[trigger] (k * k * k) == n;
            assert(k == root) by (nonlinear_arith)
                requires
                    0 <= k,
                    k * k * k == n,
                    0 <= root,
                    root * root * root <= n,
                    n < (root + 1) * (root + 1) * (root + 1),
            ;
        }
        assert(root * root <= 2_642_245int * 2_642_245int && root * root * root <= 2_642_245int
            * 2_642_245int * 2_642_245int) by (nonlinear_arith)
            requires
                0 <= root <= 2_642_245,
        ;
    }
    root * root * root == n
}

/// The bound below which `quick_factorize_wsp` factors by trial division,
/// and the bound up to which `quick_factorize` sieves its small primes.
pub const MAX_SMALL_NUM: u64 = 65_536;

/// The seed from which `quick_factorize_wsp` gives up on `rho` and finds the
/// next factor by trial division.
pub const MAX_RHO_SEED: u64 = 1024;

/// The entries of `s` are in ascending order.
pub open spec fn ascending(s: Seq<u64>) -> bool {
    forall|i: int, j: int| 0 <= i <= j < s.len() ==> s[i] <= s[j]
}

/// Putting one more entry anywhere into a sequence multiplies its product
/// by that entry.
pub proof fn lemma_product_insert(s: Seq<u64>, i: int, x: u64)
    requires
        0 <= i <= s.len(),
    ensures
        product(s.insert(i, x)) == product(s) * (x as int),
{
    let front = s.subrange(0, i);
    let back = s.subrange(i, s.len() as int);
    assert(s.insert(i, x) =~= front.push(x) + back);
    assert(s =~= front + back);
    lemma_product_concat(front.push(x), back);
    lemma_product_concat(front, back);
    lemma_product_push(front, x);
    let a = product(front);
    let b = product(back);
    assert((a * x) * b == (a * b) * x) by (nonlinear_arith);
}

/// Puts `x` into the ascending list `v` at the place that keeps it
/// ascending.
fn insert_sorted(v: &mut Vec<u64>, x: u64)
    requires
        ascending(old(v)@),
    ensures
        ascending(final(v)@),
        exists|i: int| 0 <= i <= old(v)@.len() && final(v)@ == old(v)@.insert(i, x),
{
    let mut i: usize = 0;
    while i < v.len() && v[i] <= x
        invariant
            0 <= i <= v@.len(),
            v@ == old(v)@,
            forall|j: int| 0 <= j < i ==> #[trigger] v@[j] <= x,
        decreases v@.len() - i,
    {
        i = i + 1;
    }
    v.insert(i, x);
    assert(v@ == old(v)@.insert(i as int, x));
}

/// The entries of `v` in ascending order.
fn sort_ascending(v: Vec<u64>) -> (out: Vec<u64>)
    ensures
        ascending(out@),
        out@.len() == v@.len(),
        product(out@) == product(v@),
        forall|i: int| 0 <= i < out@.len() ==> v@.contains(#[trigger] out@[i]),
{
    let mut out: Vec<u64> = Vec::new();
    let mut k: usize = 0;
    assert(v@.subrange(0, 0) =~= Seq::<u64>::empty());
    while k < v.len()
        invariant
            0 <= k <= v@.len(),
            ascending(out@),
            out@.len() == k,
            product(out@) == product(v@.subrange(0, k as int)),
            forall|i: int| 0 <= i < out@.len() ==> v@.contains(#[trigger] out@[i]),
        decreases v@.len() - k,
    {
        let x: u64 = v[k];
        let ghost before = out@;
        insert_sorted(&mut out, x);
        proof {
            let i = choose|i: int| 0 <= i <= before.len() && out@ == before.insert(i, x);
            lemma_product_insert(before, i, x);
            assert(v@.subrange(0, k + 1) =~= v@.subrange(0, k as int).push(x));
            lemma_product_push(v@.subrange(0, k as int), x);
            assert forall|j: int| 0 <= j < out@.len() implies v@.contains(#[trigger] out@[j]) by {
                if j < i {
                    assert(out@[j] == before[j]);
                } else if j == i {
                    assert(v@[k as int] == x);
                } else {
                    assert(out@[j] == before[j - 1]);
                }
            }
        }
        k = k + 1;
    }
    assert(v@.subrange(0, k as int) =~= v@);
    out
}

/// The smallest prime factor of `n`, by trying two and the odd numbers up
/// to the square root of `n`.
fn smallest_factor(n: u64) -> (p: u64)
    requires
        n >= 2,
    ensures
        p == smallest_prime_factor(n as int),
        is_prime_number(p as int),
        n % p == 0,
        2 <= p <= n,
{
    proof {
        lemma_smallest_prime_factor(n as int);
    }
    if n % 2 == 0 {
        return 2;
    }
    let ghost least = smallest_prime_factor(n as int);
    let mut d: u64 = 3;
    loop
        invariant
            n >= 2,
            3 <= d <= 0x1_0000_0001,
            d % 2 == 1,
            least == smallest_prime_factor(n as int),
            2 <= least <= n,
            n as int % least == 0,
            is_prime_number(least),
            forall|e: int| 2 <= e < least ==> #[trigger] (n as int % e) != 0,
            forall|e: int| 2 <= e < d ==> #[trigger] (n as int % e) != 0,
        ensures
            d > 0xffff_ffff || d * d > n,
        decreases 0x1_0000_0001 - d,
    {
        if d > 0xffff_ffff {
            break;
        }
        assert(d * d <= 0xffff_ffffint * 0xffff_ffffint) by (nonlinear_arith)
            requires
                0 <= d <= 0xffff_ffff,
        ;
        if d * d > n {
            break;
        }
        if n % d == 0 {
            return d;
        }
        proof {
            if n as int % (d + 1) == 0 {
                lemma_divides_transitive(2, d + 1, n as int);
            }
        }
        d = d + 2;
    }
    proof {
        assert forall|e: int| 2 <= e && e * e <= n implies #[trigger] (n as int % e) != 0 by {
            if e >= d {
                assert(e * e >= d * d) by (nonlinear_arith)
                    requires
                        e >= d,
                        d >= 0,
                ;
                assert(d * d > n) by {
                    if d > 0xffff_ffff {
                        assert(d * d >= 0x1_0000_0000int * 0x1_0000_0000int) by (nonlinear_arith)
                            requires
                                d >= 0x1_0000_0000,
                        ;
                    }
                }
            }
        }
        lemma_prime_from_small_divisors(n as int);
    }
    n
}

/// The prime factorisation of `val`, with `sprimes` as the list of small
/// primes.
///
/// A value below `MAX_SMALL_NUM` is factored by trial division with the
/// numbers in `sprimes`. Any other value first loses its factors two; what
/// is left is split by `rho`, with one seed after another until a seed
/// yields a proper divisor, and each divisor that is not prime is factored
/// in the same way. From the seed `MAX_RHO_SEED` on, the smallest prime
/// factor is found by trial division instead. The factors are returned in
/// ascending order.
///
/// With a list that holds, in ascending order, every prime below
/// `MAX_SMALL_NUM`, the result is the prime factorisation of `val`.
pub fn quick_factorize_wsp(val: u64, sprimes: &[u64]) -> (factors: Vec<u64>)
    requires
        forall|i: int| 0 <= i < sprimes@.len() ==> #[trigger] sprimes@[i] >= 2,
    ensures
        val < MAX_SMALL_NUM ==> factors@ == trial_division(val as int, sprimes@),
        val <= 1 ==> factors@.len() == 0,
        val >= 2 && primes_cover(sprimes@, MAX_SMALL_NUM - 1) ==> is_prime_factorization(
            factors@,
            val as int,
        ) && factors@ == prime_factors(val as int),
        val >= MAX_SMALL_NUM ==> ascending(factors@),
    decreases val,
{
    if val < MAX_SMALL_NUM {
        let factors = factorize_wp(val, sprimes);
        proof {
            if val >= 2 && primes_cover(sprimes@, MAX_SMALL_NUM - 1) {
                lemma_prime_factors(factors@, val as int);
            }
        }
        return factors;
    }
    let ghost good = primes_cover(sprimes@, MAX_SMALL_NUM - 1);
    let mut factors: Vec<u64> = Vec::new();
    let mut rest: u64 = val;
    proof {
        assert(product(factors@) == 1);
        assert(is_prime_number(2));
    }
    while rest % 2 == 0
        invariant
            1 <= rest <= val,
            product(factors@) * rest == val,
            forall|i: int| 0 <= i < factors@.len() ==> is_prime_number(#[trigger] factors@[i] as int),
        decreases rest,
    {
        proof {
            lemma_product_push(factors@, 2);
            let p = product(factors@);
            let half = rest as int / 2;
            assert((p * 2) * half == p * rest) by (nonlinear_arith)
                requires
                    rest == 2 * half,
            ;
        }
        rest = rest / 2;
        factors.push(2);
    }
    let mut seed: u64 = 2;
    while rest > 1
        invariant
            1 <= rest <= val,
            forall|i: int| 0 <= i < sprimes@.len() ==> #[trigger] sprimes@[i] >= 2,
            good == primes_cover(sprimes@, MAX_SMALL_NUM - 1),
            good ==> product(factors@) * rest == val,
            good ==> forall|i: int|
                0 <= i < factors@.len() ==> is_prime_number(#[trigger] factors@[i] as int),
            seed <= MAX_RHO_SEED,
        decreases rest, MAX_RHO_SEED - seed,
    {
        if is_prime(rest) {
            proof {
                lemma_product_push(factors@, rest);
                let p = product(factors@);
                assert((p * rest) * 1 == p * rest) by (nonlinear_arith);
            }
            factors.push(rest);
            rest = 1;
        } else {
            let factor: u64 = if seed < MAX_RHO_SEED {
                rho(rest, seed)
            } else {
                smallest_factor(rest)
            };
            if factor == rest || factor == 1 {
                seed = seed + 1;
            } else {
                let ghost before = factors@;
                proof {
                    lemma_divisor_bounds(factor as int, rest as int);
                }
                if is_prime(factor) {
                    proof {
                        lemma_product_push(factors@, factor);
                    }
                    factors.push(factor);
                } else {
                    let mut sub = quick_factorize_wsp(factor, sprimes);
                    proof {
                        lemma_product_concat(factors@, sub@);
                    }
                    factors.append(&mut sub);
                }
                proof {
                    if good {
                        let p = product(before);
                        let cofactor = rest as int / factor as int;
                        assert(product(factors@) == p * factor);
                        assert((p * factor) * cofactor == p * rest) by (nonlinear_arith)
                            requires
                                rest == cofactor * factor,
                        ;
                    }
                    let cofactor = rest as int / factor as int;
                    assert(cofactor < rest) by (nonlinear_arith)
                        requires
                            rest == cofactor * factor,
                            factor >= 2,
                            cofactor >= 1,
                    ;
                }
                rest = rest / factor;
            }
        }
    }
    let sorted = sort_ascending(factors);
    proof {
        if good {
            assert(product(factors@) * 1 == product(factors@)) by (nonlinear_arith);
            assert forall|i: int| 0 <= i < sorted@.len() implies is_prime_number(
                #[trigger] sorted@[i] as int,
            ) by {
                let e = sorted@[i];
                assert(factors@.contains(e));
                let j = choose|j: int| 0 <= j < factors@.len() && factors@[j] == e;
                assert(is_prime_number(factors@[j] as int));
            }
            lemma_prime_factors(sorted@, val as int);
        }
    }
    sorted
}

/// The prime factorisation of `value`: its prime factors in ascending
/// order, each as often as it divides `value`; nothing for zero and one.
pub fn quick_factorize(value: u64) -> (factors: Vec<u64>)
    ensures
        value <= 1 ==> factors@.len() == 0,
        value >= 2 ==> is_prime_factorization(factors@, value as int),
        value >= 2 ==> factors@ == prime_factors(value as int),
{
    let sprimes = prime_sieve(MAX_SMALL_NUM);
    proof {
        lemma_primes_upto_cover(MAX_SMALL_NUM as int);
    }
    let factors = quick_factorize_wsp(value, sprimes.as_slice());
    proof {
        if value >= 2 {
            lemma_prime_factors(factors@, value as int);
        }
    }
    factors
}

} // verus!
