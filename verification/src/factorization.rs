//! Prime factorisations: the product of a list of numbers, Euclid's lemma,
//! and the fundamental theorem of arithmetic.

use vstd::prelude::*;
use crate::arith::{
    is_prime_number, lemma_divides_combination, lemma_divides_multiple, lemma_divisor_bounds,
    lemma_multiple_divides,
};

verus! {

/// The product of the entries of `s`; one for the empty sequence.
pub open spec fn product(s: Seq<u64>) -> int
    decreases s.len(),
{
    if s.len() == 0 {
        1
    } else {
        product(s.drop_last()) * (s.last() as int)
    }
}

/// `factors` is the prime factorisation of `n`: primes in ascending order,
/// repeated by multiplicity, whose product is `n`.
pub open spec fn is_prime_factorization(factors: Seq<u64>, n: int) -> bool {
    &&& product(factors) == n
    &&& forall|i: int| 0 <= i < factors.len() ==> is_prime_number(#[trigger] factors[i] as int)
    &&& forall|i: int, j: int| 0 <= i <= j < factors.len() ==> factors[i] <= factors[j]
}

/// The product of a sequence with one more entry at its end.
pub proof fn lemma_product_push(s: Seq<u64>, x: u64)
    ensures
        product(s.push(x)) == product(s) * (x as int),
{
    assert(s.push(x).drop_last() =~= s);
}

/// The product of a one-entry sequence is the entry.
pub proof fn lemma_product_single(x: u64)
    ensures
        product(seq![x]) == x as int,
{
    assert(seq![x].drop_last() =~= Seq::<u64>::empty());
    assert(product(Seq::<u64>::empty()) == 1);
    assert(product(seq![x]) == product(seq![x].drop_last()) * (x as int));
}

/// The product of two sequences joined is the product of their products.
pub proof fn lemma_product_concat(a: Seq<u64>, b: Seq<u64>)
    ensures
        product(a + b) == product(a) * product(b),
    decreases b.len(),
{
    if b.len() == 0 {
        assert(a + b =~= a);
        assert(product(a) * 1 == product(a)) by (nonlinear_arith);
    } else {
        lemma_product_concat(a, b.drop_last());
        assert((a + b).drop_last() =~= a + b.drop_last());
        assert((a + b).last() == b.last());
        let pa = product(a);
        let pb = product(b.drop_last());
        let l = b.last() as int;
        assert((pa * pb) * l == pa * (pb * l)) by (nonlinear_arith);
    }
}

/// A product of positive numbers is positive.
pub proof fn lemma_product_positive(s: Seq<u64>)
    requires
        forall|i: int| 0 <= i < s.len() ==> #[trigger] s[i] >= 1,
    ensures
        product(s) >= 1,
    decreases s.len(),
{
    if s.len() > 0 {
        lemma_product_positive(s.drop_last());
        let a = product(s.drop_last());
        let b = s.last() as int;
        assert(a * b >= 1) by (nonlinear_arith)
            requires
                a >= 1,
                b >= 1,
        ;
    }
}

/// The least `m`, from `from` on, for which `p` divides `m * b`; `p` itself
/// if there is none below it.
pub open spec fn least_multiplier(p: int, b: int, from: int) -> int
    decreases p - from,
{
    if from >= p || (from * b) % p == 0 {
        from
    } else {
        least_multiplier(p, b, from + 1)
    }
}

/// `least_multiplier` returns a multiplier, and no number between `from` and
/// it is one.
pub proof fn lemma_least_multiplier(p: int, b: int, from: int)
    requires
        1 <= from <= p,
    ensures
        from <= least_multiplier(p, b, from) <= p,
        (least_multiplier(p, b, from) * b) % p == 0,
        forall|k: int| from <= k < least_multiplier(p, b, from) ==> #[trigger] ((k * b) % p) != 0,
    decreases p - from,
{
    if from >= p {
        lemma_multiple_divides(p, b);
    } else if (from * b) % p == 0 {
    } else {
        lemma_least_multiplier(p, b, from + 1);
    }
}

/// Euclid's lemma: a prime that divides a product divides one of its
/// factors.
pub proof fn lemma_euclid(p: int, a: int, b: int)
    requires
        is_prime_number(p),
        a >= 0,
        (a * b) % p == 0,
    ensures
        a % p == 0 || b % p == 0,
{
    lemma_least_multiplier(p, b, 1);
    let m = least_multiplier(p, b, 1);
    let r = p % m;
    let q = p / m;
    vstd::arithmetic::div_mod::lemma_fundamental_div_mod(p, m);
    lemma_multiple_divides(p, b);
    lemma_divides_multiple(p, m * b, q);
    assert(r * b == p * b - (m * b) * q) by (nonlinear_arith)
        requires
            p == m * q + r,
    ;
    lemma_divides_combination(p, p * b, (m * b) * q);
    if r != 0 {
        assert((r * b) % p != 0);
    }
    assert(p % m == 0);
    if m == 1 {
        assert(1 * b == b);
    } else {
        assert(m == p);
        let rem = a % p;
        let quot = a / p;
        vstd::arithmetic::div_mod::lemma_fundamental_div_mod(a, p);
        lemma_multiple_divides(p, quot * b);
        assert(rem * b == a * b - p * (quot * b)) by (nonlinear_arith)
            requires
                a == p * quot + rem,
        ;
        lemma_divides_combination(p, a * b, p * (quot * b));
        if rem != 0 {
            assert((rem * b) % p != 0);
        }
    }
}

/// A prime that divides a product of numbers divides one of them.
pub proof fn lemma_prime_divides_product(q: int, s: Seq<u64>)
    requires
        is_prime_number(q),
        product(s) % q == 0,
        forall|i: int| 0 <= i < s.len() ==> #[trigger] s[i] >= 1,
    ensures
        exists|i: int| 0 <= i < s.len() && (#[trigger] s[i]) as int % q == 0,
    decreases s.len(),
{
    if s.len() == 0 {
        assert(1int % q == 1) by {
            vstd::arithmetic::div_mod::lemma_small_mod(1, q as nat);
        }
    } else {
        let init = s.drop_last();
        lemma_product_positive(init);
        lemma_euclid(q, product(init), s.last() as int);
        if product(init) % q == 0 {
            lemma_prime_divides_product(q, init);
            let i = choose|i: int| 0 <= i < init.len() && (#[trigger] init[i]) as int % q == 0;
            assert(s[i] == init[i]);
        } else {
            assert(s[s.len() - 1] as int % q == 0);
        }
    }
}

/// Every entry of a sequence divides the product of the sequence.
pub proof fn lemma_entry_divides_product(s: Seq<u64>, i: int)
    requires
        0 <= i < s.len(),
        s[i] >= 1,
    ensures
        product(s) % (s[i] as int) == 0,
    decreases s.len(),
{
    let init = s.drop_last();
    if i == s.len() - 1 {
        lemma_multiple_divides(s[i] as int, product(init));
    } else {
        lemma_entry_divides_product(init, i);
        lemma_divides_multiple(s[i] as int, product(init), s.last() as int);
    }
}

/// A prime that divides a prime is that prime.
pub proof fn lemma_prime_divides_prime(q: int, p: int)
    requires
        is_prime_number(q),
        is_prime_number(p),
        p % q == 0,
    ensures
        q == p,
{
    lemma_divisor_bounds(q, p);
}

/// The fundamental theorem of arithmetic: a number has only one prime
/// factorisation.
pub proof fn lemma_prime_factorization_unique(f: Seq<u64>, g: Seq<u64>, n: int)
    requires
        is_prime_factorization(f, n),
        is_prime_factorization(g, n),
    ensures
        f == g,
    decreases f.len(),
{
    lemma_product_positive(f);
    lemma_product_positive(g);
    if f.len() == 0 || g.len() == 0 {
        if f.len() > 0 {
            lemma_product_positive(f.drop_last());
            assert(product(f.drop_last()) * (f.last() as int) >= 2) by (nonlinear_arith)
                requires
                    product(f.drop_last()) >= 1,
                    f.last() >= 2,
            ;
        }
        if g.len() > 0 {
            lemma_product_positive(g.drop_last());
            assert(product(g.drop_last()) * (g.last() as int) >= 2) by (nonlinear_arith)
                requires
                    product(g.drop_last()) >= 1,
                    g.last() >= 2,
            ;
        }
        assert(f =~= g);
    } else {
        let p = f.last() as int;
        let q = g.last() as int;
        lemma_entry_divides_product(f, f.len() - 1);
        lemma_entry_divides_product(g, g.len() - 1);
        lemma_prime_divides_product(p, g);
        let i = choose|i: int| 0 <= i < g.len() && (#[trigger] g[i]) as int % p == 0;
        lemma_prime_divides_prime(p, g[i] as int);
        lemma_prime_divides_product(q, f);
        let j = choose|j: int| 0 <= j < f.len() && (#[trigger] f[j]) as int % q == 0;
        lemma_prime_divides_prime(q, f[j] as int);
        assert(p == q);
        let fi = f.drop_last();
        let gi = g.drop_last();
        assert(product(fi) == product(gi)) by (nonlinear_arith)
            requires
                product(fi) * p == product(gi) * p,
                p >= 2,
        ;
        assert(is_prime_factorization(fi, product(fi))) by {
            assert forall|a: int| 0 <= a < fi.len() implies is_prime_number(
                #[trigger] fi[a] as int,
            ) by {
                assert(fi[a] == f[a]);
            }
            assert forall|a: int, b: int| 0 <= a <= b < fi.len() implies fi[a] <= fi[b] by {
                assert(fi[a] == f[a] && fi[b] == f[b]);
            }
        }
        assert(is_prime_factorization(gi, product(fi))) by {
            assert forall|a: int| 0 <= a < gi.len() implies is_prime_number(
                #[trigger] gi[a] as int,
            ) by {
                assert(gi[a] == g[a]);
            }
            assert forall|a: int, b: int| 0 <= a <= b < gi.len() implies gi[a] <= gi[b] by {
                assert(gi[a] == g[a] && gi[b] == g[b]);
            }
        }
        lemma_prime_factorization_unique(fi, gi, product(fi));
        assert(f =~= fi.push(f.last()));
        assert(g =~= gi.push(g.last()));
    }
}

/// The prime factorisation of `n`: its prime factors in ascending order,
/// each as often as it divides `n`.
pub open spec fn prime_factors(n: int) -> Seq<u64> {
    choose|f: Seq<u64>| is_prime_factorization(f, n)
}

/// A prime factorisation of `n` is the prime factorisation of `n`.
pub proof fn lemma_prime_factors(f: Seq<u64>, n: int)
    requires
        is_prime_factorization(f, n),
    ensures
        prime_factors(n) == f,
{
    lemma_prime_factorization_unique(f, prime_factors(n), n);
}

/// The prime factorisation of a prime is the prime alone.
pub proof fn lemma_prime_factors_of_prime(p: u64)
    requires
        is_prime_number(p as int),
    ensures
        prime_factors(p as int) == seq![p],
{
    lemma_product_single(p);
    lemma_prime_factors(seq![p], p as int);
}

} // verus!
