//! Euler's totient function by Euler's product formula.

use vstd::prelude::*;
use crate::arith::{
    is_prime_number, lemma_divides_quotient, lemma_divides_transitive, lemma_divisor_bounds,
    lemma_multiple_divides, lemma_prime_divisor_exists,
};
use crate::factor::{MAX_SMALL_NUM, gcd_of, lemma_gcd_of, quick_factorize, quick_factorize_wsp};
use crate::factorization::{
    is_prime_factorization, lemma_entry_divides_product, lemma_prime_divides_prime,
    lemma_prime_divides_product, lemma_prime_factors, lemma_prime_factors_of_prime, prime_factors,
    product,
};
use crate::prime::{
    is_prime, lemma_primes_upto_cover, lemma_trial_division, prime_sieve, trial_division,
};
use crate::prime_count::{lemma_unsieved_count, lemma_unsieved_recurrence, unsieved, unsieved_count};
use crate::prime_list::primes_upto;

verus! {

/// The symbol under which the totient function is written out: the capital
/// letter phi.
pub const PHI_SYMBOL: &'static str = "\u{3a6}";

/// Euler's product over the distinct entries of the ascending sequence
/// `factors`, applied to `t`: for each of them, `t` is divided by the entry
/// and multiplied by the entry less one.
pub open spec fn euler_product(t: int, factors: Seq<u64>) -> int
    decreases factors.len(),
{
    if factors.len() == 0 {
        t
    } else {
        let before = euler_product(t, factors.drop_last());
        if factors.len() >= 2 && factors[factors.len() - 2] == factors.last() {
            before
        } else {
            (before / (factors.last() as int)) * (factors.last() - 1)
        }
    }
}

/// The value of `totient` for `n`: one for `n` up to two, and from there on
/// `n` times the product of `1 - 1/p` over the primes `p` that divide `n`,
/// which is Euler's product formula for the number of integers in `[1, n]`
/// that have no divisor in common with `n`.
pub open spec fn totient_value(n: int) -> int {
    if n <= 2 {
        1
    } else {
        euler_product(n, prime_factors(n))
    }
}

/// The number of integers in `[1, m]` that have no divisor other than one in
/// common with `n`.
pub open spec fn coprime_count(n: int, m: int) -> int
    decreases m,
{
    if m <= 0 {
        0
    } else {
        coprime_count(n, m - 1) + if gcd_of(m as nat, n as nat) == 1 {
            1int
        } else {
            0int
        }
    }
}

/// The product of the distinct entries of the ascending sequence `f`.
pub open spec fn radical(f: Seq<u64>) -> int
    decreases f.len(),
{
    if f.len() == 0 {
        1
    } else if f.len() >= 2 && f[f.len() - 2] == f.last() {
        radical(f.drop_last())
    } else {
        radical(f.drop_last()) * (f.last() as int)
    }
}

/// The product of the distinct entries of the ascending sequence `f`, each
/// less one.
pub open spec fn radical_totient(f: Seq<u64>) -> int
    decreases f.len(),
{
    if f.len() == 0 {
        1
    } else if f.len() >= 2 && f[f.len() - 2] == f.last() {
        radical_totient(f.drop_last())
    } else {
        radical_totient(f.drop_last()) * (f.last() - 1)
    }
}

/// The product of the entries of the ascending sequence `f` that repeat the
/// entry before them.
pub open spec fn repeats(f: Seq<u64>) -> int
    decreases f.len(),
{
    if f.len() == 0 {
        1
    } else if f.len() >= 2 && f[f.len() - 2] == f.last() {
        repeats(f.drop_last()) * (f.last() as int)
    } else {
        repeats(f.drop_last())
    }
}

/// The product of a sequence is the product of its distinct entries times
/// that of its repeated ones, so that the former divides it.
proof fn lemma_radical_divides(f: Seq<u64>)
    requires
        forall|i: int| 0 <= i < f.len() ==> #[trigger] f[i] >= 1,
    ensures
        product(f) == radical(f) * repeats(f),
        radical(f) >= 1,
        repeats(f) >= 1,
        product(f) % radical(f) == 0,
    decreases f.len(),
{
    if f.len() > 0 {
        let init = f.drop_last();
        lemma_radical_divides(init);
        let a = radical(init);
        let b = repeats(init);
        let q = f.last() as int;
        assert((a * b) * q == (a * q) * b && (a * b) * q == a * (b * q) && a * q >= 1 && b * q
            >= 1) by (nonlinear_arith)
            requires
                a >= 1,
                b >= 1,
                q >= 1,
        ;
    }
    lemma_multiple_divides(radical(f), repeats(f));
}

/// Euler's product in closed form: applied to a multiple `t` of the product
/// of the distinct entries, it is the quotient times the product of the
/// distinct entries less one.
proof fn lemma_euler_product(t: int, f: Seq<u64>)
    requires
        forall|i: int| 0 <= i < f.len() ==> #[trigger] f[i] >= 2,
        t % radical(f) == 0,
    ensures
        radical(f) >= 1,
        euler_product(t, f) == (t / radical(f)) * radical_totient(f),
    decreases f.len(),
{
    lemma_radical_divides(f);
    if f.len() == 0 {
        assert(t / 1 == t);
        assert(t * 1 == t);
    } else {
        let init = f.drop_last();
        lemma_radical_divides(init);
        if f.len() >= 2 && f[f.len() - 2] == f.last() {
            lemma_euler_product(t, init);
        } else {
            let q = f.last() as int;
            let r = radical(init);
            let big = radical(f);
            assert(big == r * q);
            lemma_divides_quotient(big, t);
            let c = t / big;
            assert(t == r * (q * c) && t == q * (r * c)) by (nonlinear_arith)
                requires
                    t == big * c,
                    big == r * q,
            ;
            lemma_multiple_divides(r, q * c);
            lemma_euler_product(t, init);
            let phi = radical_totient(init);
            assert((q * c) * phi == q * (c * phi) && (c * phi) * (q - 1) == c * (phi * (q - 1)))
                by (nonlinear_arith);
            lemma_multiple_divides(q, c * phi);
        }
    }
}

/// An entry that repeats the one before it sieves nothing more.
proof fn lemma_unsieved_repeat(m: int, k: int, f: Seq<u64>)
    requires
        m >= 0,
        2 <= k <= f.len(),
        f[k - 2] == f[k - 1],
    ensures
        unsieved_count(m, k, f) == unsieved_count(m, k - 1, f),
    decreases m,
{
    if m > 0 {
        lemma_unsieved_repeat(m - 1, k, f);
        if unsieved(m, k - 1, f) {
            assert forall|i: int| 0 <= i < k && i < f.len() implies m % (#[trigger] f[i] as int)
                != 0 by {
                if i == k - 1 {
                    assert(m % (f[k - 2] as int) != 0);
                }
            }
        }
        if unsieved(m, k, f) {
            assert forall|i: int| 0 <= i < k - 1 && i < f.len() implies m % (
            #[trigger] f[i] as int) != 0 by {}
        }
    }
}

/// The count of the numbers up to a multiple `t` of the product of the
/// first `k` distinct primes of `f` that none of them divides, in closed
/// form.
proof fn lemma_unsieved_closed_form(t: int, k: int, f: Seq<u64>)
    requires
        t >= 0,
        0 <= k <= f.len(),
        forall|i: int| 0 <= i < f.len() ==> is_prime_number(#[trigger] f[i] as int),
        forall|i: int, j: int| 0 <= i <= j < f.len() ==> f[i] <= f[j],
        t % radical(f.subrange(0, k)) == 0,
    ensures
        unsieved_count(t, k, f) == (t / radical(f.subrange(0, k))) * radical_totient(
            f.subrange(0, k),
        ),
    decreases k,
{
    let head = f.subrange(0, k);
    lemma_unsieved_count(t, k, f);
    if k == 0 {
        assert(t / 1 == t);
        assert(t * 1 == t);
    } else {
        let init = f.subrange(0, k - 1);
        assert(head.drop_last() =~= init);
        assert(head.last() == f[k - 1]);
        assert forall|i: int| 0 <= i < head.len() implies #[trigger] head[i] >= 1 by {
            assert(is_prime_number(f[i] as int));
        }
        assert forall|i: int| 0 <= i < init.len() implies #[trigger] init[i] >= 1 by {
            assert(is_prime_number(f[i] as int));
        }
        lemma_radical_divides(head);
        lemma_radical_divides(init);
        if k >= 2 && f[k - 2] == f[k - 1] {
            assert(head[head.len() - 2] == f[k - 2]);
            lemma_unsieved_repeat(t, k, f);
            lemma_unsieved_closed_form(t, k - 1, f);
        } else {
            if k >= 2 {
                assert(head[head.len() - 2] == f[k - 2]);
            }
            let q = f[k - 1] as int;
            assert(is_prime_number(q));
            let r = radical(init);
            let big = radical(head);
            assert(big == r * q);
            assert forall|i: int| 0 <= i < k - 1 implies #[trigger] f[i] < f[k - 1] by {
                assert(f[i] <= f[k - 2]);
            }
            lemma_unsieved_recurrence(t, k, f);
            lemma_divides_quotient(big, t);
            let c = t / big;
            assert(c >= 0) by (nonlinear_arith)
                requires
                    t == big * c,
                    t >= 0,
                    big >= 1,
            ;
            assert(t == r * (q * c) && t == q * (r * c) && r * c >= 0) by (nonlinear_arith)
                requires
                    t == big * c,
                    big == r * q,
                    r >= 1,
                    c >= 0,
            ;
            lemma_multiple_divides(r, q * c);
            lemma_multiple_divides(q, r * c);
            lemma_multiple_divides(r, c);
            lemma_unsieved_closed_form(t, k - 1, f);
            lemma_unsieved_closed_form(r * c, k - 1, f);
            let phi = radical_totient(init);
            assert((q * c) * phi - c * phi == c * (phi * (q - 1))) by (nonlinear_arith);
        }
    }
}

/// None of the prime factors of `n` divides `j` if and only if `j` and `n`
/// have no divisor other than one in common.
proof fn lemma_unsieved_iff_coprime(j: int, n: int, f: Seq<u64>)
    requires
        j >= 1,
        n >= 1,
        is_prime_factorization(f, n),
    ensures
        unsieved(j, f.len() as int, f) <==> gcd_of(j as nat, n as nat) == 1,
{
    lemma_gcd_of(j as nat, n as nat);
    let g = gcd_of(j as nat, n as nat) as int;
    if !unsieved(j, f.len() as int, f) {
        let i = choose|i: int| 0 <= i < f.len() && j % (#[trigger] f[i] as int) == 0;
        assert(is_prime_number(f[i] as int));
        lemma_entry_divides_product(f, i);
        assert(g % (f[i] as int) == 0);
        lemma_divisor_bounds(f[i] as int, g);
    }
    if g != 1 {
        let q = lemma_prime_divisor_exists(g);
        lemma_divides_transitive(q, g, j);
        lemma_divides_transitive(q, g, n);
        assert forall|i: int| 0 <= i < f.len() implies #[trigger] f[i] >= 1 by {
            assert(is_prime_number(f[i] as int));
        }
        lemma_prime_divides_product(q, f);
        let i = choose|i: int| 0 <= i < f.len() && (#[trigger] f[i]) as int % q == 0;
        assert(is_prime_number(f[i] as int));
        lemma_prime_divides_prime(q, f[i] as int);
        assert(j % (f[i] as int) == 0);
    }
}

/// The numbers up to `m` without a common divisor with `n` are those that
/// none of the prime factors of `n` divides.
proof fn lemma_coprime_count(n: int, m: int, f: Seq<u64>)
    requires
        m >= 0,
        n >= 1,
        is_prime_factorization(f, n),
    ensures
        coprime_count(n, m) == unsieved_count(m, f.len() as int, f),
    decreases m,
{
    if m > 0 {
        lemma_coprime_count(n, m - 1, f);
        lemma_unsieved_iff_coprime(m, n, f);
    }
}

/// Euler's product formula: the value of `totient` for `n` is the number
/// of integers in `[1, n]` that have no divisor other than one in common
/// with `n`.
pub proof fn lemma_totient_counts(n: int)
    requires
        1 <= n <= u64::MAX,
    ensures
        totient_value(n) == coprime_count(n, n),
{
    if n <= 2 {
        reveal_with_fuel(coprime_count, 3);
        reveal_with_fuel(gcd_of, 3);
        assert(gcd_of(1, 1) == 1);
        assert(gcd_of(1, 2) == 1);
        assert(gcd_of(2, 2) == 2);
    } else {
        lemma_primes_upto_cover(n);
        lemma_trial_division(n, primes_upto(n));
        let f = trial_division(n, primes_upto(n));
        lemma_prime_factors(f, n);
        assert forall|i: int| 0 <= i < f.len() implies #[trigger] f[i] >= 2 by {
            assert(is_prime_number(f[i] as int));
        }
        lemma_radical_divides(f);
        lemma_euler_product(n, f);
        assert(f.subrange(0, f.len() as int) =~= f);
        lemma_unsieved_closed_form(n, f.len() as int, f);
        lemma_coprime_count(n, n, f);
    }
}

/// Euler's product over the distinct entries of `factors`, applied to `n`.
fn totient_calc(n: u64, factors: &Vec<u64>) -> (t: u64)
    requires
        forall|i: int| 0 <= i < factors@.len() ==> #[trigger] factors@[i] >= 1,
    ensures
        t == euler_product(n as int, factors@),
{
    let mut t: u64 = n;
    let mut k: usize = 0;
    assert(factors@.subrange(0, 0) =~= Seq::<u64>::empty());
    while k < factors.len()
        invariant
            0 <= k <= factors@.len(),
            t <= n,
            t == euler_product(n as int, factors@.subrange(0, k as int)),
            forall|i: int| 0 <= i < factors@.len() ==> #[trigger] factors@[i] >= 1,
        decreases factors@.len() - k,
    {
        let p: u64 = factors[k];
        proof {
            let next = factors@.subrange(0, k + 1);
            assert(next.drop_last() =~= factors@.subrange(0, k as int));
            assert(next.last() == p);
            if k >= 1 {
                assert(next[next.len() - 2] == factors@[k - 1]);
            }
        }
        if k == 0 || factors[k - 1] != p {
            let q: u64 = t / p;
            assert(q * (p - 1) <= t) by (nonlinear_arith)
                requires
                    q == t as int / p as int,
                    p >= 1,
                    t >= 0,
            {
                vstd::arithmetic::div_mod::lemma_fundamental_div_mod(t as int, p as int);
                assert(t == p * (t as int / p as int) + t as int % p as int);
                assert(t as int % p as int >= 0);
            }
            t = q * (p - 1);
        }
        k = k + 1;
    }
    assert(factors@.subrange(0, k as int) =~= factors@);
    t
}

/// Euler's totient function of `n`: the number of integers in `[1, n]` that
/// have no divisor other than one in common with `n`; one for zero.
pub fn totient(n: u64) -> (t: u64)
    ensures
        t == totient_value(n as int),
        n >= 1 ==> t == coprime_count(n as int, n as int),
{
    proof {
        if n >= 1 {
            lemma_totient_counts(n as int);
        }
    }
    if n <= 2 {
        return 1;
    }
    if is_prime(n) {
        proof {
            lemma_totient_of_prime(n);
        }
        return n - 1;
    }
    let factors = quick_factorize(n);
    totient_calc(n, &factors)
}

/// The totient of a prime `p` greater than two is `p - 1`.
pub proof fn lemma_totient_of_prime(p: u64)
    requires
        is_prime_number(p as int),
        p > 2,
    ensures
        totient_value(p as int) == p - 1,
{
    lemma_prime_factors_of_prime(p);
    let f = seq![p];
    assert(f.drop_last() =~= Seq::<u64>::empty());
    assert(euler_product(p as int, f.drop_last()) == p);
    assert(p as int / p as int == 1) by (nonlinear_arith)
        requires
            p > 0,
    ;
    assert(1 * (p - 1) == p - 1);
}

/// Euler's totient function of each value in `data`, in the order of
/// `data`.
pub fn totient_all(data: Vec<u64>) -> (totients: Vec<u64>)
    ensures
        totients@.len() == data@.len(),
        forall|i: int| 0 <= i < data@.len() ==> #[trigger] totients@[i] == totient_value(
            data@[i] as int,
        ),
        forall|i: int|
            0 <= i < data@.len() && data@[i] >= 1 ==> #[trigger] totients@[i] == coprime_count(
                data@[i] as int,
                data@[i] as int,
            ),
{
    let mut totients: Vec<u64> = Vec::new();
    if data.len() == 0 {
        return totients;
    }
    proof {
        assert forall|i: int| 0 <= i < data@.len() && data@[i] >= 1 implies totient_value(
            #[trigger] data@[i] as int,
        ) == coprime_count(data@[i] as int, data@[i] as int) by {
            lemma_totient_counts(data@[i] as int);
        }
    }
    let sprimes = prime_sieve(MAX_SMALL_NUM);
    proof {
        lemma_primes_upto_cover(MAX_SMALL_NUM as int);
    }
    let mut k: usize = 0;
    while k < data.len()
        invariant
            0 <= k <= data@.len(),
            totients@.len() == k,
            sprimes@ == crate::prime_list::primes_upto(MAX_SMALL_NUM as int),
            crate::prime::primes_cover(sprimes@, MAX_SMALL_NUM as int),
            forall|i: int| 0 <= i < sprimes@.len() ==> #[trigger] sprimes@[i] >= 2,
            forall|i: int| 0 <= i < k ==> #[trigger] totients@[i] == totient_value(
                data@[i] as int,
            ),
        decreases data@.len() - k,
    {
        let n: u64 = data[k];
        if n <= 2 {
            totients.push(1);
        } else if is_prime(n) {
            proof {
                lemma_totient_of_prime(n);
            }
            totients.push(n - 1);
        } else {
            let factors = quick_factorize_wsp(n, sprimes.as_slice());
            totients.push(totient_calc(n, &factors));
        }
        k = k + 1;
    }
    totients
}

} // verus!
