//! Continued fractions: the expansions of square roots and of `e`, the
//! convergents of an expansion, and its written form.

use vstd::prelude::*;
use vstd::string::StringExecFns;
use crate::arith::{isqrt, isqrt_of, lemma_divides_quotient, lemma_multiple_divides};

verus! {

/// A continued fraction `[a; b, c, d, ..]`: the first term, followed by the
/// terms that repeat if the fraction is infinite, or by the other terms if
/// it is finite.
pub type ContinuedFraction = Vec<u64>;

/// The terms that follow the first term `a0` of the continued fraction of
/// the square root of `x`, from the complete quotient `(sqrt(x) + m) / d`
/// with integer part `a` on: each step takes `d * a - m` for the new `m`,
/// `(x - m * m) / d` for the new `d` and the integer part of
/// `(a0 + m) / d` for the new term. The terms end with the term `2 * a0`,
/// which closes the period; `fuel` bounds the number of steps, and
/// `sqrt_period_bound(a0)` steps are enough for the period to close.
pub open spec fn sqrt_terms(x: int, a0: int, m: int, d: int, a: int, fuel: nat) -> Seq<u64>
    decreases fuel,
{
    if a == 2 * a0 || fuel == 0 {
        Seq::empty()
    } else {
        let m2 = d * a - m;
        let d2 = (x - m2 * m2) / d;
        let a2 = (a0 + m2) / d2;
        seq![a2 as u64] + sqrt_terms(x, a0, m2, d2, a2, (fuel - 1) as nat)
    }
}

/// The continued fraction of the square root of `x`: the integer part of
/// the root alone if `x` is a square, and the integer part followed by one
/// period otherwise.
pub open spec fn sqrt_expansion(x: int) -> Seq<u64> {
    let a0 = isqrt_of(x);
    if a0 * a0 == x {
        seq![a0 as u64]
    } else {
        seq![a0 as u64] + sqrt_terms(x, a0, 0, 1, a0, sqrt_period_bound(a0))
    }
}

/// A number of steps within which the period of the continued fraction of
/// a square root with integer part `a0` closes: the number of pairs
/// `(m, d)` that the complete quotients `(sqrt(x) + m) / d` can take.
pub open spec fn sqrt_period_bound(a0: int) -> nat {
    ((a0 + 1) * (2 * a0 + 1)) as nat
}

/// The pair `(m, d)` that follows the pair `s` in the expansion.
pub open spec fn sqrt_step(x: int, a0: int, s: (int, int)) -> (int, int) {
    let a = (a0 + s.0) / s.1;
    let m2 = s.1 * a - s.0;
    (m2, (x - m2 * m2) / s.1)
}

/// The pair `(m, d)` after `i` steps of the expansion, which sets out from
/// `(0, 1)`.
pub open spec fn sqrt_state(x: int, a0: int, i: nat) -> (int, int)
    decreases i,
{
    if i == 0 {
        (0, 1)
    } else {
        sqrt_step(x, a0, sqrt_state(x, a0, (i - 1) as nat))
    }
}

/// The pair that comes before the pair `s` in the expansion, if `s` follows
/// a reduced pair.
pub open spec fn sqrt_back(x: int, a0: int, s: (int, int)) -> (int, int) {
    let d = (x - s.0 * s.0) / s.1;
    let a = (a0 + s.0) / d;
    (a * d - s.0, d)
}

/// The pair `s` is reduced: `m` lies between one and `a0`, and `d` divides
/// `x - m * m` and lies above `a0 - m` and not above `a0 + m`.
pub open spec fn sqrt_reduced(x: int, a0: int, s: (int, int)) -> bool {
    &&& 1 <= s.0 <= a0
    &&& a0 - s.0 < s.1 <= a0 + s.0
    &&& (x - s.0 * s.0) % s.1 == 0
}

/// One step of the expansion keeps the complete quotient in range.
#[verifier::rlimit(50)]
proof fn lemma_sqrt_step(x: int, a0: int, m: int, d: int, a: int)
    requires
        a0 * a0 < x < (a0 + 1) * (a0 + 1),
        a0 >= 1,
        0 <= m <= a0,
        d >= 1,
        (x - m * m) % d == 0,
        a == (a0 + m) / d,
        a >= 1,
    ensures
        ({
            let m2 = d * a - m;
            let d2 = (x - m2 * m2) / d;
            let a2 = (a0 + m2) / d2;
            &&& 0 <= d * a <= 2 * a0
            &&& 1 <= m2 <= a0
            &&& 0 <= m2 * m2 < x
            &&& 1 <= d2 <= 2 * a0
            &&& (x - m2 * m2) % d2 == 0
            &&& 1 <= a2 <= 2 * a0
            &&& a0 - m2 < d2 <= a0 + m2
            &&& d * d2 == x - m2 * m2
            &&& a0 - m < d ==> (a0 + m2) / d == a
        }),
{
    let m2 = d * a - m;
    vstd::arithmetic::div_mod::lemma_fundamental_div_mod(a0 + m, d);
    let r = (a0 + m) % d;
    assert(d * a + r == a0 + m);
    assert(0 <= r < d);
    assert(d * a >= d) by (nonlinear_arith)
        requires
            a >= 1,
            d >= 1,
    ;
    assert(m2 <= a0);
    assert(m2 + d >= a0 + 1);
    assert(m2 >= 1) by {
        if m2 <= 0 {
            assert(d <= m);
        }
    }
    assert(0 <= m2 * m2 <= a0 * a0) by (nonlinear_arith)
        requires
            0 <= m2 <= a0,
    ;
    let k = (x - m * m) / d;
    lemma_divides_quotient(d, x - m * m);
    assert(x - m2 * m2 == d * (k + 2 * a * m - d * a * a)) by (nonlinear_arith)
        requires
            x - m * m == d * k,
            m2 == d * a - m,
    ;
    lemma_multiple_divides(d, k + 2 * a * m - d * a * a);
    let d2 = (x - m2 * m2) / d;
    assert(d2 == k + 2 * a * m - d * a * a);
    assert(d * d2 == x - m2 * m2);
    assert(d2 >= 1) by (nonlinear_arith)
        requires
            d * d2 == x - m2 * m2,
            x - m2 * m2 > 0,
            d >= 1,
    ;
    lemma_multiple_divides(d2, d);
    assert(d2 * d == d * d2) by (nonlinear_arith);
    assert(d2 <= a0 + m2) by {
        if d2 >= a0 + m2 + 1 {
            let low = a0 + 1 - m2;
            let high = a0 + 1 + m2;
            assert(d * d2 >= low * d2) by (nonlinear_arith)
                requires
                    d >= low,
                    d2 >= 0,
            ;
            assert(low * d2 >= low * high) by (nonlinear_arith)
                requires
                    d2 >= high,
                    low >= 0,
            ;
            assert((a0 + 1 - m2) * (a0 + 1 + m2) == (a0 + 1) * (a0 + 1) - m2 * m2)
                by (nonlinear_arith);
        }
    }
    let a2 = (a0 + m2) / d2;
    vstd::arithmetic::div_mod::lemma_fundamental_div_mod(a0 + m2, d2);
    assert(a2 >= 1 && a2 <= a0 + m2) by (nonlinear_arith)
        requires
            d2 * a2 + (a0 + m2) % d2 == a0 + m2,
            0 <= (a0 + m2) % d2 < d2,
            1 <= d2 <= a0 + m2,
    ;
    assert(d * (a - 1) >= 0) by (nonlinear_arith)
        requires
            a >= 1,
            d >= 1,
    ;
    assert(d * a == d * (a - 1) + d) by (nonlinear_arith);
    assert(d <= a0 + m2);
    assert(d2 > a0 - m2) by {
        if d2 <= a0 - m2 {
            let low = a0 - m2;
            let high = a0 + m2;
            assert(d * d2 <= high * d2) by (nonlinear_arith)
                requires
                    d <= high,
                    d2 >= 0,
            ;
            assert(high * d2 <= high * low) by (nonlinear_arith)
                requires
                    d2 <= low,
                    high >= 0,
            ;
            assert(high * low == a0 * a0 - m2 * m2) by (nonlinear_arith)
                requires
                    low == a0 - m2,
                    high == a0 + m2,
            ;
        }
    }
    if a0 - m < d {
        assert(a0 + m2 == a * d + (a0 - m)) by (nonlinear_arith)
            requires
                m2 == d * a - m,
        ;
        vstd::arithmetic::div_mod::lemma_fundamental_div_mod_converse(a0 + m2, d, a, a0 - m);
    }
}

/// After the first step every pair of the expansion is reduced, and the
/// pair before it is found by the step back.
proof fn lemma_sqrt_state(x: int, a0: int, i: nat)
    requires
        a0 * a0 < x < (a0 + 1) * (a0 + 1),
        a0 >= 1,
        i >= 1,
    ensures
        sqrt_reduced(x, a0, sqrt_state(x, a0, i)),
        i >= 2 ==> sqrt_back(x, a0, sqrt_state(x, a0, i)) == sqrt_state(x, a0, (i - 1) as nat),
        i == 1 ==> sqrt_back(x, a0, sqrt_state(x, a0, i)) == (a0, 1int),
    decreases i,
{
    let before = sqrt_state(x, a0, (i - 1) as nat);
    if i >= 2 {
        lemma_sqrt_state(x, a0, (i - 1) as nat);
    } else {
        assert(before == (0int, 1int));
        assert((x - 0 * 0) % 1 == 0);
    }
    let m = before.0;
    let d = before.1;
    let a = (a0 + m) / d;
    vstd::arithmetic::div_mod::lemma_fundamental_div_mod(a0 + m, d);
    assert(a >= 1) by (nonlinear_arith)
        requires
            d * a + (a0 + m) % d == a0 + m,
            0 <= (a0 + m) % d < d,
            1 <= d <= a0 + m,
    ;
    lemma_sqrt_step(x, a0, m, d, a);
    let after = sqrt_state(x, a0, i);
    let m2 = after.0;
    let d2 = after.1;
    assert(m2 == d * a - m);
    assert(d2 == (x - m2 * m2) / d);
    assert(d * d2 == x - m2 * m2);
    assert(d2 * d == d * d2) by (nonlinear_arith);
    lemma_multiple_divides(d2, d);
    assert((x - m2 * m2) / d2 == d);
    if i >= 2 {
        assert((a0 + m2) / d == a);
        assert(a * d - m2 == m) by (nonlinear_arith)
            requires
                m2 == d * a - m,
        ;
    } else {
        assert(d == 1 && m == 0 && a == a0);
        assert(m2 == a0);
        assert((a0 + a0) / 1 == 2 * a0);
        assert((2 * a0) * 1 - a0 == a0);
    }
}

/// Among `n + 1` numbers below `n` two are equal.
proof fn lemma_pigeonhole(f: spec_fn(int) -> int, n: int) -> (pair: (int, int))
    requires
        forall|i: int| 0 <= i <= n ==> 0 <= #[trigger] f(i) < n,
        n >= 0,
    ensures
        0 <= pair.0 < pair.1 <= n,
        f(pair.0) == f(pair.1),
    decreases n,
{
    if n == 0 {
        assert(0 <= f(0) < n);
        (0, 0)
    } else if exists|i: int| 0 <= i < n && #[trigger] f(i) == f(n) {
        let i = choose|i: int| 0 <= i < n && #[trigger] f(i) == f(n);
        (i, n)
    } else {
        let top = f(n);
        let g = |i: int|
            if f(i) > top {
                f(i) - 1
            } else {
                f(i)
            };
        assert forall|i: int| 0 <= i <= n - 1 implies 0 <= #[trigger] g(i) < n - 1 by {
            assert(0 <= f(i) < n);
            assert(f(i) != f(n));
        }
        let pair = lemma_pigeonhole(g, n - 1);
        assert(0 <= f(pair.0) < n);
        assert(0 <= f(pair.1) < n);
        assert(f(pair.0) != f(n));
        assert(f(pair.1) != f(n));
        pair
    }
}

/// Two equal pairs of the expansion lead back to a pair equal to the
/// first.
proof fn lemma_sqrt_cycle(x: int, a0: int, u: nat, v: nat)
    requires
        a0 * a0 < x < (a0 + 1) * (a0 + 1),
        a0 >= 1,
        1 <= u < v,
        sqrt_state(x, a0, u) == sqrt_state(x, a0, v),
    ensures
        sqrt_state(x, a0, 1) == sqrt_state(x, a0, (v - u + 1) as nat),
    decreases u,
{
    if u >= 2 {
        lemma_sqrt_state(x, a0, u);
        lemma_sqrt_state(x, a0, v);
        lemma_sqrt_cycle(x, a0, (u - 1) as nat, (v - 1) as nat);
    }
}

/// Within `sqrt_period_bound(a0)` steps the expansion comes to the pair
/// `(a0, 1)`, whose term is twice `a0`.
proof fn lemma_sqrt_period(x: int, a0: int) -> (p: nat)
    requires
        a0 * a0 < x < (a0 + 1) * (a0 + 1),
        a0 >= 1,
    ensures
        1 <= p <= sqrt_period_bound(a0),
        sqrt_state(x, a0, p) == (a0, 1int),
{
    let width = 2 * a0 + 1;
    let n = (a0 + 1) * width;
    assert(n >= 1) by (nonlinear_arith)
        requires
            n == (a0 + 1) * width,
            a0 >= 1,
            width >= 1,
    ;
    let f = |i: int|
        if i >= 0 {
            sqrt_state(x, a0, (i + 1) as nat).0 * width + sqrt_state(x, a0, (i + 1) as nat).1
        } else {
            0
        };
    assert forall|i: int| 0 <= i <= n implies 0 <= #[trigger] f(i) < n by {
        lemma_sqrt_state(x, a0, (i + 1) as nat);
        let s = sqrt_state(x, a0, (i + 1) as nat);
        assert(0 <= s.0 * width + s.1 < (a0 + 1) * width) by (nonlinear_arith)
            requires
                1 <= s.0 <= a0,
                1 <= s.1 < width,
                width >= 1,
        ;
    }
    let pair = lemma_pigeonhole(f, n);
    let u = (pair.0 + 1) as nat;
    let v = (pair.1 + 1) as nat;
    lemma_sqrt_state(x, a0, u);
    lemma_sqrt_state(x, a0, v);
    let su = sqrt_state(x, a0, u);
    let sv = sqrt_state(x, a0, v);
    assert(su.0 * width + su.1 == sv.0 * width + sv.1);
    assert(su.0 == sv.0) by (nonlinear_arith)
        requires
            su.0 * width + su.1 == sv.0 * width + sv.1,
            1 <= su.1 < width,
            1 <= sv.1 < width,
    ;
    assert(su == sv);
    lemma_sqrt_cycle(x, a0, u, v);
    let p = (v - u) as nat;
    lemma_sqrt_state(x, a0, p + 1);
    lemma_sqrt_state(x, a0, 1);
    if p >= 2 {
        lemma_sqrt_state(x, a0, p);
    }
    assert(sqrt_back(x, a0, sqrt_state(x, a0, p + 1)) == sqrt_state(x, a0, p)) by {
        if p + 1 >= 2 {
        }
    }
    p
}

/// The continued fraction of the square root of `x`: the integer part of
/// the root alone if `x` is a square; otherwise the integer part followed
/// by the terms of one period, of which the last, and no other, is twice
/// the integer part.
#[verifier::rlimit(50)]
pub fn square_root(x: u64) -> (expansion: ContinuedFraction)
    ensures
        expansion@ == sqrt_expansion(x as int),
        expansion@.len() >= 1,
        expansion@[0] == isqrt_of(x as int),
        isqrt_of(x as int) * isqrt_of(x as int) == x ==> expansion@.len() == 1,
        isqrt_of(x as int) * isqrt_of(x as int) != x ==> expansion@.len() >= 2
            && expansion@.last() == 2 * isqrt_of(x as int) && forall|i: int|
            1 <= i < expansion@.len() - 1 ==> #[trigger] expansion@[i] != 2 * isqrt_of(x as int),
{
    let a0: u64 = isqrt(x);
    let mut expansion: ContinuedFraction = Vec::new();
    expansion.push(a0);
    if a0 * a0 == x {
        return expansion;
    }
    assert(a0 >= 1) by (nonlinear_arith)
        requires
            a0 * a0 != x,
            a0 * a0 <= x,
            x < (a0 + 1) * (a0 + 1),
            a0 >= 0,
    ;
    let mut m: u64 = 0;
    let mut d: u64 = 1;
    let mut a: u64 = a0;
    let end: u64 = a0 * 2;
    let ghost bound = sqrt_period_bound(a0 as int);
    let ghost target = sqrt_terms(x as int, a0 as int, 0, 1, a0 as int, bound);
    let ghost head = expansion@;
    let ghost mut done: Seq<u64> = Seq::empty();
    let ghost mut step: nat = 0;
    let ghost mut period: nat = 0;
    proof {
        period = lemma_sqrt_period(x as int, a0 as int);
        assert(head + Seq::<u64>::empty() =~= head);
        assert(expansion@ =~= head + Seq::<u64>::empty());
    }
    while a != end
        invariant
            a0 * a0 < x < (a0 + 1) * (a0 + 1),
            1 <= a0 <= 0xffff_ffff,
            end == 2 * a0,
            bound == sqrt_period_bound(a0 as int),
            1 <= period <= bound,
            sqrt_state(x as int, a0 as int, period) == (a0 as int, 1int),
            step <= period,
            (m as int, d as int) == sqrt_state(x as int, a0 as int, step),
            step == 0 ==> a == a0,
            0 <= m <= a0,
            d >= 1,
            (x - m * m) % (d as int) == 0,
            a == (a0 + m) / (d as int),
            1 <= a <= 2 * a0,
            head == seq![a0],
            expansion@ == head + done,
            done.len() == step,
            expansion@.last() == a,
            forall|i: int| 1 <= i < expansion@.len() - 1 ==> #[trigger] expansion@[i] != end,
            done + sqrt_terms(
                x as int,
                a0 as int,
                m as int,
                d as int,
                a as int,
                (bound - step) as nat,
            ) == target,
        decreases period - step,
    {
        proof {
            lemma_sqrt_step(x as int, a0 as int, m as int, d as int, a as int);
            if step == period {
                let root = a0 as int;
                assert(m == root && d == 1);
                assert((root + root) / 1 == 2 * root);
                assert(a == 2 * root);
            }
            assert(step < period);
        }
        let ghost rest = sqrt_terms(
            x as int,
            a0 as int,
            m as int,
            d as int,
            a as int,
            (bound - step) as nat,
        );
        let ghost before = expansion@;
        m = d * a - m;
        d = (x - m * m) / d;
        a = (a0 + m) / d;
        expansion.push(a);
        proof {
            let after = sqrt_terms(
                x as int,
                a0 as int,
                m as int,
                d as int,
                a as int,
                (bound - step - 1) as nat,
            );
            assert(rest == seq![a] + after);
            assert(done.push(a) + after =~= done + (seq![a] + after));
            assert(head + done.push(a) =~= (head + done).push(a));
            assert forall|i: int| 1 <= i < expansion@.len() - 1 implies #[trigger] expansion@[i]
                != end by {
                assert(expansion@[i] == before[i]);
            }
            done = done.push(a);
            step = step + 1;
        }
    }
    proof {
        assert(done + Seq::<u64>::empty() =~= done);
    }
    expansion
}

/// Term `i` of the continued fraction of `e`, which is
/// `[2; 1, 2, 1, 1, 4, 1, 1, 6, ..]`.
pub open spec fn e_term(i: int) -> u64 {
    if i == 0 {
        2
    } else if i % 3 == 2 {
        (2 * (i / 3 + 1)) as u64
    } else {
        1
    }
}

/// The first `n` terms of the continued fraction of `e`.
pub fn e(n: u64) -> (frac: ContinuedFraction)
    requires
        n != 0,
    ensures
        frac@.len() == n,
        forall|i: int| 0 <= i < n ==> #[trigger] frac@[i] == e_term(i),
{
    let mut frac: ContinuedFraction = Vec::new();
    frac.push(2);
    let mut val: u64 = 2;
    let mut i: u64 = 0;
    while i < n - 1
        invariant
            n >= 1,
            0 <= i <= n - 1,
            frac@.len() == i + 1,
            val == 2 * ((i + 1) / 3 + 1),
            forall|j: int| 0 <= j <= i ==> #[trigger] frac@[j] == e_term(j),
        decreases n - 1 - i,
    {
        if i % 3 == 1 {
            frac.push(val);
            val = val + 2;
        } else {
            frac.push(1);
        }
        i = i + 1;
    }
    frac
}

/// The terms of a periodic continued fraction, written out for `n` periods:
/// `fraction`, followed `n - 1` times by all of its terms but the first.
pub open spec fn periods(fraction: Seq<u64>, n: nat) -> Seq<u64>
    decreases n,
{
    if n <= 1 {
        fraction
    } else {
        periods(fraction, (n - 1) as nat) + fraction.subrange(1, fraction.len() as int)
    }
}

/// The numerator and the denominator with which the expansion of `terms`
/// stands before term `i` comes in, on the way from the last term to the
/// first: each term `t` turns `(num, den)` into `(den, num + t * den)`, and
/// the expansion sets out from one and the last term.
pub open spec fn expansion_state(terms: Seq<u64>, i: int) -> (int, int)
    decreases terms.len() - i,
{
    if i >= terms.len() || terms.len() == 0 {
        (1, if terms.len() == 0 {
            1
        } else {
            terms.last() as int
        })
    } else {
        let s = expansion_state(terms, i + 1);
        (s.1, s.0 + terms[i] * s.1)
    }
}

/// What the expansion of `terms` comes to: when all terms but the first are
/// in, the first term times the denominator is added to the numerator.
pub open spec fn expansion_value(terms: Seq<u64>) -> (int, int) {
    let s = expansion_state(terms, 1);
    (s.0 + terms[0] * s.1, s.1)
}

/// Every number that the expansion of `terms` passes through fits the
/// integer type.
pub open spec fn expansion_fits(terms: Seq<u64>) -> bool {
    &&& forall|i: int|
        1 <= i <= terms.len() ==> #[trigger] expansion_state(terms, i).1 <= u64::MAX
    &&& expansion_value(terms).0 <= u64::MAX
}

/// The numbers that an expansion passes through are not negative.
proof fn lemma_expansion_state(terms: Seq<u64>, i: int)
    requires
        terms.len() > 0,
        1 <= i <= terms.len(),
    ensures
        expansion_state(terms, i).0 >= 0,
        expansion_state(terms, i).1 >= 0,
        i < terms.len() ==> expansion_state(terms, i).0 == expansion_state(terms, i + 1).1,
    decreases terms.len() - i,
{
    if i < terms.len() {
        lemma_expansion_state(terms, i + 1);
        let s = expansion_state(terms, i + 1);
        assert(terms[i] * s.1 >= 0) by (nonlinear_arith)
            requires
                terms[i] >= 0,
                s.1 >= 0,
        ;
    }
}

/// The fraction to which the continued fraction `fraction`, written out
/// for `n` periods, expands: numerator first. A fraction of one term
/// expands to that term over one.
///
/// The numbers that the expansion passes through must fit the integer
/// type.
pub fn expand_fraction_ntimes(fraction: &ContinuedFraction, n: u64) -> (value: (u64, u64))
    requires
        fraction@.len() != 0,
        n != 0,
        fraction@.len() > 1 ==> expansion_fits(periods(fraction@, n as nat)),
    ensures
        fraction@.len() == 1 ==> value == (fraction@[0], 1u64),
        fraction@.len() > 1 ==> value.0 == expansion_value(periods(fraction@, n as nat)).0
            && value.1 == expansion_value(periods(fraction@, n as nat)).1,
{
    if fraction.len() == 1 {
        return (fraction[0], 1);
    }
    let mut frac: Vec<u64> = Vec::new();
    let mut k: usize = 0;
    while k < fraction.len()
        invariant
            0 <= k <= fraction@.len(),
            frac@ == fraction@.subrange(0, k as int),
        decreases fraction@.len() - k,
    {
        frac.push(fraction[k]);
        assert(frac@ =~= fraction@.subrange(0, k + 1));
        k = k + 1;
    }
    assert(frac@ =~= fraction@);
    let mut round: u64 = 1;
    while round < n
        invariant
            fraction@.len() > 1,
            1 <= round <= n,
            frac@ == periods(fraction@, round as nat),
        decreases n - round,
    {
        let ghost before = frac@;
        let mut j: usize = 1;
        while j < fraction.len()
            invariant
                1 <= j <= fraction@.len(),
                frac@ == before + fraction@.subrange(1, j as int),
            decreases fraction@.len() - j,
        {
            frac.push(fraction[j]);
            assert(frac@ =~= before + fraction@.subrange(1, j + 1));
            j = j + 1;
        }
        round = round + 1;
    }
    let ghost terms = frac@;
    let len: usize = frac.len();
    assert(len >= 2) by {
        lemma_periods_len(fraction@, n as nat);
    }
    let mut num: u64 = 1;
    let mut den: u64 = frac[len - 1];
    let mut i: usize = len;
    proof {
        lemma_expansion_state(terms, len as int);
    }
    while i > 1
        invariant
            1 <= i <= len,
            len == terms.len(),
            len >= 2,
            frac@ == terms,
            expansion_fits(terms),
            num == expansion_state(terms, i as int).0,
            den == expansion_state(terms, i as int).1,
        decreases i,
    {
        proof {
            lemma_expansion_state(terms, i as int);
            lemma_expansion_state(terms, i - 1);
            let s = expansion_state(terms, i as int);
            assert(expansion_state(terms, i - 1).1 == s.0 + terms[i - 1] * s.1);
            assert(expansion_state(terms, i - 1).1 <= u64::MAX);
            assert(terms[i - 1] * s.1 <= s.0 + terms[i - 1] * s.1);
        }
        let next: u64 = num + frac[i - 1] * den;
        num = den;
        den = next;
        i = i - 1;
    }
    proof {
        lemma_expansion_state(terms, 1);
        assert(expansion_value(terms).0 == num + terms[0] * den);
        assert(terms[0] * den >= 0) by (nonlinear_arith)
            requires
                terms[0] >= 0,
                den >= 0,
        ;
    }
    num = num + frac[0] * den;
    (num, den)
}

/// A fraction of more than one term, written out for any number of periods,
/// has more than one term.
proof fn lemma_periods_len(fraction: Seq<u64>, n: nat)
    requires
        fraction.len() > 1,
    ensures
        periods(fraction, n).len() >= fraction.len(),
    decreases n,
{
    if n > 1 {
        lemma_periods_len(fraction, (n - 1) as nat);
    }
}

/// The fraction to which the continued fraction `fraction` expands, written
/// out for one period.
pub fn expand_fraction(fraction: &ContinuedFraction) -> (value: (u64, u64))
    requires
        fraction@.len() != 0,
        fraction@.len() > 1 ==> expansion_fits(periods(fraction@, 1)),
    ensures
        fraction@.len() == 1 ==> value == (fraction@[0], 1u64),
        fraction@.len() > 1 ==> value.0 == expansion_value(periods(fraction@, 1)).0 && value.1
            == expansion_value(periods(fraction@, 1)).1,
{
    expand_fraction_ntimes(fraction, 1)
}

/// The character of the decimal digit `d`.
pub open spec fn digit_char(d: int) -> char {
    if d == 0 {
        '0'
    } else if d == 1 {
        '1'
    } else if d == 2 {
        '2'
    } else if d == 3 {
        '3'
    } else if d == 4 {
        '4'
    } else if d == 5 {
        '5'
    } else if d == 6 {
        '6'
    } else if d == 7 {
        '7'
    } else if d == 8 {
        '8'
    } else {
        '9'
    }
}

/// The decimal digits of `n`, the most significant first.
pub open spec fn decimal(n: int) -> Seq<char>
    decreases n,
{
    if n < 10 {
        seq![digit_char(n)]
    } else {
        decimal(n / 10).push(digit_char(n % 10))
    }
}

/// The terms of `fraction` from the second up to, but not including, term
/// `upto`, in decimal and with a comma and a space between them.
pub open spec fn terms_text(fraction: Seq<u64>, upto: int) -> Seq<char>
    decreases upto,
{
    if upto <= 1 {
        Seq::empty()
    } else if upto == 2 {
        decimal(fraction[1] as int)
    } else {
        terms_text(fraction, upto - 1) + ", "@ + decimal(fraction[upto - 1] as int)
    }
}

/// The written form of a continued fraction: `[]` for no terms, `[a]` for
/// one, and `[a; b, c, d]` for more.
pub open spec fn fraction_text(fraction: Seq<u64>) -> Seq<char> {
    if fraction.len() == 0 {
        "[]"@
    } else if fraction.len() == 1 {
        "["@ + decimal(fraction[0] as int) + "]"@
    } else {
        "["@ + decimal(fraction[0] as int) + "; "@ + terms_text(fraction, fraction.len() as int)
            + "]"@
    }
}

/// The decimal digit `d` as text.
fn digit_text(d: u64) -> (text: &'static str)
    requires
        d < 10,
    ensures
        text@ == seq![digit_char(d as int)],
{
    proof {
        reveal_strlit("0");
        reveal_strlit("1");
        reveal_strlit("2");
        reveal_strlit("3");
        reveal_strlit("4");
        reveal_strlit("5");
        reveal_strlit("6");
        reveal_strlit("7");
        reveal_strlit("8");
        reveal_strlit("9");
    }
    let text = if d == 0 {
        "0"
    } else if d == 1 {
        "1"
    } else if d == 2 {
        "2"
    } else if d == 3 {
        "3"
    } else if d == 4 {
        "4"
    } else if d == 5 {
        "5"
    } else if d == 6 {
        "6"
    } else if d == 7 {
        "7"
    } else if d == 8 {
        "8"
    } else {
        "9"
    };
    assert(text@ =~= seq![digit_char(d as int)]);
    text
}

/// Writes `n` in decimal at the end of `text`.
fn append_decimal(text: &mut String, n: u64)
    ensures
        final(text)@ == old(text)@ + decimal(n as int),
    decreases n,
{
    if n >= 10 {
        append_decimal(text, n / 10);
    }
    text.append(digit_text(n % 10));
    proof {
        let digit = seq![digit_char((n % 10) as int)];
        if n >= 10 {
            assert(old(text)@ + decimal(n as int / 10) + digit =~= old(text)@ + decimal(
                n as int / 10,
            ).push(digit_char(n as int % 10)));
        }
    }
}

/// The written form of a continued fraction: `[]` for no terms, `[a]` for
/// one, and `[a; b, c, d]` for more.
pub fn to_string(fraction: &ContinuedFraction) -> (text: String)
    ensures
        text@ == fraction_text(fraction@),
{
    if fraction.len() == 0 {
        return String::from_str("[]");
    }
    let mut text = String::from_str("[");
    append_decimal(&mut text, fraction[0]);
    if fraction.len() != 1 {
        text.append("; ");
        let ghost head = text@;
        let mut i: usize = 1;
        while i < fraction.len()
            invariant
                1 <= i <= fraction@.len(),
                text@ == head + terms_text(fraction@, i as int),
            decreases fraction@.len() - i,
        {
            let ghost before = text@;
            if i != 1 {
                text.append(", ");
            }
            append_decimal(&mut text, fraction[i]);
            proof {
                let term = decimal(fraction@[i as int] as int);
                if i == 1 {
                    assert(head + Seq::<char>::empty() + term =~= head + term);
                } else {
                    assert(head + terms_text(fraction@, i as int) + ", "@ + term =~= head + (
                    terms_text(fraction@, i as int) + ", "@ + term));
                }
            }
            i = i + 1;
        }
    }
    text.append("]");
    text
}

} // verus!
