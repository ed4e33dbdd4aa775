//! Divisibility, primality and integer roots: the vocabulary in which the
//! contracts of the other modules are written.

use vstd::prelude::*;

verus! {

/// `n` is a prime number: at least two, and divisible by no number strictly
/// between one and itself.
pub open spec fn is_prime_number(n: int) -> bool {
    n >= 2 && forall|d: int| 2 <= d < n ==> #[trigger] (n % d) != 0
}

/// `r` is the integer square root of `n`: the largest number whose square
/// does not exceed `n`.
pub open spec fn is_sqrt_floor(r: int, n: int) -> bool {
    0 <= r && r * r <= n && n < (r + 1) * (r + 1)
}

/// `r` is the integer cube root of `n`.
pub open spec fn is_cbrt_floor(r: int, n: int) -> bool {
    0 <= r && r * r * r <= n && n < (r + 1) * (r + 1) * (r + 1)
}

/// A multiple of `d` leaves no remainder when divided by `d`.
pub proof fn lemma_multiple_divides(d: int, k: int)
    requires
        d > 0,
    ensures
        (d * k) % d == 0,
        (k * d) % d == 0,
        (d * k) / d == k,
        (k * d) / d == k,
{
    assert(k * d == d * k) by (nonlinear_arith);
    assert(d * k == k * d + 0);
    vstd::arithmetic::div_mod::lemma_fundamental_div_mod_converse(d * k, d, k, 0);
}

/// A number that `d` divides is `d` times the quotient.
pub proof fn lemma_divides_quotient(d: int, n: int)
    requires
        d > 0,
        n % d == 0,
    ensures
        n == d * (n / d),
        n == (n / d) * d,
{
    vstd::arithmetic::div_mod::lemma_fundamental_div_mod(n, d);
    assert(d * (n / d) == (n / d) * d) by (nonlinear_arith);
}

/// Divisibility is transitive.
pub proof fn lemma_divides_transitive(a: int, b: int, c: int)
    requires
        a > 0,
        b > 0,
        b % a == 0,
        c % b == 0,
    ensures
        c % a == 0,
{
    lemma_divides_quotient(a, b);
    lemma_divides_quotient(b, c);
    let k = b / a;
    let m = c / b;
    assert(c == a * (k * m)) by (nonlinear_arith)
        requires
            c == b * m,
            b == a * k,
    ;
    lemma_multiple_divides(a, k * m);
}

/// A divisor of two numbers divides their sum and their difference.
pub proof fn lemma_divides_combination(d: int, a: int, b: int)
    requires
        d > 0,
        a % d == 0,
        b % d == 0,
    ensures
        (a + b) % d == 0,
        (a - b) % d == 0,
{
    lemma_divides_quotient(d, a);
    lemma_divides_quotient(d, b);
    let x = a / d;
    let y = b / d;
    assert(a + b == d * (x + y)) by (nonlinear_arith)
        requires
            a == d * x,
            b == d * y,
    ;
    assert(a - b == d * (x - y)) by (nonlinear_arith)
        requires
            a == d * x,
            b == d * y,
    ;
    lemma_multiple_divides(d, x + y);
    lemma_multiple_divides(d, x - y);
}

/// A divisor of `n` divides every multiple of `n`.
pub proof fn lemma_divides_multiple(d: int, n: int, k: int)
    requires
        d > 0,
        n % d == 0,
    ensures
        (n * k) % d == 0,
        (k * n) % d == 0,
{
    lemma_divides_quotient(d, n);
    let q = n / d;
    assert(n * k == d * (q * k) && k * n == d * (q * k)) by (nonlinear_arith)
        requires
            n == d * q,
    ;
    lemma_multiple_divides(d, q * k);
}

/// A positive divisor of a positive number does not exceed it, and the
/// quotient is positive.
pub proof fn lemma_divisor_bounds(d: int, n: int)
    requires
        d > 0,
        n > 0,
        n % d == 0,
    ensures
        d <= n,
        1 <= n / d <= n,
        (n / d) * d == n,
        n % (n / d) == 0,
{
    lemma_divides_quotient(d, n);
    let q = n / d;
    assert(q >= 1 && d <= n && q <= n) by (nonlinear_arith)
        requires
            n == d * q,
            d > 0,
            n > 0,
    ;
    lemma_multiple_divides(q, d);
}

/// Two multiples of `step` less than `step` apart are equal.
pub proof fn lemma_multiples_apart(n: int, m: int, step: int)
    requires
        step > 0,
        m % step == 0,
        n % step == 0,
        m <= n < m + step,
    ensures
        n == m,
{
    lemma_divides_combination(step, n, m);
    if n - m > 0 {
        vstd::arithmetic::div_mod::lemma_small_mod((n - m) as nat, step as nat);
    }
}

/// The sum of a multiple of `step` and `step` is a multiple of `step`.
pub proof fn lemma_multiple_step(m: int, step: int)
    requires
        step > 0,
        m % step == 0,
    ensures
        (m + step) % step == 0,
{
    lemma_multiple_divides(step, 1);
    lemma_divides_combination(step, m, step);
}

/// A number at least two with no divisor `d` such that `2 <= d` and
/// `d * d <= n` is prime.
pub proof fn lemma_prime_from_small_divisors(n: int)
    requires
        n >= 2,
        forall|d: int| 2 <= d && d * d <= n ==> #[trigger] (n % d) != 0,
    ensures
        is_prime_number(n),
{
    assert forall|d: int| 2 <= d < n implies #[trigger] (n % d) != 0 by {
        if n % d == 0 {
            lemma_divisor_bounds(d, n);
            let q = n / d;
            assert(q >= 2) by (nonlinear_arith)
                requires
                    q * d == n,
                    d < n,
                    q >= 1,
                    d >= 2,
            ;
            if d * d > n {
                assert(q * q <= n) by (nonlinear_arith)
                    requires
                        q * d == n,
                        d * d > n,
                        q >= 1,
                        d >= 2,
                ;
                assert(n % q == 0);
            }
        }
    }
}

/// Every number at least two has a prime divisor.
pub proof fn lemma_prime_divisor_exists(n: int) -> (p: int)
    requires
        n >= 2,
    ensures
        is_prime_number(p),
        2 <= p <= n,
        n % p == 0,
        forall|d: int| 2 <= d < p ==> #[trigger] (n % d) != 0,
    decreases n,
{
    if is_prime_number(n) {
        lemma_multiple_divides(n, 1);
        n
    } else {
        let d = choose|d: int| 2 <= d < n && #[trigger] (n % d) == 0;
        let p = least_divisor_from(n, 2);
        lemma_least_divisor(n, 2);
        assert(p <= d);
        assert forall|e: int| 2 <= e < p implies #[trigger] (p % e) != 0 by {
            if p % e == 0 {
                lemma_divides_transitive(e, p, n);
            }
        }
        p
    }
}

/// The least divisor of `n` that is at least `from`, found by searching
/// upwards; `n` itself if there is no smaller one.
pub open spec fn least_divisor_from(n: int, from: int) -> int
    decreases n - from,
{
    if from >= n {
        n
    } else if from > 0 && n % from == 0 {
        from
    } else {
        least_divisor_from(n, from + 1)
    }
}

/// `least_divisor_from` returns a divisor, and no number between `from` and
/// it divides `n`.
pub proof fn lemma_least_divisor(n: int, from: int)
    requires
        0 < from <= n,
    ensures
        from <= least_divisor_from(n, from) <= n,
        n % least_divisor_from(n, from) == 0,
        forall|d: int| from <= d < least_divisor_from(n, from) ==> #[trigger] (n % d) != 0,
    decreases n - from,
{
    if from >= n {
        lemma_multiple_divides(n, 1);
    } else if n % from == 0 {
    } else {
        lemma_least_divisor(n, from + 1);
    }
}

/// The smallest prime factor of a number at least two.
pub open spec fn smallest_prime_factor(n: int) -> int {
    least_divisor_from(n, 2)
}

/// The smallest prime factor is prime, divides `n`, and nothing smaller
/// than it (other than one) divides `n`.
pub proof fn lemma_smallest_prime_factor(n: int)
    requires
        n >= 2,
    ensures
        is_prime_number(smallest_prime_factor(n)),
        2 <= smallest_prime_factor(n) <= n,
        n % smallest_prime_factor(n) == 0,
        forall|d: int| 2 <= d < smallest_prime_factor(n) ==> #[trigger] (n % d) != 0,
{
    lemma_least_divisor(n, 2);
    let p = smallest_prime_factor(n);
    assert forall|e: int| 2 <= e < p implies #[trigger] (p % e) != 0 by {
        if p % e == 0 {
            lemma_divides_transitive(e, p, n);
        }
    }
}

/// A composite number has a prime factor whose square does not exceed it.
pub proof fn lemma_composite_has_small_factor(n: int)
    requires
        n >= 2,
        !is_prime_number(n),
    ensures
        is_prime_number(smallest_prime_factor(n)),
        n % smallest_prime_factor(n) == 0,
        smallest_prime_factor(n) * smallest_prime_factor(n) <= n,
{
    lemma_smallest_prime_factor(n);
    let q = smallest_prime_factor(n);
    lemma_divisor_bounds(q, n);
    let c = n / q;
    assert(c >= 2) by (nonlinear_arith)
        requires
            c * q == n,
            q < n,
            c >= 1,
            q >= 2,
    ;
    if c < q {
        assert(n % c == 0);
    }
    assert(q * q <= n) by (nonlinear_arith)
        requires
            c * q == n,
            c >= q,
            q >= 2,
    ;
}

/// The integer square root, as a function.
pub open spec fn isqrt_of(n: int) -> int {
    choose|r: int| is_sqrt_floor(r, n)
}

/// The integer square root is unique.
pub proof fn lemma_isqrt_of(n: int, r: int)
    requires
        is_sqrt_floor(r, n),
    ensures
        isqrt_of(n) == r,
{
    let q = isqrt_of(n);
    assert(q == r) by (nonlinear_arith)
        requires
            0 <= r,
            r * r <= n,
            n < (r + 1) * (r + 1),
            0 <= q,
            q * q <= n,
            n < (q + 1) * (q + 1),
    ;
}

/// Every number has an integer square root and an integer cube root in the
/// sense of `is_sqrt_floor` and `is_cbrt_floor`.
pub proof fn lemma_isqrt_exists(x: u64)
    ensures
        is_sqrt_floor(isqrt_of(x as int), x as int),
        is_cbrt_floor(icbrt_of(x as int), x as int),
{
    lemma_sqrt_witness(x as int, 0);
    lemma_cbrt_witness(x as int, 0);
}

/// There is an integer square root of `x` at or above `r`, if `r * r` does
/// not exceed `x`.
proof fn lemma_sqrt_witness(x: int, r: int)
    requires
        0 <= r,
        r * r <= x,
    ensures
        is_sqrt_floor(isqrt_of(x), x),
    decreases x - r,
{
    if x < (r + 1) * (r + 1) {
        assert(is_sqrt_floor(r, x));
    } else {
        assert(r < x) by (nonlinear_arith)
            requires
                (r + 1) * (r + 1) <= x,
                r >= 0,
        ;
        lemma_sqrt_witness(x, r + 1);
    }
}

/// There is an integer cube root of `x` at or above `r`, if the cube of `r`
/// does not exceed `x`.
proof fn lemma_cbrt_witness(x: int, r: int)
    requires
        0 <= r,
        r * r * r <= x,
    ensures
        is_cbrt_floor(icbrt_of(x), x),
    decreases x - r,
{
    if x < (r + 1) * (r + 1) * (r + 1) {
        assert(is_cbrt_floor(r, x));
    } else {
        assert(r < x) by (nonlinear_arith)
            requires
                (r + 1) * (r + 1) * (r + 1) <= x,
                r >= 0,
        ;
        lemma_cbrt_witness(x, r + 1);
    }
}

/// The integer square root of `n`.
pub fn isqrt(n: u64) -> (r: u64)
    ensures
        is_sqrt_floor(r as int, n as int),
        r == isqrt_of(n as int),
        r <= 0xffff_ffff,
{
    let mut lo: u64 = 0;
    let mut hi: u64 = 0x1_0000_0000;
    assert(0x1_0000_0000int * 0x1_0000_0000int > n) by (nonlinear_arith)
        requires
            n <= u64::MAX,
    ;
    while hi - lo > 1
        invariant
            lo < hi <= 0x1_0000_0000,
            lo * lo <= n,
            n < hi * hi,
        decreases hi - lo,
    {
        let mid: u64 = lo + (hi - lo) / 2;
        assert(mid * mid <= 0xffff_ffffint * 0xffff_ffffint) by (nonlinear_arith)
            requires
                0 <= mid <= 0xffff_ffff,
        ;
        if mid * mid <= n {
            lo = mid;
        } else {
            hi = mid;
        }
    }
    proof {
        lemma_isqrt_of(n as int, lo as int);
    }
    lo
}

/// The integer cube root, as a function.
pub open spec fn icbrt_of(n: int) -> int {
    choose|r: int| is_cbrt_floor(r, n)
}

/// The integer cube root is unique.
pub proof fn lemma_icbrt_of(n: int, r: int)
    requires
        is_cbrt_floor(r, n),
    ensures
        icbrt_of(n) == r,
{
    let q = icbrt_of(n);
    assert(q == r) by (nonlinear_arith)
        requires
            0 <= r,
            r * r * r <= n,
            n < (r + 1) * (r + 1) * (r + 1),
            0 <= q,
            q * q * q <= n,
            n < (q + 1) * (q + 1) * (q + 1),
    ;
}

/// The integer cube root of `n`.
pub fn icbrt(n: u64) -> (r: u64)
    ensures
        is_cbrt_floor(r as int, n as int),
        r == icbrt_of(n as int),
        r <= 2_642_245,
{
    let mut lo: u64 = 0;
    let mut hi: u64 = 2_642_246;
    assert(2_642_246int * 2_642_246int * 2_642_246int > n) by (nonlinear_arith)
        requires
            n <= u64::MAX,
    ;
    while hi - lo > 1
        invariant
            lo < hi <= 2_642_246,
            lo * lo * lo <= n,
            n < hi * hi * hi,
        decreases hi - lo,
    {
        let mid: u64 = lo + (hi - lo) / 2;
        assert(mid * mid <= 2_642_245int * 2_642_245int && mid * mid * mid <= 2_642_245int
            * 2_642_245int * 2_642_245int) by (nonlinear_arith)
            requires
                0 <= mid <= 2_642_245,
        ;
        if mid * mid * mid <= n {
            lo = mid;
        } else {
            hi = mid;
        }
    }
    proof {
        lemma_icbrt_of(n as int, lo as int);
    }
    lo
}

} // verus!
