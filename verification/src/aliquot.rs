//! Aliquot sums and divisor sums, and the kinds of numbers that they tell
//! apart.

use vstd::prelude::*;
use crate::arith::{is_sqrt_floor, isqrt, lemma_divisor_bounds, lemma_multiple_divides};

verus! {

/// The sum of the divisors `d` of `n` with `lo <= d < hi`.
pub open spec fn divisor_sum_between(n: int, lo: int, hi: int) -> int
    decreases hi - lo,
{
    if hi <= lo {
        0
    } else {
        divisor_sum_between(n, lo, hi - 1) + if hi - 1 > 0 && n % (hi - 1) == 0 {
            hi - 1
        } else {
            0
        }
    }
}

/// The aliquot sum of `n`: the sum of the divisors of `n` other than `n`.
pub open spec fn aliquot_sum_of(n: int) -> int {
    divisor_sum_between(n, 1, n)
}

/// The divisor sum of `n`: the sum of all divisors of `n`.
pub open spec fn divisor_sum_of(n: int) -> int {
    aliquot_sum_of(n) + n
}

/// The sum of the divisors `e` of `n` with `r < e < hi` whose cofactor
/// `n / e` is less than `i`.
pub open spec fn cofactor_sum(n: int, r: int, i: int, hi: int) -> int
    decreases hi - r,
{
    if hi <= r + 1 {
        0
    } else {
        cofactor_sum(n, r, i, hi - 1) + if n % (hi - 1) == 0 && (hi - 1) * (i - 1) >= n {
            hi - 1
        } else {
            0
        }
    }
}

/// A sum of divisors is not negative, grows with its range, and splits at
/// any point of its range.
proof fn lemma_divisor_sum_between(n: int, lo: int, mid: int, hi: int)
    requires
        1 <= lo <= mid <= hi,
    ensures
        0 <= divisor_sum_between(n, lo, mid) <= divisor_sum_between(n, lo, hi),
        divisor_sum_between(n, lo, hi) == divisor_sum_between(n, lo, mid) + divisor_sum_between(
            n,
            mid,
            hi,
        ),
    decreases hi - lo,
{
    if mid < hi {
        lemma_divisor_sum_between(n, lo, mid, hi - 1);
    } else if lo < mid {
        lemma_divisor_sum_between(n, lo, mid - 1, mid - 1);
    }
}

/// No divisor above the root has a cofactor below two, a cofactor sum grows
/// with the bound on the cofactors, and with the bound at its greatest the
/// cofactor sum holds every divisor above the root.
proof fn lemma_cofactor_sum(n: int, r: int, i: int, hi: int)
    requires
        n >= 2,
        is_sqrt_floor(r, n),
        2 <= i <= r + 1,
        r + 1 <= hi <= n,
    ensures
        cofactor_sum(n, r, 2, hi) == 0,
        0 <= cofactor_sum(n, r, i, hi) <= cofactor_sum(n, r, r + 1, hi),
        cofactor_sum(n, r, r + 1, hi) == divisor_sum_between(n, r + 1, hi),
    decreases hi - r,
{
    if hi > r + 1 {
        lemma_cofactor_sum(n, r, i, hi - 1);
        let e = hi - 1;
        if n % e == 0 {
            lemma_divisor_bounds(e, n);
            let c = n / e;
            assert(c * (r + 1) <= c * e) by (nonlinear_arith)
                requires
                    e >= r + 1,
                    c >= 1,
            ;
            assert(c <= r) by (nonlinear_arith)
                requires
                    c * (r + 1) < (r + 1) * (r + 1),
                    r >= 0,
            ;
            assert(e * r >= n) by (nonlinear_arith)
                requires
                    c * e == n,
                    c <= r,
                    e >= 1,
            ;
            assert(e * ((r + 1) - 1) >= n);
        }
    }
}

/// Letting cofactors up to `i` in adds the divisor `n / i` to the cofactor
/// sum, if `i` divides `n` and is not the root of `n`.
proof fn lemma_cofactor_step(n: int, r: int, i: int, hi: int)
    requires
        n >= 2,
        is_sqrt_floor(r, n),
        2 <= i <= r,
        r + 1 <= hi <= n,
    ensures
        cofactor_sum(n, r, i + 1, hi) == cofactor_sum(n, r, i, hi) + if n % i == 0 && n / i != i
            && n / i < hi {
            n / i
        } else {
            0
        },
        n % i == 0 && n / i != i ==> r < n / i < n,
    decreases hi - r,
{
    if n % i == 0 {
        lemma_divisor_bounds(i, n);
        let c = n / i;
        assert(c < n && c >= r) by (nonlinear_arith)
            requires
                c * i == n,
                i >= 2,
                c >= 1,
                i <= r,
                r * r <= n,
        ;
        if c == r {
            assert(i == r) by (nonlinear_arith)
                requires
                    c * i == n,
                    c == r,
                    i <= r,
                    r * r <= n,
                    r >= 2,
            ;
        }
    }
    if hi > r + 1 {
        lemma_cofactor_step(n, r, i, hi - 1);
        let e = hi - 1;
        assert(e * ((i + 1) - 1) == e * i);
        assert(e * i >= e * (i - 1)) by (nonlinear_arith)
            requires
                e >= 0,
        ;
        if n % e == 0 && e * i >= n && e * (i - 1) < n {
            lemma_divisor_bounds(e, n);
            let c = n / e;
            assert(c == i) by (nonlinear_arith)
                requires
                    c * e == n,
                    e * i >= n,
                    e * (i - 1) < n,
                    e >= 1,
            ;
            lemma_multiple_divides(i, e);
            assert(i * e == n) by (nonlinear_arith)
                requires
                    c * e == n,
                    c == i,
            ;
        }
        if n % i == 0 && n / i == e {
            lemma_divisor_bounds(i, n);
            assert(e * i == n && e * (i - 1) < n) by (nonlinear_arith)
                requires
                    (n / i) * i == n,
                    n / i == e,
                    e >= 1,
            ;
            lemma_multiple_divides(e, i);
        }
    }
}

/// The aliquot sum of `n`: the sum of the divisors of `n` other than `n`
/// itself.
///
/// The divisors are found in pairs, one up to the square root of `n` and
/// its cofactor. The sum must fit the integer type.
pub fn aliquot_sum(n: u64) -> (sum: u64)
    requires
        n != 0,
        aliquot_sum_of(n as int) <= u64::MAX,
    ensures
        sum == aliquot_sum_of(n as int),
{
    if n == 1 {
        assert(divisor_sum_between(1, 1, 1) == 0);
        return 0;
    }
    let root: u64 = isqrt(n);
    let ghost r = root as int;
    let ghost total = aliquot_sum_of(n as int);
    assert(1 <= r && r + 1 <= n) by (nonlinear_arith)
        requires
            r * r <= n,
            n < (r + 1) * (r + 1),
            n >= 2,
            r >= 0,
    ;
    proof {
        lemma_cofactor_sum(n as int, r, 2, n as int);
        lemma_divisor_sum_between(n as int, 1, 2, n as int);
        lemma_divisor_sum_between(n as int, 1, 2, 2);
        assert(divisor_sum_between(n as int, 1, 2) == 1) by {
            assert(divisor_sum_between(n as int, 1, 1) == 0);
            assert(n as int % 1 == 0);
        }
        lemma_divisor_sum_between(n as int, 2, 2, 2);
    }
    let mut sum: u64 = 1;
    let mut i: u64 = 2;
    while i <= root
        invariant
            n >= 2,
            r == root,
            is_sqrt_floor(r, n as int),
            r + 1 <= n,
            2 <= i <= root + 1,
            total == aliquot_sum_of(n as int),
            total <= u64::MAX,
            divisor_sum_between(n as int, 1, 2) == 1,
            sum == 1 + divisor_sum_between(n as int, 2, i as int) + cofactor_sum(
                n as int,
                r,
                i as int,
                n as int,
            ),
        decreases root + 1 - i,
    {
        proof {
            lemma_cofactor_step(n as int, r, i as int, n as int);
            lemma_cofactor_sum(n as int, r, i + 1, n as int);
            lemma_divisor_sum_between(n as int, 1, 2, n as int);
            lemma_divisor_sum_between(n as int, 2, i + 1, r + 1);
            lemma_divisor_sum_between(n as int, 2, r + 1, n as int);
        }
        if n % i == 0 {
            sum = sum + i;
            if n / i != i {
                sum = sum + n / i;
            }
        }
        i = i + 1;
    }
    proof {
        lemma_cofactor_sum(n as int, r, r + 1, n as int);
        lemma_divisor_sum_between(n as int, 1, 2, n as int);
        lemma_divisor_sum_between(n as int, 2, r + 1, n as int);
    }
    sum
}

/// The aliquot sum of a number from two on is at least one, and that of one
/// is zero.
pub proof fn lemma_aliquot_sum_positive(n: int)
    requires
        n >= 1,
    ensures
        n >= 2 ==> aliquot_sum_of(n) >= 1,
        aliquot_sum_of(n) >= 0,
        n == 1 ==> aliquot_sum_of(n) == 0,
{
    if n >= 2 {
        lemma_divisor_sum_between(n, 1, 2, n);
        assert(divisor_sum_between(n, 1, 2) == 1) by {
            assert(divisor_sum_between(n, 1, 1) == 0);
            assert(n % 1 == 0);
        }
    } else {
        assert(divisor_sum_between(1, 1, 1) == 0);
    }
}

/// A sum of divisors below `hi` is less than the square of `hi`.
proof fn lemma_divisor_sum_bound(n: int, hi: int)
    requires
        1 <= hi,
    ensures
        divisor_sum_between(n, 1, hi) <= hi * hi - hi,
    decreases hi,
{
    if hi > 1 {
        lemma_divisor_sum_bound(n, hi - 1);
        assert((hi - 1) * (hi - 1) - (hi - 1) + (hi - 1) <= hi * hi - hi) by (nonlinear_arith)
            requires
                hi >= 1,
        ;
    } else {
        assert(divisor_sum_between(n, 1, 1) == 0);
        assert(hi * hi - hi == 0) by (nonlinear_arith)
            requires
                hi == 1,
        ;
    }
}

/// The aliquot sum and the divisor sum of a number that fits 32 bits fit
/// the integer type.
pub proof fn lemma_divisor_sum_fits(n: int)
    requires
        1 <= n <= 0xffff_ffff,
    ensures
        aliquot_sum_of(n) <= divisor_sum_of(n) <= u64::MAX,
{
    lemma_divisor_sum_bound(n, n);
    assert(n * n - n + n <= 0xffff_ffffint * 0xffff_ffffint) by (nonlinear_arith)
        requires
            1 <= n <= 0xffff_ffff,
    ;
}

/// The divisor sum of `n`: the sum of all divisors of `n`, which must fit
/// the integer type.
pub fn divisor_sum(n: u64) -> (sum: u64)
    requires
        n != 0,
        divisor_sum_of(n as int) <= u64::MAX,
    ensures
        sum == divisor_sum_of(n as int),
{
    proof {
        lemma_aliquot_sum_positive(n as int);
    }
    aliquot_sum(n) + n
}

/// Whether `n` is abundant: less than its aliquot sum.
pub fn abundant_number(n: u64) -> (yes: bool)
    requires
        n != 0,
        aliquot_sum_of(n as int) <= u64::MAX,
    ensures
        yes == (aliquot_sum_of(n as int) > n),
{
    aliquot_sum(n) > n
}

/// Whether `n` is perfect: equal to its aliquot sum.
pub fn perfect_number(n: u64) -> (yes: bool)
    requires
        n != 0,
        aliquot_sum_of(n as int) <= u64::MAX,
    ensures
        yes == (aliquot_sum_of(n as int) == n),
{
    aliquot_sum(n) == n
}

/// Whether `n` is deficient: greater than its aliquot sum.
pub fn deficient_number(n: u64) -> (yes: bool)
    requires
        n != 0,
        aliquot_sum_of(n as int) <= u64::MAX,
    ensures
        yes == (aliquot_sum_of(n as int) < n),
{
    aliquot_sum(n) < n
}

/// Whether `n` is superperfect: the divisor sum of its divisor sum is twice
/// `n`. Both divisor sums must fit the integer type.
pub fn superperfect_number(n: u64) -> (yes: bool)
    requires
        n != 0,
        divisor_sum_of(n as int) <= u64::MAX,
        divisor_sum_of(divisor_sum_of(n as int)) <= u64::MAX,
    ensures
        yes == (divisor_sum_of(divisor_sum_of(n as int)) == 2 * n),
{
    proof {
        lemma_aliquot_sum_positive(n as int);
    }
    let twice: u64 = divisor_sum(divisor_sum(n));
    twice as u128 == 2 * (n as u128)
}

/// Whether `n` is quasiperfect: its aliquot sum is `n + 1`.
pub fn quasiperfect_number(n: u64) -> (yes: bool)
    requires
        n != 0,
        aliquot_sum_of(n as int) <= u64::MAX,
    ensures
        yes == (aliquot_sum_of(n as int) == n + 1),
{
    let sum: u64 = aliquot_sum(n);
    sum > 0 && sum - 1 == n
}

/// Whether `n` belongs to an amicable pair: the aliquot sum of its aliquot
/// sum is `n`. Both aliquot sums must fit the integer type.
pub fn amicable_number(n: u64) -> (yes: bool)
    requires
        n >= 2,
        aliquot_sum_of(n as int) <= u64::MAX,
        aliquot_sum_of(aliquot_sum_of(n as int)) <= u64::MAX,
    ensures
        yes == (aliquot_sum_of(aliquot_sum_of(n as int)) == n),
{
    proof {
        lemma_aliquot_sum_positive(n as int);
    }
    aliquot_sum(aliquot_sum(n)) == n
}

/// Whether the aliquot sequence that sets out from `x` comes to `n` before
/// it comes to one, within `fuel` steps.
pub open spec fn aliquot_sequence_meets(n: int, x: int, fuel: nat) -> bool
    decreases fuel,
{
    if x == 1 {
        false
    } else if x == n {
        true
    } else if fuel == 0 {
        false
    } else {
        aliquot_sequence_meets(n, aliquot_sum_of(x), (fuel - 1) as nat)
    }
}

/// Every term of the aliquot sequence from `x` fits the integer type, up to
/// the term at which the search for `n` ends.
pub open spec fn aliquot_sequence_fits(n: int, x: int, fuel: nat) -> bool
    decreases fuel,
{
    if x == 1 || x == n || fuel == 0 {
        true
    } else {
        aliquot_sum_of(x) <= u64::MAX && aliquot_sequence_fits(
            n,
            aliquot_sum_of(x),
            (fuel - 1) as nat,
        )
    }
}

/// Whether `n` is sociable: the aliquot sequence of `n` comes back to `n`.
///
/// The search follows the sequence until it meets one or `n`, for at most
/// `u64::MAX` steps. The terms of the sequence must fit the integer type.
pub fn sociable_number(n: u64) -> (yes: bool)
    requires
        n >= 2,
        aliquot_sum_of(n as int) <= u64::MAX,
        aliquot_sequence_fits(n as int, aliquot_sum_of(n as int), u64::MAX as nat),
    ensures
        yes == aliquot_sequence_meets(n as int, aliquot_sum_of(n as int), u64::MAX as nat),
{
    proof {
        lemma_aliquot_sum_positive(n as int);
    }
    let mut x: u64 = aliquot_sum(n);
    let mut fuel: u64 = u64::MAX;
    loop
        invariant
            n >= 2,
            x >= 1,
            aliquot_sequence_fits(n as int, x as int, fuel as nat),
            aliquot_sequence_meets(n as int, x as int, fuel as nat) == aliquot_sequence_meets(
                n as int,
                aliquot_sum_of(n as int),
                u64::MAX as nat,
            ),
        decreases fuel,
    {
        if x == 1 {
            return false;
        }
        if x == n {
            return true;
        }
        if fuel == 0 {
            return false;
        }
        proof {
            lemma_aliquot_sum_positive(x as int);
        }
        x = aliquot_sum(x);
        fuel = fuel - 1;
    }
}

} // verus!
