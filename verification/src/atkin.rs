//! The sieve of Atkin: the candidates up to a bound are marked by counting,
//! modulo two, their representations by three quadratic forms, and the
//! marked numbers that a square divides are then struck out.

use vstd::prelude::*;
use crate::arith::{
    is_prime_number, isqrt, isqrt_of, lemma_divides_quotient, lemma_divides_transitive,
    lemma_divisor_bounds, lemma_isqrt_exists, lemma_multiple_divides, lemma_smallest_prime_factor,
    smallest_prime_factor,
};
use crate::bitset::{Bitset, lemma_set_indices, set_indices};
use crate::prime::clear_multiples;
use crate::prime_list::{
    lemma_primes_below_prefix, lemma_primes_in_split, lemma_primes_in_step, primes_below, primes_in,
    primes_upto,
};
use crate::small_primes::lemma_primes_below_25;

verus! {

/// The residues modulo 60 for which the form `4x² + y²` toggles a number.
pub open spec fn residue_first(r: int) -> bool {
    r == 1 || r == 13 || r == 17 || r == 29 || r == 37 || r == 41 || r == 49 || r == 53
}

/// The residues modulo 60 for which the form `3x² + y²` toggles a number.
pub open spec fn residue_second(r: int) -> bool {
    r == 7 || r == 19 || r == 31 || r == 43
}

/// The residues modulo 60 for which the form `3x² - y²`, with `x > y`,
/// toggles a number.
pub open spec fn residue_third(r: int) -> bool {
    r == 11 || r == 23 || r == 47 || r == 59
}

/// How often the pair `(x, y)` toggles the number `n`: once for each of the
/// three forms that takes the value `n` at the pair while `n` lies in one
/// of the form's residue classes.
pub open spec fn pair_toggles(n: int, x: int, y: int) -> int {
    (if 4 * x * x + y * y == n && residue_first(n % 60) {
        1int
    } else {
        0int
    }) + (if 3 * x * x + y * y == n && residue_second(n % 60) {
        1int
    } else {
        0int
    }) + (if x > y && 3 * x * x - y * y == n && residue_third(n % 60) {
        1int
    } else {
        0int
    })
}

/// How often the pairs `(x, 1), .., (x, upto)` toggle `n`.
pub open spec fn row_toggles(n: int, x: int, upto: int) -> int
    decreases upto,
{
    if upto <= 0 {
        0
    } else {
        row_toggles(n, x, upto - 1) + pair_toggles(n, x, upto)
    }
}

/// How often the pairs `(x, y)` with `1 <= x <= upto` and `1 <= y <= limit`
/// toggle `n`.
pub open spec fn grid_toggles(n: int, upto: int, limit: int) -> int
    decreases upto,
{
    if upto <= 0 {
        0
    } else {
        grid_toggles(n, upto - 1, limit) + row_toggles(n, upto, limit)
    }
}

/// An odd number of the pairs up to `limit` toggles `n`.
pub open spec fn toggled(n: int, limit: int) -> bool {
    grid_toggles(n, limit, limit) % 2 == 1
}

/// Whether `n` is still marked once the squares of the marked numbers from
/// seven up to `upto` have struck out their multiples.
pub open spec fn survives(n: int, limit: int, upto: int) -> bool
    decreases upto,
{
    if upto < 7 {
        toggled(n, limit)
    } else {
        survives(n, limit, upto - 1) && !(survives(upto, limit, upto - 1) && n >= upto * upto && n
            % (upto * upto) == 0)
    }
}

/// Whether the sieve of Atkin over `[0, max]` leaves `n` marked.
pub open spec fn atkin_marked(n: int, max: int) -> bool {
    survives(n, isqrt_of(max) + 1, isqrt_of(max) + 1)
}

/// The list that the sieve of Atkin over `[0, max]` yields: the primes two,
/// three and five as far as they are in range, followed by the marked
/// numbers in ascending order.
pub open spec fn atkin_list(max: int) -> Seq<u64> {
    if max < 2 {
        Seq::empty()
    } else if max == 2 {
        seq![2u64]
    } else if max < 5 {
        seq![2u64, 3u64]
    } else if max == 5 {
        seq![2u64, 3u64, 5u64]
    } else {
        seq![2u64, 3u64, 5u64] + set_indices(
            Seq::new((max + 1) as nat, |n: int| atkin_marked(n, max)),
            max + 1,
        )
    }
}

/// No pair of positive numbers toggles a number below seven.
proof fn lemma_no_toggles_below_seven(n: int, x: int, limit: int)
    requires
        0 <= n < 7,
    ensures
        x >= 1 ==> row_toggles(n, x, limit) == 0,
        grid_toggles(n, x, limit) == 0,
    decreases if x < 0 { 0 } else { x }, if limit < 0 { 0 } else { limit },
{
    if x >= 1 {
        if limit >= 1 {
            lemma_no_toggles_below_seven(n, x, limit - 1);
            assert(4 * x * x + limit * limit >= 5) by (nonlinear_arith)
                requires
                    x >= 1,
                    limit >= 1,
            ;
            assert(pair_toggles(n, x, limit) == 0);
        }
        lemma_no_toggles_below_seven(n, x - 1, limit);
    }
}

/// The sieve leaves no number below seven marked.
proof fn lemma_unmarked_below_seven(n: int, limit: int, upto: int)
    requires
        0 <= n < 7,
    ensures
        !survives(n, limit, upto),
    decreases upto,
{
    if upto < 7 {
        lemma_no_toggles_below_seven(n, limit, limit);
    } else {
        lemma_unmarked_below_seven(n, limit, upto - 1);
    }
}

/// The list of the sieve of Atkin is strictly ascending, and its entries lie
/// between two and the bound.
pub proof fn lemma_atkin_list_ordered(max: int)
    requires
        0 <= max <= u64::MAX,
    ensures
        forall|i: int| 0 <= i < atkin_list(max).len() ==> 2 <= #[trigger] atkin_list(max)[i] <= max,
        forall|i: int, j: int|
            0 <= i < j < atkin_list(max).len() ==> atkin_list(max)[i] < atkin_list(max)[j],
{
    if max >= 6 {
        let bits = Seq::new((max + 1) as nat, |n: int| atkin_marked(n, max));
        let tail = set_indices(bits, max + 1);
        lemma_set_indices(bits, max + 1);
        assert forall|i: int| 0 <= i < tail.len() implies 7 <= #[trigger] tail[i] <= max by {
            let n = tail[i] as int;
            assert(bits[n]);
            if n < 7 {
                lemma_unmarked_below_seven(n, isqrt_of(max) + 1, isqrt_of(max) + 1);
            }
        }
        let head = seq![2u64, 3u64, 5u64];
        assert forall|i: int| 0 <= i < atkin_list(max).len() implies 2 <= #[trigger] atkin_list(
            max,
        )[i] <= max by {
            if i >= 3 {
                assert(atkin_list(max)[i] == tail[i - 3]);
            }
        }
        assert forall|i: int, j: int| 0 <= i < j < atkin_list(max).len() implies atkin_list(max)[i]
            < atkin_list(max)[j] by {
            if i >= 3 {
                assert(atkin_list(max)[i] == tail[i - 3]);
            }
            if j >= 3 {
                assert(atkin_list(max)[j] == tail[j - 3]);
            }
        }
    }
}

/// `d` is at least two, and its square divides `n`.
pub open spec fn square_divides(d: int, n: int) -> bool {
    d >= 2 && n % (d * d) == 0
}

/// No square other than one divides `n`.
pub open spec fn squarefree(n: int) -> bool {
    forall|d: int| !#[trigger] square_divides(d, n)
}

/// The square of a prime between seven and `upto` divides `n`.
pub open spec fn struck_by_square(n: int, upto: int) -> bool {
    exists|q: int| 7 <= q <= upto && is_prime_number(q) && #[trigger] square_divides(q, n)
}

/// The criterion on which the sieve of Atkin rests, for the numbers up to
/// `max`: a squarefree number from seven on is prime if and only if an odd
/// number of pairs toggles it. This is a theorem of Atkin and Bernstein
/// about the representations of a number by the three quadratic forms; it
/// is not proved here, and stands as the hypothesis of
/// `lemma_atkin_list_exact`.
pub open spec fn parity_criterion(max: int) -> bool {
    forall|n: int|
        7 <= n <= max && squarefree(n) ==> (#[trigger] toggled(n, isqrt_of(max) + 1)
            <==> is_prime_number(n))
}

/// No pair toggles a number outside the residue classes of the three forms.
proof fn lemma_no_toggles_outside_residues(n: int, x: int, limit: int)
    requires
        !residue_first(n % 60),
        !residue_second(n % 60),
        !residue_third(n % 60),
    ensures
        x >= 1 ==> row_toggles(n, x, limit) == 0,
        grid_toggles(n, x, limit) == 0,
    decreases if x < 0 { 0 } else { x }, if limit < 0 { 0 } else { limit },
{
    if x >= 1 {
        if limit >= 1 {
            lemma_no_toggles_outside_residues(n, x, limit - 1);
        }
        lemma_no_toggles_outside_residues(n, x - 1, limit);
    }
}

/// A toggled number is at least seven, and none of two, three and five
/// divides it.
proof fn lemma_toggled(n: int, limit: int)
    requires
        n >= 0,
        toggled(n, limit),
    ensures
        n >= 7,
        n % 2 != 0,
        n % 3 != 0,
        n % 5 != 0,
{
    if n < 7 {
        lemma_no_toggles_below_seven(n, limit, limit);
    }
    if !residue_first(n % 60) && !residue_second(n % 60) && !residue_third(n % 60) {
        lemma_no_toggles_outside_residues(n, limit, limit);
    }
}

/// If a square divides `n`, then so does the square of a prime.
proof fn lemma_prime_square_divides(d: int, n: int) -> (p: int)
    requires
        n >= 1,
        square_divides(d, n),
    ensures
        is_prime_number(p),
        square_divides(p, n),
        n % p == 0,
        p * p <= n,
{
    lemma_smallest_prime_factor(d);
    let p = smallest_prime_factor(d);
    lemma_divides_quotient(p, d);
    let e = d / p;
    assert(d * d == (p * p) * (e * e) && p * p >= 2 && d * d >= 2) by (nonlinear_arith)
        requires
            d == p * e,
            p >= 2,
            d >= 2,
    ;
    lemma_multiple_divides(p * p, e * e);
    lemma_divides_transitive(p * p, d * d, n);
    lemma_multiple_divides(p, p);
    lemma_divides_transitive(p, p * p, n);
    lemma_divisor_bounds(p * p, n);
    p
}

/// A prime is squarefree.
proof fn lemma_prime_is_squarefree(n: int)
    requires
        is_prime_number(n),
    ensures
        squarefree(n),
{
    assert forall|d: int| !#[trigger] square_divides(d, n) by {
        if square_divides(d, n) {
            assert(d * d >= 2 * d && d * d > d) by (nonlinear_arith)
                requires
                    d >= 2,
            ;
            lemma_divisor_bounds(d * d, n);
            lemma_multiple_divides(d, d);
            lemma_divides_transitive(d, d * d, n);
            assert(n % d == 0);
        }
    }
}

/// Under the criterion, a number from seven on that is toggled and that no
/// square of a prime from seven on divides is prime, and the other way
/// round, provided `upto` bounds every prime whose square divides the
/// number.
proof fn lemma_unstruck_is_prime(n: int, max: int, upto: int)
    requires
        parity_criterion(max),
        0 <= n <= max,
        forall|p: int| is_prime_number(p) && #[trigger] square_divides(p, n) ==> p <= upto,
    ensures
        (toggled(n, isqrt_of(max) + 1) && !struck_by_square(n, upto)) <==> (n >= 7
            && is_prime_number(n)),
{
    let limit = isqrt_of(max) + 1;
    if toggled(n, limit) && !struck_by_square(n, upto) {
        lemma_toggled(n, limit);
        if !squarefree(n) {
            let d = choose|d: int| square_divides(d, n);
            let p = lemma_prime_square_divides(d, n);
            assert(p != 2 && p != 3 && p != 5);
            assert(p >= 7) by {
                if p == 4 {
                    assert(p % 2 == 0);
                }
                if p == 6 {
                    assert(p % 2 == 0);
                }
            }
            assert(7 <= p <= upto && is_prime_number(p) && square_divides(p, n));
        }
        assert(toggled(n, limit) <==> is_prime_number(n));
    }
    if n >= 7 && is_prime_number(n) {
        lemma_prime_is_squarefree(n);
        assert(toggled(n, limit) <==> is_prime_number(n));
        if struck_by_square(n, upto) {
            let q = choose|q: int|
                7 <= q <= upto && is_prime_number(q) && #[trigger] square_divides(q, n);
            assert(!square_divides(q, n));
        }
    }
}

/// Under the criterion, what is left after the squares of the marked
/// numbers up to `upto` have struck out their multiples are the toggled
/// numbers that no square of a prime between seven and `upto` divides.
proof fn lemma_survives(n: int, max: int, upto: int)
    requires
        parity_criterion(max),
        0 <= n <= max,
        upto <= 6 || upto <= isqrt_of(max) + 1 <= max,
    ensures
        survives(n, isqrt_of(max) + 1, upto) <==> (toggled(n, isqrt_of(max) + 1)
            && !struck_by_square(n, upto)),
    decreases upto,
{
    let limit = isqrt_of(max) + 1;
    if upto < 7 {
        if struck_by_square(n, upto) {
            let q = choose|q: int|
                7 <= q <= upto && is_prime_number(q) && #[trigger] square_divides(q, n);
        }
    } else {
        lemma_survives(n, max, upto - 1);
        lemma_survives(upto, max, upto - 1);
        assert forall|p: int| is_prime_number(p) && #[trigger] square_divides(p, upto) implies p
            <= upto - 1 by {
            assert(p * p > p) by (nonlinear_arith)
                requires
                    p >= 2,
            ;
            lemma_divisor_bounds(p * p, upto);
        }
        lemma_unstruck_is_prime(upto, max, upto - 1);
        let marked = survives(upto, limit, upto - 1);
        assert(marked <==> is_prime_number(upto));
        if marked && n >= 1 && n % (upto * upto) == 0 {
            assert(upto * upto >= 1) by (nonlinear_arith)
                requires
                    upto >= 7,
            ;
            lemma_divisor_bounds(upto * upto, n);
            assert(square_divides(upto, n));
            assert(struck_by_square(n, upto));
        }
        if struck_by_square(n, upto - 1) {
            let q = choose|q: int|
                7 <= q <= upto - 1 && is_prime_number(q) && #[trigger] square_divides(q, n);
            assert(7 <= q <= upto && is_prime_number(q) && square_divides(q, n));
        }
        if struck_by_square(n, upto) && !struck_by_square(n, upto - 1) {
            let q = choose|q: int|
                7 <= q <= upto && is_prime_number(q) && #[trigger] square_divides(q, n);
            if q != upto {
                assert(7 <= q <= upto - 1 && is_prime_number(q) && square_divides(q, n));
            }
            assert(q == upto);
        }
        if n == 0 {
            lemma_unmarked_below_seven(0, limit, upto);
            lemma_no_toggles_below_seven(0, limit, limit);
        }
    }
}

/// Under the criterion, the sieve of Atkin leaves exactly the primes from
/// seven on marked.
proof fn lemma_marked_iff_prime(n: int, max: int)
    requires
        parity_criterion(max),
        6 <= max <= u64::MAX,
        0 <= n <= max,
    ensures
        atkin_marked(n, max) <==> (n >= 7 && is_prime_number(n)),
{
    let root = isqrt_of(max);
    let limit = root + 1;
    lemma_isqrt_exists(max as u64);
    assert(limit <= max) by (nonlinear_arith)
        requires
            limit == root + 1,
            root * root <= max,
            max < (root + 1) * (root + 1),
            max >= 6,
            root >= 0,
    ;
    lemma_survives(n, max, limit);
    if n == 0 {
        lemma_no_toggles_below_seven(0, limit, limit);
        lemma_unmarked_below_seven(0, limit, limit);
    } else {
        assert forall|p: int| is_prime_number(p) && #[trigger] square_divides(p, n) implies p
            <= limit by {
            assert(p * p >= 1) by (nonlinear_arith)
                requires
                    p >= 2,
            ;
            lemma_divisor_bounds(p * p, n);
            assert(p <= root) by (nonlinear_arith)
                requires
                    p * p <= max,
                    max < (root + 1) * (root + 1),
                    p >= 0,
                    root >= 0,
            ;
        }
        lemma_unstruck_is_prime(n, max, limit);
    }
}

/// The indices of the bits that mark the primes from seven on are the
/// primes from seven on.
proof fn lemma_set_indices_from_seven(bits: Seq<bool>, n: int)
    requires
        0 <= n <= bits.len(),
        forall|i: int| 0 <= i < n ==> (#[trigger] bits[i] <==> (i >= 7 && is_prime_number(i))),
    ensures
        n <= 7 ==> set_indices(bits, n) == Seq::<u64>::empty(),
        n >= 7 ==> set_indices(bits, n) == primes_in(7, n),
    decreases n,
{
    if n > 0 {
        lemma_set_indices_from_seven(bits, n - 1);
        if n > 7 {
            lemma_primes_in_step(7, n - 1);
        } else if n == 7 {
            lemma_primes_in_step(7, 7);
        }
    }
}

/// Under the criterion of Atkin and Bernstein, the list of the sieve of
/// Atkin is the list of the primes up to the bound.
pub proof fn lemma_atkin_list_exact(max: int)
    requires
        0 <= max <= u64::MAX,
        parity_criterion(max),
    ensures
        atkin_list(max) == primes_upto(max),
{
    lemma_primes_below_25();
    lemma_primes_below_prefix(7, 25);
    let small = primes_below(25);
    if max < 6 {
        lemma_primes_below_prefix(max + 1, 25);
        assert(atkin_list(max) =~= small.subrange(0, primes_below(max + 1).len() as int));
    } else {
        let bits = Seq::new((max + 1) as nat, |n: int| atkin_marked(n, max));
        assert forall|i: int| 0 <= i < max + 1 implies (#[trigger] bits[i] <==> (i >= 7
            && is_prime_number(i))) by {
            lemma_marked_iff_prime(i, max);
        }
        lemma_set_indices_from_seven(bits, max + 1);
        lemma_primes_in_split(7, max + 1);
        assert(primes_below(7) =~= seq![2u64, 3u64, 5u64]) by {
            assert(primes_below(7) == small.subrange(0, 3));
        }
        if max == 6 {
            assert(primes_in(7, 7) =~= Seq::<u64>::empty()) by {
                lemma_primes_in_step(7, 7);
            }
        }
    }
}

/// Whether `r` is one of the residues of the first form.
fn in_first(r: u128) -> (b: bool)
    ensures
        b == residue_first(r as int),
{
    r == 1 || r == 13 || r == 17 || r == 29 || r == 37 || r == 41 || r == 49 || r == 53
}

/// Whether `r` is one of the residues of the second form.
fn in_second(r: u128) -> (b: bool)
    ensures
        b == residue_second(r as int),
{
    r == 7 || r == 19 || r == 31 || r == 43
}

/// Whether `r` is one of the residues of the third form.
fn in_third(r: u128) -> (b: bool)
    ensures
        b == residue_third(r as int),
{
    r == 11 || r == 23 || r == 47 || r == 59
}

/// Toggles the numbers up to `max` that the three forms take at `(x, y)`.
fn toggle_pair(sieve: &mut Bitset, max: u64, x: u64, y: u64)
    requires
        old(sieve).wf(),
        old(sieve).spec_size() == max,
        old(sieve)@.len() == max + 1,
        max < usize::MAX,
        1 <= x <= 0x1_0000_0000,
        1 <= y <= 0x1_0000_0000,
    ensures
        final(sieve).wf(),
        final(sieve).spec_size() == max,
        final(sieve)@.len() == max + 1,
        forall|n: int|
            0 <= n <= max ==> (#[trigger] final(sieve)@[n] == (old(sieve)@[n] != (pair_toggles(
                n,
                x as int,
                y as int,
            ) % 2 == 1))),
{
    let xw: u128 = x as u128;
    let yw: u128 = y as u128;
    assert(xw * xw <= 0x1_0000_0000int * 0x1_0000_0000int && yw * yw <= 0x1_0000_0000int
        * 0x1_0000_0000int) by (nonlinear_arith)
        requires
            0 <= xw <= 0x1_0000_0000,
            0 <= yw <= 0x1_0000_0000,
    ;
    let xx: u128 = xw * xw;
    let yy: u128 = yw * yw;
    assert(4 * x * x == 4 * xx && 3 * x * x == 3 * xx && y * y == yy) by (nonlinear_arith)
        requires
            xx == x * x,
            yy == y * y,
    ;
    let ghost s0 = sieve@;
    let a: u128 = 4 * xx + yy;
    if a <= max as u128 && in_first(a % 60) {
        sieve.flip(a as usize);
    }
    let ghost s1 = sieve@;
    let b: u128 = 3 * xx + yy;
    if b <= max as u128 && in_second(b % 60) {
        sieve.flip(b as usize);
    }
    let ghost s2 = sieve@;
    if x > y {
        assert(yy < xx) by (nonlinear_arith)
            requires
                yy == y * y,
                xx == x * x,
                y < x,
        ;
        let c: u128 = 3 * xx - yy;
        if c <= max as u128 && in_third(c % 60) {
            sieve.flip(c as usize);
        }
    }
    proof {
        assert forall|n: int| 0 <= n <= max implies (#[trigger] sieve@[n] == (s0[n] != (
        pair_toggles(n, x as int, y as int) % 2 == 1))) by {
            let t1 = if a == n && residue_first(n % 60) {
                1int
            } else {
                0int
            };
            let t2 = if b == n && residue_second(n % 60) {
                1int
            } else {
                0int
            };
            let t3 = if x > y && 3 * xx - yy == n && residue_third(n % 60) {
                1int
            } else {
                0int
            };
            assert(pair_toggles(n, x as int, y as int) == t1 + t2 + t3);
            assert(s1[n] == (s0[n] != (t1 == 1)));
            assert(s2[n] == (s1[n] != (t2 == 1)));
            assert(sieve@[n] == (s2[n] != (t3 == 1)));
        }
    }
}

/// The primes in `[1, max]` by the sieve of Atkin.
///
/// The result is stated as `atkin_list(max)`: two, three and five, and the
/// numbers that an odd number of representations by the three quadratic
/// forms marks and that no square of a marked number divides. That these
/// are the primes is proved from the criterion of Atkin and Bernstein,
/// `parity_criterion`, which itself is not proved.
pub fn atkin(max: u64) -> (primes: Vec<u64>)
    requires
        max < usize::MAX,
    ensures
        primes@ == atkin_list(max as int),
        forall|i: int| 0 <= i < primes@.len() ==> 2 <= #[trigger] primes@[i] <= max,
        forall|i: int, j: int| 0 <= i < j < primes@.len() ==> primes@[i] < primes@[j],
        parity_criterion(max as int) ==> primes@ == primes_upto(max as int),
{
    proof {
        lemma_atkin_list_ordered(max as int);
        if parity_criterion(max as int) {
            lemma_atkin_list_exact(max as int);
        }
    }
    let mut primes: Vec<u64> = Vec::new();
    if max >= 2 {
        primes.push(2);
    }
    if max >= 3 {
        primes.push(3);
    }
    if max >= 5 {
        primes.push(5);
    }
    if max < 6 {
        assert(primes@ =~= atkin_list(max as int));
        return primes;
    }
    assert(primes@ =~= seq![2u64, 3u64, 5u64]);
    let mut sieve = Bitset::new(max as usize);
    let root: u64 = isqrt(max);
    let limit: u64 = root + 1;
    assert(limit <= max) by (nonlinear_arith)
        requires
            limit == root + 1,
            root * root <= max,
            max < (root + 1) * (root + 1),
            max >= 6,
            root >= 0,
    ;
    let mut x: u64 = 1;
    while x <= limit
        invariant
            1 <= x <= limit + 1,
            limit <= 0x1_0000_0000,
            max < usize::MAX,
            sieve.wf(),
            sieve.spec_size() == max,
            sieve@.len() == max + 1,
            forall|n: int|
                0 <= n <= max ==> (#[trigger] sieve@[n] == (grid_toggles(
                    n,
                    x - 1,
                    limit as int,
                ) % 2 == 1)),
        decreases limit + 1 - x,
    {
        let mut y: u64 = 1;
        while y <= limit
            invariant
                1 <= x <= limit,
                1 <= y <= limit + 1,
                limit <= 0x1_0000_0000,
                max < usize::MAX,
                sieve.wf(),
                sieve.spec_size() == max,
                sieve@.len() == max + 1,
                forall|n: int|
                    0 <= n <= max ==> (#[trigger] sieve@[n] == ((grid_toggles(
                        n,
                        x - 1,
                        limit as int,
                    ) + row_toggles(n, x as int, y - 1)) % 2 == 1)),
            decreases limit + 1 - y,
        {
            toggle_pair(&mut sieve, max, x, y);
            y = y + 1;
        }
        x = x + 1;
    }
    let mut i: u64 = 7;
    while i <= limit
        invariant
            7 <= i,
            i <= limit + 1 || (limit < 7 && i == 7),
            limit <= 0x1_0000_0000,
            limit <= max,
            max < usize::MAX,
            sieve.wf(),
            sieve.spec_size() == max,
            sieve@.len() == max + 1,
            forall|n: int|
                0 <= n <= max ==> (#[trigger] sieve@[n] == survives(n, limit as int, i - 1)),
        decreases limit + 1 - i,
    {
        if sieve.read(i as usize) {
            assert(i * i <= 0x1_0000_0000int * 0x1_0000_0000int) by (nonlinear_arith)
                requires
                    0 <= i <= 0x1_0000_0000,
            ;
            let square: u128 = (i as u128) * (i as u128);
            assert(square == i * i && square > 0) by (nonlinear_arith)
                requires
                    square == (i as u128) * (i as u128),
                    i >= 7,
            ;
            if square <= max as u128 {
                proof {
                    lemma_multiple_divides(square as int, 1);
                }
                clear_multiples(&mut sieve, max, square as u64, square as u64);
            }
        }
        i = i + 1;
    }
    proof {
        assert forall|n: int| 0 <= n <= max implies #[trigger] sieve@[n] == atkin_marked(
            n,
            max as int,
        ) by {
            lemma_survives_beyond(n, limit as int, i - 1);
        }
        assert(sieve@ =~= Seq::new((max + 1) as nat, |n: int| atkin_marked(n, max as int)));
    }
    let mut rest = sieve.collect_true_indices();
    primes.append(&mut rest);
    primes
}

/// Below seven the squares pass has nothing to do, so running it "up to"
/// any bound below seven gives the same marks.
proof fn lemma_survives_beyond(n: int, limit: int, upto: int)
    requires
        upto == limit || (limit < 7 && upto == 6),
    ensures
        survives(n, limit, upto) == survives(n, limit, limit),
{
}

} // verus!
