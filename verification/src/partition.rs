//! The partition function, by Euler's recurrence over the generalised
//! pentagonal numbers.

use vstd::prelude::*;
use crate::figurate::{figurate_fits, figurate_number, general_index, general_pentagonal_number};
use crate::partition_table::lemma_partition_fits;

verus! {

/// The greatest argument for which `part` and `part_wc` compute the
/// partition function.
pub const MAX_PART: i64 = 406;

/// The `k`th generalised pentagonal number: `0, 1, 2, 5, 7, 12, 15, ..`.
pub open spec fn pentagonal(k: int) -> int {
    figurate_number(5, general_index(k))
}

/// The partition function by Euler's recurrence
/// `p(n) = p(n - 1) + p(n - 2) - p(n - 5) - p(n - 7) + ..`, the recurrence of
/// the number of ways to write `n` as a sum of positive integers without
/// regard to order: one for zero, and zero for a negative number.
pub open spec fn partition_number(n: int) -> int
    decreases n, 1nat, 0nat,
{
    if n < 0 {
        0
    } else if n == 0 {
        1
    } else {
        partition_terms(n, n)
    }
}

/// The first `k` terms of Euler's recurrence for `p(n)`.
pub open spec fn partition_terms(n: int, k: int) -> int
    decreases n, 0nat, (if k > 0 { k as nat } else { 0nat }),
{
    if k <= 0 || n <= 0 {
        0
    } else {
        proof {
            lemma_pentagonal(k);
        }
        let rest = n - pentagonal(k);
        let term = if rest < 0 {
            0
        } else {
            partition_number(rest)
        };
        if (k - 1) % 4 < 2 {
            partition_terms(n, k - 1) + term
        } else {
            partition_terms(n, k - 1) - term
        }
    }
}

/// The generalised pentagonal numbers in closed form; they are strictly
/// ascending, and the `k`th is at least `k`.
pub proof fn lemma_pentagonal(k: int)
    requires
        k >= 0,
    ensures
        k % 2 == 1 ==> general_index(k) == (k + 1) / 2 && 2 * pentagonal(k) == ((k + 1) / 2) * (3
            * ((k + 1) / 2) - 1),
        k % 2 == 0 ==> general_index(k) == -(k / 2) && 2 * pentagonal(k) == (k / 2) * (3 * (k / 2)
            + 1),
        pentagonal(k) >= k,
        pentagonal(k + 1) > pentagonal(k),
        2 * pentagonal(k) <= 3 * (k + 1) * (k + 1),
{
    lemma_pentagonal_form(k);
    lemma_pentagonal_form(k + 1);
    let j = (k + 1) / 2;
    let h = k / 2;
    if k % 2 == 1 {
        assert(k == 2 * j - 1);
        assert(j * (3 * j - 1) >= 2 * (2 * j - 1) && (j * (3 * j + 1)) - (j * (3 * j - 1)) == 2
            * j && j * (3 * j - 1) <= 3 * (2 * j) * (2 * j)) by (nonlinear_arith)
            requires
                j >= 1,
        ;
        assert((k + 1) / 2 == j);
    } else {
        assert(k == 2 * h);
        assert(h * (3 * h + 1) >= 2 * (2 * h) && ((h + 1) * (3 * (h + 1) - 1)) - (h * (3 * h + 1))
            == 4 * h + 2 && h * (3 * h + 1) <= 3 * (2 * h + 1) * (2 * h + 1)) by (nonlinear_arith)
            requires
                h >= 0,
        ;
        assert((k + 2) / 2 == h + 1);
    }
}

/// The generalised pentagonal numbers in closed form.
proof fn lemma_pentagonal_form(k: int)
    requires
        k >= 0,
    ensures
        k % 2 == 1 ==> general_index(k) == (k + 1) / 2 && 2 * pentagonal(k) == ((k + 1) / 2) * (3
            * ((k + 1) / 2) - 1),
        k % 2 == 0 ==> general_index(k) == -(k / 2) && 2 * pentagonal(k) == (k / 2) * (3 * (k / 2)
            + 1),
{
    let m = general_index(k);
    assert(((5 - 2) * m * (m - 1)) % 2 == 0 && (5 - 2) * m * (m - 1) + 2 * m == m * (3 * m - 1))
        by (nonlinear_arith)
        requires
            true,
    {
        assert((m * (m - 1)) % 2 == 0) by {
            if m % 2 == 0 {
                crate::arith::lemma_divides_multiple(2, m, m - 1);
            } else {
                crate::arith::lemma_divides_multiple(2, m - 1, m);
            }
        }
        crate::arith::lemma_divides_multiple(2, m * (m - 1), 3);
        assert((5 - 2) * m * (m - 1) == 3 * (m * (m - 1)));
    }
    let t = (5 - 2) * m * (m - 1);
    assert(2 * (t / 2) == t);
    if k % 2 == 0 {
        let h = k / 2;
        assert(m == -h);
        assert((-h) * (3 * (-h) - 1) == h * (3 * h + 1)) by (nonlinear_arith);
    }
}

/// Terms of the recurrence whose pentagonal number exceeds `n` add nothing.
pub proof fn lemma_partition_terms_stable(n: int, k: int, more: int)
    requires
        n >= 1,
        0 <= k <= more,
        pentagonal(k + 1) > n,
    ensures
        partition_terms(n, more) == partition_terms(n, k),
    decreases more - k,
{
    if more > k {
        lemma_partition_terms_stable(n, k, more - 1);
        lemma_pentagonal_ascending(k + 1, more);
    }
}

/// The generalised pentagonal numbers ascend.
pub proof fn lemma_pentagonal_ascending(a: int, b: int)
    requires
        0 <= a <= b,
    ensures
        pentagonal(a) <= pentagonal(b),
    decreases b - a,
{
    if a < b {
        lemma_pentagonal_ascending(a, b - 1);
        lemma_pentagonal(b - 1);
    }
}

/// The cells of `cache` up to `MAX_PART` are empty, which is to say zero, or
/// hold the partition function of their index.
pub open spec fn partition_cache(cache: Seq<u64>) -> bool {
    forall|i: int|
        0 <= i < cache.len() && i <= MAX_PART ==> #[trigger] cache[i] == 0 || cache[i]
            == partition_number(i)
}

/// The partition function of `n`, with `cache` as its memo table: one for
/// zero, and zero for a negative `n`.
///
/// The table must reach up to `n`, and each of its cells must be zero or
/// hold the value for its index. A value that is not in the table is put
/// there; beyond that, a call changes only empty cells below `n`.
pub fn part_wc(n: i64, cache: &mut Vec<u64>) -> (count: u64)
    requires
        n <= MAX_PART,
        n < old(cache)@.len(),
        partition_cache(old(cache)@),
    ensures
        count == partition_number(n as int),
        final(cache)@.len() == old(cache)@.len(),
        partition_cache(final(cache)@),
        forall|i: int|
            0 <= i < old(cache)@.len() && old(cache)@[i] != 0 ==> #[trigger] final(cache)@[i]
                == old(cache)@[i],
        forall|i: int|
            0 <= i < old(cache)@.len() && i > n ==> #[trigger] final(cache)@[i] == old(cache)@[i],
        n >= 1 ==> final(cache)@[n as int] == count,
    decreases
            (if n > 0 {
                n as int
            } else {
                0
            }),
{
    proof {
        lemma_partition_fits(n as int);
    }
    if n == 0 {
        return 1;
    } else if n < 0 {
        return 0;
    } else if cache[n as usize] != 0 {
        return cache[n as usize];
    }
    let mut part: u64 = 0;
    let mut pent_n: i64 = 1;
    let mut pent: i64 = 0;
    proof {
        lemma_pentagonal(0);
    }
    while pent <= n
        invariant
            1 <= n <= MAX_PART,
            1 <= pent_n <= pent + 1,
            pent == pentagonal(pent_n - 1),
            pent <= n || pentagonal(pent_n - 2) <= n,
            pent > n ==> pent_n >= 2,
            cache@.len() == old(cache)@.len(),
            n < cache@.len(),
            partition_cache(cache@),
            forall|i: int|
                0 <= i < old(cache)@.len() && old(cache)@[i] != 0 ==> #[trigger] cache@[i]
                    == old(cache)@[i],
            forall|i: int|
                0 <= i < old(cache)@.len() && i >= n ==> #[trigger] cache@[i] == old(cache)@[i],
            part == partition_terms(n as int, pent_n - 1) % 0x1_0000_0000_0000_0000,
        decreases
                (if pent <= n {
                    n + 1 - pent
                } else {
                    0
                }),
    {
        proof {
            lemma_pentagonal(pent_n as int);
            lemma_pentagonal(pent_n - 1);
            lemma_pentagonal_fits(pent_n as int);
        }
        pent = general_pentagonal_number(pent_n);
        proof {
            lemma_partition_fits(n - pent);
        }
        let ghost before = cache@;
        let term: u64 = part_wc(n - pent, cache);
        proof {
            assert forall|i: int|
                0 <= i < old(cache)@.len() && old(cache)@[i] != 0 implies #[trigger] cache@[i]
                == old(cache)@[i] by {
                assert(before[i] == old(cache)@[i]);
            }
        }
        if (pent_n - 1) % 4 < 2 {
            part = part.wrapping_add(term);
        } else {
            part = part.wrapping_sub(term);
        }
        pent_n = pent_n + 1;
    }
    proof {
        lemma_partition_terms_stable(n as int, pent_n - 2, pent_n - 1);
        if pent_n - 2 <= n {
            lemma_partition_terms_stable(n as int, pent_n - 2, n as int);
        } else {
            lemma_pentagonal(n as int);
            lemma_pentagonal(n + 1);
            lemma_partition_terms_stable(n as int, n as int, pent_n - 2);
        }
    }
    cache.set(n as usize, part);
    part
}

/// The computation of a generalised pentagonal number with a small index
/// fits the integer type.
proof fn lemma_pentagonal_fits(k: int)
    requires
        0 <= k <= 1000,
    ensures
        figurate_fits(5, general_index(k)),
{
    lemma_pentagonal(k);
    let m = general_index(k);
    assert(-500 <= m <= 501);
    assert(-1503 <= (5 - 2) * m <= 1503);
    assert(0 <= (5 - 2) * m * (m - 1) <= 3 * 501 * 501) by (nonlinear_arith)
        requires
            -500 <= m <= 501,
    ;
}

/// The partition function of `n`: the value of Euler's recurrence.
pub fn part(n: i64) -> (count: u64)
    requires
        0 <= n <= MAX_PART,
    ensures
        count == partition_number(n as int),
{
    let mut cache: Vec<u64> = Vec::new();
    let mut k: i64 = 0;
    while k <= n
        invariant
            0 <= k <= n + 1,
            n <= MAX_PART,
            cache@.len() == k,
            forall|i: int| 0 <= i < k ==> #[trigger] cache@[i] == 0,
        decreases n + 1 - k,
    {
        cache.push(0);
        k = k + 1;
    }
    part_wc(n, &mut cache)
}

} // verus!
