//! The list of the primes up to a bound, and the parts of it that the
//! sieves work through.

use vstd::prelude::*;
use crate::arith::{is_prime_number, lemma_multiple_step, lemma_multiples_apart};

verus! {

/// The primes strictly below `n`, in ascending order.
pub open spec fn primes_below(n: int) -> Seq<u64>
    decreases n,
{
    if n <= 0 {
        Seq::empty()
    } else if is_prime_number(n - 1) {
        primes_below(n - 1).push((n - 1) as u64)
    } else {
        primes_below(n - 1)
    }
}

/// The primes up to and including `max`, in ascending order.
pub open spec fn primes_upto(max: int) -> Seq<u64> {
    primes_below(max + 1)
}

/// The number of primes up to and including `x`.
pub open spec fn prime_pi(x: int) -> nat {
    primes_upto(x).len()
}

/// `primes_below(n)` holds exactly the primes below `n`, each once, in
/// strictly ascending order.
pub proof fn lemma_primes_below(n: int)
    requires
        n <= u64::MAX + 1,
    ensures
        forall|i: int|
            0 <= i < primes_below(n).len() ==> is_prime_number(
                #[trigger] primes_below(n)[i] as int,
            ) && primes_below(n)[i] < n,
        forall|i: int, j: int|
            0 <= i < j < primes_below(n).len() ==> primes_below(n)[i] < primes_below(n)[j],
        forall|p: int|
            is_prime_number(p) && p < n ==> primes_below(n).contains(#[trigger] (p as u64)),
        primes_below(n).len() <= if n <= 2 { 0 } else { n - 2 },
    decreases n,
{
    if n > 0 {
        lemma_primes_below(n - 1);
        let prev = primes_below(n - 1);
        let cur = primes_below(n);
        if is_prime_number(n - 1) {
            assert(cur[cur.len() - 1] == (n - 1) as u64);
            assert forall|p: int| is_prime_number(p) && p < n implies cur.contains(
                #[trigger] (p as u64),
            ) by {
                if p < n - 1 {
                    let k = choose|k: int| 0 <= k < prev.len() && prev[k] == p as u64;
                    assert(cur[k] == p as u64);
                } else {
                    assert(cur[cur.len() - 1] == p as u64);
                }
            }
        } else {
            assert forall|p: int| is_prime_number(p) && p < n implies cur.contains(
                #[trigger] (p as u64),
            ) by {
                let k = choose|k: int| 0 <= k < prev.len() && prev[k] == p as u64;
                assert(cur[k] == p as u64);
            }
        }
    }
}

/// `primes_below` grows with its bound, and the shorter list is a prefix of
/// the longer one.
pub proof fn lemma_primes_below_prefix(m: int, n: int)
    requires
        m <= n,
    ensures
        primes_below(m).len() <= primes_below(n).len(),
        primes_below(n).subrange(0, primes_below(m).len() as int) == primes_below(m),
    decreases n - m,
{
    if m < n {
        lemma_primes_below_prefix(m, n - 1);
        assert(n > 0 || primes_below(n) == primes_below(n - 1)) by {
            if n <= 0 {
                assert(primes_below(n) =~= primes_below(n - 1));
            }
        }
        let len = primes_below(m).len() as int;
        assert(primes_below(n).subrange(0, len) =~= primes_below(n - 1).subrange(0, len));
    } else {
        assert(primes_below(n).subrange(0, primes_below(m).len() as int) =~= primes_below(m));
    }
}

/// The primes `p` with `lo <= p < hi`, in ascending order.
pub open spec fn primes_in(lo: int, hi: int) -> Seq<u64> {
    primes_below(hi).subrange(primes_below(lo).len() as int, primes_below(hi).len() as int)
}

/// The primes below `hi` are those below `lo` followed by those from `lo`
/// on.
pub proof fn lemma_primes_in_split(lo: int, hi: int)
    requires
        lo <= hi,
    ensures
        primes_below(hi) == primes_below(lo) + primes_in(lo, hi),
        primes_in(lo, hi).len() == primes_below(hi).len() - primes_below(lo).len(),
{
    lemma_primes_below_prefix(lo, hi);
    assert(primes_below(hi) =~= primes_below(lo) + primes_in(lo, hi));
}

/// Extending the range by one number appends that number if it is prime.
pub proof fn lemma_primes_in_step(lo: int, hi: int)
    requires
        0 <= lo <= hi,
    ensures
        primes_in(lo, hi + 1) == if is_prime_number(hi) {
            primes_in(lo, hi).push(hi as u64)
        } else {
            primes_in(lo, hi)
        },
        primes_in(lo, lo) == Seq::<u64>::empty(),
{
    lemma_primes_below_prefix(lo, hi);
    lemma_primes_below_prefix(lo, hi + 1);
    if is_prime_number(hi) {
        assert(primes_in(lo, hi + 1) =~= primes_in(lo, hi).push(hi as u64));
    } else {
        assert(primes_in(lo, hi + 1) =~= primes_in(lo, hi));
    }
    assert(primes_in(lo, lo) =~= Seq::<u64>::empty());
}

/// A prime other than two is odd.
pub proof fn lemma_odd_prime(p: int)
    requires
        is_prime_number(p),
        p != 2,
    ensures
        p % 2 == 1,
        p >= 3,
        (p * p) % 2 == 1,
{
    assert(p % 2 != 0);
    let h = p / 2;
    assert(p * p == 2 * (2 * h * h + 2 * h) + 1) by (nonlinear_arith)
        requires
            p == 2 * h + 1,
    ;
}

/// An even number other than two is not prime.
pub proof fn lemma_even_not_prime(n: int)
    requires
        n % 2 == 0,
        n != 2,
    ensures
        !is_prime_number(n),
{
}

/// Two odd multiples of an odd number `p` less than `2 * p` apart are
/// equal.
pub proof fn lemma_odd_multiples_apart(p: int, a: int, b: int)
    requires
        p > 0,
        p % 2 == 1,
        a % 2 == 1,
        b % 2 == 1,
        a % p == 0,
        b % p == 0,
        a <= b < a + 2 * p,
    ensures
        a == b,
{
    if b >= a + p {
        lemma_multiple_step(a, p);
        lemma_multiples_apart(b, a + p, p);
    } else {
        lemma_multiples_apart(b, a, p);
    }
}

} // verus!
