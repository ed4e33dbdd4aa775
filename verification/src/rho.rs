//! Brent's variant of Pollard's rho method: a search for a divisor of a
//! number in the cycle of a pseudo-random map modulo that number.

use vstd::prelude::*;
use crate::arith::lemma_multiple_divides;
use crate::factor::{gcd, gcd_of};

verus! {

/// The batch length from which the search gives up: the last length that
/// can still be doubled.
pub const RHO_LAST_BATCH: u64 = 0x4000_0000_0000_0000;

/// The map whose cycle the method searches: `y² + c` modulo `val`.
pub open spec fn rho_next(y: u64, c: u64, val: u64) -> u64 {
    ((y * y + c) % (val as int)) as u64
}

/// The map applied `n` times to `y`.
pub open spec fn rho_advance(y: u64, c: u64, val: u64, n: nat) -> u64
    decreases n,
{
    if n == 0 {
        y
    } else {
        rho_advance(rho_next(y, c, val), c, val, (n - 1) as nat)
    }
}

/// The distance between `a` and `b`.
pub open spec fn abs_diff(a: u64, b: u64) -> u64 {
    if a > b {
        (a - b) as u64
    } else {
        (b - a) as u64
    }
}

/// `n` steps of the map from `y`, each multiplying the distance of the new
/// point from `x` into the running product `q` modulo `val`. The result is
/// the last point and the product.
pub open spec fn rho_batch(x: u64, y: u64, q: u64, c: u64, val: u64, n: nat) -> (u64, u64)
    decreases n,
{
    if n == 0 {
        (y, q)
    } else {
        let y2 = rho_next(y, c, val);
        let q2 = ((q * abs_diff(x, y2)) % (val as int)) as u64;
        rho_batch(x, y2, q2, c, val, (n - 1) as nat)
    }
}

/// What the search carries from step to step: the reference point `x`, the
/// moving point `y`, the point `y_old` from which the last batch set out,
/// the running product `q`, the divisor `fac` found so far and the batch
/// length `r`.
pub struct RhoState {
    pub x: u64,
    pub y: u64,
    pub y_old: u64,
    pub q: u64,
    pub fac: u64,
    pub r: u64,
}

/// The rest of one round of the search, from step `k` of `s.r`: batches of
/// at most `u` steps, each followed by a test of the running product, until
/// the round is over or the test finds a common divisor.
pub open spec fn rho_sweep(s: RhoState, k: int, c: u64, u: u64, val: u64) -> RhoState
    decreases
            (if k < s.r {
                s.r - k
            } else {
                0
            }),
{
    if 0 <= k < s.r && s.fac == 1 && u >= 1 {
        let n = if u < s.r - k {
            u as int
        } else {
            s.r - k
        };
        let out = rho_batch(s.x, s.y, s.q, c, val, n as nat);
        rho_sweep(
            RhoState {
                x: s.x,
                y: out.0,
                y_old: s.y,
                q: out.1,
                fac: gcd_of(out.1 as nat, val as nat) as u64,
                r: s.r,
            },
            k + u,
            c,
            u,
            val,
        )
    } else {
        s
    }
}

/// The first phase of the method: rounds of doubling length, each of which
/// moves the reference point to where the search stands, runs ahead by the
/// round's length and then sweeps through as many steps again, until a
/// sweep finds a common divisor or the length cannot be doubled any more.
pub open spec fn rho_search(s: RhoState, c: u64, u: u64, val: u64) -> RhoState
    decreases 2 * RHO_LAST_BATCH - s.r,
{
    if s.fac == 1 && 1 <= s.r <= RHO_LAST_BATCH {
        let ahead = rho_advance(s.y, c, val, s.r as nat);
        let t = rho_sweep(
            RhoState { x: s.y, y: ahead, y_old: s.y_old, q: s.q, fac: s.fac, r: s.r },
            0,
            c,
            u,
            val,
        );
        rho_search(
            RhoState { x: t.x, y: t.y, y_old: t.y_old, q: t.q, fac: t.fac, r: (2 * s.r) as u64 },
            c,
            u,
            val,
        )
    } else {
        s
    }
}

/// The second phase of the method: as long as the divisor found is one or
/// `val` itself, the point `y_old` moves on by single steps, and its
/// distance from `x` is tested at each. The search ends with the divisor as
/// it is when the point meets `x` or when `fuel` steps are used up; the
/// method grants it as many steps as the longest batch has, since the
/// divisor that the last batch met lies within that batch.
pub open spec fn rho_backtrack(x: u64, y_old: u64, fac: u64, c: u64, val: u64, fuel: nat) -> u64
    decreases fuel,
{
    if (fac == val || fac <= 1) && fuel > 0 {
        let y2 = rho_next(y_old, c, val);
        if x == y2 {
            fac
        } else {
            rho_backtrack(
                x,
                y2,
                gcd_of(abs_diff(x, y2) as nat, val as nat) as u64,
                c,
                val,
                (fuel - 1) as nat,
            )
        }
    } else {
        fac
    }
}

/// The seed of a search: `entropy` times `val`, reduced to the integer
/// type.
pub open spec fn rho_seed(val: u64, entropy: u64) -> u64 {
    ((entropy * val) % 0x1_0000_0000_0000_0000) as u64
}

/// The divisor of `val` that the method proposes for the seed `entropy`:
/// one for `val == 0` and for a seed that allows no batch.
pub open spec fn rho_factor(val: u64, entropy: u64) -> u64 {
    let e = rho_seed(val, entropy);
    let c = e & 0xff;
    let u = e & 0x7f;
    if val == 0 || u == 0 {
        1
    } else {
        let s = rho_search(
            RhoState { x: 0, y: e & 0xf, y_old: 0, q: 1, fac: 1, r: 1 },
            c,
            u,
            val,
        );
        rho_backtrack(s.x, s.y_old, s.fac, c, val, u as nat)
    }
}

/// One step of the map.
fn next_point(y: u64, c: u64, val: u64) -> (y2: u64)
    requires
        val > 0,
    ensures
        y2 == rho_next(y, c, val),
        y2 < val,
{
    let wide: u128 = y as u128;
    assert(wide * wide <= 0xffff_ffff_ffff_ffffint * 0xffff_ffff_ffff_ffffint) by (nonlinear_arith)
        requires
            0 <= wide <= 0xffff_ffff_ffff_ffff,
    ;
    assert(wide * wide == y * y) by (nonlinear_arith)
        requires
            wide == y,
    ;
    ((wide * wide + c as u128) % (val as u128)) as u64
}

/// The product of `a` and `b` modulo `m`.
fn mul_mod(a: u64, b: u64, m: u64) -> (p: u64)
    requires
        m > 0,
    ensures
        p == (a * b) % (m as int),
        p < m,
{
    let wa: u128 = a as u128;
    let wb: u128 = b as u128;
    assert(wa * wb <= 0xffff_ffff_ffff_ffffint * 0xffff_ffff_ffff_ffffint && wa * wb == a * b)
        by (nonlinear_arith)
        requires
            0 <= wa <= 0xffff_ffff_ffff_ffff,
            0 <= wb <= 0xffff_ffff_ffff_ffff,
            wa == a,
            wb == b,
    ;
    ((wa * wb) % (m as u128)) as u64
}

/// The distance between `a` and `b`.
fn distance(a: u64, b: u64) -> (d: u64)
    ensures
        d == abs_diff(a, b),
{
    if a > b {
        a - b
    } else {
        b - a
    }
}

/// The map applied `n` times.
fn advance(y: u64, c: u64, val: u64, n: u64) -> (ahead: u64)
    requires
        val > 0,
    ensures
        ahead == rho_advance(y, c, val, n as nat),
{
    let mut cur: u64 = y;
    let mut done: u64 = 0;
    while done < n
        invariant
            val > 0,
            done <= n,
            rho_advance(cur, c, val, (n - done) as nat) == rho_advance(y, c, val, n as nat),
        decreases n - done,
    {
        cur = next_point(cur, c, val);
        done = done + 1;
    }
    cur
}

/// One batch of `n` steps.
fn batch(x: u64, y: u64, q: u64, c: u64, val: u64, n: u64) -> (out: (u64, u64))
    requires
        val > 0,
    ensures
        out == rho_batch(x, y, q, c, val, n as nat),
{
    let mut cur: u64 = y;
    let mut prod: u64 = q;
    let mut done: u64 = 0;
    while done < n
        invariant
            val > 0,
            done <= n,
            rho_batch(x, cur, prod, c, val, (n - done) as nat) == rho_batch(
                x,
                y,
                q,
                c,
                val,
                n as nat,
            ),
        decreases n - done,
    {
        cur = next_point(cur, c, val);
        prod = mul_mod(prod, distance(x, cur), val);
        done = done + 1;
    }
    (cur, prod)
}

/// The rest of one round from step zero on.
fn sweep(start: RhoState, c: u64, u: u64, val: u64) -> (end: RhoState)
    requires
        val > 0,
        1 <= u <= 0x7f,
        start.r <= RHO_LAST_BATCH,
        start.fac == 1,
    ensures
        end == rho_sweep(start, 0, c, u, val),
        end.r == start.r,
        end.fac >= 1,
        val % end.fac == 0,
{
    let mut s = start;
    let mut k: u64 = 0;
    proof {
        lemma_multiple_divides(1, val as int);
    }
    while k < s.r && s.fac == 1
        invariant
            val > 0,
            1 <= u <= 0x7f,
            s.r == start.r,
            s.r <= RHO_LAST_BATCH,
            k <= s.r + u,
            s.fac >= 1,
            val % s.fac == 0,
            rho_sweep(s, k as int, c, u, val) == rho_sweep(start, 0, c, u, val),
        decreases s.r + u - k,
    {
        let n: u64 = if u < s.r - k {
            u
        } else {
            s.r - k
        };
        let (y2, q2) = batch(s.x, s.y, s.q, c, val, n);
        let fac: u64 = gcd(q2, val);
        s = RhoState { x: s.x, y: y2, y_old: s.y, q: q2, fac, r: s.r };
        k = k + u;
    }
    s
}

/// A candidate divisor of `val` by Brent's variant of Pollard's rho method,
/// with `entropy` as the seed.
///
/// The result always divides `val`, but it may be one or `val` itself: the
/// method can fail for a seed, and the caller then tries another.
pub fn rho(val: u64, entropy: u64) -> (fac: u64)
    ensures
        fac == rho_factor(val, entropy),
        val == 0 ==> fac == 1,
        val > 0 ==> 1 <= fac <= val && val % fac == 0,
{
    let seed: u64 = entropy.wrapping_mul(val);
    let c: u64 = seed & 0xff;
    let u: u64 = seed & 0x7f;
    let first: u64 = seed & 0xf;
    assert(seed & 0x7f <= 0x7f) by (bit_vector);
    if val == 0 || u == 0 {
        proof {
            if val > 0 {
                lemma_multiple_divides(1, val as int);
            }
        }
        return 1;
    }
    let ghost start = RhoState { x: 0, y: first, y_old: 0, q: 1, fac: 1, r: 1 };
    let mut s = RhoState { x: 0, y: first, y_old: 0, q: 1, fac: 1, r: 1 };
    proof {
        lemma_multiple_divides(1, val as int);
    }
    while s.fac == 1 && s.r <= RHO_LAST_BATCH
        invariant
            val > 0,
            1 <= u <= 0x7f,
            1 <= s.r <= 2 * RHO_LAST_BATCH,
            s.fac >= 1,
            val % s.fac == 0,
            rho_search(s, c, u, val) == rho_search(start, c, u, val),
        decreases 2 * RHO_LAST_BATCH - s.r,
    {
        let ahead: u64 = advance(s.y, c, val, s.r);
        let t = sweep(
            RhoState { x: s.y, y: ahead, y_old: s.y_old, q: s.q, fac: s.fac, r: s.r },
            c,
            u,
            val,
        );
        s = RhoState { x: t.x, y: t.y, y_old: t.y_old, q: t.q, fac: t.fac, r: 2 * s.r };
    }
    let x: u64 = s.x;
    let mut y_old: u64 = s.y_old;
    let mut fac: u64 = s.fac;
    let mut fuel: u64 = u;
    proof {
        lemma_divisor_le(fac, val);
    }
    while (fac == val || fac <= 1) && fuel > 0
        invariant
            val > 0,
            1 <= fac <= val,
            val % fac == 0,
            rho_backtrack(x, y_old, fac, c, val, fuel as nat) == rho_factor(val, entropy),
        decreases fuel,
    {
        y_old = next_point(y_old, c, val);
        if x == y_old {
            return fac;
        }
        fac = gcd(distance(x, y_old), val);
        proof {
            lemma_divisor_le(fac, val);
        }
        fuel = fuel - 1;
    }
    fac
}

/// A positive divisor of a positive number does not exceed it.
proof fn lemma_divisor_le(d: u64, n: u64)
    requires
        d >= 1,
        n >= 1,
        n % d == 0,
    ensures
        d <= n,
{
    crate::arith::lemma_divisor_bounds(d as int, n as int);
}

} // verus!
