//! Figurate numbers: polygonal numbers, their generalisation to indices of
//! either sign, and centered polygonal numbers.

use vstd::prelude::*;

verus! {

/// The `n`th polygonal number with `s` sides: `(s - 2) n (n - 1) / 2 + n`.
pub open spec fn figurate_number(s: int, n: int) -> int {
    ((s - 2) * n * (n - 1)) / 2 + n
}

/// Every step of the computation of `figurate_number(s, n)` fits the
/// integer type.
pub open spec fn figurate_fits(s: int, n: int) -> bool {
    &&& i64::MIN < n
    &&& i64::MIN <= (s - 2) * n <= i64::MAX
    &&& (s - 2) * n * (n - 1) <= i64::MAX
    &&& i64::MIN <= figurate_number(s, n) <= i64::MAX
}

/// The index at which the `n`th generalised polygonal number is taken: the
/// indices `0, 1, 2, 3, 4, ..` stand for `0, 1, -1, 2, -2, ..`.
pub open spec fn general_index(n: int) -> int {
    let m = n + 1;
    if m >= 0 {
        if m % 2 == 1 {
            -(m / 2)
        } else {
            m / 2
        }
    } else {
        -((-m) / 2)
    }
}

/// The `n`th centered polygonal number with `s` sides:
/// `s n (n - 1) / 2 + 1`.
pub open spec fn centered_number(s: int, n: int) -> int {
    (s * n * (n - 1)) / 2 + 1
}

/// Every step of the computation of `centered_number(s, n)` fits the
/// integer type.
pub open spec fn centered_fits(s: int, n: int) -> bool {
    &&& i64::MIN < n
    &&& i64::MIN <= s * n <= i64::MAX
    &&& s * n * (n - 1) < i64::MAX - 1
}

/// The product of a non-negative number, a number and its predecessor is
/// not negative.
proof fn lemma_triple_nonnegative(k: int, n: int)
    by (nonlinear_arith)
    requires
        k >= 0,
    ensures
        k * n * (n - 1) >= 0,
{
    assert(n * (n - 1) >= 0);
    assert(k * n * (n - 1) == k * (n * (n - 1)));
}

/// The `n`th polygonal number with `s` sides.
pub fn figurate(s: i64, n: i64) -> (f: i64)
    requires
        s >= 3,
        figurate_fits(s as int, n as int),
    ensures
        f == figurate_number(s as int, n as int),
{
    proof {
        lemma_triple_nonnegative(s - 2, n as int);
    }
    ((s - 2) * n * (n - 1) / 2) + n
}

/// The `n`th generalised polygonal number with `s` sides: the polygonal
/// number at the index `general_index(n)`.
pub fn general_figurate(s: i64, n: i64) -> (f: i64)
    requires
        s >= 3,
        n < i64::MAX,
        figurate_fits(s as int, general_index(n as int)),
    ensures
        f == figurate_number(s as int, general_index(n as int)),
{
    let mut m: i64 = n + 1;
    if m > 0 && m % 2 == 1 {
        m = 0 - m;
    }
    let index: i64 = m / 2;
    assert(index == general_index(n as int));
    figurate(s, index)
}

/// The `n`th centered polygonal number with `s` sides.
pub fn centered_figurate(s: i64, n: i64) -> (f: i64)
    requires
        s >= 3,
        centered_fits(s as int, n as int),
    ensures
        f == centered_number(s as int, n as int),
{
    proof {
        lemma_triple_nonnegative(s as int, n as int);
    }
    (s * n * (n - 1) / 2) + 1
}

/// The `n`th triangular number.
pub fn triangular_number(n: i64) -> (f: i64)
    requires
        figurate_fits(3, n as int),
    ensures
        f == figurate_number(3, n as int),
{
    figurate(3, n)
}

/// The `n`th square number.
pub fn square_number(n: i64) -> (f: i64)
    requires
        figurate_fits(4, n as int),
    ensures
        f == figurate_number(4, n as int),
{
    figurate(4, n)
}

/// The `n`th pentagonal number.
pub fn pentagonal_number(n: i64) -> (f: i64)
    requires
        figurate_fits(5, n as int),
    ensures
        f == figurate_number(5, n as int),
{
    figurate(5, n)
}

/// The `n`th hexagonal number.
pub fn hexagonal_number(n: i64) -> (f: i64)
    requires
        figurate_fits(6, n as int),
    ensures
        f == figurate_number(6, n as int),
{
    figurate(6, n)
}

/// The `n`th generalised pentagonal number.
pub fn general_pentagonal_number(n: i64) -> (f: i64)
    requires
        n < i64::MAX,
        figurate_fits(5, general_index(n as int)),
    ensures
        f == figurate_number(5, general_index(n as int)),
{
    general_figurate(5, n)
}

} // verus!
