//! The primes below one hundred, one by one.

use vstd::prelude::*;
use crate::arith::{is_prime_number, lemma_composite_has_small_factor, smallest_prime_factor};
use crate::prime_list::primes_below;

verus! {

/// The primes below one hundred.
pub open spec fn primes_below_hundred() -> Seq<u64> {
    seq![2u64, 3u64, 5u64, 7u64, 11u64, 13u64, 17u64, 19u64, 23u64, 29u64, 31u64, 37u64, 41u64, 43u64, 47u64, 53u64, 59u64, 61u64, 67u64, 71u64, 73u64, 79u64, 83u64, 89u64, 97u64]
}

/// A number below 121 that none of two, three, five and seven divides,
/// unless it is one of them, is prime.
pub proof fn lemma_prime_below_121(p: int)
    requires
        2 <= p < 121,
        p == 2 || p % 2 != 0,
        p == 3 || p % 3 != 0,
        p == 5 || p % 5 != 0,
        p == 7 || p % 7 != 0,
    ensures
        is_prime_number(p),
{
    if !is_prime_number(p) {
        lemma_composite_has_small_factor(p);
        let q = smallest_prime_factor(p);
        assert(q <= 10) by (nonlinear_arith)
            requires
                q * q <= p,
                p < 121,
                q >= 0,
        ;
        assert(q < p) by (nonlinear_arith)
            requires
                q * q <= p,
                q >= 2,
        ;
        if q == 4 || q == 6 || q == 8 || q == 10 {
            assert(q % 2 == 0);
        }
        if q == 9 {
            assert(q % 3 == 0);
        }
    }
}

/// The primes below 25, and how many primes there are up to each number
/// from 0 to 24.
pub proof fn lemma_primes_below_25()
    ensures
        primes_below(25) == seq![2u64, 3u64, 5u64, 7u64, 11u64, 13u64, 17u64, 19u64, 23u64],
        primes_below(1).len() == 0,
        primes_below(2).len() == 0,
        primes_below(3).len() == 1,
        primes_below(4).len() == 2,
        primes_below(5).len() == 2,
        primes_below(6).len() == 3,
        primes_below(7).len() == 3,
        primes_below(8).len() == 4,
        primes_below(9).len() == 4,
        primes_below(10).len() == 4,
        primes_below(11).len() == 4,
        primes_below(12).len() == 5,
        primes_below(13).len() == 5,
        primes_below(14).len() == 6,
        primes_below(15).len() == 6,
        primes_below(16).len() == 6,
        primes_below(17).len() == 6,
        primes_below(18).len() == 7,
        primes_below(19).len() == 7,
        primes_below(20).len() == 8,
        primes_below(21).len() == 8,
        primes_below(22).len() == 8,
        primes_below(23).len() == 8,
        primes_below(24).len() == 9,
        primes_below(25).len() == 9,
{
    assert(primes_below(0) =~= Seq::<u64>::empty());
    assert(primes_below(1) =~= Seq::<u64>::empty());
    assert(primes_below(2) =~= Seq::<u64>::empty());
    lemma_prime_below_121(2);
    assert(primes_below(3) =~= seq![2u64]);
    lemma_prime_below_121(3);
    assert(primes_below(4) =~= seq![2u64, 3u64]);
    assert(4int % 2 == 0);
    assert(primes_below(5) =~= seq![2u64, 3u64]);
    lemma_prime_below_121(5);
    assert(primes_below(6) =~= seq![2u64, 3u64, 5u64]);
    assert(6int % 2 == 0);
    assert(primes_below(7) =~= seq![2u64, 3u64, 5u64]);
    lemma_prime_below_121(7);
    assert(primes_below(8) =~= seq![2u64, 3u64, 5u64, 7u64]);
    assert(8int % 2 == 0);
    assert(primes_below(9) =~= seq![2u64, 3u64, 5u64, 7u64]);
    assert(9int % 3 == 0);
    assert(primes_below(10) =~= seq![2u64, 3u64, 5u64, 7u64]);
    assert(10int % 2 == 0);
    assert(primes_below(11) =~= seq![2u64, 3u64, 5u64, 7u64]);
    lemma_prime_below_121(11);
    assert(primes_below(12) =~= seq![2u64, 3u64, 5u64, 7u64, 11u64]);
    assert(12int % 2 == 0);
    assert(primes_below(13) =~= seq![2u64, 3u64, 5u64, 7u64, 11u64]);
    lemma_prime_below_121(13);
    assert(primes_below(14) =~= seq![2u64, 3u64, 5u64, 7u64, 11u64, 13u64]);
    assert(14int % 2 == 0);
    assert(primes_below(15) =~= seq![2u64, 3u64, 5u64, 7u64, 11u64, 13u64]);
    assert(15int % 3 == 0);
    assert(primes_below(16) =~= seq![2u64, 3u64, 5u64, 7u64, 11u64, 13u64]);
    assert(16int % 2 == 0);
    assert(primes_below(17) =~= seq![2u64, 3u64, 5u64, 7u64, 11u64, 13u64]);
    lemma_prime_below_121(17);
    assert(primes_below(18) =~= seq![2u64, 3u64, 5u64, 7u64, 11u64, 13u64, 17u64]);
    assert(18int % 2 == 0);
    assert(primes_below(19) =~= seq![2u64, 3u64, 5u64, 7u64, 11u64, 13u64, 17u64]);
    lemma_prime_below_121(19);
    assert(primes_below(20) =~= seq![2u64, 3u64, 5u64, 7u64, 11u64, 13u64, 17u64, 19u64]);
    assert(20int % 2 == 0);
    assert(primes_below(21) =~= seq![2u64, 3u64, 5u64, 7u64, 11u64, 13u64, 17u64, 19u64]);
    assert(21int % 3 == 0);
    assert(primes_below(22) =~= seq![2u64, 3u64, 5u64, 7u64, 11u64, 13u64, 17u64, 19u64]);
    assert(22int % 2 == 0);
    assert(primes_below(23) =~= seq![2u64, 3u64, 5u64, 7u64, 11u64, 13u64, 17u64, 19u64]);
    lemma_prime_below_121(23);
    assert(primes_below(24) =~= seq![2u64, 3u64, 5u64, 7u64, 11u64, 13u64, 17u64, 19u64, 23u64]);
    assert(24int % 2 == 0);
    assert(primes_below(25) =~= seq![2u64, 3u64, 5u64, 7u64, 11u64, 13u64, 17u64, 19u64, 23u64]);
}

/// The primes below 50, and how many primes there are up to each number
/// from 25 to 49.
pub proof fn lemma_primes_below_50()
    requires
        primes_below(25) == seq![2u64, 3u64, 5u64, 7u64, 11u64, 13u64, 17u64, 19u64, 23u64],
    ensures
        primes_below(50) == seq![2u64, 3u64, 5u64, 7u64, 11u64, 13u64, 17u64, 19u64, 23u64, 29u64, 31u64, 37u64, 41u64, 43u64, 47u64],
        primes_below(26).len() == 9,
        primes_below(27).len() == 9,
        primes_below(28).len() == 9,
        primes_below(29).len() == 9,
        primes_below(30).len() == 10,
        primes_below(31).len() == 10,
        primes_below(32).len() == 11,
        primes_below(33).len() == 11,
        primes_below(34).len() == 11,
        primes_below(35).len() == 11,
        primes_below(36).len() == 11,
        primes_below(37).len() == 11,
        primes_below(38).len() == 12,
        primes_below(39).len() == 12,
        primes_below(40).len() == 12,
        primes_below(41).len() == 12,
        primes_below(42).len() == 13,
        primes_below(43).len() == 13,
        primes_below(44).len() == 14,
        primes_below(45).len() == 14,
        primes_below(46).len() == 14,
        primes_below(47).len() == 14,
        primes_below(48).len() == 15,
        primes_below(49).len() == 15,
        primes_below(50).len() == 15,
{
    assert(25int % 5 == 0);
    assert(primes_below(26) =~= seq![2u64, 3u64, 5u64, 7u64, 11u64, 13u64, 17u64, 19u64, 23u64]);
    assert(26int % 2 == 0);
    assert(primes_below(27) =~= seq![2u64, 3u64, 5u64, 7u64, 11u64, 13u64, 17u64, 19u64, 23u64]);
    assert(27int % 3 == 0);
    assert(primes_below(28) =~= seq![2u64, 3u64, 5u64, 7u64, 11u64, 13u64, 17u64, 19u64, 23u64]);
    assert(28int % 2 == 0);
    assert(primes_below(29) =~= seq![2u64, 3u64, 5u64, 7u64, 11u64, 13u64, 17u64, 19u64, 23u64]);
    lemma_prime_below_121(29);
    assert(primes_below(30) =~= seq![2u64, 3u64, 5u64, 7u64, 11u64, 13u64, 17u64, 19u64, 23u64, 29u64]);
    assert(30int % 2 == 0);
    assert(primes_below(31) =~= seq![2u64, 3u64, 5u64, 7u64, 11u64, 13u64, 17u64, 19u64, 23u64, 29u64]);
    lemma_prime_below_121(31);
    assert(primes_below(32) =~= seq![2u64, 3u64, 5u64, 7u64, 11u64, 13u64, 17u64, 19u64, 23u64, 29u64, 31u64]);
    assert(32int % 2 == 0);
    assert(primes_below(33) =~= seq![2u64, 3u64, 5u64, 7u64, 11u64, 13u64, 17u64, 19u64, 23u64, 29u64, 31u64]);
    assert(33int % 3 == 0);
    assert(primes_below(34) =~= seq![2u64, 3u64, 5u64, 7u64, 11u64, 13u64, 17u64, 19u64, 23u64, 29u64, 31u64]);
    assert(34int % 2 == 0);
    assert(primes_below(35) =~= seq![2u64, 3u64, 5u64, 7u64, 11u64, 13u64, 17u64, 19u64, 23u64, 29u64, 31u64]);
    assert(35int % 5 == 0);
    assert(primes_below(36) =~= seq![2u64, 3u64, 5u64, 7u64, 11u64, 13u64, 17u64, 19u64, 23u64, 29u64, 31u64]);
    assert(36int % 2 == 0);
    assert(primes_below(37) =~= seq![2u64, 3u64, 5u64, 7u64, 11u64, 13u64, 17u64, 19u64, 23u64, 29u64, 31u64]);
    lemma_prime_below_121(37);
    assert(primes_below(38) =~= seq![2u64, 3u64, 5u64, 7u64, 11u64, 13u64, 17u64, 19u64, 23u64, 29u64, 31u64, 37u64]);
    assert(38int % 2 == 0);
    assert(primes_below(39) =~= seq![2u64, 3u64, 5u64, 7u64, 11u64, 13u64, 17u64, 19u64, 23u64, 29u64, 31u64, 37u64]);
    assert(39int % 3 == 0);
    assert(primes_below(40) =~= seq![2u64, 3u64, 5u64, 7u64, 11u64, 13u64, 17u64, 19u64, 23u64, 29u64, 31u64, 37u64]);
    assert(40int % 2 == 0);
    assert(primes_below(41) =~= seq![2u64, 3u64, 5u64, 7u64, 11u64, 13u64, 17u64, 19u64, 23u64, 29u64, 31u64, 37u64]);
    lemma_prime_below_121(41);
    assert(primes_below(42) =~= seq![2u64, 3u64, 5u64, 7u64, 11u64, 13u64, 17u64, 19u64, 23u64, 29u64, 31u64, 37u64, 41u64]);
    assert(42int % 2 == 0);
    assert(primes_below(43) =~= seq![2u64, 3u64, 5u64, 7u64, 11u64, 13u64, 17u64, 19u64, 23u64, 29u64, 31u64, 37u64, 41u64]);
    lemma_prime_below_121(43);
    assert(primes_below(44) =~= seq![2u64, 3u64, 5u64, 7u64, 11u64, 13u64, 17u64, 19u64, 23u64, 29u64, 31u64, 37u64, 41u64, 43u64]);
    assert(44int % 2 == 0);
    assert(primes_below(45) =~= seq![2u64, 3u64, 5u64, 7u64, 11u64, 13u64, 17u64, 19u64, 23u64, 29u64, 31u64, 37u64, 41u64, 43u64]);
    assert(45int % 3 == 0);
    assert(primes_below(46) =~= seq![2u64, 3u64, 5u64, 7u64, 11u64, 13u64, 17u64, 19u64, 23u64, 29u64, 31u64, 37u64, 41u64, 43u64]);
    assert(46int % 2 == 0);
    assert(primes_below(47) =~= seq![2u64, 3u64, 5u64, 7u64, 11u64, 13u64, 17u64, 19u64, 23u64, 29u64, 31u64, 37u64, 41u64, 43u64]);
    lemma_prime_below_121(47);
    assert(primes_below(48) =~= seq![2u64, 3u64, 5u64, 7u64, 11u64, 13u64, 17u64, 19u64, 23u64, 29u64, 31u64, 37u64, 41u64, 43u64, 47u64]);
    assert(48int % 2 == 0);
    assert(primes_below(49) =~= seq![2u64, 3u64, 5u64, 7u64, 11u64, 13u64, 17u64, 19u64, 23u64, 29u64, 31u64, 37u64, 41u64, 43u64, 47u64]);
    assert(49int % 7 == 0);
    assert(primes_below(50) =~= seq![2u64, 3u64, 5u64, 7u64, 11u64, 13u64, 17u64, 19u64, 23u64, 29u64, 31u64, 37u64, 41u64, 43u64, 47u64]);
}

/// The primes below 75, and how many primes there are up to each number
/// from 50 to 74.
pub proof fn lemma_primes_below_75()
    requires
        primes_below(50) == seq![2u64, 3u64, 5u64, 7u64, 11u64, 13u64, 17u64, 19u64, 23u64, 29u64, 31u64, 37u64, 41u64, 43u64, 47u64],
    ensures
        primes_below(75) == seq![2u64, 3u64, 5u64, 7u64, 11u64, 13u64, 17u64, 19u64, 23u64, 29u64, 31u64, 37u64, 41u64, 43u64, 47u64, 53u64, 59u64, 61u64, 67u64, 71u64, 73u64],
        primes_below(51).len() == 15,
        primes_below(52).len() == 15,
        primes_below(53).len() == 15,
        primes_below(54).len() == 16,
        primes_below(55).len() == 16,
        primes_below(56).len() == 16,
        primes_below(57).len() == 16,
        primes_below(58).len() == 16,
        primes_below(59).len() == 16,
        primes_below(60).len() == 17,
        primes_below(61).len() == 17,
        primes_below(62).len() == 18,
        primes_below(63).len() == 18,
        primes_below(64).len() == 18,
        primes_below(65).len() == 18,
        primes_below(66).len() == 18,
        primes_below(67).len() == 18,
        primes_below(68).len() == 19,
        primes_below(69).len() == 19,
        primes_below(70).len() == 19,
        primes_below(71).len() == 19,
        primes_below(72).len() == 20,
        primes_below(73).len() == 20,
        primes_below(74).len() == 21,
        primes_below(75).len() == 21,
{
    assert(50int % 2 == 0);
    assert(primes_below(51) =~= seq![2u64, 3u64, 5u64, 7u64, 11u64, 13u64, 17u64, 19u64, 23u64, 29u64, 31u64, 37u64, 41u64, 43u64, 47u64]);
    assert(51int % 3 == 0);
    assert(primes_below(52) =~= seq![2u64, 3u64, 5u64, 7u64, 11u64, 13u64, 17u64, 19u64, 23u64, 29u64, 31u64, 37u64, 41u64, 43u64, 47u64]);
    assert(52int % 2 == 0);
    assert(primes_below(53) =~= seq![2u64, 3u64, 5u64, 7u64, 11u64, 13u64, 17u64, 19u64, 23u64, 29u64, 31u64, 37u64, 41u64, 43u64, 47u64]);
    lemma_prime_below_121(53);
    assert(primes_below(54) =~= seq![2u64, 3u64, 5u64, 7u64, 11u64, 13u64, 17u64, 19u64, 23u64, 29u64, 31u64, 37u64, 41u64, 43u64, 47u64, 53u64]);
    assert(54int % 2 == 0);
    assert(primes_below(55) =~= seq![2u64, 3u64, 5u64, 7u64, 11u64, 13u64, 17u64, 19u64, 23u64, 29u64, 31u64, 37u64, 41u64, 43u64, 47u64, 53u64]);
    assert(55int % 5 == 0);
    assert(primes_below(56) =~= seq![2u64, 3u64, 5u64, 7u64, 11u64, 13u64, 17u64, 19u64, 23u64, 29u64, 31u64, 37u64, 41u64, 43u64, 47u64, 53u64]);
    assert(56int % 2 == 0);
    assert(primes_below(57) =~= seq![2u64, 3u64, 5u64, 7u64, 11u64, 13u64, 17u64, 19u64, 23u64, 29u64, 31u64, 37u64, 41u64, 43u64, 47u64, 53u64]);
    assert(57int % 3 == 0);
    assert(primes_below(58) =~= seq![2u64, 3u64, 5u64, 7u64, 11u64, 13u64, 17u64, 19u64, 23u64, 29u64, 31u64, 37u64, 41u64, 43u64, 47u64, 53u64]);
    assert(58int % 2 == 0);
    assert(primes_below(59) =~= seq![2u64, 3u64, 5u64, 7u64, 11u64, 13u64, 17u64, 19u64, 23u64, 29u64, 31u64, 37u64, 41u64, 43u64, 47u64, 53u64]);
    lemma_prime_below_121(59);
    assert(primes_below(60) =~= seq![2u64, 3u64, 5u64, 7u64, 11u64, 13u64, 17u64, 19u64, 23u64, 29u64, 31u64, 37u64, 41u64, 43u64, 47u64, 53u64, 59u64]);
    assert(60int % 2 == 0);
    assert(primes_below(61) =~= seq![2u64, 3u64, 5u64, 7u64, 11u64, 13u64, 17u64, 19u64, 23u64, 29u64, 31u64, 37u64, 41u64, 43u64, 47u64, 53u64, 59u64]);
    lemma_prime_below_121(61);
    assert(primes_below(62) =~= seq![2u64, 3u64, 5u64, 7u64, 11u64, 13u64, 17u64, 19u64, 23u64, 29u64, 31u64, 37u64, 41u64, 43u64, 47u64, 53u64, 59u64, 61u64]);
    assert(62int % 2 == 0);
    assert(primes_below(63) =~= seq![2u64, 3u64, 5u64, 7u64, 11u64, 13u64, 17u64, 19u64, 23u64, 29u64, 31u64, 37u64, 41u64, 43u64, 47u64, 53u64, 59u64, 61u64]);
    assert(63int % 3 == 0);
    assert(primes_below(64) =~= seq![2u64, 3u64, 5u64, 7u64, 11u64, 13u64, 17u64, 19u64, 23u64, 29u64, 31u64, 37u64, 41u64, 43u64, 47u64, 53u64, 59u64, 61u64]);
    assert(64int % 2 == 0);
    assert(primes_below(65) =~= seq![2u64, 3u64, 5u64, 7u64, 11u64, 13u64, 17u64, 19u64, 23u64, 29u64, 31u64, 37u64, 41u64, 43u64, 47u64, 53u64, 59u64, 61u64]);
    assert(65int % 5 == 0);
    assert(primes_below(66) =~= seq![2u64, 3u64, 5u64, 7u64, 11u64, 13u64, 17u64, 19u64, 23u64, 29u64, 31u64, 37u64, 41u64, 43u64, 47u64, 53u64, 59u64, 61u64]);
    assert(66int % 2 == 0);
    assert(primes_below(67) =~= seq![2u64, 3u64, 5u64, 7u64, 11u64, 13u64, 17u64, 19u64, 23u64, 29u64, 31u64, 37u64, 41u64, 43u64, 47u64, 53u64, 59u64, 61u64]);
    lemma_prime_below_121(67);
    assert(primes_below(68) =~= seq![2u64, 3u64, 5u64, 7u64, 11u64, 13u64, 17u64, 19u64, 23u64, 29u64, 31u64, 37u64, 41u64, 43u64, 47u64, 53u64, 59u64, 61u64, 67u64]);
    assert(68int % 2 == 0);
    assert(primes_below(69) =~= seq![2u64, 3u64, 5u64, 7u64, 11u64, 13u64, 17u64, 19u64, 23u64, 29u64, 31u64, 37u64, 41u64, 43u64, 47u64, 53u64, 59u64, 61u64, 67u64]);
    assert(69int % 3 == 0);
    assert(primes_below(70) =~= seq![2u64, 3u64, 5u64, 7u64, 11u64, 13u64, 17u64, 19u64, 23u64, 29u64, 31u64, 37u64, 41u64, 43u64, 47u64, 53u64, 59u64, 61u64, 67u64]);
    assert(70int % 2 == 0);
    assert(primes_below(71) =~= seq![2u64, 3u64, 5u64, 7u64, 11u64, 13u64, 17u64, 19u64, 23u64, 29u64, 31u64, 37u64, 41u64, 43u64, 47u64, 53u64, 59u64, 61u64, 67u64]);
    lemma_prime_below_121(71);
    assert(primes_below(72) =~= seq![2u64, 3u64, 5u64, 7u64, 11u64, 13u64, 17u64, 19u64, 23u64, 29u64, 31u64, 37u64, 41u64, 43u64, 47u64, 53u64, 59u64, 61u64, 67u64, 71u64]);
    assert(72int % 2 == 0);
    assert(primes_below(73) =~= seq![2u64, 3u64, 5u64, 7u64, 11u64, 13u64, 17u64, 19u64, 23u64, 29u64, 31u64, 37u64, 41u64, 43u64, 47u64, 53u64, 59u64, 61u64, 67u64, 71u64]);
    lemma_prime_below_121(73);
    assert(primes_below(74) =~= seq![2u64, 3u64, 5u64, 7u64, 11u64, 13u64, 17u64, 19u64, 23u64, 29u64, 31u64, 37u64, 41u64, 43u64, 47u64, 53u64, 59u64, 61u64, 67u64, 71u64, 73u64]);
    assert(74int % 2 == 0);
    assert(primes_below(75) =~= seq![2u64, 3u64, 5u64, 7u64, 11u64, 13u64, 17u64, 19u64, 23u64, 29u64, 31u64, 37u64, 41u64, 43u64, 47u64, 53u64, 59u64, 61u64, 67u64, 71u64, 73u64]);
}

/// The primes below 100, and how many primes there are up to each number
/// from 75 to 99.
pub proof fn lemma_primes_below_100()
    requires
        primes_below(75) == seq![2u64, 3u64, 5u64, 7u64, 11u64, 13u64, 17u64, 19u64, 23u64, 29u64, 31u64, 37u64, 41u64, 43u64, 47u64, 53u64, 59u64, 61u64, 67u64, 71u64, 73u64],
    ensures
        primes_below(100) == seq![2u64, 3u64, 5u64, 7u64, 11u64, 13u64, 17u64, 19u64, 23u64, 29u64, 31u64, 37u64, 41u64, 43u64, 47u64, 53u64, 59u64, 61u64, 67u64, 71u64, 73u64, 79u64, 83u64, 89u64, 97u64],
        primes_below(76).len() == 21,
        primes_below(77).len() == 21,
        primes_below(78).len() == 21,
        primes_below(79).len() == 21,
        primes_below(80).len() == 22,
        primes_below(81).len() == 22,
        primes_below(82).len() == 22,
        primes_below(83).len() == 22,
        primes_below(84).len() == 23,
        primes_below(85).len() == 23,
        primes_below(86).len() == 23,
        primes_below(87).len() == 23,
        primes_below(88).len() == 23,
        primes_below(89).len() == 23,
        primes_below(90).len() == 24,
        primes_below(91).len() == 24,
        primes_below(92).len() == 24,
        primes_below(93).len() == 24,
        primes_below(94).len() == 24,
        primes_below(95).len() == 24,
        primes_below(96).len() == 24,
        primes_below(97).len() == 24,
        primes_below(98).len() == 25,
        primes_below(99).len() == 25,
        primes_below(100).len() == 25,
{
    assert(75int % 3 == 0);
    assert(primes_below(76) =~= seq![2u64, 3u64, 5u64, 7u64, 11u64, 13u64, 17u64, 19u64, 23u64, 29u64, 31u64, 37u64, 41u64, 43u64, 47u64, 53u64, 59u64, 61u64, 67u64, 71u64, 73u64]);
    assert(76int % 2 == 0);
    assert(primes_below(77) =~= seq![2u64, 3u64, 5u64, 7u64, 11u64, 13u64, 17u64, 19u64, 23u64, 29u64, 31u64, 37u64, 41u64, 43u64, 47u64, 53u64, 59u64, 61u64, 67u64, 71u64, 73u64]);
    assert(77int % 7 == 0);
    assert(primes_below(78) =~= seq![2u64, 3u64, 5u64, 7u64, 11u64, 13u64, 17u64, 19u64, 23u64, 29u64, 31u64, 37u64, 41u64, 43u64, 47u64, 53u64, 59u64, 61u64, 67u64, 71u64, 73u64]);
    assert(78int % 2 == 0);
    assert(primes_below(79) =~= seq![2u64, 3u64, 5u64, 7u64, 11u64, 13u64, 17u64, 19u64, 23u64, 29u64, 31u64, 37u64, 41u64, 43u64, 47u64, 53u64, 59u64, 61u64, 67u64, 71u64, 73u64]);
    lemma_prime_below_121(79);
    assert(primes_below(80) =~= seq![2u64, 3u64, 5u64, 7u64, 11u64, 13u64, 17u64, 19u64, 23u64, 29u64, 31u64, 37u64, 41u64, 43u64, 47u64, 53u64, 59u64, 61u64, 67u64, 71u64, 73u64, 79u64]);
    assert(80int % 2 == 0);
    assert(primes_below(81) =~= seq![2u64, 3u64, 5u64, 7u64, 11u64, 13u64, 17u64, 19u64, 23u64, 29u64, 31u64, 37u64, 41u64, 43u64, 47u64, 53u64, 59u64, 61u64, 67u64, 71u64, 73u64, 79u64]);
    assert(81int % 3 == 0);
    assert(primes_below(82) =~= seq![2u64, 3u64, 5u64, 7u64, 11u64, 13u64, 17u64, 19u64, 23u64, 29u64, 31u64, 37u64, 41u64, 43u64, 47u64, 53u64, 59u64, 61u64, 67u64, 71u64, 73u64, 79u64]);
    assert(82int % 2 == 0);
    assert(primes_below(83) =~= seq![2u64, 3u64, 5u64, 7u64, 11u64, 13u64, 17u64, 19u64, 23u64, 29u64, 31u64, 37u64, 41u64, 43u64, 47u64, 53u64, 59u64, 61u64, 67u64, 71u64, 73u64, 79u64]);
    lemma_prime_below_121(83);
    assert(primes_below(84) =~= seq![2u64, 3u64, 5u64, 7u64, 11u64, 13u64, 17u64, 19u64, 23u64, 29u64, 31u64, 37u64, 41u64, 43u64, 47u64, 53u64, 59u64, 61u64, 67u64, 71u64, 73u64, 79u64, 83u64]);
    assert(84int % 2 == 0);
    assert(primes_below(85) =~= seq![2u64, 3u64, 5u64, 7u64, 11u64, 13u64, 17u64, 19u64, 23u64, 29u64, 31u64, 37u64, 41u64, 43u64, 47u64, 53u64, 59u64, 61u64, 67u64, 71u64, 73u64, 79u64, 83u64]);
    assert(85int % 5 == 0);
    assert(primes_below(86) =~= seq![2u64, 3u64, 5u64, 7u64, 11u64, 13u64, 17u64, 19u64, 23u64, 29u64, 31u64, 37u64, 41u64, 43u64, 47u64, 53u64, 59u64, 61u64, 67u64, 71u64, 73u64, 79u64, 83u64]);
    assert(86int % 2 == 0);
    assert(primes_below(87) =~= seq![2u64, 3u64, 5u64, 7u64, 11u64, 13u64, 17u64, 19u64, 23u64, 29u64, 31u64, 37u64, 41u64, 43u64, 47u64, 53u64, 59u64, 61u64, 67u64, 71u64, 73u64, 79u64, 83u64]);
    assert(87int % 3 == 0);
    assert(primes_below(88) =~= seq![2u64, 3u64, 5u64, 7u64, 11u64, 13u64, 17u64, 19u64, 23u64, 29u64, 31u64, 37u64, 41u64, 43u64, 47u64, 53u64, 59u64, 61u64, 67u64, 71u64, 73u64, 79u64, 83u64]);
    assert(88int % 2 == 0);
    assert(primes_below(89) =~= seq![2u64, 3u64, 5u64, 7u64, 11u64, 13u64, 17u64, 19u64, 23u64, 29u64, 31u64, 37u64, 41u64, 43u64, 47u64, 53u64, 59u64, 61u64, 67u64, 71u64, 73u64, 79u64, 83u64]);
    lemma_prime_below_121(89);
    assert(primes_below(90) =~= seq![2u64, 3u64, 5u64, 7u64, 11u64, 13u64, 17u64, 19u64, 23u64, 29u64, 31u64, 37u64, 41u64, 43u64, 47u64, 53u64, 59u64, 61u64, 67u64, 71u64, 73u64, 79u64, 83u64, 89u64]);
    assert(90int % 2 == 0);
    assert(primes_below(91) =~= seq![2u64, 3u64, 5u64, 7u64, 11u64, 13u64, 17u64, 19u64, 23u64, 29u64, 31u64, 37u64, 41u64, 43u64, 47u64, 53u64, 59u64, 61u64, 67u64, 71u64, 73u64, 79u64, 83u64, 89u64]);
    assert(91int % 7 == 0);
    assert(primes_below(92) =~= seq![2u64, 3u64, 5u64, 7u64, 11u64, 13u64, 17u64, 19u64, 23u64, 29u64, 31u64, 37u64, 41u64, 43u64, 47u64, 53u64, 59u64, 61u64, 67u64, 71u64, 73u64, 79u64, 83u64, 89u64]);
    assert(92int % 2 == 0);
    assert(primes_below(93) =~= seq![2u64, 3u64, 5u64, 7u64, 11u64, 13u64, 17u64, 19u64, 23u64, 29u64, 31u64, 37u64, 41u64, 43u64, 47u64, 53u64, 59u64, 61u64, 67u64, 71u64, 73u64, 79u64, 83u64, 89u64]);
    assert(93int % 3 == 0);
    assert(primes_below(94) =~= seq![2u64, 3u64, 5u64, 7u64, 11u64, 13u64, 17u64, 19u64, 23u64, 29u64, 31u64, 37u64, 41u64, 43u64, 47u64, 53u64, 59u64, 61u64, 67u64, 71u64, 73u64, 79u64, 83u64, 89u64]);
    assert(94int % 2 == 0);
    assert(primes_below(95) =~= seq![2u64, 3u64, 5u64, 7u64, 11u64, 13u64, 17u64, 19u64, 23u64, 29u64, 31u64, 37u64, 41u64, 43u64, 47u64, 53u64, 59u64, 61u64, 67u64, 71u64, 73u64, 79u64, 83u64, 89u64]);
    assert(95int % 5 == 0);
    assert(primes_below(96) =~= seq![2u64, 3u64, 5u64, 7u64, 11u64, 13u64, 17u64, 19u64, 23u64, 29u64, 31u64, 37u64, 41u64, 43u64, 47u64, 53u64, 59u64, 61u64, 67u64, 71u64, 73u64, 79u64, 83u64, 89u64]);
    assert(96int % 2 == 0);
    assert(primes_below(97) =~= seq![2u64, 3u64, 5u64, 7u64, 11u64, 13u64, 17u64, 19u64, 23u64, 29u64, 31u64, 37u64, 41u64, 43u64, 47u64, 53u64, 59u64, 61u64, 67u64, 71u64, 73u64, 79u64, 83u64, 89u64]);
    lemma_prime_below_121(97);
    assert(primes_below(98) =~= seq![2u64, 3u64, 5u64, 7u64, 11u64, 13u64, 17u64, 19u64, 23u64, 29u64, 31u64, 37u64, 41u64, 43u64, 47u64, 53u64, 59u64, 61u64, 67u64, 71u64, 73u64, 79u64, 83u64, 89u64, 97u64]);
    assert(98int % 2 == 0);
    assert(primes_below(99) =~= seq![2u64, 3u64, 5u64, 7u64, 11u64, 13u64, 17u64, 19u64, 23u64, 29u64, 31u64, 37u64, 41u64, 43u64, 47u64, 53u64, 59u64, 61u64, 67u64, 71u64, 73u64, 79u64, 83u64, 89u64, 97u64]);
    assert(99int % 3 == 0);
    assert(primes_below(100) =~= seq![2u64, 3u64, 5u64, 7u64, 11u64, 13u64, 17u64, 19u64, 23u64, 29u64, 31u64, 37u64, 41u64, 43u64, 47u64, 53u64, 59u64, 61u64, 67u64, 71u64, 73u64, 79u64, 83u64, 89u64, 97u64]);
}

/// The list of the primes below one hundred.
pub proof fn lemma_primes_below_hundred()
    ensures
        primes_below(100) == primes_below_hundred(),
        primes_below_hundred().len() == 25,
{
    lemma_primes_below_25();
    lemma_primes_below_50();
    lemma_primes_below_75();
    lemma_primes_below_100();
}

} // verus!
