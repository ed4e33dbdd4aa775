use reikna::prime::prime_sieve;
use reikna::prime_count::{
    lehmer, num_below, phi, prime_count, prime_count_all, PhiCache, PI_SYMBOL,
};

#[test]
fn t_prime_count() {
    assert_eq!(prime_count(0), 0);
    assert_eq!(prime_count(1), 0);
    assert_eq!(prime_count(2), 1);
    assert_eq!(prime_count(5), 3);
    assert_eq!(prime_count(10), 4);
    assert_eq!(prime_count(100), 25);
    assert_eq!(prime_count(1_000_000), 78_498);
    assert_eq!(prime_count(10_000_000), 664_579);
}

#[test]
fn t_prime_count_all() {
    assert_eq!(prime_count_all(&vec![0; 0]), vec![0; 0]);
    assert_eq!(prime_count_all(&vec![1, 2, 3, 4]), vec![0, 1, 2, 2]);
    assert_eq!(prime_count_all(&vec![10, 100, 1_000]), vec![4, 25, 168]);
    assert_eq!(prime_count_all(&vec![1, 2, 3, 4, 5, 6]).len(), 6);
}

#[test]
fn prime_count_of_powers_of_ten() {
    assert_eq!(prime_count(1_000), 168);
    assert_eq!(prime_count(10_000), 1_229);
    assert_eq!(prime_count(100_000), 9_592);
}

#[test]
fn prime_count_agrees_with_the_sieve() {
    for x in [99u64, 100, 101, 120, 121, 127, 168, 169, 1000, 4095, 4096, 4097, 65535, 65536, 100003] {
        assert_eq!(prime_count(x), prime_sieve(x).len() as u64);
    }
}

#[test]
fn prime_count_all_keeps_the_order_of_its_input() {
    assert_eq!(
        prime_count_all(&vec![1_000_000, 7, 0, 100_000, 1_000_000, 97]),
        vec![78_498, 4, 0, 9_592, 78_498, 25]
    );
}

#[test]
fn phi_counts_the_numbers_that_no_small_prime_divides() {
    let primes = prime_sieve(100);
    let mut cache = PhiCache::new();
    assert_eq!(phi(100, 0, &primes, &mut cache), 100);
    assert_eq!(phi(100, 1, &primes, &mut cache), 50);
    assert_eq!(phi(100, 2, &primes, &mut cache), 33);
    assert_eq!(phi(100, 3, &primes, &mut cache), 26);
    assert_eq!(phi(100, 3, &primes, &mut cache), 26);
    assert_eq!(phi(0, 3, &primes, &mut cache), 0);
    assert_eq!(phi(5, 3, &primes, &mut cache), 1);
    assert_eq!(phi(2000, 4, &primes, &mut cache), 458);
}

#[test]
fn lehmer_counts_with_a_shared_table() {
    let primes = prime_sieve(1001);
    let mut cache = PhiCache::new();
    assert_eq!(lehmer(1_000_000, &primes, &mut cache), 78_498);
    assert_eq!(lehmer(500, &primes, &mut cache), 95);
    assert_eq!(lehmer(50, &primes, &mut cache), 15);
}

#[test]
fn num_below_finds_the_first_greater_entry() {
    let primes = prime_sieve(30);
    assert_eq!(num_below(1, &primes), 0);
    assert_eq!(num_below(2, &primes), 1);
    assert_eq!(num_below(10, &primes), 4);
    assert_eq!(num_below(29, &primes), 10);
    assert_eq!(num_below(1000, &primes), 10);
}

#[test]
fn prime_count_all_agrees_with_counting() {
    let data: Vec<u64> = (0..6000).collect();
    let counts = prime_count_all(&data);
    let primes = prime_sieve(6000);
    let mut expected = 0;
    let mut next = 0;
    for x in 0..6000u64 {
        if next < primes.len() && primes[next] == x {
            expected += 1;
            next += 1;
        }
        assert_eq!(counts[x as usize], expected);
    }
}

#[test]
fn pi_symbol_is_kept() {
    assert_eq!(PI_SYMBOL.chars().collect::<Vec<char>>(), vec!['\u{cf}', '\u{20ac}']);
}

#[test]
fn prime_count_steps_at_the_primes() {
    let mut before = prime_count(99);
    for x in 100u64..400 {
        let count = prime_count(x);
        let prime = (2..x).all(|d| x % d != 0);
        assert_eq!(count, before + if prime { 1 } else { 0 });
        before = count;
    }
    assert_eq!(prime_count(4_294_967_296), 203_280_221);
}

#[test]
fn lehmer_with_a_longer_list_of_primes() {
    let primes = prime_sieve(5000);
    let mut cache = PhiCache::new();
    assert_eq!(lehmer(100, &primes, &mut cache), 25);
    assert_eq!(lehmer(4999, &primes, &mut cache), 669);
    assert_eq!(lehmer(5000, &primes, &mut cache), 669);
    assert_eq!(lehmer(1_000_000, &primes, &mut cache), 78_498);
    assert_eq!(lehmer(24_999_999, &primes, &mut cache), 1_565_927);
}
