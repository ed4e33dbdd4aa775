use reikna::arith::{icbrt, isqrt};
use reikna::bitset::Bitset;
use reikna::factor::{quick_factorize, quick_factorize_wsp, rho, MAX_SMALL_NUM};
use reikna::prime::{
    atkin, eratosthenes, factorize, factorize_wp, is_prime, next_prime, next_prime_checked,
    nth_prime, nth_prime_checked, prime_sieve, segmented_eratosthenes, SegmentedSieve,
    S_SIEVE_SIZE,
};
use reikna::prime_count::prime_count;

#[test]
fn the_two_sieve_families_agree() {
    for n in 0u64..=10 {
        assert_eq!(segmented_eratosthenes(n), atkin(n));
    }
    for n in [
        11u64, 24, 25, 48, 49, 50, 59, 60, 61, 120, 121, 122, 168, 169, 289, 360, 361, 1000,
        4096, 65535, 65536, 65537, 100_000, 131_071, 131_072, 131_073, 200_003,
    ] {
        assert_eq!(segmented_eratosthenes(n), atkin(n));
        assert_eq!(eratosthenes(n), atkin(n));
    }
}

#[test]
fn every_sieve_holds_what_is_prime_accepts() {
    let max: u64 = 70_000;
    let lists = vec![atkin(max), eratosthenes(max), segmented_eratosthenes(max), prime_sieve(max)];
    for list in lists {
        let mut next = 0;
        for n in 0..=max {
            let listed = next < list.len() && list[next] == n;
            assert_eq!(is_prime(n), listed);
            if listed {
                next += 1;
            }
        }
        assert_eq!(next, list.len());
    }
}

#[test]
fn quick_factorize_round_trip() {
    let mut values: Vec<u64> = (2..3000).collect();
    values.extend_from_slice(&[
        65_535,
        65_536,
        65_537,
        65_521 * 65_521,
        4_294_967_291,
        4_294_967_291 * 4_294_967_279,
        600_851_475_143,
        15_814_272_409_530_912_054,
        18_446_744_073_709_551_615,
        18_446_744_073_709_551_557,
    ]);
    for n in values {
        let factors = quick_factorize(n);
        let mut product: u64 = 1;
        for f in factors.iter() {
            assert!(is_prime(*f));
            product = product.checked_mul(*f).unwrap();
        }
        assert_eq!(product, n);
        for pair in factors.windows(2) {
            assert!(pair[0] <= pair[1]);
        }
    }
}

#[test]
fn factorisations_named_exactly() {
    assert_eq!(factorize(200), vec![2, 2, 2, 5, 5]);
    assert_eq!(quick_factorize(65_536), vec![2; 16]);
    assert_eq!(
        quick_factorize(9_223_372_036_854_775_807),
        vec![7, 7, 73, 127, 337, 92737, 649657]
    );
    assert_eq!(
        quick_factorize(15_814_272_409_530_912_054),
        vec![2, 3, 3, 23, 23, 61, 10007, 2720741641]
    );
    let sprimes = prime_sieve(MAX_SMALL_NUM);
    assert_eq!(quick_factorize_wsp(65_536, &sprimes), vec![2; 16]);
    assert_eq!(
        quick_factorize_wsp(9_223_372_036_854_775_807, &sprimes),
        vec![7, 7, 73, 127, 337, 92737, 649657]
    );
}

#[test]
fn is_prime_named_exactly() {
    assert_eq!(is_prime(97), true);
    assert_eq!(is_prime(128), false);
    assert_eq!(is_prime(0), false);
    assert_eq!(is_prime(1), false);
    assert_eq!(is_prime(64), false);
    assert_eq!(is_prime(113), true);
    assert_eq!(is_prime(25), false);
    assert_eq!(is_prime(49), false);
    assert_eq!(is_prime(4_294_967_291), true);
    assert_eq!(is_prime(4_294_967_295), false);
    assert_eq!(is_prime(18_446_744_073_709_551_557), true);
    assert_eq!(is_prime(18_446_744_073_709_551_615), false);
    assert_eq!(is_prime(4_294_967_291 * 4_294_967_291), false);
}

#[test]
fn next_and_nth_prime_named_exactly() {
    assert_eq!(next_prime(5), 7);
    assert_eq!(next_prime(95), 97);
    assert_eq!(next_prime(96), 97);
    assert_eq!(next_prime(97), 101);
    assert_eq!(next_prime(18_446_744_073_709_551_533), 18_446_744_073_709_551_557);
    assert_eq!(nth_prime(0), 2);
    assert_eq!(nth_prime(3), 7);
    assert_eq!(nth_prime(24), 97);
    assert_eq!(nth_prime(6541), 65_521);
    assert_eq!(nth_prime(6542), 65_537);
    assert_eq!(nth_prime(1_000_000), 15_485_867);
}

#[test]
fn prime_count_named_exactly() {
    assert_eq!(prime_count(1000), 168);
    assert_eq!(prime_count(10000), 1229);
}

#[test]
fn prime_sieve_twice_is_the_same_list() {
    for max in [0u64, 1, 2, 100, 1000, 65_535, 65_536, 100_000] {
        let first = prime_sieve(max);
        let second = prime_sieve(max);
        assert_eq!(first, second);
    }
}

#[test]
fn empty_results_at_the_boundary() {
    assert_eq!(prime_sieve(0), Vec::<u64>::new());
    assert_eq!(prime_sieve(1), Vec::<u64>::new());
    assert_eq!(factorize(0), Vec::<u64>::new());
    assert_eq!(factorize(1), Vec::<u64>::new());
    assert_eq!(atkin(0), Vec::<u64>::new());
    assert_eq!(atkin(1), Vec::<u64>::new());
    assert_eq!(eratosthenes(1), Vec::<u64>::new());
    assert_eq!(segmented_eratosthenes(1), Vec::<u64>::new());
    assert_eq!(quick_factorize(0), Vec::<u64>::new());
    assert_eq!(quick_factorize(1), Vec::<u64>::new());
}

#[test]
fn small_sieves_named_exactly() {
    assert_eq!(atkin(2), vec![2]);
    assert_eq!(atkin(3), vec![2, 3]);
    assert_eq!(atkin(4), vec![2, 3]);
    assert_eq!(atkin(5), vec![2, 3, 5]);
    assert_eq!(atkin(6), vec![2, 3, 5]);
    assert_eq!(atkin(7), vec![2, 3, 5, 7]);
    assert_eq!(atkin(20), vec![2, 3, 5, 7, 11, 13, 17, 19]);
    assert_eq!(eratosthenes(20), vec![2, 3, 5, 7, 11, 13, 17, 19]);
    assert_eq!(segmented_eratosthenes(10), vec![2, 3, 5, 7]);
    assert_eq!(prime_sieve(20), vec![2, 3, 5, 7, 11, 13, 17, 19]);
    assert_eq!(prime_sieve(1_000_000).len(), 78_498);
    assert_eq!(*prime_sieve(1_000_000).last().unwrap(), 999_983);
}

#[test]
fn prime_sieve_changes_sieve_at_the_window_width() {
    assert_eq!(S_SIEVE_SIZE, 65_536);
    assert_eq!(prime_sieve(S_SIEVE_SIZE - 1), atkin(S_SIEVE_SIZE - 1));
    assert_eq!(prime_sieve(S_SIEVE_SIZE), segmented_eratosthenes(S_SIEVE_SIZE));
    assert_eq!(prime_sieve(S_SIEVE_SIZE).len(), 6542);
}

#[test]
fn segmented_sieve_window_by_window() {
    let max = 3 * S_SIEVE_SIZE + 17;
    let mut sieve = SegmentedSieve::new(max);
    let mut windows = 0;
    let mut found: Vec<u64> = vec![2];
    while !sieve.finished() {
        let window = sieve.next_window();
        for p in window.iter() {
            assert!(*p >= windows * S_SIEVE_SIZE);
            assert!(*p < (windows + 1) * S_SIEVE_SIZE);
            assert!(*p <= max);
        }
        found.extend_from_slice(&window);
        windows += 1;
    }
    assert_eq!(windows, 4);
    assert_eq!(found, eratosthenes(max));
}

#[test]
fn segmented_sieve_of_a_short_range() {
    let mut sieve = SegmentedSieve::new(2);
    assert!(!sieve.finished());
    assert_eq!(sieve.next_window(), Vec::<u64>::new());
    assert!(sieve.finished());
    let mut sieve = SegmentedSieve::new(30);
    assert_eq!(sieve.next_window(), vec![3, 5, 7, 11, 13, 17, 19, 23, 29]);
    assert!(sieve.finished());
}

#[test]
fn bitset_reads_what_was_set() {
    let mut bits = Bitset::new(20);
    for i in 0..=20 {
        assert_eq!(bits.read(i), false);
    }
    bits.set(0, true);
    bits.set(7, true);
    bits.set(8, true);
    bits.set(20, true);
    bits.set(8, true);
    assert_eq!(bits.collect_true_indices(), vec![0, 7, 8, 20]);
    bits.flip(7);
    bits.flip(9);
    assert_eq!(bits.read(7), false);
    assert_eq!(bits.read(9), true);
    assert_eq!(bits.collect_true_indices(), vec![0, 8, 9, 20]);
    bits.set(9, false);
    bits.set(10, false);
    assert_eq!(bits.collect_true_indices(), vec![0, 8, 20]);
    bits.one();
    assert_eq!(bits.collect_true_indices(), (0..=20).collect::<Vec<u64>>());
    let empty = Bitset::new(0);
    assert_eq!(empty.read(0), false);
    assert_eq!(empty.collect_true_indices(), Vec::<u64>::new());
}

#[test]
fn trial_division_follows_the_list() {
    assert_eq!(factorize_wp(10, &[5, 2]), vec![5, 2]);
    assert_eq!(factorize_wp(12, &[2]), vec![2, 2]);
    assert_eq!(factorize_wp(12, &[3, 2, 5]), vec![3, 2, 2]);
    assert_eq!(factorize_wp(7, &[2, 3, 5]), Vec::<u64>::new());
    assert_eq!(factorize_wp(14, &[2, 3]), vec![2]);
    assert_eq!(factorize_wp(36, &[4, 3]), vec![4, 3, 3]);
    assert_eq!(factorize_wp(10, &[11, 2, 5]), Vec::<u64>::new());
    assert_eq!(factorize_wp(0, &[2, 3]), Vec::<u64>::new());
    assert_eq!(factorize_wp(1, &[2, 3]), Vec::<u64>::new());
    assert_eq!(factorize_wp(360, &[]), Vec::<u64>::new());
    assert_eq!(quick_factorize_wsp(12, &[3, 2]), vec![3, 2, 2]);
}

#[test]
fn rho_proposes_divisors() {
    assert_eq!(rho(0, 2), 1);
    assert_eq!(rho(0, 77), 1);
    assert_eq!(rho(15, 128), 1);
    for val in [15u64, 21, 8051, 10403, 1_000_036_000_099, 4_294_967_291 * 4_294_967_279] {
        let mut found = false;
        let seeds = if val < 1 << 32 { 40 } else { 6 };
        for seed in 2..seeds {
            let fac = rho(val, seed);
            assert!(fac >= 1 && fac <= val);
            assert_eq!(val % fac, 0);
            assert_eq!(rho(val, seed), fac);
            if fac != 1 && fac != val {
                found = true;
            }
        }
        assert!(found);
    }
    for seed in 2..20 {
        let fac = rho(1_000_003, seed);
        assert!(fac == 1 || fac == 1_000_003);
    }
}

#[test]
fn integer_roots_named_exactly() {
    assert_eq!(isqrt(0), 0);
    assert_eq!(isqrt(1), 1);
    assert_eq!(isqrt(15), 3);
    assert_eq!(isqrt(16), 4);
    assert_eq!(isqrt(17), 4);
    assert_eq!(isqrt(4_294_967_295 * 4_294_967_295), 4_294_967_295);
    assert_eq!(isqrt(4_294_967_295 * 4_294_967_295 - 1), 4_294_967_294);
    assert_eq!(isqrt(u64::MAX), 4_294_967_295);
    assert_eq!(icbrt(0), 0);
    assert_eq!(icbrt(7), 1);
    assert_eq!(icbrt(8), 2);
    assert_eq!(icbrt(26), 2);
    assert_eq!(icbrt(27), 3);
    assert_eq!(icbrt(2_642_245 * 2_642_245 * 2_642_245), 2_642_245);
    assert_eq!(icbrt(u64::MAX), 2_642_245);
}

#[test]
fn checked_searches_say_when_there_is_no_prime() {
    assert_eq!(next_prime_checked(0), Some(2));
    assert_eq!(next_prime_checked(95), Some(97));
    assert_eq!(next_prime_checked(1_299_821), Some(1_299_827));
    assert_eq!(next_prime_checked(u64::MAX), None);
    assert_eq!(next_prime_checked(u64::MAX - 1), None);
    assert_eq!(nth_prime_checked(0), Some(2));
    assert_eq!(nth_prime_checked(5), Some(13));
    assert_eq!(nth_prime_checked(100_000), Some(1_299_721));
}
