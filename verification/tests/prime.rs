use reikna::prime::{
    atkin, eratosthenes, factorize, is_prime, next_prime, nth_prime, prime_sieve,
    segmented_eratosthenes,
};

#[test]
fn t_prime_sieves() {
    let primes = prime_sieve(0);
    assert_eq!(primes.len(), 0);

    let primes = prime_sieve(2);
    assert_eq!(primes.len(), 1);

    let primes = prime_sieve(100);
    assert_eq!(primes.len(), 25);

    assert_eq!(eratosthenes(0), atkin(0));
    assert_eq!(eratosthenes(1), atkin(1));
    assert_eq!(eratosthenes(2), atkin(2));
    assert_eq!(eratosthenes(3), atkin(3));
    assert_eq!(eratosthenes(4), atkin(4));
    assert_eq!(eratosthenes(5), atkin(5));
    assert_eq!(eratosthenes(6), atkin(6));
    assert_eq!(eratosthenes(10), atkin(10));
    assert_eq!(eratosthenes(1000), atkin(1000));

    assert_eq!(segmented_eratosthenes(0), atkin(0));
    assert_eq!(segmented_eratosthenes(1), atkin(1));
    assert_eq!(segmented_eratosthenes(2), atkin(2));
    assert_eq!(segmented_eratosthenes(3), atkin(3));
    assert_eq!(segmented_eratosthenes(4), atkin(4));
    assert_eq!(segmented_eratosthenes(5), atkin(5));
    assert_eq!(segmented_eratosthenes(6), atkin(6));
    assert_eq!(segmented_eratosthenes(10), atkin(10));
    assert_eq!(segmented_eratosthenes(100000), atkin(100000));
}

#[test]
fn t_is_prime() {
    assert_eq!(is_prime(0), false);
    assert_eq!(is_prime(1), false);
    assert_eq!(is_prime(10), false);
    assert_eq!(is_prime(1232), false);
    assert_eq!(is_prime(2), true);
    assert_eq!(is_prime(3), true);
    assert_eq!(is_prime(5), true);
    assert_eq!(is_prime(97), true);
    assert_eq!(is_prime(9973), true);
}

#[test]
fn t_factorize() {
    let vec: Vec<u64> = Vec::new();

    assert_eq!(factorize(0), vec);
    assert_eq!(factorize(1), vec);

    let vec: Vec<u64> = vec![7];
    assert_eq!(factorize(7), vec);

    let vec: Vec<u64> = vec![2, 2, 3];
    assert_eq!(factorize(12), vec);

    let vec: Vec<u64> = vec![2, 2, 5, 5];
    assert_eq!(factorize(100), vec);
}

#[test]
fn t_next_prime() {
    assert_eq!(next_prime(0), 2);
    assert_eq!(next_prime(1), 2);
    assert_eq!(next_prime(2), 3);
    assert_eq!(next_prime(3), 5);
    assert_eq!(next_prime(4), 5);
    assert_eq!(next_prime(15), 17);
    assert_eq!(next_prime(39), 41);
    assert_eq!(next_prime(98), 101);
    assert_eq!(next_prime(1_299_821), 1_299_827);
}

#[test]
fn t_nth_prime() {
    assert_eq!(nth_prime(0), 2);
    assert_eq!(nth_prime(1), 3);
    assert_eq!(nth_prime(2), 5);
    assert_eq!(nth_prime(3), 7);
    assert_eq!(nth_prime(4), 11);
    assert_eq!(nth_prime(5), 13);
    assert_eq!(nth_prime(25), 101);
    assert_eq!(nth_prime(1_000_000), 15_485_867);
}
