use reikna::totient::{totient, totient_all, PHI_SYMBOL};

#[test]
fn t_totient() {
    assert_eq!(totient(0), 1);
    assert_eq!(totient(1), 1);
    assert_eq!(totient(2), 1);
    assert_eq!(totient(3), 2);
    assert_eq!(totient(4), 2);
    assert_eq!(totient(5), 4);
    assert_eq!(totient(6), 2);
    assert_eq!(totient(7), 6);
    assert_eq!(totient(8), 4);
    assert_eq!(totient(9), 6);
    assert_eq!(totient(99), 60);
    assert_eq!(totient(10_809_483_705_896), 5_404_726_850_224);
}

#[test]
fn t_totient_all() {
    assert_eq!(totient_all(vec![]), vec![]);
    assert_eq!(totient_all(vec![45])[0], totient(45));
    assert_eq!(totient_all(vec![134]).len(), 1);
    assert_eq!(totient_all(vec![1, 2, 3, 4]).len(), 4);
    assert_eq!(totient_all(vec![10, 20, 30, 40]), vec![4, 8, 8, 16]);
}

#[test]
fn totient_documented_values() {
    assert_eq!(totient(17), 16);
    assert_eq!(totient(36), 12);
    assert_eq!(totient_all(vec![1, 2, 3]), vec![1, 1, 2]);
    assert_eq!(totient_all(vec![81]), vec![54]);
}

#[test]
fn totient_counts_the_numbers_without_a_common_divisor() {
    fn gcd(a: u64, b: u64) -> u64 {
        if b == 0 {
            a
        } else {
            gcd(b, a % b)
        }
    }
    for n in 3u64..400 {
        let count = (1..=n).filter(|k| gcd(*k, n) == 1).count() as u64;
        assert_eq!(totient(n), count);
    }
}

#[test]
fn phi_symbol_is_the_capital_letter() {
    assert_eq!(PHI_SYMBOL, "\u{3a6}");
}
