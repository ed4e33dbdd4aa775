use reikna::factor::{
    coprime, gcd, gcd_all, lcm, lcm_all, perfect_cube, perfect_square, quick_factorize,
    GOOD_BYTES,
};
use reikna::prime::is_prime;

#[test]
fn t_gcd() {
    assert_eq!(gcd(0, 0), 0);
    assert_eq!(gcd(0, 10), 10);
    assert_eq!(gcd(10, 0), 10);
    assert_eq!(gcd(24, 12), 12);
    assert_eq!(gcd(8, 12), 4);
    assert_eq!(gcd(5125215, 890898), 3);
    assert_eq!(gcd(5125215, 890898), 3);
}

#[test]
fn t_gcd_all() {
    assert_eq!(gcd_all(&vec![]), 0);
    assert_eq!(gcd_all(&vec![0, 0, 0]), 0);
    assert_eq!(gcd_all(&vec![0, 1, 0, 1]), 1);
    assert_eq!(gcd_all(&vec![0, 2, 6, 8]), 2);
    assert_eq!(gcd_all(&vec![1, 2, 3, 4]), 1);
    assert_eq!(gcd_all(&vec![9, 27, 81]), 9);
    assert_eq!(gcd_all(&vec![2, 4, 6, 8]), 2);
}

#[test]
fn t_coprime() {
    assert_eq!(coprime(0, 0), false);
    assert_eq!(coprime(1, 0), true);
    assert_eq!(coprime(1, 10), true);
    assert_eq!(coprime(4, 9), true);
    assert_eq!(coprime(12, 9), false);
}

#[test]
fn t_lcm() {
    assert_eq!(lcm(0, 0), 0);
    assert_eq!(lcm(0, 15), 0);
    assert_eq!(lcm(5, 2), 10);
    assert_eq!(lcm(13, 5), 65);
    assert_eq!(lcm(1, 35), 35);
}

#[test]
fn t_lcm_all() {
    assert_eq!(lcm_all(&vec![]), 1);
    assert_eq!(lcm_all(&vec![0, 0, 0]), 0);
    assert_eq!(lcm_all(&vec![0, 1, 2, 3]), 0);
    assert_eq!(lcm_all(&vec![1, 2, 3, 4]), 12);
    assert_eq!(lcm_all(&vec![2, 2, 2]), 2);
}

#[test]
fn t_perfect_square() {
    assert_eq!(perfect_square(0), true);
    assert_eq!(perfect_square(1), true);
    assert_eq!(perfect_square(2), false);
    assert_eq!(perfect_square(7), false);
    assert_eq!(perfect_square(15), false);
    assert_eq!(perfect_square(144), true);
    assert_eq!(perfect_square(145), false);
    assert_eq!(perfect_square(1_073_741_824), true);
    assert_eq!(perfect_square(1_073_741_823), false);
    assert_eq!(perfect_square(4_611_686_018_427_387_904), true);
    assert_eq!(perfect_square(4_611_686_018_427_387_905), false);
}

#[test]
fn t_perfect_cube() {
    assert_eq!(perfect_cube(0), true);
    assert_eq!(perfect_cube(1), true);
    assert_eq!(perfect_cube(3), false);
    assert_eq!(perfect_cube(8), true);
    assert_eq!(perfect_cube(27), true);
    assert_eq!(perfect_cube(28), false);
    assert_eq!(perfect_cube(125), true);
    assert_eq!(perfect_cube(126), false);
    assert_eq!(perfect_cube(262_144), true);
    assert_eq!(perfect_cube(262_143), false);
    assert_eq!(perfect_cube(8_589_934_592), true);
    assert_eq!(perfect_cube(8_589_934_593), false);
    assert_eq!(perfect_cube(11_529_2150_460_6846_976), true);
    assert_eq!(perfect_cube(11_529_2150_460_6846_975), false);
}

#[test]
fn t_quick_factorize() {
    assert_eq!(quick_factorize(0), Vec::new());
    assert_eq!(quick_factorize(1), Vec::new());

    let test_vals = vec![
        125,
        97,
        168,
        256,
        1789,
        34567,
        97020,
        103685,
        653123,
        4593140,
        13461780,
        982357223,
        72314573234,
        517825353462,
        8735263124568,
        128735128735049,
        1302131490435579,
        90977992317385808,
        (2f64.powf(63.0)) as u64 - 1,
    ];

    for val in test_vals.iter() {
        let factors = quick_factorize(*val);

        let prod: u64 = factors.iter().fold(1, |acc, x| acc * *x);
        assert_eq!(*val, prod);

        for fac in factors.iter() {
            assert_eq!(is_prime(*fac), true);
        }
    }
}

#[test]
fn gcd_and_lcm_documented_values() {
    assert_eq!(gcd(76, 54), 2);
    assert_eq!(gcd(18, 24), 6);
    assert_eq!(gcd(5, 2), 1);
    assert_eq!(gcd(54, 76), 2);
    assert_eq!(gcd(u64::MAX, u64::MAX - 1), 1);
    assert_eq!(gcd_all(&vec![16, 4, 32]), 4);
    assert_eq!(gcd_all(&vec![3, 10, 18]), 1);
    assert_eq!(coprime(8, 4), false);
    assert_eq!(coprime(9, 8), true);
    assert_eq!(lcm(4, 6), 12);
    assert_eq!(lcm(6, 4), 12);
    assert_eq!(lcm(15, 0), 0);
    assert_eq!(lcm(4_294_967_295, 4_294_967_295), 4_294_967_295);
    assert_eq!(lcm_all(&vec![8, 9, 21]), 504);
    assert_eq!(lcm_all(&vec![4, 7, 12, 21, 42]), 84);
}

#[test]
fn perfect_powers_documented_values() {
    assert_eq!(perfect_square(435), false);
    assert_eq!(perfect_square(81), true);
    assert_eq!(perfect_square(64), true);
    assert_eq!(perfect_square(18_446_744_065_119_617_025), true);
    assert_eq!(perfect_square(18_446_744_073_709_551_615), false);
    assert_eq!(perfect_cube(216), true);
    assert_eq!(perfect_cube(9), false);
    assert_eq!(perfect_cube(18_446_724_184_312_856_125), true);
    assert_eq!(perfect_cube(18_446_744_073_709_551_615), false);
    for r in 0u64..2000 {
        assert!(perfect_square(r * r));
        assert!(perfect_cube(r * r * r));
        if r > 1 {
            assert!(!perfect_square(r * r - 1));
            assert!(!perfect_square(r * r + 1));
            assert!(!perfect_cube(r * r * r + 1));
        }
    }
}

#[test]
fn lcm_is_the_least_common_multiple() {
    for a in 1u64..40 {
        for b in 1u64..40 {
            let m = lcm(a, b);
            assert_eq!(m % a, 0);
            assert_eq!(m % b, 0);
            for c in 1..m {
                assert!(c % a != 0 || c % b != 0);
            }
            assert_eq!(gcd(a, b) * m, a * b);
        }
    }
}

#[test]
fn good_bytes_are_the_low_bytes_of_squares() {
    let mut seen = [false; 256];
    for r in 0u64..256 {
        seen[((r * r) & 0xff) as usize] = true;
    }
    for b in 0..256 {
        assert_eq!(GOOD_BYTES[b], seen[b]);
    }
    assert_eq!(GOOD_BYTES.iter().filter(|g| **g).count(), 44);
}
