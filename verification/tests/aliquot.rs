use reikna::aliquot::{
    abundant_number, aliquot_sum, amicable_number, deficient_number, divisor_sum, perfect_number,
    quasiperfect_number, sociable_number, superperfect_number,
};

#[test]
fn t_aliquot() {
    assert_eq!(aliquot_sum(1), 0);
    assert_eq!(aliquot_sum(2), 1);
    assert_eq!(aliquot_sum(3), 1);
    assert_eq!(aliquot_sum(4), 3);
    assert_eq!(aliquot_sum(5), 1);
    assert_eq!(aliquot_sum(6), 6);
    assert_eq!(aliquot_sum(7), 1);
    assert_eq!(aliquot_sum(8), 7);
    assert_eq!(aliquot_sum(9), 4);

    assert_eq!(divisor_sum(1), 1);
    assert_eq!(divisor_sum(2), 3);
    assert_eq!(divisor_sum(3), 4);
    assert_eq!(divisor_sum(4), 7);
    assert_eq!(divisor_sum(5), 6);
    assert_eq!(divisor_sum(6), 12);
    assert_eq!(divisor_sum(7), 8);
    assert_eq!(divisor_sum(8), 15);
    assert_eq!(divisor_sum(9), 13);

    assert_eq!(aliquot_sum(97), 1);
    assert_eq!(aliquot_sum(100), 117);
}

#[test]
fn t_numerology() {
    assert!(abundant_number(12));
    assert!(abundant_number(20));
    assert!(abundant_number(42));
    assert!(abundant_number(88));
    assert!(abundant_number(96));
    assert!(abundant_number(945));
    assert!(!abundant_number(1));
    assert!(!abundant_number(946));

    assert!(perfect_number(6));
    assert!(perfect_number(28));
    assert!(perfect_number(496));
    assert!(perfect_number(8128));
    assert!(perfect_number(33550336));
    assert!(perfect_number(8589869056));
    assert!(!perfect_number(1));
    assert!(!perfect_number(8589869055));

    assert!(deficient_number(1));
    assert!(deficient_number(3));
    assert!(deficient_number(23));
    assert!(deficient_number(32));
    assert!(deficient_number(49));
    assert!(deficient_number(50));
    assert!(!deficient_number(88));

    assert!(superperfect_number(2));
    assert!(superperfect_number(4));
    assert!(superperfect_number(16));
    assert!(superperfect_number(64));
    assert!(superperfect_number(4096));
    assert!(superperfect_number(1073741824));
    assert!(!superperfect_number(1));
    assert!(!superperfect_number(1073741825));

    assert!(!quasiperfect_number(1));
    assert!(!quasiperfect_number(6));
    assert!(!quasiperfect_number(28));
    assert!(!quasiperfect_number(128));
    assert!(!quasiperfect_number(75312));
    assert!(!quasiperfect_number(891770));
}

#[test]
fn t_sociable() {
    assert!(amicable_number(220));
    assert!(amicable_number(284));
    assert!(amicable_number(5020));
    assert!(amicable_number(10744));
    assert!(!amicable_number(10745));

    assert!(sociable_number(8128));
    assert!(sociable_number(220));
    assert!(sociable_number(1264460));
    assert!(sociable_number(14316));
    assert!(!sociable_number(14313));
}

#[test]
fn aliquot_documented_values() {
    assert_eq!(aliquot_sum(28), 28);
    assert_eq!(aliquot_sum(29), 1);
    assert_eq!(divisor_sum(28), 56);
    assert_eq!(divisor_sum(29), 30);
    assert_eq!(abundant_number(24), true);
    assert_eq!(abundant_number(28), false);
    assert_eq!(perfect_number(8), false);
    assert_eq!(deficient_number(7), true);
    assert_eq!(deficient_number(28), false);
    assert_eq!(superperfect_number(5), false);
    assert_eq!(quasiperfect_number(145_688), false);
    assert_eq!(amicable_number(2620), true);
    assert_eq!(amicable_number(2621), false);
    assert_eq!(sociable_number(14288), true);
    assert_eq!(sociable_number(14289), false);
}

#[test]
fn aliquot_sum_counts_the_root_of_a_square_once() {
    assert_eq!(aliquot_sum(16), 1 + 2 + 4 + 8);
    assert_eq!(aliquot_sum(36), 1 + 2 + 3 + 4 + 6 + 9 + 12 + 18);
    assert_eq!(aliquot_sum(49), 1 + 7);
}

#[test]
fn aliquot_sum_is_the_sum_of_the_proper_divisors() {
    for n in 1u64..300 {
        let mut sum = 0;
        for d in 1..n {
            if n % d == 0 {
                sum += d;
            }
        }
        assert_eq!(aliquot_sum(n), sum);
    }
}
