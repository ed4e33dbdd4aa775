use reikna::continued_fraction::{
    e, expand_fraction, expand_fraction_ntimes, square_root, to_string,
};

#[test]
fn t_square_root() {
    assert_eq!(square_root(0), vec![0]);
    assert_eq!(square_root(1), vec![1]);
    assert_eq!(square_root(2), vec![1, 2]);
    assert_eq!(square_root(4), vec![2]);
    assert_eq!(square_root(5), vec![2, 4]);
    assert_eq!(square_root(10), vec![3, 6]);
    assert_eq!(square_root(14), vec![3, 1, 2, 1, 6]);
    assert_eq!(square_root(17), vec![4, 8]);
    assert_eq!(square_root(20), vec![4, 2, 8]);
}

#[test]
fn t_e() {
    assert_eq!(e(1), vec![2]);
    assert_eq!(e(2), vec![2, 1]);
    assert_eq!(e(3), vec![2, 1, 2]);
    assert_eq!(e(4), vec![2, 1, 2, 1]);
    assert_eq!(e(10), vec![2, 1, 2, 1, 1, 4, 1, 1, 6, 1]);
}

#[test]
fn t_expand_fraction() {
    assert_eq!(expand_fraction_ntimes(&square_root(4), 1), (2, 1));
    assert_eq!(expand_fraction_ntimes(&square_root(2), 1), (7, 5));
    assert_eq!(expand_fraction_ntimes(&square_root(2), 2), (17, 12));
    assert_eq!(expand_fraction_ntimes(&square_root(5), 1), (38, 17));
}

#[test]
fn t_to_string() {
    assert_eq!(to_string(&vec![]), "[]".to_string());
    assert_eq!(to_string(&vec![17]), "[17]".to_string());
    assert_eq!(to_string(&vec![1, 2, 3]), "[1; 2, 3]".to_string());
}

#[test]
fn continued_fraction_documented_values() {
    assert_eq!(square_root(19), vec![4, 2, 1, 3, 1, 2, 8]);
    assert_eq!(square_root(25), vec![5]);
    assert_eq!(e(8), vec![2, 1, 2, 1, 1, 4, 1, 1]);
    assert_eq!(expand_fraction_ntimes(&vec![1, 2], 3), (41, 29));
    assert_eq!(expand_fraction_ntimes(&vec![14], 2), (14, 1));
    assert_eq!(expand_fraction(&vec![2, 1]), (5, 2));
    assert_eq!(expand_fraction(&vec![3]), (3, 1));
    assert_eq!(to_string(&vec![1, 2, 3, 4]), "[1; 2, 3, 4]".to_string());
}

#[test]
fn to_string_writes_every_digit() {
    assert_eq!(to_string(&vec![0]), "[0]".to_string());
    assert_eq!(to_string(&vec![1234567890, 9, 10]), "[1234567890; 9, 10]".to_string());
    assert_eq!(
        to_string(&vec![18446744073709551615, 0]),
        "[18446744073709551615; 0]".to_string()
    );
}

#[test]
fn square_root_of_a_large_number_ends_with_twice_the_root() {
    let expansion = square_root(1_000_003);
    assert_eq!(expansion[0], 1000);
    assert_eq!(*expansion.last().unwrap(), 2000);
    let expansion = square_root(18446744073709551615);
    assert_eq!(expansion[0], 4294967295);
    assert_eq!(expansion, vec![4294967295, 1, 8589934590]);
}

#[test]
fn square_root_known_periods() {
    assert_eq!(square_root(3), vec![1, 1, 2]);
    assert_eq!(square_root(7), vec![2, 1, 1, 1, 4]);
    assert_eq!(square_root(13), vec![3, 1, 1, 1, 1, 6]);
    assert_eq!(square_root(23), vec![4, 1, 3, 1, 8]);
    assert_eq!(square_root(61), vec![7, 1, 4, 3, 1, 2, 2, 1, 3, 4, 1, 14]);
    assert_eq!(square_root(99), vec![9, 1, 18]);
}

#[test]
fn square_root_ends_with_twice_the_root_and_not_before() {
    for x in 0u64..3000 {
        let expansion = square_root(x);
        let root = expansion[0];
        assert!(root * root <= x && x < (root + 1) * (root + 1));
        if root * root == x {
            assert_eq!(expansion.len(), 1);
        } else {
            assert!(expansion.len() >= 2);
            assert_eq!(*expansion.last().unwrap(), 2 * root);
            for term in &expansion[1..expansion.len() - 1] {
                assert!(*term != 2 * root);
            }
        }
    }
}
