use reikna::figurate::{
    centered_figurate, figurate, general_figurate, general_pentagonal_number, hexagonal_number,
    pentagonal_number, square_number, triangular_number,
};

#[test]
fn t_figurate() {
    assert_eq!(figurate(3, 0), 0);
    assert_eq!(figurate(3, 1), 1);
    assert_eq!(figurate(3, 2), 3);
    assert_eq!(figurate(3, 10), 55);

    assert_eq!(figurate(4, 0), 0);
    assert_eq!(figurate(4, 1), 1);
    assert_eq!(figurate(4, 2), 4);
    assert_eq!(figurate(4, 10), 100);

    assert_eq!(figurate(5, 0), 0);
    assert_eq!(figurate(5, 1), 1);
    assert_eq!(figurate(5, 2), 5);
    assert_eq!(figurate(5, 10), 145);

    assert_eq!(figurate(9, 0), 0);
    assert_eq!(figurate(9, 1), 1);
    assert_eq!(figurate(9, 2), 9);
    assert_eq!(figurate(9, 10), 325);
}

#[test]
fn t_general_figurate() {
    assert_eq!(general_figurate(5, 0), 0);
    assert_eq!(general_figurate(5, 1), 1);
    assert_eq!(general_figurate(5, 2), 2);
    assert_eq!(general_figurate(5, 3), 5);
    assert_eq!(general_figurate(5, 4), 7);
    assert_eq!(general_figurate(5, 5), 12);
    assert_eq!(general_figurate(5, 6), 15);
}

#[test]
fn t_centered_figurate() {
    assert_eq!(centered_figurate(3, 1), 1);
    assert_eq!(centered_figurate(3, 2), 4);
    assert_eq!(centered_figurate(3, 4), 19);

    assert_eq!(centered_figurate(4, 1), 1);
    assert_eq!(centered_figurate(4, 2), 5);
    assert_eq!(centered_figurate(4, 4), 25);

    assert_eq!(centered_figurate(7, 1), 1);
    assert_eq!(centered_figurate(7, 2), 8);
    assert_eq!(centered_figurate(7, 4), 43);
}

#[test]
fn figurate_documented_values() {
    assert_eq!(vec![figurate(3, 3), figurate(45, 91), figurate(17, 5)], vec![6, 176176, 155]);
    assert_eq!(
        vec![centered_figurate(3, 3), centered_figurate(4, 9), centered_figurate(8, 5)],
        vec![10, 145, 81]
    );
    assert_eq!(triangular_number(5), 15);
    assert_eq!(square_number(5), 25);
    assert_eq!(pentagonal_number(5), 35);
    assert_eq!(hexagonal_number(5), 45);
    assert_eq!(general_pentagonal_number(5), 12);
}

#[test]
fn figurate_negative_index() {
    assert_eq!(figurate(5, -1), 2);
    assert_eq!(figurate(5, -2), 7);
    assert_eq!(general_figurate(5, -1), 0);
}
