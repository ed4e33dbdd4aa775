use reikna::partition::{part, part_wc, MAX_PART};

#[test]
fn t_part() {
    assert_eq!(part(0), 1);
    assert_eq!(part(1), 1);
    assert_eq!(part(2), 2);
    assert_eq!(part(3), 3);
    assert_eq!(part(4), 5);
    assert_eq!(part(5), 7);
    assert_eq!(part(100), 190569292);

    let mut cache: Vec<u64> = vec![0; 101];
    assert_eq!(part_wc(100, &mut cache), 190569292);
    assert_eq!(part_wc(5, &mut cache), 7);
    assert_eq!(part_wc(2, &mut cache), 2);
    assert_eq!(part_wc(1, &mut cache), 1);
    assert_eq!(part_wc(4, &mut cache), 5);
    assert_eq!(part_wc(0, &mut cache), 1);
    assert_eq!(part_wc(3, &mut cache), 3);

    part(MAX_PART);
}

#[test]
fn part_of_the_greatest_argument() {
    assert_eq!(part(MAX_PART), 9725512513742021729);
    assert_eq!(part(200), 3972999029388);
}

#[test]
fn part_wc_of_a_negative_number_is_zero() {
    let mut cache: Vec<u64> = vec![0; 4];
    assert_eq!(part_wc(-1, &mut cache), 0);
    assert_eq!(part_wc(-7, &mut cache), 0);
    assert_eq!(cache, vec![0; 4]);
}

#[test]
fn part_wc_fills_its_table() {
    let mut cache: Vec<u64> = vec![0; 11];
    assert_eq!(part_wc(10, &mut cache), 42);
    assert_eq!(cache[10], 42);
    assert_eq!(cache[9], 30);
    assert_eq!(cache[0], 0);
}

#[test]
fn part_wc_keeps_filled_cells() {
    let mut cache: Vec<u64> = vec![0; 31];
    assert_eq!(part_wc(20, &mut cache), 627);
    let filled = cache.clone();
    assert_eq!(part_wc(30, &mut cache), 5604);
    assert_eq!(cache[30], 5604);
    for i in 0..31 {
        if filled[i] != 0 {
            assert_eq!(cache[i], filled[i]);
        }
    }
    let again = cache.clone();
    assert_eq!(part_wc(30, &mut cache), 5604);
    assert_eq!(cache, again);
}
