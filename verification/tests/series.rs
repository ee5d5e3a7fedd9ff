use geonav::series::{horner_of, polynomial2_of, polynomial_of, sine_series_of, whole_of};

#[test]
fn whole_numbers_convert_exactly() {
    for v in [0_i64, 1, -1, 175, 2147483647, -2147483648] {
        assert_eq!(whole_of::<i64>(v), v);
        assert_eq!(whole_of::<f64>(v), v as f64);
    }
    // Beyond 32 bits the number is put together from three digits.
    for v in [2147483648_i64, 2972712960, 9303339907, -2147483649, -9303339907, 1 << 52] {
        assert_eq!(whole_of::<i64>(v), v);
        assert_eq!(whole_of::<f64>(v), v as f64);
        assert_eq!(whole_of::<i128>(v), v as i128);
    }
    assert_eq!(whole_of::<i128>(i64::MAX), i64::MAX as i128);
    assert_eq!(whole_of::<i128>(i64::MIN), i64::MIN as i128);
}

#[test]
fn polynomial_skips_absent_entries() {
    // 1 + 2 x + 3 x^3 at x = 10.
    let row = [[1, 1], [2, 1], [0, 1], [3, 1]];
    assert_eq!(polynomial_of(&row, &vec![10_i64, 100, 1000]), Some(3021));
    // 1/2 - 3/4 x^2 at x = 2.
    let halves = [[1, 2], [0, 1], [-3, 4]];
    assert_eq!(polynomial_of(&halves, &vec![2.0, 4.0]), Some(-2.5));
    // No entry, no value.
    assert_eq!(polynomial_of(&[[0, 1], [0, 1]], &vec![1.5]), None);
    let none: [[i64; 2]; 0] = [];
    assert_eq!(polynomial_of(&none, &Vec::<f64>::new()), None);
}

#[test]
fn polynomial_in_two_parameters() {
    // (1 + 2 n) + (3 n^2) e + (5) e^2 at n = 10, e = 7.
    let rows = [
        [[1, 1], [2, 1], [0, 1]],
        [[0, 1], [0, 1], [3, 1]],
        [[5, 1], [0, 1], [0, 1]],
    ];
    assert_eq!(
        polynomial2_of(&rows, &vec![10_i64, 100], &vec![7, 49]),
        Some(21 + 300 * 7 + 5 * 49)
    );
    let empty = [[[0, 1]], [[0, 1]]];
    assert_eq!(polynomial2_of(&empty, &Vec::<i64>::new(), &vec![7_i64]), None);
}

#[test]
fn sine_series_weighs_each_harmonic_by_its_sine() {
    // ((1/2) e) s1 + ((1/4) e^2) s2 with e = 2: s1 + s2.
    let table = [[[[0, 1]], [[1, 2]], [[0, 1]]], [[[0, 1]], [[0, 1]], [[1, 4]]]];
    let none = Vec::<f64>::new();
    assert_eq!(
        sine_series_of(&table, &none, &vec![2.0, 4.0], &vec![0.25, -3.0]),
        Some(-2.75)
    );
    // A harmonic without entries adds nothing, not even a zero.
    let second_only = [[[[0, 1]], [[0, 1]]], [[[0, 1]], [[3, 1]]]];
    assert_eq!(
        sine_series_of(&second_only, &none, &vec![5.0], &vec![f64::NAN, 2.0]),
        Some(30.0)
    );
}

#[test]
fn horner_sums_from_the_highest_term_down() {
    // 4 - 3 x + 2 x^2 + x^3 at x = 5.
    assert_eq!(horner_of(&[4, -3, 2, 1], 5_i64), 4 - 15 + 50 + 125);
    assert_eq!(horner_of(&[7], 5_i64), 7);
    assert_eq!(horner_of(&[1, 1, 1], 0.5), 1.75);
}
