use geonav::error::GeoError;
use geonav::matrix::{
    invert_matrix, matrix_times_vec, transpose, transpose_times_vec, unrotate,
};

#[test]
fn transpose_swaps_rows_and_columns() {
    let m = vec![1, 2, 3, 4, 5, 6, 7, 8, 9];
    assert_eq!(transpose(&m), vec![1, 4, 7, 2, 5, 8, 3, 6, 9]);
    assert_eq!(transpose(&transpose(&m)), m);
    let f = vec![0.5, -1.0, 2.0, 3.0, 4.0, 5.0, 6.0, 7.0, 8.0];
    assert_eq!(transpose(&f), vec![0.5, 3.0, 6.0, -1.0, 4.0, 7.0, 2.0, 5.0, 8.0]);
}

#[test]
fn matrix_times_vec_takes_rows() {
    let m: Vec<i64> = vec![1, 2, 3, 4, 5, 6, 7, 8, 9];
    let v: Vec<i64> = vec![1, 0, -2];
    assert_eq!(matrix_times_vec(&m, &v), vec![-5, -8, -11]);
    let f = vec![1.0, 2.0, 3.0, 4.0, 5.0, 6.0, 7.0, 8.0, 9.0];
    assert_eq!(matrix_times_vec(&f, &vec![0.5, 0.25, 1.0]), vec![4.0, 9.25, 14.5]);
}

#[test]
fn transpose_times_vec_takes_columns() {
    let m: Vec<i64> = vec![1, 2, 3, 4, 5, 6, 7, 8, 9];
    let v: Vec<i64> = vec![1, 0, -2];
    assert_eq!(transpose_times_vec(&m, &v), vec![-13, -14, -15]);
    assert_eq!(transpose_times_vec(&m, &v), matrix_times_vec(&transpose(&m), &v));
    let f = vec![1.0, 2.0, 3.0, 4.0, 5.0, 6.0, 7.0, 8.0, 9.0];
    assert_eq!(transpose_times_vec(&f, &vec![0.5, 0.25, 1.0]), vec![8.5, 10.25, 12.0]);
}

#[test]
fn invert_matrix_by_cofactors() {
    // Determinant 1, so the inverse is the adjugate and stays whole.
    let m: Vec<i64> = vec![1, 2, 3, 0, 1, 4, 5, 6, 0];
    assert_eq!(invert_matrix(&m, 0), Ok(vec![-24, 18, 5, 20, -15, -4, -5, 4, 1]));
    let f: Vec<f64> = vec![2.0, 0.0, 0.0, 0.0, 4.0, 0.0, 0.0, 0.0, 8.0];
    assert_eq!(
        invert_matrix(&f, 1e-12),
        Ok(vec![0.5, 0.0, 0.0, 0.0, 0.25, 0.0, 0.0, 0.0, 0.125])
    );
}

#[test]
fn invert_matrix_undoes_a_rotation() {
    let (s, c) = 0.3_f64.sin_cos();
    let rotation = vec![c, -s, 0.0, s, c, 0.0, 0.0, 0.0, 1.0];
    let inverse = invert_matrix(&rotation, 1e-12).unwrap();
    let v = vec![1.0, -2.0, 3.0];
    let back = matrix_times_vec(&inverse, &matrix_times_vec(&rotation, &v));
    for k in 0..3 {
        assert!((back[k] - v[k]).abs() < 1e-12);
    }
    // The inverse of a rotation is its transpose.
    let transposed = transpose(&rotation);
    for k in 0..9 {
        assert!((inverse[k] - transposed[k]).abs() < 1e-12);
    }
}

#[test]
fn invert_matrix_reports_a_singular_matrix() {
    let m: Vec<i64> = vec![1, 2, 3, 4, 5, 6, 7, 8, 9];
    assert_eq!(invert_matrix(&m, 0), Err(GeoError::SingularTransform));
    let zero = vec![0.0_f64; 9];
    assert_eq!(invert_matrix(&zero, 1e-12), Err(GeoError::SingularTransform));
    // A determinant of 1e-15 is no safer to divide by than zero.
    let tiny = vec![1e-5, 0.0, 0.0, 0.0, 1e-5, 0.0, 0.0, 0.0, 1e-5];
    assert_eq!(invert_matrix(&tiny, 1e-12), Err(GeoError::SingularTransform));
    let negative = vec![-1e-5, 0.0, 0.0, 0.0, 1e-5, 0.0, 0.0, 0.0, 1e-5];
    assert_eq!(invert_matrix(&negative, 1e-12), Err(GeoError::SingularTransform));
}

#[test]
fn invert_matrix_accepts_a_determinant_of_either_sign() {
    let mirror: Vec<i64> = vec![-1, 0, 0, 0, 1, 0, 0, 0, 1];
    assert_eq!(invert_matrix(&mirror, 0), Ok(vec![-1, 0, 0, 0, 1, 0, 0, 0, 1]));
    // With a tolerance of 1 a determinant of -1 is within it, and 2 is not.
    assert_eq!(invert_matrix(&mirror, 1), Err(GeoError::SingularTransform));
    let double: Vec<i64> = vec![2, 0, 0, 0, 1, 0, 0, 0, 1];
    assert_eq!(invert_matrix(&double, 1), Ok(vec![0, 0, 0, 0, 1, 0, 0, 0, 1]));
}

#[test]
fn invert_matrix_reports_a_determinant_that_is_no_number() {
    let m = vec![f64::NAN, 0.0, 0.0, 0.0, 1.0, 0.0, 0.0, 0.0, 1.0];
    assert_eq!(invert_matrix(&m, 1e-12), Err(GeoError::SingularTransform));
}

#[test]
fn unrotate_undoes_transpose_times_vec() {
    let m: Vec<i64> = vec![1, 2, 3, 0, 1, 4, 5, 6, 0];
    let v: Vec<i64> = vec![7, -8, 9];
    let turned = transpose_times_vec(&m, &v);
    assert_eq!(turned, vec![52, 60, -11]);
    assert_eq!(unrotate(&m, &turned, 0), Ok(v));

    let (s, c) = 2.5_f64.sin_cos();
    let rotation = vec![c, -s, 0.0, s, c, 0.0, 0.0, 0.0, 1.0];
    let v = vec![0.25, -4.0, 1e3];
    let back = unrotate(&rotation, &transpose_times_vec(&rotation, &v), 1e-12).unwrap();
    for k in 0..3 {
        assert!((back[k] - v[k]).abs() < 1e-12);
    }
}

#[test]
fn unrotate_reports_a_singular_matrix() {
    let m: Vec<i64> = vec![1, 2, 3, 4, 5, 6, 7, 8, 9];
    assert_eq!(unrotate(&m, &vec![1, 2, 3], 0), Err(GeoError::SingularTransform));
}
