use std::cell::Cell;

use geonav::error::GeoError;
use geonav::iteration::{iterate_until, MAX_REFINEMENTS};

#[test]
fn iteration_returns_the_first_accepted_state() {
    let r = iterate_until(0u32, |s: &u32| *s >= 3, |s: u32| s + 1, 50);
    assert_eq!(r, Ok(3));
}

#[test]
fn iteration_does_not_refine_an_accepted_start() {
    let refinements = Cell::new(0u32);
    let r = iterate_until(
        7u32,
        |s: &u32| *s == 7,
        |s: u32| {
            refinements.set(refinements.get() + 1);
            s + 1
        },
        50,
    );
    assert_eq!(r, Ok(7));
    assert_eq!(refinements.get(), 0);
}

#[test]
fn iteration_reports_non_convergence_past_the_cap() {
    let refinements = Cell::new(0u32);
    let tests = Cell::new(0u32);
    let r = iterate_until(
        0u64,
        |_: &u64| {
            tests.set(tests.get() + 1);
            false
        },
        |s: u64| {
            refinements.set(refinements.get() + 1);
            s + 1
        },
        MAX_REFINEMENTS,
    );
    assert_eq!(r, Err(GeoError::NonConvergence));
    assert_eq!(MAX_REFINEMENTS, 50);
    assert_eq!(refinements.get(), 50);
    assert_eq!(tests.get(), 51);
}

#[test]
fn iteration_accepts_the_last_refinement_it_may_make() {
    assert_eq!(iterate_until(0u32, |s: &u32| *s >= 5, |s: u32| s + 1, 5), Ok(5));
    assert_eq!(
        iterate_until(0u32, |s: &u32| *s >= 6, |s: u32| s + 1, 5),
        Err(GeoError::NonConvergence)
    );
}

#[test]
fn iteration_without_refinements_only_tests_the_start() {
    assert_eq!(iterate_until(1u32, |s: &u32| *s == 1, |s: u32| s + 1, 0), Ok(1));
    assert_eq!(
        iterate_until(1u32, |s: &u32| *s == 2, |s: u32| s + 1, 0),
        Err(GeoError::NonConvergence)
    );
}

#[test]
fn iteration_finds_a_fixed_point_within_tolerance() {
    // Heron's refinement of the square root of two: (estimate, last change).
    let r = iterate_until(
        (1.0_f64, 1.0_f64),
        |s: &(f64, f64)| s.1 < 1e-12,
        |s: (f64, f64)| {
            let next = (s.0 + 2.0 / s.0) / 2.0;
            (next, (next - s.0).abs())
        },
        MAX_REFINEMENTS,
    );
    let (root, change) = r.unwrap();
    assert!(change < 1e-12);
    assert!((root - 2.0_f64.sqrt()).abs() < 1e-12);
}

#[test]
fn iteration_never_accepts_a_state_that_compares_with_nothing() {
    let r = iterate_until(
        (f64::NAN, f64::NAN),
        |s: &(f64, f64)| (s.0 - s.1).abs() <= 1e-12,
        |s: (f64, f64)| (s.0.sin(), s.0),
        MAX_REFINEMENTS,
    );
    assert_eq!(r.err(), Some(GeoError::NonConvergence));
}
