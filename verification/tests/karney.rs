use geonav::geodesics::karney::{
    a_one, a_three, i_one_fourier_series, i_three_fourier_series, sigma_two_fourier_series,
    A1_NUMERATOR, A3, C1, C1_REVERTED, C3,
};

/// The third flattening of the WGS84 ellipsoid.
const N: f64 = (1.0 / 298.257223563) / (2. - (1.0 / 298.257223563));

fn powers(x: f64, count: i32) -> Vec<f64> {
    (1..=count).map(|p| if p == 1 { x } else { x.powf(p as f64) }).collect()
}

fn sines(arc: f64, count: i32) -> Vec<f64> {
    (1..=count).map(|l| (2. * l as f64 * arc).sin()).collect()
}

fn scale_one_written_out(e: &[f64]) -> f64 {
    (1.
        + (1. / 4. * e[1])
        + (1. / 64. * e[3])
        + (1. / 256. * e[5])
        + (25. / 16384. * e[7])
        + (49. / 65536. * e[9]))
        / (1. - e[0])
}

fn scale_three_written_out(e: &[f64]) -> f64 {
    1.
        - (1. / 2. - 1. / 2. * N) * e[0]
        - (1. / 4. + 1. / 8. * N - 3. / 8. * N.powf(2.))
            * e[1]
        - (1. / 16.
            + 3. / 16. * N
            + 1. / 16. * N.powf(2.)
            - 5. / 16. * N.powf(3.))
            * e[2]
        - (3. / 64.
            + 1. / 32. * N
            + 5. / 32. * N.powf(2.)
            + 5. / 128. * N.powf(3.)
            - 35. / 128. * N.powf(4.))
            * e[3]
        - (3. / 128.
            + 5. / 128. * N
            + 5. / 256. * N.powf(2.)
            + 35. / 256. * N.powf(3.)
            + 7. / 256. * N.powf(4.))
            * e[4]
        - (5. / 256.
            + 15. / 1024. * N
            + 35. / 1024. * N.powf(2.)
            + 7. / 512. * N.powf(3.))
            * e[5]
        - (25. / 2048.
            + 35. / 2048. * N
            + 21. / 2048. * N.powf(2.))
            * e[6]
        - (175. / 16384. + 35. / 4096. * N) * e[7]
        - 245. / 32768. * e[8]
}

fn distance_integral_written_out(
    e: &[f64],
    sigma: f64,
    a_1: f64,
) -> f64 {


    let b_1: f64 = ((- 1./2. * e[0]
                    + 3./16. * e[2]
                    - 1./32. * e[4]
                    + 19./2048. * e[6]
                    - 3./4096. * e[8]) * (2.* sigma).sin())
                + ((- 1./16. * e[1]
                    + 1./32. * e[3]
                    - 9./2048. * e[5]
                    + 7./4096. * e[7]
                    + 1./65536. * e[9]) * (2. * sigma * 2.).sin())
                + ((- 1./48. * e[2]
                    + 3./256. * e[4]
                    - 3./2048. * e[6]
                    + 17./24576. * e[8]) * (3. * sigma * 2.).sin())
                + ((- 5./512. * e[3]
                    + 3./512. * e[5]
                    - 11./16384. * e[7]
                    + 3./8192. * e[9]) * (4. * sigma * 2.).sin())
                + ((- 7./1280. * e[4]
                    + 7./2048. * e[6]
                    - 3./8192. * e[8]) * (5. * sigma * 2.).sin())
                + ((- 7./2048. * e[5]
                    + 9./4096. * e[7]
                    - 117./524288. * e[9]) * (6. * sigma * 2.).sin())
                + ((- 33./14336. * e[6]
                    + 99./65536. * e[8]) * (7. * sigma * 2.).sin())
                + ((- 429./262144. * e[7]
                    + 143./131072. * e[9]) * (8. * sigma * 2.).sin())
                + (( - 715./589824. * e[8]) * (9. * sigma * 2.).sin())
                + (( - 2431./2621440. * e[9]) * (10. * sigma * 2.).sin());
    return a_1 * (sigma + b_1);
}

fn reverted_arc_written_out(
    e: &[f64],
    tau: f64,
) -> f64 {
    let d_1: f64 = ((1./2. * e[0]
                    - 9./32. * e[2]
        + 205. / 1536. * e[4]
        - 4879. / 73728. * e[6]
        + 9039. / 327680. * e[8])
        * (2. * tau).sin())
        + ((5./16. * e[1]
                    - 37./96. * e[3]
            + 1335. / 4096. * e[5]
            - 86171. / 368640. * e[7]
            + 4119073. / 28311552. * e[9])
            * (2. * 2. * tau).sin())
        + ((29./96. * e[2]
                    - 75./128. * e[4]
            + 2901. / 4096. * e[6]
            - 443327. / 655360. * e[8])
            * (2. * 3. * tau).sin())
        + ((539./1536. * e[3]
                    - 2391./2560. * e[5]
            + 1082857. / 737280. * e[7]
            - 2722891. / 1548288. * e[9])
            * (2. * 4. * tau).sin())
        + ((3467./7680. * e[4]
                    - 28223./18432. * e[6]
            + 1361343. / 458752. * e[8])
            * (2. * 5. * tau).sin())
        + ((38081./61440. * e[5]
                    - 733437./286720. * e[7]
            + 10820079. / 1835008. * e[9])
            * (2. * 6. * tau).sin())
        + ((459485./516096. * e[6]
                    - 709743./163840. * e[8])
            * (2. * 7. * tau).sin())
        + ((109167851./82575360. * e[7]
                    - 550835669./74317824. * e[9])
            * (2. * 8. * tau).sin())
        + ((83141299. / 41287680. * e[8]) * (2. * 9. * tau).sin())
        + ((9303339907. / 2972712960. * e[9]) * (2. * 10. * tau).sin());

    return tau + d_1;
}

fn longitude_integral_written_out(
    e: &[f64],
    sigma: f64,
    a_3: f64,
) -> f64 {
    let e_1: f64 = (((1./4. - 1./4.*N) * e[0]
                    + (1./8. - 1./8.*N.powf(2.)) * e[1]
                    + (3./64. + 3./64.*N - 1./64.*N.powf(2.) - 5./64.*N.powf(3.)) * e[2]
                    + (5./128. + 1./64.*N + 1./64.*N.powf(2.) - 1./64.*N.powf(3.) - 7./128.*N.powf(4.)) * e[3]
                    + (3./128. + 11./512.*N + 3./512.*N.powf(2.) + 1./256.*N.powf(3.) - 7./512.*N.powf(4.)) * e[4]
                    + (21./1024. + 5./512.*N + 13./1024.*N.powf(2.) + 1./512.*N.powf(3.)) * e[5]
                    + (243./16384. + 189./16384.*N + 83./16384.*N.powf(2.)) * e[6]
                    + (435./32768. + 109./16384.*N) * e[7]
                    + (345./32768. * e[8])) * (2. * sigma).sin())
                + (((1./16. - 3./32.*N + 1./32.*N.powf(2.)) * e[1]
                    + (3./64. - 1./32.*N - 3./64.*N.powf(2.) + 1./32.*N.powf(3.)) * e[2]
                    + (3./128. + 1./128.*N - 9./256.*N.powf(2.) - 3./128.*N.powf(3.) + 7./256.*N.powf(4.)) * e[3]
                    + (5./256. + 1./256.*N - 1./128.*N.powf(2.) - 7./256.*N.powf(3.) - 3./256.*N.powf(4.)) * e[4]
                    + (27./2048. + 69./8192.*N - 39./8192.*N.powf(2.) - 47./4096.*N.powf(3.)) * e[5]
                    + (187./16384. + 39./8192.*N + 31./16384.*N.powf(2.)) * e[6]
                    + (287./32768. + 47./8192.*N) * e[7]
                    + (255./32768. * e[8])) * (2. * 2. * sigma).sin())
                + (((5./192. - 3./64.*N + 5./192.*N.powf(2.) - 1./192.*N.powf(3.)) * e[2]
                    + (3./128. - 5./192.*N - 1./64.*N.powf(2.) + 5./192.*N.powf(3.) - 1./128.*N.powf(4.)) * e[3]
                    + (7./512. - 1./384.*N - 77./3072.*N.powf(2.) + 5./3072.*N.powf(3.) + 65./3072.*N.powf(4.)) * e[4]
                    + (3./256. - 1./1024.*N - 71./6144.*N.powf(2.) - 47./3072.*N.powf(3.)) * e[5]
                    + (139./16384. + 143./49152.*N - 383./49152.*N.powf(2.)) * e[6]
                    + (243./32768. + 95./49152.*N) * e[7]
                    + (581./98304. * e[8])) * (2. * 3. * sigma).sin())
                + (((7./512. - 7./256.*N + 5./256.*N.powf(2.) - 7./1024.*N.powf(3.) + 1./1024.*N.powf(4.)) * e[3]
                    + (7./512. - 5./256.*N - 7./2048.*N.powf(2.)+ 9./512.*N.powf(3.) - 21./2048.*N.powf(4.)) * e[4]
                    + (9./1024. - 43./8192.*N - 129./8192.*N.powf(2.) + 39./4096.*N.powf(3.)) * e[5]
                    + (127./16384. - 23./8192.*N - 165./16384.*N.powf(2.)) * e[6]
                    + (193./32768. + 3./8192.*N) * e[7]
                    + (171./32768. * e[8])) * (2. * 4. * sigma).sin())
                + (((21./2560. - 9./512.*N + 15./1024.*N.powf(2.) - 7./1024.*N.powf(3.) + 9./5120.*N.powf(4.)) * e[4]
                    + (9./1024. - 15./1024.*N + 3./2048.*N.powf(2.) + 57./5120.*N.powf(3.)) * e[5]
                    + (99./16384. - 91./16384.*N - 781./81920.*N.powf(2.)) * e[6]
                    + (179./32768. - 55./16384.*N) * e[7]
                    + (141./32768. * e[8])) * (2. * 5. * sigma).sin())
                + (((11./2048. - 99./8192.*N + 275./24576.*N.powf(2.) - 77./12288.*N.powf(3.)) * e[5]
                    + (99./16384. - 275./24576.*N + 55./16384.*N.powf(2.)) * e[6]
                    + (143./32768. - 253./49152.*N) * e[7]
                    + (33./8192. * e[8])) * (2. * 6. * sigma).sin())
                + (((429./114688. - 143./16384.*N + 143./16384.*N.powf(2.)) * e[6]
                    + (143./32768. - 143./16384.*N) * e[7]
                    + (429./131072. * e[8])) * (2. * 7. * sigma).sin())
                + (((715./262144. - 429./65536.*N) * e[7] + (429./131072. * e[8])) * (2. * 8. * sigma).sin())
                + ((2431./1179648. * e[8]) * (2. * 9. * sigma).sin());

    return a_3 * (sigma + e_1);
}

/// Values of `eps` over the range that geodesics on the Earth meet, and
/// beyond it.
const EPSILONS: [f64; 6] = [0.0, 1.0e-5, 8.3e-4, 1.679e-3, -1.2e-3, 0.02];

const ARCS: [f64; 7] = [0.0, 0.1, 0.7853981633974483, 1.5, 2.9, -2.2, 12.0];

#[test]
fn scale_one_is_the_written_out_polynomial() {
    for eps in EPSILONS {
        let e = powers(eps, 10);
        assert_eq!(a_one(&e), scale_one_written_out(&e));
    }
}

#[test]
fn scale_one_of_known_powers() {
    // With every power set to a half: (1 + 1/8 + 1/128 + 1/512 + 25/32768
    // + 49/131072) over (1 - 1/2).
    let e = vec![0.5; 10];
    assert_eq!(a_one(&e), 2.0 * (1.0 + 0.125 + 0.0078125 + 0.001953125 + 25.0 / 32768.0 + 49.0 / 131072.0));
    // On a sphere the scale is one.
    assert_eq!(a_one(&vec![0.0; 10]), 1.0);
}

#[test]
fn scale_three_is_the_written_out_polynomial() {
    for eps in EPSILONS {
        let e = powers(eps, 10);
        assert_eq!(a_three(&e, &powers(N, 4)), scale_three_written_out(&e));
    }
}

#[test]
fn scale_three_of_known_powers() {
    // With every power of eps set to one and n to zero, the constants add
    // up: 1 - 1/2 - 1/4 - 1/16 - 3/64 - 3/128 - 5/256 - 25/2048
    // - 175/16384 - 245/32768.
    let value = a_three(&vec![1.0; 10], &vec![0.0; 4]);
    assert_eq!(value, 2205.0 / 32768.0);
    assert_eq!(a_three(&vec![0.0; 10], &powers(N, 4)), 1.0);
}

#[test]
fn distance_integral_is_the_written_out_series() {
    for eps in EPSILONS {
        let e = powers(eps, 10);
        let a_1 = a_one(&e);
        for sigma in ARCS {
            assert_eq!(
                i_one_fourier_series(&e, sigma, &sines(sigma, 10), a_1),
                distance_integral_written_out(&e, sigma, a_1)
            );
        }
    }
}

#[test]
fn distance_integral_of_known_values() {
    // Only the first harmonic, with every power of eps set to one:
    // -1/2 + 3/16 - 1/32 + 19/2048 - 3/4096 is -1373/4096.
    let mut first = vec![0.0; 10];
    first[0] = 1.0;
    assert_eq!(
        i_one_fourier_series(&vec![1.0; 10], 0.25, &first, 2.0),
        2.0 * (0.25 - 1373.0 / 4096.0)
    );
    // Only the tenth harmonic: -2431/2621440 times eps to the tenth.
    let mut tenth = vec![0.0; 10];
    tenth[9] = 1.0;
    assert_eq!(
        i_one_fourier_series(&vec![1.0; 10], 0.0, &tenth, 1.0),
        -2431.0 / 2621440.0
    );
    // On a sphere the integral is the arc.
    assert_eq!(i_one_fourier_series(&vec![0.0; 10], 1.25, &sines(1.25, 10), 1.0), 1.25);
}

#[test]
fn reverted_arc_is_the_written_out_series() {
    for eps in EPSILONS {
        let e = powers(eps, 10);
        for tau in ARCS {
            assert_eq!(
                sigma_two_fourier_series(&e, tau, &sines(tau, 10)),
                reverted_arc_written_out(&e, tau)
            );
        }
    }
}

#[test]
fn reverted_arc_of_known_values() {
    // Only the ninth harmonic, and only the tenth, with every power of eps
    // set to one.
    let mut ninth = vec![0.0; 10];
    ninth[8] = 1.0;
    assert_eq!(
        sigma_two_fourier_series(&vec![1.0; 10], 0.0, &ninth),
        83141299.0 / 41287680.0
    );
    let mut tenth = vec![0.0; 10];
    tenth[9] = 1.0;
    assert_eq!(
        sigma_two_fourier_series(&vec![1.0; 10], 0.0, &tenth),
        9303339907.0 / 2972712960.0
    );
}

#[test]
fn reverted_arc_undoes_the_distance_integral() {
    // To the tenth order, what is left is of the order of eps to the
    // eleventh.
    for (eps, bound) in [(1.679e-3, 1e-15), (0.01, 1e-15), (0.05, 2e-13)] {
        let e = powers(eps, 10);
        for step in 0..=600 {
            let sigma = -3.0 + 0.01 * step as f64;
            let tau = i_one_fourier_series(&e, sigma, &sines(sigma, 10), 1.0);
            let back = sigma_two_fourier_series(&e, tau, &sines(tau, 10));
            assert!((back - sigma).abs() <= bound, "{} {} {}", eps, sigma, back - sigma);
        }
    }
}

#[test]
fn longitude_integral_is_the_written_out_series() {
    let n = powers(N, 4);
    for eps in EPSILONS {
        let e = powers(eps, 10);
        let a_3 = a_three(&e, &n);
        for sigma in ARCS {
            assert_eq!(
                i_three_fourier_series(&e, &n, sigma, &sines(sigma, 9), a_3),
                longitude_integral_written_out(&e, sigma, a_3)
            );
        }
    }
}

#[test]
fn longitude_integral_of_known_values() {
    // Only the first harmonic, eps to the first power alone, and n = 1/2:
    // the coefficient is 1/4 - 1/4 * 1/2.
    let mut first_power = vec![0.0; 10];
    first_power[0] = 1.0;
    let mut first = vec![0.0; 9];
    first[0] = 1.0;
    let n = vec![0.5, 0.25, 0.125, 0.0625];
    assert_eq!(i_three_fourier_series(&first_power, &n, 0.0, &first, 1.0), 0.125);
    // Only the ninth harmonic: 2431/1179648 times eps to the ninth.
    let mut ninth = vec![0.0; 9];
    ninth[8] = 1.0;
    assert_eq!(
        i_three_fourier_series(&vec![1.0; 10], &n, 0.0, &ninth, 1.0),
        2431.0 / 1179648.0
    );
}

#[test]
fn series_in_whole_numbers_round_towards_zero() {
    // In whole numbers every fraction of the tables but the leading one of
    // each scale is cut to nothing.
    let ones: Vec<i64> = vec![1; 10];
    assert_eq!(a_three(&ones, &vec![1; 4]), 1);
    assert_eq!(i_one_fourier_series(&ones, 5, &ones, 3), 15);
}

#[test]
fn distance_series_begin_at_their_harmonic_and_go_in_steps_of_two() {
    for table in [&C1, &C1_REVERTED] {
        for (l, rows) in table.iter().enumerate() {
            for (k, row) in rows.iter().enumerate() {
                let [numerator, denominator] = row[0];
                assert!(denominator > 0);
                if numerator != 0 {
                    assert!(k >= l + 1 && (k - l - 1) % 2 == 0, "harmonic {} power {}", l + 1, k);
                }
            }
        }
    }
    // Every harmonic has its leading term.
    for l in 0..10 {
        assert!(C1[l][l + 1][0][0] != 0);
        assert!(C1_REVERTED[l][l + 1][0][0] != 0);
    }
    for (k, row) in A1_NUMERATOR.iter().enumerate() {
        assert_eq!(row[0][0] != 0, k % 2 == 0);
    }
}

#[test]
fn longitude_series_stay_below_the_tenth_order() {
    for (l, rows) in C3.iter().enumerate() {
        for (k, row) in rows.iter().enumerate() {
            for (j, [numerator, denominator]) in row.iter().enumerate() {
                assert!(*denominator > 0);
                if *numerator != 0 {
                    assert!(k >= l + 1 && k + j < 10 && j <= k);
                }
            }
        }
        assert!(C3[l][l + 1][0][0] != 0);
    }
    for (k, row) in A3.iter().enumerate() {
        for (j, [numerator, _]) in row.iter().enumerate() {
            if *numerator != 0 {
                assert!(k + j < 10 && j <= k);
            }
        }
    }
}

#[test]
fn scale_one_numerator_squares_the_binomial_series() {
    // The coefficients of the square root of 1 - x, without their signs.
    let binomial = [(1_i64, 1_i64), (1, 2), (1, 8), (1, 16), (5, 128), (7, 256)];
    for (k, (numerator, denominator)) in binomial.iter().enumerate() {
        assert_eq!(
            A1_NUMERATOR[2 * k][0],
            [numerator * numerator, denominator * denominator]
        );
    }
    // Each follows from the one before it by (2 k - 3) / (2 k).
    for k in 2..6 {
        let (last, next) = (binomial[k - 1], binomial[k]);
        assert_eq!(next.0 * 2 * k as i64 * last.1, next.1 * (2 * k as i64 - 3) * last.0);
    }
}
