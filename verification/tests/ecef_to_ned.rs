use geonav::iteration::{iterate_until, MAX_REFINEMENTS};
use geonav::reference_frames::ecef::{
    construct_ecef_to_ned_jacobian, generate_ecef_to_ned_matrix, ECEFVel, ECEF,
};
use geonav::reference_frames::ned::{NEDVel, NED};
use geonav::reference_frames::wgs84::WGS84Coord;

const EARTH_MAJOR: f64 = 6378137.0;
const EARTH_FLATTENING: f64 = 1.0 / 298.257223563;
const EARTH_ECCENTRICITY_SQUARED: f64 = EARTH_FLATTENING * (2. - EARTH_FLATTENING);

/// Passes where the two numbers differ by at most `epsilon`, or by at most
/// one rounding step of the larger one.
fn assert_close(a: f64, b: f64, epsilon: f64) {
    let diff = (a - b).abs();
    let largest = a.abs().max(b.abs());
    assert!(
        a == b || diff <= epsilon || diff <= largest * f64::EPSILON,
        "{} and {} differ by more than {}",
        a,
        b,
        epsilon
    );
}

fn radius_of_curvature(lat_sin: f64) -> f64 {
    EARTH_MAJOR / (1_f64 - (EARTH_ECCENTRICITY_SQUARED * lat_sin.powf(2_f64))).sqrt()
}

fn ecef_of(wgs84: &WGS84Coord<f64>) -> ECEF<f64> {
    let (sin_lat, cos_lat) = wgs84.get_lat_radians().sin_cos();
    let (sin_lon, cos_lon) = wgs84.get_lon_radians().sin_cos();
    ECEF::new_from_curvature(
        radius_of_curvature(sin_lat),
        1_f64 - EARTH_ECCENTRICITY_SQUARED,
        wgs84.get_altitude(),
        sin_lat,
        cos_lat,
        sin_lon,
        cos_lon,
    )
}

fn ecef_to_ned_matrix(initial_point: &WGS84Coord<f64>) -> Vec<f64> {
    let (sin_lat, cos_lat) = initial_point.get_lat_radians().sin_cos();
    let (sin_lon, cos_lon) = initial_point.get_lon_radians().sin_cos();
    generate_ecef_to_ned_matrix(sin_lat, cos_lat, sin_lon, cos_lon)
}

/// Latitude refinement of the Cartesian to geodetic conversion, run by the
/// library's bounded loop: the state is (latitude, last change, curvature).
fn wgs84_of(ecef: &ECEF<f64>) -> WGS84Coord<f64> {
    let (x, y, z) = (ecef.x, ecef.y, ecef.z);
    let p = (x.powf(2_f64) + y.powf(2_f64)).sqrt();
    let lambda_lon = f64::atan2(y, x);
    let phi_lat = f64::atan2(z, p * (1_f64 - EARTH_ECCENTRICITY_SQUARED));
    let (phi_lat, _, nutation) = iterate_until(
        (phi_lat, 1_f64, 0_f64),
        |s: &(f64, f64, f64)| s.1 <= 1e-12,
        |s: (f64, f64, f64)| {
            let nutation = radius_of_curvature(s.0.sin());
            let new_phi_lat =
                f64::atan2(z + (EARTH_ECCENTRICITY_SQUARED * nutation * s.0.sin()), p);
            (new_phi_lat, (s.0 - new_phi_lat).abs(), nutation)
        },
        MAX_REFINEMENTS,
    )
    .unwrap();
    let h = p / phi_lat.cos() - nutation;
    WGS84Coord::new_from_radians(phi_lat, lambda_lon, h)
}

#[test]
fn test_ecef_to_ned_jacobian() {
    let basic_matrix = vec![1.0; 9];

    let jacobian = construct_ecef_to_ned_jacobian(&basic_matrix);

    println!("{:?}", jacobian);

    let correct = vec![
        1.0, 1.0, 1.0, 0.0, 0.0, 0.0, 1.0, 1.0, 1.0, 0.0, 0.0, 0.0, 1.0, 1.0, 1.0, 0.0, 0.0, 0.0,
        0.0, 0.0, 0.0, 1.0, 1.0, 1.0, 0.0, 0.0, 0.0, 1.0, 1.0, 1.0, 0.0, 0.0, 0.0, 1.0, 1.0, 1.0,
    ];

    assert_eq!(correct.len(), jacobian.len());
    for (a, b) in correct.iter().zip(jacobian.iter()) {
        assert_eq!(a, b);
    }

    // =============================================

    let basic_matrix = vec![1.0, 2.0, 3.0, 4.0, 5.0, 6.0, 7.0, 8.0, 9.0];

    let jacobian = construct_ecef_to_ned_jacobian(&basic_matrix);

    println!("{:?}", jacobian);

    let correct = vec![
        1.0, 2.0, 3.0, 0.0, 0.0, 0.0, //
        4.0, 5.0, 6.0, 0.0, 0.0, 0.0, //
        7.0, 8.0, 9.0, 0.0, 0.0, 0.0, //
        0.0, 0.0, 0.0, 1.0, 2.0, 3.0, //
        0.0, 0.0, 0.0, 4.0, 5.0, 6.0, //
        0.0, 0.0, 0.0, 7.0, 8.0, 9.0, //
    ];

    assert_eq!(correct.len(), jacobian.len());
    for (a, b) in correct.iter().zip(jacobian.iter()) {
        assert_eq!(a, b);
    }
}

#[test]
fn test_ecef_from_ned_rot() {
    let lat = 50.0_f64;
    let lon = 10.0_f64;
    let alt = 0.0_f64;
    let reference_point = WGS84Coord::new_from_radians(lat.to_radians(), lon.to_radians(), alt);

    let ecef = ecef_of(&reference_point);

    let ned = NED {
        n: 0.0,
        e: 0.0,
        d: 0.0,
    };

    let rotation = ecef_to_ned_matrix(&reference_point);

    let final_ecef = ECEF::new_from_ned_rot(&ned, &rotation, &ecef);

    assert_close(ecef.x, final_ecef.x, 1e-4);
    assert_close(ecef.y, final_ecef.y, 1e-4);
    assert_close(ecef.z, final_ecef.z, 1e-4);
}

#[test]
fn test_ecef_to_ned_vel() {
    let lat = 50.0_f64;
    let lon = 10.0_f64;
    let alt = 0.0_f64;
    let reference_point = WGS84Coord::new_from_radians(lat.to_radians(), lon.to_radians(), alt);

    let ecef = ecef_of(&reference_point);

    assert_close(ecef.x, 4045456.0_f64, 1.0_f64);
    assert_close(ecef.y, 713323.0_f64, 1.0);
    assert_close(ecef.z, 4862789_f64, 1.0);

    let rotation = ecef_to_ned_matrix(&reference_point);

    let start_ned = NED {
        n: 0.0,
        e: 0.0,
        d: 0.0,
    };

    let end_ned = NED {
        n: 100.0,
        e: 100.0,
        d: 0.0,
    };

    let dt = 10_f64;

    let ned_vel = NEDVel::linear_speed(&start_ned, &end_ned, dt);

    let ecef_vel = ECEFVel::new_from_ned_rot(&ned_vel, &rotation);

    let final_ecef_point = ECEF {
        x: ecef.x + ecef_vel.x_vel * dt,
        y: ecef.y + ecef_vel.y_vel * dt,
        z: ecef.z + ecef_vel.z_vel * dt,
    };

    let final_ecef_to_ned = NED::new_from_ecef_rot(&final_ecef_point, &rotation, &ecef);

    assert_close(final_ecef_to_ned.n, end_ned.n, 1e-6);
    assert_close(final_ecef_to_ned.e, end_ned.e, 1e-6);
    assert_close(final_ecef_to_ned.d, end_ned.d, 1e-6);
}

#[test]
fn test_ecef_to_ned() {
    let lat = 50.0_f64;
    let lon = 10.0_f64;
    let alt = 0.0_f64;
    let reference_point = WGS84Coord::new_from_radians(lat.to_radians(), lon.to_radians(), alt);

    let ecef = ecef_of(&reference_point);

    assert_close(ecef.x, 4045456.0_f64, 1.0_f64);
    assert_close(ecef.y, 713323.0_f64, 1.0);
    assert_close(ecef.z, 4862789_f64, 1.0);

    let rotation = ecef_to_ned_matrix(&reference_point);

    let last = wgs84_of(&ECEF::new_from_ned_rot(
        &NED {
            n: 0.0,
            e: 0.0,
            d: 0.0,
        },
        &rotation,
        &ecef,
    ));

    assert_close(last.get_lat_radians(), lat.to_radians(), 1e-8);
    assert_close(last.get_lon_radians(), lon.to_radians(), 1e-8);
    assert_close(last.get_altitude(), alt, 1e-8);
}

#[test]
fn test_lla_to_ecef() {
    let reference_point =
        WGS84Coord::new_from_radians(50.0_f64.to_radians(), 10.0_f64.to_radians(), 0.0);

    let ecef = ecef_of(&reference_point);

    assert_close(ecef.x, 4045456.0_f64, 1.0);
    assert_close(ecef.y, 713323.0_f64, 1.0);
    assert_close(ecef.z, 4862789_f64, 1.0);
}

#[test]
fn geodetic_round_trip_recovers_the_point() {
    let latitudes = [-89.0_f64, -45.0, -0.001, 0.0, 12.5, 50.0, 89.9];
    let longitudes = [-179.0_f64, -74.006, 0.0, 10.0, 151.2093];
    let altitudes = [-400.0, 0.0, 8848.0, 408_000.0, 35_786_000.0];
    for lat in latitudes {
        for lon in longitudes {
            for alt in altitudes {
                let point = WGS84Coord::new_from_radians(lat.to_radians(), lon.to_radians(), alt);
                let back = wgs84_of(&ecef_of(&point));
                assert_close(back.get_lat_radians(), point.get_lat_radians(), 1e-8);
                assert_close(back.get_lon_radians(), point.get_lon_radians(), 1e-8);
                // A millimetre in the height of a satellite is one rounding
                // step of its distance from the centre.
                assert_close(back.get_altitude(), point.get_altitude(), 1e-6 + alt.abs() * 1e-13);
            }
        }
    }
}
