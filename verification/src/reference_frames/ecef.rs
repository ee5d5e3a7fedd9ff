//! The Earth-centred Earth-fixed frame: Cartesian axes that turn with the
//! body.

use crate::matrix::{
    difference, difference_defined, quotient, quotient_defined, sum, sum_defined,
    transpose_times_vec, transposed_product, transposed_product_defined,
};
use crate::reference_frames::ned::{NEDVel, NED};
use crate::reference_frames::pef::{less_spin, less_spin_defined, PEFVel, PEF};
use crate::reference_frames::teme::{TEMEVel, TEME};
use crate::scalar::{computable, exact, zero, Scalar};
use crate::series::{whole, whole_defined, whole_of};
use crate::time::{seconds_between, CivilTime};
use core::ops::Neg;
use vstd::prelude::*;
use vstd::std_specs::ops::{AddSpec, MulSpec, NegSpec};

verus! {

/// The Cartesian coordinates of the point at the height `altitude` over the
/// ellipsoid, at the latitude and longitude with these sines and cosines.
pub open spec fn on_ellipsoid<T: Scalar>(
    normal_radius: T,
    polar_factor: T,
    altitude: T,
    sin_lat: T,
    cos_lat: T,
    sin_lon: T,
    cos_lon: T,
) -> Seq<T> {
    seq![
        normal_radius.add_spec(altitude).mul_spec(cos_lat).mul_spec(cos_lon),
        normal_radius.add_spec(altitude).mul_spec(cos_lat).mul_spec(sin_lon),
        polar_factor.mul_spec(normal_radius).add_spec(altitude).mul_spec(sin_lat),
    ]
}

/// The operations of [`on_ellipsoid`] accept their operands.
pub open spec fn on_ellipsoid_defined<T: Scalar>(
    normal_radius: T,
    polar_factor: T,
    altitude: T,
    sin_lat: T,
    cos_lat: T,
    sin_lon: T,
    cos_lon: T,
) -> bool {
    &&& normal_radius.add_req(altitude)
    &&& normal_radius.add_spec(altitude).mul_req(cos_lat)
    &&& normal_radius.add_spec(altitude).mul_spec(cos_lat).mul_req(cos_lon)
    &&& normal_radius.add_spec(altitude).mul_spec(cos_lat).mul_req(sin_lon)
    &&& polar_factor.mul_req(normal_radius)
    &&& polar_factor.mul_spec(normal_radius).add_req(altitude)
    &&& polar_factor.mul_spec(normal_radius).add_spec(altitude).mul_req(sin_lat)
}

/// A position in metres from the centre of the ellipsoid.
#[derive(Debug)]
pub struct ECEF<T> {
    pub x: T,
    pub y: T,
    pub z: T,
}

impl<T: Copy> Clone for ECEF<T> {
    fn clone(&self) -> (r: Self)
        ensures
            r == *self,
    {
        *self
    }
}

impl<T: Copy> Copy for ECEF<T> {

}

impl<T: Scalar> ECEF<T> {
    /// The three coordinates in their order.
    pub open spec fn components(self) -> Seq<T> {
        seq![self.x, self.y, self.z]
    }

    /// The centre of the ellipsoid.
    pub fn default() -> (r: ECEF<T>)
        ensures
            exact::<T>() ==> r == (ECEF { x: zero::<T>(), y: zero::<T>(), z: zero::<T>() }),
    {
        ECEF { x: T::from(0i32), y: T::from(0i32), z: T::from(0i32) }
    }

    /// Geodetic to Cartesian, once the transcendental parts are known. The
    /// point at the height `altitude` over the ellipsoid, where
    /// `normal_radius` is the radius of curvature in the prime vertical at
    /// its latitude and `polar_factor` is one less the squared eccentricity:
    ///
    /// ```text
    /// x = (normal_radius + altitude) * cos_lat * cos_lon
    /// y = (normal_radius + altitude) * cos_lat * sin_lon
    /// z = (polar_factor * normal_radius + altitude) * sin_lat
    /// ```
    pub fn new_from_curvature(
        normal_radius: T,
        polar_factor: T,
        altitude: T,
        sin_lat: T,
        cos_lat: T,
        sin_lon: T,
        cos_lon: T,
    ) -> (r: ECEF<T>)
        requires
            computable::<T>(
                on_ellipsoid_defined(
                    normal_radius,
                    polar_factor,
                    altitude,
                    sin_lat,
                    cos_lat,
                    sin_lon,
                    cos_lon,
                ),
            ),
        ensures
            exact::<T>() ==> r.components() == on_ellipsoid(
                normal_radius,
                polar_factor,
                altitude,
                sin_lat,
                cos_lat,
                sin_lon,
                cos_lon,
            ),
    {
        let x = (normal_radius + altitude) * cos_lat * cos_lon;
        let y = (normal_radius + altitude) * cos_lat * sin_lon;
        let z = ((polar_factor * normal_radius) + altitude) * sin_lat;
        let r = ECEF { x, y, z };
        assert(exact::<T>() ==> r.components() =~= on_ellipsoid(
            normal_radius,
            polar_factor,
            altitude,
            sin_lat,
            cos_lat,
            sin_lon,
            cos_lon,
        ));
        r
    }

    /// A position of the pseudo Earth-fixed frame with the wobble of the
    /// pole applied: the transpose of `polar_motion_matrix`, applied to
    /// `pef`.
    pub fn new_from_pef_rot(pef: &PEF<T>, polar_motion_matrix: &Vec<T>) -> (r: ECEF<T>)
        requires
            polar_motion_matrix.len() == 9,
            computable::<T>(transposed_product_defined(polar_motion_matrix@, pef.components())),
        ensures
            exact::<T>() ==> r.components() == transposed_product(
                polar_motion_matrix@,
                pef.components(),
            ),
    {
        let pef_matrix = vec![pef.x, pef.y, pef.z];
        assert(pef_matrix@ =~= pef.components());
        let v = transpose_times_vec(polar_motion_matrix, &pef_matrix);
        let r = ECEF { x: v[0], y: v[1], z: v[2] };
        assert(exact::<T>() ==> r.components() =~= v@);
        r
    }

    /// The point at the local offset `ned` from `reference_point`, where
    /// `rotation_matrix` turns Earth-fixed axes into those of the local
    /// plane: its transpose turns the offset back.
    pub fn new_from_ned_rot(
        ned: &NED<T>,
        rotation_matrix: &Vec<T>,
        reference_point: &ECEF<T>,
    ) -> (r: ECEF<T>)
        requires
            rotation_matrix.len() == 9,
            computable::<T>(
                transposed_product_defined(rotation_matrix@, ned.components()) && sum_defined(
                    transposed_product(rotation_matrix@, ned.components()),
                    reference_point.components(),
                ),
            ),
        ensures
            exact::<T>() ==> r.components() == sum(
                transposed_product(rotation_matrix@, ned.components()),
                reference_point.components(),
            ),
    {
        let ned_v = vec![ned.n, ned.e, ned.d];
        assert(ned_v@ =~= ned.components());
        let tmp = transpose_times_vec(rotation_matrix, &ned_v);
        let x = tmp[0] + reference_point.x;
        let y = tmp[1] + reference_point.y;
        let z = tmp[2] + reference_point.z;
        let r = ECEF { x, y, z };
        assert(exact::<T>() ==> r.components() =~= sum(
            transposed_product(rotation_matrix@, ned.components()),
            reference_point.components(),
        ));
        r
    }
}

/// A velocity in the Earth-fixed frame.
#[derive(Debug)]
pub struct ECEFVel<T> {
    pub x_vel: T,
    pub y_vel: T,
    pub z_vel: T,
}

impl<T: Copy> Clone for ECEFVel<T> {
    fn clone(&self) -> (r: Self)
        ensures
            r == *self,
    {
        *self
    }
}

impl<T: Copy> Copy for ECEFVel<T> {

}

impl<T: Scalar> ECEFVel<T> {
    /// The three components in their order.
    pub open spec fn components(self) -> Seq<T> {
        seq![self.x_vel, self.y_vel, self.z_vel]
    }

    /// A quasi-inertial velocity in the Earth-fixed frame: first into the
    /// pseudo Earth-fixed frame, by [`PEFVel::new_from_teme_vel_rot`], then
    /// turned by the transpose of `polar_motion_matrix`.
    pub fn new_from_teme_vel_rot(
        teme: &TEME<T>,
        teme_vel: &TEMEVel<T>,
        pef_tod_matrix: &Vec<T>,
        polar_motion_matrix: &Vec<T>,
        omega_earth: T,
    ) -> (r: ECEFVel<T>)
        requires
            pef_tod_matrix.len() == 9,
            polar_motion_matrix.len() == 9,
            computable::<T>(
                {
                    &&& transposed_product_defined(pef_tod_matrix@, teme.components())
                    &&& transposed_product_defined(pef_tod_matrix@, teme_vel.components())
                    &&& less_spin_defined(
                        transposed_product(pef_tod_matrix@, teme_vel.components()),
                        omega_earth,
                        transposed_product(pef_tod_matrix@, teme.components()),
                    )
                    &&& transposed_product_defined(
                        polar_motion_matrix@,
                        less_spin(
                            transposed_product(pef_tod_matrix@, teme_vel.components()),
                            omega_earth,
                            transposed_product(pef_tod_matrix@, teme.components()),
                        ),
                    )
                },
            ),
        ensures
            exact::<T>() ==> r.components() == transposed_product(
                polar_motion_matrix@,
                less_spin(
                    transposed_product(pef_tod_matrix@, teme_vel.components()),
                    omega_earth,
                    transposed_product(pef_tod_matrix@, teme.components()),
                ),
            ),
    {
        let velocity_pef = PEFVel::new_from_teme_vel_rot(
            teme,
            teme_vel,
            pef_tod_matrix,
            omega_earth,
        );
        let velocity_pef = vec![velocity_pef.x_vel, velocity_pef.y_vel, velocity_pef.z_vel];
        assert(exact::<T>() ==> velocity_pef@ =~= less_spin(
            transposed_product(pef_tod_matrix@, teme_vel.components()),
            omega_earth,
            transposed_product(pef_tod_matrix@, teme.components()),
        ));
        let v_ecef = transpose_times_vec(polar_motion_matrix, &velocity_pef);
        let r = ECEFVel { x_vel: v_ecef[0], y_vel: v_ecef[1], z_vel: v_ecef[2] };
        assert(exact::<T>() ==> r.components() =~= v_ecef@);
        r
    }

    /// The velocity that leads from `point1` to `point2` in `seconds_diff`
    /// seconds without acceleration.
    pub fn new_from_ecef_timestamp(point1: &ECEF<T>, point2: &ECEF<T>, seconds_diff: T) -> (r:
        ECEFVel<T>)
        requires
            computable::<T>(
                difference_defined(point2.components(), point1.components()) && quotient_defined(
                    difference(point2.components(), point1.components()),
                    seconds_diff,
                ),
            ),
        ensures
            exact::<T>() ==> r.components() == quotient(
                difference(point2.components(), point1.components()),
                seconds_diff,
            ),
    {
        let x_vel = (point2.x - point1.x) / seconds_diff;
        let y_vel = (point2.y - point1.y) / seconds_diff;
        let z_vel = (point2.z - point1.z) / seconds_diff;
        let r = ECEFVel { x_vel, y_vel, z_vel };
        assert(exact::<T>() ==> r.components() =~= quotient(
            difference(point2.components(), point1.components()),
            seconds_diff,
        ));
        r
    }

    /// The velocity that leads from `point1` at `point1_time` to `point2` at
    /// `point2_time` without acceleration: the difference of the points over
    /// the seconds between the two times.
    pub fn new_from_ecef(
        point1: &ECEF<T>,
        point1_time: &CivilTime,
        point2: &ECEF<T>,
        point2_time: &CivilTime,
    ) -> (r: ECEFVel<T>)
        requires
            computable::<T>(
                {
                    &&& whole_defined::<T>(seconds_between(point1_time@, point2_time@))
                    &&& difference_defined(point2.components(), point1.components())
                    &&& quotient_defined(
                        difference(point2.components(), point1.components()),
                        whole::<T>(seconds_between(point1_time@, point2_time@)),
                    )
                },
            ),
        ensures
            exact::<T>() ==> r.components() == quotient(
                difference(point2.components(), point1.components()),
                whole::<T>(seconds_between(point1_time@, point2_time@)),
            ),
    {
        let seconds_diff = whole_of::<T>(point1_time.seconds_until(point2_time));
        ECEFVel::new_from_ecef_timestamp(point1, point2, seconds_diff)
    }

    /// A local velocity turned back into the Earth-fixed frame by the
    /// transpose of `rotation_matrix`.
    pub fn new_from_ned_rot(ned: &NEDVel<T>, rotation_matrix: &Vec<T>) -> (r: ECEFVel<T>)
        requires
            rotation_matrix.len() == 9,
            computable::<T>(transposed_product_defined(rotation_matrix@, ned.components())),
        ensures
            exact::<T>() ==> r.components() == transposed_product(
                rotation_matrix@,
                ned.components(),
            ),
    {
        let ned_v = vec![ned.n_vel, ned.e_vel, ned.d_vel];
        assert(ned_v@ =~= ned.components());
        let tmp = transpose_times_vec(rotation_matrix, &ned_v);
        let r = ECEFVel { x_vel: tmp[0], y_vel: tmp[1], z_vel: tmp[2] };
        assert(exact::<T>() ==> r.components() =~= tmp@);
        r
    }
}

/// The 6x6 matrix, stored row by row, with the 3x3 matrix `m` twice on its
/// diagonal and `zero` everywhere else.
pub open spec fn block_diagonal<T>(m: Seq<T>, zero: T) -> Seq<T> {
    Seq::new(
        36,
        |k: int|
            if k / 6 < 3 && k % 6 < 3 {
                m[3 * (k / 6) + k % 6]
            } else if k / 6 >= 3 && k % 6 >= 3 {
                m[3 * (k / 6 - 3) + (k % 6 - 3)]
            } else {
                zero
            },
    )
}

/// The rotation from Earth-fixed axes to the local plane at a point, from
/// the sines and cosines of the point's latitude and longitude: the rows are
/// north, east and down as seen from the centre of the Earth.
pub open spec fn local_axes<T: Scalar>(sin_lat: T, cos_lat: T, sin_lon: T, cos_lon: T) -> Seq<T> {
    seq![
        sin_lat.neg_spec().mul_spec(cos_lon),
        sin_lat.neg_spec().mul_spec(sin_lon),
        cos_lat,
        sin_lon.neg_spec(),
        cos_lon,
        zero::<T>(),
        cos_lat.neg_spec().mul_spec(cos_lon),
        cos_lat.neg_spec().mul_spec(sin_lon),
        sin_lat.neg_spec(),
    ]
}

/// The operations of [`local_axes`] accept their operands.
pub open spec fn local_axes_defined<T: Scalar>(
    sin_lat: T,
    cos_lat: T,
    sin_lon: T,
    cos_lon: T,
) -> bool {
    &&& sin_lat.neg_req()
    &&& cos_lat.neg_req()
    &&& sin_lon.neg_req()
    &&& sin_lat.neg_spec().mul_req(cos_lon)
    &&& sin_lat.neg_spec().mul_req(sin_lon)
    &&& cos_lat.neg_spec().mul_req(cos_lon)
    &&& cos_lat.neg_spec().mul_req(sin_lon)
}

/// The rotation from Earth-fixed axes to north, east and down at a point,
/// given the sines and cosines of its latitude and longitude.
pub fn generate_ecef_to_ned_matrix<T: Scalar>(sin_lat: T, cos_lat: T, sin_lon: T, cos_lon: T) -> (r:
    Vec<T>)
    requires
        computable::<T>(local_axes_defined(sin_lat, cos_lat, sin_lon, cos_lon)),
    ensures
        r.len() == 9,
        exact::<T>() ==> r@ == local_axes(sin_lat, cos_lat, sin_lon, cos_lon),
{
    let rotation = vec![
        sin_lat.neg() * cos_lon,
        sin_lat.neg() * sin_lon,
        cos_lat,
        sin_lon.neg(),
        cos_lon,
        T::from(0i32),
        cos_lat.neg() * cos_lon,
        cos_lat.neg() * sin_lon,
        sin_lat.neg(),
    ];
    assert(exact::<T>() ==> rotation@ =~= local_axes(sin_lat, cos_lat, sin_lon, cos_lon));
    rotation
}

/// The 6x6 matrix that takes a stacked Earth-fixed position and velocity to
/// the local plane: `ecef_to_ned` twice on the diagonal and zero elsewhere.
pub fn construct_ecef_to_ned_jacobian<T: Scalar>(ecef_to_ned: &Vec<T>) -> (r: Vec<T>)
    requires
        ecef_to_ned.len() == 9,
    ensures
        exists|filler: T| r@ == #[trigger] block_diagonal(ecef_to_ned@, filler),
        exact::<T>() ==> r@ == block_diagonal(ecef_to_ned@, zero::<T>()),
{
    let zero = T::from(0i32);
    let m = ecef_to_ned;
    let r = vec![
        m[0], m[1], m[2], zero, zero, zero,
        m[3], m[4], m[5], zero, zero, zero,
        m[6], m[7], m[8], zero, zero, zero,
        zero, zero, zero, m[0], m[1], m[2],
        zero, zero, zero, m[3], m[4], m[5],
        zero, zero, zero, m[6], m[7], m[8],
    ];
    assert(r@ =~= block_diagonal(ecef_to_ned@, zero));
    r
}

} // verus!
