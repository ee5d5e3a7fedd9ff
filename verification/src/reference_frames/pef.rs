//! The pseudo Earth-fixed frame: the Earth-fixed frame with the wobble of the
//! pole taken out.

use crate::error::GeoError;
use crate::matrix::{
    transpose_times_vec, transposed_product, transposed_product_defined, unrotate, unrotated,
    unrotated_defined, determinant, is_singular, transposed,
};
use crate::reference_frames::ecef::{ECEFVel, ECEF};
use crate::reference_frames::teme::{TEMEVel, TEME};
use crate::scalar::{computable, exact, Scalar};
use vstd::prelude::*;
use vstd::std_specs::cmp::PartialOrdSpec;
use vstd::std_specs::ops::{AddSpec, MulSpec, SubSpec};

verus! {

/// A position in the pseudo Earth-fixed frame.
#[derive(Debug)]
pub struct PEF<T> {
    pub x: T,
    pub y: T,
    pub z: T,
}

impl<T: Copy> Clone for PEF<T> {
    fn clone(&self) -> (r: Self)
        ensures
            r == *self,
    {
        *self
    }
}

impl<T: Copy> Copy for PEF<T> {

}

impl<T: Scalar> PEF<T> {
    /// The three coordinates in their order.
    pub open spec fn components(self) -> Seq<T> {
        seq![self.x, self.y, self.z]
    }

    /// A quasi-inertial position turned with the Earth: the transpose of
    /// the sidereal rotation `pef_tod_matrix`, applied to `teme`.
    pub fn new_from_teme_rot(teme: &TEME<T>, pef_tod_matrix: &Vec<T>) -> (r: PEF<T>)
        requires
            pef_tod_matrix.len() == 9,
            computable::<T>(transposed_product_defined(pef_tod_matrix@, teme.components())),
        ensures
            exact::<T>() ==> r.components() == transposed_product(
                pef_tod_matrix@,
                teme.components(),
            ),
    {
        let teme_matrix = vec![teme.x, teme.y, teme.z];
        assert(teme_matrix@ =~= teme.components());
        let pef = transpose_times_vec(pef_tod_matrix, &teme_matrix);
        let r = PEF { x: pef[0], y: pef[1], z: pef[2] };
        assert(exact::<T>() ==> r.components() =~= pef@);
        r
    }

    /// An Earth-fixed position with the polar motion put back: what the
    /// transpose of `polar_motion_matrix` takes to `ecef`.
    /// `SingularTransform` if the determinant of that transpose is within
    /// `tolerance` of zero.
    pub fn new_from_ecef_rot(ecef: &ECEF<T>, polar_motion_matrix: &Vec<T>, tolerance: T) -> (r:
        Result<PEF<T>, GeoError>) where T: PartialOrd
        requires
            polar_motion_matrix.len() == 9,
            computable::<T>(
                T::obeys_partial_cmp_spec() && unrotated_defined(
                    polar_motion_matrix@,
                    ecef.components(),
                    tolerance,
                ),
            ),
        ensures
            r matches Err(e) ==> e == GeoError::SingularTransform,
            exact::<T>() && T::obeys_partial_cmp_spec() ==> (r.is_err() <==> is_singular(
                determinant(transposed(polar_motion_matrix@)),
                tolerance,
            )),
            exact::<T>() && T::obeys_partial_cmp_spec() ==> (r matches Ok(p) ==> p.components()
                == unrotated(polar_motion_matrix@, ecef.components())),
    {
        let ecef_matrix = vec![ecef.x, ecef.y, ecef.z];
        assert(ecef_matrix@ =~= ecef.components());
        match unrotate(polar_motion_matrix, &ecef_matrix, tolerance) {
            Ok(pef) => {
                let p = PEF { x: pef[0], y: pef[1], z: pef[2] };
                assert(p.components() =~= pef@);
                Ok(p)
            },
            Err(e) => Err(e),
        }
    }
}

/// A velocity in the pseudo Earth-fixed frame.
#[derive(Debug)]
pub struct PEFVel<T> {
    pub x_vel: T,
    pub y_vel: T,
    pub z_vel: T,
}

impl<T: Copy> Clone for PEFVel<T> {
    fn clone(&self) -> (r: Self)
        ensures
            r == *self,
    {
        *self
    }
}

impl<T: Copy> Copy for PEFVel<T> {

}

/// The velocity `v` as seen from the turning Earth at the position `p`: `v`
/// less the cross product of the rotation about the third axis at the rate
/// `omega` and `p`, which is `(-omega * p.y, omega * p.x, 0)`. A point that
/// turns with the Earth has the velocity zero.
pub open spec fn less_spin<T: Scalar>(v: Seq<T>, omega: T, p: Seq<T>) -> Seq<T> {
    seq![v[0].add_spec(omega.mul_spec(p[1])), v[1].sub_spec(omega.mul_spec(p[0])), v[2]]
}

/// The operations of [`less_spin`] accept their operands.
pub open spec fn less_spin_defined<T: Scalar>(v: Seq<T>, omega: T, p: Seq<T>) -> bool {
    &&& omega.mul_req(p[1])
    &&& omega.mul_req(p[0])
    &&& v[0].add_req(omega.mul_spec(p[1]))
    &&& v[1].sub_req(omega.mul_spec(p[0]))
}

/// The velocity `v` with the cross product of the rotation and the position
/// `p` put back: `(-omega * p.y, omega * p.x, 0)` added. It undoes
/// [`less_spin`] at the same position.
pub open spec fn with_spin<T: Scalar>(v: Seq<T>, omega: T, p: Seq<T>) -> Seq<T> {
    seq![v[0].sub_spec(omega.mul_spec(p[1])), v[1].add_spec(omega.mul_spec(p[0])), v[2]]
}

/// The operations of [`with_spin`] accept their operands.
pub open spec fn with_spin_defined<T: Scalar>(v: Seq<T>, omega: T, p: Seq<T>) -> bool {
    &&& omega.mul_req(p[1])
    &&& omega.mul_req(p[0])
    &&& v[0].sub_req(omega.mul_spec(p[1]))
    &&& v[1].add_req(omega.mul_spec(p[0]))
}

impl<T: Scalar> PEFVel<T> {
    /// The three components in their order.
    pub open spec fn components(self) -> Seq<T> {
        seq![self.x_vel, self.y_vel, self.z_vel]
    }

    /// A quasi-inertial velocity seen from the turning Earth: `teme_vel`
    /// turned by the transpose of the sidereal rotation `pef_tod_matrix`,
    /// less the cross product of the rotation at the rate `omega_earth` and
    /// the turned position of `teme`.
    pub fn new_from_teme_vel_rot(
        teme: &TEME<T>,
        teme_vel: &TEMEVel<T>,
        pef_tod_matrix: &Vec<T>,
        omega_earth: T,
    ) -> (r: PEFVel<T>)
        requires
            pef_tod_matrix.len() == 9,
            computable::<T>(
                {
                    &&& transposed_product_defined(pef_tod_matrix@, teme.components())
                    &&& transposed_product_defined(pef_tod_matrix@, teme_vel.components())
                    &&& less_spin_defined(
                        transposed_product(pef_tod_matrix@, teme_vel.components()),
                        omega_earth,
                        transposed_product(pef_tod_matrix@, teme.components()),
                    )
                },
            ),
        ensures
            exact::<T>() ==> r.components() == less_spin(
                transposed_product(pef_tod_matrix@, teme_vel.components()),
                omega_earth,
                transposed_product(pef_tod_matrix@, teme.components()),
            ),
    {
        let pef = PEF::new_from_teme_rot(teme, pef_tod_matrix);
        let teme_vel_matrix = vec![teme_vel.x_vel, teme_vel.y_vel, teme_vel.z_vel];
        assert(teme_vel_matrix@ =~= teme_vel.components());
        let velocity_pef_temp = transpose_times_vec(pef_tod_matrix, &teme_vel_matrix);
        let r = PEFVel {
            x_vel: velocity_pef_temp[0] + omega_earth * pef.y,
            y_vel: velocity_pef_temp[1] - omega_earth * pef.x,
            z_vel: velocity_pef_temp[2],
        };
        assert(exact::<T>() ==> r.components() =~= less_spin(
            transposed_product(pef_tod_matrix@, teme_vel.components()),
            omega_earth,
            transposed_product(pef_tod_matrix@, teme.components()),
        ));
        r
    }

    /// An Earth-fixed velocity with the polar motion put back: what the
    /// transpose of `polar_motion_matrix` takes to `ecef_vel`.
    /// `SingularTransform` if the determinant of that transpose is within
    /// `tolerance` of zero.
    pub fn new_from_ecef_vel_rot(
        ecef_vel: &ECEFVel<T>,
        polar_motion_matrix: &Vec<T>,
        tolerance: T,
    ) -> (r: Result<PEFVel<T>, GeoError>) where T: PartialOrd
        requires
            polar_motion_matrix.len() == 9,
            computable::<T>(
                T::obeys_partial_cmp_spec() && unrotated_defined(
                    polar_motion_matrix@,
                    ecef_vel.components(),
                    tolerance,
                ),
            ),
        ensures
            r matches Err(e) ==> e == GeoError::SingularTransform,
            exact::<T>() && T::obeys_partial_cmp_spec() ==> (r.is_err() <==> is_singular(
                determinant(transposed(polar_motion_matrix@)),
                tolerance,
            )),
            exact::<T>() && T::obeys_partial_cmp_spec() ==> (r matches Ok(p) ==> p.components()
                == unrotated(polar_motion_matrix@, ecef_vel.components())),
    {
        let velocity_ecef_matrix = vec![ecef_vel.x_vel, ecef_vel.y_vel, ecef_vel.z_vel];
        assert(velocity_ecef_matrix@ =~= ecef_vel.components());
        match unrotate(polar_motion_matrix, &velocity_ecef_matrix, tolerance) {
            Ok(v) => {
                let p = PEFVel { x_vel: v[0], y_vel: v[1], z_vel: v[2] };
                assert(p.components() =~= v@);
                Ok(p)
            },
            Err(e) => Err(e),
        }
    }
}

} // verus!
