//! The true-equator mean-equinox frame: quasi-inertial, with the pole and the
//! origin of the Earth-fixed frames. Orbital elements are given in it.

use crate::error::GeoError;
use crate::matrix::{determinant, is_singular, transposed, unrotate, unrotated, unrotated_defined};
use crate::reference_frames::pef::{with_spin, with_spin_defined, PEFVel, PEF};
use crate::scalar::{computable, exact, Scalar};
use vstd::prelude::*;
use vstd::std_specs::cmp::PartialOrdSpec;
use vstd::std_specs::ops::{AddSpec, MulSpec, SubSpec};

verus! {

/// A position in the quasi-inertial frame.
#[derive(Debug)]
pub struct TEME<T> {
    pub x: T,
    pub y: T,
    pub z: T,
}

impl<T: Copy> Clone for TEME<T> {
    fn clone(&self) -> (r: Self)
        ensures
            r == *self,
    {
        *self
    }
}

impl<T: Copy> Copy for TEME<T> {

}

impl<T: Scalar> TEME<T> {
    /// The three coordinates in their order.
    pub open spec fn components(self) -> Seq<T> {
        seq![self.x, self.y, self.z]
    }

    /// A position of the turning Earth in the quasi-inertial frame: what
    /// the transpose of the sidereal rotation `pef_tod_matrix` takes to
    /// `pef`. `SingularTransform` if the determinant of that transpose is
    /// within `tolerance` of zero.
    pub fn new_from_pef_rot(pef: &PEF<T>, pef_tod_matrix: &Vec<T>, tolerance: T) -> (r: Result<
        TEME<T>,
        GeoError,
    >) where T: PartialOrd
        requires
            pef_tod_matrix.len() == 9,
            computable::<T>(
                T::obeys_partial_cmp_spec() && unrotated_defined(
                    pef_tod_matrix@,
                    pef.components(),
                    tolerance,
                ),
            ),
        ensures
            r matches Err(e) ==> e == GeoError::SingularTransform,
            exact::<T>() && T::obeys_partial_cmp_spec() ==> (r.is_err() <==> is_singular(
                determinant(transposed(pef_tod_matrix@)),
                tolerance,
            )),
            exact::<T>() && T::obeys_partial_cmp_spec() ==> (r matches Ok(p) ==> p.components()
                == unrotated(pef_tod_matrix@, pef.components())),
    {
        let pef_matrix = vec![pef.x, pef.y, pef.z];
        assert(pef_matrix@ =~= pef.components());
        match unrotate(pef_tod_matrix, &pef_matrix, tolerance) {
            Ok(teme) => {
                let p = TEME { x: teme[0], y: teme[1], z: teme[2] };
                assert(p.components() =~= teme@);
                Ok(p)
            },
            Err(e) => Err(e),
        }
    }
}

/// A velocity in the quasi-inertial frame.
#[derive(Debug)]
pub struct TEMEVel<T> {
    pub x_vel: T,
    pub y_vel: T,
    pub z_vel: T,
}

impl<T: Copy> Clone for TEMEVel<T> {
    fn clone(&self) -> (r: Self)
        ensures
            r == *self,
    {
        *self
    }
}

impl<T: Copy> Copy for TEMEVel<T> {

}

impl<T: Scalar> TEMEVel<T> {
    /// The three components in their order.
    pub open spec fn components(self) -> Seq<T> {
        seq![self.x_vel, self.y_vel, self.z_vel]
    }

    /// A velocity of the turning Earth in the quasi-inertial frame:
    /// `pef_vel` with the cross product of the rotation at the rate
    /// `omega_earth` and the position `pef` put back, and then what the
    /// transpose of the sidereal rotation `pef_tod_matrix` takes to that.
    /// `SingularTransform` if the determinant of that transpose is within
    /// `tolerance` of zero.
    pub fn new_from_pef_vel_rot(
        pef: &PEF<T>,
        pef_vel: &PEFVel<T>,
        pef_tod_matrix: &Vec<T>,
        omega_earth: T,
        tolerance: T,
    ) -> (r: Result<TEMEVel<T>, GeoError>) where T: PartialOrd
        requires
            pef_tod_matrix.len() == 9,
            computable::<T>(
                {
                    &&& T::obeys_partial_cmp_spec()
                    &&& with_spin_defined(pef_vel.components(), omega_earth, pef.components())
                    &&& unrotated_defined(
                        pef_tod_matrix@,
                        with_spin(pef_vel.components(), omega_earth, pef.components()),
                        tolerance,
                    )
                },
            ),
        ensures
            r matches Err(e) ==> e == GeoError::SingularTransform,
            exact::<T>() && T::obeys_partial_cmp_spec() ==> (r.is_err() <==> is_singular(
                determinant(transposed(pef_tod_matrix@)),
                tolerance,
            )),
            exact::<T>() && T::obeys_partial_cmp_spec() ==> (r matches Ok(v) ==> v.components()
                == unrotated(
                pef_tod_matrix@,
                with_spin(pef_vel.components(), omega_earth, pef.components()),
            )),
    {
        let x_vel = pef_vel.x_vel - omega_earth * pef.y;
        let y_vel = pef_vel.y_vel + omega_earth * pef.x;
        let inertial = vec![x_vel, y_vel, pef_vel.z_vel];
        assert(exact::<T>() ==> inertial@ =~= with_spin(
            pef_vel.components(),
            omega_earth,
            pef.components(),
        ));
        match unrotate(pef_tod_matrix, &inertial, tolerance) {
            Ok(velocity_teme) => {
                let v = TEMEVel {
                    x_vel: velocity_teme[0],
                    y_vel: velocity_teme[1],
                    z_vel: velocity_teme[2],
                };
                assert(v.components() =~= velocity_teme@);
                Ok(v)
            },
            Err(e) => Err(e),
        }
    }
}

} // verus!
