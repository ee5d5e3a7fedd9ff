//! The local tangent plane with axes north, east and down.

use crate::matrix::{
    difference, difference_defined, matrix_times_vec, product, product_defined, quotient,
    quotient_defined,
};
use crate::reference_frames::ecef::{ECEFVel, ECEF};
use crate::reference_frames::enu::ENU;
use crate::scalar::{computable, exact, zero, Scalar};
use core::ops::Neg;
use vstd::prelude::*;
use vstd::std_specs::ops::NegSpec;

verus! {

/// An offset from the reference point of a local tangent plane.
#[derive(Debug)]
pub struct NED<T> {
    pub n: T,
    pub e: T,
    pub d: T,
}

impl<T: Copy> Clone for NED<T> {
    fn clone(&self) -> (r: Self)
        ensures
            r == *self,
    {
        *self
    }
}

impl<T: Copy> Copy for NED<T> {

}

impl<T: Scalar> NED<T> {
    /// North, east and down, in this order.
    pub open spec fn components(self) -> Seq<T> {
        seq![self.n, self.e, self.d]
    }

    /// No offset: the reference point itself.
    pub fn default() -> (r: NED<T>)
        ensures
            exact::<T>() ==> r == (NED { n: zero::<T>(), e: zero::<T>(), d: zero::<T>() }),
    {
        NED { n: T::from(0i32), e: T::from(0i32), d: T::from(0i32) }
    }

    pub fn new_from_raw(n: T, e: T, d: T) -> (r: NED<T>)
        ensures
            r == (NED { n, e, d }),
    {
        NED { n, e, d }
    }

    /// The offset whose components are the entries of `ned_vec`.
    pub fn new_from_vec(ned_vec: Vec<T>) -> (r: NED<T>)
        requires
            ned_vec.len() == 3,
        ensures
            r == (NED { n: ned_vec[0], e: ned_vec[1], d: ned_vec[2] }),
    {
        NED::new_from_raw(ned_vec[0], ned_vec[1], ned_vec[2])
    }

    /// The offset with the components `v`: north, east and down.
    pub open spec fn of_components(v: Seq<T>) -> NED<T> {
        NED { n: v[0], e: v[1], d: v[2] }
    }

    /// The offset `enu` with its axes named north, east and down.
    pub open spec fn of_enu(enu: ENU<T>) -> NED<T> {
        NED { n: enu.n, e: enu.e, d: enu.u.neg_spec() }
    }

    /// The same offset with its axes named north, east and down: north and
    /// east are kept, and down is up with its sign changed.
    pub fn new_from_enu(enu: &ENU<T>) -> (r: NED<T>)
        requires
            computable::<T>(enu.u.neg_req()),
        ensures
            r.n == enu.n,
            r.e == enu.e,
            exact::<T>() ==> r == NED::of_enu(*enu),
    {
        NED { n: enu.n, e: enu.e, d: enu.u.neg() }
    }

    /// The offset of `ecef` from `reference_point`, turned into the local
    /// plane by `rotation_matrix`.
    pub fn new_from_ecef_rot(
        ecef: &ECEF<T>,
        rotation_matrix: &Vec<T>,
        reference_point: &ECEF<T>,
    ) -> (r: NED<T>)
        requires
            rotation_matrix.len() == 9,
            computable::<T>(
                difference_defined(ecef.components(), reference_point.components())
                    && product_defined(
                    rotation_matrix@,
                    difference(ecef.components(), reference_point.components()),
                ),
            ),
        ensures
            exact::<T>() ==> r.components() == product(
                rotation_matrix@,
                difference(ecef.components(), reference_point.components()),
            ),
    {
        let x = ecef.x - reference_point.x;
        let y = ecef.y - reference_point.y;
        let z = ecef.z - reference_point.z;
        let ecef_vec = vec![x, y, z];
        assert(exact::<T>() ==> ecef_vec@ =~= difference(
            ecef.components(),
            reference_point.components(),
        ));
        let ned_vec = matrix_times_vec(rotation_matrix, &ecef_vec);
        let r = NED { n: ned_vec[0], e: ned_vec[1], d: ned_vec[2] };
        assert(exact::<T>() ==> r.components() =~= ned_vec@);
        r
    }

    pub fn to_vec(&self) -> (r: Vec<T>)
        ensures
            r@ == self.components(),
    {
        let r = vec![self.n, self.e, self.d];
        assert(r@ =~= self.components());
        r
    }
}

/// A velocity in the local tangent plane.
#[derive(Debug)]
pub struct NEDVel<T> {
    pub n_vel: T,
    pub e_vel: T,
    pub d_vel: T,
}

impl<T: Copy> Clone for NEDVel<T> {
    fn clone(&self) -> (r: Self)
        ensures
            r == *self,
    {
        *self
    }
}

impl<T: Copy> Copy for NEDVel<T> {

}

impl<T: Scalar> NEDVel<T> {
    /// North, east and down, in this order.
    pub open spec fn components(self) -> Seq<T> {
        seq![self.n_vel, self.e_vel, self.d_vel]
    }

    /// The velocity that leads from `a` to `b` in the time `dt` without
    /// acceleration.
    pub fn linear_speed(a: &NED<T>, b: &NED<T>, dt: T) -> (r: NEDVel<T>)
        requires
            computable::<T>(
                difference_defined(b.components(), a.components()) && quotient_defined(
                    difference(b.components(), a.components()),
                    dt,
                ),
            ),
        ensures
            exact::<T>() ==> r.components() == quotient(
                difference(b.components(), a.components()),
                dt,
            ),
    {
        let r = NEDVel { n_vel: (b.n - a.n) / dt, e_vel: (b.e - a.e) / dt, d_vel: (b.d - a.d) / dt };
        assert(exact::<T>() ==> r.components() =~= quotient(
            difference(b.components(), a.components()),
            dt,
        ));
        r
    }

    /// An Earth-fixed velocity turned into the local plane by
    /// `rotation_matrix`.
    pub fn new_from_ecef_rot(ecef: &ECEFVel<T>, rotation_matrix: &Vec<T>) -> (r: NEDVel<T>)
        requires
            rotation_matrix.len() == 9,
            computable::<T>(product_defined(rotation_matrix@, ecef.components())),
        ensures
            exact::<T>() ==> r.components() == product(rotation_matrix@, ecef.components()),
    {
        let ecef_vec = vec![ecef.x_vel, ecef.y_vel, ecef.z_vel];
        assert(ecef_vec@ =~= ecef.components());
        let ned_vec = matrix_times_vec(rotation_matrix, &ecef_vec);
        let r = NEDVel { n_vel: ned_vec[0], e_vel: ned_vec[1], d_vel: ned_vec[2] };
        assert(exact::<T>() ==> r.components() =~= ned_vec@);
        r
    }
}

} // verus!
