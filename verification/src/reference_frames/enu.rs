//! The local tangent plane with axes east, north and up.

use crate::matrix::{matrix_times_vec, product, product_defined};
use crate::reference_frames::ecef::{
    generate_ecef_to_ned_matrix, local_axes, local_axes_defined, ECEF,
};
use crate::reference_frames::ned::NED;
use crate::scalar::{computable, exact, Scalar};
use core::ops::Neg;
use vstd::prelude::*;
use vstd::std_specs::ops::NegSpec;

verus! {

/// An offset from the reference point of a local tangent plane.
#[derive(Debug)]
pub struct ENU<T> {
    pub e: T,
    pub n: T,
    pub u: T,
}

impl<T: Copy> Clone for ENU<T> {
    fn clone(&self) -> (r: Self)
        ensures
            r == *self,
    {
        *self
    }
}

impl<T: Copy> Copy for ENU<T> {

}

impl<T: Scalar> ENU<T> {
    pub fn new_from_raw(e: T, n: T, u: T) -> (r: ENU<T>)
        ensures
            r == (ENU { e, n, u }),
    {
        ENU { e, n, u }
    }

    /// The offset `ned` with its axes named east, north and up.
    pub open spec fn of_ned(ned: NED<T>) -> ENU<T> {
        ENU { e: ned.e, n: ned.n, u: ned.d.neg_spec() }
    }

    /// The same offset with its axes named east, north and up: east and
    /// north are kept, and up is down with its sign changed.
    pub fn new_from_ned(ned: &NED<T>) -> (r: ENU<T>)
        requires
            computable::<T>(ned.d.neg_req()),
        ensures
            r.e == ned.e,
            r.n == ned.n,
            exact::<T>() ==> r == ENU::of_ned(*ned),
    {
        ENU { e: ned.e, n: ned.n, u: ned.d.neg() }
    }

    /// `ecef`, read as a vector from the centre of the Earth, in the local
    /// plane at the latitude and longitude with these sines and cosines:
    /// turned by the rotation of [`generate_ecef_to_ned_matrix`], whose rows
    /// are north, east and down, and named east, north and up. East is
    /// `-sin_lon * x + cos_lon * y`; it depends on the longitude alone.
    pub fn new_from_ecef(ecef: &ECEF<T>, sin_lat: T, cos_lat: T, sin_lon: T, cos_lon: T) -> (r:
        ENU<T>)
        requires
            computable::<T>(
                {
                    &&& local_axes_defined(sin_lat, cos_lat, sin_lon, cos_lon)
                    &&& product_defined(
                        local_axes(sin_lat, cos_lat, sin_lon, cos_lon),
                        ecef.components(),
                    )
                    &&& product(local_axes(sin_lat, cos_lat, sin_lon, cos_lon), ecef.components())[2]
                        .neg_req()
                },
            ),
        ensures
            exact::<T>() ==> r == ENU::of_ned(
                NED::of_components(
                    product(local_axes(sin_lat, cos_lat, sin_lon, cos_lon), ecef.components()),
                ),
            ),
    {
        let rotation = generate_ecef_to_ned_matrix(sin_lat, cos_lat, sin_lon, cos_lon);
        let ecef_vec = vec![ecef.x, ecef.y, ecef.z];
        assert(ecef_vec@ =~= ecef.components());
        let ned_vec = matrix_times_vec(&rotation, &ecef_vec);
        ENU { e: ned_vec[1], n: ned_vec[0], u: ned_vec[2].neg() }
    }
}

} // verus!
