//! Round trips of the frame pipeline, proved where the operations are exact:
//! in every commutative ring, and in whole numbers as far as nothing
//! overflows.

use crate::matrix::{
    adjugate, determinant, difference, difference_defined, product, product_defined, sum,
    sum_defined, transposed, transposed_product, transposed_product_defined, unrotated,
    unrotated_defined,
};
use crate::matrix_laws::{
    is_rotation, lemma_is_rotation_by_entries, lemma_transpose_undoes_rotation,
    lemma_unit_circle, lemma_unrotate_undoes_transpose,
};
use crate::reference_frames::ecef::{local_axes, local_axes_defined, ECEF};
use crate::ring_laws::{
    has_negatives, is_ring, is_rotation_in, lemma_local_axes_are_a_rotation_in_a_ring,
    lemma_sum_undoes_difference, lemma_transpose_undoes_rotation_in_a_ring,
};
use crate::scalar::one;
use vstd::std_specs::ops::AddSpec;
use crate::scalar::Scalar;
use crate::reference_frames::enu::ENU;
use crate::reference_frames::ned::NED;
use crate::reference_frames::pef::{less_spin, less_spin_defined, with_spin, with_spin_defined};
use crate::reference_frames::teme::{TEMEVel, TEME};
use vstd::prelude::*;
use vstd::std_specs::ops::{MulSpec, NegSpec};

verus! {

/// The local tangent round trip: a point taken into the local plane at a
/// reference point, by `NED::new_from_ecef_rot`, and back, by
/// `ECEF::new_from_ned_rot` with the same rotation and reference, is the
/// point that went in. This holds of every point, reference and rotation in
/// whole numbers for which no operation on the way overflows.
pub proof fn lemma_local_tangent_round_trip(
    point: ECEF<i64>,
    reference: ECEF<i64>,
    rotation: Seq<i64>,
)
    requires
        is_rotation(rotation),
        difference_defined(point.components(), reference.components()),
        product_defined(rotation, difference(point.components(), reference.components())),
        transposed_product_defined(
            rotation,
            product(rotation, difference(point.components(), reference.components())),
        ),
        sum_defined(
            transposed_product(
                rotation,
                product(rotation, difference(point.components(), reference.components())),
            ),
            reference.components(),
        ),
    ensures
        sum(
            transposed_product(
                rotation,
                product(rotation, difference(point.components(), reference.components())),
            ),
            reference.components(),
        ) == point.components(),
{
    let offset = difference(point.components(), reference.components());
    lemma_transpose_undoes_rotation(rotation, offset, 1);
    let back = sum(transposed_product(rotation, product(rotation, offset)), reference.components());
    assert(back =~= point.components());
}

/// The local tangent round trip in every commutative ring: for a number
/// type whose arithmetic keeps the laws of addition and multiplication, a
/// point taken into the local plane at a reference point, by
/// `NED::new_from_ecef_rot`, and back, by `ECEF::new_from_ned_rot` with the
/// same rotation and reference, is the point that went in. This holds of
/// every point, every reference and every matrix whose columns have length
/// one and are orthogonal to each other.
pub proof fn lemma_local_tangent_round_trip_in_a_ring<T: Scalar>(
    point: ECEF<T>,
    reference: ECEF<T>,
    rotation: Seq<T>,
)
    requires
        is_ring::<T>(),
        is_rotation_in(rotation),
    ensures
        sum(
            transposed_product(
                rotation,
                product(rotation, difference(point.components(), reference.components())),
            ),
            reference.components(),
        ) == point.components(),
{
    let offset = difference(point.components(), reference.components());
    lemma_transpose_undoes_rotation_in_a_ring(rotation, offset);
    lemma_sum_undoes_difference(point.components(), reference.components());
}

/// The two local planes name the same offsets: north-east-down to
/// east-north-up and back, by `ENU::new_from_ned` and `NED::new_from_enu`,
/// gives the offset that went in, and so does the other way round. This holds
/// in whole numbers wherever the change of sign does not overflow.
pub proof fn lemma_local_planes_round_trip(ned: NED<i64>, enu: ENU<i64>)
    requires
        ned.d.neg_req(),
        enu.u.neg_req(),
    ensures
        NED::of_enu(ENU::of_ned(ned)) == ned,
        ENU::of_ned(NED::of_enu(enu)) == enu,
{
}

/// What adds the spin takes it off again: [`with_spin`] undoes [`less_spin`]
/// at the same position and rate, in whole numbers wherever no operation
/// overflows.
pub proof fn lemma_with_spin_undoes_less_spin(v: Seq<i64>, omega: i64, p: Seq<i64>)
    requires
        v.len() == 3,
        p.len() == 3,
        less_spin_defined(v, omega, p),
    ensures
        with_spin_defined(less_spin(v, omega, p), omega, p),
        with_spin(less_spin(v, omega, p), omega, p) == v,
{
    assert(with_spin(less_spin(v, omega, p), omega, p) =~= v);
}

/// A point that turns with the Earth is at rest on it: the velocity
/// `(-omega * p.y, omega * p.x, 0)` that the rotation gives the position `p`
/// becomes zero by [`less_spin`]. This holds in whole numbers wherever no
/// operation overflows.
pub proof fn lemma_turning_with_the_earth_is_rest(omega: i64, p: Seq<i64>)
    requires
        p.len() == 3,
        omega.mul_req(p[0]),
        omega.mul_req(p[1]),
        omega.mul_spec(p[1]).neg_req(),
    ensures
        less_spin_defined(seq![omega.mul_spec(p[1]).neg_spec(), omega.mul_spec(p[0]), 0i64], omega, p),
        less_spin(seq![omega.mul_spec(p[1]).neg_spec(), omega.mul_spec(p[0]), 0i64], omega, p)
            == seq![0i64, 0i64, 0i64],
{
    let v = seq![omega.mul_spec(p[1]).neg_spec(), omega.mul_spec(p[0]), 0i64];
    assert(less_spin(v, omega, p) =~= seq![0i64, 0i64, 0i64]);
}

/// The velocity round trip between the quasi-inertial and the pseudo
/// Earth-fixed frame: a velocity taken to the turning Earth by
/// `PEFVel::new_from_teme_vel_rot`, and back by
/// `TEMEVel::new_from_pef_vel_rot` at the position of
/// `PEF::new_from_teme_rot`, with the same matrix and rate, is the velocity
/// that went in. This holds in whole numbers for a matrix whose transpose has
/// the determinant 1 or -1, wherever no operation on the way overflows.
pub proof fn lemma_velocity_round_trip(
    teme: TEME<i64>,
    teme_vel: TEMEVel<i64>,
    pef_tod_matrix: Seq<i64>,
    omega_earth: i64,
)
    requires
        pef_tod_matrix.len() == 9,
        determinant(transposed(pef_tod_matrix)) == 1 || determinant(transposed(pef_tod_matrix))
            == -1,
        transposed_product_defined(pef_tod_matrix, teme.components()),
        transposed_product_defined(pef_tod_matrix, teme_vel.components()),
        less_spin_defined(
            transposed_product(pef_tod_matrix, teme_vel.components()),
            omega_earth,
            transposed_product(pef_tod_matrix, teme.components()),
        ),
        unrotated_defined(
            pef_tod_matrix,
            transposed_product(pef_tod_matrix, teme_vel.components()),
            0,
        ),
        product_defined(
            adjugate(transposed(pef_tod_matrix)),
            transposed_product(pef_tod_matrix, teme_vel.components()),
        ),
    ensures
        ({
            let pef = transposed_product(pef_tod_matrix, teme.components());
            let pef_vel = less_spin(
                transposed_product(pef_tod_matrix, teme_vel.components()),
                omega_earth,
                pef,
            );
            &&& with_spin_defined(pef_vel, omega_earth, pef)
            &&& unrotated_defined(pef_tod_matrix, with_spin(pef_vel, omega_earth, pef), 0)
            &&& unrotated(pef_tod_matrix, with_spin(pef_vel, omega_earth, pef))
                == teme_vel.components()
        }),
{
    let pef = transposed_product(pef_tod_matrix, teme.components());
    let turned = transposed_product(pef_tod_matrix, teme_vel.components());
    lemma_with_spin_undoes_less_spin(turned, omega_earth, pef);
    lemma_unrotate_undoes_transpose(pef_tod_matrix, teme_vel.components());
}

/// The local axes are a rotation: for sines and cosines whose squares add up
/// to one, pair by pair, the columns of [`local_axes`], the matrix of
/// `generate_ecef_to_ned_matrix`, have length one and are orthogonal to each
/// other, and none of its operations overflows. This holds in whole numbers,
/// where such pairs are the points on the equator and at the poles, at every
/// quarter turn of longitude.
pub proof fn lemma_local_axes_are_a_rotation(sin_lat: i64, cos_lat: i64, sin_lon: i64, cos_lon: i64)
    requires
        sin_lat * sin_lat + cos_lat * cos_lat == 1,
        sin_lon * sin_lon + cos_lon * cos_lon == 1,
    ensures
        local_axes_defined(sin_lat, cos_lat, sin_lon, cos_lon),
        is_rotation(local_axes(sin_lat, cos_lat, sin_lon, cos_lon)),
{
    lemma_unit_circle(sin_lat, cos_lat);
    lemma_unit_circle(sin_lon, cos_lon);
    let (a, b, c, d) = (sin_lat as int, cos_lat as int, sin_lon as int, cos_lon as int);
    assert(-1 <= (-a) * d <= 1 && -1 <= (-a) * c <= 1 && -1 <= (-b) * d <= 1 && -1 <= (-b) * c <= 1)
        by (nonlinear_arith)
        requires
            -1 <= a <= 1,
            -1 <= b <= 1,
            -1 <= c <= 1,
            -1 <= d <= 1,
    ;
    let m = local_axes(sin_lat, cos_lat, sin_lon, cos_lon);
    assert(m[0] == (-a) * d && m[1] == (-a) * c && m[2] == b);
    assert(m[3] == -c && m[4] == d && m[5] == 0);
    assert(m[6] == (-b) * d && m[7] == (-b) * c && m[8] == -a);
    assert(((-a) * d) * ((-a) * d) + (-c) * (-c) + ((-b) * d) * ((-b) * d) == 1 && ((-a) * c) * ((
    -a) * c) + d * d + ((-b) * c) * ((-b) * c) == 1 && b * b + 0 * 0 + (-a) * (-a) == 1)
        by (nonlinear_arith)
        requires
            a * a + b * b == 1,
            c * c + d * d == 1,
    ;
    assert(((-a) * d) * ((-a) * c) + (-c) * d + ((-b) * d) * ((-b) * c) == 0) by (nonlinear_arith)
        requires
            a * a + b * b == 1,
    ;
    assert(((-a) * d) * b + (-c) * 0 + ((-b) * d) * (-a) == 0 && ((-a) * c) * b + d * 0 + ((-b)
        * c) * (-a) == 0) by (nonlinear_arith);
    assert(m[0] * m[0] + m[3] * m[3] + m[6] * m[6] == 1);
    assert(m[1] * m[1] + m[4] * m[4] + m[7] * m[7] == 1);
    assert(m[2] * m[2] + m[5] * m[5] + m[8] * m[8] == 1);
    assert(m[0] * m[1] + m[3] * m[4] + m[6] * m[7] == 0);
    assert(m[0] * m[2] + m[3] * m[5] + m[6] * m[8] == 0);
    assert(m[1] * m[2] + m[4] * m[5] + m[7] * m[8] == 0);
    lemma_is_rotation_by_entries(m);
}

/// The local tangent round trip at a reference point: with the matrix that
/// `generate_ecef_to_ned_matrix` builds from sines and cosines whose squares
/// add up to one, pair by pair, a point taken into the local plane and back
/// is the point that went in. This holds in whole numbers wherever no
/// operation on the way overflows.
pub proof fn lemma_local_tangent_round_trip_at(
    point: ECEF<i64>,
    reference: ECEF<i64>,
    sin_lat: i64,
    cos_lat: i64,
    sin_lon: i64,
    cos_lon: i64,
)
    requires
        sin_lat * sin_lat + cos_lat * cos_lat == 1,
        sin_lon * sin_lon + cos_lon * cos_lon == 1,
        difference_defined(point.components(), reference.components()),
        product_defined(
            local_axes(sin_lat, cos_lat, sin_lon, cos_lon),
            difference(point.components(), reference.components()),
        ),
        transposed_product_defined(
            local_axes(sin_lat, cos_lat, sin_lon, cos_lon),
            product(
                local_axes(sin_lat, cos_lat, sin_lon, cos_lon),
                difference(point.components(), reference.components()),
            ),
        ),
        sum_defined(
            transposed_product(
                local_axes(sin_lat, cos_lat, sin_lon, cos_lon),
                product(
                    local_axes(sin_lat, cos_lat, sin_lon, cos_lon),
                    difference(point.components(), reference.components()),
                ),
            ),
            reference.components(),
        ),
    ensures
        sum(
            transposed_product(
                local_axes(sin_lat, cos_lat, sin_lon, cos_lon),
                product(
                    local_axes(sin_lat, cos_lat, sin_lon, cos_lon),
                    difference(point.components(), reference.components()),
                ),
            ),
            reference.components(),
        ) == point.components(),
{
    lemma_local_axes_are_a_rotation(sin_lat, cos_lat, sin_lon, cos_lon);
    lemma_local_tangent_round_trip(
        point,
        reference,
        local_axes(sin_lat, cos_lat, sin_lon, cos_lon),
    );
}

/// The local tangent round trip at a reference point, in every commutative
/// ring: with the matrix that `generate_ecef_to_ned_matrix` builds from
/// sines and cosines whose squares add up to one, pair by pair, a point
/// taken into the local plane at a reference point and back is the point
/// that went in. This holds of every point and every reference.
pub proof fn lemma_local_tangent_round_trip_at_in_a_ring<T: Scalar>(
    point: ECEF<T>,
    reference: ECEF<T>,
    sin_lat: T,
    cos_lat: T,
    sin_lon: T,
    cos_lon: T,
)
    requires
        is_ring::<T>(),
        has_negatives::<T>(),
        sin_lat.mul_spec(sin_lat).add_spec(cos_lat.mul_spec(cos_lat)) == one::<T>(),
        sin_lon.mul_spec(sin_lon).add_spec(cos_lon.mul_spec(cos_lon)) == one::<T>(),
    ensures
        sum(
            transposed_product(
                local_axes(sin_lat, cos_lat, sin_lon, cos_lon),
                product(
                    local_axes(sin_lat, cos_lat, sin_lon, cos_lon),
                    difference(point.components(), reference.components()),
                ),
            ),
            reference.components(),
        ) == point.components(),
{
    lemma_local_axes_are_a_rotation_in_a_ring(sin_lat, cos_lat, sin_lon, cos_lon);
    lemma_local_tangent_round_trip_in_a_ring(
        point,
        reference,
        local_axes(sin_lat, cos_lat, sin_lon, cos_lon),
    );
}

} // verus!
