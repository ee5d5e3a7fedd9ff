//! 3x3 matrices, stored row by row in nine entries, and their products with
//! vectors of three.

use crate::error::GeoError;
use core::ops::Neg;
use crate::scalar::{computable, dot, dot3, dot3_defined, exact, total, Scalar};
use vstd::prelude::*;
use vstd::std_specs::cmp::{PartialOrdIs, PartialOrdSpec};
use vstd::std_specs::ops::{AddSpec, DivSpec, MulSpec, NegSpec, SubSpec};

verus! {

/// Rows `0..3` of a matrix of nine entries.
pub open spec fn row<T>(m: Seq<T>, i: int) -> (T, T, T) {
    (m[3 * i], m[3 * i + 1], m[3 * i + 2])
}

/// Columns `0..3` of a matrix of nine entries.
pub open spec fn column<T>(m: Seq<T>, j: int) -> (T, T, T) {
    (m[j], m[3 + j], m[6 + j])
}

/// A vector of three entries as a triple.
pub open spec fn triple<T>(v: Seq<T>) -> (T, T, T) {
    (v[0], v[1], v[2])
}

/// The matrix whose rows are the columns of `m`.
pub open spec fn transposed<T>(m: Seq<T>) -> Seq<T> {
    seq![m[0], m[3], m[6], m[1], m[4], m[7], m[2], m[5], m[8]]
}

/// The product of the matrix `m` and the vector `v`.
pub open spec fn product<T: Scalar>(m: Seq<T>, v: Seq<T>) -> Seq<T> {
    seq![dot3(row(m, 0), triple(v)), dot3(row(m, 1), triple(v)), dot3(row(m, 2), triple(v))]
}

/// The operations of [`product`] accept their operands.
pub open spec fn product_defined<T: Scalar>(m: Seq<T>, v: Seq<T>) -> bool {
    &&& dot3_defined(row(m, 0), triple(v))
    &&& dot3_defined(row(m, 1), triple(v))
    &&& dot3_defined(row(m, 2), triple(v))
}

/// The product of the transpose of `m` and the vector `v`.
pub open spec fn transposed_product<T: Scalar>(m: Seq<T>, v: Seq<T>) -> Seq<T> {
    seq![
        dot3(column(m, 0), triple(v)),
        dot3(column(m, 1), triple(v)),
        dot3(column(m, 2), triple(v)),
    ]
}

/// The operations of [`transposed_product`] accept their operands.
pub open spec fn transposed_product_defined<T: Scalar>(m: Seq<T>, v: Seq<T>) -> bool {
    &&& dot3_defined(column(m, 0), triple(v))
    &&& dot3_defined(column(m, 1), triple(v))
    &&& dot3_defined(column(m, 2), triple(v))
}

/// The sum of two vectors of three, entry by entry.
pub open spec fn sum<T: Scalar>(a: Seq<T>, b: Seq<T>) -> Seq<T> {
    seq![a[0].add_spec(b[0]), a[1].add_spec(b[1]), a[2].add_spec(b[2])]
}

/// The operations of [`sum`] accept their operands.
pub open spec fn sum_defined<T: Scalar>(a: Seq<T>, b: Seq<T>) -> bool {
    a[0].add_req(b[0]) && a[1].add_req(b[1]) && a[2].add_req(b[2])
}

/// The difference of two vectors of three, entry by entry.
pub open spec fn difference<T: Scalar>(a: Seq<T>, b: Seq<T>) -> Seq<T> {
    seq![a[0].sub_spec(b[0]), a[1].sub_spec(b[1]), a[2].sub_spec(b[2])]
}

/// The operations of [`difference`] accept their operands.
pub open spec fn difference_defined<T: Scalar>(a: Seq<T>, b: Seq<T>) -> bool {
    a[0].sub_req(b[0]) && a[1].sub_req(b[1]) && a[2].sub_req(b[2])
}

/// A vector of three with each entry divided by `d`.
pub open spec fn quotient<T: Scalar>(a: Seq<T>, d: T) -> Seq<T> {
    seq![a[0].div_spec(d), a[1].div_spec(d), a[2].div_spec(d)]
}

/// The operations of [`quotient`] accept their operands.
pub open spec fn quotient_defined<T: Scalar>(a: Seq<T>, d: T) -> bool {
    a[0].div_req(d) && a[1].div_req(d) && a[2].div_req(d)
}

/// `p * q - r * s`: a 2x2 determinant.
pub open spec fn minor<T: Scalar>(p: T, q: T, r: T, s: T) -> T {
    p.mul_spec(q).sub_spec(r.mul_spec(s))
}

/// The operations of [`minor`] accept their operands.
pub open spec fn minor_defined<T: Scalar>(p: T, q: T, r: T, s: T) -> bool {
    &&& p.mul_req(q)
    &&& r.mul_req(s)
    &&& p.mul_spec(q).sub_req(r.mul_spec(s))
}

/// The determinant of `m`, expanded along its first row.
pub open spec fn determinant<T: Scalar>(m: Seq<T>) -> T {
    m[0].mul_spec(minor(m[4], m[8], m[5], m[7])).sub_spec(
        m[1].mul_spec(minor(m[3], m[8], m[5], m[6])),
    ).add_spec(m[2].mul_spec(minor(m[3], m[7], m[4], m[6])))
}

/// The operations of [`determinant`] accept their operands.
pub open spec fn determinant_defined<T: Scalar>(m: Seq<T>) -> bool {
    &&& minor_defined(m[4], m[8], m[5], m[7])
    &&& minor_defined(m[3], m[8], m[5], m[6])
    &&& minor_defined(m[3], m[7], m[4], m[6])
    &&& m[0].mul_req(minor(m[4], m[8], m[5], m[7]))
    &&& m[1].mul_req(minor(m[3], m[8], m[5], m[6]))
    &&& m[2].mul_req(minor(m[3], m[7], m[4], m[6]))
    &&& m[0].mul_spec(minor(m[4], m[8], m[5], m[7])).sub_req(
        m[1].mul_spec(minor(m[3], m[8], m[5], m[6])),
    )
    &&& m[0].mul_spec(minor(m[4], m[8], m[5], m[7])).sub_spec(
        m[1].mul_spec(minor(m[3], m[8], m[5], m[6])),
    ).add_req(m[2].mul_spec(minor(m[3], m[7], m[4], m[6])))
}

/// The transposed matrix of cofactors of `m`: the inverse of `m` times its
/// determinant.
pub open spec fn adjugate<T: Scalar>(m: Seq<T>) -> Seq<T> {
    seq![
        minor(m[4], m[8], m[5], m[7]),
        minor(m[2], m[7], m[1], m[8]),
        minor(m[1], m[5], m[2], m[4]),
        minor(m[5], m[6], m[3], m[8]),
        minor(m[0], m[8], m[2], m[6]),
        minor(m[2], m[3], m[0], m[5]),
        minor(m[3], m[7], m[4], m[6]),
        minor(m[1], m[6], m[0], m[7]),
        minor(m[0], m[4], m[1], m[3]),
    ]
}

/// The operations of [`adjugate`] accept their operands.
pub open spec fn adjugate_defined<T: Scalar>(m: Seq<T>) -> bool {
    &&& minor_defined(m[4], m[8], m[5], m[7])
    &&& minor_defined(m[2], m[7], m[1], m[8])
    &&& minor_defined(m[1], m[5], m[2], m[4])
    &&& minor_defined(m[5], m[6], m[3], m[8])
    &&& minor_defined(m[0], m[8], m[2], m[6])
    &&& minor_defined(m[2], m[3], m[0], m[5])
    &&& minor_defined(m[3], m[7], m[4], m[6])
    &&& minor_defined(m[1], m[6], m[0], m[7])
    &&& minor_defined(m[0], m[4], m[1], m[3])
}

/// `d` is zero, or as close to zero as `tolerance` allows: it is neither
/// greater than `tolerance` nor less than `-tolerance`. A `d` that compares
/// with nothing is singular too.
pub open spec fn is_singular<T: Scalar + PartialOrd>(d: T, tolerance: T) -> bool {
    !d.is_gt(&tolerance) && !d.is_lt(&tolerance.neg_spec())
}

/// The inverse of `m` by the cofactor formula: each entry of the adjugate
/// over the determinant.
pub open spec fn inverse<T: Scalar>(m: Seq<T>) -> Seq<T> {
    Seq::new(9, |k: int| adjugate(m)[k].div_spec(determinant(m)))
}

/// The operations that [`invert_matrix`] carries out accept their operands:
/// those of the determinant, the sign change of the tolerance and, unless the
/// matrix is singular, those of the adjugate and the nine divisions.
pub open spec fn inverse_defined<T: Scalar + PartialOrd>(m: Seq<T>, tolerance: T) -> bool {
    &&& determinant_defined(m)
    &&& tolerance.neg_req()
    &&& !is_singular(determinant(m), tolerance) ==> {
        &&& adjugate_defined(m)
        &&& forall|k: int| 0 <= k < 9 ==> (#[trigger] adjugate(m)[k]).div_req(determinant(m))
    }
}

/// The transpose of a 3x3 matrix.
pub fn transpose<T: Copy>(m: &Vec<T>) -> (r: Vec<T>)
    requires
        m.len() == 9,
    ensures
        r@ == transposed(m@),
{
    let r = vec![m[0], m[3], m[6], m[1], m[4], m[7], m[2], m[5], m[8]];
    assert(r@ =~= transposed(m@));
    r
}

/// The product of a 3x3 matrix and a vector of three.
pub fn matrix_times_vec<T: Scalar>(m: &Vec<T>, v: &Vec<T>) -> (r: Vec<T>)
    requires
        m.len() == 9,
        v.len() == 3,
        computable::<T>(product_defined(m@, v@)),
    ensures
        r.len() == 3,
        exact::<T>() ==> r@ == product(m@, v@),
{
    let w = (v[0], v[1], v[2]);
    let x = dot((m[0], m[1], m[2]), w);
    let y = dot((m[3], m[4], m[5]), w);
    let z = dot((m[6], m[7], m[8]), w);
    let r = vec![x, y, z];
    assert(exact::<T>() ==> r@ =~= product(m@, v@));
    r
}

/// The product of the transpose of a 3x3 matrix and a vector of three.
pub fn transpose_times_vec<T: Scalar>(m: &Vec<T>, v: &Vec<T>) -> (r: Vec<T>)
    requires
        m.len() == 9,
        v.len() == 3,
        computable::<T>(transposed_product_defined(m@, v@)),
    ensures
        r.len() == 3,
        exact::<T>() ==> r@ == transposed_product(m@, v@),
{
    let w = (v[0], v[1], v[2]);
    let x = dot((m[0], m[3], m[6]), w);
    let y = dot((m[1], m[4], m[7]), w);
    let z = dot((m[2], m[5], m[8]), w);
    let r = vec![x, y, z];
    assert(exact::<T>() ==> r@ =~= transposed_product(m@, v@));
    r
}

/// `p * q - r * s`.
fn minor_of<T: Scalar>(p: T, q: T, r: T, s: T) -> (d: T)
    requires
        computable::<T>(minor_defined(p, q, r, s)),
    ensures
        exact::<T>() ==> d == minor(p, q, r, s),
{
    p * q - r * s
}

/// The determinant of a 3x3 matrix.
fn determinant_of<T: Scalar>(m: &Vec<T>) -> (d: T)
    requires
        m.len() == 9,
        computable::<T>(determinant_defined(m@)),
    ensures
        exact::<T>() ==> d == determinant(m@),
{
    m[0] * minor_of(m[4], m[8], m[5], m[7]) - m[1] * minor_of(m[3], m[8], m[5], m[6]) + m[2]
        * minor_of(m[3], m[7], m[4], m[6])
}

/// The inverse of a 3x3 matrix by the cofactor formula, or
/// `SingularTransform` if its determinant is within `tolerance` of zero.
pub fn invert_matrix<T: Scalar + PartialOrd>(m: &Vec<T>, tolerance: T) -> (r: Result<
    Vec<T>,
    GeoError,
>)
    requires
        m.len() == 9,
        computable::<T>(T::obeys_partial_cmp_spec() && inverse_defined(m@, tolerance)),
    ensures
        r matches Ok(inv) ==> inv.len() == 9,
        r matches Err(e) ==> e == GeoError::SingularTransform,
        exact::<T>() && T::obeys_partial_cmp_spec() ==> (r.is_err() <==> is_singular(
            determinant(m@),
            tolerance,
        )),
        exact::<T>() && T::obeys_partial_cmp_spec() ==> (r matches Ok(inv) ==> inv@ == inverse(
            m@,
        )),
{
    let det = determinant_of(m);
    let floor = tolerance.neg();
    if det > tolerance || det < floor {
        proof {
            if !total::<T>() {
                let adj = adjugate(m@);
                let d = determinant(m@);
                assert(adj[0].div_req(d) && adj[1].div_req(d) && adj[2].div_req(d));
                assert(adj[3].div_req(d) && adj[4].div_req(d) && adj[5].div_req(d));
                assert(adj[6].div_req(d) && adj[7].div_req(d) && adj[8].div_req(d));
            }
        }
        let r = vec![
            minor_of(m[4], m[8], m[5], m[7]) / det,
            minor_of(m[2], m[7], m[1], m[8]) / det,
            minor_of(m[1], m[5], m[2], m[4]) / det,
            minor_of(m[5], m[6], m[3], m[8]) / det,
            minor_of(m[0], m[8], m[2], m[6]) / det,
            minor_of(m[2], m[3], m[0], m[5]) / det,
            minor_of(m[3], m[7], m[4], m[6]) / det,
            minor_of(m[1], m[6], m[0], m[7]) / det,
            minor_of(m[0], m[4], m[1], m[3]) / det,
        ];
        assert(exact::<T>() && T::obeys_partial_cmp_spec() ==> r@ =~= inverse(m@));
        Ok(r)
    } else {
        Err(GeoError::SingularTransform)
    }
}

/// The vector that the transpose of `m` takes to `v`: the inverse of the
/// transpose of `m`, applied to `v`.
pub open spec fn unrotated<T: Scalar>(m: Seq<T>, v: Seq<T>) -> Seq<T> {
    product(inverse(transposed(m)), v)
}

/// The operations that [`unrotate`] carries out accept their operands: those
/// of the inversion of the transpose and, unless that is singular, those of
/// the product.
pub open spec fn unrotated_defined<T: Scalar + PartialOrd>(m: Seq<T>, v: Seq<T>, tolerance: T) -> bool {
    &&& inverse_defined(transposed(m), tolerance)
    &&& !is_singular(determinant(transposed(m)), tolerance) ==> product_defined(
        inverse(transposed(m)),
        v,
    )
}

/// Undoes [`transpose_times_vec`]: transposes `m`, inverts the transpose and
/// applies the inverse to `v`. `SingularTransform` if the determinant of the
/// transpose is within `tolerance` of zero.
pub fn unrotate<T: Scalar + PartialOrd>(m: &Vec<T>, v: &Vec<T>, tolerance: T) -> (r: Result<
    Vec<T>,
    GeoError,
>)
    requires
        m.len() == 9,
        v.len() == 3,
        computable::<T>(T::obeys_partial_cmp_spec() && unrotated_defined(m@, v@, tolerance)),
    ensures
        r matches Ok(w) ==> w.len() == 3,
        r matches Err(e) ==> e == GeoError::SingularTransform,
        exact::<T>() && T::obeys_partial_cmp_spec() ==> (r.is_err() <==> is_singular(
            determinant(transposed(m@)),
            tolerance,
        )),
        exact::<T>() && T::obeys_partial_cmp_spec() ==> (r matches Ok(w) ==> w@ == unrotated(
            m@,
            v@,
        )),
{
    let trans = transpose(m);
    match invert_matrix(&trans, tolerance) {
        Ok(inv) => Ok(matrix_times_vec(&inv, v)),
        Err(e) => Err(e),
    }
}

/// Transposing twice gives the matrix back.
pub proof fn lemma_transpose_twice<T>(m: Seq<T>)
    requires
        m.len() == 9,
    ensures
        transposed(transposed(m)) == m,
{
    assert(transposed(transposed(m)) =~= m);
}

/// To multiply by the transpose is to transpose and then multiply: the
/// shortcut that the frame pipeline takes for its rotations.
pub proof fn lemma_transposed_product<T: Scalar>(m: Seq<T>, v: Seq<T>)
    requires
        m.len() == 9,
        v.len() == 3,
    ensures
        transposed_product(m, v) == product(transposed(m), v),
        transposed_product_defined(m, v) == product_defined(transposed(m), v),
{
}

} // verus!
