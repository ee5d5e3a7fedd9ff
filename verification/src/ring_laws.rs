//! The laws of the rotations for every number type whose arithmetic is that
//! of a commutative ring: the rationals, or any exact type that keeps the
//! laws of addition and multiplication. The matrices that the library builds
//! from sines and cosines are rotations there, a rotation keeps lengths, and
//! its transpose undoes it. Whole numbers of a fixed width are no such type
//! where they overflow, and floating-point numbers are none where they round;
//! for the first see [`crate::matrix_laws`].

use crate::matrix::{
    column, difference, lemma_transposed_product, product, sum, transposed, transposed_product, triple,
};
use crate::orientation::{polar_motion, sidereal_rotation};
use crate::reference_frames::ecef::local_axes;
use crate::scalar::{dot3, one, zero, Scalar};
use vstd::prelude::*;
use vstd::std_specs::ops::{AddSpec, MulSpec, NegSpec, SubSpec};

verus! {

/// The addition, subtraction and multiplication of `T` keep the laws of a
/// commutative ring with the zero and the one of `T`.
#[verifier::opaque]
pub open spec fn is_ring<T: Scalar>() -> bool {
    &&& forall|a: T, b: T| #[trigger] a.add_spec(b) == b.add_spec(a)
    &&& forall|a: T, b: T, c: T| #[trigger] a.add_spec(b).add_spec(c) == a.add_spec(b.add_spec(c))
    &&& forall|a: T| #[trigger] a.add_spec(zero::<T>()) == a
    &&& forall|a: T, b: T| #[trigger] a.sub_spec(b).add_spec(b) == a
    &&& forall|a: T, b: T| #[trigger] a.mul_spec(b) == b.mul_spec(a)
    &&& forall|a: T, b: T, c: T| #[trigger] a.mul_spec(b).mul_spec(c) == a.mul_spec(b.mul_spec(c))
    &&& forall|a: T, b: T, c: T| #[trigger]
        a.mul_spec(b.add_spec(c)) == a.mul_spec(b).add_spec(a.mul_spec(c))
    &&& forall|a: T| #[trigger] one::<T>().mul_spec(a) == a
    &&& forall|a: T| #[trigger] zero::<T>().mul_spec(a) == zero::<T>()
}

/// The columns of the matrix have length one and are orthogonal to each
/// other, in the arithmetic of `T`.
pub open spec fn is_rotation_in<T: Scalar>(m: Seq<T>) -> bool {
    &&& m.len() == 9
    &&& forall|i: int, j: int|
        0 <= i < 3 && 0 <= j < 3 ==> #[trigger] dot3(column(m, i), column(m, j)) == if i == j {
            one::<T>()
        } else {
            zero::<T>()
        }
}

proof fn lemma_add_commutes<T: Scalar>(a: T, b: T)
    requires
        is_ring::<T>(),
    ensures
        a.add_spec(b) == b.add_spec(a),
{
    reveal(is_ring);
}

proof fn lemma_add_associates<T: Scalar>(a: T, b: T, c: T)
    requires
        is_ring::<T>(),
    ensures
        a.add_spec(b).add_spec(c) == a.add_spec(b.add_spec(c)),
{
    reveal(is_ring);
}

proof fn lemma_add_zero<T: Scalar>(a: T)
    requires
        is_ring::<T>(),
    ensures
        a.add_spec(zero::<T>()) == a,
        zero::<T>().add_spec(a) == a,
{
    reveal(is_ring);
}

proof fn lemma_sub_then_add<T: Scalar>(a: T, b: T)
    requires
        is_ring::<T>(),
    ensures
        a.sub_spec(b).add_spec(b) == a,
{
    reveal(is_ring);
}

proof fn lemma_mul_commutes<T: Scalar>(a: T, b: T)
    requires
        is_ring::<T>(),
    ensures
        a.mul_spec(b) == b.mul_spec(a),
{
    reveal(is_ring);
}

proof fn lemma_mul_associates<T: Scalar>(a: T, b: T, c: T)
    requires
        is_ring::<T>(),
    ensures
        a.mul_spec(b).mul_spec(c) == a.mul_spec(b.mul_spec(c)),
{
    reveal(is_ring);
}

proof fn lemma_mul_distributes<T: Scalar>(a: T, b: T, c: T)
    requires
        is_ring::<T>(),
    ensures
        a.mul_spec(b.add_spec(c)) == a.mul_spec(b).add_spec(a.mul_spec(c)),
        b.add_spec(c).mul_spec(a) == b.mul_spec(a).add_spec(c.mul_spec(a)),
{
    reveal(is_ring);
}

proof fn lemma_mul_one_and_zero<T: Scalar>(a: T)
    requires
        is_ring::<T>(),
    ensures
        one::<T>().mul_spec(a) == a,
        zero::<T>().mul_spec(a) == zero::<T>(),
{
    reveal(is_ring);
}

/// `(a + b) + (c + d) == (a + c) + (b + d)`.
proof fn lemma_medial<T: Scalar>(a: T, b: T, c: T, d: T)
    requires
        is_ring::<T>(),
    ensures
        a.add_spec(b).add_spec(c.add_spec(d)) == a.add_spec(c).add_spec(b.add_spec(d)),
{
    lemma_add_associates(a, b, c.add_spec(d));
    lemma_add_associates(b, c, d);
    lemma_add_commutes(b, c);
    lemma_add_associates(c, b, d);
    lemma_add_associates(a, c, b.add_spec(d));
}

/// `((a1 + b1) + c1) + ((a2 + b2) + c2) == ((a1 + a2) + (b1 + b2)) + (c1 + c2)`.
proof fn lemma_medial3<T: Scalar>(a1: T, b1: T, c1: T, a2: T, b2: T, c2: T)
    requires
        is_ring::<T>(),
    ensures
        a1.add_spec(b1).add_spec(c1).add_spec(a2.add_spec(b2).add_spec(c2)) == a1.add_spec(
            a2,
        ).add_spec(b1.add_spec(b2)).add_spec(c1.add_spec(c2)),
{
    lemma_medial(a1.add_spec(b1), c1, a2.add_spec(b2), c2);
    lemma_medial(a1, b1, a2, b2);
}

/// Three sums of three, added up, are the sums of the first, the second and
/// the third terms, added up.
proof fn lemma_interchange<T: Scalar>(x: (T, T, T), y: (T, T, T), z: (T, T, T))
    requires
        is_ring::<T>(),
    ensures
        x.0.add_spec(y.0).add_spec(z.0).add_spec(x.1.add_spec(y.1).add_spec(z.1)).add_spec(
            x.2.add_spec(y.2).add_spec(z.2),
        ) == x.0.add_spec(x.1).add_spec(x.2).add_spec(y.0.add_spec(y.1).add_spec(y.2)).add_spec(
            z.0.add_spec(z.1).add_spec(z.2),
        ),
{
    lemma_medial3(x.0, y.0, z.0, x.1, y.1, z.1);
    lemma_medial3(x.0.add_spec(x.1), y.0.add_spec(y.1), z.0.add_spec(z.1), x.2, y.2, z.2);
}

/// `p * ((a * u + b * v) + c * w) == ((p * a) * u + (p * b) * v) + (p * c) * w`.
proof fn lemma_scale<T: Scalar>(p: T, a: T, b: T, c: T, u: T, v: T, w: T)
    requires
        is_ring::<T>(),
    ensures
        p.mul_spec(a.mul_spec(u).add_spec(b.mul_spec(v)).add_spec(c.mul_spec(w))) == p.mul_spec(
            a,
        ).mul_spec(u).add_spec(p.mul_spec(b).mul_spec(v)).add_spec(p.mul_spec(c).mul_spec(w)),
{
    lemma_mul_distributes(p, a.mul_spec(u).add_spec(b.mul_spec(v)), c.mul_spec(w));
    lemma_mul_distributes(p, a.mul_spec(u), b.mul_spec(v));
    lemma_mul_associates(p, a, u);
    lemma_mul_associates(p, b, v);
    lemma_mul_associates(p, c, w);
}

/// `(a * u + b * u) + c * u == ((a + b) + c) * u`.
proof fn lemma_collect<T: Scalar>(a: T, b: T, c: T, u: T)
    requires
        is_ring::<T>(),
    ensures
        a.mul_spec(u).add_spec(b.mul_spec(u)).add_spec(c.mul_spec(u)) == a.add_spec(b).add_spec(
            c,
        ).mul_spec(u),
{
    lemma_mul_distributes(u, a.add_spec(b), c);
    lemma_mul_distributes(u, a, b);
}

/// A row vector times a matrix times a vector, bracketed either way: the
/// triple `p` against the rows `r1`, `r2`, `r3` applied to `v`.
proof fn lemma_regroup<T: Scalar>(
    p: (T, T, T),
    r1: (T, T, T),
    r2: (T, T, T),
    r3: (T, T, T),
    v: (T, T, T),
)
    requires
        is_ring::<T>(),
    ensures
        dot3(p, (dot3(r1, v), dot3(r2, v), dot3(r3, v))) == dot3(
            (
                dot3(p, (r1.0, r2.0, r3.0)),
                dot3(p, (r1.1, r2.1, r3.1)),
                dot3(p, (r1.2, r2.2, r3.2)),
            ),
            v,
        ),
{
    lemma_scale(p.0, r1.0, r1.1, r1.2, v.0, v.1, v.2);
    lemma_scale(p.1, r2.0, r2.1, r2.2, v.0, v.1, v.2);
    lemma_scale(p.2, r3.0, r3.1, r3.2, v.0, v.1, v.2);
    let x = (
        p.0.mul_spec(r1.0).mul_spec(v.0),
        p.1.mul_spec(r2.0).mul_spec(v.0),
        p.2.mul_spec(r3.0).mul_spec(v.0),
    );
    let y = (
        p.0.mul_spec(r1.1).mul_spec(v.1),
        p.1.mul_spec(r2.1).mul_spec(v.1),
        p.2.mul_spec(r3.1).mul_spec(v.1),
    );
    let z = (
        p.0.mul_spec(r1.2).mul_spec(v.2),
        p.1.mul_spec(r2.2).mul_spec(v.2),
        p.2.mul_spec(r3.2).mul_spec(v.2),
    );
    lemma_interchange(x, y, z);
    lemma_collect(p.0.mul_spec(r1.0), p.1.mul_spec(r2.0), p.2.mul_spec(r3.0), v.0);
    lemma_collect(p.0.mul_spec(r1.1), p.1.mul_spec(r2.1), p.2.mul_spec(r3.1), v.1);
    lemma_collect(p.0.mul_spec(r1.2), p.1.mul_spec(r2.2), p.2.mul_spec(r3.2), v.2);
}

/// The transpose undoes a rotation, in every commutative ring: where the
/// columns of a matrix have length one and are orthogonal to each other, the
/// transpose applied to the matrix applied to a vector gives the vector.
pub proof fn lemma_transpose_undoes_rotation_in_a_ring<T: Scalar>(m: Seq<T>, v: Seq<T>)
    requires
        is_ring::<T>(),
        is_rotation_in(m),
        v.len() == 3,
    ensures
        transposed_product(m, product(m, v)) == v,
{
    let r1 = (m[0], m[1], m[2]);
    let r2 = (m[3], m[4], m[5]);
    let r3 = (m[6], m[7], m[8]);
    let t = (v[0], v[1], v[2]);
    let w = product(m, v);
    assert(w[0] == dot3(r1, t) && w[1] == dot3(r2, t) && w[2] == dot3(r3, t));
    let back = transposed_product(m, w);
    assert forall|i: int| 0 <= i < 3 implies back[i] == v[i] by {
        let p = column(m, i);
        lemma_regroup(p, r1, r2, r3, t);
        assert((r1.0, r2.0, r3.0) == column(m, 0));
        assert((r1.1, r2.1, r3.1) == column(m, 1));
        assert((r1.2, r2.2, r3.2) == column(m, 2));
        assert(dot3(p, column(m, 0)) == if i == 0 { one::<T>() } else { zero::<T>() });
        assert(dot3(p, column(m, 1)) == if i == 1 { one::<T>() } else { zero::<T>() });
        assert(dot3(p, column(m, 2)) == if i == 2 { one::<T>() } else { zero::<T>() });
        assert(back[i] == dot3(p, (w[0], w[1], w[2])));
        lemma_mul_one_and_zero(v[0]);
        lemma_mul_one_and_zero(v[1]);
        lemma_mul_one_and_zero(v[2]);
        lemma_add_zero(v[0]);
        lemma_add_zero(v[1]);
        lemma_add_zero(v[2]);
        lemma_add_zero(zero::<T>());
    }
    assert(back =~= v);
}

/// What was taken off is put back, in every commutative ring: the
/// difference of two vectors of three, with the second added, is the first.
pub proof fn lemma_sum_undoes_difference<T: Scalar>(a: Seq<T>, b: Seq<T>)
    requires
        is_ring::<T>(),
        a.len() == 3,
        b.len() == 3,
    ensures
        sum(difference(a, b), b) == a,
{
    lemma_sub_then_add(a[0], b[0]);
    lemma_sub_then_add(a[1], b[1]);
    lemma_sub_then_add(a[2], b[2]);
    assert(sum(difference(a, b), b) =~= a);
}

/// The change of sign of `T` gives the number that adds up to zero with the
/// one it was given.
#[verifier::opaque]
pub open spec fn has_negatives<T: Scalar>() -> bool {
    forall|a: T| #[trigger] a.neg_spec().add_spec(a) == zero::<T>()
}

proof fn lemma_neg_cancels<T: Scalar>(a: T)
    requires
        is_ring::<T>(),
        has_negatives::<T>(),
    ensures
        a.neg_spec().add_spec(a) == zero::<T>(),
        a.add_spec(a.neg_spec()) == zero::<T>(),
{
    reveal(has_negatives);
    lemma_add_commutes(a, a.neg_spec());
}

/// What adds up to zero with `y` is one number.
proof fn lemma_inverse_is_unique<T: Scalar>(x: T, y: T, z: T)
    requires
        is_ring::<T>(),
        x.add_spec(y) == zero::<T>(),
        z.add_spec(y) == zero::<T>(),
    ensures
        x == z,
{
    lemma_add_zero(x);
    lemma_add_zero(z);
    lemma_add_commutes(z, y);
    lemma_add_associates(x, y, z);
}

/// `(-a) * b == -(a * b)`.
proof fn lemma_neg_mul<T: Scalar>(a: T, b: T)
    requires
        is_ring::<T>(),
        has_negatives::<T>(),
    ensures
        a.neg_spec().mul_spec(b) == a.mul_spec(b).neg_spec(),
{
    lemma_mul_distributes(b, a.neg_spec(), a);
    lemma_neg_cancels(a);
    lemma_mul_one_and_zero(b);
    lemma_neg_cancels(a.mul_spec(b));
    lemma_inverse_is_unique(a.neg_spec().mul_spec(b), a.mul_spec(b), a.mul_spec(b).neg_spec());
}

/// `-(-a) == a`.
proof fn lemma_neg_neg<T: Scalar>(a: T)
    requires
        is_ring::<T>(),
        has_negatives::<T>(),
    ensures
        a.neg_spec().neg_spec() == a,
{
    lemma_neg_cancels(a.neg_spec());
    lemma_neg_cancels(a);
    lemma_inverse_is_unique(a.neg_spec().neg_spec(), a.neg_spec(), a);
}

/// `(-a) * (-b) == a * b`.
proof fn lemma_neg_neg_mul<T: Scalar>(a: T, b: T)
    requires
        is_ring::<T>(),
        has_negatives::<T>(),
    ensures
        a.neg_spec().mul_spec(b.neg_spec()) == a.mul_spec(b),
{
    lemma_neg_mul(a, b.neg_spec());
    lemma_mul_commutes(a, b.neg_spec());
    lemma_neg_mul(b, a);
    lemma_mul_commutes(b, a);
    lemma_neg_neg(a.mul_spec(b));
}

/// `(a * b) * (c * d) == (a * c) * (b * d)`.
proof fn lemma_mul_medial<T: Scalar>(a: T, b: T, c: T, d: T)
    requires
        is_ring::<T>(),
    ensures
        a.mul_spec(b).mul_spec(c.mul_spec(d)) == a.mul_spec(c).mul_spec(b.mul_spec(d)),
{
    lemma_mul_associates(a, b, c.mul_spec(d));
    lemma_mul_associates(b, c, d);
    lemma_mul_commutes(b, c);
    lemma_mul_associates(c, b, d);
    lemma_mul_associates(a, c, b.mul_spec(d));
}

/// `((-x) * u) * ((-y) * v) == (x * y) * (u * v)`.
proof fn lemma_product_of_negatives<T: Scalar>(x: T, u: T, y: T, v: T)
    requires
        is_ring::<T>(),
        has_negatives::<T>(),
    ensures
        x.neg_spec().mul_spec(u).mul_spec(y.neg_spec().mul_spec(v)) == x.mul_spec(y).mul_spec(
            u.mul_spec(v),
        ),
{
    lemma_neg_mul(x, u);
    lemma_neg_mul(y, v);
    lemma_neg_neg_mul(x.mul_spec(u), y.mul_spec(v));
    lemma_mul_medial(x, u, y, v);
}

/// `((-x) * u) * y == -((x * u) * y)` and `((-x) * u) * (-y) == (x * u) * y`.
proof fn lemma_product_with_a_negative<T: Scalar>(x: T, u: T, y: T)
    requires
        is_ring::<T>(),
        has_negatives::<T>(),
    ensures
        x.neg_spec().mul_spec(u).mul_spec(y) == x.mul_spec(u).mul_spec(y).neg_spec(),
        x.neg_spec().mul_spec(u).mul_spec(y.neg_spec()) == x.mul_spec(u).mul_spec(y),
{
    lemma_neg_mul(x, u);
    lemma_neg_mul(x.mul_spec(u), y);
    lemma_neg_neg_mul(x.mul_spec(u), y);
}

/// For `a * a + b * b == 1`: `(a * a) * t + (b * b) * t == t`.
proof fn lemma_unit_scale<T: Scalar>(a: T, b: T, t: T)
    requires
        is_ring::<T>(),
        a.mul_spec(a).add_spec(b.mul_spec(b)) == one::<T>(),
    ensures
        a.mul_spec(a).mul_spec(t).add_spec(b.mul_spec(b).mul_spec(t)) == t,
{
    lemma_mul_distributes(t, a.mul_spec(a), b.mul_spec(b));
    lemma_mul_one_and_zero(t);
}

/// `(x + y) + z == (x + z) + y`.
proof fn lemma_swap_last<T: Scalar>(x: T, y: T, z: T)
    requires
        is_ring::<T>(),
    ensures
        x.add_spec(y).add_spec(z) == x.add_spec(z).add_spec(y),
{
    lemma_add_associates(x, y, z);
    lemma_add_commutes(y, z);
    lemma_add_associates(x, z, y);
}

/// `x * 0 == 0`.
proof fn lemma_times_zero<T: Scalar>(x: T)
    requires
        is_ring::<T>(),
    ensures
        x.mul_spec(zero::<T>()) == zero::<T>(),
        zero::<T>().mul_spec(x) == zero::<T>(),
{
    lemma_mul_one_and_zero(x);
    lemma_mul_commutes(x, zero::<T>());
}

/// The scalar product does not depend on the order of its two triples.
proof fn lemma_dot3_commutes<T: Scalar>(a: (T, T, T), b: (T, T, T))
    requires
        is_ring::<T>(),
    ensures
        dot3(a, b) == dot3(b, a),
{
    lemma_mul_commutes(a.0, b.0);
    lemma_mul_commutes(a.1, b.1);
    lemma_mul_commutes(a.2, b.2);
}

/// A matrix of nine entries is a rotation if its six products of columns are
/// those of one.
pub proof fn lemma_is_rotation_in_by_columns<T: Scalar>(m: Seq<T>)
    requires
        is_ring::<T>(),
        m.len() == 9,
        dot3(column(m, 0), column(m, 0)) == one::<T>(),
        dot3(column(m, 1), column(m, 1)) == one::<T>(),
        dot3(column(m, 2), column(m, 2)) == one::<T>(),
        dot3(column(m, 0), column(m, 1)) == zero::<T>(),
        dot3(column(m, 0), column(m, 2)) == zero::<T>(),
        dot3(column(m, 1), column(m, 2)) == zero::<T>(),
    ensures
        is_rotation_in(m),
{
    lemma_dot3_commutes(column(m, 0), column(m, 1));
    lemma_dot3_commutes(column(m, 0), column(m, 2));
    lemma_dot3_commutes(column(m, 1), column(m, 2));
    assert forall|i: int, j: int| 0 <= i < 3 && 0 <= j < 3 implies #[trigger] dot3(
        column(m, i),
        column(m, j),
    ) == if i == j {
        one::<T>()
    } else {
        zero::<T>()
    } by {
        if i == 0 {
            if j == 0 {
            } else if j == 1 {
            } else {
            }
        } else if i == 1 {
            if j == 0 {
            } else if j == 1 {
            } else {
            }
        } else {
            if j == 0 {
            } else if j == 1 {
            } else {
            }
        }
    }
}

/// The sidereal matrix is a rotation in every commutative ring: for a sine
/// and a cosine whose squares add up to one, the columns of
/// [`sidereal_rotation`] have length one and are orthogonal to each other.
pub proof fn lemma_sidereal_rotation_is_a_rotation_in_a_ring<T: Scalar>(sin_gmst: T, cos_gmst: T)
    requires
        is_ring::<T>(),
        has_negatives::<T>(),
        sin_gmst.mul_spec(sin_gmst).add_spec(cos_gmst.mul_spec(cos_gmst)) == one::<T>(),
    ensures
        is_rotation_in(sidereal_rotation(sin_gmst, cos_gmst)),
{
    let (s, c) = (sin_gmst, cos_gmst);
    let (o, i) = (zero::<T>(), one::<T>());
    let m = sidereal_rotation(s, c);
    assert(column(m, 0) == (c, s, o));
    assert(column(m, 1) == (s.neg_spec(), c, o));
    assert(column(m, 2) == (o, o, i));
    lemma_times_zero(o);
    lemma_times_zero(c);
    lemma_times_zero(s);
    lemma_times_zero(s.neg_spec());
    lemma_mul_one_and_zero(i);
    lemma_add_zero(o);
    lemma_add_zero(i);
    lemma_add_zero(s.mul_spec(s).add_spec(c.mul_spec(c)));
    lemma_add_zero(c.mul_spec(c).add_spec(s.mul_spec(s)));
    lemma_add_commutes(c.mul_spec(c), s.mul_spec(s));
    lemma_neg_neg_mul(s, s);
    // The first column against the second: c * (-s) + s * c.
    lemma_mul_commutes(c, s.neg_spec());
    lemma_neg_mul(s, c);
    lemma_neg_cancels(s.mul_spec(c));
    assert(dot3(column(m, 0), column(m, 0)) == i);
    assert(dot3(column(m, 1), column(m, 1)) == i);
    assert(dot3(column(m, 2), column(m, 2)) == i);
    assert(dot3(column(m, 0), column(m, 1)) == o);
    assert(dot3(column(m, 0), column(m, 2)) == o);
    assert(dot3(column(m, 1), column(m, 2)) == o);
    lemma_is_rotation_in_by_columns(m);
}

/// The squared length of a column of the local axes: `x * x * (d * d)` and
/// `y * y * (d * d)` with `e * e` between them, for `x * x + y * y == 1`.
proof fn lemma_length_of_a_column<T: Scalar>(a: T, b: T, d: T, e: T)
    requires
        is_ring::<T>(),
        has_negatives::<T>(),
        a.mul_spec(a).add_spec(b.mul_spec(b)) == one::<T>(),
        e.mul_spec(e).add_spec(d.mul_spec(d)) == one::<T>() || d.mul_spec(d).add_spec(
            e.mul_spec(e),
        ) == one::<T>(),
    ensures
        a.neg_spec().mul_spec(d).mul_spec(a.neg_spec().mul_spec(d)).add_spec(e.mul_spec(e)).add_spec(
            b.neg_spec().mul_spec(d).mul_spec(b.neg_spec().mul_spec(d)),
        ) == one::<T>(),
{
    let t1 = a.neg_spec().mul_spec(d).mul_spec(a.neg_spec().mul_spec(d));
    let t3 = b.neg_spec().mul_spec(d).mul_spec(b.neg_spec().mul_spec(d));
    let dd = d.mul_spec(d);
    let ee = e.mul_spec(e);
    lemma_product_of_negatives(a, d, a, d);
    lemma_product_of_negatives(b, d, b, d);
    assert(t1 == a.mul_spec(a).mul_spec(dd));
    assert(t3 == b.mul_spec(b).mul_spec(dd));
    lemma_swap_last(t1, ee, t3);
    lemma_unit_scale(a, b, dd);
    lemma_add_commutes(dd, ee);
}

/// Two columns of the local axes are orthogonal: `(-a) * d` against
/// `(-a) * c`, `-c` against `d`, and `(-b) * d` against `(-b) * c`.
proof fn lemma_first_against_second<T: Scalar>(a: T, b: T, c: T, d: T)
    requires
        is_ring::<T>(),
        has_negatives::<T>(),
        a.mul_spec(a).add_spec(b.mul_spec(b)) == one::<T>(),
    ensures
        a.neg_spec().mul_spec(d).mul_spec(a.neg_spec().mul_spec(c)).add_spec(
            c.neg_spec().mul_spec(d),
        ).add_spec(b.neg_spec().mul_spec(d).mul_spec(b.neg_spec().mul_spec(c))) == zero::<T>(),
{
    let t1 = a.neg_spec().mul_spec(d).mul_spec(a.neg_spec().mul_spec(c));
    let t2 = c.neg_spec().mul_spec(d);
    let t3 = b.neg_spec().mul_spec(d).mul_spec(b.neg_spec().mul_spec(c));
    let dc = d.mul_spec(c);
    lemma_product_of_negatives(a, d, a, c);
    lemma_product_of_negatives(b, d, b, c);
    assert(t1 == a.mul_spec(a).mul_spec(dc));
    assert(t3 == b.mul_spec(b).mul_spec(dc));
    lemma_swap_last(t1, t2, t3);
    lemma_unit_scale(a, b, dc);
    lemma_neg_mul(c, d);
    lemma_mul_commutes(c, d);
    lemma_neg_cancels(dc);
}

/// A column of the local axes against the third: `(-a) * e` against `b`,
/// something against zero, and `(-b) * e` against `-a`.
proof fn lemma_against_the_third<T: Scalar>(a: T, b: T, e: T, x: T)
    requires
        is_ring::<T>(),
        has_negatives::<T>(),
    ensures
        a.neg_spec().mul_spec(e).mul_spec(b).add_spec(x.mul_spec(zero::<T>())).add_spec(
            b.neg_spec().mul_spec(e).mul_spec(a.neg_spec()),
        ) == zero::<T>(),
{
    let t1 = a.neg_spec().mul_spec(e).mul_spec(b);
    let t3 = b.neg_spec().mul_spec(e).mul_spec(a.neg_spec());
    lemma_product_with_a_negative(a, e, b);
    lemma_product_with_a_negative(b, e, a);
    lemma_times_zero(x);
    lemma_add_zero(t1);
    // (b * e) * a == (a * e) * b.
    lemma_mul_commutes(b.mul_spec(e), a);
    lemma_mul_commutes(b, e);
    lemma_mul_associates(a, e, b);
    assert(t3 == a.mul_spec(e).mul_spec(b));
    lemma_neg_cancels(a.mul_spec(e).mul_spec(b));
}

/// The local axes are a rotation in every commutative ring: for sines and
/// cosines whose squares add up to one, pair by pair, the columns of
/// [`local_axes`], the matrix of `generate_ecef_to_ned_matrix`, have length
/// one and are orthogonal to each other.
pub proof fn lemma_local_axes_are_a_rotation_in_a_ring<T: Scalar>(
    sin_lat: T,
    cos_lat: T,
    sin_lon: T,
    cos_lon: T,
)
    requires
        is_ring::<T>(),
        has_negatives::<T>(),
        sin_lat.mul_spec(sin_lat).add_spec(cos_lat.mul_spec(cos_lat)) == one::<T>(),
        sin_lon.mul_spec(sin_lon).add_spec(cos_lon.mul_spec(cos_lon)) == one::<T>(),
    ensures
        is_rotation_in(local_axes(sin_lat, cos_lat, sin_lon, cos_lon)),
{
    let (a, b, c, d) = (sin_lat, cos_lat, sin_lon, cos_lon);
    let o = zero::<T>();
    let m = local_axes(a, b, c, d);
    assert(column(m, 0) == (a.neg_spec().mul_spec(d), c.neg_spec(), b.neg_spec().mul_spec(d)));
    assert(column(m, 1) == (a.neg_spec().mul_spec(c), d, b.neg_spec().mul_spec(c)));
    assert(column(m, 2) == (b, o, a.neg_spec()));
    // The lengths.
    lemma_neg_neg_mul(c, c);
    lemma_length_of_a_column(a, b, d, c);
    assert(dot3(column(m, 0), column(m, 0)) == one::<T>());
    lemma_length_of_a_column(a, b, c, d);
    assert(dot3(column(m, 1), column(m, 1)) == one::<T>());
    lemma_neg_neg_mul(a, a);
    lemma_times_zero(o);
    lemma_add_zero(b.mul_spec(b));
    lemma_add_commutes(b.mul_spec(b), a.mul_spec(a));
    assert(dot3(column(m, 2), column(m, 2)) == one::<T>());
    // The angles.
    lemma_first_against_second(a, b, c, d);
    assert(dot3(column(m, 0), column(m, 1)) == o);
    lemma_against_the_third(a, b, d, c.neg_spec());
    assert(dot3(column(m, 0), column(m, 2)) == o);
    lemma_against_the_third(a, b, c, d);
    assert(dot3(column(m, 1), column(m, 2)) == o);
    lemma_is_rotation_in_by_columns(m);
}

/// For `c * c + d * d == 1`: `p * (c * c) + p * (d * d) == p`.
proof fn lemma_scaled_unit<T: Scalar>(p: T, c: T, d: T)
    requires
        is_ring::<T>(),
        c.mul_spec(c).add_spec(d.mul_spec(d)) == one::<T>(),
    ensures
        p.mul_spec(c.mul_spec(c)).add_spec(p.mul_spec(d.mul_spec(d))) == p,
{
    lemma_mul_distributes(p, c.mul_spec(c), d.mul_spec(d));
    lemma_mul_commutes(p, one::<T>());
    lemma_mul_one_and_zero(p);
}

/// The squared length of an outer column of the polar-motion matrix:
/// `b * b + (a * c) * (a * c) + (a * d) * (a * d) == 1`.
proof fn lemma_length_of_an_outer_column<T: Scalar>(a: T, b: T, c: T, d: T, bb: T)
    requires
        is_ring::<T>(),
        bb.add_spec(a.mul_spec(a)) == one::<T>(),
        c.mul_spec(c).add_spec(d.mul_spec(d)) == one::<T>(),
    ensures
        bb.add_spec(a.mul_spec(c).mul_spec(a.mul_spec(c))).add_spec(
            a.mul_spec(d).mul_spec(a.mul_spec(d)),
        ) == one::<T>(),
{
    let x = a.mul_spec(c).mul_spec(a.mul_spec(c));
    let y = a.mul_spec(d).mul_spec(a.mul_spec(d));
    lemma_mul_medial(a, c, a, c);
    lemma_mul_medial(a, d, a, d);
    lemma_add_associates(bb, x, y);
    lemma_scaled_unit(a.mul_spec(a), c, d);
}

/// A product against its own negative, past a zero: `0 + x + (-y)` is zero
/// where `y` is `x`.
proof fn lemma_cancels_past_zero<T: Scalar>(z: T, x: T, y: T)
    requires
        is_ring::<T>(),
        has_negatives::<T>(),
        z == zero::<T>(),
        x == y,
    ensures
        z.add_spec(x).add_spec(y.neg_spec()) == zero::<T>(),
{
    lemma_add_zero(x);
    lemma_neg_cancels(x);
}

/// The outer columns of the polar-motion matrix are orthogonal:
/// `b * (-a) + (a * c) * (b * c) + (a * d) * (b * d) == 0`.
proof fn lemma_outer_columns<T: Scalar>(a: T, b: T, c: T, d: T)
    requires
        is_ring::<T>(),
        has_negatives::<T>(),
        c.mul_spec(c).add_spec(d.mul_spec(d)) == one::<T>(),
    ensures
        b.mul_spec(a.neg_spec()).add_spec(a.mul_spec(c).mul_spec(b.mul_spec(c))).add_spec(
            a.mul_spec(d).mul_spec(b.mul_spec(d)),
        ) == zero::<T>(),
{
    let ab = a.mul_spec(b);
    let x = a.mul_spec(c).mul_spec(b.mul_spec(c));
    let y = a.mul_spec(d).mul_spec(b.mul_spec(d));
    lemma_mul_commutes(b, a.neg_spec());
    lemma_neg_mul(a, b);
    lemma_mul_medial(a, c, b, c);
    lemma_mul_medial(a, d, b, d);
    lemma_add_associates(ab.neg_spec(), x, y);
    lemma_scaled_unit(ab, c, d);
    lemma_neg_cancels(ab);
}

/// The polar-motion matrix is a rotation in every commutative ring: for
/// sines and cosines whose squares add up to one, pair by pair, the columns
/// of [`polar_motion`] have length one and are orthogonal to each other.
pub proof fn lemma_polar_motion_is_a_rotation_in_a_ring<T: Scalar>(
    sin_xp: T,
    cos_xp: T,
    sin_yp: T,
    cos_yp: T,
)
    requires
        is_ring::<T>(),
        has_negatives::<T>(),
        sin_xp.mul_spec(sin_xp).add_spec(cos_xp.mul_spec(cos_xp)) == one::<T>(),
        sin_yp.mul_spec(sin_yp).add_spec(cos_yp.mul_spec(cos_yp)) == one::<T>(),
    ensures
        is_rotation_in(polar_motion(sin_xp, cos_xp, sin_yp, cos_yp)),
{
    let (a, b, c, d) = (sin_xp, cos_xp, sin_yp, cos_yp);
    let o = zero::<T>();
    let m = polar_motion(a, b, c, d);
    assert(column(m, 0) == (b, a.mul_spec(c), a.mul_spec(d)));
    assert(column(m, 1) == (o, d, c.neg_spec()));
    assert(column(m, 2) == (a.neg_spec(), b.mul_spec(c), b.mul_spec(d)));
    // The lengths.
    lemma_add_commutes(b.mul_spec(b), a.mul_spec(a));
    lemma_length_of_an_outer_column(a, b, c, d, b.mul_spec(b));
    assert(dot3(column(m, 0), column(m, 0)) == one::<T>());
    lemma_times_zero(o);
    lemma_add_zero(d.mul_spec(d));
    lemma_neg_neg_mul(c, c);
    lemma_add_commutes(d.mul_spec(d), c.mul_spec(c));
    assert(dot3(column(m, 1), column(m, 1)) == one::<T>());
    lemma_neg_neg_mul(a, a);
    lemma_length_of_an_outer_column(b, a, c, d, a.mul_spec(a));
    assert(dot3(column(m, 2), column(m, 2)) == one::<T>());
    // The first column against the second: 0 + (a * c) * d + (a * d) * (-c).
    lemma_times_zero(b);
    lemma_mul_commutes(a.mul_spec(d), c.neg_spec());
    lemma_neg_mul(c, a.mul_spec(d));
    lemma_mul_associates(c, a, d);
    lemma_mul_commutes(c, a);
    lemma_cancels_past_zero(b.mul_spec(o), a.mul_spec(c).mul_spec(d), c.mul_spec(a.mul_spec(d)));
    assert(dot3(column(m, 0), column(m, 1)) == o);
    lemma_outer_columns(a, b, c, d);
    assert(dot3(column(m, 0), column(m, 2)) == o);
    // The second against the third: 0 + d * (b * c) + (-c) * (b * d).
    lemma_times_zero(a.neg_spec());
    lemma_neg_mul(c, b.mul_spec(d));
    lemma_mul_associates(d, b, c);
    lemma_mul_commutes(d, b);
    lemma_mul_commutes(b.mul_spec(d), c);
    lemma_cancels_past_zero(o.mul_spec(a.neg_spec()), d.mul_spec(b.mul_spec(c)), c.mul_spec(b.mul_spec(d)));
    assert(dot3(column(m, 1), column(m, 2)) == o);
    lemma_is_rotation_in_by_columns(m);
}

/// A rotation keeps lengths, in every commutative ring: where the columns of
/// a matrix have length one and are orthogonal to each other, the matrix
/// applied to a vector has the squared length of the vector.
pub proof fn lemma_rotation_keeps_length<T: Scalar>(m: Seq<T>, v: Seq<T>)
    requires
        is_ring::<T>(),
        is_rotation_in(m),
        v.len() == 3,
    ensures
        dot3(triple(product(m, v)), triple(product(m, v))) == dot3(triple(v), triple(v)),
{
    let r1 = (m[0], m[1], m[2]);
    let r2 = (m[3], m[4], m[5]);
    let r3 = (m[6], m[7], m[8]);
    let t = triple(v);
    let w = product(m, v);
    assert(triple(w) == (dot3(r1, t), dot3(r2, t), dot3(r3, t)));
    lemma_regroup(triple(w), r1, r2, r3, t);
    assert((r1.0, r2.0, r3.0) == column(m, 0));
    assert((r1.1, r2.1, r3.1) == column(m, 1));
    assert((r1.2, r2.2, r3.2) == column(m, 2));
    let back = transposed_product(m, w);
    lemma_dot3_commutes(triple(w), column(m, 0));
    lemma_dot3_commutes(triple(w), column(m, 1));
    lemma_dot3_commutes(triple(w), column(m, 2));
    assert(back[0] == dot3(triple(w), column(m, 0)));
    assert(back[1] == dot3(triple(w), column(m, 1)));
    assert(back[2] == dot3(triple(w), column(m, 2)));
    lemma_transpose_undoes_rotation_in_a_ring(m, v);
}

/// `x * (y * z) + (-y) * (x * z) == 0`, past a zero between the two.
proof fn lemma_crossed_products<T: Scalar>(x: T, y: T, z: T, w: T)
    requires
        is_ring::<T>(),
        has_negatives::<T>(),
    ensures
        x.mul_spec(y.mul_spec(z)).add_spec(zero::<T>().mul_spec(w)).add_spec(
            y.neg_spec().mul_spec(x.mul_spec(z)),
        ) == zero::<T>(),
{
    let p = x.mul_spec(y.mul_spec(z));
    lemma_times_zero(w);
    lemma_add_zero(p);
    lemma_neg_mul(y, x.mul_spec(z));
    // y * (x * z) == x * (y * z).
    lemma_mul_associates(y, x, z);
    lemma_mul_commutes(y, x);
    lemma_mul_associates(x, y, z);
    lemma_neg_cancels(p);
}

/// The rows of the polar-motion matrix that hold the products are
/// orthogonal: `(a * c) * (a * d) + d * (-c) + (b * c) * (b * d) == 0`.
proof fn lemma_lower_rows<T: Scalar>(a: T, b: T, c: T, d: T)
    requires
        is_ring::<T>(),
        has_negatives::<T>(),
        a.mul_spec(a).add_spec(b.mul_spec(b)) == one::<T>(),
    ensures
        a.mul_spec(c).mul_spec(a.mul_spec(d)).add_spec(d.mul_spec(c.neg_spec())).add_spec(
            b.mul_spec(c).mul_spec(b.mul_spec(d)),
        ) == zero::<T>(),
{
    let cd = c.mul_spec(d);
    let t1 = a.mul_spec(c).mul_spec(a.mul_spec(d));
    let t2 = d.mul_spec(c.neg_spec());
    let t3 = b.mul_spec(c).mul_spec(b.mul_spec(d));
    lemma_mul_medial(a, c, a, d);
    lemma_mul_medial(b, c, b, d);
    lemma_swap_last(t1, t2, t3);
    lemma_unit_scale(a, b, cd);
    lemma_mul_commutes(d, c.neg_spec());
    lemma_neg_mul(c, d);
    lemma_neg_cancels(cd);
}

/// The squared length of a lower row of the polar-motion matrix:
/// `(a * c) * (a * c) + e + (b * c) * (b * c) == 1` for `c * c + e == 1`.
proof fn lemma_length_of_a_lower_row<T: Scalar>(a: T, b: T, c: T, e: T)
    requires
        is_ring::<T>(),
        a.mul_spec(a).add_spec(b.mul_spec(b)) == one::<T>(),
        c.mul_spec(c).add_spec(e) == one::<T>(),
    ensures
        a.mul_spec(c).mul_spec(a.mul_spec(c)).add_spec(e).add_spec(
            b.mul_spec(c).mul_spec(b.mul_spec(c)),
        ) == one::<T>(),
{
    let t1 = a.mul_spec(c).mul_spec(a.mul_spec(c));
    let t3 = b.mul_spec(c).mul_spec(b.mul_spec(c));
    lemma_mul_medial(a, c, a, c);
    lemma_mul_medial(b, c, b, c);
    lemma_swap_last(t1, e, t3);
    lemma_unit_scale(a, b, c.mul_spec(c));
}

/// The transpose of the polar-motion matrix is a rotation too, in every
/// commutative ring: its rows have length one and are orthogonal to each
/// other, for sines and cosines whose squares add up to one, pair by pair.
pub proof fn lemma_polar_motion_has_orthonormal_rows<T: Scalar>(
    sin_xp: T,
    cos_xp: T,
    sin_yp: T,
    cos_yp: T,
)
    requires
        is_ring::<T>(),
        has_negatives::<T>(),
        sin_xp.mul_spec(sin_xp).add_spec(cos_xp.mul_spec(cos_xp)) == one::<T>(),
        sin_yp.mul_spec(sin_yp).add_spec(cos_yp.mul_spec(cos_yp)) == one::<T>(),
    ensures
        is_rotation_in(transposed(polar_motion(sin_xp, cos_xp, sin_yp, cos_yp))),
{
    let (a, b, c, d) = (sin_xp, cos_xp, sin_yp, cos_yp);
    let o = zero::<T>();
    let m = transposed(polar_motion(a, b, c, d));
    assert(column(m, 0) == (b, o, a.neg_spec()));
    assert(column(m, 1) == (a.mul_spec(c), d, b.mul_spec(c)));
    assert(column(m, 2) == (a.mul_spec(d), c.neg_spec(), b.mul_spec(d)));
    // The lengths.
    lemma_times_zero(o);
    lemma_add_zero(b.mul_spec(b));
    lemma_neg_neg_mul(a, a);
    lemma_add_commutes(b.mul_spec(b), a.mul_spec(a));
    assert(dot3(column(m, 0), column(m, 0)) == one::<T>());
    lemma_length_of_a_lower_row(a, b, c, d.mul_spec(d));
    assert(dot3(column(m, 1), column(m, 1)) == one::<T>());
    lemma_neg_neg_mul(c, c);
    lemma_add_commutes(d.mul_spec(d), c.mul_spec(c));
    lemma_length_of_a_lower_row(a, b, d, c.mul_spec(c));
    assert(dot3(column(m, 2), column(m, 2)) == one::<T>());
    // The angles.
    lemma_crossed_products(b, a, c, d);
    assert(dot3(column(m, 0), column(m, 1)) == o);
    lemma_crossed_products(b, a, d, c.neg_spec());
    assert(dot3(column(m, 0), column(m, 2)) == o);
    lemma_lower_rows(a, b, c, d);
    assert(dot3(column(m, 1), column(m, 2)) == o);
    lemma_is_rotation_in_by_columns(m);
}

/// The polar motion keeps lengths, in every commutative ring: a position
/// of the pseudo Earth-fixed frame taken to the Earth-fixed frame, by
/// `ECEF::new_from_pef_rot` with the matrix of `get_polar_motion_matrix`,
/// has the squared length that it had, for sines and cosines whose squares
/// add up to one, pair by pair.
pub proof fn lemma_polar_motion_keeps_length<T: Scalar>(
    sin_xp: T,
    cos_xp: T,
    sin_yp: T,
    cos_yp: T,
    v: Seq<T>,
)
    requires
        is_ring::<T>(),
        has_negatives::<T>(),
        sin_xp.mul_spec(sin_xp).add_spec(cos_xp.mul_spec(cos_xp)) == one::<T>(),
        sin_yp.mul_spec(sin_yp).add_spec(cos_yp.mul_spec(cos_yp)) == one::<T>(),
        v.len() == 3,
    ensures
        dot3(
            triple(transposed_product(polar_motion(sin_xp, cos_xp, sin_yp, cos_yp), v)),
            triple(transposed_product(polar_motion(sin_xp, cos_xp, sin_yp, cos_yp), v)),
        ) == dot3(triple(v), triple(v)),
{
    let m = polar_motion(sin_xp, cos_xp, sin_yp, cos_yp);
    lemma_polar_motion_has_orthonormal_rows(sin_xp, cos_xp, sin_yp, cos_yp);
    lemma_transposed_product(m, v);
    lemma_rotation_keeps_length(transposed(m), v);
}

} // verus!
