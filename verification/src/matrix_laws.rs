//! What the matrix primitives are worth: laws of the cofactor formula and of
//! the transpose, proved in whole numbers, where the operations are exact.

use crate::matrix::{
    adjugate, adjugate_defined, column, determinant, determinant_defined, inverse, is_singular,
    lemma_transposed_product, product, product_defined, transposed, transposed_product,
    transposed_product_defined, unrotated, unrotated_defined,
};
use vstd::prelude::*;
use vstd::std_specs::ops::DivSpec;

verus! {

/// The scalar product of two triples of whole numbers, without bounds.
pub open spec fn whole_dot(a: (i64, i64, i64), b: (i64, i64, i64)) -> int {
    a.0 * b.0 + a.1 * b.1 + a.2 * b.2
}

/// The columns of a matrix of whole numbers have length one and are
/// orthogonal to each other, as those of a rotation are.
pub open spec fn is_rotation(m: Seq<i64>) -> bool {
    &&& m.len() == 9
    &&& whole_dot(column(m, 0), column(m, 0)) == 1
    &&& whole_dot(column(m, 1), column(m, 1)) == 1
    &&& whole_dot(column(m, 2), column(m, 2)) == 1
    &&& whole_dot(column(m, 0), column(m, 1)) == 0
    &&& whole_dot(column(m, 0), column(m, 2)) == 0
    &&& whole_dot(column(m, 1), column(m, 2)) == 0
}

/// A sine and a cosine in whole numbers: two numbers whose squares add up to
/// one lie between -1 and 1.
pub proof fn lemma_unit_circle(s: i64, c: i64)
    requires
        s * s + c * c == 1,
    ensures
        -1 <= s <= 1,
        -1 <= c <= 1,
{
    assert(-1 <= s <= 1 && -1 <= c <= 1) by (nonlinear_arith)
        requires
            s * s + c * c == 1,
    ;
}

/// A matrix of nine known entries is a rotation if its six products of
/// columns are those of one.
pub proof fn lemma_is_rotation_by_entries(m: Seq<i64>)
    requires
        m.len() == 9,
        m[0] * m[0] + m[3] * m[3] + m[6] * m[6] == 1,
        m[1] * m[1] + m[4] * m[4] + m[7] * m[7] == 1,
        m[2] * m[2] + m[5] * m[5] + m[8] * m[8] == 1,
        m[0] * m[1] + m[3] * m[4] + m[6] * m[7] == 0,
        m[0] * m[2] + m[3] * m[5] + m[6] * m[8] == 0,
        m[1] * m[2] + m[4] * m[5] + m[7] * m[8] == 0,
    ensures
        is_rotation(m),
{
}

/// `p * (a * x + b * y + c * z)` with the factor taken into each term.
proof fn lemma_scale(p: int, a: int, b: int, c: int, x: int, y: int, z: int)
    ensures
        p * (a * x + b * y + c * z) == (p * a) * x + (p * b) * y + (p * c) * z,
{
    assert(p * (a * x) == (p * a) * x) by (nonlinear_arith);
    assert(p * (b * y) == (p * b) * y) by (nonlinear_arith);
    assert(p * (c * z) == (p * c) * z) by (nonlinear_arith);
    assert(p * (a * x + b * y + c * z) == p * (a * x) + p * (b * y) + p * (c * z))
        by (nonlinear_arith);
}

/// `u * x + v * x + w * x` with `x` taken out.
proof fn lemma_collect(u: int, v: int, w: int, x: int)
    ensures
        u * x + v * x + w * x == (u + v + w) * x,
{
    assert(u * x + v * x + w * x == (u + v + w) * x) by (nonlinear_arith);
}

/// A row vector times a matrix times a vector, bracketed either way: the
/// triple `p` against the rows `r1`, `r2`, `r3` applied to `(x, y, z)`.
proof fn lemma_regroup(
    p: (int, int, int),
    r1: (int, int, int),
    r2: (int, int, int),
    r3: (int, int, int),
    x: int,
    y: int,
    z: int,
)
    ensures
        p.0 * (r1.0 * x + r1.1 * y + r1.2 * z) + p.1 * (r2.0 * x + r2.1 * y + r2.2 * z) + p.2 * (
        r3.0 * x + r3.1 * y + r3.2 * z) == (p.0 * r1.0 + p.1 * r2.0 + p.2 * r3.0) * x + (p.0 * r1.1
            + p.1 * r2.1 + p.2 * r3.1) * y + (p.0 * r1.2 + p.1 * r2.2 + p.2 * r3.2) * z,
{
    lemma_scale(p.0, r1.0, r1.1, r1.2, x, y, z);
    lemma_scale(p.1, r2.0, r2.1, r2.2, x, y, z);
    lemma_scale(p.2, r3.0, r3.1, r3.2, x, y, z);
    lemma_collect(p.0 * r1.0, p.1 * r2.0, p.2 * r3.0, x);
    lemma_collect(p.0 * r1.1, p.1 * r2.1, p.2 * r3.1, y);
    lemma_collect(p.0 * r1.2, p.1 * r2.2, p.2 * r3.2, z);
}

/// `(p * q - r * s) * t` multiplied out.
proof fn lemma_minor_times(p: int, q: int, r: int, s: int, t: int)
    ensures
        (p * q - r * s) * t == p * q * t - r * s * t,
{
    assert((p * q - r * s) * t == p * q * t - r * s * t) by (nonlinear_arith);
}

/// The order of three factors does not matter.
proof fn lemma_three_factors(a: int, b: int, c: int)
    ensures
        a * b * c == a * c * b,
        a * b * c == b * a * c,
        a * b * c == b * c * a,
        a * b * c == c * a * b,
        a * b * c == c * b * a,
        a * b * c == a * (b * c),
{
    assert(a * b * c == a * c * b) by (nonlinear_arith);
    assert(a * b * c == b * a * c) by (nonlinear_arith);
    assert(a * b * c == b * c * a) by (nonlinear_arith);
    assert(a * b * c == c * a * b) by (nonlinear_arith);
    assert(a * b * c == c * b * a) by (nonlinear_arith);
    assert(a * b * c == a * (b * c)) by (nonlinear_arith);
}

/// The cofactor formula is right: the adjugate of a matrix, applied to the
/// matrix applied to a vector, gives the vector times the determinant.
/// Dividing by the determinant therefore inverts, wherever the division is
/// exact. This holds of every matrix and vector of whole numbers for which
/// no operation on the way overflows.
pub proof fn lemma_adjugate_undoes_matrix(m: Seq<i64>, v: Seq<i64>)
    requires
        m.len() == 9,
        v.len() == 3,
        determinant_defined(m),
        adjugate_defined(m),
        product_defined(m, v),
        product_defined(adjugate(m), product(m, v)),
    ensures
        product(adjugate(m), product(m, v))[0] == determinant(m) * v[0],
        product(adjugate(m), product(m, v))[1] == determinant(m) * v[1],
        product(adjugate(m), product(m, v))[2] == determinant(m) * v[2],
{
    let (a, b, c, d, e, f, g, h, i) = (
        m[0] as int,
        m[1] as int,
        m[2] as int,
        m[3] as int,
        m[4] as int,
        m[5] as int,
        m[6] as int,
        m[7] as int,
        m[8] as int,
    );
    let (x, y, z) = (v[0] as int, v[1] as int, v[2] as int);
    let w = product(m, v);
    let adj = adjugate(m);
    let det = determinant(m) as int;
    assert(w[0] == a * x + b * y + c * z);
    assert(w[1] == d * x + e * y + f * z);
    assert(w[2] == g * x + h * y + i * z);
    assert(det == a * (e * i - f * h) - b * (d * i - f * g) + c * (d * h - e * g));
    assert(adj[0] == e * i - f * h && adj[1] == c * h - b * i && adj[2] == b * f - c * e);
    assert(adj[3] == f * g - d * i && adj[4] == a * i - c * g && adj[5] == c * d - a * f);
    assert(adj[6] == d * h - e * g && adj[7] == b * g - a * h && adj[8] == a * e - b * d);
    let r = product(adj, w);
    assert(r[0] == adj[0] * w[0] + adj[1] * w[1] + adj[2] * w[2]);
    assert(r[1] == adj[3] * w[0] + adj[4] * w[1] + adj[5] * w[2]);
    assert(r[2] == adj[6] * w[0] + adj[7] * w[1] + adj[8] * w[2]);
    // The coefficients of x, y and z in each component: the determinant
    // once, and zero twice.
    lemma_minor_times(e, i, f, h, a);
    lemma_minor_times(e, i, f, h, b);
    lemma_minor_times(e, i, f, h, c);
    lemma_minor_times(c, h, b, i, d);
    lemma_minor_times(c, h, b, i, e);
    lemma_minor_times(c, h, b, i, f);
    lemma_minor_times(b, f, c, e, g);
    lemma_minor_times(b, f, c, e, h);
    lemma_minor_times(b, f, c, e, i);
    lemma_minor_times(f, g, d, i, a);
    lemma_minor_times(f, g, d, i, b);
    lemma_minor_times(f, g, d, i, c);
    lemma_minor_times(a, i, c, g, d);
    lemma_minor_times(a, i, c, g, e);
    lemma_minor_times(a, i, c, g, f);
    lemma_minor_times(c, d, a, f, g);
    lemma_minor_times(c, d, a, f, h);
    lemma_minor_times(c, d, a, f, i);
    lemma_minor_times(d, h, e, g, a);
    lemma_minor_times(d, h, e, g, b);
    lemma_minor_times(d, h, e, g, c);
    lemma_minor_times(b, g, a, h, d);
    lemma_minor_times(b, g, a, h, e);
    lemma_minor_times(b, g, a, h, f);
    lemma_minor_times(a, e, b, d, g);
    lemma_minor_times(a, e, b, d, h);
    lemma_minor_times(a, e, b, d, i);
    lemma_three_factors(a, d, h);
    lemma_three_factors(a, d, i);
    lemma_three_factors(a, e, g);
    lemma_three_factors(a, e, h);
    lemma_three_factors(a, e, i);
    lemma_three_factors(a, f, g);
    lemma_three_factors(a, f, h);
    lemma_three_factors(a, f, i);
    lemma_three_factors(b, d, g);
    lemma_three_factors(b, d, h);
    lemma_three_factors(b, d, i);
    lemma_three_factors(b, e, g);
    lemma_three_factors(b, e, i);
    lemma_three_factors(b, f, g);
    lemma_three_factors(b, f, h);
    lemma_three_factors(b, f, i);
    lemma_three_factors(c, d, g);
    lemma_three_factors(c, d, h);
    lemma_three_factors(c, d, i);
    lemma_three_factors(c, e, g);
    lemma_three_factors(c, e, h);
    lemma_three_factors(c, e, i);
    lemma_three_factors(c, f, g);
    lemma_three_factors(c, f, h);
    lemma_minor_times(d, i, f, g, b);
    assert(det == (e * i - f * h) * a - (d * i - f * g) * b + (d * h - e * g) * c) by {
        assert(a * (e * i - f * h) == (e * i - f * h) * a) by (nonlinear_arith);
        assert(b * (d * i - f * g) == (d * i - f * g) * b) by (nonlinear_arith);
        assert(c * (d * h - e * g) == (d * h - e * g) * c) by (nonlinear_arith);
    }
    lemma_regroup((adj[0] as int, adj[1] as int, adj[2] as int), (a, b, c), (d, e, f), (g, h, i), x, y, z);
    lemma_regroup((adj[3] as int, adj[4] as int, adj[5] as int), (a, b, c), (d, e, f), (g, h, i), x, y, z);
    lemma_regroup((adj[6] as int, adj[7] as int, adj[8] as int), (a, b, c), (d, e, f), (g, h, i), x, y, z);
    assert(0 * x == 0 && 0 * y == 0 && 0 * z == 0);
}

/// The transpose undoes a rotation: where the columns of a matrix are
/// orthogonal to each other and each has the squared length `s`, the
/// transpose applied to the matrix applied to a vector gives `s` times the
/// vector. A rotation has `s == 1`; a rotation with rational entries, scaled
/// to whole numbers, has the square of its scale. This holds wherever no
/// operation on the way overflows.
pub proof fn lemma_transpose_undoes_rotation(m: Seq<i64>, v: Seq<i64>, s: int)
    requires
        m.len() == 9,
        v.len() == 3,
        whole_dot(column(m, 0), column(m, 0)) == s,
        whole_dot(column(m, 1), column(m, 1)) == s,
        whole_dot(column(m, 2), column(m, 2)) == s,
        whole_dot(column(m, 0), column(m, 1)) == 0,
        whole_dot(column(m, 0), column(m, 2)) == 0,
        whole_dot(column(m, 1), column(m, 2)) == 0,
        product_defined(m, v),
        transposed_product_defined(m, product(m, v)),
    ensures
        transposed_product(m, product(m, v))[0] == s * v[0],
        transposed_product(m, product(m, v))[1] == s * v[1],
        transposed_product(m, product(m, v))[2] == s * v[2],
{
    let (a, b, c, d, e, f, g, h, i) = (
        m[0] as int,
        m[1] as int,
        m[2] as int,
        m[3] as int,
        m[4] as int,
        m[5] as int,
        m[6] as int,
        m[7] as int,
        m[8] as int,
    );
    let (x, y, z) = (v[0] as int, v[1] as int, v[2] as int);
    let w = product(m, v);
    assert(w[0] == a * x + b * y + c * z);
    assert(w[1] == d * x + e * y + f * z);
    assert(w[2] == g * x + h * y + i * z);
    let r = transposed_product(m, w);
    assert(r[0] == a * w[0] + d * w[1] + g * w[2]);
    assert(r[1] == b * w[0] + e * w[1] + h * w[2]);
    assert(r[2] == c * w[0] + f * w[1] + i * w[2]);
    lemma_regroup((a, d, g), (a, b, c), (d, e, f), (g, h, i), x, y, z);
    lemma_regroup((b, e, h), (a, b, c), (d, e, f), (g, h, i), x, y, z);
    lemma_regroup((c, f, i), (a, b, c), (d, e, f), (g, h, i), x, y, z);
    assert(b * a == a * b && e * d == d * e && h * g == g * h) by (nonlinear_arith);
    assert(c * a == a * c && f * d == d * f && i * g == g * i) by (nonlinear_arith);
    assert(c * b == b * c && f * e == e * f && i * h == h * i) by (nonlinear_arith);
    assert(0 * y == 0 && 0 * z == 0 && 0 * x == 0);
}

/// The inverse undoes the transpose: where the determinant of the transpose
/// of a matrix of whole numbers is 1 or -1, so that the divisions of the
/// cofactor formula are exact, [`unrotated`] gives back the vector that the
/// transpose was applied to. So a position taken from the quasi-inertial
/// frame to the pseudo Earth-fixed frame and back, or from there to the
/// Earth-fixed frame and back, is the position that went in. This holds
/// wherever no operation on the way overflows.
pub proof fn lemma_unrotate_undoes_transpose(m: Seq<i64>, v: Seq<i64>)
    requires
        m.len() == 9,
        v.len() == 3,
        determinant(transposed(m)) == 1 || determinant(transposed(m)) == -1,
        transposed_product_defined(m, v),
        unrotated_defined(m, transposed_product(m, v), 0),
        product_defined(adjugate(transposed(m)), transposed_product(m, v)),
    ensures
        !is_singular(determinant(transposed(m)), 0),
        unrotated(m, transposed_product(m, v)) == v,
{
    let t = transposed(m);
    let w = transposed_product(m, v);
    let adj = adjugate(t);
    let inv = inverse(t);
    let det = determinant(t) as int;
    assert(!is_singular(determinant(t), 0i64));
    lemma_transposed_product(m, v);
    lemma_adjugate_undoes_matrix(t, v);
    assert forall|k: int| 0 <= k < 9 implies #[trigger] inv[k] == det * adj[k] by {
        let q = adj[k] as int;
        assert(adj[k].div_req(determinant(t)));
        assert(inv[k] == adj[k].div_spec(determinant(t)));
        if det == 1 {
            assert(q / 1 == q);
            assert((-q) / 1 == -q);
        } else {
            assert(q / (-1) == -q) by (nonlinear_arith);
            assert((-q) / (-1) == q) by (nonlinear_arith);
        }
    }
    let r = product(inv, w);
    let u = product(adj, w);
    assert(r[0] == inv[0] * w[0] + inv[1] * w[1] + inv[2] * w[2]);
    assert(r[1] == inv[3] * w[0] + inv[4] * w[1] + inv[5] * w[2]);
    assert(r[2] == inv[6] * w[0] + inv[7] * w[1] + inv[8] * w[2]);
    assert(u[0] == adj[0] * w[0] + adj[1] * w[1] + adj[2] * w[2]);
    assert(u[1] == adj[3] * w[0] + adj[4] * w[1] + adj[5] * w[2]);
    assert(u[2] == adj[6] * w[0] + adj[7] * w[1] + adj[8] * w[2]);
    lemma_scale(det, adj[0] as int, adj[1] as int, adj[2] as int, w[0] as int, w[1] as int, w[2] as int);
    lemma_scale(det, adj[3] as int, adj[4] as int, adj[5] as int, w[0] as int, w[1] as int, w[2] as int);
    lemma_scale(det, adj[6] as int, adj[7] as int, adj[8] as int, w[0] as int, w[1] as int, w[2] as int);
    assert(det * (det * v[0]) == v[0] && det * (det * v[1]) == v[1] && det * (det * v[2]) == v[2])
        by (nonlinear_arith)
        requires
            det == 1 || det == -1,
    ;
    assert(r =~= v);
}

} // verus!
