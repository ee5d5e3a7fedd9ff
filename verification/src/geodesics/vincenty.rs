//! The correction polynomials of the iterative solution of the geodesic
//! problems: what stands between its trigonometric steps.

use crate::error::GeoError;
use crate::scalar::{computable, exact, exact_equality, one, total, zero, Scalar};
use crate::series::{horner, horner_defined, horner_of, whole, whole_defined, whole_of};
use vstd::prelude::*;
use vstd::std_specs::ops::{AddSpec, DivSpec, MulSpec, SubSpec};

verus! {

/// The polynomial of the distance scale `A`, from the constant term up: `A`
/// is `1 + u_sq / 16384` times this polynomial in `u_sq`.
pub const A_TERMS: [i64; 4] = [4096, -768, 320, -175];

/// The polynomial of the arc correction `B`, from the constant term up: `B`
/// is `u_sq / 1024` times this polynomial in `u_sq`.
pub const B_TERMS: [i64; 4] = [256, -128, 74, -47];

/// The scale `A` of the distance along the geodesic.
pub open spec fn distance_scale<T: Scalar>(u_sq: T) -> T {
    one::<T>().add_spec(u_sq.div_spec(whole::<T>(16384)).mul_spec(horner(A_TERMS, u_sq, 0)))
}

/// The operations of [`distance_scale`] accept their operands.
pub open spec fn distance_scale_defined<T: Scalar>(u_sq: T) -> bool {
    &&& horner_defined(A_TERMS, u_sq, 0)
    &&& u_sq.div_req(whole::<T>(16384))
    &&& u_sq.div_spec(whole::<T>(16384)).mul_req(horner(A_TERMS, u_sq, 0))
    &&& one::<T>().add_req(u_sq.div_spec(whole::<T>(16384)).mul_spec(horner(A_TERMS, u_sq, 0)))
}

/// The scale `A` of the distance along the geodesic, for `u_sq`, the squared
/// second eccentricity times the squared cosine of the azimuth at the
/// equator.
pub fn series_a<T: Scalar>(u_sq: T) -> (r: T)
    requires
        computable::<T>(distance_scale_defined(u_sq)),
    ensures
        exact::<T>() ==> r == distance_scale(u_sq),
{
    T::from(1i32) + (u_sq / T::from(16384i32)) * horner_of(&A_TERMS, u_sq)
}

/// The factor `B` of the arc correction.
pub open spec fn arc_factor<T: Scalar>(u_sq: T) -> T {
    u_sq.div_spec(whole::<T>(1024)).mul_spec(horner(B_TERMS, u_sq, 0))
}

/// The operations of [`arc_factor`] accept their operands.
pub open spec fn arc_factor_defined<T: Scalar>(u_sq: T) -> bool {
    &&& horner_defined(B_TERMS, u_sq, 0)
    &&& u_sq.div_req(whole::<T>(1024))
    &&& u_sq.div_spec(whole::<T>(1024)).mul_req(horner(B_TERMS, u_sq, 0))
}

/// The factor `B` of the arc correction, for the same `u_sq`.
pub fn series_b<T: Scalar>(u_sq: T) -> (r: T)
    requires
        computable::<T>(arc_factor_defined(u_sq)),
    ensures
        exact::<T>() ==> r == arc_factor(u_sq),
{
    (u_sq / T::from(1024i32)) * horner_of(&B_TERMS, u_sq)
}

/// `a + b * x` with whole `a` and `b`.
pub open spec fn linear<T: Scalar>(a: int, b: int, x: T) -> T {
    whole::<T>(a as i64).add_spec(whole::<T>(b as i64).mul_spec(x))
}

/// The operations of [`linear`] accept their operands.
pub open spec fn linear_defined<T: Scalar>(a: int, b: int, x: T) -> bool {
    &&& whole_defined::<T>(a as i64)
    &&& whole_defined::<T>(b as i64)
    &&& whole::<T>(b as i64).mul_req(x)
    &&& whole::<T>(a as i64).add_req(whole::<T>(b as i64).mul_spec(x))
}

/// `a + b * x` with whole `a` and `b`.
fn linear_of<T: Scalar>(a: i64, b: i64, x: T) -> (r: T)
    requires
        computable::<T>(linear_defined(a as int, b as int, x)),
    ensures
        exact::<T>() ==> r == linear(a as int, b as int, x),
{
    whole_of::<T>(a) + whole_of::<T>(b) * x
}

/// The correction to the arc, for the factor `b` of [`series_b`], the sine
/// and cosine of the arc and the cosine `cos_2m` of twice the arc to the
/// middle of the geodesic:
///
/// ```text
/// b * sin * (cos_2m + b / 4 * (cos * (-1 + 2 * cos_2m^2)
///     - b / 6 * cos_2m * (-3 + 4 * sin^2) * (-3 + 4 * cos_2m^2)))
/// ```
pub open spec fn arc_correction<T: Scalar>(b: T, sin: T, cos: T, cos_2m: T) -> T {
    let cos_2m_sq = cos_2m.mul_spec(cos_2m);
    let sin_sq = sin.mul_spec(sin);
    let first = cos.mul_spec(linear(-1, 2, cos_2m_sq));
    let second = b.div_spec(whole::<T>(6)).mul_spec(cos_2m).mul_spec(linear(-3, 4, sin_sq)).mul_spec(
        linear(-3, 4, cos_2m_sq),
    );
    b.mul_spec(sin).mul_spec(
        cos_2m.add_spec(b.div_spec(whole::<T>(4)).mul_spec(first.sub_spec(second))),
    )
}

/// The operations of [`arc_correction`] accept their operands.
pub open spec fn arc_correction_defined<T: Scalar>(b: T, sin: T, cos: T, cos_2m: T) -> bool {
    let cos_2m_sq = cos_2m.mul_spec(cos_2m);
    let sin_sq = sin.mul_spec(sin);
    let first = cos.mul_spec(linear(-1, 2, cos_2m_sq));
    let sixth = b.div_spec(whole::<T>(6));
    let second = sixth.mul_spec(cos_2m).mul_spec(linear(-3, 4, sin_sq)).mul_spec(
        linear(-3, 4, cos_2m_sq),
    );
    let quarter = b.div_spec(whole::<T>(4));
    &&& cos_2m.mul_req(cos_2m)
    &&& sin.mul_req(sin)
    &&& linear_defined(-1, 2, cos_2m_sq)
    &&& linear_defined(-3, 4, sin_sq)
    &&& linear_defined(-3, 4, cos_2m_sq)
    &&& cos.mul_req(linear(-1, 2, cos_2m_sq))
    &&& whole_defined::<T>(6)
    &&& b.div_req(whole::<T>(6))
    &&& sixth.mul_req(cos_2m)
    &&& sixth.mul_spec(cos_2m).mul_req(linear(-3, 4, sin_sq))
    &&& sixth.mul_spec(cos_2m).mul_spec(linear(-3, 4, sin_sq)).mul_req(linear(-3, 4, cos_2m_sq))
    &&& first.sub_req(second)
    &&& whole_defined::<T>(4)
    &&& b.div_req(whole::<T>(4))
    &&& quarter.mul_req(first.sub_spec(second))
    &&& cos_2m.add_req(quarter.mul_spec(first.sub_spec(second)))
    &&& b.mul_req(sin)
    &&& b.mul_spec(sin).mul_req(cos_2m.add_spec(quarter.mul_spec(first.sub_spec(second))))
}

/// The correction to the arc that the distance stands for.
pub fn delta_sigma<T: Scalar>(b: T, sin_sigma: T, cos_sigma: T, cos_2_sigma_m: T) -> (r: T)
    requires
        computable::<T>(arc_correction_defined(b, sin_sigma, cos_sigma, cos_2_sigma_m)),
    ensures
        exact::<T>() ==> r == arc_correction(b, sin_sigma, cos_sigma, cos_2_sigma_m),
{
    let cos_2_sigma_m_squared = cos_2_sigma_m * cos_2_sigma_m;
    let sin_sigma_squared = sin_sigma * sin_sigma;
    b * sin_sigma * (cos_2_sigma_m + (b / whole_of::<T>(4)) * (cos_sigma * linear_of(
        -1,
        2,
        cos_2_sigma_m_squared,
    ) - (b / whole_of::<T>(6)) * cos_2_sigma_m * linear_of(-3, 4, sin_sigma_squared) * linear_of(
        -3,
        4,
        cos_2_sigma_m_squared,
    )))
}

/// The factor `C` of the longitude correction, a polynomial in the
/// flattening `f`: `f / 16 * (cos_sq * (4 + f * (4 - 3 * cos_sq)))`.
pub open spec fn longitude_factor<T: Scalar>(f: T, cos_sq_alpha: T) -> T {
    f.div_spec(whole::<T>(16)).mul_spec(
        cos_sq_alpha.mul_spec(whole::<T>(4).add_spec(f.mul_spec(linear(4, -3, cos_sq_alpha)))),
    )
}

/// The operations of [`longitude_factor`] accept their operands.
pub open spec fn longitude_factor_defined<T: Scalar>(f: T, cos_sq_alpha: T) -> bool {
    let inner = whole::<T>(4).add_spec(f.mul_spec(linear(4, -3, cos_sq_alpha)));
    &&& whole_defined::<T>(16)
    &&& whole_defined::<T>(4)
    &&& linear_defined(4, -3, cos_sq_alpha)
    &&& f.div_req(whole::<T>(16))
    &&& f.mul_req(linear(4, -3, cos_sq_alpha))
    &&& whole::<T>(4).add_req(f.mul_spec(linear(4, -3, cos_sq_alpha)))
    &&& cos_sq_alpha.mul_req(inner)
    &&& f.div_spec(whole::<T>(16)).mul_req(cos_sq_alpha.mul_spec(inner))
}

/// The factor `C` of the longitude correction, for the flattening `f` and
/// the squared cosine of the azimuth at the equator.
pub fn series_c<T: Scalar>(f: T, cos_sq_alpha: T) -> (r: T)
    requires
        computable::<T>(longitude_factor_defined(f, cos_sq_alpha)),
    ensures
        exact::<T>() ==> r == longitude_factor(f, cos_sq_alpha),
{
    (f / whole_of::<T>(16)) * (cos_sq_alpha * (whole_of::<T>(4) + f * linear_of(
        4,
        -3,
        cos_sq_alpha,
    )))
}

/// What separates the longitude on the ellipsoid from the longitude on the
/// auxiliary sphere, for the factor `c` of [`series_c`], the flattening `f`,
/// the sine of the azimuth at the equator, the arc and its sine and cosine,
/// and the cosine `cos_2m` of twice the arc to the middle of the geodesic:
///
/// ```text
/// (1 - c) * f * sin_alpha
///     * (sigma + c * sin * (cos_2m + c * cos * (-1 + 2 * cos_2m^2)))
/// ```
pub open spec fn longitude_difference<T: Scalar>(
    c: T,
    f: T,
    sin_alpha: T,
    sigma: T,
    sin: T,
    cos: T,
    cos_2m: T,
) -> T {
    let inner = cos_2m.add_spec(c.mul_spec(cos).mul_spec(linear(-1, 2, cos_2m.mul_spec(cos_2m))));
    one::<T>().sub_spec(c).mul_spec(f).mul_spec(sin_alpha).mul_spec(
        sigma.add_spec(c.mul_spec(sin).mul_spec(inner)),
    )
}

/// The operations of [`longitude_difference`] accept their operands.
pub open spec fn longitude_difference_defined<T: Scalar>(
    c: T,
    f: T,
    sin_alpha: T,
    sigma: T,
    sin: T,
    cos: T,
    cos_2m: T,
) -> bool {
    let cos_2m_sq = cos_2m.mul_spec(cos_2m);
    let inner = cos_2m.add_spec(c.mul_spec(cos).mul_spec(linear(-1, 2, cos_2m_sq)));
    &&& cos_2m.mul_req(cos_2m)
    &&& linear_defined(-1, 2, cos_2m_sq)
    &&& c.mul_req(cos)
    &&& c.mul_spec(cos).mul_req(linear(-1, 2, cos_2m_sq))
    &&& cos_2m.add_req(c.mul_spec(cos).mul_spec(linear(-1, 2, cos_2m_sq)))
    &&& c.mul_req(sin)
    &&& c.mul_spec(sin).mul_req(inner)
    &&& sigma.add_req(c.mul_spec(sin).mul_spec(inner))
    &&& one::<T>().sub_req(c)
    &&& one::<T>().sub_spec(c).mul_req(f)
    &&& one::<T>().sub_spec(c).mul_spec(f).mul_req(sin_alpha)
    &&& one::<T>().sub_spec(c).mul_spec(f).mul_spec(sin_alpha).mul_req(
        sigma.add_spec(c.mul_spec(sin).mul_spec(inner)),
    )
}

/// What separates the longitude on the ellipsoid from the longitude on the
/// auxiliary sphere.
pub fn longitude_correction<T: Scalar>(
    c: T,
    f: T,
    sin_alpha: T,
    sigma: T,
    sin_sigma: T,
    cos_sigma: T,
    cos_2_sigma_m: T,
) -> (r: T)
    requires
        computable::<T>(
            longitude_difference_defined(
                c,
                f,
                sin_alpha,
                sigma,
                sin_sigma,
                cos_sigma,
                cos_2_sigma_m,
            ),
        ),
    ensures
        exact::<T>() ==> r == longitude_difference(
            c,
            f,
            sin_alpha,
            sigma,
            sin_sigma,
            cos_sigma,
            cos_2_sigma_m,
        ),
{
    (T::from(1i32) - c) * f * sin_alpha * (sigma + c * sin_sigma * (cos_2_sigma_m + c * cos_sigma
        * linear_of(-1, 2, cos_2_sigma_m * cos_2_sigma_m)))
}

/// The inverse problem has no single answer: the sine of the arc between
/// the two points on the auxiliary sphere is zero, so that the points
/// coincide or lie opposite each other.
pub fn is_degenerate<T: Scalar + PartialEq>(sin_sigma: T) -> (r: bool)
    ensures
        exact::<T>() && exact_equality::<T>() ==> r == (sin_sigma == zero::<T>()),
{
    sin_sigma == T::from(0i32)
}

/// Refuses an inverse problem that has no single answer: `DegenerateInput`
/// if the sine of the arc between the two points on the auxiliary sphere is
/// zero, so that the points coincide or lie opposite each other.
pub fn check_not_degenerate<T: Scalar + PartialEq>(sin_sigma: T) -> (r: Result<(), GeoError>)
    ensures
        r matches Err(e) ==> e == GeoError::DegenerateInput,
        exact::<T>() && exact_equality::<T>() ==> (r.is_err() <==> sin_sigma == zero::<T>()),
{
    if is_degenerate(sin_sigma) {
        Err(GeoError::DegenerateInput)
    } else {
        Ok(())
    }
}

/// The cosine of twice the arc from the equator to the middle of the
/// geodesic: `cos_sigma - 2 * sin_u1 * sin_u2 / cos_sq_alpha`, and zero for a
/// geodesic along the equator, where `cos_sq_alpha` is zero and the cosine
/// has no part in the corrections.
pub open spec fn midpoint_cosine<T: Scalar>(
    cos_sigma: T,
    sin_u1: T,
    sin_u2: T,
    cos_sq_alpha: T,
) -> T {
    if cos_sq_alpha == zero::<T>() {
        zero::<T>()
    } else {
        cos_sigma.sub_spec(
            whole::<T>(2).mul_spec(sin_u1).mul_spec(sin_u2).div_spec(cos_sq_alpha),
        )
    }
}

/// The operations of [`midpoint_cosine`] accept their operands.
pub open spec fn midpoint_cosine_defined<T: Scalar>(
    cos_sigma: T,
    sin_u1: T,
    sin_u2: T,
    cos_sq_alpha: T,
) -> bool {
    cos_sq_alpha != zero::<T>() ==> {
        &&& whole_defined::<T>(2)
        &&& whole::<T>(2).mul_req(sin_u1)
        &&& whole::<T>(2).mul_spec(sin_u1).mul_req(sin_u2)
        &&& whole::<T>(2).mul_spec(sin_u1).mul_spec(sin_u2).div_req(cos_sq_alpha)
        &&& cos_sigma.sub_req(
            whole::<T>(2).mul_spec(sin_u1).mul_spec(sin_u2).div_spec(cos_sq_alpha),
        )
    }
}

/// The cosine of twice the arc from the equator to the middle of the
/// geodesic, for the cosine of the arc, the sines of the two reduced
/// latitudes and the squared cosine of the azimuth at the equator.
pub fn cos_2_sigma_m<T: Scalar + PartialEq>(
    cos_sigma: T,
    sin_u1: T,
    sin_u2: T,
    cos_sq_alpha: T,
) -> (r: T)
    requires
        total::<T>() || (exact::<T>() && exact_equality::<T>() && midpoint_cosine_defined(
            cos_sigma,
            sin_u1,
            sin_u2,
            cos_sq_alpha,
        )),
    ensures
        exact::<T>() && exact_equality::<T>() ==> r == midpoint_cosine(
            cos_sigma,
            sin_u1,
            sin_u2,
            cos_sq_alpha,
        ),
{
    if cos_sq_alpha == T::from(0i32) {
        T::from(0i32)
    } else {
        cos_sigma - (whole_of::<T>(2) * sin_u1 * sin_u2) / cos_sq_alpha
    }
}

/// On a sphere there is nothing to correct: without eccentricity the
/// distance scale is one and the arc factor zero, an arc factor of zero
/// leaves the arc as it is, and without flattening the longitude factor and
/// the longitude difference are zero. This holds in whole numbers, wherever
/// no operation on the way overflows.
pub proof fn lemma_sphere_needs_no_correction(sin: i64, cos: i64, cos_2m: i64, cos_sq_alpha: i64)
    requires
        arc_correction_defined(0i64, sin, cos, cos_2m),
        longitude_factor_defined(0i64, cos_sq_alpha),
    ensures
        distance_scale_defined(0i64),
        distance_scale(0i64) == 1,
        arc_factor_defined(0i64),
        arc_factor(0i64) == 0,
        arc_correction(0i64, sin, cos, cos_2m) == 0,
        longitude_factor(0i64, cos_sq_alpha) == 0,
{
    let zero = 0i64;
    assert(forall|y: i64| #[trigger] zero.mul_spec(y) == 0 && zero.mul_req(y)) by {
        assert forall|y: i64| #[trigger] zero.mul_spec(y) == 0 && zero.mul_req(y) by {
            assert(0 * (y as int) == 0);
        }
    }
    assert(forall|v: i64| i32::MIN <= v <= i32::MAX ==> #[trigger] whole::<i64>(v) == v);
    lemma_horner_at_zero(A_TERMS, 0);
    lemma_horner_at_zero(B_TERMS, 0);
    assert(distance_scale(zero) == 1);
    assert(arc_factor(zero) == 0);
    let quarter = zero.div_spec(whole::<i64>(4));
    assert(quarter == 0);
    assert(zero.mul_spec(sin) == 0);
    assert(longitude_factor(zero, cos_sq_alpha) == 0);
}

/// At zero a polynomial is its constant term, and Horner's rule meets no
/// number larger than a coefficient on the way.
proof fn lemma_horner_at_zero<const N: usize>(terms: [i64; N], from: int)
    requires
        0 <= from <= N - 1,
        forall|k: int| 0 <= k < N ==> i32::MIN <= #[trigger] terms[k] <= i32::MAX,
    ensures
        horner_defined(terms, 0i64, from),
        horner(terms, 0i64, from) == terms[from],
    decreases N - from,
{
    if from < N - 1 {
        lemma_horner_at_zero(terms, from + 1);
        assert(0 * (horner(terms, 0i64, from + 1) as int) == 0);
    }
}

} // verus!
