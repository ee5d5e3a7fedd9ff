//! The two rotations of the Earth's orientation, each from the sines and
//! cosines of its angles: the sidereal rotation about the pole, and the small
//! tilt of the pole itself. With them the models that give the angles: the
//! sidereal time as a cubic in the centuries since the epoch, taken into one
//! turn, and the polar offsets as a harmonic model with a yearly and a
//! 435-day term.

use crate::matrix_laws::{is_rotation, lemma_is_rotation_by_entries, lemma_unit_circle};
use crate::scalar::{computable, exact, one, total, zero, Scalar};
use crate::series::{
    has_entry, polynomial, polynomial_defined, polynomial_of, ratio, ratio_defined, ratio_of,
    whole, whole_defined, whole_of,
};
use core::ops::{Neg, Rem};
use vstd::prelude::*;
use vstd::std_specs::cmp::{PartialOrdIs, PartialOrdSpec};
use vstd::std_specs::ops::{AddSpec, DivSpec, MulSpec, NegSpec, RemSpec, SubSpec};

verus! {

/// The turn about the third axis by the angle with this sine and cosine.
pub open spec fn sidereal_rotation<T: Scalar>(sin_gmst: T, cos_gmst: T) -> Seq<T> {
    seq![
        cos_gmst,
        sin_gmst.neg_spec(),
        zero::<T>(),
        sin_gmst,
        cos_gmst,
        zero::<T>(),
        zero::<T>(),
        zero::<T>(),
        one::<T>(),
    ]
}

/// The rotation between the quasi-inertial frame and the pseudo Earth-fixed
/// frame, given the sine and cosine of the sidereal time as an angle.
pub fn get_pef_tod_matrix<T: Scalar>(sin_gmst: T, cos_gmst: T) -> (r: Vec<T>)
    requires
        computable::<T>(sin_gmst.neg_req()),
    ensures
        r.len() == 9,
        exact::<T>() ==> r@ == sidereal_rotation(sin_gmst, cos_gmst),
{
    let pef_tod = vec![
        cos_gmst,
        sin_gmst.neg(),
        T::from(0i32),
        sin_gmst,
        cos_gmst,
        T::from(0i32),
        T::from(0i32),
        T::from(0i32),
        T::from(1i32),
    ];
    assert(exact::<T>() ==> pef_tod@ =~= sidereal_rotation(sin_gmst, cos_gmst));
    pef_tod
}

/// The tilt of the pole by the angles `xp` and `yp`, from their sines and
/// cosines.
pub open spec fn polar_motion<T: Scalar>(sin_xp: T, cos_xp: T, sin_yp: T, cos_yp: T) -> Seq<T> {
    seq![
        cos_xp,
        zero::<T>(),
        sin_xp.neg_spec(),
        sin_xp.mul_spec(sin_yp),
        cos_yp,
        cos_xp.mul_spec(sin_yp),
        sin_xp.mul_spec(cos_yp),
        sin_yp.neg_spec(),
        cos_xp.mul_spec(cos_yp),
    ]
}

/// The operations of [`polar_motion`] accept their operands.
pub open spec fn polar_motion_defined<T: Scalar>(sin_xp: T, cos_xp: T, sin_yp: T, cos_yp: T) -> bool {
    &&& sin_xp.neg_req()
    &&& sin_yp.neg_req()
    &&& sin_xp.mul_req(sin_yp)
    &&& cos_xp.mul_req(sin_yp)
    &&& sin_xp.mul_req(cos_yp)
    &&& cos_xp.mul_req(cos_yp)
}

/// The rotation between the pseudo Earth-fixed frame and the Earth-fixed
/// frame, given the sines and cosines of the two polar offsets.
pub fn get_polar_motion_matrix<T: Scalar>(sin_xp: T, cos_xp: T, sin_yp: T, cos_yp: T) -> (r: Vec<T>)
    requires
        computable::<T>(polar_motion_defined(sin_xp, cos_xp, sin_yp, cos_yp)),
    ensures
        r.len() == 9,
        exact::<T>() ==> r@ == polar_motion(sin_xp, cos_xp, sin_yp, cos_yp),
{
    let ma = vec![
        cos_xp,
        T::from(0i32),
        sin_xp.neg(),
        sin_xp * sin_yp,
        cos_yp,
        cos_xp * sin_yp,
        sin_xp * cos_yp,
        sin_yp.neg(),
        cos_xp * cos_yp,
    ];
    assert(exact::<T>() ==> ma@ =~= polar_motion(sin_xp, cos_xp, sin_yp, cos_yp));
    ma
}

/// The sidereal time at Greenwich in seconds, as a cubic in the Julian
/// centuries since noon of 1 January 2000, from the constant term up:
/// `67310.54841 + 3164400184.812866 t + 0.093104 t^2 - 0.0000062 t^3`.
pub const GMST_SECONDS: [[i64; 2]; 4] = [
    [6731054841, 100000],
    [3164400184812866, 1000000],
    [93104, 1000000],
    [-62, 10000000],
];

/// The seconds of a day: one turn of the Earth in sidereal time.
pub const SECONDS_PER_DAY: i64 = 86400;

/// The Julian date of the epoch of the sidereal time: noon of 1 January
/// 2000.
pub const EPOCH: i64 = 2451545;

/// The days of a Julian century.
pub const DAYS_PER_CENTURY: i64 = 36525;

/// The Julian centuries from the epoch to the Julian date `jday`.
pub open spec fn centuries_since_epoch<T: Scalar>(jday: T) -> T {
    jday.sub_spec(whole::<T>(EPOCH)).div_spec(whole::<T>(DAYS_PER_CENTURY))
}

/// The operations of [`centuries_since_epoch`] accept their operands.
pub open spec fn centuries_since_epoch_defined<T: Scalar>(jday: T) -> bool {
    &&& whole_defined::<T>(EPOCH)
    &&& whole_defined::<T>(DAYS_PER_CENTURY)
    &&& jday.sub_req(whole::<T>(EPOCH))
    &&& jday.sub_spec(whole::<T>(EPOCH)).div_req(whole::<T>(DAYS_PER_CENTURY))
}

/// `t`, its square and its cube.
pub open spec fn powers_to_three<T: Scalar>(t: T) -> Seq<T> {
    seq![t, t.mul_spec(t), t.mul_spec(t).mul_spec(t)]
}

/// The operations of [`powers_to_three`] accept their operands.
pub open spec fn powers_to_three_defined<T: Scalar>(t: T) -> bool {
    t.mul_req(t) && t.mul_spec(t).mul_req(t)
}

/// `seconds` taken into one day: the remainder of the division by a day,
/// with a day added where the remainder is negative, and the day taken off
/// again should that reach the whole day.
pub open spec fn within_a_day<T: Scalar + Rem<Output = T> + PartialOrd>(seconds: T) -> T {
    let day = whole::<T>(SECONDS_PER_DAY);
    let rest = seconds.rem_spec(day);
    if rest.is_lt(&zero::<T>()) {
        if rest.add_spec(day).is_lt(&day) {
            rest.add_spec(day)
        } else {
            rest.add_spec(day).sub_spec(day)
        }
    } else {
        rest
    }
}

/// The operations of [`within_a_day`] accept their operands.
pub open spec fn within_a_day_defined<T: Scalar + Rem<Output = T> + PartialOrd>(seconds: T) -> bool {
    let day = whole::<T>(SECONDS_PER_DAY);
    let rest = seconds.rem_spec(day);
    &&& whole_defined::<T>(SECONDS_PER_DAY)
    &&& seconds.rem_req(day)
    &&& rest.is_lt(&zero::<T>()) ==> {
        &&& rest.add_req(day)
        &&& !rest.add_spec(day).is_lt(&day) ==> rest.add_spec(day).sub_req(day)
    }
}

/// The specifications of the remainder and of the order of `T` hold.
pub open spec fn exact_remainder<T: Scalar + Rem<Output = T> + PartialOrd>() -> bool {
    T::obeys_rem_spec() && T::obeys_partial_cmp_spec()
}

/// Every remainder of `T` is defined.
pub open spec fn total_remainder<T: Scalar + Rem<Output = T> + PartialOrd>() -> bool {
    forall|a: T, b: T| #[trigger] a.rem_req(b)
}

/// The sidereal time at Greenwich at the Julian date `jday`, in seconds
/// within the day: the cubic of [`GMST_SECONDS`] in the centuries since the
/// epoch, taken into one day.
pub open spec fn sidereal_seconds<T: Scalar + Rem<Output = T> + PartialOrd>(jday: T) -> T {
    within_a_day(
        polynomial(GMST_SECONDS, powers_to_three(centuries_since_epoch(jday)), 4)->Some_0,
    )
}

/// The operations of [`sidereal_seconds`] accept their operands.
pub open spec fn sidereal_seconds_defined<T: Scalar + Rem<Output = T> + PartialOrd>(jday: T) -> bool {
    &&& centuries_since_epoch_defined(jday)
    &&& powers_to_three_defined(centuries_since_epoch(jday))
    &&& polynomial_defined(GMST_SECONDS, powers_to_three(centuries_since_epoch(jday)), 4)
    &&& within_a_day_defined(
        polynomial(GMST_SECONDS, powers_to_three(centuries_since_epoch(jday)), 4)->Some_0,
    )
}

/// The sidereal time at Greenwich as an angle: the share of the day that
/// the sidereal seconds are, of the full turn `turn`.
pub open spec fn sidereal_angle<T: Scalar + Rem<Output = T> + PartialOrd>(jday: T, turn: T) -> T {
    sidereal_seconds(jday).mul_spec(turn).div_spec(whole::<T>(SECONDS_PER_DAY))
}

/// The operations of [`sidereal_angle`] accept their operands.
pub open spec fn sidereal_angle_defined<T: Scalar + Rem<Output = T> + PartialOrd>(
    jday: T,
    turn: T,
) -> bool {
    &&& sidereal_seconds_defined(jday)
    &&& sidereal_seconds(jday).mul_req(turn)
    &&& sidereal_seconds(jday).mul_spec(turn).div_req(whole::<T>(SECONDS_PER_DAY))
}

/// The Greenwich sidereal time at the Julian date `jday` in seconds, from
/// zero to less than a day. One day of it is one turn of the Earth.
pub fn julian_to_sidereal_seconds<T: Scalar + Rem<Output = T> + PartialOrd>(jday: T) -> (r: T)
    requires
        (total::<T>() && total_remainder::<T>()) || (exact::<T>() && exact_remainder::<T>()
            && sidereal_seconds_defined(jday)),
    ensures
        exact::<T>() && exact_remainder::<T>() ==> r == sidereal_seconds(jday),
{
    proof {
        assert(GMST_SECONDS[0][0] != 0);
        assert(has_entry(GMST_SECONDS));
    }
    let tut1 = (jday - whole_of::<T>(EPOCH)) / whole_of::<T>(DAYS_PER_CENTURY);
    let square = tut1 * tut1;
    let cube = square * tut1;
    let centuries = vec![tut1, square, cube];
    assert(exact::<T>() ==> centuries@ =~= powers_to_three(centuries_since_epoch(jday)));
    let seconds = polynomial_of(&GMST_SECONDS, &centuries).unwrap();
    let day = whole_of::<T>(SECONDS_PER_DAY);
    let rest = seconds % day;
    if rest < T::from(0i32) {
        let raised = rest + day;
        if raised < day {
            raised
        } else {
            raised - day
        }
    } else {
        rest
    }
}

/// The Greenwich mean sidereal time at the Julian date `jday`, as an angle
/// from zero to less than the full turn `turn`: in radians for a `turn` of
/// two pi.
pub fn julian_to_gmst<T: Scalar + Rem<Output = T> + PartialOrd>(jday: T, turn: T) -> (r: T)
    requires
        (total::<T>() && total_remainder::<T>()) || (exact::<T>() && exact_remainder::<T>()
            && sidereal_angle_defined(jday, turn)),
    ensures
        exact::<T>() && exact_remainder::<T>() ==> r == sidereal_angle(jday, turn),
{
    julian_to_sidereal_seconds(jday) * turn / whole_of::<T>(SECONDS_PER_DAY)
}

/// In whole seconds the sidereal time lies within the day, and differs from
/// the cubic by whole days.
pub proof fn lemma_gmst_is_within_a_day(seconds: i64)
    ensures
        within_a_day_defined(seconds),
        0 <= within_a_day(seconds) < SECONDS_PER_DAY,
        (within_a_day(seconds) - seconds) % (SECONDS_PER_DAY as int) == 0,
{
    let day = whole::<i64>(SECONDS_PER_DAY);
    assert(day == 86400);
    let rest = seconds.rem_spec(day);
    if seconds >= 0 {
        assert(rest == seconds as int % 86400);
    } else {
        assert(rest == -((-(seconds as int)) % 86400));
    }
}

/// The sidereal angle lies within the turn: seconds within the day, times a
/// turn that is positive, over the seconds of the day, are from zero to less
/// than the turn. This holds in whole numbers wherever the product does not
/// overflow.
pub proof fn lemma_gmst_is_within_a_turn(seconds: i64, turn: i64)
    requires
        0 <= seconds < SECONDS_PER_DAY,
        0 < turn,
        seconds.mul_req(turn),
    ensures
        seconds.mul_spec(turn).div_req(whole::<i64>(SECONDS_PER_DAY)),
        0 <= seconds.mul_spec(turn).div_spec(whole::<i64>(SECONDS_PER_DAY)) < turn,
{
    let day = whole::<i64>(SECONDS_PER_DAY);
    assert(day == 86400);
    let product = seconds as int * turn as int;
    assert(0 <= product < 86400 * turn) by (nonlinear_arith)
        requires
            0 <= seconds < 86400,
            0 < turn,
            product == seconds as int * turn as int,
    ;
    assert(0 <= product / 86400 < turn) by (nonlinear_arith)
        requires
            0 <= product < 86400 * turn,
    ;
}

/// The sidereal time is an angle within the turn, at every Julian date: in
/// whole numbers, for a turn that is positive and wherever no operation on
/// the way overflows, [`sidereal_angle`] is from zero to less than the turn.
pub proof fn lemma_sidereal_angle_is_within_a_turn(jday: i64, turn: i64)
    requires
        0 < turn,
        sidereal_angle_defined(jday, turn),
    ensures
        0 <= sidereal_angle(jday, turn) < turn,
{
    let cubic = polynomial(GMST_SECONDS, powers_to_three(centuries_since_epoch(jday)), 4)->Some_0;
    lemma_gmst_is_within_a_day(cubic);
    lemma_gmst_is_within_a_turn(sidereal_seconds(jday), turn);
}

/// The weights of the model of the polar offset `xp`: a constant, and the
/// weights of the cosine and sine of the yearly and of the 435-day angle.
pub const POLAR_X: [[i64; 2]; 5] = [
    [1033, 10000],
    [494, 10000],
    [482, 10000],
    [297, 10000],
    [307, 10000],
];

/// The weights of the model of the polar offset `yp`, in the same order.
pub const POLAR_Y: [[i64; 2]; 5] = [
    [3498, 10000],
    [441, 10000],
    [-393, 10000],
    [307, 10000],
    [-297, 10000],
];

/// One second of arc in radians: the unit of the two models.
pub const ARCSECOND: [i64; 2] = [484813681, 100000000000000];

/// A polar offset in radians: the weighted sum of the model, in seconds of
/// arc, times the second of arc. `waves` holds the cosine and sine of the
/// yearly angle and the cosine and sine of the 435-day angle.
pub open spec fn polar_offset<T: Scalar>(weights: [[i64; 2]; 5], waves: Seq<T>) -> T {
    polynomial(weights, waves, 5)->Some_0.mul_spec(ratio::<T>(ARCSECOND))
}

/// The operations of [`polar_offset`] accept their operands.
pub open spec fn polar_offset_defined<T: Scalar>(weights: [[i64; 2]; 5], waves: Seq<T>) -> bool {
    &&& polynomial_defined(weights, waves, 5)
    &&& ratio_defined::<T>(ARCSECOND)
    &&& polynomial(weights, waves, 5)->Some_0.mul_req(ratio::<T>(ARCSECOND))
}

/// The polar offsets `xp` and `yp` in radians, from the cosine and sine of
/// the yearly angle and the cosine and sine of the 435-day angle.
pub fn polar_offsets<T: Scalar>(cos_year: T, sin_year: T, cos_chandler: T, sin_chandler: T) -> (r:
    (T, T))
    requires
        computable::<T>(
            polar_offset_defined(POLAR_X, seq![cos_year, sin_year, cos_chandler, sin_chandler])
                && polar_offset_defined(
                POLAR_Y,
                seq![cos_year, sin_year, cos_chandler, sin_chandler],
            ),
        ),
    ensures
        exact::<T>() ==> r.0 == polar_offset(
            POLAR_X,
            seq![cos_year, sin_year, cos_chandler, sin_chandler],
        ),
        exact::<T>() ==> r.1 == polar_offset(
            POLAR_Y,
            seq![cos_year, sin_year, cos_chandler, sin_chandler],
        ),
{
    let waves = vec![cos_year, sin_year, cos_chandler, sin_chandler];
    proof {
        assert(waves@ =~= seq![cos_year, sin_year, cos_chandler, sin_chandler]);
        assert(POLAR_X[0][0] != 0);
        assert(has_entry(POLAR_X));
        assert(POLAR_Y[0][0] != 0);
        assert(has_entry(POLAR_Y));
    }
    let xp = polynomial_of(&POLAR_X, &waves).unwrap() * ratio_of::<T>(&ARCSECOND);
    let yp = polynomial_of(&POLAR_Y, &waves).unwrap() * ratio_of::<T>(&ARCSECOND);
    (xp, yp)
}

/// The sidereal matrix is a rotation: for a sine and a cosine whose squares
/// add up to one, the columns of [`sidereal_rotation`] have length one and
/// are orthogonal to each other. This holds in whole numbers, where such
/// pairs are the quarter turns.
pub proof fn lemma_sidereal_rotation_is_a_rotation(sin_gmst: i64, cos_gmst: i64)
    requires
        sin_gmst * sin_gmst + cos_gmst * cos_gmst == 1,
    ensures
        sin_gmst.neg_req(),
        is_rotation(sidereal_rotation(sin_gmst, cos_gmst)),
{
    lemma_unit_circle(sin_gmst, cos_gmst);
    let (s, c) = (sin_gmst as int, cos_gmst as int);
    let m = sidereal_rotation(sin_gmst, cos_gmst);
    assert(m[0] == c && m[1] == -s && m[2] == 0 && m[3] == s && m[4] == c && m[5] == 0 && m[6] == 0
        && m[7] == 0 && m[8] == 1);
    assert(c * c + s * s + 0 * 0 == 1 && (-s) * (-s) + c * c + 0 * 0 == 1 && c * (-s) + s * c + 0
        * 0 == 0) by (nonlinear_arith)
        requires
            s * s + c * c == 1,
    ;
    assert(m[0] * m[0] + m[3] * m[3] + m[6] * m[6] == 1);
    assert(m[1] * m[1] + m[4] * m[4] + m[7] * m[7] == 1);
    assert(m[2] * m[2] + m[5] * m[5] + m[8] * m[8] == 1);
    assert(m[0] * m[1] + m[3] * m[4] + m[6] * m[7] == 0);
    assert(m[0] * m[2] + m[3] * m[5] + m[6] * m[8] == 0);
    assert(m[1] * m[2] + m[4] * m[5] + m[7] * m[8] == 0);
    lemma_is_rotation_by_entries(m);
}

/// The polar-motion matrix is a rotation: for sines and cosines whose
/// squares add up to one, pair by pair, the columns of [`polar_motion`] have
/// length one and are orthogonal to each other, and none of its operations
/// overflows. This holds in whole numbers, where such pairs are the quarter
/// turns.
pub proof fn lemma_polar_motion_is_a_rotation(sin_xp: i64, cos_xp: i64, sin_yp: i64, cos_yp: i64)
    requires
        sin_xp * sin_xp + cos_xp * cos_xp == 1,
        sin_yp * sin_yp + cos_yp * cos_yp == 1,
    ensures
        polar_motion_defined(sin_xp, cos_xp, sin_yp, cos_yp),
        is_rotation(polar_motion(sin_xp, cos_xp, sin_yp, cos_yp)),
{
    lemma_unit_circle(sin_xp, cos_xp);
    lemma_unit_circle(sin_yp, cos_yp);
    let (a, b, c, d) = (sin_xp as int, cos_xp as int, sin_yp as int, cos_yp as int);
    assert(-1 <= a * c <= 1 && -1 <= b * c <= 1 && -1 <= a * d <= 1 && -1 <= b * d <= 1)
        by (nonlinear_arith)
        requires
            -1 <= a <= 1,
            -1 <= b <= 1,
            -1 <= c <= 1,
            -1 <= d <= 1,
    ;
    let m = polar_motion(sin_xp, cos_xp, sin_yp, cos_yp);
    assert(m[0] == b && m[1] == 0 && m[2] == -a);
    assert(m[3] == a * c && m[4] == d && m[5] == b * c);
    assert(m[6] == a * d && m[7] == -c && m[8] == b * d);
    assert(b * b + (a * c) * (a * c) + (a * d) * (a * d) == 1 && 0 * 0 + d * d + (-c) * (-c) == 1 && (
    -a) * (-a) + (b * c) * (b * c) + (b * d) * (b * d) == 1) by (nonlinear_arith)
        requires
            a * a + b * b == 1,
            c * c + d * d == 1,
    ;
    assert(b * 0 + (a * c) * d + (a * d) * (-c) == 0 && 0 * (-a) + d * (b * c) + (-c) * (b * d)
        == 0) by (nonlinear_arith);
    assert(b * (-a) + (a * c) * (b * c) + (a * d) * (b * d) == 0) by (nonlinear_arith)
        requires
            c * c + d * d == 1,
    ;
    assert(m[0] * m[0] + m[3] * m[3] + m[6] * m[6] == 1);
    assert(m[1] * m[1] + m[4] * m[4] + m[7] * m[7] == 1);
    assert(m[2] * m[2] + m[5] * m[5] + m[8] * m[8] == 1);
    assert(m[0] * m[1] + m[3] * m[4] + m[6] * m[7] == 0);
    assert(m[0] * m[2] + m[3] * m[5] + m[6] * m[8] == 0);
    assert(m[1] * m[2] + m[4] * m[5] + m[7] * m[8] == 0);
    lemma_is_rotation_by_entries(m);
}

} // verus!
