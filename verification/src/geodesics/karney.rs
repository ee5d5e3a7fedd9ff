//! The series of the auxiliary-sphere solution of the geodesic problems, to
//! the tenth order in the small parameter `eps` of the geodesic and in the
//! third flattening `n` of the ellipsoid.
//!
//! The tables hold the coefficients as exact fractions. Every function here
//! takes the powers of `eps` and `n` and the sines of the even multiples of
//! the arc as given values, and does the arithmetic: `eps_powers[p - 1]` is
//! `eps` to the power `p`, for `p` from 1 to 10; `n_powers[p - 1]` is `n` to
//! the power `p`, for `p` from 1 to 4; and `sines[l - 1]` is the sine of
//! `2 * l` times the arc.

use crate::scalar::{computable, exact, one, Scalar};
use crate::series::{
    begins_at_its_harmonic, goes_in_steps_of_two, has_entry, has_entry2, has_entry3,
    has_positive_denominators, polynomial2, polynomial2_defined, polynomial2_of, sine_series,
    sine_series_defined, sine_series_of, stays_below_order,
};
use vstd::prelude::*;
use vstd::std_specs::ops::{AddSpec, DivSpec, MulSpec, SubSpec};

verus! {

/// The numerator of the scale `A1` of the distance integral, by powers of
/// `eps` from 0 to 10: `A1` is this polynomial over `1 - eps`.
pub const A1_NUMERATOR: [[[i64; 2]; 1]; 11] = [
    [[1, 1]], [[0, 1]], [[1, 4]], [[0, 1]], [[1, 64]], [[0, 1]], [[1, 256]], [[0, 1]],
    [[25, 16384]], [[0, 1]], [[49, 65536]],
];

/// The scale `A3` of the longitude integral, by powers of `eps` from 0 to 9
/// and of `n` from 0 to 4.
pub const A3: [[[i64; 2]; 5]; 10] = [
    [[1, 1], [0, 1], [0, 1], [0, 1], [0, 1]],
    [[-1, 2], [1, 2], [0, 1], [0, 1], [0, 1]],
    [[-1, 4], [-1, 8], [3, 8], [0, 1], [0, 1]],
    [[-1, 16], [-3, 16], [-1, 16], [5, 16], [0, 1]],
    [[-3, 64], [-1, 32], [-5, 32], [-5, 128], [35, 128]],
    [[-3, 128], [-5, 128], [-5, 256], [-35, 256], [-7, 256]],
    [[-5, 256], [-15, 1024], [-35, 1024], [-7, 512], [0, 1]],
    [[-25, 2048], [-35, 2048], [-21, 2048], [0, 1], [0, 1]],
    [[-175, 16384], [-35, 4096], [0, 1], [0, 1], [0, 1]],
    [[-245, 32768], [0, 1], [0, 1], [0, 1], [0, 1]],
];

/// The coefficients `C1` of the distance integral: harmonic `l` from 1 to 10,
/// by powers of `eps` from 0 to 10.
pub const C1: [[[[i64; 2]; 1]; 11]; 10] = [
    [
        [[0, 1]], [[-1, 2]], [[0, 1]], [[3, 16]], [[0, 1]], [[-1, 32]], [[0, 1]], [[19, 2048]],
        [[0, 1]], [[-3, 4096]], [[0, 1]],
    ],
    [
        [[0, 1]], [[0, 1]], [[-1, 16]], [[0, 1]], [[1, 32]], [[0, 1]], [[-9, 2048]], [[0, 1]],
        [[7, 4096]], [[0, 1]], [[1, 65536]],
    ],
    [
        [[0, 1]], [[0, 1]], [[0, 1]], [[-1, 48]], [[0, 1]], [[3, 256]], [[0, 1]], [[-3, 2048]],
        [[0, 1]], [[17, 24576]], [[0, 1]],
    ],
    [
        [[0, 1]], [[0, 1]], [[0, 1]], [[0, 1]], [[-5, 512]], [[0, 1]], [[3, 512]], [[0, 1]],
        [[-11, 16384]], [[0, 1]], [[3, 8192]],
    ],
    [
        [[0, 1]], [[0, 1]], [[0, 1]], [[0, 1]], [[0, 1]], [[-7, 1280]], [[0, 1]], [[7, 2048]],
        [[0, 1]], [[-3, 8192]], [[0, 1]],
    ],
    [
        [[0, 1]], [[0, 1]], [[0, 1]], [[0, 1]], [[0, 1]], [[0, 1]], [[-7, 2048]], [[0, 1]],
        [[9, 4096]], [[0, 1]], [[-117, 524288]],
    ],
    [
        [[0, 1]], [[0, 1]], [[0, 1]], [[0, 1]], [[0, 1]], [[0, 1]], [[0, 1]], [[-33, 14336]],
        [[0, 1]], [[99, 65536]], [[0, 1]],
    ],
    [
        [[0, 1]], [[0, 1]], [[0, 1]], [[0, 1]], [[0, 1]], [[0, 1]], [[0, 1]], [[0, 1]],
        [[-429, 262144]], [[0, 1]], [[143, 131072]],
    ],
    [
        [[0, 1]], [[0, 1]], [[0, 1]], [[0, 1]], [[0, 1]], [[0, 1]], [[0, 1]], [[0, 1]], [[0, 1]],
        [[-715, 589824]], [[0, 1]],
    ],
    [
        [[0, 1]], [[0, 1]], [[0, 1]], [[0, 1]], [[0, 1]], [[0, 1]], [[0, 1]], [[0, 1]], [[0, 1]],
        [[0, 1]], [[-2431, 2621440]],
    ],
];

/// The coefficients `C1'` of the reverted distance series, which gives the
/// arc for a distance: harmonic `l` from 1 to 10, by powers of `eps` from 0
/// to 10.
pub const C1_REVERTED: [[[[i64; 2]; 1]; 11]; 10] = [
    [
        [[0, 1]], [[1, 2]], [[0, 1]], [[-9, 32]], [[0, 1]], [[205, 1536]], [[0, 1]],
        [[-4879, 73728]], [[0, 1]], [[9039, 327680]], [[0, 1]],
    ],
    [
        [[0, 1]], [[0, 1]], [[5, 16]], [[0, 1]], [[-37, 96]], [[0, 1]], [[1335, 4096]], [[0, 1]],
        [[-86171, 368640]], [[0, 1]], [[4119073, 28311552]],
    ],
    [
        [[0, 1]], [[0, 1]], [[0, 1]], [[29, 96]], [[0, 1]], [[-75, 128]], [[0, 1]],
        [[2901, 4096]], [[0, 1]], [[-443327, 655360]], [[0, 1]],
    ],
    [
        [[0, 1]], [[0, 1]], [[0, 1]], [[0, 1]], [[539, 1536]], [[0, 1]], [[-2391, 2560]],
        [[0, 1]], [[1082857, 737280]], [[0, 1]], [[-2722891, 1548288]],
    ],
    [
        [[0, 1]], [[0, 1]], [[0, 1]], [[0, 1]], [[0, 1]], [[3467, 7680]], [[0, 1]],
        [[-28223, 18432]], [[0, 1]], [[1361343, 458752]], [[0, 1]],
    ],
    [
        [[0, 1]], [[0, 1]], [[0, 1]], [[0, 1]], [[0, 1]], [[0, 1]], [[38081, 61440]], [[0, 1]],
        [[-733437, 286720]], [[0, 1]], [[10820079, 1835008]],
    ],
    [
        [[0, 1]], [[0, 1]], [[0, 1]], [[0, 1]], [[0, 1]], [[0, 1]], [[0, 1]], [[459485, 516096]],
        [[0, 1]], [[-709743, 163840]], [[0, 1]],
    ],
    [
        [[0, 1]], [[0, 1]], [[0, 1]], [[0, 1]], [[0, 1]], [[0, 1]], [[0, 1]], [[0, 1]],
        [[109167851, 82575360]], [[0, 1]], [[-550835669, 74317824]],
    ],
    [
        [[0, 1]], [[0, 1]], [[0, 1]], [[0, 1]], [[0, 1]], [[0, 1]], [[0, 1]], [[0, 1]], [[0, 1]],
        [[83141299, 41287680]], [[0, 1]],
    ],
    [
        [[0, 1]], [[0, 1]], [[0, 1]], [[0, 1]], [[0, 1]], [[0, 1]], [[0, 1]], [[0, 1]], [[0, 1]],
        [[0, 1]], [[9303339907, 2972712960]],
    ],
];

/// The coefficients `C3` of the longitude integral: harmonic `l` from 1 to 9,
/// by powers of `eps` from 0 to 9 and of `n` from 0 to 4.
pub const C3: [[[[i64; 2]; 5]; 10]; 9] = [
    [
        [[0, 1], [0, 1], [0, 1], [0, 1], [0, 1]],
        [[1, 4], [-1, 4], [0, 1], [0, 1], [0, 1]],
        [[1, 8], [0, 1], [-1, 8], [0, 1], [0, 1]],
        [[3, 64], [3, 64], [-1, 64], [-5, 64], [0, 1]],
        [[5, 128], [1, 64], [1, 64], [-1, 64], [-7, 128]],
        [[3, 128], [11, 512], [3, 512], [1, 256], [-7, 512]],
        [[21, 1024], [5, 512], [13, 1024], [1, 512], [0, 1]],
        [[243, 16384], [189, 16384], [83, 16384], [0, 1], [0, 1]],
        [[435, 32768], [109, 16384], [0, 1], [0, 1], [0, 1]],
        [[345, 32768], [0, 1], [0, 1], [0, 1], [0, 1]],
    ],
    [
        [[0, 1], [0, 1], [0, 1], [0, 1], [0, 1]],
        [[0, 1], [0, 1], [0, 1], [0, 1], [0, 1]],
        [[1, 16], [-3, 32], [1, 32], [0, 1], [0, 1]],
        [[3, 64], [-1, 32], [-3, 64], [1, 32], [0, 1]],
        [[3, 128], [1, 128], [-9, 256], [-3, 128], [7, 256]],
        [[5, 256], [1, 256], [-1, 128], [-7, 256], [-3, 256]],
        [[27, 2048], [69, 8192], [-39, 8192], [-47, 4096], [0, 1]],
        [[187, 16384], [39, 8192], [31, 16384], [0, 1], [0, 1]],
        [[287, 32768], [47, 8192], [0, 1], [0, 1], [0, 1]],
        [[255, 32768], [0, 1], [0, 1], [0, 1], [0, 1]],
    ],
    [
        [[0, 1], [0, 1], [0, 1], [0, 1], [0, 1]],
        [[0, 1], [0, 1], [0, 1], [0, 1], [0, 1]],
        [[0, 1], [0, 1], [0, 1], [0, 1], [0, 1]],
        [[5, 192], [-3, 64], [5, 192], [-1, 192], [0, 1]],
        [[3, 128], [-5, 192], [-1, 64], [5, 192], [-1, 128]],
        [[7, 512], [-1, 384], [-77, 3072], [5, 3072], [65, 3072]],
        [[3, 256], [-1, 1024], [-71, 6144], [-47, 3072], [0, 1]],
        [[139, 16384], [143, 49152], [-383, 49152], [0, 1], [0, 1]],
        [[243, 32768], [95, 49152], [0, 1], [0, 1], [0, 1]],
        [[581, 98304], [0, 1], [0, 1], [0, 1], [0, 1]],
    ],
    [
        [[0, 1], [0, 1], [0, 1], [0, 1], [0, 1]],
        [[0, 1], [0, 1], [0, 1], [0, 1], [0, 1]],
        [[0, 1], [0, 1], [0, 1], [0, 1], [0, 1]],
        [[0, 1], [0, 1], [0, 1], [0, 1], [0, 1]],
        [[7, 512], [-7, 256], [5, 256], [-7, 1024], [1, 1024]],
        [[7, 512], [-5, 256], [-7, 2048], [9, 512], [-21, 2048]],
        [[9, 1024], [-43, 8192], [-129, 8192], [39, 4096], [0, 1]],
        [[127, 16384], [-23, 8192], [-165, 16384], [0, 1], [0, 1]],
        [[193, 32768], [3, 8192], [0, 1], [0, 1], [0, 1]],
        [[171, 32768], [0, 1], [0, 1], [0, 1], [0, 1]],
    ],
    [
        [[0, 1], [0, 1], [0, 1], [0, 1], [0, 1]],
        [[0, 1], [0, 1], [0, 1], [0, 1], [0, 1]],
        [[0, 1], [0, 1], [0, 1], [0, 1], [0, 1]],
        [[0, 1], [0, 1], [0, 1], [0, 1], [0, 1]],
        [[0, 1], [0, 1], [0, 1], [0, 1], [0, 1]],
        [[21, 2560], [-9, 512], [15, 1024], [-7, 1024], [9, 5120]],
        [[9, 1024], [-15, 1024], [3, 2048], [57, 5120], [0, 1]],
        [[99, 16384], [-91, 16384], [-781, 81920], [0, 1], [0, 1]],
        [[179, 32768], [-55, 16384], [0, 1], [0, 1], [0, 1]],
        [[141, 32768], [0, 1], [0, 1], [0, 1], [0, 1]],
    ],
    [
        [[0, 1], [0, 1], [0, 1], [0, 1], [0, 1]],
        [[0, 1], [0, 1], [0, 1], [0, 1], [0, 1]],
        [[0, 1], [0, 1], [0, 1], [0, 1], [0, 1]],
        [[0, 1], [0, 1], [0, 1], [0, 1], [0, 1]],
        [[0, 1], [0, 1], [0, 1], [0, 1], [0, 1]],
        [[0, 1], [0, 1], [0, 1], [0, 1], [0, 1]],
        [[11, 2048], [-99, 8192], [275, 24576], [-77, 12288], [0, 1]],
        [[99, 16384], [-275, 24576], [55, 16384], [0, 1], [0, 1]],
        [[143, 32768], [-253, 49152], [0, 1], [0, 1], [0, 1]],
        [[33, 8192], [0, 1], [0, 1], [0, 1], [0, 1]],
    ],
    [
        [[0, 1], [0, 1], [0, 1], [0, 1], [0, 1]],
        [[0, 1], [0, 1], [0, 1], [0, 1], [0, 1]],
        [[0, 1], [0, 1], [0, 1], [0, 1], [0, 1]],
        [[0, 1], [0, 1], [0, 1], [0, 1], [0, 1]],
        [[0, 1], [0, 1], [0, 1], [0, 1], [0, 1]],
        [[0, 1], [0, 1], [0, 1], [0, 1], [0, 1]],
        [[0, 1], [0, 1], [0, 1], [0, 1], [0, 1]],
        [[429, 114688], [-143, 16384], [143, 16384], [0, 1], [0, 1]],
        [[143, 32768], [-143, 16384], [0, 1], [0, 1], [0, 1]],
        [[429, 131072], [0, 1], [0, 1], [0, 1], [0, 1]],
    ],
    [
        [[0, 1], [0, 1], [0, 1], [0, 1], [0, 1]],
        [[0, 1], [0, 1], [0, 1], [0, 1], [0, 1]],
        [[0, 1], [0, 1], [0, 1], [0, 1], [0, 1]],
        [[0, 1], [0, 1], [0, 1], [0, 1], [0, 1]],
        [[0, 1], [0, 1], [0, 1], [0, 1], [0, 1]],
        [[0, 1], [0, 1], [0, 1], [0, 1], [0, 1]],
        [[0, 1], [0, 1], [0, 1], [0, 1], [0, 1]],
        [[0, 1], [0, 1], [0, 1], [0, 1], [0, 1]],
        [[715, 262144], [-429, 65536], [0, 1], [0, 1], [0, 1]],
        [[429, 131072], [0, 1], [0, 1], [0, 1], [0, 1]],
    ],
    [
        [[0, 1], [0, 1], [0, 1], [0, 1], [0, 1]],
        [[0, 1], [0, 1], [0, 1], [0, 1], [0, 1]],
        [[0, 1], [0, 1], [0, 1], [0, 1], [0, 1]],
        [[0, 1], [0, 1], [0, 1], [0, 1], [0, 1]],
        [[0, 1], [0, 1], [0, 1], [0, 1], [0, 1]],
        [[0, 1], [0, 1], [0, 1], [0, 1], [0, 1]],
        [[0, 1], [0, 1], [0, 1], [0, 1], [0, 1]],
        [[0, 1], [0, 1], [0, 1], [0, 1], [0, 1]],
        [[0, 1], [0, 1], [0, 1], [0, 1], [0, 1]],
        [[2431, 1179648], [0, 1], [0, 1], [0, 1], [0, 1]],
    ],
];

/// No powers of a second parameter: the tables in `eps` alone have none.
pub open spec fn no_powers<T>() -> Seq<T> {
    Seq::empty()
}

/// The scale of the distance integral: the polynomial of [`A1_NUMERATOR`]
/// over `1 - eps`.
pub open spec fn scale_one<T: Scalar>(eps_powers: Seq<T>) -> T {
    polynomial2(A1_NUMERATOR, no_powers(), eps_powers, 11)->Some_0.div_spec(
        one::<T>().sub_spec(eps_powers[0]),
    )
}

/// The operations of [`scale_one`] accept their operands.
pub open spec fn scale_one_defined<T: Scalar>(eps_powers: Seq<T>) -> bool {
    &&& polynomial2_defined(A1_NUMERATOR, no_powers::<T>(), eps_powers, 11)
    &&& one::<T>().sub_req(eps_powers[0])
    &&& polynomial2(A1_NUMERATOR, no_powers(), eps_powers, 11)->Some_0.div_req(
        one::<T>().sub_spec(eps_powers[0]),
    )
}

/// The scale of the longitude integral: the polynomial of [`A3`].
pub open spec fn scale_three<T: Scalar>(eps_powers: Seq<T>, n_powers: Seq<T>) -> T {
    polynomial2(A3, n_powers, eps_powers, 10)->Some_0
}

/// The operations of [`scale_three`] accept their operands.
pub open spec fn scale_three_defined<T: Scalar>(eps_powers: Seq<T>, n_powers: Seq<T>) -> bool {
    polynomial2_defined(A3, n_powers, eps_powers, 10)
}

/// The distance integral at the arc `sigma`: `a_1` times the arc with the
/// sine series of [`C1`] added.
pub open spec fn distance_integral<T: Scalar>(
    eps_powers: Seq<T>,
    sigma: T,
    sines: Seq<T>,
    a_1: T,
) -> T {
    a_1.mul_spec(sigma.add_spec(sine_series(C1, no_powers(), eps_powers, sines, 10)->Some_0))
}

/// The operations of [`distance_integral`] accept their operands.
pub open spec fn distance_integral_defined<T: Scalar>(
    eps_powers: Seq<T>,
    sigma: T,
    sines: Seq<T>,
    a_1: T,
) -> bool {
    &&& sine_series_defined(C1, no_powers::<T>(), eps_powers, sines, 10)
    &&& sigma.add_req(sine_series(C1, no_powers(), eps_powers, sines, 10)->Some_0)
    &&& a_1.mul_req(sigma.add_spec(sine_series(C1, no_powers(), eps_powers, sines, 10)->Some_0))
}

/// The arc for the scaled distance `tau`: `tau` with the sine series of
/// [`C1_REVERTED`] added.
pub open spec fn reverted_arc<T: Scalar>(eps_powers: Seq<T>, tau: T, sines: Seq<T>) -> T {
    tau.add_spec(sine_series(C1_REVERTED, no_powers(), eps_powers, sines, 10)->Some_0)
}

/// The operations of [`reverted_arc`] accept their operands.
pub open spec fn reverted_arc_defined<T: Scalar>(eps_powers: Seq<T>, tau: T, sines: Seq<T>) -> bool {
    &&& sine_series_defined(C1_REVERTED, no_powers::<T>(), eps_powers, sines, 10)
    &&& tau.add_req(sine_series(C1_REVERTED, no_powers(), eps_powers, sines, 10)->Some_0)
}

/// The longitude integral at the arc `sigma`: `a_3` times the arc with the
/// sine series of [`C3`] added.
pub open spec fn longitude_integral<T: Scalar>(
    eps_powers: Seq<T>,
    n_powers: Seq<T>,
    sigma: T,
    sines: Seq<T>,
    a_3: T,
) -> T {
    a_3.mul_spec(sigma.add_spec(sine_series(C3, n_powers, eps_powers, sines, 9)->Some_0))
}

/// The operations of [`longitude_integral`] accept their operands.
pub open spec fn longitude_integral_defined<T: Scalar>(
    eps_powers: Seq<T>,
    n_powers: Seq<T>,
    sigma: T,
    sines: Seq<T>,
    a_3: T,
) -> bool {
    &&& sine_series_defined(C3, n_powers, eps_powers, sines, 9)
    &&& sigma.add_req(sine_series(C3, n_powers, eps_powers, sines, 9)->Some_0)
    &&& a_3.mul_req(sigma.add_spec(sine_series(C3, n_powers, eps_powers, sines, 9)->Some_0))
}

/// Each table has an entry: its sum has a value.
pub proof fn lemma_tables_have_entries()
    ensures
        has_entry2(A1_NUMERATOR),
        has_entry2(A3),
        has_entry3(C1),
        has_entry3(C1_REVERTED),
        has_entry3(C3),
{
    assert(A1_NUMERATOR[0][0][0] != 0);
    assert(has_entry(A1_NUMERATOR[0]));
    assert(A3[0][0][0] != 0);
    assert(has_entry(A3[0]));
    assert(C1[0][1][0][0] != 0);
    assert(has_entry(C1[0][1]));
    assert(has_entry2(C1[0]));
    assert(C1_REVERTED[0][1][0][0] != 0);
    assert(has_entry(C1_REVERTED[0][1]));
    assert(has_entry2(C1_REVERTED[0]));
    assert(C3[0][1][0][0] != 0);
    assert(has_entry(C3[0][1]));
    assert(has_entry2(C3[0]));
}

/// The scale `A1` of the distance integral.
pub fn a_one<T: Scalar>(eps_powers: &Vec<T>) -> (r: T)
    requires
        eps_powers.len() == 10,
        computable::<T>(scale_one_defined(eps_powers@)),
    ensures
        exact::<T>() ==> r == scale_one(eps_powers@),
{
    let none: Vec<T> = Vec::new();
    proof {
        lemma_tables_have_entries();
        assert(none@ =~= no_powers::<T>());
    }
    let numerator = polynomial2_of(&A1_NUMERATOR, &none, eps_powers).unwrap();
    numerator / (T::from(1i32) - eps_powers[0])
}

/// The scale `A3` of the longitude integral.
pub fn a_three<T: Scalar>(eps_powers: &Vec<T>, n_powers: &Vec<T>) -> (r: T)
    requires
        eps_powers.len() == 10,
        n_powers.len() == 4,
        computable::<T>(scale_three_defined(eps_powers@, n_powers@)),
    ensures
        exact::<T>() ==> r == scale_three(eps_powers@, n_powers@),
{
    proof {
        lemma_tables_have_entries();
    }
    polynomial2_of(&A3, n_powers, eps_powers).unwrap()
}

/// The distance integral `I1` at the arc `sigma`, in units of the
/// semi-minor axis.
pub fn i_one_fourier_series<T: Scalar>(eps_powers: &Vec<T>, sigma: T, sines: &Vec<T>, a_1: T) -> (r:
    T)
    requires
        eps_powers.len() == 10,
        sines.len() == 10,
        computable::<T>(distance_integral_defined(eps_powers@, sigma, sines@, a_1)),
    ensures
        exact::<T>() ==> r == distance_integral(eps_powers@, sigma, sines@, a_1),
{
    let none: Vec<T> = Vec::new();
    proof {
        lemma_tables_have_entries();
        assert(none@ =~= no_powers::<T>());
    }
    let b_1 = sine_series_of(&C1, &none, eps_powers, sines).unwrap();
    a_1 * (sigma + b_1)
}

/// The arc `sigma` at which the distance integral, divided by `A1`, is
/// `tau`.
pub fn sigma_two_fourier_series<T: Scalar>(eps_powers: &Vec<T>, tau: T, sines: &Vec<T>) -> (r: T)
    requires
        eps_powers.len() == 10,
        sines.len() == 10,
        computable::<T>(reverted_arc_defined(eps_powers@, tau, sines@)),
    ensures
        exact::<T>() ==> r == reverted_arc(eps_powers@, tau, sines@),
{
    let none: Vec<T> = Vec::new();
    proof {
        lemma_tables_have_entries();
        assert(none@ =~= no_powers::<T>());
    }
    let d_1 = sine_series_of(&C1_REVERTED, &none, eps_powers, sines).unwrap();
    tau + d_1
}

/// The longitude integral `I3` at the arc `sigma`.
pub fn i_three_fourier_series<T: Scalar>(
    eps_powers: &Vec<T>,
    n_powers: &Vec<T>,
    sigma: T,
    sines: &Vec<T>,
    a_3: T,
) -> (r: T)
    requires
        eps_powers.len() == 10,
        n_powers.len() == 4,
        sines.len() == 9,
        computable::<T>(longitude_integral_defined(eps_powers@, n_powers@, sigma, sines@, a_3)),
    ensures
        exact::<T>() ==> r == longitude_integral(eps_powers@, n_powers@, sigma, sines@, a_3),
{
    proof {
        lemma_tables_have_entries();
    }
    let e_1 = sine_series_of(&C3, n_powers, eps_powers, sines).unwrap();
    a_3 * (sigma + e_1)
}

/// The shape of the distance series: the coefficient of harmonic `l` begins
/// with `eps` to the power `l` and goes on in steps of two, in the series
/// and in its reversion; and every fraction has a positive denominator.
pub proof fn lemma_distance_series_shape()
    ensures
        begins_at_its_harmonic(C1),
        goes_in_steps_of_two(C1),
        begins_at_its_harmonic(C1_REVERTED),
        goes_in_steps_of_two(C1_REVERTED),
        forall|l: int| 0 <= l < 10 ==> has_positive_denominators(#[trigger] C1[l]),
        forall|l: int| 0 <= l < 10 ==> has_positive_denominators(#[trigger] C1_REVERTED[l]),
        has_positive_denominators(A1_NUMERATOR),
{
}

/// The shape of the longitude series: the coefficient of harmonic `l` begins
/// with `eps` to the power `l`; the powers of `eps` and `n` of a term add up
/// to less than ten, in the coefficients and in the scale; and every
/// fraction has a positive denominator.
pub proof fn lemma_longitude_series_shape()
    ensures
        begins_at_its_harmonic(C3),
        forall|l: int| 0 <= l < 9 ==> stays_below_order(#[trigger] C3[l], 10),
        stays_below_order(A3, 10),
        forall|l: int| 0 <= l < 9 ==> has_positive_denominators(#[trigger] C3[l]),
        has_positive_denominators(A3),
{
}

/// The fraction `next` follows from the fraction `last` by the factor
/// `((2 k - 3) / (2 k))` squared: the step from one coefficient of the square
/// root of `1 - x` to the next, squared.
pub open spec fn is_squared_binomial_step(last: [i64; 2], next: [i64; 2], k: int) -> bool {
    next[0] * ((2 * k) * (2 * k)) * last[1] == next[1] * ((2 * k - 3) * (2 * k - 3)) * last[0]
}

/// The numerator of `A1` is the square of a binomial series: it begins with
/// one, the coefficient of each even power of `eps` is the square of the
/// coefficient of the square root of `1 - x` at half the power, and the odd
/// powers are absent.
pub proof fn lemma_scale_one_is_a_squared_binomial_series()
    ensures
        A1_NUMERATOR[0][0][0] == 1 && A1_NUMERATOR[0][0][1] == 1,
        is_squared_binomial_step(A1_NUMERATOR[0][0], A1_NUMERATOR[2][0], 1),
        is_squared_binomial_step(A1_NUMERATOR[2][0], A1_NUMERATOR[4][0], 2),
        is_squared_binomial_step(A1_NUMERATOR[4][0], A1_NUMERATOR[6][0], 3),
        is_squared_binomial_step(A1_NUMERATOR[6][0], A1_NUMERATOR[8][0], 4),
        is_squared_binomial_step(A1_NUMERATOR[8][0], A1_NUMERATOR[10][0], 5),
        forall|k: int| 0 <= k <= 4 ==> (#[trigger] A1_NUMERATOR[2 * k + 1][0])[0] == 0,
{
    assert(is_squared_binomial_step(A1_NUMERATOR[0][0], A1_NUMERATOR[2][0], 1)) by {
        let last = A1_NUMERATOR[0][0];
        let next = A1_NUMERATOR[2][0];
        assert(next[0] * ((2 * 1) * (2 * 1)) * last[1] == next[1] * ((2 * 1 - 3) * (2 * 1 - 3))
            * last[0]) by (nonlinear_arith)
            requires
                last[0] == 1,
                last[1] == 1,
                next[0] == 1,
                next[1] == 4,
        ;
    }
    assert(is_squared_binomial_step(A1_NUMERATOR[2][0], A1_NUMERATOR[4][0], 2)) by {
        let last = A1_NUMERATOR[2][0];
        let next = A1_NUMERATOR[4][0];
        assert(next[0] * ((2 * 2) * (2 * 2)) * last[1] == next[1] * ((2 * 2 - 3) * (2 * 2 - 3))
            * last[0]) by (nonlinear_arith)
            requires
                last[0] == 1,
                last[1] == 4,
                next[0] == 1,
                next[1] == 64,
        ;
    }
    assert(is_squared_binomial_step(A1_NUMERATOR[4][0], A1_NUMERATOR[6][0], 3)) by {
        let last = A1_NUMERATOR[4][0];
        let next = A1_NUMERATOR[6][0];
        assert(next[0] * ((2 * 3) * (2 * 3)) * last[1] == next[1] * ((2 * 3 - 3) * (2 * 3 - 3))
            * last[0]) by (nonlinear_arith)
            requires
                last[0] == 1,
                last[1] == 64,
                next[0] == 1,
                next[1] == 256,
        ;
    }
    assert(is_squared_binomial_step(A1_NUMERATOR[6][0], A1_NUMERATOR[8][0], 4)) by {
        let last = A1_NUMERATOR[6][0];
        let next = A1_NUMERATOR[8][0];
        assert(next[0] * ((2 * 4) * (2 * 4)) * last[1] == next[1] * ((2 * 4 - 3) * (2 * 4 - 3))
            * last[0]) by (nonlinear_arith)
            requires
                last[0] == 1,
                last[1] == 256,
                next[0] == 25,
                next[1] == 16384,
        ;
    }
    assert(is_squared_binomial_step(A1_NUMERATOR[8][0], A1_NUMERATOR[10][0], 5)) by {
        let last = A1_NUMERATOR[8][0];
        let next = A1_NUMERATOR[10][0];
        assert(next[0] * ((2 * 5) * (2 * 5)) * last[1] == next[1] * ((2 * 5 - 3) * (2 * 5 - 3))
            * last[0]) by (nonlinear_arith)
            requires
                last[0] == 25,
                last[1] == 16384,
                next[0] == 49,
                next[1] == 65536,
        ;
    }
}

} // verus!
