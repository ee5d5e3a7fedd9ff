//! Sums of rational multiples of given values: polynomials with rational
//! coefficients in two small parameters, and sine series with such
//! polynomials as coefficients.
//!
//! A table holds its coefficients as pairs of whole numbers, numerator and
//! denominator, at `[harmonic][power of the first parameter][power of the
//! second parameter]`. An entry with numerator zero is absent: it stands for
//! no term, and no operation is spent on it. The sums are formed in the order
//! of the table, so that a floating-point caller gets the same rounding on
//! every run.

use crate::scalar::{computable, exact, total, Scalar};
use vstd::prelude::*;
use vstd::std_specs::convert::FromSpec;
use vstd::std_specs::ops::{AddSpec, DivSpec, MulSpec};

verus! {

/// The base in which a whole number too large for 32 bits is taken apart.
pub const BASE: i32 = 2097152;

/// The digits of a whole number to the base 2^21, from the highest down.
/// The lower two are not negative; the highest has the sign of the number.
pub open spec fn digits(v: i64) -> (i32, i32, i32) {
    (
        ((v as int) / (BASE as int * BASE as int)) as i32,
        (((v as int) / (BASE as int)) % (BASE as int)) as i32,
        ((v as int) % (BASE as int)) as i32,
    )
}

/// A whole number as a value of `T`. One that does not fit in 32 bits is put
/// together from its three digits to the base 2^21.
pub open spec fn whole<T: Scalar>(v: i64) -> T {
    if i32::MIN <= v <= i32::MAX {
        T::from_spec(v as i32)
    } else {
        T::from_spec(digits(v).0).mul_spec(T::from_spec(BASE)).add_spec(
            T::from_spec(digits(v).1),
        ).mul_spec(T::from_spec(BASE)).add_spec(T::from_spec(digits(v).2))
    }
}

/// The operations of [`whole`] accept their operands.
pub open spec fn whole_defined<T: Scalar>(v: i64) -> bool {
    i32::MIN <= v <= i32::MAX || {
        let high = T::from_spec(digits(v).0);
        let middle = T::from_spec(digits(v).1);
        let low = T::from_spec(digits(v).2);
        let base = T::from_spec(BASE);
        &&& high.mul_req(base)
        &&& high.mul_spec(base).add_req(middle)
        &&& high.mul_spec(base).add_spec(middle).mul_req(base)
        &&& high.mul_spec(base).add_spec(middle).mul_spec(base).add_req(low)
    }
}

/// The quotient of the two whole numbers of a table entry.
pub open spec fn ratio<T: Scalar>(entry: [i64; 2]) -> T {
    whole::<T>(entry[0]).div_spec(whole::<T>(entry[1]))
}

/// The operations of [`ratio`] accept their operands.
pub open spec fn ratio_defined<T: Scalar>(entry: [i64; 2]) -> bool {
    &&& whole_defined::<T>(entry[0])
    &&& whole_defined::<T>(entry[1])
    &&& whole::<T>(entry[0]).div_req(whole::<T>(entry[1]))
}

/// `c` times the power `p` of a parameter, where `powers[p - 1]` is that
/// power; `c` itself for `p == 0`.
pub open spec fn scaled<T: Scalar>(c: T, powers: Seq<T>, p: int) -> T {
    if p == 0 {
        c
    } else {
        c.mul_spec(powers[p - 1])
    }
}

/// The operation of [`scaled`] accepts its operands.
pub open spec fn scaled_defined<T: Scalar>(c: T, powers: Seq<T>, p: int) -> bool {
    p != 0 ==> c.mul_req(powers[p - 1])
}

/// A sum with one term more: the term alone where nothing has been summed
/// yet, and the sum unchanged where the term is absent.
pub open spec fn plus<T: Scalar>(sum: Option<T>, term: Option<T>) -> Option<T> {
    match (sum, term) {
        (_, None) => sum,
        (None, Some(t)) => Some(t),
        (Some(s), Some(t)) => Some(s.add_spec(t)),
    }
}

/// The operation of [`plus`] accepts its operands.
pub open spec fn plus_defined<T: Scalar>(sum: Option<T>, term: Option<T>) -> bool {
    match (sum, term) {
        (Some(s), Some(t)) => s.add_req(t),
        _ => true,
    }
}

/// The term of a table entry in a polynomial: its ratio times the power `p`
/// of the parameter, or nothing for an absent entry.
pub open spec fn entry_term<T: Scalar>(entry: [i64; 2], powers: Seq<T>, p: int) -> Option<T> {
    if entry[0] == 0 {
        None
    } else {
        Some(scaled(ratio::<T>(entry), powers, p))
    }
}

/// The operations of [`entry_term`] accept their operands.
pub open spec fn entry_term_defined<T: Scalar>(entry: [i64; 2], powers: Seq<T>, p: int) -> bool {
    entry[0] != 0 ==> ratio_defined::<T>(entry) && scaled_defined(ratio::<T>(entry), powers, p)
}

/// The polynomial in one parameter with the coefficients `row[0..count]`,
/// summed from the constant term up.
pub open spec fn polynomial<T: Scalar, const J: usize>(
    row: [[i64; 2]; J],
    powers: Seq<T>,
    count: int,
) -> Option<T>
    decreases count,
{
    if count <= 0 {
        None
    } else {
        plus(polynomial(row, powers, count - 1), entry_term(row[count - 1], powers, count - 1))
    }
}

/// The operations of [`polynomial`] accept their operands.
pub open spec fn polynomial_defined<T: Scalar, const J: usize>(
    row: [[i64; 2]; J],
    powers: Seq<T>,
    count: int,
) -> bool
    decreases count,
{
    count <= 0 || {
        &&& polynomial_defined(row, powers, count - 1)
        &&& entry_term_defined(row[count - 1], powers, count - 1)
        &&& plus_defined(
            polynomial(row, powers, count - 1),
            entry_term(row[count - 1], powers, count - 1),
        )
    }
}

/// The term of a row of rows in a polynomial in two parameters: the
/// polynomial of the row in the second parameter, times the power `p` of the
/// first.
pub open spec fn row_term<T: Scalar, const J: usize>(
    row: [[i64; 2]; J],
    second: Seq<T>,
    first: Seq<T>,
    p: int,
) -> Option<T> {
    match polynomial(row, second, J as int) {
        None => None,
        Some(c) => Some(scaled(c, first, p)),
    }
}

/// The operations of [`row_term`] accept their operands.
pub open spec fn row_term_defined<T: Scalar, const J: usize>(
    row: [[i64; 2]; J],
    second: Seq<T>,
    first: Seq<T>,
    p: int,
) -> bool {
    &&& polynomial_defined(row, second, J as int)
    &&& polynomial(row, second, J as int) matches Some(c) ==> scaled_defined(c, first, p)
}

/// The polynomial in two parameters with the coefficients `rows[0..count]`:
/// row `k` holds the polynomial in the second parameter that goes with the
/// power `k` of the first.
pub open spec fn polynomial2<T: Scalar, const J: usize, const K: usize>(
    rows: [[[i64; 2]; J]; K],
    second: Seq<T>,
    first: Seq<T>,
    count: int,
) -> Option<T>
    decreases count,
{
    if count <= 0 {
        None
    } else {
        plus(
            polynomial2(rows, second, first, count - 1),
            row_term(rows[count - 1], second, first, count - 1),
        )
    }
}

/// The operations of [`polynomial2`] accept their operands.
pub open spec fn polynomial2_defined<T: Scalar, const J: usize, const K: usize>(
    rows: [[[i64; 2]; J]; K],
    second: Seq<T>,
    first: Seq<T>,
    count: int,
) -> bool
    decreases count,
{
    count <= 0 || {
        &&& polynomial2_defined(rows, second, first, count - 1)
        &&& row_term_defined(rows[count - 1], second, first, count - 1)
        &&& plus_defined(
            polynomial2(rows, second, first, count - 1),
            row_term(rows[count - 1], second, first, count - 1),
        )
    }
}

/// The term of a harmonic in a sine series: its coefficient, a polynomial
/// in two parameters, times its sine.
pub open spec fn harmonic_term<T: Scalar, const J: usize, const K: usize>(
    rows: [[[i64; 2]; J]; K],
    second: Seq<T>,
    first: Seq<T>,
    sine: T,
) -> Option<T> {
    match polynomial2(rows, second, first, K as int) {
        None => None,
        Some(c) => Some(c.mul_spec(sine)),
    }
}

/// The operations of [`harmonic_term`] accept their operands.
pub open spec fn harmonic_term_defined<T: Scalar, const J: usize, const K: usize>(
    rows: [[[i64; 2]; J]; K],
    second: Seq<T>,
    first: Seq<T>,
    sine: T,
) -> bool {
    &&& polynomial2_defined(rows, second, first, K as int)
    &&& polynomial2(rows, second, first, K as int) matches Some(c) ==> c.mul_req(sine)
}

/// The sine series of the harmonics `table[0..count]`: harmonic `l`
/// contributes its coefficient times `sines[l]`.
pub open spec fn sine_series<T: Scalar, const J: usize, const K: usize, const L: usize>(
    table: [[[[i64; 2]; J]; K]; L],
    second: Seq<T>,
    first: Seq<T>,
    sines: Seq<T>,
    count: int,
) -> Option<T>
    decreases count,
{
    if count <= 0 {
        None
    } else {
        plus(
            sine_series(table, second, first, sines, count - 1),
            harmonic_term(table[count - 1], second, first, sines[count - 1]),
        )
    }
}

/// The operations of [`sine_series`] accept their operands.
pub open spec fn sine_series_defined<T: Scalar, const J: usize, const K: usize, const L: usize>(
    table: [[[[i64; 2]; J]; K]; L],
    second: Seq<T>,
    first: Seq<T>,
    sines: Seq<T>,
    count: int,
) -> bool
    decreases count,
{
    count <= 0 || {
        &&& sine_series_defined(table, second, first, sines, count - 1)
        &&& harmonic_term_defined(table[count - 1], second, first, sines[count - 1])
        &&& plus_defined(
            sine_series(table, second, first, sines, count - 1),
            harmonic_term(table[count - 1], second, first, sines[count - 1]),
        )
    }
}

/// The digits put the number together again: in 64-bit whole numbers
/// [`whole`] is the number itself, and none of its operations overflows.
pub proof fn lemma_whole_is_the_number(v: i64)
    ensures
        whole_defined::<i64>(v),
        whole::<i64>(v) == v,
{
    if !(i32::MIN <= v <= i32::MAX) {
        let n = v as int;
        let base = BASE as int;
        let high = n / (base * base);
        let rest = n / base;
        let middle = rest % base;
        let low = n % base;
        assert(base == 2097152 && base * base == 4398046511104);
        assert(n == base * rest + low) by {
            vstd::arithmetic::div_mod::lemma_fundamental_div_mod(n, base);
        }
        assert(rest == base * (rest / base) + middle) by {
            vstd::arithmetic::div_mod::lemma_fundamental_div_mod(rest, base);
        }
        assert(rest / base == high) by {
            let q = rest / base;
            assert(n == q * (base * base) + (base * middle + low)) by (nonlinear_arith)
                requires
                    n == base * rest + low,
                    rest == base * q + middle,
            ;
            assert(0 <= base * middle + low < base * base) by (nonlinear_arith)
                requires
                    0 <= middle < base,
                    0 <= low < base,
            ;
            vstd::arithmetic::div_mod::lemma_fundamental_div_mod_converse(
                n,
                base * base,
                q,
                base * middle + low,
            );
        }
        assert(-2097152 <= high < 2097152);
        assert(high * base + middle == rest);
        assert(rest * base + low == n) by (nonlinear_arith)
            requires
                n == base * rest + low,
        ;
        assert(-4398046511104 <= high * base <= 4398046511104) by (nonlinear_arith)
            requires
                -2097152 <= high < 2097152,
                base == 2097152,
        ;
        assert(i64::MIN <= rest * base <= i64::MAX) by (nonlinear_arith)
            requires
                rest * base + low == n,
                0 <= low < base,
                i64::MIN <= n <= i64::MAX,
                base == 2097152,
        ;
    }
}

/// The row has an entry that is not absent.
pub open spec fn has_entry<const J: usize>(row: [[i64; 2]; J]) -> bool {
    exists|j: int| 0 <= j < J && (#[trigger] row[j])[0] != 0
}

/// One of the rows has an entry that is not absent.
pub open spec fn has_entry2<const J: usize, const K: usize>(rows: [[[i64; 2]; J]; K]) -> bool {
    exists|k: int| 0 <= k < K && has_entry(#[trigger] rows[k])
}

/// One of the harmonics of the table has an entry that is not absent.
pub open spec fn has_entry3<const J: usize, const K: usize, const L: usize>(
    table: [[[[i64; 2]; J]; K]; L],
) -> bool {
    exists|l: int| 0 <= l < L && has_entry2(#[trigger] table[l])
}

/// The coefficient of harmonic `l`, counted from 1, begins with the power
/// `l` of the first parameter: no entry of the table stands at a lower one.
pub open spec fn begins_at_its_harmonic<const J: usize, const K: usize, const L: usize>(
    table: [[[[i64; 2]; J]; K]; L],
) -> bool {
    forall|l: int, k: int, j: int|
        0 <= l < L && 0 <= k < K && 0 <= j < J && (#[trigger] table[l][k][j])[0] != 0 ==> k >= l + 1
}

/// The coefficient of harmonic `l`, counted from 1, goes on from the power
/// `l` of the first parameter in steps of two.
pub open spec fn goes_in_steps_of_two<const J: usize, const K: usize, const L: usize>(
    table: [[[[i64; 2]; J]; K]; L],
) -> bool {
    forall|l: int, k: int, j: int|
        0 <= l < L && 0 <= k < K && 0 <= j < J && (#[trigger] table[l][k][j])[0] != 0 ==> (k - l
            - 1) % 2 == 0
}

/// No term of the rows has the two powers add up to `order` or more, and
/// none has a higher power of the second parameter than of the first.
pub open spec fn stays_below_order<const J: usize, const K: usize>(
    rows: [[[i64; 2]; J]; K],
    order: int,
) -> bool {
    forall|k: int, j: int|
        0 <= k < K && 0 <= j < J && (#[trigger] rows[k][j])[0] != 0 ==> k + j < order && j <= k
}

/// Every denominator of the rows is positive.
pub open spec fn has_positive_denominators<const J: usize, const K: usize>(
    rows: [[[i64; 2]; J]; K],
) -> bool {
    forall|k: int, j: int| 0 <= k < K && 0 <= j < J ==> (#[trigger] rows[k][j])[1] > 0
}

/// A whole number as a value of `T`.
pub fn whole_of<T: Scalar>(v: i64) -> (r: T)
    requires
        computable::<T>(whole_defined::<T>(v)),
    ensures
        exact::<T>() ==> r == whole::<T>(v),
{
    if -2147483648 <= v && v <= 2147483647 {
        T::from(v as i32)
    } else {
        let square: i64 = BASE as i64 * BASE as i64;
        let high = v.checked_div_euclid(square).unwrap();
        let rest = v.checked_div_euclid(BASE as i64).unwrap();
        let middle = rest.checked_rem_euclid(BASE as i64).unwrap();
        let low = v.checked_rem_euclid(BASE as i64).unwrap();
        assert(-2097152 <= high < 2097152) by {
            assert(high == (v as int) / 4398046511104);
        }
        (T::from(high as i32) * T::from(BASE) + T::from(middle as i32)) * T::from(BASE) + T::from(
            low as i32,
        )
    }
}

/// The quotient of the two whole numbers of a table entry.
pub fn ratio_of<T: Scalar>(entry: &[i64; 2]) -> (r: T)
    requires
        computable::<T>(ratio_defined::<T>(*entry)),
    ensures
        exact::<T>() ==> r == ratio::<T>(*entry),
{
    whole_of::<T>(entry[0]) / whole_of::<T>(entry[1])
}

/// `c` times the power `p` of a parameter, `c` itself for `p == 0`.
fn scale<T: Scalar>(c: T, powers: &Vec<T>, p: usize) -> (r: T)
    requires
        p <= powers.len(),
        computable::<T>(scaled_defined(c, powers@, p as int)),
    ensures
        exact::<T>() ==> r == scaled(c, powers@, p as int),
{
    if p == 0 {
        c
    } else {
        c * powers[p - 1]
    }
}

/// A sum with one term more.
fn add_term<T: Scalar>(sum: Option<T>, term: Option<T>) -> (r: Option<T>)
    requires
        computable::<T>(plus_defined(sum, term)),
    ensures
        r.is_some() <==> sum.is_some() || term.is_some(),
        exact::<T>() ==> r == plus(sum, term),
{
    match term {
        None => sum,
        Some(t) => match sum {
            None => Some(t),
            Some(s) => Some(s + t),
        },
    }
}

/// A defined polynomial is defined up to each of its terms.
proof fn lemma_polynomial_defined_so_far<T: Scalar, const J: usize>(
    row: [[i64; 2]; J],
    powers: Seq<T>,
    count: int,
    upto: int,
)
    requires
        polynomial_defined(row, powers, count),
        upto <= count,
    ensures
        polynomial_defined(row, powers, upto),
    decreases count,
{
    if upto < count && count > 0 {
        lemma_polynomial_defined_so_far(row, powers, count - 1, upto);
    }
}

/// The polynomial in one parameter with the coefficients of `row`, where
/// `powers[p - 1]` is the power `p` of the parameter. `None` if every entry
/// of the row is absent.
pub fn polynomial_of<T: Scalar, const J: usize>(row: &[[i64; 2]; J], powers: &Vec<T>) -> (r:
    Option<T>)
    requires
        J <= powers.len() + 1,
        computable::<T>(polynomial_defined(*row, powers@, J as int)),
    ensures
        r.is_some() <==> has_entry(*row),
        exact::<T>() ==> r == polynomial(*row, powers@, J as int),
{
    let mut sum: Option<T> = None;
    let mut j: usize = 0;
    while j < J
        invariant
            j <= J,
            J <= powers.len() + 1,
            computable::<T>(polynomial_defined(*row, powers@, J as int)),
            sum.is_some() <==> exists|i: int| 0 <= i < j && (#[trigger] row[i])[0] != 0,
            exact::<T>() ==> sum == polynomial(*row, powers@, j as int),
        decreases J - j,
    {
        proof {
            if !total::<T>() {
                lemma_polynomial_defined_so_far(*row, powers@, J as int, j + 1);
            }
        }
        let term = if row[j][0] == 0 {
            None
        } else {
            Some(scale(ratio_of::<T>(&row[j]), powers, j))
        };
        sum = add_term(sum, term);
        j = j + 1;
    }
    sum
}

/// A defined polynomial in two parameters is defined up to each of its rows.
proof fn lemma_polynomial2_defined_so_far<T: Scalar, const J: usize, const K: usize>(
    rows: [[[i64; 2]; J]; K],
    second: Seq<T>,
    first: Seq<T>,
    count: int,
    upto: int,
)
    requires
        polynomial2_defined(rows, second, first, count),
        upto <= count,
    ensures
        polynomial2_defined(rows, second, first, upto),
    decreases count,
{
    if upto < count && count > 0 {
        lemma_polynomial2_defined_so_far(rows, second, first, count - 1, upto);
    }
}

/// The polynomial in two parameters with the coefficients of `rows`: row `k`
/// holds the polynomial in the second parameter that goes with the power `k`
/// of the first, and `first[p - 1]` and `second[p - 1]` are the powers `p`
/// of the two. `None` if every entry is absent.
pub fn polynomial2_of<T: Scalar, const J: usize, const K: usize>(
    rows: &[[[i64; 2]; J]; K],
    second: &Vec<T>,
    first: &Vec<T>,
) -> (r: Option<T>)
    requires
        J <= second.len() + 1,
        K <= first.len() + 1,
        computable::<T>(polynomial2_defined(*rows, second@, first@, K as int)),
    ensures
        r.is_some() <==> has_entry2(*rows),
        exact::<T>() ==> r == polynomial2(*rows, second@, first@, K as int),
{
    let mut sum: Option<T> = None;
    let mut k: usize = 0;
    while k < K
        invariant
            k <= K,
            J <= second.len() + 1,
            K <= first.len() + 1,
            computable::<T>(polynomial2_defined(*rows, second@, first@, K as int)),
            sum.is_some() <==> exists|i: int| 0 <= i < k && has_entry(#[trigger] rows[i]),
            exact::<T>() ==> sum == polynomial2(*rows, second@, first@, k as int),
        decreases K - k,
    {
        proof {
            if !total::<T>() {
                lemma_polynomial2_defined_so_far(*rows, second@, first@, K as int, k + 1);
            }
        }
        let term = match polynomial_of(&rows[k], second) {
            None => None,
            Some(c) => Some(scale(c, first, k)),
        };
        sum = add_term(sum, term);
        k = k + 1;
    }
    sum
}

/// A defined sine series is defined up to each of its harmonics.
proof fn lemma_sine_series_defined_so_far<
    T: Scalar,
    const J: usize,
    const K: usize,
    const L: usize,
>(table: [[[[i64; 2]; J]; K]; L], second: Seq<T>, first: Seq<T>, sines: Seq<T>, count: int, upto: int)
    requires
        sine_series_defined(table, second, first, sines, count),
        upto <= count,
    ensures
        sine_series_defined(table, second, first, sines, upto),
    decreases count,
{
    if upto < count && count > 0 {
        lemma_sine_series_defined_so_far(table, second, first, sines, count - 1, upto);
    }
}

/// The sine series of a table: harmonic `l` contributes its coefficient, the
/// polynomial in two parameters of `table[l]`, times `sines[l]`. `None` if
/// every entry is absent.
pub fn sine_series_of<T: Scalar, const J: usize, const K: usize, const L: usize>(
    table: &[[[[i64; 2]; J]; K]; L],
    second: &Vec<T>,
    first: &Vec<T>,
    sines: &Vec<T>,
) -> (r: Option<T>)
    requires
        J <= second.len() + 1,
        K <= first.len() + 1,
        L <= sines.len(),
        computable::<T>(sine_series_defined(*table, second@, first@, sines@, L as int)),
    ensures
        r.is_some() <==> has_entry3(*table),
        exact::<T>() ==> r == sine_series(*table, second@, first@, sines@, L as int),
{
    let mut sum: Option<T> = None;
    let mut l: usize = 0;
    while l < L
        invariant
            l <= L,
            J <= second.len() + 1,
            K <= first.len() + 1,
            L <= sines.len(),
            computable::<T>(sine_series_defined(*table, second@, first@, sines@, L as int)),
            sum.is_some() <==> exists|i: int| 0 <= i < l && has_entry2(#[trigger] table[i]),
            exact::<T>() ==> sum == sine_series(*table, second@, first@, sines@, l as int),
        decreases L - l,
    {
        proof {
            if !total::<T>() {
                lemma_sine_series_defined_so_far(*table, second@, first@, sines@, L as int, l + 1);
            }
        }
        let term = match polynomial2_of(&table[l], second, first) {
            None => None,
            Some(c) => Some(c * sines[l]),
        };
        sum = add_term(sum, term);
        l = l + 1;
    }
    sum
}

/// The polynomial with the whole coefficients `terms[from..]` at `x`, by
/// Horner's rule: `terms[from] + x * (terms[from + 1] + x * (...))`.
pub open spec fn horner<T: Scalar, const N: usize>(terms: [i64; N], x: T, from: int) -> T
    decreases N - from,
{
    if from >= N - 1 {
        whole::<T>(terms[N - 1])
    } else {
        whole::<T>(terms[from]).add_spec(x.mul_spec(horner(terms, x, from + 1)))
    }
}

/// The operations of [`horner`] accept their operands.
pub open spec fn horner_defined<T: Scalar, const N: usize>(terms: [i64; N], x: T, from: int) -> bool
    decreases N - from,
{
    if from >= N - 1 {
        whole_defined::<T>(terms[N - 1])
    } else {
        &&& horner_defined(terms, x, from + 1)
        &&& whole_defined::<T>(terms[from])
        &&& x.mul_req(horner(terms, x, from + 1))
        &&& whole::<T>(terms[from]).add_req(x.mul_spec(horner(terms, x, from + 1)))
    }
}

/// A polynomial with whole coefficients at `x`, by Horner's rule.
pub fn horner_of<T: Scalar, const N: usize>(terms: &[i64; N], x: T) -> (r: T)
    requires
        N >= 1,
        computable::<T>(horner_defined(*terms, x, 0)),
    ensures
        exact::<T>() ==> r == horner(*terms, x, 0),
{
    proof {
        if !total::<T>() {
            lemma_horner_defined_above(*terms, x, 0, N - 1);
        }
    }
    let mut value = whole_of::<T>(terms[N - 1]);
    let mut k: usize = N - 1;
    while k > 0
        invariant
            k <= N - 1,
            computable::<T>(horner_defined(*terms, x, 0)),
            exact::<T>() ==> value == horner(*terms, x, k as int),
        decreases k,
    {
        proof {
            if !total::<T>() {
                lemma_horner_defined_above(*terms, x, 0, k - 1);
            }
        }
        k = k - 1;
        value = whole_of::<T>(terms[k]) + x * value;
    }
    value
}

/// A polynomial that is defined from one term on is defined from every later
/// term on.
proof fn lemma_horner_defined_above<T: Scalar, const N: usize>(
    terms: [i64; N],
    x: T,
    from: int,
    above: int,
)
    requires
        horner_defined(terms, x, from),
        from <= above,
    ensures
        horner_defined(terms, x, above),
    decreases above - from,
{
    if from < above {
        if from >= N - 1 {
        } else {
            lemma_horner_defined_above(terms, x, from + 1, above);
        }
    }
}

} // verus!
