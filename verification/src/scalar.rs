//! The numbers that vectors, matrices and series are made of.
//!
//! The arithmetic of the toolkit is written once, for any number type with
//! the four operations, a sign change and a conversion from the whole numbers
//! of 32 bits. What a function returns is stated over the operations' own
//! specifications, term by term and in the order in which the operations are
//! carried out.
//!
//! The statement binds for a type whose operations are exact, in the sense of
//! [`exact`]: `i64`, `i128`, or a rational type. For a floating-point type,
//! whose rounding has no specification, the functions are the same
//! straight-line arithmetic in the same order; what is then known of a call
//! is that it returns, and the shape of what it returns.
//!
//! An operation may refuse operands: integer addition refuses a sum that
//! overflows. A function therefore asks, with [`computable`], either that no
//! operation of the type refuses anything, or that the operations are exact
//! and accept the operands that this computation meets, which its
//! `..._defined` predicate spells out.

use core::ops::{Add, Div, Mul, Neg, Sub};
use vstd::prelude::*;
use vstd::std_specs::cmp::PartialEqSpec;
use vstd::std_specs::convert::FromSpec;
use vstd::std_specs::ops::{AddSpec, DivSpec, MulSpec, NegSpec, SubSpec};

verus! {

/// A number type with the four operations, a sign change and a conversion
/// from the small whole numbers.
pub trait Scalar: Copy + Add<Output = Self> + Sub<Output = Self> + Mul<Output = Self> + Div<
    Output = Self,
> + Neg<Output = Self> + From<i32> {

}

impl<T> Scalar for T where
    T: Copy + Add<Output = T> + Sub<Output = T> + Mul<Output = T> + Div<Output = T> + Neg<
        Output = T,
    > + From<i32>,
 {

}

/// Each operation of `T` returns what its specification says.
pub open spec fn exact<T: Scalar>() -> bool {
    &&& T::obeys_add_spec()
    &&& T::obeys_sub_spec()
    &&& T::obeys_mul_spec()
    &&& T::obeys_div_spec()
    &&& T::obeys_neg_spec()
    &&& <T as FromSpec<i32>>::obeys_from_spec()
}

/// Zero as a value of `T`.
pub open spec fn zero<T: Scalar>() -> T {
    T::from_spec(0i32)
}

/// One as a value of `T`.
pub open spec fn one<T: Scalar>() -> T {
    T::from_spec(1i32)
}

/// Each operation of `T` accepts every operand: none has a precondition.
pub open spec fn total<T: Scalar>() -> bool {
    &&& forall|a: T, b: T| #[trigger] a.add_req(b)
    &&& forall|a: T, b: T| #[trigger] a.sub_req(b)
    &&& forall|a: T, b: T| #[trigger] a.mul_req(b)
    &&& forall|a: T, b: T| #[trigger] a.div_req(b)
    &&& forall|a: T| #[trigger] a.neg_req()
}

/// The equality test of `T` returns what its specification says, and its
/// specification is equality.
pub open spec fn exact_equality<T: PartialEq>() -> bool {
    &&& T::obeys_eq_spec()
    &&& forall|a: T, b: T| #[trigger] a.eq_spec(&b) <==> a == b
}

/// A computation over `T` can be carried out: either no operation of `T`
/// refuses an operand, or the operations are exact and `defined` says that
/// they accept the operands that this computation meets.
pub open spec fn computable<T: Scalar>(defined: bool) -> bool {
    total::<T>() || (exact::<T>() && defined)
}

/// `a.0 * b.0 + a.1 * b.1 + a.2 * b.2`, summed from the left.
pub open spec fn dot3<T: Scalar>(a: (T, T, T), b: (T, T, T)) -> T {
    a.0.mul_spec(b.0).add_spec(a.1.mul_spec(b.1)).add_spec(a.2.mul_spec(b.2))
}

/// The operations of [`dot3`] accept their operands.
pub open spec fn dot3_defined<T: Scalar>(a: (T, T, T), b: (T, T, T)) -> bool {
    &&& a.0.mul_req(b.0)
    &&& a.1.mul_req(b.1)
    &&& a.2.mul_req(b.2)
    &&& a.0.mul_spec(b.0).add_req(a.1.mul_spec(b.1))
    &&& a.0.mul_spec(b.0).add_spec(a.1.mul_spec(b.1)).add_req(a.2.mul_spec(b.2))
}

/// The scalar product of two triples.
pub(crate) fn dot<T: Scalar>(a: (T, T, T), b: (T, T, T)) -> (r: T)
    requires
        computable::<T>(dot3_defined(a, b)),
    ensures
        exact::<T>() ==> r == dot3(a, b),
{
    a.0 * b.0 + a.1 * b.1 + a.2 * b.2
}

} // verus!
