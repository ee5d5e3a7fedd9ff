//! The failures that a solver or a transform reports.

use vstd::prelude::*;

verus! {

#[derive(Clone, Copy, Debug, PartialEq, Eq, Structural)]
pub enum GeoError {
    /// An iteration used up its refinements before it met its tolerance.
    NonConvergence,
    /// A matrix to invert has a determinant that is zero, or too close to
    /// zero to divide by.
    SingularTransform,
    /// The question has no single answer: the two points of an inverse
    /// geodesic problem coincide or lie opposite each other, so that no
    /// bearing leads from one to the other before all others.
    DegenerateInput,
}

} // verus!
