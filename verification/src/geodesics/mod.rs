//! The arithmetic of the geodesic solvers.

pub mod karney;
pub mod vincenty;
