//! Positions, bearings and velocities on and around the WGS84 ellipsoid.
//!
//! This crate is the exact kernel of the toolkit, free of floating point:
//!
//! - [`time`]: calendar time and its Julian date in integer arithmetic, with
//!   the laws of [`time_laws`];
//! - [`iteration`]: the bounded loop behind the iterative solvers;
//! - [`scalar`], [`matrix`], [`series`]: arithmetic over a generic number
//!   type, with the laws of [`matrix_laws`] in whole numbers and of
//!   [`ring_laws`] in every commutative ring;
//! - [`orientation`], [`reference_frames`]: the rotations and frames of the
//!   transform pipeline;
//! - [`geodesics`]: the series and correction polynomials of the two
//!   geodesic solvers.
//!
//! Sines, cosines, arc tangents and square roots are taken by the caller and
//! handed in as values.

pub mod error;
pub mod geodesics;
pub mod iteration;
pub mod matrix;
pub mod matrix_laws;
pub mod orientation;
pub mod reference_frames;
pub mod ring_laws;
pub mod scalar;
pub mod series;
pub mod time;
pub mod time_laws;
