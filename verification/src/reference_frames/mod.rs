//! Points and velocities in the frames of the pipeline: geodetic,
//! Earth-centred Earth-fixed, the two frames that take the Earth's
//! orientation out of it, and the two local tangent planes.

pub mod ecef;
pub mod enu;
pub mod laws;
pub mod ned;
pub mod pef;
pub mod teme;
pub mod wgs84;
