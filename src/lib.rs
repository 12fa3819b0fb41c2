//! The discrete core of a Monte Carlo path tracer: the termination policy of
//! the path integrator, the root-selection rule of ray/sphere intersection,
//! the scattering rules of the three materials, and the raster row order.
//! The floating-point arithmetic that feeds these rules lives with the caller.

pub mod path;
pub mod raster;
pub mod root;
pub mod scatter;
pub mod scan;
