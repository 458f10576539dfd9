//! Trajectories of light rays bending through a variable-density atmosphere
//! above a flat or spherical planet, and the observable quantities derived
//! from them: altitude at a distance, local ray slope, horizon distance and
//! astronomical deflection.
//!
//! All quantities are held in signed fixed point: an `i128` counts units
//! of `10^-12` of the physical unit (meters, radians, pascals, kelvins, or
//! a dimensionless ratio).

pub mod atmosphere;
pub mod fx;
pub mod integrator;
pub mod laws;
pub mod params;
pub mod path;
pub mod ray_state;

pub use fx::SCALE;
