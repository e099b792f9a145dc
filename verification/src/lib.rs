//! An n-body gravitational simulator with a verified core.
//!
//! The simulation advances a set of point masses under mutual Newtonian
//! gravitation in discrete time steps. Scalars are IEEE-754 binary64 bit
//! patterns (see [`scalar`]), so every arithmetic step of the force pass and
//! of the integration rule is pinned down exactly in the contracts.

pub mod ephemeris;
pub mod particle;
pub mod point;
pub mod records;
pub mod scalar;
pub mod system;
